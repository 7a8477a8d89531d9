//! The hop cycle, driven against a model of the engine's player physics: the jump is looked at before
//! friction, then comes acceleration, then gravity.
use glam::Vec2;
use rtx::bot::bhop::{weave_sigma, Bhop, HopMove, Input, OffReason, Phase};

const AIR_CAP: f32 = 30.0;
const MOVE_SPEED: f32 = 800.0;
const T_HOP: f32 = 0.675;
const FLIPS_PER_HOP: f32 = 3.0;
const DT: f32 = 1.0 / 77.0;
const ACCEL: f32 = 10.0;
const MAXSPEED: f32 = 320.0;
const JUMP_VZ: f32 = 270.0;
const GRAVITY: f32 = 800.0;
const FRICTION: f32 = 4.0;
const STOPSPEED: f32 = 100.0;

fn wrap180(a: f32) -> f32 {
    let mut a = a % 360.0;
    if a > 180.0 {
        a -= 360.0;
    } else if a < -180.0 {
        a += 360.0;
    }
    a
}

fn airaccel(v: Vec2, wishdir: Vec2, wishspeed: f32) -> Vec2 {
    let addspeed = wishspeed.min(AIR_CAP) - v.dot(wishdir);
    if addspeed <= 0.0 {
        return v;
    }
    v + wishdir * (ACCEL * wishspeed * DT).min(addspeed)
}

fn groundaccel(v: Vec2, wishdir: Vec2, wishspeed: f32) -> Vec2 {
    let addspeed = wishspeed - v.dot(wishdir);
    if addspeed <= 0.0 {
        return v;
    }
    v + wishdir * (ACCEL * wishspeed * DT).min(addspeed)
}

fn friction(v: Vec2) -> Vec2 {
    let speed = v.length();
    if speed < 1.0 {
        return Vec2::ZERO;
    }
    let drop = speed.max(STOPSPEED) * FRICTION * DT;
    v * ((speed - drop).max(0.0) / speed)
}

fn wishdir_fs(view_yaw: f32, forward: f32, side: f32) -> Vec2 {
    let (sy, cy) = view_yaw.to_radians().sin_cos();
    (Vec2::new(cy, sy) * forward + Vec2::new(sy, -cy) * side).normalize_or_zero()
}

#[derive(Clone, Copy)]
struct Cmd {
    view_yaw: f32,
    forward: f32,
    side: f32,
    jump: bool,
}

fn band(speed: f32) -> f32 {
    let psi = (AIR_CAP / speed.max(1.0)).atan().to_degrees();
    (psi * (T_HOP / DT) / (2.0 * FLIPS_PER_HOP)).clamp(8.0, 45.0)
}

fn side_of(err: f32, sigma: i8, speed: f32) -> i8 {
    weave_sigma((err * 1_000.0) as i32, sigma, (band(speed) * 1_000.0) as u32)
}

fn strafe(v: Vec2, bearing: f32, sigma: i8) -> (Cmd, i8) {
    let speed = v.length().max(1.0);
    let vel_yaw = v.y.atan2(v.x).to_degrees();
    let sigma = side_of(wrap180(bearing - vel_yaw), sigma, speed);
    let a_max = ACCEL * MAXSPEED * DT;
    let u_star = (AIR_CAP - a_max.min(AIR_CAP)).max(0.0);
    let theta = (u_star / speed).clamp(0.0, 1.0).acos().to_degrees();
    let s = sigma as f32;
    (
        Cmd { view_yaw: wrap180(vel_yaw + s * (theta - 90.0)), forward: 0.0, side: -s * MOVE_SPEED, jump: false },
        sigma,
    )
}

fn prestrafe(v: Vec2, bearing: f32, sigma: i8) -> (Cmd, i8) {
    let speed = v.length();
    let u_star = (MAXSPEED - ACCEL * MAXSPEED * DT).max(0.0);
    if speed <= u_star.max(60.0) {
        return (run_cmd(bearing), sigma);
    }
    let vel_yaw = v.y.atan2(v.x).to_degrees();
    let sigma = side_of(wrap180(bearing - vel_yaw), sigma, speed);
    let theta_g = (u_star / speed).clamp(0.0, 1.0).acos().to_degrees();
    let delta = wrap180(vel_yaw + sigma as f32 * theta_g - bearing);
    let (ds, dc) = delta.to_radians().sin_cos();
    (Cmd { view_yaw: bearing, forward: MOVE_SPEED * dc, side: -MOVE_SPEED * ds, jump: false }, sigma)
}

fn run_cmd(bearing: f32) -> Cmd {
    Cmd { view_yaw: bearing, forward: MOVE_SPEED, side: 0.0, jump: false }
}

struct World {
    pos: Vec2,
    z: f32,
    vz: f32,
    v: Vec2,
    on_ground: bool,
    jump_held: bool,
}

fn grounded(speed: f32) -> World {
    World { pos: Vec2::ZERO, z: 0.0, vz: 0.0, v: Vec2::new(speed, 0.0), on_ground: true, jump_held: false }
}

fn pm_frame(w: &mut World, cmd: &Cmd, deny_jump: bool) {
    if !cmd.jump {
        w.jump_held = false;
    } else if w.on_ground && !w.jump_held && !deny_jump {
        w.on_ground = false;
        w.vz = JUMP_VZ;
        w.jump_held = true;
    }
    if w.on_ground {
        w.v = friction(w.v);
    }
    let wishdir = wishdir_fs(cmd.view_yaw, cmd.forward, cmd.side);
    let wishspeed = Vec2::new(cmd.forward, cmd.side).length().min(MAXSPEED);
    if w.on_ground {
        w.v = groundaccel(w.v, wishdir, wishspeed);
    } else {
        w.v = airaccel(w.v, wishdir, wishspeed);
        w.vz -= GRAVITY * DT;
        w.z += w.vz * DT;
        if w.z <= 0.0 && w.vz <= 0.0 {
            w.z = 0.0;
            w.vz = 0.0;
            w.on_ground = true;
        }
    }
    w.pos += w.v * DT;
}

fn input(w: &World, runway: f32, now: f32) -> Input {
    Input {
        speed: (w.v.length() * 1000.0) as u32,
        on_ground: w.on_ground,
        runway: (runway * 1000.0) as u32,
        eligible: true,
        sustain: true,
        veto: false,
        committed: false,
        hold_jump: false,
        now: (now * 1000.0) as i64,
    }
}

/// One frame of the controller with its strafe worked out.
fn drive(b: &mut Bhop, w: &World, bearing: f32, runway: f32, now: f32) -> Option<Cmd> {
    let asked = b.step(&input(w, runway, now))?;
    let (mut cmd, sigma) = match asked {
        HopMove::Ground => prestrafe(w.v, bearing, b.sigma),
        _ => strafe(w.v, bearing, b.sigma),
    };
    b.weave(sigma);
    cmd.jump = asked == HopMove::Jump;
    Some(cmd)
}

fn mean_heading(tail: &[Vec2]) -> f32 {
    let sum: Vec2 = tail.iter().map(|v| v.normalize_or_zero()).sum();
    sum.y.atan2(sum.x).to_degrees()
}

#[test]
fn full_run_ramps_320_to_550() {
    let mut w = grounded(320.0);
    let mut b = Bhop::blank();
    let mut launch_speed = None;
    let mut trace = Vec::new();
    for f in 0..770 {
        let now = f as f32 * DT;
        let phase_was = b.phase;
        let cmd = drive(&mut b, &w, 0.0, 4096.0, now).unwrap_or(run_cmd(0.0));
        if phase_was == Phase::Prestrafe && b.phase == Phase::Hop {
            launch_speed = Some(w.v.length());
        }
        pm_frame(&mut w, &cmd, false);
        trace.push(w.v);
    }
    let launch = launch_speed.expect("never launched from prestrafe");
    assert!(launch >= 420.0, "launched at only {launch} ups");
    assert!(w.v.length() >= 550.0, "only {} ups after 10s (peak {})", w.v.length(), b.peak);
    let heading = mean_heading(&trace[trace.len() - 77..]);
    assert!(heading.abs() < 8.0, "mean heading drifted to {heading}");
    assert!(b.hops >= 3, "only {} hops in 10s", b.hops);
    let flips_per_hop = b.flips as f32 / b.hops as f32;
    assert!((1.0..=6.0).contains(&flips_per_hop), "{} flips over {} hops", b.flips, b.hops);
}

#[test]
fn tracks_a_30_degree_bend() {
    let mut w = grounded(450.0);
    let mut b = Bhop::blank();
    let mut trace = Vec::new();
    for f in 0..539 {
        let now = f as f32 * DT;
        let bearing = if now < 3.0 { 0.0 } else { 30.0 };
        let cmd = drive(&mut b, &w, bearing, 4096.0, now).unwrap_or(run_cmd(bearing));
        pm_frame(&mut w, &cmd, false);
        trace.push(w.v);
    }
    let heading = mean_heading(&trace[trace.len() - 38..]);
    assert!((heading - 30.0).abs() < 10.0, "did not converge to 30 degrees: {heading}");
}

#[test]
fn landing_frames_never_lose_speed() {
    let mut w = grounded(450.0);
    let mut b = Bhop::blank();
    for f in 0..770 {
        let now = f as f32 * DT;
        let grounded_in_hop = w.on_ground && b.phase == Phase::Hop;
        let before = w.v.length();
        let cmd = drive(&mut b, &w, 0.0, 4096.0, now).unwrap_or(run_cmd(0.0));
        pm_frame(&mut w, &cmd, false);
        if grounded_in_hop {
            assert!(
                w.v.length() >= before - 0.01,
                "landing frame lost speed at t={now}: {before} -> {}",
                w.v.length()
            );
        }
    }
    assert!(b.hops >= 5, "hop cycle never got going ({} hops)", b.hops);
}

#[test]
fn denied_jump_pulses_and_recovers() {
    let mut w = grounded(450.0);
    let mut b = Bhop::blank();
    let mut denied_at = None;
    for f in 0..770 {
        let now = f as f32 * DT;
        let cmd = drive(&mut b, &w, 0.0, 4096.0, now).unwrap_or(run_cmd(0.0));
        let deny = cmd.jump && denied_at.is_none() && {
            denied_at = Some(f);
            true
        };
        pm_frame(&mut w, &cmd, deny);
        if let Some(d) = denied_at {
            if !w.on_ground {
                assert!(f - d <= 3, "took {} frames to recover from a denied jump", f - d);
                return;
            }
        }
    }
    panic!("never airborne after the denied jump");
}

#[test]
fn disengages_only_on_ground() {
    let mut w = grounded(450.0);
    let mut b = Bhop::blank();
    for f in 0..1540 {
        let now = f as f32 * DT;
        let runway = 2048.0 - w.pos.length();
        let was_on = b.phase != Phase::Off;
        match drive(&mut b, &w, 0.0, runway.max(0.0), now) {
            Some(cmd) => pm_frame(&mut w, &cmd, false),
            None => {
                if was_on {
                    assert!(w.on_ground, "disengaged mid-air at t={now}");
                    assert_eq!(b.off_reason, OffReason::Runway);
                    assert!(b.hops >= 1, "never hopped before the runway ran out");
                    return;
                }
                pm_frame(&mut w, &run_cmd(0.0), false);
            }
        }
    }
    panic!("never disengaged on the shrinking runway");
}

/// Nothing but a veto ends a run in the air, and a veto always does.
#[test]
fn a_veto_ends_a_run() {
    let mut b = Bhop::blank();
    let w = grounded(500.0);
    let mut i = input(&w, 4096.0, 1.0);
    i.committed = true;
    assert_eq!(b.step(&i), Some(HopMove::Jump));
    i.on_ground = false;
    i.sustain = false;
    i.runway = 0;
    i.committed = false;
    assert_eq!(b.step(&i), Some(HopMove::Air));
    i.veto = true;
    assert_eq!(b.step(&i), None);
    assert_eq!(b.phase, Phase::Off);
    assert_eq!(b.off_reason, OffReason::Veto);
}

#[test]
fn a_lost_leg_ends_a_run_on_landing() {
    let mut b = Bhop::blank();
    let w = grounded(500.0);
    let mut i = input(&w, 4096.0, 1.0);
    i.committed = true;
    b.step(&i);
    i.committed = false;
    i.sustain = false;
    assert_eq!(b.step(&i), None);
    assert_eq!(b.off_reason, OffReason::Leg);
}

#[test]
fn too_slow_at_the_edge_keeps_circling() {
    let mut b = Bhop::blank();
    let w = grounded(500.0);
    let mut i = input(&w, 4096.0, 1.0);
    i.committed = true;
    i.hold_jump = true;
    assert_eq!(b.step(&i), Some(HopMove::Ground));
    assert_eq!(b.hops, 0);
}
