//! Grenades in flight, falls and corridors, with the vectors of the world outside the library.
use glam::{Vec3, Vec3Swizzles};
use rtx::bot::combat::{Fall, FallStep, FALL_STEPS};
use rtx::bot::drive::{Runway, RunwayStep};
use rtx::bot::grenade::{
    bank_holds, bank_jitters, bank_view, pick_bank, BankSim, BounceFacts, Flight, FlightEnd, FlightStep, BANK_VIEWS,
    BOUNCE_MAX, FUSE_MICROS,
};
use rtx::bot::nav::LinkKind;

const G: f32 = 800.0;
const GL_FUSE: f32 = 2.5;

/// How far a move got, where it ended, and the normal of what stopped it.
struct Met {
    fraction: f32,
    endpos: Vec3,
    normal: Vec3,
}

fn open(_: Vec3, b: Vec3) -> Met {
    Met { fraction: 1.0, endpos: b, normal: Vec3::ZERO }
}

/// An endless floor at height zero.
fn floor(a: Vec3, b: Vec3) -> Met {
    if b.z >= 0.0 {
        return open(a, b);
    }
    let f = if (a.z - b.z).abs() < 1e-6 { 0.0 } else { (a.z / (a.z - b.z)).clamp(0.0, 1.0) };
    Met { fraction: f, endpos: a + (b - a) * f, normal: Vec3::new(0.0, 0.0, 1.0) }
}

fn milli(x: f32) -> u32 {
    (x * 1000.0) as u32
}

fn micros(t: f32) -> u32 {
    (t * 1e6).round() as u32
}

fn seg_dist(p: Vec3, a: Vec3, b: Vec3) -> f32 {
    let ab = b - a;
    let len2 = ab.length_squared();
    let t = if len2 < 1e-6 { 0.0 } else { ((p - a).dot(ab) / len2).clamp(0.0, 1.0) };
    (a + ab * t - p).length()
}

fn launch(view: Vec3) -> Vec3 {
    let (sy, cy) = view.y.to_radians().sin_cos();
    let (sp, cp) = view.x.to_radians().sin_cos();
    Vec3::new(cp * cy, cp * sy, -sp) * 600.0 + Vec3::new(sp * cy, sp * sy, cp) * 200.0
}

/// Fly a grenade to its end: where it goes off and what the flight came to.
fn fly(
    trace: &impl Fn(Vec3, Vec3) -> Met,
    p0: Vec3,
    v0: Vec3,
    enemy_at: &impl Fn(f32) -> Vec3,
) -> (Vec3, BankSim) {
    let (mut p, mut v) = (p0, v0);
    let mut flight = Flight::thrown();
    loop {
        let t = flight.micros as f32 / 1e6;
        let dt = (16.0 / v.length().max(1.0)).min(0.02);
        v.z -= G * dt;
        let target = p + v * dt;
        let met = trace(p, target);
        let hit = met.fraction < 1.0;
        let end = if hit { met.endpos } else { target };
        let (enemy, home) = (seg_dist(enemy_at(t), p, end), seg_dist(p0, p, end));
        let bounce = if hit {
            v -= 1.5 * v.dot(met.normal) * met.normal;
            p = met.endpos + met.normal * 0.25;
            Some(BounceFacts {
                dist: milli((met.endpos - p0).length()),
                lean: (met.normal.z * 1000.0) as i32,
                speed: milli(v.length()),
            })
        } else {
            p = target;
            None
        };
        let took = if hit { met.fraction * dt } else { dt };
        let step = FlightStep { micros: micros(took), enemy: milli(enemy), home: milli(home), bounce };
        let over = flight.simulate_bounce(&step);
        if over != FlightEnd::Flying {
            let at = if over == FlightEnd::Touched { end } else { p };
            let when = if over == FlightEnd::Touched { t } else { GL_FUSE };
            return (at, flight.came_to(over, milli((enemy_at(when) - at).length())));
        }
    }
}

/// Search for a bank shot.
fn solve_bank(trace: &impl Fn(Vec3, Vec3) -> Met, p0: Vec3, enemy: Vec3) -> Option<Vec3> {
    let to = (enemy - p0).xy();
    let bearing = to.y.atan2(to.x).to_degrees();
    let look = |view: (i32, i32)| Vec3::new(view.0 as f32 / 1000.0, bearing + view.1 as f32 / 1000.0, 0.0);
    let sims: Vec<BankSim> = (0..BANK_VIEWS).map(|i| fly(trace, p0, launch(look(bank_view(i))), &|_| enemy).1).collect();
    let best = bank_view(pick_bank(&sims)?);
    let near: Vec<BankSim> = bank_jitters()
        .iter()
        .map(|j| fly(trace, p0, launch(look((best.0 + j.0, best.1 + j.1))), &|_| enemy).1)
        .collect();
    if bank_holds(&near) { Some(look(best)) } else { None }
}

#[test]
fn bounce_fuse_in_open_matches_closed_form() {
    // Nothing to meet: it flies free and goes off when the fuse is out.
    let far = |_: f32| Vec3::new(100000.0, 0.0, 0.0);
    let v0 = launch(Vec3::new(-30.0, 0.0, 0.0));
    let (at, sim) = fly(&open, Vec3::ZERO, v0, &far);
    assert!(!sim.hit);
    assert!((sim.det_time as f32 / 1000.0 - GL_FUSE).abs() < 0.03);
    let want = v0 * GL_FUSE - Vec3::new(0.0, 0.0, 0.5 * G * GL_FUSE * GL_FUSE);
    assert!((at - want).length() < 40.0, "{at:?} {want:?}");
}

#[test]
fn bounce_touches_enemy_on_the_path() {
    let v0 = launch(Vec3::new(18.435, 0.0, 0.0));
    let enemy = |_: f32| Vec3::new(120.0, 0.0, 45.0);
    let (_, sim) = fly(&open, Vec3::new(0.0, 0.0, 60.0), v0, &enemy);
    assert!(sim.hit, "should touch the enemy");
    assert!((sim.det_time as f32) < GL_FUSE * 1000.0);
}

#[test]
fn solve_bank_open_space_and_out_of_range() {
    let from = Vec3::new(0.0, 0.0, 40.0);
    let sim = solve_bank(&floor, from, Vec3::new(300.0, 0.0, 40.0));
    assert!(sim.is_some(), "should find a lob onto a reachable enemy");
    let none = solve_bank(&floor, from, Vec3::new(1500.0, 0.0, 40.0));
    assert!(none.is_none());
}

const STEP: FlightStep = FlightStep { micros: 20_000, enemy: 500_000, home: 100_000, bounce: None };

#[test]
fn flights_end_in_five_ways() {
    let off = |lean, speed| Some(BounceFacts { dist: 90_000, lean, speed });
    let mut f = Flight::thrown();
    assert_eq!(f.simulate_bounce(&FlightStep { enemy: 31_999, ..STEP }), FlightEnd::Touched);
    assert_eq!(f.micros, 0);
    assert_eq!(f.came_to(FlightEnd::Touched, 10), BankSim {
        hit: true,
        det_dist: 10,
        det_time: 0,
        bounces: 0,
        self_return: u32::MAX,
        first_bounce: u32::MAX,
    });
    assert_eq!(f.simulate_bounce(&FlightStep { enemy: 32_000, ..STEP }), FlightEnd::Flying);
    // A slow bounce off a wall is no rest; off a floor it is.
    assert_eq!(f.simulate_bounce(&FlightStep { bounce: off(700, 10_000), ..STEP }), FlightEnd::Flying);
    assert_eq!(f.simulate_bounce(&FlightStep { bounce: off(1000, 60_000), ..STEP }), FlightEnd::Flying);
    assert_eq!(f.bounces, 2);
    assert_eq!(f.first_bounce, 90_000);
    let mut g = f;
    assert_eq!(g.simulate_bounce(&FlightStep { bounce: off(701, 59_999), ..STEP }), FlightEnd::Rested);
    assert_eq!(g.came_to(FlightEnd::Rested, 0).det_time, 2500);
    let mut left = FlightEnd::Flying;
    while left == FlightEnd::Flying {
        left = f.simulate_bounce(&FlightStep { micros: 1000, bounce: off(0, 900_000), ..STEP });
    }
    assert_eq!(left, FlightEnd::Lost);
    assert_eq!(f.bounces, BOUNCE_MAX + 1);
    assert_eq!(f.came_to(FlightEnd::Lost, 0).det_time, 67);
    let mut h = Flight { micros: FUSE_MICROS - 1, ..Flight::thrown() };
    assert_eq!(h.simulate_bounce(&FlightStep { micros: 1, ..STEP }), FlightEnd::Fuse);
}

#[test]
fn the_way_back_counts_after_a_moment() {
    let mut f = Flight { micros: 300_000, ..Flight::thrown() };
    f.simulate_bounce(&STEP);
    assert_eq!(f.self_return, u32::MAX);
    f.simulate_bounce(&STEP);
    assert_eq!(f.self_return, 100_000);
    f.simulate_bounce(&FlightStep { home: 200_000, ..STEP });
    assert_eq!(f.self_return, 100_000);
}

#[test]
fn bank_views_fan_out() {
    let yaws: Vec<i32> = (0..7).map(|k| bank_view(4 * k).1).collect();
    assert_eq!(yaws, vec![0, 15_000, -15_000, 30_000, -30_000, 45_000, -45_000]);
    let pitches: Vec<i32> = (0..4).map(|k| bank_view(8 + k).0).collect();
    assert_eq!(pitches, vec![-40_000, -25_000, -10_000, 5_000]);
    assert_eq!(bank_jitters(), [(1500, 0), (-1500, 0), (0, 1500), (0, -1500)]);
}

#[test]
fn falls_end_on_floors() {
    let mut f = Fall::begins();
    assert_eq!(f.fall_land(20_000, None, 60_000), FallStep::Falling);
    assert_eq!(f.fall_land(20_000, Some(700), 60_000), FallStep::Falling);
    let mut g = f;
    assert_eq!(g.fall_land(5_000, Some(701), 60_000), FallStep::Lands(45_000));
    assert_eq!(f.fall_land(20_000, None, 60_000), FallStep::Unknown);
    let mut s = Fall { steps: FALL_STEPS - 1, micros: 0 };
    assert_eq!(s.fall_land(1, None, 60_000), FallStep::Unknown);
}

#[test]
fn corridors_end_at_bends() {
    let mut w = Runway::start();
    for _ in 0..2 {
        assert_eq!(w.runway(LinkKind::Walk, 32_000, 0), RunwayStep::On);
    }
    assert_eq!(w.runway(LinkKind::Step, 32_000, 170_000), RunwayStep::Chord);
    for _ in 0..2 {
        assert_eq!(w.runway(LinkKind::Walk, 32_000, 0), RunwayStep::On);
    }
    // A gentle bend goes on, also across the half turn; a sharp one ends the corridor before it.
    let mut gentle = w;
    assert_eq!(gentle.runway(LinkKind::Walk, 32_000, -155_000), RunwayStep::Chord);
    assert_eq!(gentle.dist, 192_000);
    assert_eq!(w.runway(LinkKind::Walk, 32_000, -154_999), RunwayStep::Ends(96_000));
    assert_eq!(gentle.runway(LinkKind::JumpGap, 32_000, 0), RunwayStep::Ends(192_000));
}
