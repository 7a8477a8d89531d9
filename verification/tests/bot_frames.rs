//! Frames of bots: legs and lifts, errands, hooks, watchdogs and buttons.
use rtx::abi::EntVars;
use rtx::bot::bhop::Phase;
use rtx::bot::drive::{
    detour_route, excuse_of, first_route, hold_leap, locate, press_jump, sense, stops_short, Banded, FrameStart, GateAct,
    HopFacts, JumpFacts, LegFacts, LegPlan, Lift, LookAt, MoveBy, RjDrive, RjLook, SplashStep, StuckVerdict, Takeoff,
    ViewBy, ViewFacts, Waypoint, IMPULSE_GRAPPLE, IMPULSE_ROCKET, IMPULSE_SHOTGUN,
};
use rtx::bot::hook::{drive_hook, HookCtx, HookDrive, HookLeg, HookLook};
use rtx::bot::nav::{gates_ready, live_penalties, Gate, Link, LinkKind, NavGraph};
use rtx::bot::objective::{choose_intent, Intent, MoveTo, Objective, Target};
use rtx::bot::perception::Senses;
use rtx::bot::state::{BotState, GrenadePhase, HookPhase, RjPhase, FAR};
use rtx::defs::{DeadFlag, Flags, Items, TakeDamage, Weapon, BUTTON_ATTACK, BUTTON_JUMP};
use rtx::entity::CombatState;
use rtx::game::GameState;

fn link(kind: LinkKind, gate: Option<usize>, plat: Option<usize>) -> Link {
    Link { kind, from: 0, to: 0, gate, plat }
}

/// Links of the kinds given, none gated.
fn graph(kinds: &[LinkKind]) -> NavGraph {
    NavGraph { links: kinds.iter().map(|&k| link(k, None, None)).collect(), gates: vec![] }
}

/// A bot that follows the first `n` links.
fn follower(n: u32) -> BotState {
    let mut b = BotState::joined(1);
    b.route = (0..n).collect();
    b.route_bands = vec![0; n as usize];
    b
}

const FAR_LEG: LegFacts = LegFacts { dist: 500_000, climb: 0, behind: false };

const STILL: HookDrive = HookDrive {
    look: HookLook::Keep,
    stand: false,
    approach: false,
    select: false,
    fire_ready: false,
    hold_fire: false,
    reset: false,
};

const NO_RJ: RjDrive = RjDrive {
    look: RjLook::Keep,
    stand: false,
    approach: false,
    correct: false,
    select: false,
    fire: false,
    jump_ready: false,
};

#[test]
fn bodies_are_sensed() {
    let mut v = EntVars::cleared();
    let mut c = CombatState::cleared();
    v.health = 10;
    v.flags = Flags::ONGROUND;
    v.items = Items::ROCKET_LAUNCHER;
    c.super_damage_finished = 5_001;
    let s = sense(&v, &c, 5_000, 13);
    assert!(s.alive && s.on_ground && s.has_rl && s.quad && !s.has_grapple && !s.air_jumped);
    assert_eq!(s.msec, 13);
    assert_eq!(sense(&v, &c, 5_001, 0).msec, 1);
    assert_eq!(sense(&v, &c, 5_001, 400).msec, 100);
    assert!(!sense(&v, &c, 5_001, 13).quad);
    v.deadflag = DeadFlag::Dying;
    assert!(!sense(&v, &c, 0, 13).alive);
}

#[test]
fn the_dead_pulse_attack_and_hold_nothing() {
    let mut b = follower(1);
    b.hold_item = 4;
    b.hold_until = 9_000;
    b.air_leg = Some(0);
    assert_eq!(b.begin_frame(true, false), FrameStart::Drive);
    assert_eq!(b.hold_item, 4);
    assert_eq!(b.begin_frame(false, true), FrameStart::Respawn { attack: false });
    assert_eq!((b.hold_item, b.hold_until, b.air_leg), (0, 0, None));
    assert_eq!(b.begin_frame(false, true), FrameStart::Respawn { attack: true });
    assert_eq!(b.begin_frame(false, false), FrameStart::Spawn);
}

#[test]
fn teleports_drop_the_route() {
    let mut b = follower(2);
    let c = b.commitment();
    b.note_displacement(c, None, 10);
    b.note_displacement(c, Some(200_000), 10);
    assert_eq!(b.route.len(), 2);
    b.sj_leg = Some(1);
    b.note_displacement(b.commitment(), Some(900_000), 10);
    assert_eq!(b.route.len(), 2, "a run-up is fast on purpose");
    b.sj_leg = None;
    b.note_displacement(b.commitment(), Some(200_001), 10);
    assert_eq!((b.route.len(), b.repath_time), (0, 10));
}

#[test]
fn lost_bots_have_no_cells() {
    assert_eq!(locate(Some(1), Some(2), Some(3)), Some((1, 2)));
    assert_eq!(locate(Some(1), None, Some(3)), Some((1, 3)));
    assert_eq!(locate(Some(1), None, None), None);
    assert_eq!(locate(None, Some(2), Some(3)), None);
}

#[test]
fn errands_end_when_the_door_opens_or_nothing_helps() {
    let gates = vec![Gate { button_cell: 7, activator: 3, shoot: true }];
    let g = NavGraph { links: vec![link(LinkKind::Walk, Some(0), None)], gates };
    let mut b = follower(1);
    let c = b.commitment();
    assert_eq!(b.effective_goal(&g, 5), 5);
    assert_eq!(b.errand_candidate(c, &g, &vec![true], 0), Some(0));
    assert_eq!(b.errand_candidate(c, &g, &vec![false], 0), None);
    // A button behind its own door is left alone for a while.
    b.start_errand(0, false, 7, vec![], 100);
    assert_eq!((b.gate, b.avoid_gate_until), (None, 6_100));
    assert_eq!(b.errand_candidate(c, &g, &vec![true], 6_099), None);
    assert_eq!(b.errand_candidate(c, &g, &vec![true], 6_100), Some(0));
    b.start_errand(0, true, 7, vec![0], 7_000);
    assert_eq!((b.gate, b.gate_best_dist, b.route_bands.len()), (Some(0), FAR, 1));
    assert_eq!(b.effective_goal(&g, 5), 7);
    // Progress keeps it alive, standing still ends it.
    b.run_errand(c, &vec![true], true, 400_000, 8_000);
    assert_eq!((b.gate_best_dist, b.gate_since), (400_000, 8_000));
    b.run_errand(c, &vec![true], true, 396_001, 12_000);
    assert_eq!(b.gate, Some(0));
    b.run_errand(c, &vec![true], true, 396_001, 12_001);
    assert_eq!((b.gate, b.avoid_gate_until, b.route.len()), (None, 18_001, 0));
    // An open door ends it at once.
    b.start_errand(0, true, 7, vec![0], 20_000);
    b.run_errand(c, &vec![false], true, 0, 20_100);
    assert_eq!((b.gate, b.repath_time), (None, 20_100));
}

#[test]
fn routes_are_planned_banded_or_plain() {
    let banded = |n: u32| Banded { links: vec![n], bands: vec![1] };
    let r = first_route(true, Some(banded(3)), Some(vec![4]));
    assert_eq!((r.links, r.bands), (vec![3], vec![1]));
    assert!(first_route(true, None, Some(vec![4])).links.is_empty());
    assert_eq!(first_route(false, None, Some(vec![4])).links, vec![4]);
    let none = || first_route(false, None, None);
    assert!(detour_route(none(), 1, 1, true, None, Some(vec![5])).links.is_empty(), "there already");
    assert!(detour_route(none(), 1, 2, false, None, Some(vec![5])).links.is_empty(), "nothing near");
    assert_eq!(detour_route(none(), 1, 2, true, None, Some(vec![5])).links, vec![5]);
    assert_eq!(detour_route(none(), 1, 2, true, Some(banded(6)), Some(vec![5])).bands, vec![1]);
    let mut b = follower(0);
    assert!(b.needs_route(b.commitment(), 9, 0));
    b.adopt_route(Banded { links: vec![1, 2], bands: vec![1] }, 9, 100);
    assert_eq!((b.route_bands.clone(), b.progress_best, b.repath_time), (vec![0, 0], FAR, 500));
    assert!(!b.needs_route(b.commitment(), 9, 499));
    assert!(b.needs_route(b.commitment(), 8, 499) && b.needs_route(b.commitment(), 9, 500));
    b.air_leg = Some(1);
    assert!(!b.needs_route(b.commitment(), 8, 900), "no plan changes in the air");
    b.air_leg = None;
    b.route_pos = 2;
    b.relocalize(b.commitment(), 1, 9, 600);
    assert_eq!(b.repath_time, 600);
}

#[test]
fn legs_are_passed_on_arrival() {
    let g = graph(&[LinkKind::Walk, LinkKind::Plat, LinkKind::Walk, LinkKind::Hook, LinkKind::RocketJump]);
    let near = LegFacts { dist: 24_000, ..FAR_LEG };
    let risen = LegFacts { climb: 18_000, ..FAR_LEG };
    let mut b = follower(5);
    b.advance(&g, &vec![near, risen, FAR_LEG, near, near], 0, true, false);
    assert_eq!(b.route_pos, 2);
    // A runner needs less precision: in stride, or past the target.
    let wide = vec![FAR_LEG, FAR_LEG, LegFacts { dist: 60_000, behind: true, ..FAR_LEG }, near, near];
    b.advance(&g, &wide, 60_000, true, false);
    assert_eq!(b.route_pos, 2);
    b.bhop.phase = Phase::Hop;
    b.advance(&g, &wide, 0, false, true);
    assert_eq!(b.route_pos, 2, "nothing advances in the air on a jump");
    b.advance(&g, &wide, 0, true, true);
    assert_eq!(b.route_pos, 3, "hooks end by their own driver");
    assert_eq!(
        b.leg_plan(&g),
        LegPlan { waypoint: Waypoint::Target(3), kind: Some(LinkKind::Hook), final_leg: false, cur_leg: Some(3) }
    );
    b.route_pos = 1;
    assert_eq!(b.leg_plan(&g).waypoint, Waypoint::Source(1));
    b.route_pos = 5;
    assert_eq!(
        b.leg_plan(&g),
        LegPlan { waypoint: Waypoint::Objective, kind: None, final_leg: true, cur_leg: None }
    );
}

#[test]
fn raised_lifts_are_waited_for() {
    let g = NavGraph {
        links: vec![link(LinkKind::Walk, None, None), link(LinkKind::Plat, None, Some(0))],
        gates: vec![],
    };
    let lift = Lift { fp_min: [0, 0], fp_max: [64_000, 64_000], surface_z: 100_000, down: false };
    let facts = vec![FAR_LEG, LegFacts { climb: 90_000, ..FAR_LEG }];
    let mut b = follower(2);
    let (plan, hold) = b.follow(&g, &facts, 0, &vec![lift], [-90_000, 0, 0], true, false, 1_000);
    assert_eq!((hold, plan.waypoint, plan.kind), (Some(0), Waypoint::Standoff(0), Some(LinkKind::Plat)));
    assert_eq!((b.plat_wait, b.plat_wait_since), (Some(0), 1_000));
    b.follow(&g, &facts, 0, &vec![lift], [-90_000, 0, 0], true, false, 9_000);
    assert_eq!(b.route.len(), 2);
    b.follow(&g, &facts, 0, &vec![lift], [-90_000, 0, 0], true, false, 9_001);
    assert_eq!((b.route.len(), b.plat_wait), (0, None));
    assert_eq!(live_penalties(&b, 9_001), vec![(1, 4_000)]);
    // Far off, aboard, or with the lift down, there is nothing to wait for.
    let mut b = follower(2);
    let far = b.plat_hold(&g, &vec![lift], [-97_000, 0, 0]);
    let aboard = b.plat_hold(&g, &vec![lift], [32_000, 32_000, 108_001]);
    let down = b.plat_hold(&g, &vec![Lift { down: true, ..lift }], [0, 0, 0]);
    assert_eq!((far, aboard, down), (None, None, None));
    b.plat_wait = Some(0);
    b.wait_for_lift(&g, None, 5);
    assert_eq!(b.plat_wait, None);
}

#[test]
fn eyes_do_not_follow_the_hidden() {
    let mut b = follower(1);
    let look = |b: &BotState, scan, hold, enemy, chasing, last, speed, now| {
        b.look_at(scan, hold, enemy, chasing, last, speed, now)
    };
    assert_eq!(look(&b, true, Some(2), true, false, true, 0, 0), LookAt::Scan);
    assert_eq!(look(&b, false, Some(2), true, false, true, 0, 0), LookAt::Lift(2));
    assert_eq!(look(&b, false, None, true, false, true, 20_001, 0), LookAt::Heading);
    assert_eq!(look(&b, false, None, true, false, true, 20_000, 0), LookAt::Waypoint);
    assert_eq!(look(&b, false, None, true, true, true, 0, 0), LookAt::Objective);
    b.enemy_seen_time = 1_000;
    assert_eq!(look(&b, false, None, true, false, true, 0, 3_000), LookAt::Objective);
    assert_eq!(look(&b, false, None, true, false, true, 0, 3_001), LookAt::Waypoint);
    let b = follower(3);
    assert_eq!(look(&b, false, None, false, false, false, 0, 0), LookAt::Leg(2));
}

#[test]
fn watchdogs_strike_failing_legs() {
    let walk = Some(LinkKind::Walk);
    let mut b = follower(2);
    let x = excuse_of(b.commitment(), walk, false, false);
    b.stuck_since = 1_000;
    b.progress_best = 500_000;
    b.progress_since = 1_000;
    assert_eq!(b.watch(x, 16_000, 500_000, Some(1), walk, 1_700), StuckVerdict::Waiting);
    assert_eq!(b.watch(x, 16_000, 500_000, Some(1), walk, 1_701), StuckVerdict::Wedged);
    assert_eq!((b.repath_time, live_penalties(&b, 1_701)), (1_701, vec![(1, 4_000)]));
    // Running in circles is no progress.
    assert_eq!(b.watch(x, 90_000, 480_000, Some(0), walk, 3_501), StuckVerdict::Moving);
    assert_eq!((b.route.len(), b.progress_best), (0, 480_000));
    assert_eq!(live_penalties(&b, 3_501), vec![(1, 4_000), (0, 4_000)]);
    // A lift may stand still, and a watch may too.
    let mut b = follower(2);
    let x = excuse_of(b.commitment(), Some(LinkKind::Plat), false, true);
    assert_eq!(b.watch(x, 0, 480_000, Some(0), Some(LinkKind::Plat), 9_000), StuckVerdict::Moving);
    assert_eq!((b.route.len(), b.progress_since), (2, 9_000));
    assert!(live_penalties(&b, 9_000).is_empty());
}

#[test]
fn hops_have_their_policy() {
    let mut b = follower(2);
    let f = HopFacts {
        enabled: true,
        zigzag_enabled: true,
        enemy: false,
        watching: false,
        kind: Some(LinkKind::Walk),
        final_leg: false,
        goal_dist: 300_001,
        runway: 10_000_000,
        zigzag_runway: true,
        hook_active: false,
        rj_active: false,
    };
    let p = b.hop_policy(&f, 0);
    assert!(!p.veto && p.entry && p.sustain && p.zigzag && !p.carry);
    let p = b.hop_policy(&HopFacts { goal_dist: 150_000, ..f }, 0);
    assert!(!p.entry && !p.sustain && !p.zigzag);
    b.route_bands = vec![0, 1];
    assert!(b.hop_policy(&f, 0).carry);
    b.route_bands = vec![1, 0];
    assert!(b.hop_policy(&HopFacts { goal_dist: 0, ..f }, 0).entry, "the plan carries speed");
    b.enemy_seen_time = 1_000;
    let fight = HopFacts { enemy: true, ..f };
    assert!(b.hop_policy(&fight, 1_499).veto && !b.hop_policy(&fight, 1_500).veto);
    b.grenade_phase = GrenadePhase::Windup;
    assert!(b.hop_policy(&f, 9_000).veto);
}

#[test]
fn committed_jumps_end() {
    let jump = Some(LinkKind::SpeedJump);
    let mut b = follower(1);
    let x = excuse_of(b.commitment(), jump, false, false);
    assert!(b.drive_speed_jump(jump, true, x, Some(0), 1_000));
    assert_eq!(b.sj_leg, Some(0));
    assert!(b.drive_speed_jump(jump, true, x, Some(0), 5_000));
    assert!(!b.drive_speed_jump(jump, true, x, Some(0), 5_001), "the run-up took too long");
    assert_eq!((b.sj_leg, b.route.len()), (None, 0));
    b.sj_leg = Some(0);
    assert!(!b.drive_speed_jump(jump, false, x, Some(0), 5_100));
    assert_eq!(b.sj_leg, None);
    // A plain jump is let go on landing, and struck when the bot never comes down.
    let gap = Some(LinkKind::JumpGap);
    let mut b = follower(1);
    b.drive_air_jump(gap, Some(0), true, 1_000);
    b.drive_air_jump(gap, Some(0), true, 1_200);
    assert_eq!(b.air_leg, Some(0));
    b.drive_air_jump(gap, Some(0), true, 1_201);
    assert_eq!((b.air_leg, b.route.len()), (None, 1));
    b.drive_air_jump(gap, Some(0), false, 2_000);
    b.drive_air_jump(gap, Some(0), false, 4_501);
    assert_eq!((b.air_leg, b.route.len()), (None, 0));
    assert_eq!(live_penalties(&b, 4_501), vec![(0, 4_000)]);
    let edge = Takeoff { dist: 47_999, past: false, v_req: 500_000 };
    assert!(hold_leap(true, Some(edge), 449_999) && !hold_leap(true, Some(edge), 450_000));
    assert!(!hold_leap(true, Some(Takeoff { dist: 48_000, ..edge }), 0) && !hold_leap(false, Some(edge), 0));
    assert!(hold_leap(true, Some(Takeoff { dist: 900_000, past: true, ..edge }), 0) && !hold_leap(true, None, 0));
}

#[test]
fn jump_is_pressed_to_leap_and_to_recover() {
    let f = JumpFacts {
        on_ground: true,
        force_jump: false,
        hop_jump: false,
        kind: Some(LinkKind::Walk),
        air_jumped: false,
        vz: 0,
        climb: 0,
    };
    assert!(!press_jump(&f) && press_jump(&JumpFacts { force_jump: true, ..f }));
    assert!(press_jump(&JumpFacts { kind: Some(LinkKind::JumpGap), ..f }));
    let air = JumpFacts { on_ground: false, kind: Some(LinkKind::DoubleJump), vz: 30_000, ..f };
    assert!(press_jump(&air) && !press_jump(&JumpFacts { vz: 30_001, ..air }));
    assert!(!press_jump(&JumpFacts { air_jumped: true, ..air }));
    let gap = JumpFacts { kind: Some(LinkKind::JumpGap), vz: -1, climb: 20_001, ..air };
    assert!(press_jump(&gap) && !press_jump(&JumpFacts { climb: 20_000, ..gap }));
}

#[test]
fn buttons_are_pushed_or_shot() {
    let gates = vec![
        Gate { button_cell: 7, activator: 3, shoot: true },
        Gate { button_cell: 8, activator: 4, shoot: false },
    ];
    let g = NavGraph { links: vec![link(LinkKind::Walk, None, None)], gates };
    let mut game = GameState::new();
    assert_eq!(gates_ready(&g, &game.entities), vec![false, true]);
    game.entities.slots[3].v.takedamage = TakeDamage::Yes;
    let ready = gates_ready(&g, &game.entities);
    assert_eq!(ready, vec![true, true]);
    let mut b = follower(1);
    assert_eq!(b.gate_act(&g, 0, 0, Weapon::Shotgun, &ready), GateAct::Nothing);
    b.gate = Some(0);
    assert_eq!(b.gate_act(&g, 40_000, 0, Weapon::Shotgun, &ready), GateAct::Nothing);
    assert_eq!(b.gate_act(&g, 39_999, 0, Weapon::Shotgun, &ready), GateAct::Shoot { fire: true });
    assert_eq!(b.gate_act(&g, 39_999, 0, Weapon::Axe, &ready), GateAct::Shoot { fire: false });
    assert_eq!(b.gate_act(&g, 39_999, -68_001, Weapon::Axe, &ready), GateAct::BackOff);
    b.gate = Some(1);
    b.route_pos = 1;
    assert_eq!(b.gate_act(&g, 90_000, 0, Weapon::Axe, &ready), GateAct::Push);
}

#[test]
fn traversals_override_navigation() {
    let mut b = follower(1);
    let c = b.controls(true, false, GateAct::Nothing, &STILL, &NO_RJ);
    assert_eq!((c.buttons, c.impulse, c.moving), (BUTTON_JUMP, 0, MoveBy::Waypoint));
    assert_eq!(b.controls(false, true, GateAct::Nothing, &STILL, &NO_RJ).moving, MoveBy::Still);
    let c = b.controls(true, false, GateAct::Shoot { fire: true }, &STILL, &NO_RJ);
    assert_eq!((c.buttons, c.impulse, c.moving), (BUTTON_ATTACK, IMPULSE_SHOTGUN, MoveBy::Still));
    b.hook_phase = HookPhase::Aim;
    let h = HookDrive { approach: true, select: true, ..STILL };
    let c = b.controls(true, false, GateAct::Nothing, &h, &NO_RJ);
    assert_eq!((c.buttons, c.impulse, c.moving), (0, IMPULSE_GRAPPLE, MoveBy::Approach));
    b.hook_phase = HookPhase::Idle;
    b.rj_phase = RjPhase::Ballistic;
    let r = RjDrive { correct: true, fire: true, select: true, ..NO_RJ };
    let c = b.controls(true, false, GateAct::Nothing, &STILL, &r);
    assert_eq!((c.buttons, c.impulse, c.moving), (BUTTON_ATTACK, IMPULSE_ROCKET, MoveBy::Correct));
    assert!(stops_short(true, true, 64_000) && !stops_short(true, true, 64_001) && !stops_short(true, false, 0));
}

#[test]
fn views_have_their_order() {
    let mut b = follower(1);
    let f = ViewFacts { look: 48_001, waypoint: 0, aimed: false, hook: 1_001, landing: 1_001, watched: Some(48_001) };
    let far = ViewFacts { watched: None, ..f };
    let near = ViewFacts { look: 48_000, ..far };
    let h = HookDrive { look: HookLook::Anchor, ..STILL };
    let r = RjDrive { look: RjLook::Landing, ..NO_RJ };
    assert_eq!(b.view_by(&f, GateAct::Push, &h, &r), ViewBy::Button);
    assert_eq!(b.view_by(&f, GateAct::Nothing, &h, &r), ViewBy::Watched);
    assert_eq!(b.view_by(&far, GateAct::Nothing, &h, &r), ViewBy::Landing);
    assert_eq!(b.view_by(&far, GateAct::Nothing, &h, &RjDrive { look: RjLook::Shot, ..r }), ViewBy::Shot);
    assert_eq!(b.view_by(&far, GateAct::Nothing, &h, &NO_RJ), ViewBy::Hook);
    assert_eq!(b.view_by(&ViewFacts { hook: 1_000, ..far }, GateAct::Nothing, &h, &NO_RJ), ViewBy::Point);
    assert_eq!(b.view_by(&ViewFacts { waypoint: 8_001, ..near }, GateAct::Nothing, &STILL, &NO_RJ), ViewBy::Steering);
    assert_eq!(b.view_by(&ViewFacts { aimed: true, ..near }, GateAct::Nothing, &STILL, &NO_RJ), ViewBy::Held);
    assert_eq!(b.view_by(&near, GateAct::Nothing, &STILL, &NO_RJ), ViewBy::Seeded);
    b.hook_phase = HookPhase::Reel;
    assert_eq!(b.view_by(&f, GateAct::Nothing, &h, &NO_RJ), ViewBy::Hook);
}

#[test]
fn nothing_disturbs_a_traversal() {
    let mut b = follower(1);
    let o = b.overlays(Some(LinkKind::Walk), false, true, false);
    assert!(o.engage && o.splash);
    assert!(!b.overlays(Some(LinkKind::Walk), false, false, false).engage);
    assert!(!b.overlays(Some(LinkKind::Walk), false, true, true).splash);
    for (kind, on_air) in [(LinkKind::JumpGap, false), (LinkKind::SpeedJump, false), (LinkKind::Walk, true)] {
        let o = b.overlays(Some(kind), on_air, true, false);
        assert!(!o.engage && !o.splash);
    }
    b.hook_phase = HookPhase::Aim;
    let o = b.overlays(Some(LinkKind::Hook), false, true, false);
    assert!(o.engage && !o.splash);
    b.hook_phase = HookPhase::Reel;
    assert!(!b.overlays(Some(LinkKind::Hook), false, true, false).engage);
    // Live grenades come before a running combination, that before a shove.
    let mut b = follower(1);
    assert_eq!(b.splash_step(false), SplashStep::Shove);
    b.grenade_phase = GrenadePhase::Lobbed;
    assert_eq!(b.splash_step(false), SplashStep::Combo);
    assert_eq!(b.splash_step(true), SplashStep::Handled);
    assert_eq!(b.grenade_phase, GrenadePhase::Idle);
}

#[test]
fn throws_wait_for_the_view() {
    let mut b = follower(1);
    b.hook_phase = HookPhase::Aim;
    let ready = HookDrive { fire_ready: true, ..STILL };
    assert_eq!(b.emit(0, &ready, &NO_RJ, 2_000, 10), 0);
    assert_eq!(b.emit(0, &ready, &NO_RJ, 1_999, 20), BUTTON_ATTACK);
    assert_eq!((b.hook_phase, b.hook_started), (HookPhase::Flight, 20));
    assert_eq!(b.emit(0, &HookDrive { hold_fire: true, ..STILL }, &NO_RJ, 90_000, 30), BUTTON_ATTACK);
    let leap = RjDrive { jump_ready: true, ..NO_RJ };
    assert_eq!(b.emit(0, &STILL, &leap, 2_000, 40), 0);
    assert_eq!(b.emit(0, &STILL, &leap, 1_999, 50), BUTTON_JUMP);
    assert_eq!((b.rj_phase, b.rj_jump_time), (RjPhase::Rise, 50));
}

fn hooking(now: i64) -> HookCtx {
    HookCtx {
        hook_active: true,
        leg: Some(HookLeg { link: 0, release_dist: 100_000, airtime: 800 }),
        enemy: false,
        hook_out: true,
        on_hook: true,
        has_grapple: true,
        now,
        weapon: Weapon::Grapple,
        stance_dist: 24_000,
        on_ground: true,
        drift: 48_000,
        dist: 300_000,
        reel_half_step: 5_000,
        landing_dist: 48_000,
        chasing: false,
    }
}

#[test]
fn a_hook_flies_from_aim_to_landing() {
    let mut b = follower(1);
    b.hook_fails = 1;
    let c = hooking(1_000);
    let d = drive_hook(&mut b, HookCtx { weapon: Weapon::Axe, hook_out: false, on_hook: false, ..c });
    assert!(d.select && d.stand && !d.fire_ready && d.look == HookLook::Anchor);
    assert_eq!((b.hook_phase, b.hook_release_dist), (HookPhase::Aim, 100_000));
    let d = drive_hook(&mut b, HookCtx { stance_dist: 24_001, hook_out: false, on_hook: false, ..c });
    assert!(d.approach && !d.fire_ready);
    let d = drive_hook(&mut b, HookCtx { hook_out: false, on_hook: false, ..c });
    assert!(d.fire_ready);
    b.emit(0, &d, &NO_RJ, 0, 1_100);
    let d = drive_hook(&mut b, HookCtx { on_hook: false, ..hooking(1_200) });
    assert!(d.hold_fire && b.hook_phase == HookPhase::Flight);
    drive_hook(&mut b, hooking(1_300));
    assert_eq!((b.hook_phase, b.hook_prev_dist), (HookPhase::Reel, 300_000));
    let d = drive_hook(&mut b, HookCtx { dist: 200_000, ..hooking(1_400) });
    assert!(d.hold_fire && d.look == HookLook::Landing);
    let d = drive_hook(&mut b, HookCtx { dist: 105_000, ..hooking(1_500) });
    assert!(!d.hold_fire && b.hook_phase == HookPhase::Ballistic);
    drive_hook(&mut b, hooking(1_600));
    assert_eq!(b.hook_phase, HookPhase::Ballistic, "the release is not a landing");
    drive_hook(&mut b, hooking(1_601));
    assert_eq!((b.hook_phase, b.hook_fails, b.route_pos, b.repath_time), (HookPhase::Idle, 0, 1, 1_601));
}

#[test]
fn hooks_that_fail_are_recalled() {
    // The enemy comes first while nothing was thrown.
    let mut b = follower(1);
    b.hook_phase = HookPhase::Aim;
    let d = drive_hook(&mut b, HookCtx { enemy: true, ..hooking(0) });
    assert!(d.reset && b.hook_phase == HookPhase::Idle && b.hook_fails == 0);
    // A throw that bit elsewhere, twice: the route and the item are dropped.
    for fails in 1..=2u8 {
        b.hook_phase = HookPhase::Flight;
        b.goal_item = 6;
        let d = drive_hook(&mut b, HookCtx { drift: 48_001, chasing: true, ..hooking(2_000) });
        assert!(d.reset && b.hook_phase == HookPhase::Idle);
        assert_eq!(b.hook_fails, if fails == 1 { 1 } else { 0 });
    }
    assert_eq!((b.goal_item, b.route.len()), (0, 0));
    assert!(b.is_avoided(6, 13_999) && !b.is_avoided(6, 14_000));
    // Timeouts, a lost hook, a leg without a plan, and no grapple.
    let mut b = follower(1);
    b.hook_phase = HookPhase::Reel;
    b.hook_prev_dist = 300_000;
    drive_hook(&mut b, HookCtx { dist: 299_001, ..hooking(3_001) });
    assert_eq!(b.hook_fails, 1);
    b.hook_phase = HookPhase::Reel;
    drive_hook(&mut b, HookCtx { on_hook: false, ..hooking(10) });
    assert_eq!((b.hook_fails, b.route.len()), (0, 0));
    b.hook_phase = HookPhase::Ballistic;
    b.hook_started = 0;
    drive_hook(&mut b, HookCtx { on_ground: false, ..hooking(1_801) });
    assert_eq!((b.hook_phase, b.hook_fails), (HookPhase::Idle, 0));
    b.hook_phase = HookPhase::Flight;
    assert!(drive_hook(&mut b, HookCtx { leg: None, ..hooking(20) }).reset);
    drive_hook(&mut b, HookCtx { has_grapple: false, hook_out: false, ..hooking(30) });
    assert_eq!((b.hook_phase, b.hook_fails, b.repath_time), (HookPhase::Idle, 1, 30));
    assert!(!drive_hook(&mut b, HookCtx { hook_active: false, ..hooking(40) }).reset);
}

const BLIND: Senses = Senses {
    hit: false,
    fraction: 0,
    fov: 120_000,
    off_axis: 0,
    dist: 2_000_000,
    attack_finished: 0,
    reaction: 0,
    now: 1_000,
};

#[test]
fn intents_are_weighed_against_the_senses() {
    let fight = Intent::Fight(9);
    assert_eq!(choose_intent(true, true, true, fight), (Intent::Move(MoveTo::Wander), false));
    assert_eq!(choose_intent(false, true, true, fight), (Intent::Move(MoveTo::Human), true));
    assert_eq!(choose_intent(false, true, false, fight), (Intent::Nil, true));
    assert_eq!(choose_intent(false, false, true, fight), (fight, false));
    let mut b = follower(1);
    assert_eq!(b.weigh_intent(fight, &BLIND), (Intent::Nil, false, false));
    assert_eq!(b.weigh_intent(fight, &Senses { hit: true, ..BLIND }), (fight, false, true));
    assert_eq!(b.weigh_intent(fight, &Senses { now: 1_100, ..BLIND }), (fight, true, false), "remembered");
    b.vis_since = 700;
    assert_eq!(b.weigh_intent(Intent::Nil, &BLIND), (Intent::Nil, false, false));
    assert_eq!(b.vis_since, 0);
    // Gunfire is heard without being seen.
    let mut b = follower(1);
    let heard = Senses { dist: 999_999, attack_finished: 1_001, ..BLIND };
    assert_eq!(b.weigh_intent(fight, &heard), (fight, true, true));
}

#[test]
fn objectives_follow_intents() {
    let mut b = follower(1);
    let idle = b.resolve_objective(Intent::Nil, false, false, false, true, 10_000, 0);
    let expected =
        Objective { enemy: None, chasing: false, polite: true, target: Target::Human, item_cell: None, watch: None };
    assert_eq!(idle, expected);
    assert_eq!(b.resolve_objective(Intent::Nil, false, false, false, false, 10_000, 0).target, Target::Roam);
    let seen = b.resolve_objective(Intent::Fight(9), false, false, false, true, 10_000, 0);
    assert_eq!((seen.target, seen.enemy, seen.polite), (Target::Enemy(9), Some(9), false));
    let hunted = b.resolve_objective(Intent::Fight(9), false, false, true, true, 10_000, 0);
    assert_eq!(hunted.target, Target::LastSeen);
    assert_eq!(b.resolve_objective(Intent::Spectate(3), false, false, false, true, 10_000, 0).watch, Some(3));
    b.take_goal(Some((6, 44)), 1_000);
    assert_eq!((b.goal_item, b.goal_started, b.goal_select_time), (6, 1_000, 2_500));
    assert!(!b.goal_due(false, true, false, 2_499) && b.goal_due(false, true, false, 2_500));
    assert!(!b.goal_due(true, true, false, 9_000) && !b.goal_due(false, false, false, 9_000));
    let fetch = b.resolve_objective(Intent::Fight(9), false, false, false, true, 10_000, 11_000);
    assert_eq!((fetch.target, fetch.item_cell, fetch.chasing), (Target::Item, Some(44), true));
    assert_eq!(b.resolve_objective(Intent::Nil, false, true, false, true, 10_000, 11_000).target, Target::Vigil);
    // Chased for too long: dropped and avoided.
    b.resolve_objective(Intent::Nil, false, false, false, true, 10_000, 11_001);
    assert_eq!((b.goal_item, b.goal_select_time), (0, 11_001));
    assert!(b.is_avoided(6, 23_000) && !b.is_avoided(6, 23_001));
    // Goals that lapse.
    b.take_goal(Some((7, 1)), 12_000);
    b.settle_goal(false, true, false, true, 12_100);
    assert_eq!(b.goal_item, 7);
    b.settle_goal(false, true, false, false, 12_100);
    assert_eq!((b.goal_item, b.goal_select_time), (0, 12_100));
}

#[test]
fn traversals_end_without_their_tools() {
    let mut b = follower(1);
    b.hook_phase = HookPhase::Reel;
    b.rj_phase = RjPhase::Stance;
    assert!(!b.settle_traversals(true, true, true, 1));
    assert!(b.hook_phase == HookPhase::Reel && b.rj_phase == RjPhase::Stance);
    assert!(b.settle_traversals(false, true, true, 0));
    assert!(b.hook_phase == HookPhase::Idle && b.rj_phase == RjPhase::Idle);
}

#[test]
fn wanderers_choose_new_places() {
    let mut b = follower(1);
    assert!(b.roam_due(None, 0));
    assert_eq!(b.roam_target(0x80_0000, 101, 1_000), Some(50));
    assert_eq!(b.roam_target(0xff_ffff, 101, 1_000), Some(100));
    assert!(!b.roam_due(Some(64_000), 5_999) && b.roam_due(Some(63_999), 5_999) && b.roam_due(Some(64_000), 6_000));
    assert_eq!(b.roam_target(0, 0, 9_000), None);
    assert_eq!(b.wander_time, 6_000);
}
