//! Decisions of bots: where to go, what to fear, when to fire.
use glam::Vec3;
use rtx::abi::EntVars;
use rtx::bot::combat::{
    blast_self_damage, choose_weapon, fire_tolerance, keep_range, press_advantage, spread_scale, RangeMove,
};
use rtx::bot::grenade::{find_hazard, hazard_below, Hazard, HazardKind, Probe, Sounding};
use rtx::bot::nav::{
    air_commit_decision, button_reachable, in_footprint, link_penalty_secs, live_penalties, penalize_leg,
    penalize_link, plat_standoff, progress_stalled, route_blocking_gate, AirRelease, Gate, Link, LinkKind, NavGraph,
    PENALTY_CAP, PENALTY_STEP, PENALTY_TTL, PLAT_STANDOFF, PROGRESS_EPS, PROGRESS_STALL_TIME,
};
use rtx::bot::perception::{effective_fov, feel, perceive, reaction_time, Awareness, Senses};
use rtx::bot::population::{
    bot_colors, bot_name, bot_pickup_items, bot_target, manage_population, nearest_human, on_item, run_bots, tally,
    MatchConfig, Population, Tally,
};
use rtx::bot::rj::rocket_jump_extra;
use rtx::bot::state::BotState;
use rtx::defs::{Content, Items, Solid, Weapon};
use rtx::entity::{EntId, Touch};
use rtx::game::GameState;

#[test]
fn bot_target_caps_in_warmup_and_freezes_live() {
    let open = MatchConfig { teams: 0, size: 0 };
    let pickup = MatchConfig { teams: 2, size: 0 };
    let two_by_two = MatchConfig { teams: 2, size: 2 };
    // Open play and open team pickup pass the wish through, warmup or not.
    assert_eq!(bot_target(5, 1, open, true), Some(5));
    assert_eq!(bot_target(5, 1, pickup, false), Some(5));
    // A structured warmup fills the empty seats: four less one person.
    assert_eq!(bot_target(5, 1, two_by_two, true), Some(3));
    assert_eq!(bot_target(2, 1, two_by_two, true), Some(2), "cvar below empty seats wins");
    assert_eq!(bot_target(5, 4, two_by_two, true), Some(0), "humans fill every seat");
    // A structured match that runs is frozen.
    assert_eq!(bot_target(5, 1, two_by_two, false), None);
}

#[test]
fn populations_follow_their_target() {
    let open = MatchConfig { teams: 0, size: 0 };
    let two_by_two = MatchConfig { teams: 2, size: 2 };
    let mut g = GameState::new();
    for i in [1usize, 2] {
        g.entities.slots[i].in_use = true;
        g.entities.slots[i].classname = Some("player".to_owned());
    }
    g.entities.slots[2].bot = BotState::joined(2);
    assert_eq!(tally(&g.entities, 4), Tally { humans: 1, bots: 1, last_bot: Some(EntId(2)) });
    let manage = |g: &GameState, count, cfg, warmup, ready| {
        manage_population(&g.entities, 4, false, count, cfg, warmup, ready)
    };
    assert_eq!(manage(&g, 3, open, true, true), Population::Add(1));
    assert_eq!(manage(&g, 0, open, true, true), Population::Remove(EntId(2)));
    assert_eq!(manage(&g, 1, open, true, true), Population::Keep);
    // A running match keeps its roster, and without a map there is nobody to add.
    assert_eq!(manage(&g, 3, two_by_two, false, true), Population::Keep);
    assert_eq!(manage(&g, 3, open, true, false), Population::Keep);
    // Nobody plays on an empty server, unless it is meant to play alone.
    g.entities.slots[1].in_use = false;
    assert_eq!(manage(&g, 3, open, true, true), Population::Remove(EntId(2)));
    assert_eq!(manage_population(&g.entities, 4, true, 3, open, true, true), Population::Add(1));
    // The bots to drive, and whom they follow.
    assert_eq!(run_bots(&g.entities, 4, true), vec![EntId(2)]);
    assert!(run_bots(&g.entities, 4, false).is_empty());
    g.entities.slots[2].bot = BotState::blank();
    assert!(run_bots(&g.entities, 4, true).is_empty());
}

#[test]
fn bots_take_what_they_stand_on() {
    let mut g = GameState::new();
    g.entities.slots[1].v.health = 100;
    g.entities.slots[5].v.solid = Solid::Trigger;
    g.entities.slots[6].v.solid = Solid::Not;
    g.entities.slots[7].v.solid = Solid::Trigger;
    g.entities.slots[7].touch = Touch::Backpack;
    let mut on = vec![false; g.entities.slots.len()];
    for i in [5usize, 6, 7] {
        on[i] = true;
    }
    let goals = vec![(6, 0), (5, 0), (4, 0)];
    assert_eq!(bot_pickup_items(&g.entities, EntId(1), &goals, &on), vec![EntId(5), EntId(7)]);
    // An item kept for a teammate is left; one that was fetched is avoided for a while.
    let mut b = BotState::joined(1);
    b.hold_item = 5;
    b.hold_until = 2_000;
    let item = &g.entities.slots[5];
    assert!(!b.takes(5, item, 1_999) && b.takes(5, item, 2_000) && b.takes(7, item, 1_999));
    assert!(!b.takes(6, &g.entities.slots[6], 2_000));
    b.goal_item = 7;
    b.note_taken(5, 1_000);
    assert!(!b.is_avoided(5, 1_001));
    b.note_taken(7, 1_000);
    assert!(b.is_avoided(7, 3_999) && !b.is_avoided(7, 4_000));
    assert!(on_item([0, 0, 0], [40_000, -40_000, 48_000]));
    assert!(!on_item([0, 0, 0], [40_001, 0, 0]));
    g.entities.slots[1].v.health = 0;
    assert!(bot_pickup_items(&g.entities, EntId(1), &goals, &on).is_empty());
}

#[test]
fn the_nearest_living_human_is_followed() {
    let mut g = GameState::new();
    let mut dist = vec![0u32; g.entities.slots.len()];
    for i in 1usize..=4 {
        let e = &mut g.entities.slots[i];
        e.in_use = true;
        e.classname = Some("player".to_owned());
        e.v.health = 100;
        dist[i] = 100 - i as u32;
    }
    g.entities.slots[1].bot = BotState::joined(1);
    g.entities.slots[4].v.health = 0;
    assert_eq!(nearest_human(&g.entities, &dist, 1, 4), Some(EntId(3)));
    dist[2] = dist[3];
    assert_eq!(nearest_human(&g.entities, &dist, 1, 4), Some(EntId(2)), "the first of equals");
    g.entities.slots[2].in_use = false;
    g.entities.slots[3].v.health = -1;
    assert_eq!(nearest_human(&g.entities, &dist, 1, 4), None);
}

#[test]
fn bots_have_names_and_colors() {
    assert!(!bot_name(0).is_empty());
    assert_ne!(bot_name(0), bot_name(1));
    let (top, bottom) = bot_colors(0);
    assert!((0..14).contains(&top) && (0..14).contains(&bottom));
    assert_eq!((bot_name(0), bot_name(7), bot_name(8), bot_name(-1)), ("Grunt", "Klesk", "Grunt", "Klesk"));
    assert_eq!((bot_colors(0), bot_colors(1), bot_colors(9)), ((4, 11), (11, 2), (11, 2)));
}

#[test]
fn air_commit_lifecycle() {
    assert_eq!(air_commit_decision(false, true, 500), AirRelease::Keep);
    assert_eq!(air_commit_decision(true, true, 100), AirRelease::Keep);
    assert_eq!(air_commit_decision(true, true, 300), AirRelease::Land);
    assert_eq!(air_commit_decision(false, false, 500), AirRelease::Land);
    assert_eq!(air_commit_decision(false, true, 3_000), AirRelease::Timeout);
}

#[test]
fn penalty_scales_with_strikes_and_caps() {
    assert_eq!(link_penalty_secs(0), 0);
    assert_eq!(link_penalty_secs(1), PENALTY_STEP);
    assert_eq!(link_penalty_secs(2), 4 * PENALTY_STEP);
    assert_eq!(link_penalty_secs(10), PENALTY_CAP, "surcharge is capped");
    assert!(PENALTY_CAP < 1_000_000);
}

#[test]
fn progress_stall_thresholds() {
    assert!(!progress_stalled(100_000, 0, 100_000, PROGRESS_STALL_TIME - 100));
    assert!(progress_stalled(100_000, 0, 100_000, PROGRESS_STALL_TIME + 100));
    assert!(!progress_stalled(100_000, 0, 100_000 - PROGRESS_EPS - 1_000, PROGRESS_STALL_TIME + 100));
}

#[test]
fn penalize_leg_bumps_and_exempts() {
    let mut b = BotState::blank();
    penalize_leg(&mut b, None, Some(LinkKind::Walk), 1_000);
    penalize_leg(&mut b, Some(3), Some(LinkKind::Plat), 1_000);
    penalize_leg(&mut b, Some(3), Some(LinkKind::Teleport), 1_000);
    assert!(b.failed_links.iter().all(|&(_, until, _)| until == 0), "exempt legs recorded nothing");
    penalize_leg(&mut b, Some(3), Some(LinkKind::Walk), 1_000);
    penalize_leg(&mut b, Some(3), Some(LinkKind::Walk), 2_000);
    let e = b.failed_links.iter().find(|&&(l, _, _)| l == 3).unwrap();
    assert_eq!((e.1, e.2), (2_000 + PENALTY_TTL, 2), "same leg bumped to 2 strikes, expiry refreshed");
    assert_eq!(live_penalties(&b, 3_000), vec![(3, 4 * PENALTY_STEP)]);
    assert_eq!(live_penalties(&b, 2_000 + PENALTY_TTL), vec![]);
}

#[test]
fn penalize_link_records_plat_leg() {
    let mut b = BotState::blank();
    penalize_leg(&mut b, Some(9), Some(LinkKind::Plat), 1_000);
    assert!(b.failed_links.iter().all(|&(_, until, _)| until == 0), "penalize_leg still exempts Plat");
    penalize_link(&mut b, 9, 1_000);
    let e = b.failed_links.iter().find(|&&(l, _, _)| l == 9).expect("plat link recorded");
    assert_eq!((e.1, e.2), (1_000 + PENALTY_TTL, 1), "plat link struck once");
}

#[test]
fn in_footprint_margins() {
    let (lo, hi) = ([-16_000, -16_000], [16_000, 16_000]);
    assert!(in_footprint(0, 0, lo, hi, 0), "centre is inside");
    assert!(!in_footprint(20_000, 0, lo, hi, 0), "20u past +X face is outside");
    assert!(in_footprint(20_000, 0, lo, hi, 8_000), "within an 8u margin it's inside");
    assert!(!in_footprint(25_000, 0, lo, hi, 8_000), "past the margin it's outside again");
}

#[test]
fn plat_standoff_pushes_out_and_holds() {
    let (lo, hi) = ([-16_000, -16_000], [16_000, 16_000]);
    let clear = [80_000, 0, 24_000];
    assert_eq!(plat_standoff(clear, lo, hi), [80_000, 0, 24_000], "outside the standoff, stand still");
    let out = plat_standoff([10_000, 2_000, 24_000], lo, hi);
    assert_eq!(out[0], 16_000 + PLAT_STANDOFF, "pushed past the +X face");
    assert_eq!(out[2], 24_000, "keeps the bot's own height");
    assert!(!in_footprint(out[0], out[1], lo, hi, PLAT_STANDOFF - 10), "result clears the standoff box");
    let centre = plat_standoff([0, 0, 24_000], lo, hi);
    assert!(!in_footprint(centre[0], centre[1], lo, hi, PLAT_STANDOFF - 10), "centre still escapes");
}

#[test]
fn avoid_ring_marks_expires_and_evicts() {
    let mut b = BotState::blank();
    b.mark_avoid(0, 100_000);
    assert!(!b.is_avoided(0, 1_000));
    b.mark_avoid(5, 10_000);
    assert!(b.is_avoided(5, 9_000));
    assert!(!b.is_avoided(5, 10_000), "expiry is exclusive");
    assert!(!b.is_avoided(6, 9_000));
    for (item, until) in [(11u32, 20_000i64), (12, 30_000), (13, 40_000), (14, 50_000)] {
        b.mark_avoid(item, until);
    }
    assert!(!b.is_avoided(5, 9_000), "the earliest-expiring entry was evicted");
    assert!(b.is_avoided(14, 49_000) && b.is_avoided(11, 19_000));
}

fn graph() -> NavGraph {
    let walk = Link { kind: LinkKind::Walk, from: 0, to: 1, gate: None, plat: None };
    NavGraph {
        links: vec![walk, Link { from: 1, to: 2, gate: Some(0), ..walk }, Link { from: 2, to: 3, ..walk }],
        gates: vec![Gate { button_cell: 1, activator: 0, shoot: false }],
    }
}

#[test]
fn shut_gates_block_a_route() {
    let g = graph();
    let route = vec![0, 1, 2];
    assert_eq!(route_blocking_gate(&g, &route, 0, &vec![true]), Some(0));
    assert_eq!(route_blocking_gate(&g, &route, 2, &vec![true]), None);
    assert_eq!(route_blocking_gate(&g, &route, 0, &vec![false]), None);
    assert!(!button_reachable(&g, &None, 0));
    assert!(!button_reachable(&g, &Some(vec![0, 1]), 0));
    assert!(button_reachable(&g, &Some(vec![0]), 0));
}

#[test]
fn fov_widens_with_skill_and_disables_at_zero() {
    assert_eq!(effective_fov(0, 5_000), 0, "0 base disables the sight cone (360°)");
    assert_eq!(effective_fov(120_000, 0), 120_000);
    assert_eq!(effective_fov(120_000, 7_000), 148_000, "each skill point adds 4°");
    assert_eq!(effective_fov(400_000, 7_000), 360_000, "clamped to a full sphere");
}

#[test]
fn reaction_shortens_with_skill_and_floors() {
    assert_eq!(reaction_time(0, 3_000), 0, "0 base is instant");
    assert_eq!(reaction_time(400, 0), 400, "unskilled bot pays the full delay");
    assert!(reaction_time(400, 7_000) < reaction_time(400, 0), "skill shortens reaction");
    assert!(reaction_time(400, 7_000) >= 50, "but never below the floor");
    assert_eq!(reaction_time(10, 7_000), 50, "the floor also catches a tiny base");
}

/// A target must be watched for the reaction time, is known for a while after, and then forgotten.
#[test]
fn awareness_takes_time_and_fades() {
    let mut b = BotState::blank();
    let s = Senses {
        hit: true,
        fraction: 500,
        fov: 120_000,
        off_axis: 60_000,
        dist: 500_000,
        attack_finished: 0,
        reaction: 400,
        now: 1_000,
    };
    assert_eq!(perceive(&mut b, 9, &s).0, Awareness::Unaware);
    assert_eq!(perceive(&mut b, 9, &Senses { now: 1_399, ..s }).0, Awareness::Unaware);
    assert_eq!(perceive(&mut b, 9, &Senses { now: 1_400, ..s }).0, Awareness::Visible);
    assert_eq!(perceive(&mut b, 9, &Senses { hit: false, now: 2_000, ..s }).0, Awareness::Known);
    assert_eq!(perceive(&mut b, 9, &Senses { hit: false, now: 9_000, ..s }).0, Awareness::Unaware);
    // Being hit tells at once.
    feel(&mut b, 12, 10_000);
    assert_eq!(perceive(&mut b, 12, &Senses { hit: false, now: 10_100, ..s }).0, Awareness::Known);
}

fn vars(items: i32, rockets: i32, health: i32, armortype: i32, armorvalue: i32) -> EntVars {
    let mut v = EntVars::cleared();
    v.items = items;
    v.ammo_rockets = rockets;
    v.health = health;
    v.armortype = armortype;
    v.armorvalue = armorvalue;
    v
}

const RJ_UNFIT_PENALTY: u32 = 1_000_000;

fn extra(v: EntVars, quad_until: i64) -> u32 {
    rocket_jump_extra(&v, quad_until, 1_000, RJ_UNFIT_PENALTY)
}

#[test]
fn fit_and_unfit_cases() {
    let rl = Items::ROCKET_LAUNCHER;
    assert_eq!(extra(vars(rl, 5, 100, 0, 0), 0), 0);
    assert_eq!(extra(vars(0, 5, 100, 0, 0), 0), RJ_UNFIT_PENALTY);
    assert_eq!(extra(vars(rl, 0, 100, 0, 0), 0), RJ_UNFIT_PENALTY);
    // Unarmored it takes more than 85 health.
    assert_eq!(extra(vars(rl, 5, 80, 0, 0), 0), RJ_UNFIT_PENALTY);
    assert_eq!(extra(vars(rl, 5, 90, 0, 0), 0), 0);
    // Quad makes the blast too strong.
    assert_eq!(extra(vars(rl, 5, 100, 0, 0), 5_000), RJ_UNFIT_PENALTY);
}

#[test]
fn armor_lowers_the_health_bar() {
    let rl = Items::ROCKET_LAUNCHER;
    assert_eq!(extra(vars(rl, 5, 50, 600, 100), 0), 0);
    assert_eq!(extra(vars(rl, 5, 45, 600, 100), 0), RJ_UNFIT_PENALTY);
}

#[test]
fn grenade_blast_falloff() {
    assert_eq!(blast_self_damage(0), 120_000);
    assert_eq!(blast_self_damage(160_000), 0);
    assert!((blast_self_damage(140_000) as i64 - 50_000).abs() < 10);
    assert_eq!(blast_self_damage(400_000), 0);
}

#[test]
fn press_advantage_bounds() {
    assert!(press_advantage(100_000, 20_000, 1_000));
    assert!(!press_advantage(100_000, 20_000, 5_000));
    assert!(!press_advantage(100_000, 60_000, 1_000));
    assert!(!press_advantage(15_000, 20_000, 1_000));
}

#[test]
fn spread_scale_converges_and_widens() {
    let dist = 500_000;
    let first = spread_scale(0, 0, 0, dist);
    assert_eq!(first, 1_600_000);
    let settled = spread_scale(2_000, 0, 0, dist);
    assert_eq!(settled, 700_000);
    assert!(settled < first, "sustained sight must tighten aim");
    assert!(spread_scale(2_000, 320_000, 0, dist) > settled);
    assert!(spread_scale(2_000, 0, 800_000, dist) > settled);
    let capped = spread_scale(0, 4_294_967_295, 4_294_967_295, dist);
    assert!(capped <= 3_360_100, "factors must stay within their caps");
}

#[test]
fn spread_scale_never_below_settled_floor() {
    for (v, own, perp) in [(0, 0, 0), (1_500, 100_000, 200_000), (5_000, 320_000, 1_000_000)] {
        assert!(spread_scale(v, own, perp, 400_000) >= 700_000 - 1);
    }
}

#[test]
fn fire_tolerance_monotonic_and_tight_at_seven() {
    assert_eq!(fire_tolerance(7_000, true), 16_000);
    assert_eq!(fire_tolerance(7_000, false), 40_000);
    assert!(fire_tolerance(0, true) > fire_tolerance(7_000, true));
    assert!(fire_tolerance(3_000, true) < fire_tolerance(3_000, false));
}

#[test]
fn weapons_fit_the_distance() {
    let mut v = vars(Items::ROCKET_LAUNCHER | Items::SHOTGUN, 5, 100, 0, 0);
    v.ammo_shells = 10;
    assert_eq!(choose_weapon(&v, 400_000, false, false).weapon, Weapon::RocketLauncher);
    // Never a rocket point blank.
    assert_eq!(choose_weapon(&v, 50_000, false, false).weapon, Weapon::Shotgun);
    // An empty launcher is not chosen.
    v.ammo_rockets = 0;
    assert_eq!(choose_weapon(&v, 400_000, false, false).weapon, Weapon::Shotgun);
    assert_eq!(keep_range(100, 900_000, false), RangeMove::Close);
    assert_eq!(keep_range(100, 100_000, false), RangeMove::Back);
    assert_eq!(keep_range(100, 400_000, false), RangeMove::Hold);
}

const HAZARD_DIRS: [(f32, f32); 8] = [
    (1.0, 0.0),
    (0.707, 0.707),
    (0.0, 1.0),
    (-0.707, 0.707),
    (-1.0, 0.0),
    (-0.707, -0.707),
    (0.0, -1.0),
    (0.707, -0.707),
];
const HAZARD_RADII: [f32; 3] = [48.0, 96.0, 144.0];

/// Sound the surroundings of an enemy and look for a hazard.
fn survey(solid: &dyn Fn(Vec3) -> bool, contents: &dyn Fn(Vec3) -> i32, feet: Vec3) -> Option<Hazard> {
    let mut rays = Vec::new();
    for (dx, dy) in HAZARD_DIRS {
        let dir = Vec3::new(dx, dy, 0.0);
        let mut ray = Vec::new();
        for r in HAZARD_RADII {
            let p = feet + dir * r + Vec3::new(0.0, 0.0, 8.0);
            let start = feet + dir * 24.0 + Vec3::new(0.0, 0.0, 8.0);
            let steps = ((p - start).length() / 16.0).ceil().max(1.0) as i32;
            let clear = (0..=steps).all(|i| !solid(start.lerp(p, i as f32 / steps as f32)));
            let line: Vec<Sounding> = (0..14)
                .map(|k| p - Vec3::new(0.0, 0.0, 24.0 * k as f32))
                .map(|q| Sounding { content: contents(q), solid: solid(q) })
                .collect();
            ray.push(Probe { clear, below: hazard_below(&line) });
        }
        rays.push(ray);
    }
    find_hazard(&rays)
}

fn lava_past(p: Vec3) -> i32 {
    if p.x > 200.0 && p.z < 0.0 {
        Content::Lava.as_i32()
    } else {
        Content::Empty.as_i32()
    }
}

#[test]
fn finds_lava_edge_and_direction() {
    let solid = |p: Vec3| p.z <= 0.0 && p.x <= 200.0;
    let h = survey(&solid, &lava_past, Vec3::new(160.0, 0.0, 24.0)).expect("lava found");
    assert_eq!(h.kind, HazardKind::Lava);
    assert!(HAZARD_DIRS[h.dir].0 > 0.5, "should push toward +x (the lava): {:?}", h.dir);
}

#[test]
fn finds_pit() {
    let solid = |p: Vec3| p.z <= 0.0 && p.x <= 200.0;
    let empty = |_: Vec3| Content::Empty.as_i32();
    let h = survey(&solid, &empty, Vec3::new(170.0, 0.0, 24.0)).expect("pit found");
    assert_eq!(h.kind, HazardKind::Pit);
    assert!(HAZARD_DIRS[h.dir].0 > 0.5);
}

#[test]
fn railing_blocks_the_shove() {
    let solid = |p: Vec3| (p.z <= 0.0 && p.x <= 200.0) || (96.0..104.0).contains(&p.x);
    assert!(survey(&solid, &lava_past, Vec3::new(40.0, 0.0, 24.0)).is_none());
}

#[test]
fn open_floor_has_no_hazard() {
    let solid = |p: Vec3| p.z <= 0.0;
    let empty = |_: Vec3| Content::Empty.as_i32();
    assert!(survey(&solid, &empty, Vec3::new(0.0, 0.0, 24.0)).is_none());
}

/// Worse hazards come first, nearer ones among equals.
#[test]
fn the_worst_hazard_is_chosen() {
    let probe = |below| vec![Probe { clear: true, below }];
    let rays = vec![probe(Some(HazardKind::Slime)), probe(Some(HazardKind::Lava)), probe(Some(HazardKind::Pit))];
    assert_eq!(find_hazard(&rays), Some(Hazard { dir: 1, radius: 0, kind: HazardKind::Lava }));
    assert!(HazardKind::Lava.rank() > HazardKind::Pit.rank() && HazardKind::Pit.rank() > HazardKind::Slime.rank());
    let far = vec![
        vec![Probe { clear: true, below: None }, Probe { clear: true, below: Some(HazardKind::Pit) }],
        probe(Some(HazardKind::Pit)),
    ];
    assert_eq!(find_hazard(&far).unwrap().dir, 1);
}
