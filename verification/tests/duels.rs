//! Duels: weapons, aim, grenades lobbed and shot, and shoves into hazards.
use glam::{Vec2, Vec3, Vec3Swizzles};
use rtx::abi::EntVars;
use rtx::bot::combat::{
    aim_spread, air_lob_good, can_hit_grenade, defend, engage_close, engage_open, footing, grenade_tactics,
    ground_lob_good, hitscan_choice, shoot_grenade, spread_scale, teammate_in_blast, turn_rate, AimBy, Belief, Bystander,
    Closing, Defence, Footing, GrenadeFacts, GrenadeShot, LobWanted, RangeMove, Sight, Tactic, Thrower,
};
use rtx::bot::grenade::{
    bank_holds, los_to, own_live_grenade, pick_bank, predict_shove, rocket_shove, shove_reaches, BankFacts, BankSim, ComboStep, Detonate,
    DetonateFacts, Lob, OwnGrenade, Shove, ShoveFacts, Start, StartFacts, Watch, Windup,
};
use rtx::bot::state::{BotState, GrenadePhase};
use rtx::defs::{Flags, Items, MoveType, Weapon, BUTTON_ATTACK, BUTTON_JUMP};

fn armed(items: i32, shells: i32, rockets: i32) -> EntVars {
    let mut v = EntVars::cleared();
    v.health = 100;
    v.items = items;
    v.ammo_shells = shells;
    v.ammo_rockets = rockets;
    v
}

fn walker() -> EntVars {
    let mut v = EntVars::cleared();
    v.movetype = MoveType::Walk;
    v.flags = Flags::ONGROUND;
    v
}

#[test]
fn sight_is_held_for_a_while() {
    let mut b = BotState::blank();
    assert_eq!(b.sight(true, 0, 100), Sight::Clear);
    assert_eq!(b.sight(false, 951, 100), Sight::Clear);
    assert_eq!(b.sight(false, 950, 100), Sight::Lost);
    assert!(!b.note_sight(1_000));
    assert_eq!(b.sight(false, 0, 2_999), Sight::Held);
    assert_eq!(b.sight(false, 0, 3_000), Sight::Lost);
    assert!(b.note_sight(1_249), "a recent solution tells how fast it turns");
    assert!(!b.note_sight(1_250) && !b.note_sight(1_500));
    assert!(los_to(false, 951) && !los_to(false, 950) && los_to(true, 0));
}

#[test]
fn fights_open_with_a_weapon_and_an_aim() {
    let v = armed(Items::ROCKET_LAUNCHER | Items::SHOTGUN, 5, 3);
    assert_eq!(footing(true, 0), Footing::Grounded);
    assert_eq!(footing(true, 2), Footing::Swimming);
    assert_eq!(footing(false, 1), Footing::Airborne);
    let o = engage_open(&v, 400_000, Footing::Grounded, false, false, 150_001);
    assert_eq!((o.choice.weapon, o.impulse, o.aim, o.direct), (Weapon::RocketLauncher, 7, AimBy::Lead { low: true }, false));
    assert_eq!(engage_open(&v, 400_000, Footing::Swimming, false, false, 900_000).aim, AimBy::Lead { low: false });
    let o = engage_open(&v, 400_000, Footing::Airborne, false, false, 0);
    assert_eq!((o.aim, o.direct), (AimBy::Intercept, true));
    let o = engage_open(&v, 139_999, Footing::Airborne, false, false, 0);
    assert_eq!((o.choice.weapon, o.aim, o.direct), (Weapon::Shotgun, AimBy::Direct, false));
    let o = engage_open(&v, 400_000, Footing::Airborne, true, false, 0);
    assert_eq!((o.choice.weapon, o.impulse, o.aim, o.direct), (Weapon::GrenadeLauncher, 6, AimBy::Arc, true));
    let mut held = v;
    held.weapon = Weapon::RocketLauncher;
    assert_eq!(engage_open(&held, 400_000, Footing::Grounded, false, false, 0).impulse, 0);
}

#[test]
fn lobs_stand_in_for_rockets() {
    let mut b = BotState::blank();
    let v = armed(Items::GRENADE_LAUNCHER, 0, 1);
    assert_eq!(b.wants_lob(&v, Footing::Airborne, true), LobWanted::Air);
    assert_eq!(b.wants_lob(&v, Footing::Grounded, true), LobWanted::Neither);
    assert_eq!(b.wants_lob(&v, Footing::Grounded, false), LobWanted::Ground);
    assert_eq!(b.wants_lob(&v, Footing::Swimming, false), LobWanted::Neither);
    let both = armed(Items::GRENADE_LAUNCHER | Items::ROCKET_LAUNCHER, 0, 1);
    assert_eq!(b.wants_lob(&both, Footing::Airborne, false), LobWanted::Neither);
    b.grenade_phase = GrenadePhase::Windup;
    assert_eq!(b.wants_lob(&v, Footing::Airborne, false), LobWanted::Neither);
    assert!(air_lob_good(500, None, 160_000, true) && air_lob_good(500, Some(501), 160_000, true));
    assert!(!air_lob_good(500, Some(500), 160_000, true) && !air_lob_good(500, None, 159_999, true));
    assert!(!air_lob_good(500, None, 160_000, false));
    assert!(ground_lob_good(Some(47_999)) && !ground_lob_good(Some(48_000)) && !ground_lob_good(None));
}

#[test]
fn fire_waits_for_aim_and_line() {
    let mut v = armed(Items::ROCKET_LAUNCHER, 0, 3);
    v.weapon = Weapon::RocketLauncher;
    let rocket = engage_open(&v, 400_000, Footing::Grounded, false, false, 0);
    let f = Closing { fresh_view: false, off: 40_000, skill: 7_000, hit: false, short: 48_000, belief: None, dist: 400_000 };
    let shoot = |o, held, f: &Closing| engage_close(o, 100, held, BUTTON_JUMP, f).1;
    assert_eq!(shoot(&rocket, v.weapon, &f), BUTTON_ATTACK);
    assert_eq!(shoot(&rocket, v.weapon, &Closing { off: 40_001, ..f }), 0);
    assert_eq!(shoot(&rocket, v.weapon, &Closing { off: 90_000, fresh_view: true, ..f }), BUTTON_ATTACK);
    assert_eq!(shoot(&rocket, v.weapon, &Closing { short: 48_001, ..f }), 0);
    assert_eq!(shoot(&rocket, v.weapon, &Closing { short: 48_001, hit: true, ..f }), BUTTON_ATTACK);
    // A beam must be tighter than a shotgun; less skill is looser.
    let gun = engage_open(&armed(Items::SHOTGUN, 5, 0), 400_000, Footing::Grounded, false, false, 0);
    assert_eq!(shoot(&gun, Weapon::Shotgun, &Closing { off: 5_000, short: 99_000, ..f }), BUTTON_ATTACK);
    assert_eq!(shoot(&gun, Weapon::Shotgun, &Closing { off: 5_001, ..f }), 0);
    assert_eq!(shoot(&gun, Weapon::Shotgun, &Closing { off: 7_000, skill: 5_000, ..f }), BUTTON_ATTACK);
    let mut lg = armed(Items::LIGHTNING, 0, 0);
    lg.ammo_cells = 9;
    let beam = engage_open(&lg, 400_000, Footing::Grounded, false, false, 0);
    assert_eq!(shoot(&beam, Weapon::Lightning, &Closing { off: 2_501, ..f }), 0);
    // A lob waits for its launcher.
    let lob = engage_open(&v, 400_000, Footing::Airborne, true, false, 0);
    let near = Closing { off: 16_000, short: 900_000, ..f };
    assert_eq!(shoot(&lob, Weapon::RocketLauncher, &near), 0);
    assert_eq!(shoot(&lob, Weapon::GrenadeLauncher, &near), BUTTON_ATTACK);
    // A fresh belief in a weak enemy is pressed.
    let weak = Closing { belief: Some(Belief { stack: 34_999, age: 3_999 }), ..f };
    assert_eq!(engage_close(&rocket, 30, v.weapon, 0, &weak).0, RangeMove::Close);
    assert_eq!(engage_close(&rocket, 30, v.weapon, 0, &f).0, RangeMove::Back);
    assert_eq!(engage_close(&rocket, 19, v.weapon, 0, &weak).0, RangeMove::Back);
}

#[test]
fn aim_errors_drift() {
    let mut b = BotState::blank();
    assert!(b.resample_aim(0x80_0000, 1_000));
    assert_eq!(b.aim_err_until, 1_450);
    assert!(!b.resample_aim(0, 1_449) && b.resample_aim(0, 1_450));
    assert_eq!(b.visible_for(500), 0);
    b.vis_since = 100;
    assert_eq!(b.visible_for(500), 400);
    assert_eq!(aim_spread(7_000, 1_600_000), 0);
    assert_eq!(aim_spread(4_000, spread_scale(0, 0, 0, 500_000)), 4_800);
    assert_eq!(turn_rate(100_000, -200_000), (100_000, -180_000));
    assert_eq!(turn_rate(0, 360_001), (0, 0));
}

fn grenade(id: u32, dist: u32) -> GrenadeFacts {
    GrenadeFacts { id, dist, owner: 9, owner_team: 2, approaching: false, enemy_dist: 500_000, on_teammate: false }
}

const ME: Thrower = Thrower { id: 1, team: 1, health: 100, enemy: true, combo: 0 };

#[test]
fn live_grenades_are_shot_or_fled() {
    let tactic = |live: Vec<GrenadeFacts>, me: &Thrower| grenade_tactics(true, &live, me);
    assert_eq!(tactic(vec![], &ME), Tactic::Nothing);
    let live = vec![grenade(5, 199_999), grenade(6, 150_000)];
    assert_eq!(tactic(live.clone(), &ME), Tactic::Defend { grenade: 6, safe: true });
    assert_eq!(tactic(live.clone(), &Thrower { health: 90, ..ME }), Tactic::Defend { grenade: 6, safe: true });
    assert_eq!(tactic(live.clone(), &Thrower { health: 89, ..ME }), Tactic::Defend { grenade: 6, safe: false });
    assert_eq!(grenade_tactics(false, &live, &ME), Tactic::Nothing);
    assert_eq!(tactic(vec![grenade(5, 99_999)], &Thrower { health: 500, ..ME }), Tactic::Defend { grenade: 5, safe: false });
    // Far off it threatens only while it comes closer, and one's own side does not threaten.
    assert_eq!(tactic(vec![grenade(5, 200_000)], &ME), Tactic::Nothing);
    let coming = GrenadeFacts { approaching: true, ..grenade(5, 320_000) };
    assert_eq!(tactic(vec![coming], &ME), Tactic::Defend { grenade: 5, safe: true });
    assert_eq!(tactic(vec![GrenadeFacts { dist: 320_001, ..coming }], &ME), Tactic::Nothing);
    assert_eq!(tactic(vec![GrenadeFacts { owner_team: 1, ..coming }], &ME), Tactic::Nothing);
    assert_eq!(tactic(vec![GrenadeFacts { owner: 1, ..coming }], &Thrower { team: 0, ..ME }), Tactic::Nothing);
    // A grenade by the enemy is set off, unless it is kept for later or a teammate is near.
    let offer = GrenadeFacts { owner: 1, enemy_dist: 159_999, ..grenade(7, 250_000) };
    assert_eq!(tactic(vec![offer], &ME), Tactic::Burst { grenade: 7 });
    assert_eq!(tactic(vec![offer], &Thrower { combo: 7, ..ME }), Tactic::Nothing);
    assert_eq!(tactic(vec![offer], &Thrower { enemy: false, ..ME }), Tactic::Nothing);
    assert_eq!(tactic(vec![GrenadeFacts { on_teammate: true, ..offer }], &ME), Tactic::Nothing);
    let v = armed(Items::SHOTGUN, 1, 0);
    assert_eq!(defend(true, true, &v, true), Defence::Shoot);
    assert_eq!(defend(true, false, &v, true), Defence::Run { hop: true });
    assert_eq!(defend(true, true, &armed(0, 0, 0), false), Defence::Run { hop: false });
    assert!(can_hit_grenade(false, 901) && !can_hit_grenade(false, 900) && can_hit_grenade(true, 0));
}

#[test]
fn grenades_are_shot_with_a_gun() {
    let mut v = armed(Items::SHOTGUN | Items::SUPER_SHOTGUN, 1, 0);
    assert_eq!(hitscan_choice(&v), Some((2, Weapon::Shotgun)));
    assert_eq!(shoot_grenade(&v, false, 0, 2_000), GrenadeShot::Draw(2));
    v.weapon = Weapon::Shotgun;
    assert_eq!(shoot_grenade(&v, false, 2_000, 2_000), GrenadeShot::Aim { fire: true });
    assert_eq!(shoot_grenade(&v, false, 2_001, 2_000), GrenadeShot::Aim { fire: false });
    assert_eq!(shoot_grenade(&v, false, 1_500, 100), GrenadeShot::Aim { fire: true });
    assert_eq!(shoot_grenade(&v, false, 5_001, 90_000), GrenadeShot::Aim { fire: false });
    assert_eq!(shoot_grenade(&armed(0, 9, 9), true, 0, 0), GrenadeShot::Unable);
}

#[test]
fn blasts_spare_teammates() {
    let p = Bystander { id: 2, playing: true, health: 1, team: 1, dist: 159_999 };
    assert!(teammate_in_blast(1, 1, &vec![p]));
    assert!(!teammate_in_blast(1, 0, &vec![Bystander { team: 0, ..p }]), "no teams, no teammates");
    for q in [
        Bystander { id: 1, ..p },
        Bystander { playing: false, ..p },
        Bystander { health: 0, ..p },
        Bystander { team: 2, ..p },
        Bystander { dist: 160_000, ..p },
    ] {
        assert!(!teammate_in_blast(1, 1, &vec![q]));
    }
}

const START: StartFacts = StartFacts {
    hazard: true,
    skill: 0,
    wave: 0,
    dist: 300_000,
    teammate: false,
    toward: 500,
    reaches: true,
    hit: true,
    fraction: 0,
    flat: Lob::Lands(95_999),
    lofted: Lob::Lost,
    now: 1_000,
};

#[test]
fn combinations_start_when_they_may() {
    let v = armed(Items::GRENADE_LAUNCHER | Items::SHOTGUN, 5, 1);
    let mut b = BotState::blank();
    assert!(b.may_start(true, &v, &walker(), 200_000, 0) && b.may_start(true, &v, &walker(), 500_000, 0));
    assert!(!b.may_start(true, &v, &walker(), 500_001, 0) && !b.may_start(false, &v, &walker(), 300_000, 0));
    assert!(!b.may_start(true, &v, &EntVars::cleared(), 300_000, 0));
    assert_eq!(b.try_start(&armed(Items::GRENADE_LAUNCHER, 5, 1), &START), Start::Wait);
    let burst = StartFacts { hazard: false, skill: 3_000, wave: 600, ..START };
    assert_eq!(b.try_start(&v, &StartFacts { wave: 599, ..burst }), Start::Wait);
    assert_eq!(b.try_start(&v, &StartFacts { skill: 2_999, ..burst }), Start::Wait);
    assert_eq!(b.grenade_next_try, 0, "waiting costs nothing");
    for f in [
        StartFacts { toward: 501, ..START },
        StartFacts { reaches: false, ..START },
        StartFacts { teammate: true, ..START },
        StartFacts { dist: 99_999, ..START },
        StartFacts { hit: false, fraction: 900, ..START },
        StartFacts { flat: Lob::Lands(96_000), ..START },
    ] {
        let mut b = BotState::blank();
        assert_eq!(b.try_start(&v, &f), Start::Abandon);
        assert_eq!((b.grenade_phase, b.grenade_next_try), (GrenadePhase::Idle, 5_000));
        assert!(!b.may_start(true, &v, &walker(), 300_000, 4_999));
    }
    assert_eq!(b.try_start(&v, &StartFacts { flat: Lob::Lost, lofted: Lob::Unchecked, ..START }), Start::Begin { high: true });
    assert_eq!((b.grenade_phase, b.grenade_shove, b.grenade_bank), (GrenadePhase::Windup, true, false));
}

#[test]
fn a_combination_runs_to_its_end() {
    let mut v = armed(Items::GRENADE_LAUNCHER | Items::SHOTGUN, 5, 1);
    let mut b = BotState::blank();
    assert_eq!(b.grenade_combo(true, 1_000), ComboStep::Start);
    b.try_start(&v, &START);
    assert_eq!(b.grenade_combo(true, 1_000), ComboStep::Windup);
    assert_eq!(b.windup(Weapon::Shotgun, 0, 0, 1_100), Windup::Draw(6));
    assert_eq!(b.windup(Weapon::GrenadeLauncher, 1_201, 0, 1_200), Windup::Hold);
    assert_eq!(b.windup(Weapon::GrenadeLauncher, 0, 2_500, 1_200), Windup::Hold);
    assert_eq!(b.windup(Weapon::GrenadeLauncher, 1_200, 2_499, 1_200), Windup::Fire);
    assert_eq!(b.grenade_combo(true, 1_200), ComboStep::Watch);
    assert_eq!(b.lobbed(None, false, &v, 1_500), Watch::Wait);
    assert_eq!(b.lobbed(Some(30), true, &v, 1_500), Watch::Aim(2));
    v.weapon = Weapon::Shotgun;
    assert_eq!(b.lobbed(None, true, &v, 1_600), Watch::Aim(0));
    assert_eq!(b.grenade_combo(true, 1_600), ComboStep::Detonate);
    let f = DetonateFacts {
        live: true,
        dist: 300_000,
        teammate: false,
        enemy_dist: 139_999,
        reaches: true,
        can_hit: true,
        now: 1_700,
    };
    assert_eq!(b.detonate(100, &DetonateFacts { enemy_dist: 140_000, ..f }), Detonate::Aim);
    assert_eq!(b.detonate(100, &DetonateFacts { teammate: true, ..f }), Detonate::Hold { back: false });
    assert_eq!(b.detonate(100, &DetonateFacts { dist: 99_999, ..f }), Detonate::Hold { back: true });
    assert_eq!(b.detonate(100, &f), Detonate::Shoot);
    assert_eq!(b.detonate(100, &DetonateFacts { live: false, ..f }), Detonate::Over);
    assert_eq!((b.grenade_phase, b.grenade_ent, b.grenade_next_try), (GrenadePhase::Idle, 0, 3_200));
}

#[test]
fn combinations_are_given_up() {
    let v = armed(Items::GRENADE_LAUNCHER | Items::SHOTGUN, 5, 1);
    let begun = |now| {
        let mut b = BotState::blank();
        b.try_start(&v, &StartFacts { now, ..START });
        b
    };
    let mut b = begun(1_000);
    assert_eq!(b.windup(Weapon::Axe, 0, 0, 2_201), Windup::Abandon);
    assert_eq!(b.grenade_next_try, 6_201);
    let mut b = begun(1_000);
    assert_eq!(b.grenade_combo(false, 1_100), ComboStep::Nothing);
    assert_eq!((b.grenade_phase, b.grenade_next_try), (GrenadePhase::Idle, 2_600));
    let mut b = begun(1_000);
    b.windup(Weapon::GrenadeLauncher, 0, 0, 1_100);
    assert_eq!(b.lobbed(None, false, &v, 1_401), Watch::Over);
    let mut b = begun(1_000);
    b.windup(Weapon::GrenadeLauncher, 0, 0, 1_100);
    assert_eq!(b.lobbed(Some(30), false, &v, 1_200), Watch::Over);
    assert_eq!(b.grenade_next_try, 2_700);
    // A shove is not needed for a plain burst, but nearness is.
    let mut b = begun(1_000);
    b.grenade_shove = false;
    b.grenade_ent = 30;
    let f =
        DetonateFacts { live: true, dist: 300_000, teammate: false, enemy_dist: 99_999, reaches: false, can_hit: true, now: 3_500 };
    assert_eq!(b.detonate(100, &f), Detonate::Shoot);
    assert_eq!(b.detonate(100, &DetonateFacts { enemy_dist: 100_000, ..f }), Detonate::Aim);
    assert_eq!(b.detonate(100, &DetonateFacts { now: 3_501, ..f }), Detonate::Over);
}

#[test]
fn banks_are_rare_and_fused() {
    let v = armed(Items::GRENADE_LAUNCHER, 0, 1);
    let f = BankFacts {
        skill: 4_000,
        has_map: true,
        speed: 120_000,
        carrier: false,
        wave: 700,
        solved: true,
        teammate: false,
        now: 4_000,
    };
    let mut b = BotState::blank();
    assert_eq!(b.try_start_bank(&BankFacts { skill: 3_999, ..f }), Start::Wait);
    assert_eq!(b.try_start_bank(&f), Start::Abandon, "never seen");
    assert_eq!(b.grenade_next_try, 10_000);
    b.enemy_seen_time = 1_000;
    assert_eq!(b.try_start_bank(&BankFacts { wave: 699, ..f }), Start::Wait);
    assert_eq!(b.try_start_bank(&BankFacts { speed: 120_001, ..f }), Start::Abandon);
    assert_eq!(b.try_start_bank(&BankFacts { now: 4_001, ..f }), Start::Abandon);
    assert_eq!(b.try_start_bank(&BankFacts { teammate: true, ..f }), Start::Abandon);
    assert_eq!(b.try_start_bank(&BankFacts { wave: 0, carrier: true, ..f }), Start::Begin { high: false });
    assert!(b.grenade_bank);
    b.windup(Weapon::GrenadeLauncher, 0, 0, 4_100);
    assert_eq!(b.lobbed(Some(8), true, &v, 7_100), Watch::Wait);
    assert_eq!(b.lobbed(Some(8), true, &v, 7_101), Watch::Over);
    assert_eq!(b.grenade_next_try, 10_101);
}

#[test]
fn the_best_bank_is_picked() {
    let s = BankSim { hit: false, det_dist: 80_000, det_time: 1_000, bounces: 1, self_return: 160_000, first_bounce: 64_000 };
    assert_eq!(pick_bank(&vec![s, BankSim { det_dist: 79_999, ..s }, BankSim { hit: true, bounces: 5, ..s }]), Some(1));
    assert_eq!(pick_bank(&vec![s, s]), Some(0));
    let bad = vec![
        BankSim { det_dist: 90_000, ..s },
        BankSim { self_return: 159_999, ..s },
        BankSim { first_bounce: 63_999, ..s },
    ];
    assert_eq!(pick_bank(&bad), None);
    assert!(bank_holds(&vec![BankSim { det_dist: 139_999, ..s }, BankSim { hit: true, det_dist: 900_000, ..s }]));
    assert!(!bank_holds(&vec![s, BankSim { det_dist: 140_000, ..s }]));
}

#[test]
fn thrown_grenades_are_found() {
    let g = |id, dist| OwnGrenade { id, dist };
    assert_eq!(own_live_grenade(&vec![g(4, 119_999), g(5, 80_000), g(6, 80_000)]), Some(5));
    assert_eq!(own_live_grenade(&vec![g(4, 120_000)]), None);
    assert_eq!(own_live_grenade(&vec![]), None);
}

/// The impulse that a blast at `b` gives a victim with this middle and origin.
fn impulse(center: Vec3, origin: Vec3, b: Vec3) -> Vec3 {
    let speed = predict_shove(((b - center).length() * 1_000.0) as u32);
    (origin - b).normalize_or_zero() * (speed as f32 / 1_000.0)
}

/// Whether a blast at `b` carries the victim over an edge in a direction.
fn carries(center: Vec3, origin: Vec3, b: Vec3, dir: Vec3, edge: f32) -> bool {
    let imp = impulse(center, origin, b);
    let way: Vec2 = dir.xy().normalize_or_zero();
    let align = imp.xy().normalize_or_zero().dot(way) * 1_000.0;
    shove_reaches(
        align as i32,
        (imp.z * 1_000.0) as i32,
        (imp.xy().length() * 1_000.0) as u32,
        (edge * 1_000.0) as u32,
    )
}

#[test]
fn shove_is_outward_and_scaled() {
    // Blast 60u to the -x side of the victim: push toward +x, magnitude 8*(120-0.5*60)=720.
    let center = Vec3::new(0.0, 0.0, 4.0);
    let b = Vec3::new(-60.0, 0.0, 4.0);
    let imp = impulse(center, Vec3::ZERO, b);
    assert!(imp.x > 0.0 && imp.y.abs() < 1.0, "should push +x: {imp:?}");
    assert!((imp.length() - 720.0).abs() < 1.0, "magnitude off: {}", imp.length());
    // Outside the radius there is no shove.
    assert_eq!(impulse(center, Vec3::ZERO, Vec3::new(-400.0, 0.0, 4.0)).length(), 0.0);
}

#[test]
fn shove_reaches_near_edge_not_far() {
    // Blast 60u behind the enemy pushes +x hard (720ups, some 180u of slide).
    let center = Vec3::new(0.0, 0.0, 4.0);
    let b = Vec3::new(-60.0, 0.0, 4.0);
    let dir = Vec3::new(1.0, 0.0, 0.0);
    assert!(carries(center, Vec3::ZERO, b, dir, 100.0), "should clear a 100u edge");
    assert!(!carries(center, Vec3::ZERO, b, dir, 400.0), "shouldn't clear a 400u edge");
    // Wrong-direction hazard: pushing +x doesn't help a -x hazard.
    assert!(!carries(center, Vec3::ZERO, b, Vec3::new(-1.0, 0.0, 0.0), 50.0));
}

#[test]
fn rockets_shove_into_hazards() {
    assert!(shove_reaches(600, 0, 400_000, 83_999) && !shove_reaches(600, 0, 400_000, 84_000));
    assert!(shove_reaches(600, 150_001, 400_000, 183_999) && !shove_reaches(599, 150_001, 400_000, 0));
    let mut v = armed(Items::ROCKET_LAUNCHER, 0, 1);
    let en = walker();
    let f = ShoveFacts {
        dist: 300_000,
        speed: 250_000,
        hazard: true,
        reaches: true,
        teammate: false,
        blast_dist: 300_000,
        hit: false,
        miss: 48_000,
        off: 3_999,
    };
    assert_eq!(rocket_shove(&v, Some(&en), &f), Shove::Draw(7));
    v.weapon = Weapon::RocketLauncher;
    assert_eq!(rocket_shove(&v, Some(&en), &f), Shove::Aim { fire: true });
    assert_eq!(rocket_shove(&v, Some(&en), &ShoveFacts { off: 4_000, ..f }), Shove::Aim { fire: false });
    assert_eq!(rocket_shove(&v, None, &f), Shove::Pass);
    assert_eq!(rocket_shove(&v, Some(&EntVars::cleared()), &f), Shove::Pass);
    for bad in [
        ShoveFacts { dist: 700_001, ..f },
        ShoveFacts { speed: 250_001, ..f },
        ShoveFacts { hazard: false, ..f },
        ShoveFacts { reaches: false, ..f },
        ShoveFacts { teammate: true, ..f },
        ShoveFacts { blast_dist: 99_999, ..f },
        ShoveFacts { hit: true, ..f },
        ShoveFacts { miss: 48_001, ..f },
    ] {
        assert_eq!(rocket_shove(&v, Some(&en), &bad), Shove::Pass);
    }
}
