//! What bots believe about their opponents.
use rtx::bot::model::{
    apply_damage, baseline_for_mode, drifted_health, est_strength, iter_pools, observer_pool, target_bias,
    weapon_fire_bit, witness_pools, OpponentEstimate, OpponentModel, Party, PickupKind, Witness,
};
use rtx::defs::{Bits, Items, Weapon};
use rtx::entity::EntId;

fn est(health: i64, armor_value: i64, armor_type: i32) -> OpponentEstimate {
    OpponentEstimate { health, armor_value, armor_type, ..OpponentEstimate::default() }
}

fn model() -> OpponentModel {
    OpponentModel::default()
}

#[test]
fn baseline_is_fresh_kit() {
    let e = OpponentEstimate::default();
    assert_eq!(e.health, 100_000);
    assert_eq!(e.armor_value, 0);
    assert!(e.items.has(Items::SHOTGUN) && e.items.has(Items::AXE));
    assert!(!e.items.has(Items::ROCKET_LAUNCHER));
}

#[test]
fn baseline_for_mode_arms_fixed_kits() {
    let midair = baseline_for_mode("midair");
    assert_eq!(midair.health, 250_000);
    assert!(midair.items.has(Items::ROCKET_LAUNCHER));
    assert_eq!(midair.armor_type, 800);

    let arena = baseline_for_mode("arena");
    assert!(arena.items.has(Items::ROCKET_LAUNCHER) && arena.items.has(Items::SUPER_NAILGUN));
    assert_eq!(arena.armor_value, 200_000);

    // Everything else is the stock kit.
    assert_eq!(baseline_for_mode("ffa"), OpponentEstimate::default());
    assert_eq!(baseline_for_mode("teamplay"), OpponentEstimate::default());
}

#[test]
fn damage_absorb_matches_t_damage() {
    // 60 damage into 200-point red armor: it saves 48, health pays 12.
    let after = apply_damage(est(100_000, 200_000, 800), 60_000);
    assert_eq!(after.armor_value, 152_000);
    assert_eq!(after.armor_type, 800);
    assert_eq!(after.health, 88_000);
}

#[test]
fn damage_breaks_thin_armor_and_zeroes_type() {
    // 100 damage into 10-point green armor: it saves 10 and breaks, health pays 90.
    let after = apply_damage(est(100_000, 10_000, 300), 100_000);
    assert_eq!(after.armor_value, 0);
    assert_eq!(after.armor_type, 0);
    assert_eq!(after.health, 10_000);
}

#[test]
fn quadded_damage_is_the_delivered_amount() {
    let after = apply_damage(est(100_000, 0, 0), 120_000);
    assert_eq!(after.health, -20_000);
}

#[test]
fn pickup_deltas_mirror_handlers() {
    let mut m = model();
    let t = EntId(3);
    // Health caps at 100; mega lifts it beyond.
    m.note_pickup(0, t, PickupKind::Health(25_000), 1_000);
    assert_eq!(m.entry(0, t).health, 100_000);
    m.note_pickup(0, t, PickupKind::Mega, 1_000);
    assert_eq!(m.entry(0, t).health, 200_000);
    // Armor replaces value and type.
    m.note_pickup(0, t, PickupKind::Armor { value: 150_000, atype: 600 }, 1_000);
    assert_eq!(m.entry(0, t).armor_value, 150_000);
    assert_eq!(m.entry(0, t).armor_type, 600);
    // A weapon adds its bit; quad lasts thirty seconds.
    m.note_pickup(0, t, PickupKind::Weapon(Items::ROCKET_LAUNCHER), 1_000);
    assert!(m.entry(0, t).items.has(Items::ROCKET_LAUNCHER));
    m.note_pickup(0, t, PickupKind::Quad, 5_000);
    assert_eq!(m.entry(0, t).quad_until, 35_000);
}

#[test]
fn death_resets_all_pools() {
    let mut m = model();
    let t = EntId(4);
    m.note_pickup(0, t, PickupKind::Weapon(Items::ROCKET_LAUNCHER), 1_000);
    m.note_pickup(3, t, PickupKind::Weapon(Items::LIGHTNING), 1_000);
    m.note_damage(0, t, 50_000, 1_000);
    m.reset_target(t, 9_000);
    for pool in [0, 3] {
        let e = m.entry(pool, t);
        assert_eq!(e.health, 100_000);
        assert!(!e.items.has(Items::ROCKET_LAUNCHER) && !e.items.has(Items::LIGHTNING));
        assert_eq!(e.last_update, 9_000);
    }
}

#[test]
fn staleness_drifts_up_after_grace_and_caps() {
    // Below the prior: no drift within the grace, then two points a second, up to 100.
    assert_eq!(drifted_health(30_000, 0, 4_000), 30_000);
    assert_eq!(drifted_health(30_000, 0, 10_000), 40_000);
    assert_eq!(drifted_health(30_000, 0, 100_000), 100_000);
    // At or above the prior it never drifts.
    assert_eq!(drifted_health(100_000, 0, 100_000), 100_000);
    assert_eq!(drifted_health(250_000, 0, 100_000), 250_000);
}

#[test]
fn est_strength_uses_drift_and_armor() {
    assert_eq!(est_strength(&est(100_000, 0, 0), 0), 100_000);
    // 50 health under yellow armor of 50: the lesser of 50 / 0.4 and 50 + 50.
    assert_eq!(est_strength(&est(50_000, 50_000, 600), 0), 100_000);
}

#[test]
fn weapon_fire_bit_skips_melee_and_grapple() {
    assert_eq!(weapon_fire_bit(Weapon::Axe), None);
    assert_eq!(weapon_fire_bit(Weapon::Grapple), None);
    assert_eq!(weapon_fire_bit(Weapon::Nil), None);
    assert_eq!(weapon_fire_bit(Weapon::RocketLauncher), Some(Items::ROCKET_LAUNCHER));
}

#[test]
fn iter_pools_walks_set_bits() {
    let mask = (1 << 0) | (1 << 3) | (1 << 8);
    assert_eq!(iter_pools(mask), vec![0, 3, 8]);
}

#[test]
fn target_bias_orders_weak_first() {
    // A weak enemy at 200 outranks a full one at 150.
    let weak = 200i64.pow(2) * target_bias(30_000, false, false);
    let strong = 150i64.pow(2) * target_bias(200_000, false, false);
    assert!(weak < strong);
    assert_eq!(target_bias(30_000, false, false), 400_000);
    assert_eq!(target_bias(250_000, false, false), 2_500_000);
    // Killing one with a big weapon pays where weapons do not stay.
    assert_eq!(target_bias(100_000, true, false), 800_000);
    assert_eq!(target_bias(100_000, true, true), 1_000_000);
}

/// One side's news stay with that side.
#[test]
fn pools_are_separate() {
    let mut m = model();
    let t = EntId(7);
    m.note_damage(1, t, 40_000, 2_000);
    assert_eq!(m.entry(1, t).health, 60_000);
    assert_eq!(m.entry(2, t).health, 100_000);
    assert_eq!(m.entry(1, EntId(8)).health, 100_000);
    // A weapon seen once is remembered through damage.
    m.note_weapon(1, t, Items::LIGHTNING, 3_000);
    m.note_damage(1, t, 10_000, 4_000);
    assert!(m.entry(1, t).items.has(Items::LIGHTNING));
}

#[test]
fn only_living_bots_nearby_are_witnesses() {
    let near = Witness { in_use: true, is_bot: true, player: true, health: 1, team: 0, dist: 1_000_000 };
    assert_eq!(observer_pool(0, true), Some(0));
    assert_eq!(observer_pool(0, false), None);
    assert_eq!(witness_pools(true, &vec![near]), 1);
    assert_eq!(witness_pools(false, &vec![near]), 0);
    assert_eq!(witness_pools(true, &vec![Witness { dist: 1_000_001, ..near }]), 0);
    assert_eq!(witness_pools(true, &vec![Witness { health: 0, ..near }]), 0);
    assert_eq!(witness_pools(true, &vec![Witness { is_bot: false, ..near }]), 0);
}

const BOT: Party = Party { id: EntId(1), player: true, team: 0, is_bot: true };
const FOE: Party = Party { id: EntId(2), player: true, team: 0, is_bot: false };

#[test]
fn hits_are_learned_by_the_side_that_hit() {
    let mut m = model();
    m.model_note_damage(true, BOT, FOE, 30_000, 1_000);
    assert_eq!(m.opponent_est(true, BOT, FOE.id, 1_000).unwrap().health, 70_000);
    // A belief ages: two points a second, after five seconds.
    assert_eq!(m.opponent_est(true, BOT, FOE.id, 8_000).unwrap().health, 74_000);
    assert!(m.opponent_est(false, BOT, FOE.id, 1_000).is_none());
    // A person without a team keeps no pool, and nobody learns from hurting itself.
    assert!(m.opponent_est(true, FOE, BOT.id, 1_000).is_none());
    m.model_note_damage(true, BOT, BOT, 30_000, 1_000);
    m.model_note_damage(true, BOT, Party { player: false, ..FOE }, 30_000, 1_000);
    m.model_note_damage(false, BOT, FOE, 30_000, 1_000);
    assert_eq!(m.entry(0, FOE.id).health, 70_000);
    assert_eq!(m.entry(0, BOT.id).health, 100_000);
    m.model_reset_target(true, FOE.id, false, 2_000);
    assert_eq!(m.entry(0, FOE.id).health, 70_000);
    m.model_reset_target(true, FOE.id, true, 2_000);
    assert_eq!(m.entry(0, FOE.id).health, 100_000);
}

#[test]
fn weapons_and_pickups_are_noticed() {
    let near = Witness { in_use: true, is_bot: true, player: true, health: 1, team: 0, dist: 0 };
    let away = vec![Witness { dist: 2_000_000, ..near }];
    let clients = vec![near];
    let mut m = model();
    m.model_note_weapon_of_attacker(true, BOT, FOE, Items::NAILGUN, 500);
    assert!(m.entry(0, FOE.id).items.has(Items::NAILGUN));
    m.model_note_weapon_fire(true, FOE.id, Weapon::RocketLauncher, &away, 600);
    assert!(!m.entry(0, FOE.id).items.has(Items::ROCKET_LAUNCHER));
    m.model_note_weapon_fire(true, FOE.id, Weapon::RocketLauncher, &clients, 600);
    assert!(m.entry(0, FOE.id).items.has(Items::ROCKET_LAUNCHER));
    m.model_note_weapon_fire(true, FOE.id, Weapon::Axe, &clients, 700);
    assert_eq!(m.entry(0, FOE.id).last_update, 600);
    m.model_note_pickup(true, FOE.id, PickupKind::Mega, &clients, 800);
    assert_eq!(m.entry(0, FOE.id).health, 200_000);
    m.model_note_pickup(false, FOE.id, PickupKind::Mega, &clients, 900);
    assert_eq!(m.entry(0, FOE.id).health, 200_000);
}

#[test]
fn weak_targets_count_as_nearer() {
    let mut m = model();
    assert_eq!(m.target_dist_bias(false, BOT, FOE.id, 0, false), 1_000_000);
    assert_eq!(m.target_dist_bias(true, BOT, FOE.id, 0, false), target_bias(100_000, false, false));
    m.model_note_damage(true, BOT, FOE, 70_000, 0);
    assert_eq!(m.target_dist_bias(true, BOT, FOE.id, 0, false), 400_000);
    // Ten seconds past the grace it is believed to have gained twenty points, once.
    assert_eq!(m.target_dist_bias(true, BOT, FOE.id, 15_000, false), 500_000);
    m.model_note_weapon_of_attacker(true, BOT, FOE, Items::LIGHTNING, 0);
    let armed = m.target_dist_bias(true, BOT, FOE.id, 0, false);
    assert_eq!(armed, target_bias(30_000, true, false));
}
