//! What bots want of the items of a map.
use rtx::abi::EntVars;
use rtx::arsenal::AmmoKind;
use rtx::bot::goals::{
    ammo_desire, bot_stats, category, firepower, is_goal_classname, item_collect_time, item_desire, item_goal_valid,
    select_item_goal, total_strength, weapon_ammo, weapon_bit, weapon_desire, Category, Stats, WeaponKind,
};
use rtx::bot::state::BotState;
use rtx::defs::{Items, Solid};
use rtx::entity::{EntId, Entities, Think};

fn body(health: i32, armor: i32, share: i32) -> EntVars {
    let mut v = EntVars::cleared();
    v.health = health;
    v.armorvalue = armor;
    v.armortype = share;
    v.items = Items::SHOTGUN | Items::AXE;
    v.ammo_shells = 25;
    v
}

fn stats(health: i32, armor: i32, share: i32) -> Stats {
    bot_stats(&body(health, armor, share), 1)
}

#[test]
fn armor_stretches_health() {
    assert_eq!(total_strength(100_000, 0, 0), 100_000);
    assert_eq!(total_strength(100_000, 200_000, 800), 300_000);
    assert_eq!(total_strength(100_000, 1_000_000, 800), 500_000);
    assert_eq!(total_strength(-5_000, 200_000, 800), 0);
    // Armor that absorbs all, and more than all.
    assert_eq!(total_strength(100_000, 50_000, 1000), 150_000);
    assert_eq!(total_strength(-1, 50_000, 1000), 0);
    assert_eq!(total_strength(100_000, 50_000, 2000), 0);
    assert_eq!(total_strength(-10_000, 50_000, 2000), 10_000);
    let s = stats(80, 100, 300);
    assert_eq!((s.strength, s.armor, s.firepower), (114_285, 30_000, 10_000));
}

#[test]
fn items_are_sorted_into_kinds() {
    assert_eq!(category("item_artifact_super_damage"), Some(Category::Powerup));
    assert_eq!(category("item_armor1"), Some(Category::Armor { value: 100, at: 300, gate: 30_000, double: true }));
    assert_eq!(category("weapon_lightning"), Some(Category::Weapon(WeaponKind::Lg)));
    assert_eq!(category("item_spikes"), Some(Category::Ammo(AmmoKind::Nails)));
    assert!(!is_goal_classname("item_artifact_envirosuit"));
    assert!(is_goal_classname("item_health"));
    assert_eq!(weapon_bit(WeaponKind::Sng), Items::SUPER_NAILGUN);
    assert_eq!(weapon_ammo(WeaponKind::Gl), AmmoKind::Rockets);
}

#[test]
fn firepower_is_that_of_the_best_fed_weapon() {
    assert_eq!(firepower(Items::SHOTGUN, 4, 0, 0, 0), 4_000);
    assert_eq!(firepower(Items::SHOTGUN, 50, 0, 0, 0), 10_000);
    assert_eq!(firepower(Items::SUPER_SHOTGUN, 50, 0, 0, 0), 20_000);
    assert_eq!(firepower(Items::SUPER_NAILGUN | Items::NAILGUN, 0, 60, 0, 0), 30_000);
    assert_eq!(firepower(Items::ROCKET_LAUNCHER | Items::GRENADE_LAUNCHER, 0, 0, 5, 0), 40_000);
    assert_eq!(firepower(Items::LIGHTNING | Items::ROCKET_LAUNCHER, 0, 0, 3, 30), 100_000);
}

#[test]
fn the_unarmed_want_weapons() {
    let s = stats(100, 0, 0);
    assert_eq!(weapon_desire(&s, WeaponKind::Rl), 900_000);
    assert_eq!(weapon_desire(&s, WeaponKind::Gl), 400_000);
    assert_eq!(weapon_desire(&s, WeaponKind::Ng), 100_000);
    assert_eq!(ammo_desire(&s, AmmoKind::Rockets), 200_000);
    assert_eq!(ammo_desire(&s, AmmoKind::Cells), 100_000);
    assert_eq!(ammo_desire(&s, AmmoKind::Shells), 12_500);
    let mut v = body(100, 0, 0);
    v.items |= Items::ROCKET_LAUNCHER;
    v.ammo_rockets = 30;
    let armed = bot_stats(&v, 1);
    assert_eq!(weapon_desire(&armed, WeaponKind::Ssg), 0);
    assert_eq!(ammo_desire(&armed, AmmoKind::Rockets), 50_000);
    // A weapon in hand is worth its ammo, and nothing where weapons stay.
    assert_eq!(item_desire(&armed, 0, 0, Category::Weapon(WeaponKind::Rl)), 50_000);
    assert_eq!(item_desire(&bot_stats(&v, 3), 0, 0, Category::Weapon(WeaponKind::Rl)), 0);
}

#[test]
fn the_hurt_want_health_and_armor() {
    let s = stats(60, 0, 0);
    assert_eq!(item_desire(&s, 25, 1, Category::Health), 500_000);
    assert_eq!(item_desire(&s, 100, 2, Category::Health), 1_000_000);
    assert_eq!(item_desire(&stats(90, 0, 0), 25, 1, Category::Health), 200_000);
    assert_eq!(item_desire(&stats(100, 0, 0), 25, 1, Category::Health), 0);
    let green = category("item_armor1").unwrap();
    let red = category("item_armorInv").unwrap();
    assert_eq!(item_desire(&stats(70, 0, 0), 0, 0, green), 600_000);
    assert_eq!(item_desire(&stats(100, 0, 0), 0, 0, red), 2_000_000);
    assert_eq!(item_desire(&stats(100, 200, 800), 0, 0, red), 0);
    assert_eq!(item_desire(&stats(100, 0, 0), 0, 0, Category::Powerup), 3_000_000);
}

fn room() -> Entities {
    let mut entities = Entities::new(8);
    for (i, class) in [(2, "item_armorInv"), (3, "weapon_rocketlauncher"), (4, "item_health")] {
        let e = &mut entities.slots[i];
        e.in_use = true;
        e.classname = Some(class.to_owned());
        e.v.solid = Solid::Trigger;
        e.item.healamount = 25;
        e.item.healtype = 1;
    }
    entities
}

#[test]
fn hidden_items_are_waited_for() {
    let mut entities = room();
    let e = &mut entities.slots[2];
    assert_eq!(item_collect_time(e, 3_000, 100), Some(3_000));
    e.v.solid = Solid::Not;
    assert_eq!(item_collect_time(e, 3_000, 100), None);
    e.think = Think::SubRegen;
    e.v.nextthink = 5_100;
    assert_eq!(item_collect_time(e, 3_000, 100), Some(5_000));
    assert_eq!(item_collect_time(e, 6_000, 100), Some(6_000));
    let s = stats(100, 0, 0);
    assert!(item_goal_valid(&s, e, 100));
    assert!(!item_goal_valid(&s, e, -4_900));
    assert!(!item_goal_valid(&stats(100, 200, 800), e, 100));
}

#[test]
fn the_nearest_of_the_best_is_fetched() {
    let entities = room();
    let goals = vec![(2, 0), (3, 1), (4, 2)];
    let s = stats(100, 0, 0);
    let mut b = BotState::blank();
    // Armor for 200 points five seconds off against a launcher for 90 at hand.
    let near = |armor: u32, launcher: u32| vec![Some(armor), Some(launcher), Some(0)];
    assert_eq!(select_item_goal(&b, &s, &entities, &goals, &near(5_000, 1_000), 0), Some((EntId(3), 1)));
    assert_eq!(select_item_goal(&b, &s, &entities, &goals, &near(2_000, 1_000), 0), Some((EntId(2), 0)));
    assert_eq!(select_item_goal(&b, &s, &entities, &goals, &near(10_000, 10_000), 0), None);
    assert_eq!(select_item_goal(&b, &s, &entities, &goals, &vec![None, None, None], 0), None);
    b.mark_avoid(2, 500);
    assert_eq!(select_item_goal(&b, &s, &entities, &goals, &near(2_000, 1_000), 499), Some((EntId(3), 1)));
    assert_eq!(select_item_goal(&b, &s, &entities, &goals, &near(2_000, 1_000), 500), Some((EntId(2), 0)));
}
