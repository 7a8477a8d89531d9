//! Pickups.
use rtx::abi::EntVars;
use rtx::arsenal::AmmoKind;
use rtx::assets::{Model, Sound};
use rtx::defs::{AmmoFlags, Bits, Flags, HealthFlags, Items, MoveType, Solid, Weapon};
use rtx::entity::{EntId, Entity, Think, Touch};
use rtx::game::GameState;
use rtx::items::{
    add_ammo, bound_other_ammo, deathmatch_weapon, drop_backpack, execute_spawn_action, item_box, leaves_backpack, t_heal,
    weapon_code, Spawned, WeaponTouch,
};
use rtx::spawn::{resolve_spawn_class, SpawnFn};

const P: EntId = EntId(1);
const I: EntId = EntId(9);

fn game(class: &str) -> GameState {
    let mut g = GameState::new();
    let p = &mut g.entities.slots[1];
    p.in_use = true;
    p.classname = Some("player".to_owned());
    p.v.health = 50;
    p.v.max_health = 100;
    p.v.flags = Flags::CLIENT;
    let i = &mut g.entities.slots[9];
    i.in_use = true;
    i.classname = Some(class.to_owned());
    i.v.modelindex = 3;
    i.v.solid = Solid::Trigger;
    g
}

#[test]
fn healing_stops_at_its_limits() {
    let mut v = EntVars::cleared();
    v.health = 90;
    v.max_health = 100;
    assert_eq!(t_heal(v, 25, false).unwrap().health, 100);
    assert_eq!(t_heal(v, 100, true).unwrap().health, 190);
    v.health = 100;
    assert!(t_heal(v, 25, false).is_none());
    v.health = 200;
    assert_eq!(t_heal(v, 100, true).unwrap().health, 250);
    v.health = 0;
    assert!(t_heal(v, 25, true).is_none());
}

#[test]
fn health_boxes_heal_and_come_back() {
    let mut g = game("item_health");
    g.entities.slots[9].item.healamount = 25;
    g.entities.slots[9].item.healtype = 1;
    assert!(g.health_touch(I, P, 1_000));
    assert_eq!(g.entities.slots[1].v.health, 75);
    let i = &g.entities.slots[9];
    assert!(i.v.modelindex == 0 && i.v.solid == Solid::Not);
    assert!(i.think == Think::SubRegen && i.v.nextthink == 21_000);
    assert_eq!(g.activator, P);
    g.sub_regen(I);
    assert_eq!(g.entities.slots[9].v.solid, Solid::Trigger);
    g.entities.slots[1].v.health = 100;
    assert!(!g.health_touch(I, P, 1_000));
}

#[test]
fn a_megahealth_rots() {
    let mut g = game("item_health");
    g.entities.slots[1].v.health = 100;
    g.entities.slots[9].item.healamount = 100;
    g.entities.slots[9].item.healtype = 2;
    assert!(g.health_touch(I, P, 1_000));
    assert_eq!(g.entities.slots[1].v.health, 200);
    assert!(g.entities.slots[1].v.items.has(Items::SUPERHEALTH));
    assert_eq!(g.entities.slots[9].owner(), P);
    assert_eq!(g.entities.slots[9].v.nextthink, 6_000);
    assert!(g.mega_health_rot(I, 6_000));
    assert_eq!(g.entities.slots[1].v.health, 199);
    assert_eq!(g.entities.slots[9].v.nextthink, 7_000);
    g.entities.slots[1].v.health = 100;
    assert!(!g.mega_health_rot(I, 7_000));
    assert!(!g.entities.slots[1].v.items.has(Items::SUPERHEALTH));
}

#[test]
fn better_armor_is_taken() {
    let mut g = game("item_armor2");
    assert!(g.armor_touch(I, P, 1_000));
    let v = &g.entities.slots[1].v;
    assert_eq!((v.armortype, v.armorvalue), (600, 150));
    assert!(v.items.has(Items::ARMOR2));
    // Green armor is worth less than that.
    g.entities.slots[9].classname = Some("item_armor1".to_owned());
    assert!(!g.armor_touch(I, P, 1_000));
    g.entities.slots[9].classname = Some("item_armorInv".to_owned());
    assert!(g.armor_touch(I, P, 1_000));
    let v = &g.entities.slots[1].v;
    assert_eq!((v.armortype, v.armorvalue), (800, 200));
    assert!(!v.items.has(Items::ARMOR2));
}

#[test]
fn ammo_stops_at_its_cap() {
    let mut v = EntVars::cleared();
    v.ammo_nails = 190;
    v.ammo_cells = 90;
    let v = bound_other_ammo(add_ammo(add_ammo(v, AmmoKind::Nails, 50), AmmoKind::Cells, 50));
    assert_eq!((v.ammo_nails, v.ammo_cells), (200, 100));
    let mut g = game("item_rockets");
    g.entities.slots[9].item.ammo_code = 3;
    g.entities.slots[9].item.aflag = 5;
    let held = g.entities.slots[1].v.weapon;
    assert!(g.ammo_touch(I, P));
    assert_eq!(g.entities.slots[1].v.ammo_rockets, 5);
    g.ammo_taken(I, P, held, Weapon::SuperShotgun, 1_000);
    let p = &g.entities.slots[1].v;
    assert_eq!((p.ammo_rockets, p.weapon), (5, Weapon::SuperShotgun));
    assert_eq!(g.entities.slots[9].v.nextthink, 31_000);
    g.entities.slots[1].v.ammo_rockets = 100;
    assert!(!g.ammo_touch(I, P));
    // Who holds another weapon keeps it.
    g.ammo_taken(I, P, Weapon::Axe, Weapon::RocketLauncher, 1_000);
    assert_eq!(g.entities.slots[1].v.weapon, Weapon::SuperShotgun);
}

#[test]
fn weapons_are_taken_and_drawn() {
    let mut g = game("weapon_rocketlauncher");
    g.entities.slots[1].v.weapon = Weapon::Shotgun;
    assert_eq!(g.weapon_touch(I, P, 8, 1_000), WeaponTouch::Taken);
    let v = &g.entities.slots[1].v;
    assert_eq!((v.weapon, v.ammo_rockets), (Weapon::RocketLauncher, 5));
    assert!(v.items.has(Items::ROCKET_LAUNCHER));
    // Not drawn beyond the player's limit; left where weapons stay.
    let mut g = game("weapon_rocketlauncher");
    g.level.deathmatch = 3;
    g.entities.slots[1].v.weapon = Weapon::Shotgun;
    assert_eq!(g.weapon_touch(I, P, 6, 1_000), WeaponTouch::Left);
    assert_eq!(g.entities.slots[1].v.weapon, Weapon::Shotgun);
    assert_eq!(g.entities.slots[9].v.modelindex, 3);
    assert_eq!(g.weapon_touch(I, P, 6, 1_000), WeaponTouch::Refused);
    assert_eq!(deathmatch_weapon(Weapon::Nailgun, Weapon::Lightning), Weapon::Lightning);
    assert_eq!(deathmatch_weapon(Weapon::RocketLauncher, Weapon::Nailgun), Weapon::RocketLauncher);
    assert_eq!(weapon_code(Weapon::Lightning), 8);
}

#[test]
fn artifacts_last_half_a_minute() {
    let mut g = game("item_artifact_super_damage");
    g.entities.slots[9].v.items = Items::QUAD;
    assert!(g.powerup_touch(I, P, 1_000));
    let p = &g.entities.slots[1];
    assert_eq!((p.combat.super_damage_finished, p.combat.super_time), (31_000, 1_000));
    assert!(p.v.items.has(Items::QUAD));
    assert_eq!(g.entities.slots[9].v.nextthink, 61_000);
    let mut g = game("item_artifact_invulnerability");
    assert!(g.powerup_touch(I, P, 1_000));
    assert_eq!(g.entities.slots[1].combat.invincible_finished, 31_000);
    assert_eq!(g.entities.slots[9].v.nextthink, 301_000);
    g.entities.slots[1].v.health = 0;
    assert!(!g.powerup_touch(I, P, 1_000));
}

#[test]
fn a_backpack_passes_on_what_was_dropped() {
    let mut dead = EntVars::cleared();
    assert!(!leaves_backpack(&dead));
    dead.ammo_rockets = 7;
    dead.ammo_shells = 95;
    dead.weapon = Weapon::GrenadeLauncher;
    assert!(leaves_backpack(&dead));
    let mut g = game("");
    drop_backpack(&mut g.entities.slots[9], &dead, 1_000);
    let b = &g.entities.slots[9];
    assert_eq!(b.netname.as_deref(), Some("Grenade Launcher"));
    assert!(b.touch == Touch::Backpack && b.think == Think::SubRemove && b.v.nextthink == 121_000);
    g.entities.slots[1].v.ammo_shells = 10;
    g.entities.slots[1].v.weapon = Weapon::Shotgun;
    assert!(g.backpack_touch(I, P, 8));
    let v = &g.entities.slots[1].v;
    assert_eq!((v.ammo_rockets, v.ammo_shells, v.weapon), (7, 100, Weapon::GrenadeLauncher));
    assert!(v.items.has(Items::GRENADE_LAUNCHER));
    assert!(!g.entities.slots[9].in_use);
}

fn place(class: &str, flags: i32, deathmatch: i32) -> (Entity, Spawned) {
    let mut e = Entity::cleared();
    e.v.spawnflags = flags;
    let r = execute_spawn_action(&mut e, class, &resolve_spawn_class(class), deathmatch, 1_000);
    (e, r)
}

#[test]
fn items_are_placed_by_class() {
    let (e, r) = place("item_health", HealthFlags::MEGA, 1);
    assert!(matches!(r, Spawned::Stays));
    assert_eq!((e.item.healamount, e.item.healtype), (100, 2));
    assert_eq!(e.model_cstr, Some(Model::MAPS_B_BH100));
    assert!(e.think == Think::PlaceItem && e.v.nextthink == 1_200);
    let (e, _) = place("item_armorInv", 0, 1);
    assert!(e.touch == Touch::ItemArmor && e.v.skin == 2);
    let (e, _) = place("item_spikes", AmmoFlags::BIG, 1);
    assert_eq!((e.item.aflag, e.item.ammo_code, e.netname.as_deref()), (50, 2, Some("nails")));
    assert!(matches!(place("item_spikes", 0, 4).1, Spawned::Goes));
    let (e, _) = place("weapon_lightning", 0, 1);
    assert_eq!(e.netname.as_deref(), Some("Thunderbolt"));
    assert!(matches!(place("weapon_lightning", 0, 4).1, Spawned::Goes));
    let (e, _) = place("item_artifact_super_damage", 0, 1);
    assert_eq!((e.v.items, e.noise), (Items::QUAD, Some(Sound::ITEMS_DAMAGE)));
    assert!(matches!(place("func_door", 0, 1).1, Spawned::ByClass(SpawnFn::FuncDoor)));
    assert!(matches!(place("info_player_start", 0, 1).1, Spawned::Stays));
    assert!(matches!(place("monster_army", 0, 1).1, Spawned::Goes));
    assert!(matches!(place("misc_explobox", 0, 1).1, Spawned::Explobox(x) if x.height == 64));
    assert!(matches!(place("light_torch_small_walltorch", 0, 1).1, Spawned::Flame(_)));
}

#[test]
fn items_settle_on_the_floor() {
    let mut g = game("item_health");
    g.start_item(I, 500);
    assert_eq!(g.entities.slots[9].v.nextthink, 700);
    g.place_item(I, true);
    let v = &g.entities.slots[9].v;
    assert_eq!((v.flags, v.solid, v.movetype), (Flags::ITEM, Solid::Trigger, MoveType::Toss));
    g.place_item(I, false);
    assert!(!g.entities.slots[9].in_use);
}

#[test]
fn items_have_their_boxes() {
    assert_eq!(item_box(Touch::ItemHealth), ([0, 0, 0], [32_000, 32_000, 56_000]));
    assert_eq!(item_box(Touch::ItemAmmo), item_box(Touch::ItemHealth));
    assert_eq!(item_box(Touch::ItemWeapon), ([-16_000, -16_000, 0], [16_000, 16_000, 56_000]));
    assert_eq!(item_box(Touch::ItemPowerup), ([-16_000, -16_000, -24_000], [16_000, 16_000, 32_000]));
}

#[test]
fn backpacks_are_tossed_by_chance() {
    let mut g = GameState::new();
    let mut same = GameState::new();
    let [x, y, up] = g.toss_backpack();
    let share = |s: u32| -100_000 + (200_000 * s as i64 / (1 << 24)) as i32;
    assert_eq!(x, share(same.random()));
    assert_eq!(y, share(same.random()));
    assert_eq!(up, 300_000);
    assert_eq!(g.rng, same.rng);
}
