//! Damage, armor, death and blasts.
use rtx::combat::{
    can_damage, corner_of, netname_of, one_team, same_player_netname, Blast, Death, GrenadeTarget, HitEnd, HitFacts,
    Obituary,
};
use rtx::defs::{Bits, Flags, Items, MoveType, TakeDamage};
use rtx::entity::{EntId, Touch};
use rtx::game::GameState;

const WORLD: EntId = EntId(0);
const SHOOTER: EntId = EntId(1);
const TARGET: EntId = EntId(2);
const DOOR: EntId = EntId(3);

fn arena() -> GameState {
    let mut g = GameState::new();
    for (i, name) in [(1, "ranger"), (2, "knight")] {
        let p = &mut g.entities.slots[i];
        p.in_use = true;
        p.classname = Some("player".to_owned());
        p.netname = Some(name.to_owned());
        p.v.health = 100;
        p.v.takedamage = TakeDamage::Aim;
        p.v.movetype = MoveType::Walk;
        p.v.flags = Flags::CLIENT;
    }
    let d = &mut g.entities.slots[3];
    d.in_use = true;
    d.classname = Some("door".to_owned());
    g
}

fn points(n: i64) -> HitFacts {
    HitFacts { allowed: true, grenade: GrenadeTarget::Other, damage: 4_000 * n, same_team: false, now: 10_000 }
}

#[test]
fn armor_takes_its_share() {
    let mut g = arena();
    let v = &mut g.entities.slots[2].v;
    v.armortype = 800;
    v.armorvalue = 200;
    v.items = Items::ARMOR3;
    let hit = g.t_damage(TARGET, SHOOTER, SHOOTER, &points(60));
    let v = &g.entities.slots[2].v;
    assert_eq!(hit.end, HitEnd::Hurt(12));
    assert_eq!((v.health, v.armorvalue, v.armortype), (88, 152, 800));
    assert_eq!((v.dmg_take, v.dmg_save), (12, 48));
    assert!(hit.shove && !hit.boost);
    assert_eq!(g.damage_attacker, SHOOTER);
}

#[test]
fn thin_armor_breaks() {
    let mut g = arena();
    let v = &mut g.entities.slots[2].v;
    v.armortype = 300;
    v.armorvalue = 10;
    v.items = Items::ARMOR1 | Items::SHOTGUN;
    assert_eq!(g.t_damage(TARGET, SHOOTER, SHOOTER, &points(60)).end, HitEnd::Hurt(50));
    let v = &g.entities.slots[2].v;
    assert_eq!((v.armorvalue, v.armortype, v.items), (0, 0, Items::SHOTGUN));
}

/// A part of a point counts as a whole one.
#[test]
fn damage_is_rounded_up() {
    let mut g = arena();
    let f = HitFacts { damage: 4_001, ..points(0) };
    assert_eq!(g.t_damage(TARGET, WORLD, WORLD, &f).end, HitEnd::Hurt(2));
    assert_eq!(g.entities.slots[2].v.health, 98);
    let f = HitFacts { damage: -4_001, ..points(0) };
    assert_eq!(g.t_damage(TARGET, WORLD, WORLD, &f).end, HitEnd::Hurt(-1));
    assert_eq!(g.entities.slots[2].v.health, 99);
}

#[test]
fn quad_multiplies_all_but_doors() {
    let mut g = arena();
    g.entities.slots[1].combat.super_damage_finished = 20_000;
    assert_eq!(g.damage_factor(SHOOTER, SHOOTER, 10_000), 4);
    assert_eq!(g.damage_factor(DOOR, SHOOTER, 10_000), 1);
    assert_eq!(g.damage_factor(SHOOTER, SHOOTER, 20_000), 1);
    assert_eq!(g.t_damage(TARGET, SHOOTER, SHOOTER, &points(10)).end, HitEnd::Hurt(40));
    g.level.deathmatch = 4;
    assert_eq!(g.damage_factor(SHOOTER, SHOOTER, 10_000), 8);
}

#[test]
fn protection_keeps_health() {
    let mut g = arena();
    g.entities.slots[2].combat.invincible_finished = 10_000;
    assert_eq!(g.t_damage(TARGET, SHOOTER, SHOOTER, &points(500)).end, HitEnd::Shielded { sound: true });
    assert_eq!(g.t_damage(TARGET, SHOOTER, SHOOTER, &points(500)).end, HitEnd::Shielded { sound: false });
    assert_eq!(g.entities.slots[2].v.health, 100);
    g.entities.slots[2].v.flags |= Flags::GODMODE;
    assert_eq!(g.t_damage(TARGET, SHOOTER, SHOOTER, &points(500)).end, HitEnd::God);
    g.entities.slots[2].v.takedamage = TakeDamage::No;
    assert_eq!(g.t_damage(TARGET, SHOOTER, SHOOTER, &points(500)).end, HitEnd::Untouched);
    let mut g = arena();
    assert_eq!(g.t_damage(TARGET, SHOOTER, SHOOTER, &HitFacts { allowed: false, ..points(9) }).end, HitEnd::Untouched);
    let live = HitFacts { grenade: GrenadeTarget::Live, ..points(9) };
    assert_eq!(g.t_damage(TARGET, SHOOTER, SHOOTER, &live).end, HitEnd::Explode);
    let inert = HitFacts { grenade: GrenadeTarget::Inert, ..points(9) };
    assert_eq!(g.t_damage(TARGET, SHOOTER, SHOOTER, &inert).end, HitEnd::Untouched);
}

#[test]
fn teamplay_spares_friends() {
    let mut g = arena();
    g.level.teamplay = 1;
    let friend = HitFacts { same_team: true, ..points(30) };
    assert_eq!(g.t_damage(TARGET, SHOOTER, SHOOTER, &friend).end, HitEnd::Spared);
    assert_eq!(g.entities.slots[2].v.health, 100);
    assert_eq!(g.t_damage(TARGET, SHOOTER, SHOOTER, &points(30)).end, HitEnd::Hurt(30));
}

#[test]
fn kills_are_scored() {
    let mut g = arena();
    let end = g.t_damage(TARGET, SHOOTER, SHOOTER, &points(150)).end;
    assert_eq!(end, HitEnd::Killed(Death::Being(Obituary::Frag(SHOOTER))));
    assert_eq!(g.entities.slots[1].v.frags, 1);
    assert!(g.entities.slots[2].v.health <= 0);
    // The body is laid out once everyone has heard.
    assert_eq!(g.entities.slots[2].v.takedamage, TakeDamage::Aim);
    g.entities.slots[2].v.effects = 8;
    g.lay_out(TARGET);
    let body = &g.entities.slots[2];
    assert_eq!((body.v.takedamage, body.v.effects, body.v.touch), (TakeDamage::No, 0, 0));
    assert!(body.v.health <= 0 && body.touch == Touch::Nil);
    assert_eq!(g.entities.slots[3].v.health, 0);

    let mut g = arena();
    let end = g.t_damage(TARGET, TARGET, TARGET, &points(150)).end;
    assert_eq!(end, HitEnd::Killed(Death::Being(Obituary::Suicide)));
    assert_eq!(g.entities.slots[2].v.frags, -1);

    let mut g = arena();
    let end = g.t_damage(TARGET, WORLD, WORLD, &points(150)).end;
    assert_eq!(end, HitEnd::Killed(Death::Being(Obituary::World)));
    assert_eq!(g.entities.slots[2].v.frags, -1);
}

#[test]
fn blasts_weaken_with_distance() {
    let mut g = arena();
    let b = Blast { damage: 120_000, distance: 100_000, reaches: true };
    // 120 less half of 100 units.
    assert_eq!(g.t_radius_damage(TARGET, SHOOTER, WORLD, &b, "rocket"), Some(70 * 4_000));
    assert_eq!(g.entities.slots[2].deathtype.as_deref(), Some("rocket"));
    assert_eq!(g.t_radius_damage(SHOOTER, SHOOTER, WORLD, &b, "rocket"), Some(35 * 4_000));
    assert_eq!(g.t_radius_damage(TARGET, SHOOTER, TARGET, &b, "rocket"), None);
    assert_eq!(g.t_radius_damage(DOOR, SHOOTER, WORLD, &b, "rocket"), None);
    assert_eq!(g.t_beam_damage(TARGET, SHOOTER, &Blast { reaches: false, ..b }), None);
    assert_eq!(g.t_beam_damage(TARGET, SHOOTER, &Blast { distance: 240_000, ..b }), None);
    assert_eq!(g.t_beam_damage(TARGET, SHOOTER, &b), Some(70 * 4_000));
}

#[test]
fn cover_stops_a_blast() {
    let open = vec![true, false, false, false, false];
    let shut = vec![false; 5];
    assert!(can_damage(MoveType::Walk, false, &open));
    assert!(!can_damage(MoveType::Walk, true, &shut));
    assert!(can_damage(MoveType::Push, true, &shut));
    assert!(!can_damage(MoveType::Push, false, &open));
    assert_eq!(corner_of(0), (0, 0));
    assert_eq!(corner_of(1), (15, 15));
}

#[test]
fn names_tell_players_apart() {
    let g = arena();
    assert_eq!(netname_of(&g.entities.slots[1]), "ranger");
    assert!(!same_player_netname(&g.entities.slots[1], &g.entities.slots[2]));
    assert!(same_player_netname(&g.entities.slots[1], &g.entities.slots[1]));
    assert!(one_team("red", "red"));
    assert!(!one_team("red", "blue"));
    assert!(!one_team("", ""));
    assert!(!Items::ARMOR1.has(Items::ARMOR2));
}

/// Being shot makes the shooter known, but only to bots, and only another player.
#[test]
fn damage_is_felt() {
    let mut g = arena();
    g.t_damage(TARGET, SHOOTER, SHOOTER, &points(10));
    assert_eq!(g.entities.slots[2].bot.known_enemy, 0);
    g.entities.slots[2].bot.is_bot = true;
    g.t_damage(TARGET, SHOOTER, SHOOTER, &points(10));
    let b = &g.entities.slots[2].bot;
    assert_eq!((b.known_enemy, b.known_until), (1, 15_000));
    g.felt(TARGET, TARGET, 20_000);
    g.felt(TARGET, DOOR, 20_000);
    assert_eq!(g.entities.slots[2].bot.known_until, 15_000);
    g.felt(TARGET, SHOOTER, 20_000);
    assert_eq!(g.entities.slots[2].bot.known_until, 25_000);
}
