//! Which pickup a bot should fetch: how much it wants each, and how soon it could have it.
//!
//! Strength and firepower are thousandths, desires ten-thousandths, times milliseconds; health,
//! armor and ammo are whole points unless said otherwise.
use crate::abi::EntVars;
use crate::arsenal::AmmoKind;
use crate::bot::state::{avoids, BotState};
use crate::defs::{Bits, Items, Solid};
use crate::entity::{EntId, Entities, Entity, Think};
use crate::num::{bound, bounded, since};
use crate::text::same_text;
use vstd::prelude::*;

verus! {

/// A fighter's effective hit points: health scaled up by what the armor absorbs, but no more than
/// health and armor together, and never below zero. An armor that absorbs everything scales health
/// without end; one that absorbs more turns the scale about.
pub open spec fn effective_strength(health: int, armor_value: int, armor_type: int) -> int {
    let both = health + armor_value;
    let scaled = if armor_type < 1000 {
        health * 1000 / (1000 - armor_type)
    } else if armor_type > 1000 {
        (-health) * 1000 / (armor_type - 1000)
    } else if health >= 0 {
        both
    } else {
        -1
    };
    let least = if scaled <= both {
        scaled
    } else {
        both
    };
    if least >= 0 {
        least
    } else {
        0
    }
}

/// A share of a number that is not negative, at least zero; of a negative one, less than zero.
proof fn lemma_share_sign(x: int, d: int)
    requires
        d > 0,
    ensures
        x >= 0 ==> x * 1000 / d >= 0,
        x < 0 ==> x * 1000 / d < 0,
{
    assert(x >= 0 ==> x * 1000 / d >= 0) by (nonlinear_arith)
        requires
            d > 0,
    ;
    assert(x < 0 ==> x * 1000 / d < 0) by (nonlinear_arith)
        requires
            d > 0,
    ;
}

pub fn total_strength(health: i64, armor_value: i64, armor_type: i32) -> (r: i64)
    ensures
        r == bounded(effective_strength(health as int, armor_value as int, armor_type as int)),
{
    let both: i128 = health as i128 + armor_value as i128;
    let scaled: i128 = if armor_type == 1000 {
        if health < 0 {
            return 0;
        }
        both
    } else {
        let (up, by): (i128, i128) = if armor_type < 1000 {
            (health as i128, 1000 - armor_type as i128)
        } else {
            (-(health as i128), armor_type as i128 - 1000)
        };
        proof {
            lemma_share_sign(up as int, by as int);
        }
        if up < 0 {
            return 0;
        }
        up * 1000 / by
    };
    let least: i128 = if scaled <= both {
        scaled
    } else {
        both
    };
    if least >= 0 {
        bound(least)
    } else {
        0
    }
}

/// An item that takes longer than this to have is not worth it.
pub const LOOKAHEAD: i64 = 10000;

/// The weapons a bot can want.
#[derive(Clone, Copy, PartialEq, Eq, Debug, Structural)]
pub enum WeaponKind {
    Ssg,
    Ng,
    Sng,
    Gl,
    Rl,
    Lg,
}

/// What kind of goal an item is.
#[derive(Clone, Copy, PartialEq, Eq, Debug, Structural)]
pub enum Category {
    /// Quad, pentagram or ring.
    Powerup,
    Health,
    /// Points and share of an armor, what the armor worn may absorb for it to be wanted, and
    /// whether it counts double.
    Armor { value: i32, at: i32, gate: i64, double: bool },
    Weapon(WeaponKind),
    Ammo(AmmoKind),
}

/// What a classname stands for; the suit and anything unlisted is no goal.
pub open spec fn category_of(name: Seq<char>) -> Option<Category> {
    if name == "item_artifact_super_damage"@ || name == "item_artifact_invulnerability"@ || name
        == "item_artifact_invisibility"@ {
        Some(Category::Powerup)
    } else if name == "item_health"@ {
        Some(Category::Health)
    } else if name == "item_armor1"@ {
        Some(Category::Armor { value: 100, at: 300, gate: 30000, double: true })
    } else if name == "item_armor2"@ {
        Some(Category::Armor { value: 150, at: 600, gate: 90000, double: false })
    } else if name == "item_armorInv"@ {
        Some(Category::Armor { value: 200, at: 800, gate: 160000, double: false })
    } else if name == "weapon_supershotgun"@ {
        Some(Category::Weapon(WeaponKind::Ssg))
    } else if name == "weapon_nailgun"@ {
        Some(Category::Weapon(WeaponKind::Ng))
    } else if name == "weapon_supernailgun"@ {
        Some(Category::Weapon(WeaponKind::Sng))
    } else if name == "weapon_grenadelauncher"@ {
        Some(Category::Weapon(WeaponKind::Gl))
    } else if name == "weapon_rocketlauncher"@ {
        Some(Category::Weapon(WeaponKind::Rl))
    } else if name == "weapon_lightning"@ {
        Some(Category::Weapon(WeaponKind::Lg))
    } else if name == "item_shells"@ {
        Some(Category::Ammo(AmmoKind::Shells))
    } else if name == "item_spikes"@ {
        Some(Category::Ammo(AmmoKind::Nails))
    } else if name == "item_rockets"@ {
        Some(Category::Ammo(AmmoKind::Rockets))
    } else if name == "item_cells"@ {
        Some(Category::Ammo(AmmoKind::Cells))
    } else {
        None
    }
}

pub fn category(classname: &str) -> (r: Option<Category>)
    ensures
        r == category_of(classname@),
{
    if same_text(classname, "item_artifact_super_damage") || same_text(
        classname,
        "item_artifact_invulnerability",
    ) || same_text(classname, "item_artifact_invisibility") {
        Some(Category::Powerup)
    } else if same_text(classname, "item_health") {
        Some(Category::Health)
    } else if same_text(classname, "item_armor1") {
        Some(Category::Armor { value: 100, at: 300, gate: 30000, double: true })
    } else if same_text(classname, "item_armor2") {
        Some(Category::Armor { value: 150, at: 600, gate: 90000, double: false })
    } else if same_text(classname, "item_armorInv") {
        Some(Category::Armor { value: 200, at: 800, gate: 160000, double: false })
    } else if same_text(classname, "weapon_supershotgun") {
        Some(Category::Weapon(WeaponKind::Ssg))
    } else if same_text(classname, "weapon_nailgun") {
        Some(Category::Weapon(WeaponKind::Ng))
    } else if same_text(classname, "weapon_supernailgun") {
        Some(Category::Weapon(WeaponKind::Sng))
    } else if same_text(classname, "weapon_grenadelauncher") {
        Some(Category::Weapon(WeaponKind::Gl))
    } else if same_text(classname, "weapon_rocketlauncher") {
        Some(Category::Weapon(WeaponKind::Rl))
    } else if same_text(classname, "weapon_lightning") {
        Some(Category::Weapon(WeaponKind::Lg))
    } else if same_text(classname, "item_shells") {
        Some(Category::Ammo(AmmoKind::Shells))
    } else if same_text(classname, "item_spikes") {
        Some(Category::Ammo(AmmoKind::Nails))
    } else if same_text(classname, "item_rockets") {
        Some(Category::Ammo(AmmoKind::Rockets))
    } else if same_text(classname, "item_cells") {
        Some(Category::Ammo(AmmoKind::Cells))
    } else {
        None
    }
}

/// Whether a classname is any kind of goal.
pub fn is_goal_classname(classname: &str) -> (r: bool)
    ensures
        r == category_of(classname@) is Some,
{
    category(classname).is_some()
}

/// The item bit that a weapon sets.
pub open spec fn bit_of(w: WeaponKind) -> i32 {
    match w {
        WeaponKind::Ssg => Items::SUPER_SHOTGUN,
        WeaponKind::Ng => Items::NAILGUN,
        WeaponKind::Sng => Items::SUPER_NAILGUN,
        WeaponKind::Gl => Items::GRENADE_LAUNCHER,
        WeaponKind::Rl => Items::ROCKET_LAUNCHER,
        WeaponKind::Lg => Items::LIGHTNING,
    }
}

pub fn weapon_bit(w: WeaponKind) -> (r: i32)
    ensures
        r == bit_of(w),
{
    match w {
        WeaponKind::Ssg => Items::SUPER_SHOTGUN,
        WeaponKind::Ng => Items::NAILGUN,
        WeaponKind::Sng => Items::SUPER_NAILGUN,
        WeaponKind::Gl => Items::GRENADE_LAUNCHER,
        WeaponKind::Rl => Items::ROCKET_LAUNCHER,
        WeaponKind::Lg => Items::LIGHTNING,
    }
}

/// The ammo that comes with a weapon.
pub open spec fn ammo_of(w: WeaponKind) -> AmmoKind {
    match w {
        WeaponKind::Ssg => AmmoKind::Shells,
        WeaponKind::Ng => AmmoKind::Nails,
        WeaponKind::Sng => AmmoKind::Nails,
        WeaponKind::Gl => AmmoKind::Rockets,
        WeaponKind::Rl => AmmoKind::Rockets,
        WeaponKind::Lg => AmmoKind::Cells,
    }
}

pub fn weapon_ammo(w: WeaponKind) -> (r: AmmoKind)
    ensures
        r == ammo_of(w),
{
    match w {
        WeaponKind::Ssg => AmmoKind::Shells,
        WeaponKind::Ng | WeaponKind::Sng => AmmoKind::Nails,
        WeaponKind::Gl | WeaponKind::Rl => AmmoKind::Rockets,
        WeaponKind::Lg => AmmoKind::Cells,
    }
}

/// A bot's fighting state, taken once per choice.
#[derive(Clone, Copy, PartialEq, Eq, Debug, Structural)]
pub struct Stats {
    pub health: i32,
    pub armor_value: i32,
    pub armor_type: i32,
    pub items: i32,
    pub shells: i32,
    pub nails: i32,
    pub rockets: i32,
    pub cells: i32,
    /// Effective hit points.
    pub strength: i64,
    /// What the armor can absorb.
    pub armor: i64,
    /// How well the bot can already deal damage, up to a hundred.
    pub firepower: i64,
    /// Whether weapons stay where they are when taken.
    pub weapons_stay: bool,
}

pub open spec fn lesser(a: int, b: int) -> int {
    if a <= b {
        a
    } else {
        b
    }
}

pub open spec fn greater(a: int, b: int) -> int {
    if a >= b {
        a
    } else {
        b
    }
}

fn least(a: i64, b: i64) -> (r: i64)
    ensures
        r == lesser(a as int, b as int),
{
    if a <= b {
        a
    } else {
        b
    }
}

fn most(a: i64, b: i64) -> (r: i64)
    ensures
        r == greater(a as int, b as int),
{
    if a >= b {
        a
    } else {
        b
    }
}

/// What one weapon contributes: so much per unit of ammo, up to a cap.
pub open spec fn fed(items: i32, item: i32, ammo: i32, each: int, cap: int) -> int {
    if items & item != 0 {
        lesser(ammo * each, cap)
    } else {
        0
    }
}

/// The best weapon with its ammo, and at least what the shotgun gives.
pub open spec fn power(items: i32, shells: i32, nails: i32, rockets: i32, cells: i32) -> int {
    let p = greater(0, fed(items, Items::ROCKET_LAUNCHER, rockets, 8000, 100000));
    let p = greater(p, fed(items, Items::LIGHTNING, cells, 5000, 100000));
    let p = greater(p, fed(items, Items::GRENADE_LAUNCHER, rockets, 6000, 50000));
    let p = greater(p, fed(items, Items::SUPER_NAILGUN, nails, 500, 50000));
    let p = greater(p, fed(items, Items::NAILGUN, nails, 250, 35000));
    let p = greater(p, fed(items, Items::SUPER_SHOTGUN, shells, 1000, 20000));
    greater(p, lesser(shells * 1000, 10000))
}

pub fn firepower(items: i32, shells: i32, nails: i32, rockets: i32, cells: i32) -> (r: i64)
    ensures
        r == power(items, shells, nails, rockets, cells),
        0 <= r <= 100000,
{
    let mut p: i64 = 0;
    if items.has(Items::ROCKET_LAUNCHER) {
        p = most(p, least(rockets as i64 * 8000, 100000));
    }
    if items.has(Items::LIGHTNING) {
        p = most(p, least(cells as i64 * 5000, 100000));
    }
    if items.has(Items::GRENADE_LAUNCHER) {
        p = most(p, least(rockets as i64 * 6000, 50000));
    }
    if items.has(Items::SUPER_NAILGUN) {
        p = most(p, least(nails as i64 * 500, 50000));
    }
    if items.has(Items::NAILGUN) {
        p = most(p, least(nails as i64 * 250, 35000));
    }
    if items.has(Items::SUPER_SHOTGUN) {
        p = most(p, least(shells as i64 * 1000, 20000));
    }
    most(p, least(shells as i64 * 1000, 10000))
}

/// Desire for a weapon that is not owned: the gap it would close, or its ammo.
pub open spec fn want_weapon(s: Stats, w: WeaponKind) -> int {
    let fp = s.firepower * 10;
    let rockets = greater(200000 - s.rockets * 10000, 50000);
    let cells = greater((50 - s.cells) * 2000, 25000);
    match w {
        WeaponKind::Rl => greater(1000000 - fp, rockets),
        WeaponKind::Lg => greater(greater(1000000 - fp, rockets), cells),
        WeaponKind::Gl => greater(greater(500000 - fp, 0), rockets),
        WeaponKind::Ng | WeaponKind::Sng => greater(
            greater(200000 - fp, 0),
            if fp < 200000 {
                25000 - s.nails * 125
            } else {
                0
            },
        ),
        WeaponKind::Ssg => greater(
            greater(200000 - fp, 0),
            if fp < 200000 && s.shells < 50 {
                25000 - s.shells * 500
            } else {
                0
            },
        ),
    }
}

/// Desire for ammo: more the emptier the bot is, none near the cap, and none of the lesser kinds for
/// a bot that is well armed.
pub open spec fn want_ammo(s: Stats, a: AmmoKind) -> int {
    match a {
        AmmoKind::Rockets => if s.rockets < 100 {
            greater(200000 - s.rockets * 10000, 50000)
        } else {
            0
        },
        AmmoKind::Cells => if s.cells < 100 {
            greater((50 - s.cells) * 2000, 25000)
        } else {
            0
        },
        AmmoKind::Nails => if s.firepower < 20000 && s.nails < 200 {
            greater(25000 - s.nails * 125, 0)
        } else {
            0
        },
        AmmoKind::Shells => if s.firepower < 20000 && s.shells < 100 {
            greater(25000 - s.shells * 500, 0)
        } else {
            0
        },
    }
}

/// The stats a bot's fields stand for.
pub open spec fn valid_stats(s: Stats) -> bool {
    &&& 0 <= s.firepower <= 100000
    &&& 0 <= s.strength <= 0x1000_0000_0000
}

pub fn weapon_desire(s: &Stats, w: WeaponKind) -> (r: i64)
    requires
        valid_stats(*s),
    ensures
        r == want_weapon(*s, w),
        r <= 0x1_0000_0000_0000,
{
    let fp: i64 = s.firepower * 10;
    let rockets: i64 = most(200000 - s.rockets as i64 * 10000, 50000);
    let cells: i64 = most((50 - s.cells as i64) * 2000, 25000);
    match w {
        WeaponKind::Rl => most(1000000 - fp, rockets),
        WeaponKind::Lg => most(most(1000000 - fp, rockets), cells),
        WeaponKind::Gl => most(most(500000 - fp, 0), rockets),
        WeaponKind::Ng | WeaponKind::Sng => {
            let nails: i64 = if fp < 200000 {
                25000 - s.nails as i64 * 125
            } else {
                0
            };
            most(most(200000 - fp, 0), nails)
        },
        WeaponKind::Ssg => {
            let shells: i64 = if fp < 200000 && s.shells < 50 {
                25000 - s.shells as i64 * 500
            } else {
                0
            };
            most(most(200000 - fp, 0), shells)
        },
    }
}

pub fn ammo_desire(s: &Stats, a: AmmoKind) -> (r: i64)
    ensures
        r == want_ammo(*s, a),
        r <= 0x1_0000_0000_0000,
{
    match a {
        AmmoKind::Rockets => if s.rockets < 100 {
            most(200000 - s.rockets as i64 * 10000, 50000)
        } else {
            0
        },
        AmmoKind::Cells => if s.cells < 100 {
            most((50 - s.cells as i64) * 2000, 25000)
        } else {
            0
        },
        AmmoKind::Nails => if s.firepower < 20000 && s.nails < 200 {
            most(25000 - s.nails as i64 * 125, 0)
        } else {
            0
        },
        AmmoKind::Shells => if s.firepower < 20000 && s.shells < 100 {
            most(25000 - s.shells as i64 * 500, 0)
        } else {
            0
        },
    }
}

/// Whether weapons stay in a deathmatch mode.
pub open spec fn staying(deathmatch: i32) -> bool {
    deathmatch == 2 || deathmatch == 3 || deathmatch == 5
}

pub open spec fn strength_of(health: int, armor_value: int, armor_type: int) -> int {
    effective_strength(health * 1000, armor_value * 1000, armor_type)
}

fn strength(health: i64, armor_value: i32, armor_type: i32) -> (r: i64)
    requires
        -0x1_0000_0000 <= health <= 0x8000_0000,
    ensures
        r == strength_of(health as int, armor_value as int, armor_type as int),
        0 <= r <= 0x1000_0000_0000,
{
    total_strength(health * 1000, armor_value as i64 * 1000, armor_type)
}

pub open spec fn stats_of(v: EntVars, deathmatch: i32) -> Stats {
    Stats {
        health: v.health,
        armor_value: v.armorvalue,
        armor_type: v.armortype,
        items: v.items,
        shells: v.ammo_shells,
        nails: v.ammo_nails,
        rockets: v.ammo_rockets,
        cells: v.ammo_cells,
        strength: strength_of(v.health as int, v.armorvalue as int, v.armortype as int) as i64,
        armor: (v.armortype * v.armorvalue) as i64,
        firepower: power(v.items, v.ammo_shells, v.ammo_nails, v.ammo_rockets, v.ammo_cells) as i64,
        weapons_stay: staying(deathmatch),
    }
}

pub fn bot_stats(v: &EntVars, deathmatch: i32) -> (s: Stats)
    ensures
        s == stats_of(*v, deathmatch),
        valid_stats(s),
{
    assert(-0x4000_0000_0000_0000 <= v.armortype * v.armorvalue <= 0x4000_0000_0000_0000) by (nonlinear_arith)
        requires
            -0x8000_0000 <= v.armortype <= 0x7fff_ffff,
            -0x8000_0000 <= v.armorvalue <= 0x7fff_ffff,
    ;
    Stats {
        health: v.health,
        armor_value: v.armorvalue,
        armor_type: v.armortype,
        items: v.items,
        shells: v.ammo_shells,
        nails: v.ammo_nails,
        rockets: v.ammo_rockets,
        cells: v.ammo_cells,
        strength: strength(v.health as i64, v.armorvalue, v.armortype),
        armor: v.armortype as i64 * v.armorvalue as i64,
        firepower: firepower(v.items, v.ammo_shells, v.ammo_nails, v.ammo_rockets, v.ammo_cells),
        weapons_stay: deathmatch == 2 || deathmatch == 3 || deathmatch == 5,
    }
}

/// What a rise in health to `new` points is worth.
pub open spec fn health_gain(s: Stats, new: int) -> int {
    greater(strength_of(new, s.armor_value as int, s.armor_type as int) - s.strength, 0)
}

/// How much a bot wants an item; zero means not at all.
pub open spec fn desire(s: Stats, healamount: i32, healtype: i32, cat: Category) -> int {
    match cat {
        Category::Powerup => 2000000 + s.strength * 10,
        Category::Health => if healtype == 2 {
            if s.health < 250 {
                health_gain(s, lesser(s.health + healamount, 250)) * 10
            } else {
                0
            }
        } else if s.health < 100 {
            health_gain(s, lesser(s.health + healamount, 100)) * 20
        } else {
            0
        },
        Category::Armor { value, at, gate, double } => if s.armor < gate {
            let gain = greater(strength_of(s.health as int, value as int, at as int) - s.strength, 0);
            if double {
                gain * 20
            } else {
                gain * 10
            }
        } else {
            0
        },
        Category::Weapon(w) => if s.items & bit_of(w) == 0 {
            want_weapon(s, w)
        } else if s.weapons_stay {
            0
        } else {
            want_ammo(s, ammo_of(w))
        },
        Category::Ammo(a) => want_ammo(s, a),
    }
}

/// The health after an item of `amount`, up to `cap`.
fn topped_up(health: i32, amount: i32, cap: i64) -> (r: i64)
    requires
        0 <= cap <= 250,
    ensures
        r == lesser(health + amount, cap as int),
{
    least(health as i64 + amount as i64, cap)
}

pub fn item_desire(s: &Stats, healamount: i32, healtype: i32, cat: Category) -> (r: i64)
    requires
        valid_stats(*s),
    ensures
        r == desire(*s, healamount, healtype, cat),
        r <= 0x1_0000_0000_0000,
{
    match cat {
        Category::Powerup => 2000000 + s.strength * 10,
        Category::Health => {
            if healtype == 2 {
                if s.health >= 250 {
                    return 0;
                }
                let new: i64 = topped_up(s.health, healamount, 250);
                most(strength(new, s.armor_value, s.armor_type) - s.strength, 0) * 10
            } else {
                if s.health >= 100 {
                    return 0;
                }
                let new: i64 = topped_up(s.health, healamount, 100);
                most(strength(new, s.armor_value, s.armor_type) - s.strength, 0) * 20
            }
        },
        Category::Armor { value, at, gate, double } => {
            if s.armor >= gate {
                return 0;
            }
            let gain: i64 = most(strength(s.health as i64, value, at) - s.strength, 0);
            if double {
                gain * 20
            } else {
                gain * 10
            }
        },
        Category::Weapon(w) => {
            if !s.items.has(weapon_bit(w)) {
                weapon_desire(s, w)
            } else if s.weapons_stay {
                0
            } else {
                ammo_desire(s, weapon_ammo(w))
            }
        },
        Category::Ammo(a) => ammo_desire(s, a),
    }
}

/// How long until an item can be had: the way to it, or the wait until it is back; never where it is
/// gone for good.
pub open spec fn collect_time(e: Entity, travel: u32, now: i64) -> Option<int> {
    if e.v.solid == Solid::Trigger {
        Some(travel as int)
    } else if e.think == Think::SubRegen && e.v.nextthink > now {
        Some(greater(travel as int, e.v.nextthink - now))
    } else {
        None
    }
}

pub fn item_collect_time(e: &Entity, travel: u32, now: i64) -> (r: Option<i128>)
    ensures
        match r {
            Some(t) => collect_time(*e, travel, now) == Some(t as int),
            None => collect_time(*e, travel, now) is None,
        },
{
    if e.v.solid == Solid::Trigger {
        return Some(travel as i128);
    }
    if e.think == Think::SubRegen && e.v.nextthink > now {
        let wait: i128 = since(e.v.nextthink, now);
        if travel as i128 >= wait {
            return Some(travel as i128);
        }
        return Some(wait);
    }
    None
}

/// Whether an item can be had soon.
pub open spec fn soon(e: Entity, now: i64) -> bool {
    e.v.solid == Solid::Trigger || (e.think == Think::SubRegen && e.v.nextthink - now < LOOKAHEAD)
}

/// What a bot would get out of an entity, if it is an item at all.
pub open spec fn desire_for(s: Stats, e: Entity) -> Option<int> {
    match e.class() {
        Some(name) => match category_of(name) {
            Some(cat) => Some(desire(s, e.item.healamount, e.item.healtype, cat)),
            None => None,
        },
        None => None,
    }
}

fn wish_for(s: &Stats, e: &Entity) -> (r: Option<i64>)
    requires
        valid_stats(*s),
    ensures
        match r {
            Some(d) => desire_for(*s, *e) == Some(d as int) && d <= 0x1_0000_0000_0000,
            None => desire_for(*s, *e) is None,
        },
{
    match e.classname() {
        None => None,
        Some(name) => match category(name) {
            Some(cat) => Some(item_desire(s, e.item.healamount, e.item.healtype, cat)),
            None => None,
        },
    }
}

/// Whether a chosen item is still worth the way: to be had soon, and still wanted.
pub fn item_goal_valid(s: &Stats, e: &Entity, now: i64) -> (r: bool)
    requires
        valid_stats(*s),
    ensures
        r == (soon(*e, now) && (desire_for(*s, *e) matches Some(d) && d > 0)),
{
    let near: bool = e.v.solid == Solid::Trigger || (e.think == Think::SubRegen && since(e.v.nextthink, now)
        < LOOKAHEAD as i128);
    if !near {
        return false;
    }
    match wish_for(s, e) {
        Some(d) => d > 0,
        None => false,
    }
}

/// The map's items, each with the cell it lies in.
pub open spec fn known_goals(goals: Seq<(u32, u32)>, entities: int, cells: int) -> bool {
    forall|i: int| 0 <= i < goals.len() ==> (#[trigger] goals[i]).0 < entities && goals[i].1 < cells
}

/// What a goal offers: how much it is wanted and how soon it can be had. One that is avoided, not
/// wanted, out of reach, or too far off offers nothing.
pub open spec fn offer(
    b: BotState,
    s: Stats,
    entities: Seq<Entity>,
    goal: (u32, u32),
    costs: Seq<Option<u32>>,
    now: i64,
) -> Option<(int, int)> {
    let e = entities[goal.0 as int];
    if avoids(b.avoid_items@, goal.0, now) {
        None
    } else {
        match (desire_for(s, e), costs[goal.1 as int]) {
            (Some(d), Some(travel)) => match collect_time(e, travel, now) {
                Some(t) => if d > 0 && t < LOOKAHEAD {
                    Some((d, t))
                } else {
                    None
                },
                None => None,
            },
            _ => None,
        }
    }
}

/// Whether one offer beats another: desire, weighed by how soon it can be had.
pub open spec fn beats(a: (int, int), b: (int, int)) -> bool {
    a.0 * (LOOKAHEAD - a.1) * (b.1 + 5000) > b.0 * (LOOKAHEAD - b.1) * (a.1 + 5000)
}

/// The first of the best offers among the first `n` goals.
pub open spec fn best_goal(
    b: BotState,
    s: Stats,
    entities: Seq<Entity>,
    goals: Seq<(u32, u32)>,
    costs: Seq<Option<u32>>,
    now: i64,
    n: int,
) -> Option<int>
    decreases n,
{
    if n <= 0 {
        None
    } else {
        let rest = best_goal(b, s, entities, goals, costs, now, n - 1);
        match (offer(b, s, entities, goals[n - 1], costs, now), rest) {
            (None, _) => rest,
            (Some(_), None) => Some(n - 1),
            (Some(new), Some(k)) => if beats(new, offer(b, s, entities, goals[k], costs, now)->0) {
                Some(n - 1)
            } else {
                rest
            },
        }
    }
}

fn is_better(d: i64, t: i64, best_d: i64, best_t: i64) -> (r: bool)
    requires
        0 < d <= 0x1_0000_0000_0000,
        0 < best_d <= 0x1_0000_0000_0000,
        0 <= t < LOOKAHEAD,
        0 <= best_t < LOOKAHEAD,
    ensures
        r == beats((d as int, t as int), (best_d as int, best_t as int)),
{
    proof {
        lemma_score_fits(d as int, t as int, best_t as int);
        lemma_score_fits(best_d as int, best_t as int, t as int);
    }
    let mine: i128 = d as i128 * (LOOKAHEAD as i128 - t as i128) * (best_t as i128 + 5000);
    let theirs: i128 = best_d as i128 * (LOOKAHEAD as i128 - best_t as i128) * (t as i128 + 5000);
    mine > theirs
}

proof fn lemma_score_fits(d: int, t: int, u: int)
    requires
        0 < d <= 0x1_0000_0000_0000,
        0 <= t < LOOKAHEAD,
        0 <= u < LOOKAHEAD,
    ensures
        0 <= d * (LOOKAHEAD - t) <= 0x1_0000_0000_0000 * 10000,
        0 <= d * (LOOKAHEAD - t) * (u + 5000) <= 0x1_0000_0000_0000 * 10000 * 15000,
{
    assert(0 <= d * (LOOKAHEAD - t) <= 0x1_0000_0000_0000 * 10000) by (nonlinear_arith)
        requires
            0 < d <= 0x1_0000_0000_0000,
            0 < LOOKAHEAD - t <= 10000,
    ;
    let x = d * (LOOKAHEAD - t);
    assert(0 <= x * (u + 5000) <= 0x1_0000_0000_0000 * 10000 * 15000) by (nonlinear_arith)
        requires
            0 <= x <= 0x1_0000_0000_0000 * 10000,
            0 <= u + 5000 <= 15000,
    ;
}

/// Choose the best item to fetch, with its cell. `costs` holds the way to every cell, where there is
/// one.
pub fn select_item_goal(
    b: &BotState,
    s: &Stats,
    entities: &Entities,
    goals: &Vec<(u32, u32)>,
    costs: &Vec<Option<u32>>,
    now: i64,
) -> (r: Option<(EntId, u32)>)
    requires
        valid_stats(*s),
        known_goals(goals@, entities@.len() as int, costs@.len() as int),
    ensures
        match best_goal(*b, *s, entities@, goals@, costs@, now, goals@.len() as int) {
            Some(k) => r == Some((EntId(goals@[k].0), goals@[k].1)),
            None => r is None,
        },
{
    let mut best: Option<(usize, i64, i64)> = None;
    let mut i: usize = 0;
    while i < goals.len()
        invariant
            i <= goals@.len(),
            valid_stats(*s),
            known_goals(goals@, entities@.len() as int, costs@.len() as int),
            match best {
                Some(k) => k.0 < i && best_goal(*b, *s, entities@, goals@, costs@, now, i as int) == Some(k.0 as int)
                    && offer(*b, *s, entities@, goals@[k.0 as int], costs@, now) == Some((k.1 as int, k.2 as int))
                    && 0 < k.1 <= 0x1_0000_0000_0000 && 0 <= k.2 < LOOKAHEAD,
                None => best_goal(*b, *s, entities@, goals@, costs@, now, i as int) is None,
            },
        decreases goals@.len() - i,
    {
        let (idx, cell) = goals[i];
        let found = weigh(b, s, &entities.slots[idx as usize], idx, costs[cell as usize], now);
        assert(entities@[idx as int] == entities.slots@[idx as int]);
        if let Some((d, t)) = found {
            let better: bool = match best {
                None => true,
                Some(k) => is_better(d, t, k.1, k.2),
            };
            if better {
                best = Some((i, d, t));
            }
        }
        i = i + 1;
    }
    match best {
        Some(k) => {
            let (idx, cell) = goals[k.0];
            Some((EntId(idx), cell))
        },
        None => None,
    }
}

/// What one goal offers.
fn weigh(b: &BotState, s: &Stats, e: &Entity, idx: u32, cost: Option<u32>, now: i64) -> (r: Option<(i64, i64)>)
    requires
        valid_stats(*s),
    ensures
        ({
            let exact = if avoids(b.avoid_items@, idx, now) {
                None
            } else {
                match (desire_for(*s, *e), cost) {
                    (Some(d), Some(travel)) => match collect_time(*e, travel, now) {
                        Some(t) => if d > 0 && t < LOOKAHEAD {
                            Some((d, t))
                        } else {
                            None
                        },
                        None => None,
                    },
                    _ => None,
                }
            };
            match r {
                Some(x) => exact == Some((x.0 as int, x.1 as int)) && 0 < x.0 <= 0x1_0000_0000_0000 && 0 <= x.1
                    < LOOKAHEAD,
                None => exact is None,
            }
        }),
{
    if b.is_avoided(idx, now) {
        return None;
    }
    let d: i64 = match wish_for(s, e) {
        Some(d) => d,
        None => return None,
    };
    if d <= 0 {
        return None;
    }
    let travel: u32 = match cost {
        Some(c) => c,
        None => return None,
    };
    match item_collect_time(e, travel, now) {
        Some(t) => if t < LOOKAHEAD as i128 {
            Some((d, t as i64))
        } else {
            None
        },
        None => None,
    }
}

/// The chosen goal is an offer, and no other goal beats it.
pub proof fn no_goal_beats_the_chosen(
    b: BotState,
    s: Stats,
    entities: Seq<Entity>,
    goals: Seq<(u32, u32)>,
    costs: Seq<Option<u32>>,
    now: i64,
    n: int,
    i: int,
)
    requires
        0 <= i < n <= goals.len(),
        offer(b, s, entities, goals[i], costs, now) is Some,
    ensures
        best_goal(b, s, entities, goals, costs, now, n) matches Some(k) && 0 <= k < n && offer(
            b,
            s,
            entities,
            goals[k],
            costs,
            now,
        ) is Some && !beats(
            offer(b, s, entities, goals[i], costs, now)->0,
            offer(b, s, entities, goals[k], costs, now)->0,
        ),
    decreases n,
{
    let rest = best_goal(b, s, entities, goals, costs, now, n - 1);
    lemma_best_is_an_offer(b, s, entities, goals, costs, now, n - 1);
    let last = offer(b, s, entities, goals[n - 1], costs, now);
    if i < n - 1 {
        no_goal_beats_the_chosen(b, s, entities, goals, costs, now, n - 1, i);
        if last is Some && beats(last->0, offer(b, s, entities, goals[rest->0], costs, now)->0) {
            lemma_offers_are_positive(b, s, entities, goals[i], costs, now);
            lemma_offers_are_positive(b, s, entities, goals[rest->0], costs, now);
            lemma_offers_are_positive(b, s, entities, goals[n - 1], costs, now);
            lemma_beats_is_transitive(
                offer(b, s, entities, goals[i], costs, now)->0,
                offer(b, s, entities, goals[rest->0], costs, now)->0,
                last->0,
            );
        }
    } else if rest is Some {
        lemma_offers_are_positive(b, s, entities, goals[i], costs, now);
        lemma_offers_are_positive(b, s, entities, goals[rest->0], costs, now);
    }
}

proof fn lemma_best_is_an_offer(
    b: BotState,
    s: Stats,
    entities: Seq<Entity>,
    goals: Seq<(u32, u32)>,
    costs: Seq<Option<u32>>,
    now: i64,
    n: int,
)
    requires
        0 <= n <= goals.len(),
    ensures
        best_goal(b, s, entities, goals, costs, now, n) matches Some(k) ==> 0 <= k < n && offer(
            b,
            s,
            entities,
            goals[k],
            costs,
            now,
        ) is Some,
    decreases n,
{
    if n > 0 {
        lemma_best_is_an_offer(b, s, entities, goals, costs, now, n - 1);
    }
}

proof fn lemma_offers_are_positive(
    b: BotState,
    s: Stats,
    entities: Seq<Entity>,
    goal: (u32, u32),
    costs: Seq<Option<u32>>,
    now: i64,
)
    ensures
        offer(b, s, entities, goal, costs, now) matches Some(o) ==> o.0 > 0 && 0 <= o.1 < LOOKAHEAD,
{
}

/// If `x` does not beat `y`, and `z` does, then `x` does not beat `z`.
proof fn lemma_beats_is_transitive(x: (int, int), y: (int, int), z: (int, int))
    requires
        x.0 > 0 && 0 <= x.1 < LOOKAHEAD,
        y.0 > 0 && 0 <= y.1 < LOOKAHEAD,
        z.0 > 0 && 0 <= z.1 < LOOKAHEAD,
        !beats(x, y),
        beats(z, y),
    ensures
        !beats(x, z),
{
    let a = x.0 * (LOOKAHEAD - x.1);
    let b = y.0 * (LOOKAHEAD - y.1);
    let c = z.0 * (LOOKAHEAD - z.1);
    let p = x.1 + 5000;
    let q = y.1 + 5000;
    let r = z.1 + 5000;
    assert(a * q <= b * p);
    assert(c * q > b * r);
    assert(a * r <= c * p) by (nonlinear_arith)
        requires
            a * q <= b * p,
            c * q > b * r,
            p > 0,
            q > 0,
            r > 0,
    {
        assert(a * q * r <= b * p * r);
        assert(b * r * p <= c * q * p);
        assert(a * r * q <= c * p * q);
    }
}

// --- what the desires promise ---
/// Effective hit points, for armor that absorbs part of a hit: the largest number that neither
/// exceeds health and armor together nor, after the armor took its share of it, the health.
pub proof fn strength_is_what_can_be_taken(health: int, armor_value: int, armor_type: int, more: int)
    requires
        health >= 0,
        armor_value >= 0,
        0 <= armor_type < 1000,
        more > effective_strength(health, armor_value, armor_type),
    ensures
        ({
            let r = effective_strength(health, armor_value, armor_type);
            &&& health <= r <= health + armor_value
            &&& r * (1000 - armor_type) <= health * 1000
            &&& more > health + armor_value || more * (1000 - armor_type) > health * 1000
        }),
{
    let d = 1000 - armor_type;
    let q = health * 1000 / d;
    assert(q * d <= health * 1000 < (q + 1) * d) by (nonlinear_arith)
        requires
            q == (health * 1000) / d,
            d > 0,
    ;
    assert(q >= health) by (nonlinear_arith)
        requires
            health * 1000 < (q + 1) * d,
            health >= 0,
            0 < d <= 1000,
    ;
    let r = effective_strength(health, armor_value, armor_type);
    assert(r * d <= health * 1000) by (nonlinear_arith)
        requires
            r <= q,
            q * d <= health * 1000,
            d > 0,
    ;
    if r == q {
        assert(more * d > health * 1000) by (nonlinear_arith)
            requires
                more >= q + 1,
                health * 1000 < (q + 1) * d,
                d > 0,
        ;
    }
}

/// Without armor, strength is health; who is dead has none.
pub proof fn strength_without_armor(health: int, armor_value: int, armor_type: int)
    ensures
        effective_strength(health, 0, 0) == if health > 0 {
            health
        } else {
            0
        },
        health < 0 && armor_type <= 1000 ==> effective_strength(health, armor_value, armor_type) == 0,
{
    if health < 0 && armor_type < 1000 {
        lemma_share_sign(health, 1000 - armor_type);
    }
}

/// Firepower is never less than what any owned weapon gives, and one of them gives it.
pub proof fn firepower_is_the_best_weapons(items: i32, shells: i32, nails: i32, rockets: i32, cells: i32)
    requires
        shells >= 0,
        nails >= 0,
        rockets >= 0,
        cells >= 0,
    ensures
        ({
            let p = power(items, shells, nails, rockets, cells);
            let rl = items & Items::ROCKET_LAUNCHER != 0;
            let lg = items & Items::LIGHTNING != 0;
            let gl = items & Items::GRENADE_LAUNCHER != 0;
            let sng = items & Items::SUPER_NAILGUN != 0;
            let ng = items & Items::NAILGUN != 0;
            let ssg = items & Items::SUPER_SHOTGUN != 0;
            &&& rl ==> p >= 100000 || p >= 8000 * rockets
            &&& lg ==> p >= 100000 || p >= 5000 * cells
            &&& gl ==> p >= 50000 || p >= 6000 * rockets
            &&& sng ==> p >= 50000 || p >= 500 * nails
            &&& ng ==> p >= 35000 || p >= 250 * nails
            &&& ssg ==> p >= 20000 || p >= 1000 * shells
            &&& p >= 10000 || p >= 1000 * shells
            &&& 0 <= p <= 100000
            &&& {
                ||| rl && (p == 100000 || p == 8000 * rockets)
                ||| lg && (p == 100000 || p == 5000 * cells)
                ||| gl && (p == 50000 || p == 6000 * rockets)
                ||| sng && (p == 50000 || p == 500 * nails)
                ||| ng && (p == 35000 || p == 250 * nails)
                ||| ssg && (p == 20000 || p == 1000 * shells)
                ||| p == 10000 || p == 1000 * shells
            }
        }),
{
}

/// A living bot that is not whole wants every health box that heals: below a hundred points an
/// ordinary one, below two hundred and fifty a mega one. A whole bot wants none.
pub proof fn the_wounded_want_health(v: EntVars, deathmatch: i32, amount: i32)
    requires
        v.health > 0,
        v.armorvalue >= 0,
        0 <= v.armortype < 1000,
        amount > 0,
    ensures
        v.health < 100 <==> desire(stats_of(v, deathmatch), amount, 1, Category::Health) > 0,
        v.health < 100 <==> desire(stats_of(v, deathmatch), amount, 0, Category::Health) > 0,
        v.health < 250 <==> desire(stats_of(v, deathmatch), amount, 2, Category::Health) > 0,
{
    let s = stats_of(v, deathmatch);
    lemma_more_health_is_stronger(v.health as int, lesser(v.health + amount, 100), v);
    lemma_more_health_is_stronger(v.health as int, lesser(v.health + amount, 250), v);
    lemma_strength_fits(v);
    assert(s.strength == strength_of(v.health as int, v.armorvalue as int, v.armortype as int));
}

proof fn lemma_strength_fits(v: EntVars)
    requires
        0 <= v.armortype < 1000,
        v.armorvalue >= 0,
        v.health >= 0,
    ensures
        0 <= strength_of(v.health as int, v.armorvalue as int, v.armortype as int) <= 0x1000_0000_0000,
{
    lemma_share_sign(v.health * 1000, 1000 - v.armortype);
}

proof fn lemma_more_health_is_stronger(low: int, high: int, v: EntVars)
    requires
        0 < low,
        0 <= v.armortype < 1000,
        v.armorvalue >= 0,
    ensures
        low < high ==> strength_of(low, v.armorvalue as int, v.armortype as int) < strength_of(
            high,
            v.armorvalue as int,
            v.armortype as int,
        ),
{
    if low < high {
        let d = 1000 - v.armortype;
        let a = low * 1000;
        let b = high * 1000;
        assert(a * 1000 / d < b * 1000 / d) by (nonlinear_arith)
            requires
                0 < d <= 1000,
                b >= a + 1000,
        ;
        assert(0 <= a * 1000 / d) by (nonlinear_arith)
            requires
                0 < d,
                a > 0,
        ;
    }
}

/// For a bot without armor an ordinary health box is worth twenty for each thousandth of a point it
/// heals, a mega one ten; so of two bots that it heals, the one that it heals more wants it more.
pub proof fn health_is_wanted_for_what_it_heals(v: EntVars, deathmatch: i32, amount: i32)
    requires
        v.health >= 0,
        v.armorvalue == 0,
        v.armortype == 0,
        amount >= 0,
    ensures
        v.health + amount <= 100 ==> desire(stats_of(v, deathmatch), amount, 1, Category::Health) == 20_000 * amount,
        v.health <= 100 < v.health + amount ==> desire(stats_of(v, deathmatch), amount, 1, Category::Health) == 20_000
            * (100 - v.health),
        v.health + amount <= 250 ==> desire(stats_of(v, deathmatch), amount, 2, Category::Health) == 10_000 * amount,
        v.health <= 250 < v.health + amount ==> desire(stats_of(v, deathmatch), amount, 2, Category::Health) == 10_000
            * (250 - v.health),
{
    lemma_strength_fits(v);
}

/// Armor is wanted only while the armor worn absorbs less than the wanted one is worth taking for,
/// and then for what it adds to the strength: twice over for the weakest.
pub proof fn armor_is_wanted_for_what_it_adds(s: Stats, name: Seq<char>)
    requires
        name == "item_armor1"@ || name == "item_armor2"@ || name == "item_armorInv"@,
        s.health > 0,
        valid_stats(s),
    ensures
        category_of(name) matches Some(Category::Armor { value, at, gate, double }) && {
            let want = desire(s, 0, 0, Category::Armor { value, at, gate, double });
            let with = strength_of(s.health as int, value as int, at as int);
            &&& want >= 0
            &&& s.armor >= gate ==> want == 0
            &&& s.armor < gate && with <= s.strength ==> want == 0
            &&& s.armor < gate && with > s.strength ==> want == if name == "item_armor1"@ {
                20 * (with - s.strength)
            } else {
                10 * (with - s.strength)
            }
        },
        name == "item_armor1"@ ==> (category_of(name) matches Some(Category::Armor { value, at, gate, .. }) && value == 100
            && at == 300 && gate == 30_000),
        name == "item_armor2"@ ==> (category_of(name) matches Some(Category::Armor { value, at, gate, .. }) && value == 150
            && at == 600 && gate == 90_000),
        name == "item_armorInv"@ ==> (category_of(name) matches Some(Category::Armor { value, at, gate, .. }) && value
            == 200 && at == 800 && gate == 160_000),
{
    lemma_item_names();
}

/// The names of the items are all different.
proof fn lemma_item_names()
    ensures
        "item_armor1"@ != "item_armor2"@,
        "item_armor1"@ != "item_armorInv"@,
        "item_armor2"@ != "item_armorInv"@,
        "item_armor1"@ != "item_health"@,
        "item_armor2"@ != "item_health"@,
        "item_armorInv"@ != "item_health"@,
        "item_armor1"@.len() == 11,
        "item_armor2"@.len() == 11,
        "item_armorInv"@.len() == 13,
        "item_health"@.len() == 11,
        "item_artifact_super_damage"@.len() == 26,
        "item_artifact_invulnerability"@.len() == 29,
        "item_artifact_invisibility"@.len() == 26,
{
    reveal_strlit("item_armor1");
    reveal_strlit("item_armor2");
    reveal_strlit("item_armorInv");
    reveal_strlit("item_health");
    reveal_strlit("item_artifact_super_damage");
    reveal_strlit("item_artifact_invulnerability");
    reveal_strlit("item_artifact_invisibility");
    assert("item_armor1"@[10] == '1');
    assert("item_armor2"@[10] == '2');
    assert("item_health"@[10] == 'h');
}

/// A powerup is wanted above anything else: more than any health or any armor could be worth to a
/// bot of ordinary strength, and more by the stronger.
pub proof fn powerups_come_first(s: Stats, t: Stats)
    requires
        valid_stats(s),
        valid_stats(t),
    ensures
        desire(s, 0, 0, Category::Powerup) >= 2_000_000,
        desire(t, 0, 0, Category::Powerup) - desire(s, 0, 0, Category::Powerup) == 10 * (t.strength - s.strength),
        s.strength == 0 ==> desire(s, 0, 0, Category::Powerup) == 2_000_000,
{
}

/// A weapon that is owned is wanted for its ammo, and not at all where weapons stay; one that is not
/// owned for the firepower it lacks, and the best three always.
pub proof fn weapons_are_wanted_for_what_is_missing(s: Stats, w: WeaponKind)
    requires
        valid_stats(s),
        s.shells >= 0,
        s.nails >= 0,
        s.rockets >= 0,
        s.cells >= 0,
    ensures
        ({
            let want = desire(s, 0, 0, Category::Weapon(w));
            let bit = match w {
                WeaponKind::Ssg => Items::SUPER_SHOTGUN,
                WeaponKind::Ng => Items::NAILGUN,
                WeaponKind::Sng => Items::SUPER_NAILGUN,
                WeaponKind::Gl => Items::GRENADE_LAUNCHER,
                WeaponKind::Rl => Items::ROCKET_LAUNCHER,
                WeaponKind::Lg => Items::LIGHTNING,
            };
            let owned = s.items & bit != 0;
            let top = match w {
                WeaponKind::Rl | WeaponKind::Lg => 1_000_000int,
                WeaponKind::Gl => 500_000int,
                _ => 200_000int,
            };
            &&& want >= 0
            &&& owned && s.weapons_stay ==> want == 0
            &&& owned && !s.weapons_stay ==> want == desire(
                s,
                0,
                0,
                Category::Ammo(
                    match w {
                        WeaponKind::Ssg => AmmoKind::Shells,
                        WeaponKind::Ng | WeaponKind::Sng => AmmoKind::Nails,
                        WeaponKind::Gl | WeaponKind::Rl => AmmoKind::Rockets,
                        WeaponKind::Lg => AmmoKind::Cells,
                    },
                ),
            )
            &&& !owned ==> want >= top - 10 * s.firepower
            &&& !owned && top - 10 * s.firepower >= 200_000 ==> want == top - 10 * s.firepower
            &&& !owned && (w == WeaponKind::Rl || w == WeaponKind::Lg || w == WeaponKind::Gl) ==> want >= 50_000
            &&& !owned && (w == WeaponKind::Ssg || w == WeaponKind::Ng || w == WeaponKind::Sng) ==> (want == 0
                <==> s.firepower >= 20_000)
        }),
{
}

/// Rockets and cells are wanted by everyone who is not full, the more the fewer there are, down to a
/// floor.
pub proof fn rockets_and_cells_are_always_wanted(s: Stats)
    requires
        s.rockets >= 0,
        s.cells >= 0,
    ensures
        ({
            let r = desire(s, 0, 0, Category::Ammo(AmmoKind::Rockets));
            let c = desire(s, 0, 0, Category::Ammo(AmmoKind::Cells));
            &&& s.rockets >= 100 <==> r == 0
            &&& s.rockets <= 15 ==> r + 10_000 * s.rockets == 200_000
            &&& 15 <= s.rockets < 100 ==> r == 50_000
            &&& s.cells >= 100 <==> c == 0
            &&& s.cells <= 37 ==> c + 2_000 * s.cells == 100_000
            &&& 38 <= s.cells < 100 ==> c == 25_000
        }),
{
}

/// Nails and shells are wanted only by a bot with little to fire: less and less as they add up, and
/// not at all by one that is better armed.
pub proof fn lesser_ammo_is_for_the_poorly_armed(s: Stats)
    requires
        s.nails >= 0,
        s.shells >= 0,
    ensures
        ({
            let n = desire(s, 0, 0, Category::Ammo(AmmoKind::Nails));
            let h = desire(s, 0, 0, Category::Ammo(AmmoKind::Shells));
            &&& s.firepower >= 20_000 ==> n == 0 && h == 0
            &&& s.firepower < 20_000 && s.nails < 200 ==> n + 125 * s.nails == 25_000
            &&& s.firepower < 20_000 && s.shells <= 50 ==> h + 500 * s.shells == 25_000
            &&& s.nails >= 200 ==> n == 0
            &&& s.shells >= 50 ==> h == 0
        }),
{
}

/// An item on the floor is had when the bot gets there, one that is to come back not before it does;
/// anything else never.
pub proof fn items_are_had_when_they_are_there(e: Entity, travel: u32, now: i64)
    ensures
        e.v.solid == Solid::Trigger ==> collect_time(e, travel, now) == Some(travel as int),
        e.v.solid != Solid::Trigger && (e.think != Think::SubRegen || e.v.nextthink <= now) ==> collect_time(
            e,
            travel,
            now,
        ) is None,
        e.v.solid != Solid::Trigger && e.think == Think::SubRegen && e.v.nextthink > now ==> (collect_time(
            e,
            travel,
            now,
        ) matches Some(t) && t >= travel && now + t >= e.v.nextthink && (t == travel || now + t == e.v.nextthink)),
{
}

/// A goal offers something exactly when it is not avoided, can be reached, is wanted, and can be had
/// within ten seconds.
pub proof fn offers_are_worth_it(
    b: BotState,
    s: Stats,
    entities: Seq<Entity>,
    goal: (u32, u32),
    costs: Seq<Option<u32>>,
    now: i64,
)
    ensures
        ({
            let e = entities[goal.0 as int];
            let r = offer(b, s, entities, goal, costs, now);
            &&& avoids(b.avoid_items@, goal.0, now) ==> r is None
            &&& costs[goal.1 as int] is None ==> r is None
            &&& desire_for(s, e) is None ==> r is None
            &&& (desire_for(s, e) matches Some(d) && d <= 0) ==> r is None
            &&& r matches Some(x) ==> 0 < x.0 && x.1 < 10_000 && desire_for(s, e) == Some(x.0) && collect_time(
                e,
                costs[goal.1 as int]->0,
                now,
            ) == Some(x.1)
            &&& !avoids(b.avoid_items@, goal.0, now) && costs[goal.1 as int] is Some && (desire_for(s, e) matches Some(d)
                && d > 0) && (collect_time(e, costs[goal.1 as int]->0, now) matches Some(t) && t < 10_000) ==> r is Some
        }),
{
}

/// Of two goals that are had as soon, the one that is wanted more is better; of two that are wanted as
/// much, the one that is had sooner.
pub proof fn wanted_and_near_is_better(d: int, t: int, e: int, u: int)
    requires
        0 < d,
        0 < e,
        0 <= t < 10_000,
        0 <= u < 10_000,
    ensures
        t == u ==> (beats((d, t), (e, u)) <==> d > e),
        d == e ==> (beats((d, t), (e, u)) <==> t < u),
        t == 0 ==> (beats((d, t), (e, u)) <==> 2 * d * (u + 5_000) > e * (10_000 - u)),
{
    if t == 0 {
        assert(d * (10_000 - t) * (u + 5000) == 5000 * (2 * d * (u + 5_000))) by (nonlinear_arith)
            requires
                t == 0,
        ;
        assert(e * (10_000 - u) * (t + 5000) == 5000 * (e * (10_000 - u))) by (nonlinear_arith)
            requires
                t == 0,
        ;
    }
    if t == u {
        let k = (LOOKAHEAD - t) * (t + 5000);
        assert(k > 0) by (nonlinear_arith)
            requires
                k == (10_000 - t) * (t + 5000),
                0 <= t < 10_000,
        ;
        assert(d * (10_000 - t) * (t + 5000) == d * ((10_000 - t) * (t + 5000))) by (nonlinear_arith);
        assert(e * (10_000 - t) * (t + 5000) == e * ((10_000 - t) * (t + 5000))) by (nonlinear_arith);
        assert((d * k > e * k) == (d > e)) by (nonlinear_arith)
            requires
                k > 0,
        ;
    }
    if d == e {
        assert(d * (10_000 - t) * (u + 5000) - d * (10_000 - u) * (t + 5000) == d * (15_000 * (u - t)))
            by (nonlinear_arith);
        assert((d * (15_000 * (u - t)) > 0) == (t < u)) by (nonlinear_arith)
            requires
                d > 0,
        ;
    }
}

/// The weapon stays in the second, third and fifth deathmatch.
pub proof fn weapons_stay_in_three_modes(v: EntVars, deathmatch: i32)
    ensures
        stats_of(v, deathmatch).weapons_stay <==> deathmatch == 2 || deathmatch == 3 || deathmatch == 5,
{
}

/// An item that is chosen stays so while it is there, or back within ten seconds, and still wanted.
pub proof fn goals_are_soon(e: Entity, now: i64)
    ensures
        e.v.solid == Solid::Trigger ==> soon(e, now),
        e.v.solid != Solid::Trigger && e.think != Think::SubRegen ==> !soon(e, now),
        e.v.solid != Solid::Trigger && e.think == Think::SubRegen ==> (soon(e, now) <==> e.v.nextthink < now + 10_000),
{
}

/// What a bot reckons with is what the player has.
pub proof fn bots_reckon_with_what_they_have(v: EntVars, deathmatch: i32)
    ensures
        ({
            let s = stats_of(v, deathmatch);
            &&& s.health == v.health && s.armor_value == v.armorvalue && s.armor_type == v.armortype
            &&& s.items == v.items
            &&& s.shells == v.ammo_shells && s.nails == v.ammo_nails && s.rockets == v.ammo_rockets && s.cells
                == v.ammo_cells
            &&& s.weapons_stay <==> deathmatch == 2 || deathmatch == 3 || deathmatch == 5
        }),
{
}

/// What an item is wanted as tells what it is; every class that can be wanted is; and the suit, like
/// anything else, is no goal.
pub proof fn goals_are_known_by_class(name: Seq<char>)
    ensures
        ({
            let c = category_of(name);
            &&& c == Some(Category::Powerup) <==> name == "item_artifact_super_damage"@ || name
                == "item_artifact_invulnerability"@ || name == "item_artifact_invisibility"@
            &&& c == Some(Category::Health) ==> name == "item_health"@
            &&& c matches Some(Category::Armor { value, at, gate, double }) ==> {
                ||| (name == "item_armor1"@ && value == 100 && at == 300 && gate == 30_000 && double)
                ||| (name == "item_armor2"@ && value == 150 && at == 600 && gate == 90_000 && !double)
                ||| (name == "item_armorInv"@ && value == 200 && at == 800 && gate == 160_000 && !double)
            }
            &&& c == Some(Category::Weapon(WeaponKind::Ssg)) ==> name == "weapon_supershotgun"@
            &&& c == Some(Category::Weapon(WeaponKind::Ng)) ==> name == "weapon_nailgun"@
            &&& c == Some(Category::Weapon(WeaponKind::Sng)) ==> name == "weapon_supernailgun"@
            &&& c == Some(Category::Weapon(WeaponKind::Gl)) ==> name == "weapon_grenadelauncher"@
            &&& c == Some(Category::Weapon(WeaponKind::Rl)) ==> name == "weapon_rocketlauncher"@
            &&& c == Some(Category::Weapon(WeaponKind::Lg)) ==> name == "weapon_lightning"@
            &&& c == Some(Category::Ammo(AmmoKind::Shells)) ==> name == "item_shells"@
            &&& c == Some(Category::Ammo(AmmoKind::Nails)) ==> name == "item_spikes"@
            &&& c == Some(Category::Ammo(AmmoKind::Rockets)) ==> name == "item_rockets"@
            &&& c == Some(Category::Ammo(AmmoKind::Cells)) ==> name == "item_cells"@
            &&& c is None <==> {
                &&& name != "item_artifact_super_damage"@ && name != "item_artifact_invulnerability"@ && name
                    != "item_artifact_invisibility"@
                &&& name != "item_health"@ && name != "item_armor1"@ && name != "item_armor2"@ && name != "item_armorInv"@
                &&& name != "weapon_supershotgun"@ && name != "weapon_nailgun"@ && name != "weapon_supernailgun"@
                &&& name != "weapon_grenadelauncher"@ && name != "weapon_rocketlauncher"@ && name != "weapon_lightning"@
                &&& name != "item_shells"@ && name != "item_spikes"@ && name != "item_rockets"@ && name != "item_cells"@
            }
        }),
{
}

} // verus!
