//! Players: what they carry between levels, coming and going, breathing, jumping, powerups, death
//! and spawning.
//!
//! Times are milliseconds, speeds and armor types thousandths.
use crate::abi::EntVars;
use crate::assets::{Model, Sound};
use crate::bot::population::on_disconnect;
use crate::defs::{Bits, Content, DeadFlag, Effects, FieldEq, Flags, Items, MoveType, Solid, TakeDamage, Weapon};
use crate::entity::{CombatState, Die, EntId, Entity, MoverState, Pain};
use crate::game::{drawn, ids, matching_below, matching_is_exact, put_combat, put_v, xorshift, GameState, Level};
use crate::items::{current_weapon_ammo_state, shown_weapon, POWERUP_LATCH};
use crate::num::{after, bounded, fit, fitted, since};
use crate::text::same_text;
use vstd::prelude::*;

verus! {

/// What a player carries from one level to the next.
#[derive(Clone, Copy, PartialEq, Eq, Debug, Structural)]
pub struct PlayerParms {
    pub items: i32,
    pub health: i32,
    pub armorvalue: i32,
    pub shells: i32,
    pub nails: i32,
    pub rockets: i32,
    pub cells: i32,
    pub weapon: i32,
    pub armortype: i32,
}

/// What nobody carries over: keys and powerups.
pub const LEFT_BEHIND: i32 = Items::KEY1 | Items::KEY2 | Items::INVISIBILITY | Items::INVULNERABILITY | Items::SUIT
    | Items::QUAD;

/// The kit of a new player.
pub open spec fn fresh_parms() -> PlayerParms {
    PlayerParms {
        items: Items::SHOTGUN | Items::AXE,
        health: 100,
        armorvalue: 0,
        shells: 25,
        nails: 0,
        rockets: 0,
        cells: 0,
        weapon: Items::SHOTGUN,
        armortype: 0,
    }
}

/// The kit of a survivor.
pub open spec fn survivor_parms(v: EntVars) -> PlayerParms {
    PlayerParms {
        items: v.items & !LEFT_BEHIND,
        health: if v.health < 50 {
            50
        } else if v.health > 100 {
            100
        } else {
            v.health
        },
        armorvalue: v.armorvalue,
        shells: if v.ammo_shells < 25 {
            25
        } else {
            v.ammo_shells
        },
        nails: v.ammo_nails,
        rockets: v.ammo_rockets,
        cells: v.ammo_cells,
        weapon: v.weapon.bit(),
        armortype: v.armortype,
    }
}

/// The parameters as the engine keeps them; the armor type is kept a hundredfold.
pub open spec fn parms_kept(p: PlayerParms, parm: Seq<i64>) -> bool {
    &&& parm[0] == p.items
    &&& parm[1] == p.health
    &&& parm[2] == p.armorvalue
    &&& parm[3] == p.shells
    &&& parm[4] == p.nails
    &&& parm[5] == p.rockets
    &&& parm[6] == p.cells
    &&& parm[7] == p.weapon
    &&& parm[8] == p.armortype * 100
}

pub open spec fn parms_read(parm: Seq<i64>) -> PlayerParms {
    PlayerParms {
        items: fitted(parm[0] as int),
        health: fitted(parm[1] as int),
        armorvalue: fitted(parm[2] as int),
        shells: fitted(parm[3] as int),
        nails: fitted(parm[4] as int),
        rockets: fitted(parm[5] as int),
        cells: fitted(parm[6] as int),
        weapon: fitted(parm[7] as int),
        armortype: fitted(toward_zero(parm[8] as int, 100)),
    }
}

/// A quotient cut toward zero.
pub open spec fn toward_zero(x: int, d: int) -> int {
    if x >= 0 {
        x / d
    } else {
        -((-x) / d)
    }
}

impl PlayerParms {
    pub fn fresh() -> (r: PlayerParms)
        ensures
            r == fresh_parms(),
    {
        PlayerParms {
            items: Items::SHOTGUN | Items::AXE,
            health: 100,
            armorvalue: 0,
            shells: 25,
            nails: 0,
            rockets: 0,
            cells: 0,
            weapon: Items::SHOTGUN,
            armortype: 0,
        }
    }

    pub fn from_survivor(v: &EntVars) -> (r: PlayerParms)
        ensures
            r == survivor_parms(*v),
    {
        let health: i32 = if v.health < 50 {
            50
        } else if v.health > 100 {
            100
        } else {
            v.health
        };
        let shells: i32 = if v.ammo_shells < 25 {
            25
        } else {
            v.ammo_shells
        };
        PlayerParms {
            items: v.items.without(LEFT_BEHIND),
            health,
            armorvalue: v.armorvalue,
            shells,
            nails: v.ammo_nails,
            rockets: v.ammo_rockets,
            cells: v.ammo_cells,
            weapon: v.weapon.item(),
            armortype: v.armortype,
        }
    }

    pub fn read(parm: &[i64; 16]) -> (r: PlayerParms)
        ensures
            r == parms_read(parm@),
    {
        let wide: i64 = parm[8];
        let armortype: i64 = if wide >= 0 {
            wide / 100
        } else if wide == i64::MIN {
            -92_233_720_368_547_758
        } else {
            -((-wide) / 100)
        };
        PlayerParms {
            items: fit(parm[0]),
            health: fit(parm[1]),
            armorvalue: fit(parm[2]),
            shells: fit(parm[3]),
            nails: fit(parm[4]),
            rockets: fit(parm[5]),
            cells: fit(parm[6]),
            weapon: fit(parm[7]),
            armortype: fit(armortype),
        }
    }

    pub fn write(self, parm: &mut [i64; 16])
        ensures
            parms_kept(self, final(parm)@),
            forall|i: int| 9 <= i < 16 ==> #[trigger] final(parm)@[i] == old(parm)@[i],
    {
        parm[0] = self.items as i64;
        parm[1] = self.health as i64;
        parm[2] = self.armorvalue as i64;
        parm[3] = self.shells as i64;
        parm[4] = self.nails as i64;
        parm[5] = self.rockets as i64;
        parm[6] = self.cells as i64;
        parm[7] = self.weapon as i64;
        parm[8] = self.armortype as i64 * 100;
    }

    /// A player's fields with these parameters in force.
    pub open spec fn applied(self, v: EntVars) -> EntVars {
        EntVars {
            items: self.items,
            health: self.health,
            armorvalue: self.armorvalue,
            ammo_shells: self.shells,
            ammo_nails: self.nails,
            ammo_rockets: self.rockets,
            ammo_cells: self.cells,
            weapon: Weapon::of_bit(self.weapon),
            armortype: self.armortype,
            ..v
        }
    }

    pub fn apply_to(self, v: &mut EntVars)
        ensures
            *final(v) == self.applied(*old(v)),
    {
        v.items = self.items;
        v.health = self.health;
        v.armorvalue = self.armorvalue;
        v.ammo_shells = self.shells;
        v.ammo_nails = self.nails;
        v.ammo_rockets = self.rockets;
        v.ammo_cells = self.cells;
        v.weapon = Weapon::from_item(self.weapon);
        v.armortype = self.armortype;
    }
}

/// The default parameters of a new player.
pub fn set_new_parms(parm: &mut [i64; 16])
    ensures
        parms_kept(fresh_parms(), final(parm)@),
        forall|i: int| 9 <= i < 16 ==> #[trigger] final(parm)@[i] == old(parm)@[i],
{
    PlayerParms::fresh().write(parm);
}

/// What a player leaves a level with.
pub open spec fn change_parms(v: EntVars) -> PlayerParms {
    if v.health <= 0 {
        fresh_parms()
    } else {
        survivor_parms(v)
    }
}

/// Keep what a player leaves a level with; the dead start over.
pub fn set_change_parms(v: &EntVars, parm: &mut [i64; 16])
    ensures
        parms_kept(change_parms(*v), final(parm)@),
        forall|i: int| 9 <= i < 16 ==> #[trigger] final(parm)@[i] == old(parm)@[i],
{
    if v.health <= 0 {
        set_new_parms(parm);
        return;
    }
    PlayerParms::from_survivor(v).write(parm);
}

/// Give a player what the parameters say.
pub fn decode_level_parms(v: &mut EntVars, parm: &[i64; 16])
    ensures
        *final(v) == parms_read(parm@).applied(*old(v)),
{
    let p = PlayerParms::read(parm);
    p.apply_to(v);
}

/// What is written between levels is read back the same.
pub proof fn parms_round_trip(p: PlayerParms, parm: Seq<i64>)
    requires
        parms_kept(p, parm),
    ensures
        parms_read(parm) == p,
{
}

/// A survivor comes to the next level with the ammo and armor they left with, a weapon they held, no
/// powerups or keys, and healthy but not more than that.
pub proof fn survivors_keep_their_kit(before: EntVars, parm: Seq<i64>, after: EntVars)
    requires
        before.health > 0,
        parms_kept(change_parms(before), parm),
    ensures
        ({
            let v = parms_read(parm).applied(after);
            &&& v.armorvalue == before.armorvalue && v.armortype == before.armortype
            &&& v.ammo_nails == before.ammo_nails && v.ammo_rockets == before.ammo_rockets
            &&& v.ammo_cells == before.ammo_cells && v.ammo_shells >= before.ammo_shells && v.ammo_shells >= 25
            &&& v.weapon == before.weapon
            &&& v.items & LEFT_BEHIND == 0
            &&& 50 <= v.health <= 100
        }),
{
    parms_round_trip(change_parms(before), parm);
    crate::defs::weapon_bits_round_trip(before.weapon);
    let items = before.items;
    assert((items & !LEFT_BEHIND) & LEFT_BEHIND == 0) by {
        let k = LEFT_BEHIND;
        assert((items & !k) & k == 0) by (bit_vector);
    }
}

// --- powerups ---
/// What the owner of a powerup about to end is told.
#[derive(Clone, Copy, PartialEq, Eq, Debug, Structural)]
pub enum Warning {
    Silent,
    /// The screen flashes.
    Flash,
    /// It flashes with a message and a sound: the first time only.
    Message,
}

/// How long before its end a powerup starts to warn.
pub const WARN_AHEAD: i64 = 3000;

pub open spec fn warning_of(latch: i64, now: i64) -> Warning {
    if latch == POWERUP_LATCH {
        Warning::Message
    } else if latch < now {
        Warning::Flash
    } else {
        Warning::Silent
    }
}

pub open spec fn latched(latch: i64, now: i64) -> i64 {
    if warning_of(latch, now) == Warning::Silent {
        latch
    } else {
        bounded(now + 1000)
    }
}

/// Warn about a powerup: its latch afterwards, and what its owner is told.
pub fn powerup_warn(latch: i64, now: i64) -> (r: (i64, Warning))
    ensures
        r == (latched(latch, now), warning_of(latch, now)),
{
    if latch == POWERUP_LATCH {
        (after(now, 1000), Warning::Message)
    } else if latch < now {
        (after(now, 1000), Warning::Flash)
    } else {
        (latch, Warning::Silent)
    }
}

/// The end and the latch of a powerup after a frame, and what its owner is told.
pub open spec fn ran(finished: i64, latch: i64, now: i64) -> (i64, i64, Warning) {
    if finished == 0 {
        (finished, latch, Warning::Silent)
    } else if finished < now {
        (0, 0, warning_of(latch, now))
    } else if finished < bounded(now + WARN_AHEAD) {
        (finished, latched(latch, now), warning_of(latch, now))
    } else {
        (finished, latch, Warning::Silent)
    }
}

fn run_powerup(finished: i64, latch: i64, now: i64) -> (r: (i64, i64, Warning))
    ensures
        r == ran(finished, latch, now),
{
    if finished == 0 {
        return (finished, latch, Warning::Silent);
    }
    let mut latch: i64 = latch;
    let mut warning = Warning::Silent;
    if finished < after(now, WARN_AHEAD) {
        let w = powerup_warn(latch, now);
        latch = w.0;
        warning = w.1;
    }
    if finished < now {
        return (0, 0, warning);
    }
    (finished, latch, warning)
}

/// Whether a powerup ends this frame.
pub open spec fn ends(finished: i64, now: i64) -> bool {
    finished != 0 && finished < now
}

/// Effect bits with a glow switched.
pub open spec fn glowing(effects: i32, on: bool, color: i32) -> i32 {
    if on {
        effects | (Effects::DIMLIGHT | color)
    } else {
        effects & !(Effects::DIMLIGHT | color)
    }
}

pub fn set_powerup_glow(effects: i32, on: bool, color: i32) -> (r: i32)
    ensures
        r == glowing(effects, on, color),
{
    let glow: i32 = Effects::DIMLIGHT | color;
    if on {
        effects.with(glow)
    } else {
        effects.without(glow)
    }
}

/// What a frame of powerups does besides changing the player.
#[derive(Clone, Copy, PartialEq, Eq, Debug, Structural)]
pub struct Powerups {
    /// The ring of shadows whispers.
    pub whisper: bool,
    pub ring: Warning,
    pub pentagram: Warning,
    pub quad: Warning,
    pub biosuit: Warning,
}

/// Whether the ring whispers.
pub open spec fn whispers(c: CombatState, now: i64) -> bool {
    c.invisible_finished != 0 && c.invisible_sound < now
}

/// The pause before the next whisper: one to four seconds.
pub open spec fn whisper_pause(rng: u32) -> i64 {
    (1_000 + drawn(rng) * 3_000 / 0x100_0000) as i64
}

/// Timers after a frame of powerups, `roll` being the pause before the ring whispers again.
pub open spec fn powered_timers(c: CombatState, now: i64, roll: i64) -> CombatState {
    let ring = ran(c.invisible_finished, c.invisible_time, now);
    let pent = ran(c.invincible_finished, c.invincible_time, now);
    let quad = ran(c.super_damage_finished, c.super_time, now);
    let suit = ran(c.radsuit_finished, c.rad_time, now);
    CombatState {
        invisible_sound: if whispers(c, now) {
            bounded(now + roll)
        } else {
            c.invisible_sound
        },
        invisible_finished: ring.0,
        invisible_time: ring.1,
        invincible_finished: pent.0,
        invincible_time: pent.1,
        super_damage_finished: quad.0,
        super_time: quad.1,
        radsuit_finished: suit.0,
        rad_time: suit.1,
        air_finished: if c.radsuit_finished != 0 {
            bounded(now + 12_000)
        } else {
            c.air_finished
        },
        ..c
    }
}

fn run_timers(c: CombatState, now: i64, roll: i64) -> (r: (CombatState, Powerups))
    ensures
        r.0 == powered_timers(c, now, roll),
        r.1 == told(c, now),
{
    let whisper = c.invisible_finished != 0 && c.invisible_sound < now;
    let ring = run_powerup(c.invisible_finished, c.invisible_time, now);
    let pent = run_powerup(c.invincible_finished, c.invincible_time, now);
    let quad = run_powerup(c.super_damage_finished, c.super_time, now);
    let suit = run_powerup(c.radsuit_finished, c.rad_time, now);
    let invisible_sound: i64 = if whisper {
        after(now, roll)
    } else {
        c.invisible_sound
    };
    let air_finished: i64 = if c.radsuit_finished != 0 {
        after(now, 12_000)
    } else {
        c.air_finished
    };
    (
        CombatState {
            invisible_sound,
            invisible_finished: ring.0,
            invisible_time: ring.1,
            invincible_finished: pent.0,
            invincible_time: pent.1,
            super_damage_finished: quad.0,
            super_time: quad.1,
            radsuit_finished: suit.0,
            rad_time: suit.1,
            air_finished,
            ..c
        },
        Powerups { whisper, ring: ring.2, pentagram: pent.2, quad: quad.2, biosuit: suit.2 },
    )
}

/// What a player's powerups say this frame.
pub open spec fn told(c: CombatState, now: i64) -> Powerups {
    Powerups {
        whisper: c.invisible_finished != 0 && c.invisible_sound < now,
        ring: ran(c.invisible_finished, c.invisible_time, now).2,
        pentagram: ran(c.invincible_finished, c.invincible_time, now).2,
        quad: ran(c.super_damage_finished, c.super_time, now).2,
        biosuit: ran(c.radsuit_finished, c.rad_time, now).2,
    }
}

/// Item bits without those of the powerups that end.
pub open spec fn powered_items(items: i32, c: CombatState, now: i64) -> i32 {
    let ring = if ends(c.invisible_finished, now) {
        items & !Items::INVISIBILITY
    } else {
        items
    };
    let pent = if ends(c.invincible_finished, now) {
        ring & !Items::INVULNERABILITY
    } else {
        ring
    };
    let quad = if ends(c.super_damage_finished, now) {
        pent & !Items::QUAD
    } else {
        pent
    };
    if ends(c.radsuit_finished, now) {
        quad & !Items::SUIT
    } else {
        quad
    }
}

/// Effect bits with the glow of each running powerup on, and of each that ends off.
pub open spec fn powered_effects(effects: i32, c: CombatState, now: i64) -> i32 {
    let pent = if c.invincible_finished != 0 {
        glowing(effects, ran(c.invincible_finished, c.invincible_time, now).0 > now, Effects::RED)
    } else {
        effects
    };
    if c.super_damage_finished != 0 {
        glowing(pent, ran(c.super_damage_finished, c.super_time, now).0 > now, Effects::BLUE)
    } else {
        pent
    }
}

/// A player's fields after a frame of powerups: an invisible player shows only eyes, and where quad
/// is eightfold its end leaves its owner a kit.
pub open spec fn powered(v: EntVars, c: CombatState, now: i64, level: Level) -> EntVars {
    let octa_ends = level.deathmatch == 4 && ends(c.super_damage_finished, now);
    EntVars {
        modelindex: if c.invisible_finished != 0 {
            level.modelindex_eyes
        } else {
            level.modelindex_player
        },
        frame: if c.invisible_finished != 0 {
            0
        } else {
            v.frame
        },
        items: powered_items(v.items, c, now),
        effects: powered_effects(v.effects, c, now),
        ammo_cells: if octa_ends {
            255
        } else {
            v.ammo_cells
        },
        armorvalue: if octa_ends {
            1
        } else {
            v.armorvalue
        },
        armortype: if octa_ends {
            800
        } else {
            v.armortype
        },
        health: if octa_ends {
            100
        } else {
            v.health
        },
        ..v
    }
}

fn drop_items(items: i32, c: &CombatState, now: i64) -> (r: i32)
    ensures
        r == powered_items(items, *c, now),
{
    let mut items: i32 = items;
    if c.invisible_finished != 0 && c.invisible_finished < now {
        items = items.without(Items::INVISIBILITY);
    }
    if c.invincible_finished != 0 && c.invincible_finished < now {
        items = items.without(Items::INVULNERABILITY);
    }
    if c.super_damage_finished != 0 && c.super_damage_finished < now {
        items = items.without(Items::QUAD);
    }
    if c.radsuit_finished != 0 && c.radsuit_finished < now {
        items = items.without(Items::SUIT);
    }
    items
}

fn light_up(effects: i32, c: &CombatState, now: i64) -> (r: i32)
    ensures
        r == powered_effects(effects, *c, now),
{
    let mut effects: i32 = effects;
    if c.invincible_finished != 0 {
        let left = run_powerup(c.invincible_finished, c.invincible_time, now);
        effects = set_powerup_glow(effects, left.0 > now, Effects::RED);
    }
    if c.super_damage_finished != 0 {
        let left = run_powerup(c.super_damage_finished, c.super_time, now);
        effects = set_powerup_glow(effects, left.0 > now, Effects::BLUE);
    }
    effects
}

fn power_fields(v: EntVars, c: &CombatState, now: i64, level: &Level) -> (r: EntVars)
    ensures
        r == powered(v, *c, now, *level),
{
    let mut r: EntVars = v;
    if c.invisible_finished != 0 {
        r.frame = 0;
        r.modelindex = level.modelindex_eyes;
    } else {
        r.modelindex = level.modelindex_player;
    }
    r.items = drop_items(v.items, c, now);
    r.effects = light_up(v.effects, c, now);
    if level.deathmatch == 4 && c.super_damage_finished != 0 && c.super_damage_finished < now {
        r.ammo_cells = 255;
        r.armorvalue = 1;
        r.armortype = 800;
        r.health = 100;
    }
    r
}

impl GameState {
    /// Run a player's powerups for a frame. The dead have none. Each whisper of the ring draws the
    /// pause before the next.
    pub fn check_powerups(&mut self, e: EntId, now: i64) -> (r: Option<Powerups>)
        requires
            old(self).holds(e),
        ensures
            ({
                let p = old(self).at(e);
                if p.v.health <= 0 {
                    r is None && final(self).entities@ == old(self).entities@
                } else {
                    &&& r == Some(told(p.combat, now))
                    &&& final(self).entities@ == put_combat(
                        put_v(old(self).entities@, e, powered(p.v, p.combat, now, old(self).level)),
                        e,
                        powered_timers(p.combat, now, whisper_pause(old(self).rng)),
                    )
                }
            }),
            *final(self) == (GameState {
                entities: final(self).entities,
                rng: if old(self).at(e).v.health > 0 && whispers(old(self).at(e).combat, now) {
                    xorshift(old(self).rng)
                } else {
                    old(self).rng
                },
                ..*old(self)
            }),
    {
        let p = &self.entities.slots[e.0 as usize];
        if p.v.health <= 0 {
            return None;
        }
        let combat = p.combat;
        let v = power_fields(p.v, &combat, now, &self.level);
        let roll: i64 = if combat.invisible_finished != 0 && combat.invisible_sound < now {
            1_000 + self.random() as i64 * 3_000 / 0x100_0000
        } else {
            0
        };
        let ran = run_timers(combat, now, roll);
        self.set_v(e, v);
        self.set_combat(e, ran.0);
        Some(ran.1)
    }
}

/// No powerup outlives its time: after a frame, one that had ended is gone, timer and item bit.
pub proof fn powerups_expire(v: EntVars, c: CombatState, now: i64, roll: i64, level: Level)
    requires
        now > 0,
    ensures
        ({
            let t = powered_timers(c, now, roll);
            let items = powered(v, c, now, level).items;
            &&& t.super_damage_finished == 0 || t.super_damage_finished >= now
            &&& t.invincible_finished == 0 || t.invincible_finished >= now
            &&& t.invisible_finished == 0 || t.invisible_finished >= now
            &&& t.radsuit_finished == 0 || t.radsuit_finished >= now
            &&& ends(c.super_damage_finished, now) ==> items & Items::QUAD == 0
            &&& ends(c.invincible_finished, now) ==> items & Items::INVULNERABILITY == 0
            &&& ends(c.invisible_finished, now) ==> items & Items::INVISIBILITY == 0
            &&& ends(c.radsuit_finished, now) ==> items & Items::SUIT == 0
        }),
{
    let a = v.items;
    let items = powered_items(a, c, now);
    let (r, p, q, s) = (Items::INVISIBILITY, Items::INVULNERABILITY, Items::QUAD, Items::SUIT);
    let b = if ends(c.invisible_finished, now) {
        a & !r
    } else {
        a
    };
    let d = if ends(c.invincible_finished, now) {
        b & !p
    } else {
        b
    };
    let f = if ends(c.super_damage_finished, now) {
        d & !q
    } else {
        d
    };
    lemma_clearing_keeps_clear(b, r, p);
    lemma_clearing_keeps_clear(d, r, q);
    lemma_clearing_keeps_clear(f, r, s);
    lemma_clearing_keeps_clear(d, p, q);
    lemma_clearing_keeps_clear(f, p, s);
    lemma_clearing_keeps_clear(f, q, s);
    lemma_clearing_keeps_clear(a, r, r);
}

proof fn lemma_clearing_keeps_clear(x: i32, bit: i32, other: i32)
    ensures
        (x & !other) & other == 0,
        x & bit == 0 ==> (x & !other) & bit == 0,
{
    assert((x & !other) & other == 0) by (bit_vector);
    assert(x & bit == 0 ==> (x & !other) & bit == 0) by (bit_vector);
}

/// A powerup's message comes once: after it the latch is past, and only flashes follow.
pub proof fn one_message_each(latch: i64, now: i64, later: i64)
    requires
        warning_of(latch, now) == Warning::Message,
        0 < now <= later,
    ensures
        warning_of(latched(latch, now), later) != Warning::Message,
{
}

/// The powerups that warn.
#[derive(Clone, Copy, PartialEq, Eq, Debug, Structural)]
pub enum PowerupKind {
    Invisibility,
    Invulnerability,
    Quad,
    Biosuit,
}

/// The words of a powerup's message.
pub open spec fn warning_words(kind: PowerupKind, deathmatch: i32) -> Seq<char> {
    match kind {
        PowerupKind::Invisibility => "Ring of Shadows magic is fading\n"@,
        PowerupKind::Invulnerability => "Protection is almost burned out\n"@,
        PowerupKind::Quad => if deathmatch == 4 {
            "OctaPower is wearing off\n"@
        } else {
            "Quad Damage is wearing off\n"@
        },
        PowerupKind::Biosuit => "Air supply in Biosuit expiring\n"@,
    }
}

pub open spec fn warning_sound(kind: PowerupKind) -> Sound {
    match kind {
        PowerupKind::Invisibility => Sound::ITEMS_INV2,
        PowerupKind::Invulnerability => Sound::ITEMS_PROTECT2,
        PowerupKind::Quad => Sound::ITEMS_DAMAGE2,
        PowerupKind::Biosuit => Sound::ITEMS_SUIT2,
    }
}

/// The message of a powerup and the sound that goes with it.
pub fn warning_message(kind: PowerupKind, deathmatch: i32) -> (r: (&'static str, Sound))
    ensures
        r.0@ == warning_words(kind, deathmatch),
        r.1 == warning_sound(kind),
{
    match kind {
        PowerupKind::Invisibility => ("Ring of Shadows magic is fading\n", Sound::ITEMS_INV2),
        PowerupKind::Invulnerability => ("Protection is almost burned out\n", Sound::ITEMS_PROTECT2),
        PowerupKind::Quad => if deathmatch == 4 {
            ("OctaPower is wearing off\n", Sound::ITEMS_DAMAGE2)
        } else {
            ("Quad Damage is wearing off\n", Sound::ITEMS_DAMAGE2)
        },
        PowerupKind::Biosuit => ("Air supply in Biosuit expiring\n", Sound::ITEMS_SUIT2),
    }
}

// --- water ---
/// How long a breath lasts.
pub const BREATH: i64 = 12_000;

/// Whether water does anything to a player.
pub open spec fn feels_water(v: EntVars) -> bool {
    v.movetype != MoveType::Noclip && v.health >= 0
}

/// What a frame of breathing does.
#[derive(Clone, Copy, PartialEq, Eq, Debug, Structural)]
pub struct Breath {
    /// When the air runs out, and when the next pain of drowning is due.
    pub air_finished: i64,
    pub pain_finished: i64,
    /// How much the next drowning hurts.
    pub dmg: i32,
    /// The gasp of one who comes up.
    pub gasp: Option<Sound>,
    /// Drowning: how much it hurts now.
    pub drown: Option<i32>,
}

/// The next pain of drowning: two points more each time, from above fifteen back to ten.
pub open spec fn worse(dmg: i32) -> i32 {
    if fitted(dmg + 2) > 15 {
        10
    } else {
        fitted(dmg + 2)
    }
}

pub open spec fn breathed(waterlevel: i32, dmg: i32, c: CombatState, now: i64) -> Breath {
    let idle = Breath {
        air_finished: c.air_finished,
        pain_finished: c.pain_finished,
        dmg,
        gasp: None,
        drown: None,
    };
    if waterlevel != 3 {
        Breath {
            air_finished: bounded(now + BREATH),
            dmg: 2,
            gasp: if c.air_finished < now {
                Some(Sound::PLAYER_GASP2)
            } else if c.air_finished < bounded(now + 9_000) {
                Some(Sound::PLAYER_GASP1)
            } else {
                None
            },
            ..idle
        }
    } else if c.air_finished < now && c.pain_finished < now {
        Breath { pain_finished: bounded(now + 1_000), dmg: worse(dmg), drown: Some(worse(dmg)), ..idle }
    } else {
        idle
    }
}

fn breathe(waterlevel: i32, dmg: i32, c: &CombatState, now: i64) -> (r: Breath)
    ensures
        r == breathed(waterlevel, dmg, *c, now),
{
    let mut r = Breath {
        air_finished: c.air_finished,
        pain_finished: c.pain_finished,
        dmg,
        gasp: None,
        drown: None,
    };
    if waterlevel != 3 {
        if c.air_finished < now {
            r.gasp = Some(Sound::PLAYER_GASP2);
        } else if c.air_finished < after(now, 9_000) {
            r.gasp = Some(Sound::PLAYER_GASP1);
        }
        r.air_finished = after(now, BREATH);
        r.dmg = 2;
    } else if c.air_finished < now && c.pain_finished < now {
        let mut next: i32 = fit(dmg as i64 + 2);
        if next > 15 {
            next = 10;
        }
        r.dmg = next;
        r.pain_finished = after(now, 1_000);
        r.drown = Some(next);
    }
    r
}

/// What lava or slime does to who is in it.
#[derive(Clone, Copy, PartialEq, Eq, Debug, Structural)]
pub struct Burn {
    pub dmgtime: i64,
    pub damage: Option<i64>,
}

pub open spec fn burned(v: EntVars, c: CombatState, now: i64) -> Burn {
    if v.watertype == Content::Lava.code() && c.dmgtime < now {
        Burn {
            dmgtime: if c.radsuit_finished > now {
                bounded(now + 1_000)
            } else {
                bounded(now + 200)
            },
            damage: Some((10 * v.waterlevel) as i64),
        }
    } else if v.watertype == Content::Slime.code() && c.dmgtime < now && c.radsuit_finished < now {
        Burn { dmgtime: bounded(now + 1_000), damage: Some((4 * v.waterlevel) as i64) }
    } else {
        Burn { dmgtime: c.dmgtime, damage: None }
    }
}

fn burn(v: &EntVars, c: &CombatState, now: i64) -> (r: Burn)
    ensures
        r == burned(*v, *c, now),
{
    if v.watertype.is(Content::Lava.as_i32()) && c.dmgtime < now {
        let pause: i64 = if c.radsuit_finished > now {
            1_000
        } else {
            200
        };
        Burn { dmgtime: after(now, pause), damage: Some(10 * v.waterlevel as i64) }
    } else if v.watertype.is(Content::Slime.as_i32()) && c.dmgtime < now && c.radsuit_finished < now {
        Burn { dmgtime: after(now, 1_000), damage: Some(4 * v.waterlevel as i64) }
    } else {
        Burn { dmgtime: c.dmgtime, damage: None }
    }
}

/// The sound of getting into what a player stands in.
pub open spec fn entry_sound(watertype: i32) -> Option<Sound> {
    if watertype == Content::Lava.code() {
        Some(Sound::PLAYER_INLAVA)
    } else if watertype == Content::Water.code() {
        Some(Sound::PLAYER_INH2O)
    } else if watertype == Content::Slime.code() {
        Some(Sound::PLAYER_SLIMBRN2)
    } else {
        None
    }
}

fn enter_sound(watertype: i32) -> (r: Option<Sound>)
    ensures
        r == entry_sound(watertype),
{
    if watertype.is(Content::Lava.as_i32()) {
        Some(Sound::PLAYER_INLAVA)
    } else if watertype.is(Content::Water.as_i32()) {
        Some(Sound::PLAYER_INH2O)
    } else if watertype.is(Content::Slime.as_i32()) {
        Some(Sound::PLAYER_SLIMBRN2)
    } else {
        None
    }
}

/// The next thing a frame in or out of water asks for.
#[derive(Clone, Copy, PartialEq, Eq, Debug, Structural)]
pub enum WaterStep {
    /// Deal this much damage, then go on with the burning.
    Drown { gasp: Option<Sound>, pain: Option<i32> },
    /// Deal this much damage, then go on with the splash.
    Burn { damage: Option<i64> },
    /// Done, with this sound.
    Done { splash: Option<Sound> },
}

/// The entities with the breath of one replaced.
pub open spec fn put_breath(ents: Seq<Entity>, e: EntId, b: Breath) -> Seq<Entity> {
    let p = ents[e.0 as int];
    ents.update(
        e.0 as int,
        Entity {
            mover: MoverState { dmg: b.dmg, ..p.mover },
            combat: CombatState {
                air_finished: b.air_finished,
                pain_finished: b.pain_finished,
                ..p.combat
            },
            ..p
        },
    )
}

impl GameState {
    /// First part of a frame in water: breathing. Gives the gasp and the pain of drowning; nothing
    /// for who does not feel water.
    pub fn water_breathe(&mut self, e: EntId, now: i64) -> (r: WaterStep)
        requires
            old(self).holds(e),
        ensures
            ({
                let p = old(self).at(e);
                let b = breathed(p.v.waterlevel, p.mover.dmg, p.combat, now);
                if feels_water(p.v) {
                    &&& r == (WaterStep::Drown { gasp: b.gasp, pain: b.drown })
                    &&& final(self).entities@ == put_breath(old(self).entities@, e, b)
                } else {
                    r == (WaterStep::Done { splash: None }) && final(self).entities@ == old(self).entities@
                }
            }),
            *final(self) == (GameState { entities: final(self).entities, ..*old(self) }),
    {
        let p = &self.entities.slots[e.0 as usize];
        if p.v.movetype == MoveType::Noclip || p.v.health < 0 {
            return WaterStep::Done { splash: None };
        }
        let b = breathe(p.v.waterlevel, p.mover.dmg, &p.combat, now);
        let i: usize = e.0 as usize;
        self.entities.slots[i].mover.dmg = b.dmg;
        self.entities.slots[i].combat.air_finished = b.air_finished;
        self.entities.slots[i].combat.pain_finished = b.pain_finished;
        assert(self.entities@ =~= put_breath(old(self).entities@, e, b));
        WaterStep::Drown { gasp: b.gasp, pain: b.drown }
    }

    /// Second part: leaving the water, or being burned by it.
    pub fn water_burn(&mut self, e: EntId, now: i64) -> (r: WaterStep)
        requires
            old(self).holds(e),
        ensures
            ({
                let p = old(self).at(e);
                let b = burned(p.v, p.combat, now);
                if p.v.waterlevel == 0 {
                    let wet = p.v.flags & Flags::INWATER != 0;
                    &&& r == (WaterStep::Done {
                        splash: if wet {
                            Some(Sound::MISC_OUTWATER)
                        } else {
                            None
                        },
                    })
                    &&& final(self).entities@ == if wet {
                        put_v(
                            old(self).entities@,
                            e,
                            EntVars { flags: p.v.flags & !Flags::INWATER, ..p.v },
                        )
                    } else {
                        old(self).entities@
                    }
                } else {
                    &&& r == (WaterStep::Burn { damage: b.damage })
                    &&& final(self).entities@ == put_combat(
                        old(self).entities@,
                        e,
                        CombatState { dmgtime: b.dmgtime, ..p.combat },
                    )
                }
            }),
            *final(self) == (GameState { entities: final(self).entities, ..*old(self) }),
    {
        let p = &self.entities.slots[e.0 as usize];
        if p.v.waterlevel == 0 {
            if p.v.flags.has(Flags::INWATER) {
                let mut v = p.v;
                v.flags = v.flags.without(Flags::INWATER);
                self.set_v(e, v);
                return WaterStep::Done { splash: Some(Sound::MISC_OUTWATER) };
            }
            return WaterStep::Done { splash: None };
        }
        let b = burn(&p.v, &p.combat, now);
        let mut combat = p.combat;
        combat.dmgtime = b.dmgtime;
        self.set_combat(e, combat);
        WaterStep::Burn { damage: b.damage }
    }

    /// Last part: who was dry gets wet.
    pub fn water_splash(&mut self, e: EntId) -> (r: WaterStep)
        requires
            old(self).holds(e),
        ensures
            ({
                let p = old(self).at(e);
                if p.v.flags & Flags::INWATER != 0 {
                    r == (WaterStep::Done { splash: None }) && final(self).entities@ == old(self).entities@
                } else {
                    &&& r == (WaterStep::Done { splash: entry_sound(p.v.watertype) })
                    &&& final(self).entities@ == put_combat(
                        put_v(
                            old(self).entities@,
                            e,
                            EntVars { flags: p.v.flags | Flags::INWATER, ..p.v },
                        ),
                        e,
                        CombatState { dmgtime: 0, ..p.combat },
                    )
                }
            }),
            *final(self) == (GameState { entities: final(self).entities, ..*old(self) }),
    {
        let p = &self.entities.slots[e.0 as usize];
        if p.v.flags.has(Flags::INWATER) {
            return WaterStep::Done { splash: None };
        }
        let splash = enter_sound(p.v.watertype);
        let mut v = p.v;
        let mut combat = p.combat;
        v.flags = v.flags.with(Flags::INWATER);
        combat.dmgtime = 0;
        self.set_v(e, v);
        self.set_combat(e, combat);
        WaterStep::Done { splash }
    }
}

/// Who has air does not drown, and who breathes again has a whole breath.
pub proof fn air_saves(waterlevel: i32, dmg: i32, c: CombatState, now: i64)
    ensures
        c.air_finished >= now ==> breathed(waterlevel, dmg, c, now).drown is None,
        waterlevel != 3 ==> breathed(waterlevel, dmg, c, now).drown is None && breathed(
            waterlevel,
            dmg,
            c,
            now,
        ).air_finished == bounded(now + BREATH),
{
}

/// Drowning hurts more and more, but never more than fifteen points at once.
pub proof fn drowning_is_bounded(dmg: i32)
    requires
        2 <= dmg <= 15,
    ensures
        2 < worse(dmg) <= 15,
{
}

/// A biosuit keeps slime off, and lets lava through only once a second.
pub proof fn suits_protect(v: EntVars, c: CombatState, now: i64)
    requires
        c.radsuit_finished > now,
    ensures
        v.watertype == Content::Slime.code() ==> burned(v, c, now).damage is None,
        burned(v, c, now).damage is Some ==> burned(v, c, now).dmgtime == bounded(now + 1_000),
{
}

// --- coming and going ---
/// A player joins under a name.
pub fn client_connect(e: &mut Entity, name: &str)
    ensures
        final(e).in_use,
        final(e).class() == Some("player"@),
        final(e).netname matches Some(n) && n@ == name@,
        *final(e) == (Entity {
            in_use: true,
            classname: final(e).classname,
            netname: final(e).netname,
            ..*old(e)
        }),
{
    e.in_use = true;
    e.classname = Some("player".to_owned());
    e.netname = Some(name.to_owned());
}

/// The name and the score a leaving player is announced with.
pub fn client_disconnect(e: &Entity) -> (r: (&str, i32))
    ensures
        r.0@ == match e.netname {
            Some(n) => n@,
            None => Seq::empty(),
        },
        r.1 == e.v.frags,
{
    match &e.netname {
        Some(n) => (n.as_str(), e.v.frags),
        None => {
            proof {
                reveal_strlit("");
                assert(""@ =~= Seq::<char>::empty());
            }
            ("", e.v.frags)
        },
    }
}

/// Free the slot of a client that left: it counts as no player and no bot any more.
pub fn retire_slot(e: &mut Entity)
    ensures
        !final(e).in_use,
        final(e).classname is None,
        !final(e).bot.is_bot,
        old(e).bot.is_bot ==> final(e).bot.is_blank(),
        !old(e).bot.is_bot ==> final(e).bot == old(e).bot,
        *final(e) == (Entity { in_use: false, classname: None, bot: final(e).bot, ..*old(e) }),
{
    on_disconnect(e);
    e.in_use = false;
    e.classname = None;
}

/// A player's fields on entering the game, before the kit.
pub open spec fn newborn(v: EntVars) -> EntVars {
    EntVars {
        health: 100,
        takedamage: TakeDamage::Aim,
        solid: Solid::SlideBox,
        movetype: MoveType::Walk,
        max_health: 100,
        flags: Flags::CLIENT,
        effects: 0,
        deadflag: DeadFlag::No,
        ..v
    }
}

/// The fields with the kit in hand; where the grapple is handed out it is what the player holds.
pub open spec fn equipped(v: EntVars, parm: Seq<i64>, grapple: bool) -> EntVars {
    let kit = parms_read(parm).applied(newborn(v));
    if grapple {
        EntVars { items: kit.items | Items::GRAPPLE, weapon: Weapon::Grapple, ..kit }
    } else {
        kit
    }
}

fn equip(v: EntVars, parm: &[i64; 16], grapple: bool) -> (r: EntVars)
    ensures
        r == equipped(v, parm@, grapple),
{
    let mut r = EntVars {
        health: 100,
        takedamage: TakeDamage::Aim,
        solid: Solid::SlideBox,
        movetype: MoveType::Walk,
        max_health: 100,
        flags: Flags::CLIENT,
        effects: 0,
        deadflag: DeadFlag::No,
        ..v
    };
    decode_level_parms(&mut r, parm);
    if grapple {
        r.items = r.items.with(Items::GRAPPLE);
        r.weapon = Weapon::Grapple;
    }
    r
}

/// Timers of a new life.
pub open spec fn new_life(c: CombatState, now: i64) -> bool {
    (CombatState { air_finished: 0, attack_finished: 0, ..c }).is_cleared() && c.air_finished == bounded(now + BREATH)
        && c.attack_finished == now
}

fn begin_life(now: i64) -> (r: CombatState)
    ensures
        new_life(r, now),
{
    let mut c = CombatState::cleared();
    c.air_finished = after(now, BREATH);
    c.attack_finished = now;
    c
}

/// The speed cap of a player where the server sets none, in thousandths.
pub const STOCK_MAXSPEED: i32 = 320_000;

/// The speed cap of a player: that of the server where it sets one. Nobody is pinned to the spot.
pub open spec fn capped(sv_maxspeed: i32) -> i32 {
    if sv_maxspeed > 0 {
        sv_maxspeed
    } else {
        STOCK_MAXSPEED
    }
}

pub fn speed_cap(sv_maxspeed: i32) -> (r: i32)
    ensures
        r == capped(sv_maxspeed),
        r > 0,
{
    if sv_maxspeed > 0 {
        sv_maxspeed
    } else {
        STOCK_MAXSPEED
    }
}

/// Set a player up for a new life, with the kit of the parameters and the speed cap of the server.
/// Where it is placed is decided afterwards.
pub fn put_client_in_server(e: &mut Entity, now: i64, parm: &[i64; 16], grapple: bool, sv_maxspeed: i32)
    ensures
        final(e).in_use,
        final(e).class() == Some("player"@),
        new_life(final(e).combat, now),
        *final(e) == (Entity {
            in_use: true,
            maxspeed: capped(sv_maxspeed),
            classname: final(e).classname,
            v: equipped(old(e).v, parm@, grapple),
            combat: final(e).combat,
            mover: MoverState { dmg: 2, pausetime: 0, ..old(e).mover },
            th_pain: Pain::Player,
            th_die: Die::Player,
            ..*old(e)
        }),
{
    e.in_use = true;
    e.maxspeed = speed_cap(sv_maxspeed);
    e.classname = Some("player".to_owned());
    e.v = equip(e.v, parm, grapple);
    e.combat = begin_life(now);
    e.mover.dmg = 2;
    e.mover.pausetime = 0;
    e.th_pain = Pain::Player;
    e.th_die = Die::Player;
}

/// A new life starts alive and vulnerable, whatever was left of the last: no powerup is running.
pub proof fn new_lives_start_clean(v: EntVars, c: CombatState, now: i64, parm: Seq<i64>, grapple: bool)
    requires
        new_life(c, now),
    ensures
        c.super_damage_finished == 0 && c.invincible_finished == 0 && c.invisible_finished == 0 && c.radsuit_finished
            == 0,
        !c.air_jumped,
        equipped(v, parm, grapple).deadflag == DeadFlag::No,
        equipped(v, parm, grapple).takedamage == TakeDamage::Aim,
        parms_kept(fresh_parms(), parm) ==> equipped(v, parm, grapple).health == 100,
{
}

/// Stand a placed player up: the view snaps to where the spawn point looks.
pub fn stand_at_spawn(v: &mut EntVars)
    ensures
        *final(v) == (EntVars { fixangle: true, ..*old(v) }),
{
    v.fixangle = true;
}

/// The ammo bits of the status bar.
pub const AMMO_BITS: i32 = Items::SHELLS | Items::NAILS | Items::ROCKETS | Items::CELLS;

/// A player's fields with the status bar in step with the held weapon.
pub open spec fn shown(v: EntVars) -> EntVars {
    EntVars {
        items: (v.items & !AMMO_BITS) | shown_weapon(v).2,
        currentammo: shown_weapon(v).0,
        weaponframe: 0,
        ..v
    }
}

/// Bring the status bar in step with the held weapon; gives the model to show in hand.
pub fn w_set_current_ammo(e: &mut Entity) -> (r: Option<Model>)
    ensures
        r == shown_weapon(old(e).v).1,
        match r {
            Some(m) => match m.wire_path() {
                Some(p) => final(e).weaponmodel matches Some(w) && w@ == p,
                None => final(e).weaponmodel is None,
            },
            None => final(e).weaponmodel is None,
        },
        *final(e) == (Entity { v: shown(old(e).v), weaponmodel: final(e).weaponmodel, ..*old(e) }),
{
    let (ammo, model, bit) = current_weapon_ammo_state(&e.v);
    let mut v = e.v;
    v.items = v.items.without(AMMO_BITS).with(bit);
    v.currentammo = ammo;
    v.weaponframe = 0;
    e.v = v;
    let mut text: Option<String> = None;
    if let Some(m) = model {
        if let Some(p) = m.path() {
            text = Some(p.to_owned());
        }
    }
    e.weaponmodel = text;
    model
}

// --- spawn points ---
/// A spawn point with a player nearer than this is occupied.
pub const SPOT_RADIUS: u32 = 84_000;

/// Whether a spawn point is free, given the distance from every entity to the nearest player.
pub open spec fn has_room(spot: EntId, nearest: Seq<u32>) -> bool {
    nearest[spot.0 as int] >= SPOT_RADIUS
}

/// The free ones of some spawn points.
pub open spec fn free_of(spots: Seq<EntId>, nearest: Seq<u32>, n: int) -> Seq<EntId>
    decreases n,
{
    if n <= 0 {
        Seq::empty()
    } else if has_room(spots[n - 1], nearest) {
        free_of(spots, nearest, n - 1).push(spots[n - 1])
    } else {
        free_of(spots, nearest, n - 1)
    }
}

/// The spawn points to choose from: the free ones, or all where none is free.
pub open spec fn spawn_pool(spots: Seq<EntId>, nearest: Seq<u32>) -> Seq<EntId> {
    let free = free_of(spots, nearest, spots.len() as int);
    if free.len() == 0 {
        spots
    } else {
        free
    }
}

/// The spawn point that a draw falls on; the world where there is none.
pub open spec fn picked(spots: Seq<EntId>, nearest: Seq<u32>, rng: u32) -> EntId {
    let pool = spawn_pool(spots, nearest);
    if spots.len() == 0 {
        EntId(0)
    } else {
        pool[drawn(rng) * pool.len() / 0x100_0000]
    }
}

proof fn lemma_draw_falls_inside(draw: u32, len: int)
    requires
        draw < 0x100_0000,
        len > 0,
    ensures
        0 <= draw * len / 0x100_0000 < len,
        0 <= draw * len,
        draw * len < 0x100_0000 * len,
{
    assert(0 <= draw * len < 0x100_0000 * len) by (nonlinear_arith)
        requires
            0 <= draw < 0x100_0000,
            len > 0,
    ;
}

/// The entities of a class, in order.
pub open spec fn spots_of(ents: Seq<Entity>, class: Seq<char>) -> Seq<EntId> {
    let found = matching_below(|i: int| ents[i].in_use && ents[i].class() == Some(class), ents.len() as int);
    Seq::new(found.len(), |i: int| EntId(found[i] as u32))
}

/// Where a player spawns.
pub open spec fn spawn_point(ents: Seq<Entity>, nearest: Seq<u32>, rng: u32) -> EntId {
    let spot = picked(spots_of(ents, "info_player_deathmatch"@), nearest, rng);
    let starts = spots_of(ents, "info_player_start"@);
    if spot.0 != EntId::WORLD {
        spot
    } else if starts.len() > 0 {
        starts[0]
    } else {
        EntId(0)
    }
}

/// The generator after a spawn point of a class was chosen: a number is drawn where there is one.
pub open spec fn rng_after(ents: Seq<Entity>, class: Seq<char>, rng: u32) -> u32 {
    if spots_of(ents, class).len() == 0 {
        rng
    } else {
        xorshift(rng)
    }
}

impl GameState {
    fn spots(&self, class: &str) -> (r: Vec<EntId>)
        requires
            self.entities@.len() <= u32::MAX,
        ensures
            r@ == spots_of(self.entities@, class@),
            forall|i: int| 0 <= i < r@.len() ==> (#[trigger] r@[i]).0 < self.entities@.len(),
    {
        let r = self.find_by_classname(class);
        proof {
            let ents = self.entities@;
            let test = |i: int| ents[i].in_use && ents[i].class() == Some(class@);
            let found = matching_below(test, ents.len() as int);
            assert(ids(r@) == found);
            matching_is_exact(test, ents.len() as int, 0);
            assert forall|i: int| 0 <= i < r@.len() implies (#[trigger] r@[i]).0 < ents.len() && r@[i] == EntId(
                found[i] as u32,
            ) by {
                assert(ids(r@)[i] == r@[i].0);
                assert(0 <= found[i] < ents.len());
            }
            assert(r@ =~= spots_of(ents, class@));
        }
        r
    }

    /// Choose a deathmatch spawn point; where the map has none, its first single-player start.
    /// `nearest` is the distance from every entity to the nearest player.
    pub fn select_spawn_point(&mut self, nearest: &Vec<u32>) -> (r: EntId)
        requires
            old(self).entities@.len() <= u32::MAX,
            nearest@.len() == old(self).entities@.len(),
        ensures
            r == spawn_point(old(self).entities@, nearest@, old(self).rng),
            *final(self) == (GameState {
                rng: rng_after(old(self).entities@, "info_player_deathmatch"@, old(self).rng),
                ..*old(self)
            }),
    {
        let spot = self.pick_spawn_of("info_player_deathmatch", nearest);
        if spot.is_some() {
            return spot;
        }
        let starts = self.spots("info_player_start");
        if starts.len() > 0 {
            starts[0]
        } else {
            EntId(0)
        }
    }

    /// Choose a spawn point of a class; the world where the map has none.
    pub fn select_spawn_point_of(&mut self, class: &str, nearest: &Vec<u32>) -> (r: EntId)
        requires
            old(self).entities@.len() <= u32::MAX,
            nearest@.len() == old(self).entities@.len(),
        ensures
            r == picked(spots_of(old(self).entities@, class@), nearest@, old(self).rng),
            *final(self) == (GameState {
                rng: rng_after(old(self).entities@, class@, old(self).rng),
                ..*old(self)
            }),
    {
        self.pick_spawn_of(class, nearest)
    }

    /// Draw among the spawn points of a class, preferring those nobody stands on; the world where
    /// there is none.
    pub fn pick_spawn_of(&mut self, class: &str, nearest: &Vec<u32>) -> (r: EntId)
        requires
            old(self).entities@.len() <= u32::MAX,
            nearest@.len() == old(self).entities@.len(),
        ensures
            r == picked(spots_of(old(self).entities@, class@), nearest@, old(self).rng),
            *final(self) == (GameState {
                rng: rng_after(old(self).entities@, class@, old(self).rng),
                ..*old(self)
            }),
    {
        let spots = self.spots(class);
        if spots.len() == 0 {
            return EntId(0);
        }
        let mut free: Vec<EntId> = Vec::new();
        let mut k: usize = 0;
        while k < spots.len()
            invariant
                k <= spots@.len(),
                free@ == free_of(spots@, nearest@, k as int),
                free@.len() <= k,
                forall|i: int| 0 <= i < spots@.len() ==> (#[trigger] spots@[i]).0 < nearest@.len(),
            decreases spots@.len() - k,
        {
            let spot = spots[k];
            if nearest[spot.0 as usize] >= SPOT_RADIUS {
                free.push(spot);
            }
            k = k + 1;
        }
        let pool: &Vec<EntId> = if free.len() == 0 {
            &spots
        } else {
            &free
        };
        let draw: u32 = self.random();
        proof {
            lemma_draw_falls_inside(draw, pool@.len() as int);
        }
        let at: u128 = draw as u128 * pool.len() as u128 / 0x100_0000;
        pool[at as usize]
    }
}

/// Nobody spawns on an occupied point while another is free.
pub proof fn spawns_prefer_room(spots: Seq<EntId>, nearest: Seq<u32>, rng: u32, k: int)
    requires
        0 <= k < spots.len(),
        has_room(spots[k], nearest),
    ensures
        has_room(picked(spots, nearest, rng), nearest),
{
    lemma_free_points(spots, nearest, spots.len() as int);
    lemma_free_is_found(spots, nearest, spots.len() as int, k);
    let pool = spawn_pool(spots, nearest);
    let x = xorshift(rng);
    assert(x >> 8u32 < 0x100_0000u32) by (bit_vector);
    lemma_draw_falls_inside(drawn(rng), pool.len() as int);
    assert(has_room(pool[drawn(rng) * pool.len() / 0x100_0000], nearest));
}

proof fn lemma_free_points(spots: Seq<EntId>, nearest: Seq<u32>, n: int)
    requires
        n <= spots.len(),
    ensures
        forall|i: int|
            0 <= i < free_of(spots, nearest, n).len() ==> has_room(#[trigger] free_of(spots, nearest, n)[i], nearest),
    decreases n,
{
    if n > 0 {
        lemma_free_points(spots, nearest, n - 1);
        let fewer = free_of(spots, nearest, n - 1);
        let free = free_of(spots, nearest, n);
        assert forall|i: int| 0 <= i < free.len() implies has_room(#[trigger] free[i], nearest) by {
            if i < fewer.len() {
                assert(free[i] == fewer[i]);
            }
        }
    }
}

proof fn lemma_free_is_found(spots: Seq<EntId>, nearest: Seq<u32>, n: int, k: int)
    requires
        0 <= k < n <= spots.len(),
        has_room(spots[k], nearest),
    ensures
        free_of(spots, nearest, n).len() > 0,
    decreases n,
{
    if k < n - 1 {
        lemma_free_is_found(spots, nearest, n - 1, k);
    }
}

// --- before the move ---
/// What a player does before the engine moves it.
#[derive(Clone, Copy, PartialEq, Eq, Debug, Structural)]
pub enum PreThink {
    /// The level is over: look at the scores.
    Intermission,
    /// Not in play.
    Parked,
    /// Rules, water, then life or death.
    Play,
}

pub open spec fn pre_step(intermission: bool, parked: bool) -> PreThink {
    if intermission {
        PreThink::Intermission
    } else if parked {
        PreThink::Parked
    } else {
        PreThink::Play
    }
}

/// Start a player's frame. The manner of a past death is forgotten.
pub fn player_pre_think(e: &mut Entity, intermission: bool, parked: bool) -> (r: PreThink)
    ensures
        r == pre_step(intermission, parked),
        *final(e) == if r == PreThink::Play {
            Entity { deathtype: None, ..*old(e) }
        } else {
            *old(e)
        },
{
    if intermission {
        return PreThink::Intermission;
    }
    if parked {
        return PreThink::Parked;
    }
    e.deathtype = None;
    PreThink::Play
}

/// Whether the level ends: its time is up or somebody has enough frags. Team matches have limits of
/// their own.
pub fn check_rules(level: &Level, match_mode: bool, seconds: i32, frags: i32) -> (r: bool)
    ensures
        r == level_over(*level, match_mode, seconds, frags),
        r == (!match_mode && ((level.timelimit != 0 && seconds >= level.timelimit) || (level.fraglimit != 0 && frags
            >= level.fraglimit))),
{
    if match_mode {
        return false;
    }
    (level.timelimit != 0 && seconds >= level.timelimit) || (level.fraglimit != 0 && frags >= level.fraglimit)
}

/// Where a player stands between life and death.
#[derive(Clone, Copy, PartialEq, Eq, Debug, Structural)]
pub enum Life {
    Alive,
    Dying,
    Dead,
}

pub fn life_of(v: &EntVars) -> (r: Life)
    ensures
        r == life(v.deadflag),
        r == match v.deadflag {
            DeadFlag::No => Life::Alive,
            DeadFlag::Dying => Life::Dying,
            DeadFlag::Dead => Life::Dead,
            DeadFlag::Respawnable => Life::Dead,
        },
{
    match v.deadflag {
        DeadFlag::No => Life::Alive,
        DeadFlag::Dying => Life::Dying,
        DeadFlag::Dead => Life::Dead,
        DeadFlag::Respawnable => Life::Dead,
    }
}

/// Timers when a player is about to move: the ground rearms the jump in the air, and a rising lift
/// is remembered.
pub open spec fn ready(c: CombatState, v: EntVars, lift_vz: i32, now: i64) -> CombatState {
    CombatState {
        air_jumped: c.air_jumped && v.flags & Flags::ONGROUND == 0,
        lift_vz: if lift_vz > 0 {
            lift_vz
        } else {
            c.lift_vz
        },
        lift_time: if lift_vz > 0 {
            now
        } else {
            c.lift_time
        },
        ..c
    }
}

/// Remember the lift a player rides.
pub fn track_lift(c: &mut CombatState, lift_vz: i32, now: i64)
    ensures
        *final(c) == if lift_vz > 0 {
            CombatState { lift_vz, lift_time: now, ..*old(c) }
        } else {
            *old(c)
        },
{
    if lift_vz > 0 {
        c.lift_vz = lift_vz;
        c.lift_time = now;
    }
}

impl GameState {
    /// Get a living player ready to move; says whether it wants to jump.
    pub fn ready_to_move(&mut self, e: EntId, lift_vz: i32, now: i64) -> (jump: bool)
        requires
            old(self).holds(e),
        ensures
            jump == old(self).at(e).v.button2,
            ({
                let p = old(self).at(e);
                let timed = put_combat(old(self).entities@, e, ready(p.combat, p.v, lift_vz, now));
                final(self).entities@ == if jump {
                    timed
                } else {
                    put_v(timed, e, EntVars { flags: p.v.flags | Flags::JUMPRELEASED, ..p.v })
                }
            }),
            *final(self) == (GameState { entities: final(self).entities, ..*old(self) }),
    {
        let p = &self.entities.slots[e.0 as usize];
        let mut v = p.v;
        let mut combat = p.combat;
        if v.flags.has(Flags::ONGROUND) {
            combat.air_jumped = false;
        }
        track_lift(&mut combat, lift_vz, now);
        self.set_combat(e, combat);
        if v.button2 {
            return true;
        }
        v.flags = v.flags.with(Flags::JUMPRELEASED);
        self.set_v(e, v);
        false
    }
}

/// Whether a teleporter still holds a player.
pub fn held_still(e: &Entity, now: i64) -> (r: bool)
    ensures
        r == (now < e.mover.pausetime),
{
    now < e.mover.pausetime
}

/// Whether a player whose weapon ran dry takes another. The axe and the grapple need no ammo.
pub fn out_of_ammo(e: &Entity, now: i64) -> (r: bool)
    ensures
        r == ran_dry(*e, now),
        r == (now > e.combat.attack_finished && e.v.currentammo == 0 && e.v.weapon != Weapon::Axe && e.v.weapon
            != Weapon::Grapple),
{
    now > e.combat.attack_finished && e.v.currentammo == 0 && e.v.weapon != Weapon::Axe && e.v.weapon
        != Weapon::Grapple
}

// --- jumping ---
/// What a jump depends on beyond the player.
#[derive(Clone, Copy, PartialEq, Eq, Debug, Structural)]
pub struct JumpFacts {
    /// Lifts give a boost.
    pub elevator: bool,
    /// There is a wall to kick off.
    pub wall: bool,
    /// A second jump in the air is allowed.
    pub double: bool,
    /// The floor is just below the feet.
    pub floor_close: bool,
}

#[derive(Clone, Copy, PartialEq, Eq, Debug, Structural)]
pub enum Jump {
    Nothing,
    /// Swim up, with this sound.
    Swim(Sound),
    /// Off a rising lift, with its speed added.
    Elevator,
    /// Off a wall.
    Wall,
    /// In the air.
    Air,
    /// From the ground.
    Ground,
}

/// How long after riding a rising lift a jump still gets its boost.
pub const LIFT_GRACE: i64 = 400;

/// Whether a jump now is one off a lift.
pub open spec fn rides(c: CombatState, now: i64, elevator: bool) -> bool {
    elevator && c.lift_vz > 0 && now - c.lift_time <= LIFT_GRACE
}

/// The sound of a swimming stroke: either of two.
pub open spec fn stroke(rng: u32) -> Sound {
    if drawn(rng) < 0x80_0000 {
        Sound::MISC_WATER1
    } else {
        Sound::MISC_WATER2
    }
}

pub open spec fn jump_of(v: EntVars, c: CombatState, now: i64, f: JumpFacts, rng: u32) -> Jump {
    if v.flags & Flags::WATERJUMP != 0 {
        Jump::Nothing
    } else if v.waterlevel >= 2 {
        if c.swim_flag < now {
            Jump::Swim(stroke(rng))
        } else {
            Jump::Nothing
        }
    } else if v.flags & Flags::JUMPRELEASED == 0 {
        Jump::Nothing
    } else if rides(c, now, f.elevator) {
        Jump::Elevator
    } else if v.flags & Flags::ONGROUND != 0 {
        Jump::Ground
    } else if f.wall {
        Jump::Wall
    } else if c.air_jumped || !f.double || f.floor_close {
        Jump::Nothing
    } else {
        Jump::Air
    }
}

/// Timers after a jump.
pub open spec fn jumped(c: CombatState, j: Jump, now: i64) -> CombatState {
    match j {
        Jump::Swim(_) => CombatState { swim_flag: bounded(now + 1_000), ..c },
        Jump::Elevator => CombatState { lift_time: 0, lift_vz: 0, ..c },
        Jump::Air => CombatState { air_jumped: true, ..c },
        _ => c,
    }
}

/// Whether a jump leaves the ground: the button must then be released before the next.
pub open spec fn leaps(j: Jump) -> bool {
    j == Jump::Elevator || j == Jump::Wall || j == Jump::Air || j == Jump::Ground
}

pub open spec fn leapt(v: EntVars, j: Jump) -> EntVars {
    if leaps(j) {
        EntVars { flags: v.flags & !Flags::JUMPRELEASED, button2: false, ..v }
    } else {
        v
    }
}

/// Whether a jump off a lift is on; it uses the memory of the lift up.
pub fn try_elevator_jump(c: &mut CombatState, now: i64, elevator: bool) -> (r: bool)
    ensures
        r == rides(*old(c), now, elevator),
        *final(c) == if r {
            CombatState { lift_time: 0, lift_vz: 0, ..*old(c) }
        } else {
            *old(c)
        },
{
    if !elevator || c.lift_vz <= 0 || since(now, c.lift_time) > LIFT_GRACE as i128 {
        return false;
    }
    c.lift_time = 0;
    c.lift_vz = 0;
    true
}

/// The upward speed of a jump off a lift, in millionths, `mult` being the boost in thousandths.
pub fn elevator_speed(lift_vz: i32, mult: i32) -> (r: i64)
    ensures
        r == lift_vz * mult + 270_000_000,
{
    assert(-0x8000_0000 * 0x8000_0000 <= lift_vz * mult <= 0x8000_0000 * 0x8000_0000) by (nonlinear_arith)
        requires
            -0x8000_0000 <= lift_vz < 0x8000_0000,
            -0x8000_0000 <= mult < 0x8000_0000,
    ;
    lift_vz as i64 * mult as i64 + 270_000_000
}

fn leap(v: EntVars) -> (r: EntVars)
    ensures
        r == (EntVars { flags: v.flags & !Flags::JUMPRELEASED, button2: false, ..v }),
{
    EntVars { flags: v.flags.without(Flags::JUMPRELEASED), button2: false, ..v }
}

fn decide_jump(v: &EntVars, c: &mut CombatState, now: i64, f: &JumpFacts) -> (r: Jump)
    requires
        !swims(*v, *old(c), now),
    ensures
        forall|rng: u32| r == #[trigger] jump_of(*v, *old(c), now, *f, rng),
        *final(c) == jumped(*old(c), r, now),
{
    if v.flags.has(Flags::WATERJUMP) || v.waterlevel >= 2 {
        return Jump::Nothing;
    }
    if !v.flags.has(Flags::JUMPRELEASED) {
        return Jump::Nothing;
    }
    if try_elevator_jump(c, now, f.elevator) {
        return Jump::Elevator;
    }
    if v.flags.has(Flags::ONGROUND) {
        return Jump::Ground;
    }
    if f.wall {
        return Jump::Wall;
    }
    if c.air_jumped || !f.double || f.floor_close {
        return Jump::Nothing;
    }
    c.air_jumped = true;
    Jump::Air
}

/// Whether a press of the button is a swimming stroke.
pub open spec fn swims(v: EntVars, c: CombatState, now: i64) -> bool {
    v.flags & Flags::WATERJUMP == 0 && v.waterlevel >= 2 && c.swim_flag < now
}

impl GameState {
    /// A player presses jump. Only a swimming stroke draws a number, for its sound.
    pub fn player_jump(&mut self, e: EntId, now: i64, f: &JumpFacts) -> (r: Jump)
        requires
            old(self).holds(e),
        ensures
            ({
                let p = old(self).at(e);
                &&& r == jump_of(p.v, p.combat, now, *f, old(self).rng)
                &&& final(self).entities@ == put_v(
                    put_combat(old(self).entities@, e, jumped(p.combat, r, now)),
                    e,
                    leapt(p.v, r),
                )
                &&& *final(self) == (GameState {
                    entities: final(self).entities,
                    rng: if swims(p.v, p.combat, now) {
                        xorshift(old(self).rng)
                    } else {
                        old(self).rng
                    },
                    ..*old(self)
                })
            }),
    {
        let p = &self.entities.slots[e.0 as usize];
        let mut v = p.v;
        let mut combat = p.combat;
        let r = if !v.flags.has(Flags::WATERJUMP) && v.waterlevel >= 2 && combat.swim_flag < now {
            combat.swim_flag = after(now, 1_000);
            if self.random() < 0x80_0000 {
                Jump::Swim(Sound::MISC_WATER1)
            } else {
                Jump::Swim(Sound::MISC_WATER2)
            }
        } else {
            decide_jump(&v, &mut combat, now, f)
        };
        match r {
            Jump::Elevator | Jump::Wall | Jump::Air | Jump::Ground => {
                v = leap(v);
            },
            _ => {},
        }
        self.set_combat(e, combat);
        self.set_v(e, v);
        r
    }
}

/// Holding the button never jumps twice: after a leap, the next press does nothing until the button
/// was released. (Swimming goes on.)
pub proof fn jumps_need_a_release(
    v: EntVars,
    c: CombatState,
    now: i64,
    f: JumpFacts,
    rng: u32,
    c2: CombatState,
    later: i64,
    g: JumpFacts,
    rng2: u32,
)
    requires
        leaps(jump_of(v, c, now, f, rng)),
    ensures
        jump_of(leapt(v, jump_of(v, c, now, f, rng)), c2, later, g, rng2) == Jump::Nothing,
{
    let flags = v.flags;
    let bit = Flags::JUMPRELEASED;
    let water = Flags::WATERJUMP;
    assert((flags & !bit) & bit == 0) by (bit_vector);
    assert(flags & water == 0 ==> (flags & !bit) & water == 0) by (bit_vector);
}

/// There is one jump in the air between two touches of the ground.
pub proof fn one_air_jump(v: EntVars, c: CombatState, now: i64, f: JumpFacts, rng: u32)
    requires
        c.air_jumped,
    ensures
        jump_of(v, c, now, f, rng) != Jump::Air,
{
}

/// A ride gives one boost: after it no jump is one off a lift until another lift is ridden.
pub proof fn one_boost_per_ride(c: CombatState, now: i64, later: i64, elevator: bool)
    ensures
        !rides(jumped(c, Jump::Elevator, now), later, elevator),
{
}

/// A mover as seen by who may ride it: its rise in thousandths of a unit per second, its top and its
/// footprint in thousandths of a unit.
#[derive(Clone, Copy, PartialEq, Eq, Debug, Structural)]
pub struct Lift {
    pub id: EntId,
    /// A live entity that pushes.
    pub pushes: bool,
    pub rise: i32,
    pub top: i32,
    pub min_x: i32,
    pub min_y: i32,
    pub max_x: i32,
    pub max_y: i32,
}

/// Whether a mover carries a player whose feet are at the given place: its top is at most 48 units
/// below or 24 above the feet, and they are over it or within 16 units.
pub open spec fn carries(l: Lift, e: EntId, x: i32, y: i32, feet: i32) -> bool {
    &&& l.id != e && l.pushes
    &&& -24_000 <= feet - l.top <= 48_000
    &&& l.min_x - 16_000 <= x <= l.max_x + 16_000
    &&& l.min_y - 16_000 <= y <= l.max_y + 16_000
}

fn carried(l: &Lift, e: EntId, x: i32, y: i32, feet: i32) -> (r: bool)
    ensures
        r == carries(*l, e, x, y, feet),
{
    let above: i64 = feet as i64 - l.top as i64;
    let (x, y): (i64, i64) = (x as i64, y as i64);
    l.id != e && l.pushes && above >= -24_000 && above <= 48_000 && x >= l.min_x as i64 - 16_000 && x <= l.max_x as i64
        + 16_000 && y >= l.min_y as i64 - 16_000 && y <= l.max_y as i64 + 16_000
}

/// The speed of the fastest rising mover that carries a player; zero where none does.
pub open spec fn is_best_rise(lifts: Seq<Lift>, e: EntId, x: i32, y: i32, feet: i32, n: int, r: i32) -> bool {
    &&& r >= 0
    &&& forall|i: int| 0 <= i < n && carries(lifts[i], e, x, y, feet) ==> (#[trigger] lifts[i]).rise <= r
    &&& r > 0 ==> exists|i: int| 0 <= i < n && carries(lifts[i], e, x, y, feet) && (#[trigger] lifts[i]).rise == r
}

pub fn lift_under_player(lifts: &Vec<Lift>, e: EntId, x: i32, y: i32, feet: i32) -> (r: i32)
    ensures
        is_best_rise(lifts@, e, x, y, feet, lifts@.len() as int, r),
{
    let mut best: i32 = 0;
    let mut k: usize = 0;
    while k < lifts.len()
        invariant
            k <= lifts@.len(),
            is_best_rise(lifts@, e, x, y, feet, k as int, best),
        decreases lifts@.len() - k,
    {
        let l = lifts[k];
        if l.rise > best && carried(&l, e, x, y, feet) {
            best = l.rise;
            assert(lifts@[k as int].rise == best);
        }
        k = k + 1;
    }
    best
}

/// The codes of one whole and of the steepest lean of a wall: of numbers that are not negative, the
/// codes of single precision order as the numbers do.
pub const WHOLE: u32 = 0x3f80_0000;

pub const MAX_FLOORNESS: u32 = 0x3f33_3333;

/// The slowest run that finds a wall to kick.
pub const MIN_KICK_RUN: u32 = 30_000;

/// The least speed of a kick off a wall, outward and up.
pub const KICK: i64 = 270_000;

/// One probe for a wall.
#[derive(Clone, Copy, PartialEq, Eq, Debug, Structural)]
pub struct WallProbe {
    /// How far it got, as the code of a share of its reach.
    pub share: u32,
    /// How far what it met leans, as the code of the height of its normal.
    pub lean: u32,
    /// Whether that normal points anywhere level.
    pub outward: bool,
}

pub open spec fn is_wall(p: WallProbe) -> bool {
    p.lean <= MAX_FLOORNESS
}

/// The first of the nearest walls met within reach.
pub open spec fn is_nearest(probes: Seq<WallProbe>, r: Option<usize>, n: int) -> bool {
    match r {
        Some(i) => {
            &&& i < n && is_wall(probes[i as int]) && probes[i as int].share < WHOLE
            &&& forall|j: int|
                0 <= j < n && is_wall(#[trigger] probes[j]) ==> probes[j].share >= probes[i as int].share && (j < i
                    ==> probes[j].share > probes[i as int].share)
        },
        None => forall|j: int| 0 <= j < n && is_wall(#[trigger] probes[j]) ==> probes[j].share >= WHOLE,
    }
}

/// The nearest wall, if any was met.
fn nearest_wall(probes: &Vec<WallProbe>) -> (r: Option<usize>)
    ensures
        is_nearest(probes@, r, probes@.len() as int),
{
    let mut best: u32 = WHOLE;
    let mut wall: Option<usize> = None;
    let mut k: usize = 0;
    while k < probes.len()
        invariant
            k <= probes@.len(),
            is_nearest(probes@, wall, k as int),
            best == match wall {
                Some(i) => probes@[i as int].share,
                None => WHOLE,
            },
        decreases probes@.len() - k,
    {
        let p = probes[k];
        if p.share < best && p.lean <= MAX_FLOORNESS {
            best = p.share;
            wall = Some(k);
        }
        k = k + 1;
    }
    wall
}

/// The wall to kick off in the air, if kicking is on and the player moves: the nearest of those the
/// probes ahead and to both sides met.
pub fn try_wall_jump(enabled: bool, speed: u32, probes: &Vec<WallProbe>) -> (r: Option<usize>)
    ensures
        !enabled || speed < MIN_KICK_RUN ==> r is None,
        enabled && speed >= MIN_KICK_RUN ==> exists|near: Option<usize>| #[trigger]
            is_nearest(probes@, near, probes@.len() as int) && r == match near {
                Some(i) if probes@[i as int].outward => Some(i),
                _ => None,
            },
{
    if !enabled || speed < MIN_KICK_RUN {
        return None;
    }
    let near = nearest_wall(probes);
    assert(is_nearest(probes@, near, probes@.len() as int));
    match near {
        Some(i) => if probes[i].outward {
            Some(i)
        } else {
            None
        },
        None => None,
    }
}

/// How fast a kick sends a player off a wall that it was approaching at `-into`: as fast as it came,
/// and never slower than a kick.
pub fn kick_out(into: i32) -> (r: i64)
    ensures
        r == kicked(into as int),
        r == if -into > KICK {
            -into as int
        } else {
            KICK as int
        },
{
    let back: i64 = -(into as i64);
    if back > KICK {
        back
    } else {
        KICK
    }
}

/// There is at most one nearest wall.
pub proof fn the_nearest_wall_is_one(probes: Seq<WallProbe>, a: Option<usize>, b: Option<usize>)
    requires
        is_nearest(probes, a, probes.len() as int),
        is_nearest(probes, b, probes.len() as int),
    ensures
        a == b,
{
    if a is Some && b is Some {
        let i = a->0;
        let j = b->0;
        assert(is_wall(probes[i as int]) && is_wall(probes[j as int]));
    } else if a is Some {
        assert(is_wall(probes[a->0 as int]));
    } else if b is Some {
        assert(is_wall(probes[b->0 as int]));
    }
}

// --- after the move ---
/// How a player came down.
#[derive(Clone, Copy, PartialEq, Eq, Debug, Structural)]
pub enum Landing {
    Soft,
    /// Into water.
    Splash,
    /// Hard enough to hear.
    Thud,
    /// Hard enough to hurt, by five points.
    Hurt,
}

pub open spec fn landing_of(v: EntVars, c: CombatState) -> Landing {
    if c.jump_flag >= -300_000 || v.flags & Flags::ONGROUND == 0 {
        Landing::Soft
    } else if v.watertype == Content::Water.code() {
        Landing::Splash
    } else if c.jump_flag < -650_000 {
        Landing::Hurt
    } else {
        Landing::Thud
    }
}

/// Whether the frame of a player goes on after the move; the dead and the parked do nothing.
pub fn player_post_think(e: &Entity, parked: bool) -> (r: Option<Landing>)
    ensures
        r == if parked || e.v.deadflag != DeadFlag::No {
            None
        } else {
            Some(landing_of(e.v, e.combat))
        },
{
    if parked || e.v.deadflag != DeadFlag::No {
        return None;
    }
    if e.combat.jump_flag < -300_000 && e.v.flags.has(Flags::ONGROUND) {
        if e.v.watertype.is(Content::Water.as_i32()) {
            Some(Landing::Splash)
        } else if e.combat.jump_flag < -650_000 {
            Some(Landing::Hurt)
        } else {
            Some(Landing::Thud)
        }
    } else {
        Some(Landing::Soft)
    }
}

/// Note how fast a player falls, for the landing.
pub fn note_fall(c: &mut CombatState, vz: i32)
    ensures
        *final(c) == (CombatState { jump_flag: vz, ..*old(c) }),
{
    c.jump_flag = vz;
}

/// Water breaks any fall.
pub proof fn water_breaks_falls(v: EntVars, c: CombatState)
    requires
        v.watertype == Content::Water.code(),
    ensures
        landing_of(v, c) != Landing::Hurt,
{
}

// --- death ---
/// What a dead player's frame asks for.
#[derive(Clone, Copy, PartialEq, Eq, Debug, Structural)]
pub enum DeathStep {
    /// Wait for the buttons.
    Wait,
    /// The buttons are up: the next press respawns.
    Ready,
    /// A press came; the mode holds the player back.
    Held,
    Respawn,
}

pub open spec fn presses(v: EntVars) -> bool {
    v.button0 || v.button1 || v.button2
}

pub open spec fn death_step(v: EntVars, allowed: bool) -> DeathStep {
    if v.deadflag == DeadFlag::Dead {
        if presses(v) {
            DeathStep::Wait
        } else {
            DeathStep::Ready
        }
    } else if !presses(v) {
        DeathStep::Wait
    } else if allowed {
        DeathStep::Respawn
    } else {
        DeathStep::Held
    }
}

/// A dead player waits for the buttons to be released and pressed again.
pub fn player_death_think(v: &mut EntVars, allowed: bool) -> (r: DeathStep)
    ensures
        *final(v) == waited_dead(*old(v), death_step(*old(v), allowed)),
        r == death_step(*old(v), allowed),
        *final(v) == match r {
            DeathStep::Wait => *old(v),
            DeathStep::Ready => EntVars { deadflag: DeadFlag::Respawnable, ..*old(v) },
            DeathStep::Held | DeathStep::Respawn => EntVars {
                button0: false,
                button1: false,
                button2: false,
                ..*old(v)
            },
        },
{
    let pressed = v.button0 || v.button1 || v.button2;
    if v.deadflag == DeadFlag::Dead {
        if pressed {
            return DeathStep::Wait;
        }
        v.deadflag = DeadFlag::Respawnable;
        return DeathStep::Ready;
    }
    if !pressed {
        return DeathStep::Wait;
    }
    v.button0 = false;
    v.button1 = false;
    v.button2 = false;
    if allowed {
        DeathStep::Respawn
    } else {
        DeathStep::Held
    }
}

/// Nobody respawns by holding a button through death.
pub proof fn respawns_need_a_release(v: EntVars, allowed: bool)
    requires
        v.deadflag == DeadFlag::Dead,
    ensures
        death_step(v, allowed) != DeathStep::Respawn,
{
}

/// Come back: the kit of a new player, and a new life.
pub fn respawn(e: &mut Entity, now: i64, parm: &mut [i64; 16], grapple: bool, sv_maxspeed: i32)
    ensures
        parms_kept(fresh_parms(), final(parm)@),
        forall|i: int| 9 <= i < 16 ==> #[trigger] final(parm)@[i] == old(parm)@[i],
        final(e).class() == Some("player"@),
        new_life(final(e).combat, now),
        *final(e) == (Entity {
            in_use: true,
            maxspeed: capped(sv_maxspeed),
            classname: final(e).classname,
            v: equipped(old(e).v, final(parm)@, grapple),
            combat: final(e).combat,
            mover: MoverState { dmg: 2, pausetime: 0, ..old(e).mover },
            th_pain: Pain::Player,
            th_die: Die::Player,
            ..*old(e)
        }),
{
    set_new_parms(parm);
    put_client_in_server(e, now, parm, grapple, sv_maxspeed);
}

/// A player gives up: two frags lost, and seen again as a player.
pub fn client_kill(v: &mut EntVars, level: &Level)
    ensures
        *final(v) == (EntVars {
            modelindex: level.modelindex_player,
            frags: fitted(old(v).frags - 2),
            ..*old(v)
        }),
{
    v.modelindex = level.modelindex_player;
    v.frags = fit(v.frags as i64 - 2);
}

/// A console command that the game answers.
#[derive(Clone, Copy, PartialEq, Eq, Debug, Structural)]
pub enum ClientCommand {
    Kill,
    /// Start a team match.
    Start,
    /// Left to the engine.
    Unknown,
}

pub fn client_command(cmd: &str) -> (r: ClientCommand)
    ensures
        r == if cmd@ == "kill"@ {
            ClientCommand::Kill
        } else if cmd@ == "start"@ {
            ClientCommand::Start
        } else {
            ClientCommand::Unknown
        },
{
    if same_text(cmd, "kill") {
        ClientCommand::Kill
    } else if same_text(cmd, "start") {
        ClientCommand::Start
    } else {
        ClientCommand::Unknown
    }
}

// --- what a life promises ---
/// A newcomer has the axe and the shotgun, twenty-five shells and full health, and nothing else.
pub proof fn newcomers_start_with_a_shotgun()
    ensures
        fresh_parms().items == 4097,
        fresh_parms().weapon == 1,
        fresh_parms().health == 100,
        fresh_parms().shells == 25,
        fresh_parms().nails == 0 && fresh_parms().rockets == 0 && fresh_parms().cells == 0,
        fresh_parms().armorvalue == 0 && fresh_parms().armortype == 0,
{
    assert(1i32 | (1i32 << 12) == 4097) by (bit_vector);
}

/// Who leaves a level dead starts the next one like a newcomer. Who leaves it alive takes along what
/// they hold, but for keys and powerups: health between fifty and a hundred, at least twenty-five
/// shells.
pub proof fn levels_are_left_with_what_is_held(v: EntVars, bit: i32)
    ensures
        ({
            let p = change_parms(v);
            &&& v.health <= 0 ==> p == fresh_parms()
            &&& v.health > 0 ==> {
                &&& v.health < 50 ==> p.health == 50
                &&& v.health > 100 ==> p.health == 100
                &&& 50 <= v.health <= 100 ==> p.health == v.health
                &&& v.ammo_shells < 25 ==> p.shells == 25
                &&& v.ammo_shells >= 25 ==> p.shells == v.ammo_shells
                &&& p.nails == v.ammo_nails && p.rockets == v.ammo_rockets && p.cells == v.ammo_cells
                &&& p.armorvalue == v.armorvalue && p.armortype == v.armortype
                &&& p.weapon == v.weapon.bit()
                &&& p.items & Items::KEY1 == 0 && p.items & Items::KEY2 == 0
                &&& p.items & Items::INVISIBILITY == 0 && p.items & Items::INVULNERABILITY == 0
                &&& p.items & Items::SUIT == 0 && p.items & Items::QUAD == 0
                &&& bit & (Items::KEY1 | Items::KEY2 | Items::INVISIBILITY | Items::INVULNERABILITY | Items::SUIT
                    | Items::QUAD) == 0 ==> p.items & bit == v.items & bit
            }
        }),
{
    let items = v.items;
    let left: i32 = (1i32 << 17) | (1i32 << 18) | (1i32 << 19) | (1i32 << 20) | (1i32 << 21) | (1i32 << 22);
    assert({
        let left: i32 = (1i32 << 17) | (1i32 << 18) | (1i32 << 19) | (1i32 << 20) | (1i32 << 21) | (1i32 << 22);
        let kept = items & !left;
        &&& kept & (1i32 << 17) == 0 && kept & (1i32 << 18) == 0 && kept & (1i32 << 19) == 0
        &&& kept & (1i32 << 20) == 0 && kept & (1i32 << 21) == 0 && kept & (1i32 << 22) == 0
        &&& (bit & left == 0 ==> kept & bit == items & bit)
    }) by (bit_vector);
}

/// The kept values have their places, and come back to where they were.
pub proof fn kits_keep_their_places(p: PlayerParms, parm: Seq<i64>, v: EntVars)
    requires
        parms_kept(p, parm),
    ensures
        parm[0] == p.items && parm[1] == p.health && parm[2] == p.armorvalue && parm[3] == p.shells && parm[4] == p.nails,
        parm[5] == p.rockets && parm[6] == p.cells && parm[7] == p.weapon && parm[8] == 100 * p.armortype,
        ({
            let w = parms_read(parm).applied(v);
            &&& w.items == p.items && w.health == p.health && w.armorvalue == p.armorvalue && w.armortype == p.armortype
            &&& w.ammo_shells == p.shells && w.ammo_nails == p.nails && w.ammo_rockets == p.rockets && w.ammo_cells
                == p.cells
            &&& w.weapon == Weapon::of_bit(p.weapon)
            &&& w.max_health == v.max_health && w.deadflag == v.deadflag && w.flags == v.flags
        }),
{
    parms_round_trip(p, parm);
}

/// A powerup warns in its last three seconds: with a message the first time, then with a flash each
/// second; when its time is over it is taken away.
pub proof fn powerups_warn_before_they_end(finished: i64, latch: i64, now: i64)
    requires
        0 < now <= i64::MAX - 3_000,
    ensures
        ({
            let (f, l, w) = ran(finished, latch, now);
            &&& finished == 0 ==> f == 0 && l == latch && w == Warning::Silent
            &&& finished != 0 && finished < now ==> f == 0 && l == 0
            &&& finished >= now + 3_000 ==> f == finished && l == latch && w == Warning::Silent
            &&& now <= finished < now + 3_000 ==> {
                &&& f == finished
                &&& latch == 1_000 ==> w == Warning::Message && l == now + 1_000
                &&& latch != 1_000 && latch < now ==> w == Warning::Flash && l == now + 1_000
                &&& latch != 1_000 && latch >= now ==> w == Warning::Silent && l == latch
            }
            &&& ends(finished, now) <==> finished != 0 && finished < now
        }),
{
}

/// Each powerup runs by its own timers, the suit brings air, and the ring whispers until it is silent
/// for a while.
pub proof fn powerups_have_their_own_timers(c: CombatState, now: i64, roll: i64)
    requires
        0 < now <= i64::MAX - 12_000,
        0 <= roll <= 12_000,
    ensures
        ({
            let t = powered_timers(c, now, roll);
            let p = told(c, now);
            &&& (t.invisible_finished, t.invisible_time, p.ring) == ran(c.invisible_finished, c.invisible_time, now)
            &&& (t.invincible_finished, t.invincible_time, p.pentagram) == ran(
                c.invincible_finished,
                c.invincible_time,
                now,
            )
            &&& (t.super_damage_finished, t.super_time, p.quad) == ran(c.super_damage_finished, c.super_time, now)
            &&& (t.radsuit_finished, t.rad_time, p.biosuit) == ran(c.radsuit_finished, c.rad_time, now)
            &&& c.radsuit_finished != 0 ==> t.air_finished == now + 12_000
            &&& c.radsuit_finished == 0 ==> t.air_finished == c.air_finished
            &&& p.whisper <==> c.invisible_finished != 0 && c.invisible_sound < now
            &&& p.whisper ==> t.invisible_sound == now + roll
            &&& !p.whisper ==> t.invisible_sound == c.invisible_sound
            &&& t.attack_finished == c.attack_finished && t.pain_finished == c.pain_finished
        }),
{
}

/// The ring pauses between one and four seconds.
pub proof fn whispers_pause(rng: u32)
    ensures
        1_000 <= whisper_pause(rng) < 4_000,
{
    crate::game::draws_have_twenty_four_bits(rng);
}

/// What powerups show: eyes in place of the player under the ring, a red glow under the pentagram, a
/// blue one under the quad; and their items last as long as they do. Where the quad is an octa, its end
/// brings armor, cells and health.
pub proof fn powerups_show(v: EntVars, c: CombatState, now: i64, level: Level, bit: i32)
    requires
        now > 0,
    ensures
        ({
            let p = powered(v, c, now, level);
            let octa = level.deathmatch == 4 && ends(c.super_damage_finished, now);
            &&& c.invisible_finished != 0 ==> p.modelindex == level.modelindex_eyes && p.frame == 0
            &&& c.invisible_finished == 0 ==> p.modelindex == level.modelindex_player && p.frame == v.frame
            &&& octa ==> p.ammo_cells == 255 && p.armorvalue == 1 && p.armortype == 800 && p.health == 100
            &&& !octa ==> p.ammo_cells == v.ammo_cells && p.armorvalue == v.armorvalue && p.armortype == v.armortype
                && p.health == v.health
            &&& !ends(c.invisible_finished, now) ==> p.items & Items::INVISIBILITY == v.items & Items::INVISIBILITY
            &&& !ends(c.invincible_finished, now) ==> p.items & Items::INVULNERABILITY == v.items & Items::INVULNERABILITY
            &&& !ends(c.super_damage_finished, now) ==> p.items & Items::QUAD == v.items & Items::QUAD
            &&& !ends(c.radsuit_finished, now) ==> p.items & Items::SUIT == v.items & Items::SUIT
            &&& bit & (Items::INVISIBILITY | Items::INVULNERABILITY | Items::QUAD | Items::SUIT) == 0 ==> p.items & bit
                == v.items & bit
        }),
{
    let items = v.items;
    let (e1, e2, e3, e4) = (
        ends(c.invisible_finished, now),
        ends(c.invincible_finished, now),
        ends(c.super_damage_finished, now),
        ends(c.radsuit_finished, now),
    );
    assert({
        let ring = if e1 {
            items & !(1i32 << 19)
        } else {
            items
        };
        let pent = if e2 {
            ring & !(1i32 << 20)
        } else {
            ring
        };
        let quad = if e3 {
            pent & !(1i32 << 22)
        } else {
            pent
        };
        let all = if e4 {
            quad & !(1i32 << 21)
        } else {
            quad
        };
        &&& !e1 ==> all & (1i32 << 19) == items & (1i32 << 19)
        &&& !e2 ==> all & (1i32 << 20) == items & (1i32 << 20)
        &&& !e3 ==> all & (1i32 << 22) == items & (1i32 << 22)
        &&& !e4 ==> all & (1i32 << 21) == items & (1i32 << 21)
        &&& bit & ((1i32 << 19) | (1i32 << 20) | (1i32 << 22) | (1i32 << 21)) == 0 ==> all & bit == items & bit
    }) by (bit_vector);
}

/// A protected player glows red while it lasts, one with the quad blue, and the glow goes with it.
pub proof fn powerups_glow(effects: i32, c: CombatState, now: i64)
    requires
        now > 0,
    ensures
        ({
            let e = powered_effects(effects, c, now);
            &&& c.invincible_finished == 0 && c.super_damage_finished == 0 ==> e == effects
            &&& c.invincible_finished > now ==> e & Effects::RED != 0
            &&& c.invincible_finished != 0 && c.invincible_finished <= now ==> e & Effects::RED == 0
            &&& c.invincible_finished == 0 ==> e & Effects::RED == effects & Effects::RED
            &&& c.super_damage_finished > now ==> e & Effects::BLUE != 0
            &&& c.super_damage_finished != 0 && c.super_damage_finished <= now ==> e & Effects::BLUE == 0
            &&& c.super_damage_finished == 0 ==> e & Effects::BLUE == effects & Effects::BLUE
            &&& c.super_damage_finished > now || (c.super_damage_finished == 0 && c.invincible_finished > now) ==> e
                & Effects::DIMLIGHT != 0
            &&& c.super_damage_finished != 0 && c.super_damage_finished <= now ==> e & Effects::DIMLIGHT == 0
            &&& e & Effects::MUZZLEFLASH == effects & Effects::MUZZLEFLASH
        }),
{
    let (p, q) = (c.invincible_finished != 0, c.super_damage_finished != 0);
    let (on_p, on_q) = (
        ran(c.invincible_finished, c.invincible_time, now).0 > now,
        ran(c.super_damage_finished, c.super_time, now).0 > now,
    );
    assert({
        let red = if p {
            if on_p {
                effects | ((1i32 << 3) | (1i32 << 7))
            } else {
                effects & !((1i32 << 3) | (1i32 << 7))
            }
        } else {
            effects
        };
        let e = if q {
            if on_q {
                red | ((1i32 << 3) | (1i32 << 6))
            } else {
                red & !((1i32 << 3) | (1i32 << 6))
            }
        } else {
            red
        };
        &&& p && on_p ==> e & (1i32 << 7) != 0
        &&& p && !on_p ==> e & (1i32 << 7) == 0
        &&& !p ==> e & (1i32 << 7) == effects & (1i32 << 7)
        &&& q && on_q ==> e & (1i32 << 6) != 0 && e & (1i32 << 3) != 0
        &&& q && !on_q ==> e & (1i32 << 6) == 0 && e & (1i32 << 3) == 0
        &&& !q ==> e & (1i32 << 6) == effects & (1i32 << 6)
        &&& !q && p && on_p ==> e & (1i32 << 3) != 0
        &&& e & (1i32 << 1) == effects & (1i32 << 1)
    }) by (bit_vector);
}

/// The words and sounds of a fading powerup.
pub proof fn warnings_name_their_powerup(deathmatch: i32)
    ensures
        warning_words(PowerupKind::Invisibility, deathmatch) == "Ring of Shadows magic is fading\n"@,
        warning_words(PowerupKind::Invulnerability, deathmatch) == "Protection is almost burned out\n"@,
        warning_words(PowerupKind::Biosuit, deathmatch) == "Air supply in Biosuit expiring\n"@,
        deathmatch == 4 ==> warning_words(PowerupKind::Quad, deathmatch) == "OctaPower is wearing off\n"@,
        deathmatch != 4 ==> warning_words(PowerupKind::Quad, deathmatch) == "Quad Damage is wearing off\n"@,
        warning_sound(PowerupKind::Invisibility) == Sound::ITEMS_INV2,
        warning_sound(PowerupKind::Invulnerability) == Sound::ITEMS_PROTECT2,
        warning_sound(PowerupKind::Quad) == Sound::ITEMS_DAMAGE2,
        warning_sound(PowerupKind::Biosuit) == Sound::ITEMS_SUIT2,
{
}

/// Above water the lungs fill for twelve seconds and who was short of air gasps; below it, who is out
/// of air drowns once a second, two points worse each time up to fifteen.
pub proof fn lungs_last_twelve_seconds(waterlevel: i32, dmg: i32, c: CombatState, now: i64)
    requires
        0 <= now <= i64::MAX - 12_000,
        0 <= dmg <= 1_000,
    ensures
        ({
            let b = breathed(waterlevel, dmg, c, now);
            let up = waterlevel != 3;
            let drowns = waterlevel == 3 && c.air_finished < now && c.pain_finished < now;
            &&& up ==> b.air_finished == now + 12_000 && b.dmg == 2 && b.drown is None && b.pain_finished
                == c.pain_finished
            &&& up && c.air_finished < now ==> b.gasp == Some(Sound::PLAYER_GASP2)
            &&& up && now <= c.air_finished < now + 9_000 ==> b.gasp == Some(Sound::PLAYER_GASP1)
            &&& up && c.air_finished >= now + 9_000 ==> b.gasp is None
            &&& !up ==> b.gasp is None && b.air_finished == c.air_finished
            &&& drowns ==> b.pain_finished == now + 1_000 && b.drown == Some(b.dmg)
            &&& drowns && dmg <= 13 ==> b.dmg == dmg + 2
            &&& drowns && dmg > 13 ==> b.dmg == 10
            &&& !up && !drowns ==> b.drown is None && b.dmg == dmg && b.pain_finished == c.pain_finished
        }),
{
}

/// Lava burns ten points for each level of depth, every fifth of a second or every second in a suit;
/// slime four, every second, and not in a suit; nothing else burns.
pub proof fn lava_and_slime_burn(v: EntVars, c: CombatState, now: i64)
    requires
        0 <= now <= i64::MAX - 1_000,
        0 <= v.waterlevel <= 3,
    ensures
        ({
            let b = burned(v, c, now);
            let due = c.dmgtime < now;
            &&& v.watertype == -5 && due ==> b.damage == Some((10 * v.waterlevel) as i64)
            &&& v.watertype == -5 && due && c.radsuit_finished > now ==> b.dmgtime == now + 1_000
            &&& v.watertype == -5 && due && c.radsuit_finished <= now ==> b.dmgtime == now + 200
            &&& v.watertype == -4 && due && c.radsuit_finished < now ==> b.damage == Some((4 * v.waterlevel) as i64)
                && b.dmgtime == now + 1_000
            &&& v.watertype == -4 && c.radsuit_finished >= now ==> b.damage is None
            &&& v.watertype != -5 && v.watertype != -4 || !due ==> b.damage is None
            &&& b.damage is None ==> b.dmgtime == c.dmgtime
        }),
{
}

/// What is heard on the way in.
pub proof fn liquids_are_heard(watertype: i32)
    ensures
        watertype == -5 ==> entry_sound(watertype) == Some(Sound::PLAYER_INLAVA),
        watertype == -4 ==> entry_sound(watertype) == Some(Sound::PLAYER_SLIMBRN2),
        watertype == -3 ==> entry_sound(watertype) == Some(Sound::PLAYER_INH2O),
        entry_sound(watertype) is Some <==> -5 <= watertype <= -3,
{
}

/// The dead and ghosts feel no water.
pub proof fn the_living_feel_water(v: EntVars)
    ensures
        feels_water(v) <==> v.health >= 0 && v.movetype != MoveType::Noclip,
{
}

/// A new life is whole, and has what was kept; with the grapple it also holds that.
pub proof fn new_lives_are_equipped(v: EntVars, parm: Seq<i64>, p: PlayerParms, grapple: bool)
    requires
        parms_kept(p, parm),
    ensures
        ({
            let w = equipped(v, parm, grapple);
            &&& w.takedamage == TakeDamage::Aim && w.solid == Solid::SlideBox && w.movetype == MoveType::Walk
            &&& w.max_health == 100 && w.effects == 0 && w.deadflag == DeadFlag::No && w.flags == Flags::CLIENT
            &&& w.health == p.health && w.armorvalue == p.armorvalue && w.armortype == p.armortype
            &&& w.ammo_shells == p.shells && w.ammo_nails == p.nails && w.ammo_rockets == p.rockets && w.ammo_cells
                == p.cells
            &&& !grapple ==> w.items == p.items && w.weapon == Weapon::of_bit(p.weapon)
            &&& grapple ==> w.items == p.items | Items::GRAPPLE && w.weapon == Weapon::Grapple
        }),
{
    parms_round_trip(p, parm);
}

/// A new life breathes for twelve seconds and may attack at once.
pub proof fn new_lives_may_fight(c: CombatState, now: i64)
    requires
        new_life(c, now),
        0 <= now <= i64::MAX - 12_000,
    ensures
        c.air_finished == now + 12_000,
        c.attack_finished == now,
        c.pain_finished == 0 && c.dmgtime == 0 && c.swim_flag == 0 && c.jump_flag == 0,
{
}

/// A player runs at the server's speed, or at three hundred and twenty where it has none.
pub proof fn speeds_are_the_servers(sv_maxspeed: i32)
    ensures
        sv_maxspeed > 0 ==> capped(sv_maxspeed) == sv_maxspeed,
        sv_maxspeed <= 0 ==> capped(sv_maxspeed) == 320_000,
{
}

/// A spot has room when no player is within eighty-four units; who appears does so at a spot with room
/// where there is one, at some spot where there is any.
pub proof fn spots_are_listed_spots(spots: Seq<EntId>, nearest: Seq<u32>, rng: u32)
    ensures
        spots.len() == 0 ==> picked(spots, nearest, rng) == EntId(0),
        spots.len() > 0 ==> spots.contains(picked(spots, nearest, rng)),
        forall|spot: EntId| #[trigger] has_room(spot, nearest) <==> nearest[spot.0 as int] >= 84_000,
{
    if spots.len() > 0 {
        let n = spots.len() as int;
        let pool = spawn_pool(spots, nearest);
        lemma_free_spots(spots, nearest, n);
        crate::game::draws_have_twenty_four_bits(rng);
        let d = drawn(rng) as int;
        let m = pool.len() as int;
        assert(0 <= d * m / 0x100_0000 < m) by (nonlinear_arith)
            requires
                0 <= d < 0x100_0000,
                0 < m,
        ;
        assert(spots.contains(pool[d * m / 0x100_0000]));
    }
}

proof fn lemma_free_spots(spots: Seq<EntId>, nearest: Seq<u32>, n: int)
    requires
        0 <= n <= spots.len(),
    ensures
        forall|i: int| 0 <= i < free_of(spots, nearest, n).len() ==> spots.contains(#[trigger] free_of(spots, nearest, n)[i]),
    decreases n,
{
    if n > 0 {
        lemma_free_spots(spots, nearest, n - 1);
        let rest = free_of(spots, nearest, n - 1);
        let all = free_of(spots, nearest, n);
        assert(spots.contains(spots[n - 1]));
        assert forall|i: int| 0 <= i < all.len() implies spots.contains(#[trigger] all[i]) by {
            if i < rest.len() {
                assert(all[i] == rest[i]);
            }
        }
    }
}

/// Every spot with room is in the pool, and where any has room no other is.
pub proof fn pools_are_what_has_room(spots: Seq<EntId>, nearest: Seq<u32>, n: int, k: int)
    requires
        0 <= k < n <= spots.len(),
    ensures
        nearest[spots[k].0 as int] >= 84_000 ==> free_of(spots, nearest, n).contains(spots[k]),
        forall|i: int|
            0 <= i < free_of(spots, nearest, n).len() ==> nearest[(#[trigger] free_of(spots, nearest, n)[i]).0 as int]
                >= 84_000,
    decreases n,
{
    let all = free_of(spots, nearest, n);
    if n > 1 {
        pools_are_what_has_room(spots, nearest, n - 1, if k < n - 1 {
            k
        } else {
            0
        });
    } else {
        assert(free_of(spots, nearest, 0).len() == 0);
    }
    let rest = free_of(spots, nearest, n - 1);
    if has_room(spots[n - 1], nearest) {
        assert(all == rest.push(spots[n - 1]));
        assert(all[rest.len() as int] == spots[n - 1]);
        if k < n - 1 && nearest[spots[k].0 as int] >= 84_000 {
            let i = choose|i: int| 0 <= i < rest.len() && rest[i] == spots[k];
            assert(all[i] == spots[k]);
        }
    } else {
        assert(all == rest);
    }
}

/// Where there is no deathmatch spot the start is used, and where there is none the world.
pub proof fn starts_are_the_fallback(ents: Seq<Entity>, nearest: Seq<u32>, rng: u32)
    ensures
        ({
            let spots = spots_of(ents, "info_player_deathmatch"@);
            let starts = spots_of(ents, "info_player_start"@);
            &&& picked(spots, nearest, rng).0 != 0 ==> spawn_point(ents, nearest, rng) == picked(spots, nearest, rng)
            &&& spots.len() == 0 && starts.len() > 0 ==> spawn_point(ents, nearest, rng) == starts[0]
            &&& spots.len() == 0 && starts.len() == 0 ==> spawn_point(ents, nearest, rng).0 == 0
        }),
{
}

/// Intermission comes before all; who is not in play is left alone.
pub proof fn intermissions_come_first(intermission: bool, parked: bool)
    ensures
        pre_step(intermission, parked) == PreThink::Intermission <==> intermission,
        pre_step(intermission, parked) == PreThink::Parked <==> !intermission && parked,
        pre_step(intermission, parked) == PreThink::Play <==> !intermission && !parked,
{
}

/// Landing gives the air jump back, and a rising lift is remembered with its speed.
pub proof fn feet_on_the_ground(c: CombatState, v: EntVars, lift_vz: i32, now: i64)
    ensures
        ({
            let r = ready(c, v, lift_vz, now);
            &&& v.flags & Flags::ONGROUND != 0 ==> !r.air_jumped
            &&& v.flags & Flags::ONGROUND == 0 ==> r.air_jumped == c.air_jumped
            &&& lift_vz > 0 ==> r.lift_vz == lift_vz && r.lift_time == now
            &&& lift_vz <= 0 ==> r.lift_vz == c.lift_vz && r.lift_time == c.lift_time
        }),
{
}

/// What a press of jump comes to: nothing in a leap out of water; a stroke each second where the water
/// is deep; else, once released, a boost within four tenths of a second off a lift, a jump off the
/// ground, a kick off a wall, or one jump in the air, not just above the floor.
pub proof fn jumps_go_by_what_is_there(v: EntVars, c: CombatState, now: i64, f: JumpFacts, rng: u32)
    ensures
        ({
            let j = jump_of(v, c, now, f, rng);
            let out = v.flags & Flags::WATERJUMP != 0;
            let deep = v.waterlevel >= 2;
            let released = v.flags & Flags::JUMPRELEASED != 0;
            let lift = f.elevator && c.lift_vz > 0 && now - c.lift_time <= 400;
            let ground = v.flags & Flags::ONGROUND != 0;
            let free = !out && !deep && released;
            &&& j is Swim <==> !out && deep && c.swim_flag < now
            &&& j == Jump::Elevator <==> free && lift
            &&& j == Jump::Ground <==> free && !lift && ground
            &&& j == Jump::Wall <==> free && !lift && !ground && f.wall
            &&& j == Jump::Air <==> free && !lift && !ground && !f.wall && !c.air_jumped && f.double && !f.floor_close
            &&& swims(v, c, now) <==> j is Swim
            &&& j is Swim ==> (j == Jump::Swim(Sound::MISC_WATER1) <==> drawn(rng) < 0x80_0000) && (j == Jump::Swim(
                Sound::MISC_WATER2,
            ) <==> drawn(rng) >= 0x80_0000)
        }),
{
}

/// What a jump leaves behind: a stroke waits a second, a boost uses the lift up, the air jump is spent,
/// and a leap needs a release.
pub proof fn jumps_are_spent(v: EntVars, c: CombatState, j: Jump, now: i64)
    requires
        0 <= now <= i64::MAX - 1_000,
    ensures
        ({
            let d = jumped(c, j, now);
            let w = leapt(v, j);
            let leap = j == Jump::Elevator || j == Jump::Wall || j == Jump::Air || j == Jump::Ground;
            &&& j is Swim ==> d == (CombatState { swim_flag: (now + 1_000) as i64, ..c })
            &&& j == Jump::Elevator ==> d == (CombatState { lift_time: 0, lift_vz: 0, ..c })
            &&& j == Jump::Air ==> d == (CombatState { air_jumped: true, ..c })
            &&& j == Jump::Ground || j == Jump::Wall || j == Jump::Nothing ==> d == c
            &&& leap ==> w.flags & Flags::JUMPRELEASED == 0 && w.flags | Flags::JUMPRELEASED == v.flags
                | Flags::JUMPRELEASED && !w.button2
            &&& !leap ==> w == v
        }),
{
    let flags = v.flags;
    assert((flags & !(1i32 << 12)) & (1i32 << 12) == 0 && (flags & !(1i32 << 12)) | (1i32 << 12) == flags | (1i32 << 12))
        by (bit_vector);
}

/// A lift carries who stands on it: within sixteen units of its sides, from twenty-four below its top
/// to forty-eight above.
pub proof fn lifts_carry_who_stands_on_them(l: Lift, e: EntId, x: i32, y: i32, feet: i32)
    ensures
        carries(l, e, x, y, feet) <==> {
            &&& l.pushes && l.id != e
            &&& l.top - 24_000 <= feet && feet <= l.top + 48_000
            &&& l.min_x <= x + 16_000 && x <= l.max_x + 16_000
            &&& l.min_y <= y + 16_000 && y <= l.max_y + 16_000
        },
{
}

/// A fall of up to three hundred units a second is soft, and so is one still in the air; water breaks
/// it; beyond six hundred and fifty it hurts.
pub proof fn hard_landings_hurt(v: EntVars, c: CombatState)
    ensures
        ({
            let l = landing_of(v, c);
            let down = v.flags & Flags::ONGROUND != 0;
            &&& l == Landing::Soft <==> !down || c.jump_flag >= -300_000
            &&& l == Landing::Splash <==> down && c.jump_flag < -300_000 && v.watertype == -3
            &&& l == Landing::Hurt <==> down && c.jump_flag < -650_000 && v.watertype != -3
            &&& l == Landing::Thud <==> down && -650_000 <= c.jump_flag < -300_000 && v.watertype != -3
        }),
{
}

/// The dead wait for the buttons to come up and then for any of the three to go down.
pub proof fn the_dead_press_to_live(v: EntVars, allowed: bool)
    ensures
        ({
            let s = death_step(v, allowed);
            let down = v.button0 || v.button1 || v.button2;
            &&& v.deadflag == DeadFlag::Dead && !down <==> s == DeathStep::Ready
            &&& v.deadflag != DeadFlag::Dead && down && allowed <==> s == DeathStep::Respawn
            &&& v.deadflag != DeadFlag::Dead && down && !allowed <==> s == DeathStep::Held
        }),
{
}

/// A wall leans no further than seven tenths up, and counts only where the probe met it.
pub proof fn floors_are_no_walls(probes: Seq<WallProbe>, r: Option<usize>)
    requires
        is_nearest(probes, r, probes.len() as int),
    ensures
        r is None <==> forall|j: int|
            0 <= j < probes.len() ==> (#[trigger] probes[j]).lean > 0x3f33_3333 || probes[j].share >= 0x3f80_0000,
        r matches Some(i) ==> probes[i as int].lean <= 0x3f33_3333 && probes[i as int].share < 0x3f80_0000,
{
    if r is None {
        assert forall|j: int| 0 <= j < probes.len() implies (#[trigger] probes[j]).lean > 0x3f33_3333 || probes[j].share
            >= 0x3f80_0000 by {
            assert(is_wall(probes[j]) ==> probes[j].share >= WHOLE);
        }
    }
}

/// The status bar shows the ammunition of the weapon in hand and lights that kind alone.
pub proof fn the_weapon_in_hand_is_shown(v: EntVars)
    ensures
        ({
            let s = shown(v);
            let bits = Items::SHELLS | Items::NAILS | Items::ROCKETS | Items::CELLS;
            &&& s.weaponframe == 0
            &&& s.currentammo == shown_weapon(v).0
            &&& s.items == (v.items & !bits) | shown_weapon(v).2
            &&& s.weapon == v.weapon
        }),
{
}

/// Breathing changes the lungs and what drowning costs, of that player alone.
pub proof fn lungs_are_ones_own(ents: Seq<Entity>, e: EntId, b: Breath, i: int)
    requires
        e.0 < ents.len(),
        0 <= i < ents.len(),
    ensures
        ({
            let after = put_breath(ents, e, b);
            &&& after.len() == ents.len()
            &&& i != e.0 ==> after[i] == ents[i]
            &&& i == e.0 ==> after[i].mover.dmg == b.dmg && after[i].combat.air_finished == b.air_finished
                && after[i].combat.pain_finished == b.pain_finished
            &&& i == e.0 ==> after[i].v == ents[i].v && after[i].combat.dmgtime == ents[i].combat.dmgtime
        }),
{
}

/// Choosing among spots takes a draw; where there is none it does not.
pub proof fn choices_take_a_draw(ents: Seq<Entity>, class: Seq<char>, rng: u32)
    ensures
        spots_of(ents, class).len() == 0 ==> rng_after(ents, class, rng) == rng,
        spots_of(ents, class).len() > 0 ==> rng_after(ents, class, rng) == xorshift(rng),
{
}

/// The spots of a class are the entities in use of that class, in order.
pub proof fn spots_are_entities_of_their_class(ents: Seq<Entity>, class: Seq<char>, i: int)
    requires
        ents.len() <= u32::MAX,
        0 <= i < ents.len(),
    ensures
        spots_of(ents, class).contains(EntId(i as u32)) <==> ents[i].in_use && ents[i].class() == Some(class),
{
    let test = |k: int| ents[k].in_use && ents[k].class() == Some(class);
    let found = matching_below(test, ents.len() as int);
    let spots = spots_of(ents, class);
    crate::game::matching_is_exact(test, ents.len() as int, i);
    if found.contains(i) {
        let k = choose|k: int| 0 <= k < found.len() && found[k] == i;
        assert(spots[k] == EntId(i as u32));
    }
    if spots.contains(EntId(i as u32)) {
        let k = choose|k: int| 0 <= k < spots.len() && spots[k] == EntId(i as u32);
        assert(0 <= found[k] < ents.len());
        assert(found[k] == i);
    }
}

/// The speed of a ride is the fastest rise of what carries the player, or none.
pub proof fn rides_are_the_fastest_rise(lifts: Seq<Lift>, e: EntId, x: i32, y: i32, feet: i32, r: i32, i: int)
    requires
        is_best_rise(lifts, e, x, y, feet, lifts.len() as int, r),
        0 <= i < lifts.len(),
    ensures
        r >= 0,
        carries(lifts[i], e, x, y, feet) ==> lifts[i].rise <= r,
        (forall|j: int| 0 <= j < lifts.len() ==> !carries(#[trigger] lifts[j], e, x, y, feet)) ==> r == 0,
{
}

/// A kick off a wall needs a run of thirty units a second, and gives two hundred and seventy at least.
pub proof fn kicks_have_their_measures()
    ensures
        MIN_KICK_RUN == 30_000 && KICK == 270_000,
{
}

/// Whether the level ends.
pub open spec fn level_over(level: Level, match_mode: bool, seconds: i32, frags: i32) -> bool {
    !match_mode && ((level.timelimit != 0 && seconds >= level.timelimit) || (level.fraglimit != 0 && frags
        >= level.fraglimit))
}

/// A level ends with its time or with enough frags, where it has such a limit; a match has its own.
pub proof fn levels_end_by_their_limits(level: Level, seconds: i32, frags: i32)
    ensures
        !level_over(level, true, seconds, frags),
        level.timelimit != 0 && seconds >= level.timelimit ==> level_over(level, false, seconds, frags),
        level.fraglimit != 0 && frags >= level.fraglimit ==> level_over(level, false, seconds, frags),
        (level.timelimit == 0 || seconds < level.timelimit) && (level.fraglimit == 0 || frags < level.fraglimit)
            ==> !level_over(level, false, seconds, frags),
{
}

/// Life and death of a player.
pub open spec fn life(d: DeadFlag) -> Life {
    match d {
        DeadFlag::No => Life::Alive,
        DeadFlag::Dying => Life::Dying,
        DeadFlag::Dead => Life::Dead,
        DeadFlag::Respawnable => Life::Dead,
    }
}

/// Whether the weapon in hand ran dry.
pub open spec fn ran_dry(e: Entity, now: i64) -> bool {
    now > e.combat.attack_finished && e.v.currentammo == 0 && e.v.weapon != Weapon::Axe && e.v.weapon != Weapon::Grapple
}

/// Only the unhurt flag is life, only the second one dying; and only what fires ammo runs dry.
pub proof fn the_flag_tells_life_from_death(d: DeadFlag, e: Entity, now: i64)
    ensures
        life(d) == Life::Alive <==> d == DeadFlag::No,
        life(d) == Life::Dying <==> d == DeadFlag::Dying,
        e.v.weapon == Weapon::Axe || e.v.weapon == Weapon::Grapple ==> !ran_dry(e, now),
        e.v.weapon != Weapon::Axe && e.v.weapon != Weapon::Grapple ==> (ran_dry(e, now) <==> e.v.currentammo == 0
            && e.combat.attack_finished < now),
{
}

/// How fast a kick sends a player off a wall.
pub open spec fn kicked(into: int) -> int {
    if -into > KICK {
        -into
    } else {
        KICK as int
    }
}

/// A kick gives back the speed of the approach, and two hundred and seventy at least.
pub proof fn kicks_give_the_speed_back(into: int)
    ensures
        into < -270_000 ==> kicked(into) == -into,
        into >= -270_000 ==> kicked(into) == 270_000,
{
}

/// A dead player after a step of waiting.
pub open spec fn waited_dead(v: EntVars, s: DeathStep) -> EntVars {
    match s {
        DeathStep::Wait => v,
        DeathStep::Ready => EntVars { deadflag: DeadFlag::Respawnable, ..v },
        DeathStep::Held | DeathStep::Respawn => EntVars { button0: false, button1: false, button2: false, ..v },
    }
}

/// A press respawns once the buttons have been up since death, and is used up by it.
pub proof fn a_release_and_a_press_respawn(v: EntVars, w: EntVars)
    requires
        v.deadflag == DeadFlag::Dead,
        !v.button0 && !v.button1 && !v.button2,
        w == (EntVars {
            button0: w.button0,
            button1: w.button1,
            button2: w.button2,
            ..waited_dead(v, death_step(v, true))
        }),
        w.button0 || w.button1 || w.button2,
    ensures
        death_step(w, true) == DeathStep::Respawn,
        death_step(w, false) == DeathStep::Held,
        ({
            let after = waited_dead(w, death_step(w, true));
            !after.button0 && !after.button1 && !after.button2
        }),
{
}

} // verus!
