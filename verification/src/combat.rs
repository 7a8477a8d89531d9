//! Damage and death: armor, powerups, god mode and teamplay in front of the health they protect,
//! and who scores for a death.
//!
//! Health and armor are whole points, damage four-thousandths of a point, times milliseconds.
use crate::abi::EntVars;
use crate::bot::perception::{alarmed, alerted, feels};
use crate::defs::{Bits, Flags, Items, MoveType, TakeDamage};
use crate::entity::{prog_of, CombatState, EntId, Entity, Touch};
use crate::game::{put_combat, put_v, GameState, Level};
use crate::num::{after, bounded, fit, fitted};
use crate::text::same_text;
use vstd::prelude::*;

verus! {

/// No health falls below this.
pub const LOWEST_HEALTH: i32 = -99;

/// How much further than its damage a blast is looked for, in thousandths of a unit.
pub const BLAST_SLACK: u32 = 40_000;

/// Time between two protest sounds of an invulnerable player.
pub const PROTECT_SOUND: i64 = 2000;

pub const ALL_ARMOR: i32 = Items::ARMOR1 | Items::ARMOR2 | Items::ARMOR3;

/// What a target is where it is a grenade.
#[derive(Clone, Copy, PartialEq, Eq, Debug, Structural)]
pub enum GrenadeTarget {
    /// No grenade.
    Other,
    /// A grenade that a shot sets off.
    Live,
    /// A grenade that ignores shots.
    Inert,
}

/// What is known of a hit beyond the state of the game.
#[derive(Clone, Copy, PartialEq, Eq, Debug, Structural)]
pub struct HitFacts {
    /// Whether the mode lets the target be hurt.
    pub allowed: bool,
    pub grenade: GrenadeTarget,
    /// The damage before quad; where it is negative, it heals.
    pub damage: i64,
    /// Whether attacker and target name the same team.
    pub same_team: bool,
    pub now: i64,
}

/// How a hit ended.
#[derive(Clone, Copy, PartialEq, Eq, Debug, Structural)]
pub enum HitEnd {
    /// Nothing happened.
    Untouched,
    /// A grenade went off.
    Explode,
    /// God mode.
    God,
    /// The pentagram took it, with or without its sound.
    Shielded { sound: bool },
    /// Teamplay took it.
    Spared,
    /// So much health was lost. A bot knows who did it.
    Hurt(i32),
    Killed(Death),
}

/// What a hit comes to, and whether it pushes the target: by the blow, and by a rocket of its own.
#[derive(Clone, Copy, PartialEq, Eq, Debug, Structural)]
pub struct Hit {
    pub end: HitEnd,
    pub shove: bool,
    pub boost: bool,
}

/// A death: of a thing, whose own behaviour is all there is to it, or of a being.
#[derive(Clone, Copy, PartialEq, Eq, Debug, Structural)]
pub enum Death {
    Thing,
    Being(Obituary),
}

/// Who is to blame for a death.
#[derive(Clone, Copy, PartialEq, Eq, Debug, Structural)]
pub enum Obituary {
    /// The dead was no player.
    Silent,
    Suicide,
    /// Killed by a player.
    Frag(EntId),
    /// Killed by the world.
    World,
}

// --- armor ---
/// A quotient rounded up.
pub open spec fn up(x: int, d: int) -> int {
    -((-x) / d)
}

/// Whole points of a hit, `factor` being what quad makes of it.
pub open spec fn full_of(damage: i64, factor: int) -> i32 {
    fitted(up(damage * factor, 4000))
}

/// Whole points of a hit that armor of a type claims.
pub open spec fn claim_of(armortype: i32, damage: i64, factor: int) -> i32 {
    fitted(up(armortype * (damage * factor), 4_000_000))
}

fn round_points(x: i128, d: i128) -> (r: i32)
    requires
        d == 4000 || d == 4_000_000,
        -0x4_0000_0000_0000_0000_0000_0000 <= x <= 0x4_0000_0000_0000_0000_0000_0000,
    ensures
        r == fitted(up(x as int, d as int)),
{
    let q: i128 = if x >= 0 {
        (x + (d - 1)) / d
    } else {
        -((-x) / d)
    };
    proof {
        if d == 4000 {
            assert(q == up(x as int, 4000));
        } else {
            assert(q == up(x as int, 4_000_000));
        }
    }
    if q > i32::MAX as i128 {
        i32::MAX
    } else if q < i32::MIN as i128 {
        i32::MIN
    } else {
        q as i32
    }
}

fn full_points(damage: i64, factor: i32) -> (r: i32)
    requires
        1 <= factor <= 8,
    ensures
        r == full_of(damage, factor as int),
{
    assert(-0x4_0000_0000_0000_0000 <= damage * factor <= 0x4_0000_0000_0000_0000) by (nonlinear_arith)
        requires
            1 <= factor <= 8,
            -0x8000_0000_0000_0000 <= damage <= 0x7fff_ffff_ffff_ffff,
    ;
    round_points(damage as i128 * factor as i128, 4000)
}

fn claimed_points(armortype: i32, damage: i64, factor: i32) -> (r: i32)
    requires
        1 <= factor <= 8,
    ensures
        r == claim_of(armortype, damage, factor as int),
{
    assert(-0x4_0000_0000_0000_0000 <= damage * factor <= 0x4_0000_0000_0000_0000) by (nonlinear_arith)
        requires
            1 <= factor <= 8,
            -0x8000_0000_0000_0000 <= damage <= 0x7fff_ffff_ffff_ffff,
    ;
    let parts: i128 = damage as i128 * factor as i128;
    assert(-0x8000_0000 * 0x4_0000_0000_0000_0000 <= armortype * parts <= 0x8000_0000 * 0x4_0000_0000_0000_0000)
        by (nonlinear_arith)
        requires
            -0x8000_0000 <= armortype <= 0x7fff_ffff,
            -0x4_0000_0000_0000_0000 <= parts <= 0x4_0000_0000_0000_0000,
    ;
    round_points(armortype as i128 * parts, 4_000_000)
}

pub open spec fn armor_breaks(v: EntVars, absorbed: i32) -> bool {
    absorbed >= v.armorvalue
}

/// What the armor saves.
pub open spec fn saved(v: EntVars, absorbed: i32) -> i32 {
    if armor_breaks(v, absorbed) {
        v.armorvalue
    } else {
        absorbed
    }
}

/// What is left for the health to take.
pub open spec fn taken(v: EntVars, absorbed: i32, full: i32) -> i32 {
    fitted(full - saved(v, absorbed))
}

/// The fields after the armor paid: broken armor is gone, and a client is told what was taken and
/// saved.
pub open spec fn armored(v: EntVars, absorbed: i32, full: i32, inflictor: EntId) -> EntVars {
    let broken = armor_breaks(v, absorbed);
    let client = v.flags & Flags::CLIENT != 0;
    EntVars {
        armortype: if broken {
            0
        } else {
            v.armortype
        },
        items: if broken {
            v.items & !ALL_ARMOR
        } else {
            v.items
        },
        armorvalue: fitted(v.armorvalue - saved(v, absorbed)),
        dmg_take: if client {
            fitted(v.dmg_take + taken(v, absorbed, full))
        } else {
            v.dmg_take
        },
        dmg_save: if client {
            fitted(v.dmg_save + saved(v, absorbed))
        } else {
            v.dmg_save
        },
        dmg_inflictor: if client {
            prog_of(inflictor)
        } else {
            v.dmg_inflictor
        },
        ..v
    }
}

fn absorb(v: EntVars, absorbed: i32, full: i32, inflictor: EntId) -> (r: (EntVars, i32))
    ensures
        r.0 == armored(v, absorbed, full, inflictor),
        r.1 == taken(v, absorbed, full),
{
    let mut out = v;
    let mut save: i32 = absorbed;
    if save >= v.armorvalue {
        save = v.armorvalue;
        out.armortype = 0;
        out.items = v.items.without(ALL_ARMOR);
    }
    out.armorvalue = fit(v.armorvalue as i64 - save as i64);
    let take: i32 = fit(full as i64 - save as i64);
    if v.flags.has(Flags::CLIENT) {
        out.dmg_take = fit(v.dmg_take as i64 + take as i64);
        out.dmg_save = fit(v.dmg_save as i64 + save as i64);
        out.dmg_inflictor = inflictor.to_prog();
    }
    (out, take)
}

/// Armor claims no more than the whole hit.
pub proof fn claims_fit_the_hit(armortype: i32, damage: i64, factor: int)
    requires
        0 <= armortype <= 1000,
        0 <= damage,
        1 <= factor <= 8,
    ensures
        0 <= claim_of(armortype, damage, factor) <= full_of(damage, factor),
{
    let parts = damage * factor;
    assert(0 <= parts) by (nonlinear_arith)
        requires
            parts == damage * factor,
            0 <= damage,
            1 <= factor,
    ;
    assert(0 <= armortype * parts <= 1000 * parts) by (nonlinear_arith)
        requires
            0 <= armortype <= 1000,
            0 <= parts,
    ;
    assert(up(armortype * parts, 4_000_000) <= up(parts, 4000));
}

/// Armor and health together pay for a hit exactly, and armor never saves more than there is.
pub proof fn armor_and_health_pay_in_full(v: EntVars, absorbed: i32, full: i32)
    requires
        0 <= v.armorvalue,
        0 <= absorbed <= full,
    ensures
        taken(v, absorbed, full) + saved(v, absorbed) == full,
        0 <= saved(v, absorbed) <= v.armorvalue,
        0 <= taken(v, absorbed, full),
{
}

// --- small questions ---
pub open spec fn quad_factor(attacker: Entity, inflictor: Entity, deathmatch: i32, now: i64) -> int {
    if attacker.combat.super_damage_finished > now && inflictor.class() != Some("door"@) {
        if deathmatch == 4 {
            8
        } else {
            4
        }
    } else {
        1
    }
}

/// The shown name of an entity: its own, else its class.
pub open spec fn shown_name(e: Entity) -> Seq<char> {
    match e.netname {
        Some(n) => n@,
        None => match e.classname {
            Some(c) => c@,
            None => ""@,
        },
    }
}

pub fn netname_of(e: &Entity) -> (r: &str)
    ensures
        r@ == shown_name(*e),
{
    match &e.netname {
        Some(n) => n.as_str(),
        None => match &e.classname {
            Some(c) => c.as_str(),
            None => "",
        },
    }
}

/// Whether two entities are players of one name.
pub open spec fn one_name(a: Entity, b: Entity) -> bool {
    a.class() == Some("player"@) && b.class() == Some("player"@) && shown_name(a) == shown_name(b)
}

pub fn same_player_netname(a: &Entity, b: &Entity) -> (r: bool)
    ensures
        r == one_name(*a, *b),
{
    a.is_class("player") && b.is_class("player") && same_text(netname_of(a), netname_of(b))
}

/// Whether teamplay spares the target: no damage to the own team in mode one, none but to oneself
/// in mode three; doors spare nobody.
pub open spec fn spares(teamplay: i32, attacker: Entity, inflictor: Entity, same_team: bool, own: bool) -> bool {
    (teamplay == 1 || teamplay == 3) && attacker.class() == Some("player"@) && inflictor.class() != Some("door"@)
        && same_team && (teamplay == 1 || !own)
}

pub fn teamplay_protects(teamplay: i32, attacker: &Entity, inflictor: &Entity, same_team: bool, own: bool) -> (r: bool)
    ensures
        r == spares(teamplay, *attacker, *inflictor, same_team, own),
{
    if teamplay != 1 && teamplay != 3 {
        return false;
    }
    if !attacker.is_class("player") {
        return false;
    }
    if inflictor.is_class("door") {
        return false;
    }
    if !same_team {
        return false;
    }
    teamplay == 1 || !own
}

/// Whether two team names are those of one team; an empty name is no team.
pub fn one_team(a: &str, b: &str) -> (r: bool)
    ensures
        r == same_side(a@, b@),
        r == (a@ != ""@ && a@ == b@),
{
    !same_text(a, "") && same_text(a, b)
}

/// Horizontal offsets of the points tried on a target, in units.
pub open spec fn corner(i: int) -> (int, int) {
    if i == 1 {
        (15, 15)
    } else if i == 2 {
        (-15, -15)
    } else if i == 3 {
        (-15, 15)
    } else if i == 4 {
        (15, -15)
    } else {
        (0, 0)
    }
}

pub fn corner_of(i: usize) -> (r: (i32, i32))
    requires
        i < 5,
    ensures
        (r.0 as int, r.1 as int) == corner(i as int),
{
    if i == 1 {
        (15, 15)
    } else if i == 2 {
        (-15, -15)
    } else if i == 3 {
        (-15, 15)
    } else if i == 4 {
        (15, -15)
    } else {
        (0, 0)
    }
}

/// Whether a blast reaches a target: a pusher by the line to its middle, anything else by the line
/// to any of the points tried on it.
pub fn can_damage(movetype: MoveType, middle: bool, points: &Vec<bool>) -> (r: bool)
    ensures
        r == if movetype == MoveType::Push {
            middle
        } else {
            exists|i: int| 0 <= i < points@.len() && #[trigger] points@[i]
        },
{
    if movetype == MoveType::Push {
        return middle;
    }
    let mut i: usize = 0;
    while i < points.len()
        invariant
            i <= points@.len(),
            movetype != MoveType::Push,
            forall|j: int| 0 <= j < i ==> !#[trigger] points@[j],
        decreases points@.len() - i,
    {
        if points[i] {
            return true;
        }
        i = i + 1;
    }
    false
}

// --- death ---
pub open spec fn blame(targ: Entity, killer: Entity, own: bool, who: EntId) -> Obituary {
    if targ.class() != Some("player"@) {
        Obituary::Silent
    } else if killer.class() == Some("player"@) {
        if own {
            Obituary::Suicide
        } else {
            Obituary::Frag(who)
        }
    } else {
        Obituary::World
    }
}

pub open spec fn with_frags(e: Entity, change: int) -> Entity {
    Entity { v: EntVars { frags: fitted(e.v.frags + change), ..e.v }, ..e }
}

/// The entities once a death is scored: the killer gains a frag; a suicide or an accident costs one.
pub open spec fn scored(ents: Seq<Entity>, targ: EntId, o: Obituary) -> Seq<Entity> {
    match o {
        Obituary::Silent => ents,
        Obituary::Frag(killer) => ents.update(killer.0 as int, with_frags(ents[killer.0 as int], 1)),
        _ => ents.update(targ.0 as int, with_frags(ents[targ.0 as int], -1)),
    }
}

/// The dead body: it takes no more damage, touches nothing and shows no effects.
pub open spec fn laid_out(e: Entity) -> Entity {
    Entity {
        v: EntVars { takedamage: TakeDamage::No, touch: 0, effects: 0, ..e.v },
        touch: Touch::Nil,
        ..e
    }
}

pub open spec fn is_thing(e: Entity) -> bool {
    e.v.movetype == MoveType::Push || e.v.movetype == MoveType::Nil
}

/// Health no lower than the floor.
pub open spec fn floored(v: EntVars) -> EntVars {
    EntVars {
        health: if v.health < LOWEST_HEALTH {
            LOWEST_HEALTH
        } else {
            v.health
        },
        ..v
    }
}

/// The same, with the killer named.
pub open spec fn blaming(v: EntVars, attacker: EntId) -> EntVars {
    EntVars { enemy: prog_of(attacker), ..floored(v) }
}

fn floor_health(v: EntVars) -> (r: EntVars)
    ensures
        r == floored(v),
{
    let mut out = v;
    if out.health < LOWEST_HEALTH {
        out.health = LOWEST_HEALTH;
    }
    out
}

fn name_killer(v: EntVars, attacker: EntId) -> (r: EntVars)
    ensures
        r == blaming(v, attacker),
{
    let mut out = floor_health(v);
    out.enemy = attacker.to_prog();
    out
}

/// The entities after a death, and what kind of death it was. A being is still to be laid out.
pub open spec fn buried(ents: Seq<Entity>, targ: EntId, attacker: EntId) -> (Seq<Entity>, Death) {
    let t = targ.0 as int;
    if is_thing(ents[t]) {
        (put_v(ents, targ, floored(ents[t].v)), Death::Thing)
    } else {
        let blamed = put_v(ents, targ, blaming(ents[t].v, attacker));
        let o = blame(blamed[t], blamed[attacker.0 as int], targ == attacker, attacker);
        let tallied = scored(blamed, targ, o);
        (tallied, Death::Being(o))
    }
}

impl GameState {
    /// Score a death.
    pub fn client_obituary(&mut self, targ: EntId, attacker: EntId) -> (o: Obituary)
        requires
            old(self).holds(targ),
            old(self).holds(attacker),
        ensures
            o == blame(old(self).at(targ), old(self).at(attacker), targ == attacker, attacker),
            final(self).entities@ == scored(old(self).entities@, targ, o),
            *final(self) == (GameState { entities: final(self).entities, ..*old(self) }),
    {
        let t: usize = targ.0 as usize;
        let a: usize = attacker.0 as usize;
        if !self.entities.slots[t].is_class("player") {
            return Obituary::Silent;
        }
        if self.entities.slots[a].is_class("player") {
            if targ == attacker {
                self.change_frags(targ, -1);
                return Obituary::Suicide;
            }
            self.change_frags(attacker, 1);
            return Obituary::Frag(attacker);
        }
        self.change_frags(targ, -1);
        Obituary::World
    }

    fn change_frags(&mut self, e: EntId, change: i64)
        requires
            old(self).holds(e),
            -1 <= change <= 1,
        ensures
            final(self).entities@ == old(self).entities@.update(e.0 as int, with_frags(old(self).at(e), change as int)),
            *final(self) == (GameState { entities: final(self).entities, ..*old(self) }),
    {
        let mut v = self.entities.slots[e.0 as usize].v;
        v.frags = fit(v.frags as i64 + change);
        self.set_v(e, v);
        reveal(put_v);
    }

    /// Deal with a target whose health is gone. A being is laid out once everyone has heard of its
    /// death.
    pub fn killed(&mut self, targ: EntId, attacker: EntId) -> (d: Death)
        requires
            old(self).holds(targ),
            old(self).holds(attacker),
        ensures
            final(self).entities@ == buried(old(self).entities@, targ, attacker).0,
            d == buried(old(self).entities@, targ, attacker).1,
            *final(self) == (GameState { entities: final(self).entities, ..*old(self) }),
    {
        let v = self.entities.slots[targ.0 as usize].v;
        if v.movetype == MoveType::Push || v.movetype == MoveType::Nil {
            self.set_v(targ, floor_health(v));
            return Death::Thing;
        }
        self.set_v(targ, name_killer(v, attacker));
        let o = self.client_obituary(targ, attacker);
        Death::Being(o)
    }

    /// Lay out the body of a being that died, before it falls.
    pub fn lay_out(&mut self, e: EntId)
        requires
            old(self).holds(e),
        ensures
            final(self).entities@ == old(self).entities@.update(e.0 as int, laid_out(old(self).at(e))),
            *final(self) == (GameState { entities: final(self).entities, ..*old(self) }),
    {
        let mut v = self.entities.slots[e.0 as usize].v;
        v.takedamage = TakeDamage::No;
        v.touch = 0;
        v.effects = 0;
        self.set_v(e, v);
        self.entities.slots[e.0 as usize].touch = Touch::Nil;
        reveal(put_v);
        assert(self.entities@ =~= old(self).entities@.update(e.0 as int, laid_out(old(self).at(e))));
    }
}

// --- damage ---
/// What stops a hit that reached the armor, before it reaches the health.
pub open spec fn shielded(t: Entity, now: i64) -> bool {
    t.combat.invincible_finished >= now
}

/// Whether a hit gets as far as the armor.
pub open spec fn lands(t: Entity, f: HitFacts) -> bool {
    t.v.takedamage != TakeDamage::No && f.allowed && f.grenade == GrenadeTarget::Other
}

/// The fields after the health paid too.
pub open spec fn drained(v: EntVars, take: i32) -> EntVars {
    EntVars { health: fitted(v.health - take), ..v }
}

pub open spec fn protesting(c: CombatState, now: i64) -> CombatState {
    CombatState { invincible_sound: bounded(now + PROTECT_SOUND), ..c }
}

fn drain(v: EntVars, take: i32) -> (r: EntVars)
    ensures
        r == drained(v, take),
{
    let mut out = v;
    out.health = fit(v.health as i64 - take as i64);
    out
}

fn protest(c: CombatState, now: i64) -> (r: CombatState)
    ensures
        r == protesting(c, now),
{
    let mut out = c;
    out.invincible_sound = after(now, PROTECT_SOUND);
    out
}

/// The entities after a hit, and how it ended.
pub open spec fn hit(
    ents: Seq<Entity>,
    level: Level,
    targ: EntId,
    inflictor: EntId,
    attacker: EntId,
    f: HitFacts,
) -> (Seq<Entity>, HitEnd) {
    let t = targ.0 as int;
    let before = ents[t];
    if before.v.takedamage == TakeDamage::No || !f.allowed || f.grenade == GrenadeTarget::Inert {
        (ents, HitEnd::Untouched)
    } else if f.grenade == GrenadeTarget::Live {
        (ents, HitEnd::Explode)
    } else {
        wounded(ents, level, targ, inflictor, attacker, f)
    }
}

/// The part of a hit that reaches the armor.
pub open spec fn wounded(
    ents: Seq<Entity>,
    level: Level,
    targ: EntId,
    inflictor: EntId,
    attacker: EntId,
    f: HitFacts,
) -> (Seq<Entity>, HitEnd) {
    let t = targ.0 as int;
    let before = ents[t];
    let factor = quad_factor(ents[attacker.0 as int], ents[inflictor.0 as int], level.deathmatch, f.now);
    let full = full_of(f.damage, factor);
    let claim = claim_of(before.v.armortype, f.damage, factor);
    let worn = put_v(ents, targ, armored(before.v, claim, full, inflictor));
    if before.v.flags & Flags::GODMODE != 0 {
        (worn, HitEnd::God)
    } else if shielded(before, f.now) {
        let sound = before.combat.invincible_sound < f.now;
        (
            if sound {
                put_combat(worn, targ, protesting(before.combat, f.now))
            } else {
                worn
            },
            HitEnd::Shielded { sound },
        )
    } else if spares(
        level.teamplay,
        worn[attacker.0 as int],
        worn[inflictor.0 as int],
        f.same_team,
        targ == attacker,
    ) {
        (worn, HitEnd::Spared)
    } else {
        let take = taken(before.v, claim, full);
        let hurt = put_v(worn, targ, drained(worn[t].v, take));
        if hurt[t].v.health <= 0 {
            let (dead, d) = buried(hurt, targ, attacker);
            (dead, HitEnd::Killed(d))
        } else {
            (alerted(hurt, targ, attacker, f.now), HitEnd::Hurt(take))
        }
    }
}

impl GameState {
    /// How much quad multiplies a hit: eightfold in the fourth deathmatch, fourfold otherwise; a
    /// crushing door is not multiplied.
    pub fn damage_factor(&self, inflictor: EntId, attacker: EntId, now: i64) -> (r: i32)
        requires
            self.holds(inflictor),
            self.holds(attacker),
        ensures
            r == quad_factor(self.at(attacker), self.at(inflictor), self.level.deathmatch, now),
    {
        let door: bool = self.entities.slots[inflictor.0 as usize].is_class("door");
        if self.entities.slots[attacker.0 as usize].combat.super_damage_finished > now && !door {
            if self.level.deathmatch == 4 {
                8
            } else {
                4
            }
        } else {
            1
        }
    }

    /// Deal damage: the one way health is lost. A bot that it hurts knows the attacker at once.
    pub fn t_damage(&mut self, targ: EntId, inflictor: EntId, attacker: EntId, f: &HitFacts) -> (r: Hit)
        requires
            old(self).holds(targ),
            old(self).holds(inflictor),
            old(self).holds(attacker),
        ensures
            (final(self).entities@, r.end) == hit(
                old(self).entities@,
                old(self).level,
                targ,
                inflictor,
                attacker,
                *f,
            ),
            ({
                let lands = lands(old(self).at(targ), *f);
                let shove = lands && inflictor.0 != EntId::WORLD && old(self).at(targ).v.movetype == MoveType::Walk;
                &&& r.shove == shove
                &&& r.boost == (shove && one_name(old(self).at(attacker), old(self).at(targ)))
                &&& *final(self) == (GameState {
                    entities: final(self).entities,
                    damage_attacker: if lands {
                        attacker
                    } else {
                        old(self).damage_attacker
                    },
                    damage_inflictor: if lands {
                        inflictor
                    } else {
                        old(self).damage_inflictor
                    },
                    ..*old(self)
                })
            }),
    {
        let t: usize = targ.0 as usize;
        if self.entities.slots[t].v.takedamage == TakeDamage::No || !f.allowed {
            return Hit { end: HitEnd::Untouched, shove: false, boost: false };
        }
        match f.grenade {
            GrenadeTarget::Inert => {
                return Hit { end: HitEnd::Untouched, shove: false, boost: false };
            },
            GrenadeTarget::Live => {
                return Hit { end: HitEnd::Explode, shove: false, boost: false };
            },
            GrenadeTarget::Other => {},
        }
        let shove: bool = inflictor.0 != EntId::WORLD && self.entities.slots[t].v.movetype == MoveType::Walk;
        let boost: bool = shove && same_player_netname(
            &self.entities.slots[attacker.0 as usize],
            &self.entities.slots[t],
        );
        self.damage_attacker = attacker;
        self.damage_inflictor = inflictor;
        let end = self.wound(targ, inflictor, attacker, f);
        Hit { end, shove, boost }
    }

    /// The part of a hit that reaches the armor.
    fn wound(&mut self, targ: EntId, inflictor: EntId, attacker: EntId, f: &HitFacts) -> (end: HitEnd)
        requires
            old(self).holds(targ),
            old(self).holds(inflictor),
            old(self).holds(attacker),
        ensures
            final(self).entities@ == wounded(
                old(self).entities@,
                old(self).level,
                targ,
                inflictor,
                attacker,
                *f,
            ).0,
            end == wounded(
                old(self).entities@,
                old(self).level,
                targ,
                inflictor,
                attacker,
                *f,
            ).1,
            *final(self) == (GameState { entities: final(self).entities, ..*old(self) }),
    {
        let t: usize = targ.0 as usize;
        let factor: i32 = self.damage_factor(inflictor, attacker, f.now);
        let full: i32 = full_points(f.damage, factor);
        let claim: i32 = claimed_points(self.entities.slots[t].v.armortype, f.damage, factor);
        let (worn_v, take) = absorb(self.entities.slots[t].v, claim, full, inflictor);
        self.set_v(targ, worn_v);
        if worn_v.flags.has(Flags::GODMODE) {
            return HitEnd::God;
        }
        let combat = self.entities.slots[t].combat;
        if combat.invincible_finished >= f.now {
            let sound: bool = combat.invincible_sound < f.now;
            if sound {
                self.set_combat(targ, protest(combat, f.now));
            }
            return HitEnd::Shielded { sound };
        }
        let spared: bool = teamplay_protects(
            self.level.teamplay,
            &self.entities.slots[attacker.0 as usize],
            &self.entities.slots[inflictor.0 as usize],
            f.same_team,
            targ == attacker,
        );
        if spared {
            return HitEnd::Spared;
        }
        let hurt_v = drain(worn_v, take);
        self.set_v(targ, hurt_v);
        if hurt_v.health <= 0 {
            let d = self.killed(targ, attacker);
            return HitEnd::Killed(d);
        }
        self.felt(targ, attacker, f.now);
        HitEnd::Hurt(take)
    }

    /// What a blast does to one entity near it: the points it deals, if any. Who is hurt by it dies of
    /// `dtype`.
    pub fn t_radius_damage(
        &mut self,
        head: EntId,
        attacker: EntId,
        ignore: EntId,
        b: &Blast,
        dtype: &str,
    ) -> (r: Option<i64>)
        requires
            old(self).holds(head),
        ensures
            r == if head == ignore {
                None
            } else {
                blasted(old(self).at(head), head == attacker, *b)
            },
            ({
                let hit = final(self).at(head);
                if r is Some {
                    &&& hit.deathtype matches Some(d) && d@ == dtype@
                    &&& final(self).entities@ == old(self).entities@.update(
                        head.0 as int,
                        Entity { deathtype: hit.deathtype, ..old(self).at(head) },
                    )
                } else {
                    final(self).entities@ == old(self).entities@
                }
            }),
            *final(self) == (GameState { entities: final(self).entities, ..*old(self) }),
    {
        if head == ignore {
            return None;
        }
        let i: usize = head.0 as usize;
        let r = blast(&self.entities.slots[i], head == attacker, b);
        if r.is_some() {
            self.entities.slots[i].deathtype = Some(dtype.to_owned());
            assert(self.entities@ =~= old(self).entities@.update(
                head.0 as int,
                Entity { deathtype: self.entities@[head.0 as int].deathtype, ..old(self).at(head) },
            ));
        }
        r
    }

    /// The same for a beam, which starts from its attacker and spares nobody.
    pub fn t_beam_damage(&self, head: EntId, attacker: EntId, b: &Blast) -> (r: Option<i64>)
        requires
            self.holds(head),
        ensures
            r == blasted(self.at(head), head == attacker, *b),
    {
        blast(&self.entities.slots[head.0 as usize], head == attacker, b)
    }
}

/// A blast as one entity meets it: its damage and the distance, in thousandths, and whether anything
/// stands between.
#[derive(Clone, Copy, PartialEq, Eq, Debug, Structural)]
pub struct Blast {
    pub damage: u32,
    pub distance: u32,
    pub reaches: bool,
}

/// The points of a blast, in four-thousandths: half a point less for each unit of distance, and half
/// of that for who set it off.
pub open spec fn blast_points(b: Blast, own: bool) -> int {
    let left = 2 * b.damage - b.distance;
    if left <= 0 {
        0
    } else if own {
        left
    } else {
        2 * left
    }
}

pub open spec fn blasted(e: Entity, own: bool, b: Blast) -> Option<i64> {
    if e.v.takedamage != TakeDamage::No && blast_points(b, own) > 0 && b.reaches {
        Some(blast_points(b, own) as i64)
    } else {
        None
    }
}

fn blast(e: &Entity, own: bool, b: &Blast) -> (r: Option<i64>)
    ensures
        r == blasted(*e, own, *b),
{
    if e.v.takedamage == TakeDamage::No {
        return None;
    }
    let full: i64 = 2 * b.damage as i64;
    let distance: i64 = b.distance as i64;
    if full <= distance || !b.reaches {
        return None;
    }
    let left: i64 = full - distance;
    if own {
        Some(left)
    } else {
        Some(2 * left)
    }
}

/// A blast hurts less further off, its own maker half as much as another, and nobody beyond twice its
/// damage in units.
pub proof fn blasts_fall_off(damage: u32, near: u32, far: u32, own: bool)
    requires
        near <= far,
    ensures
        blast_points(Blast { damage, distance: far, reaches: true }, own) <= blast_points(
            Blast { damage, distance: near, reaches: true },
            own,
        ),
        2 * blast_points(Blast { damage, distance: near, reaches: true }, true) == blast_points(
            Blast { damage, distance: near, reaches: true },
            false,
        ),
        far >= 2 * damage ==> blast_points(Blast { damage, distance: far, reaches: true }, own) == 0,
{
}

/// Replacing the shared fields of one entity leaves the others, and everything else of that one.
proof fn lemma_put_v(ents: Seq<Entity>, e: EntId, v: EntVars, i: int)
    requires
        e.0 < ents.len(),
        0 <= i < ents.len(),
    ensures
        put_v(ents, e, v).len() == ents.len(),
        i != e.0 ==> put_v(ents, e, v)[i] == ents[i],
        put_v(ents, e, v)[e.0 as int].v == v,
        put_v(ents, e, v)[i].class() == ents[i].class(),
        put_v(ents, e, v)[e.0 as int] == (Entity { v, ..ents[e.0 as int] }),
{
    reveal(put_v);
}

proof fn lemma_scored(ents: Seq<Entity>, targ: EntId, attacker: EntId, o: Obituary, i: int)
    requires
        targ.0 < ents.len(),
        attacker.0 < ents.len(),
        o matches Obituary::Frag(k) ==> k == attacker,
        0 <= i < ents.len(),
    ensures
        scored(ents, targ, o).len() == ents.len(),
        i != targ.0 && i != attacker.0 ==> scored(ents, targ, o)[i] == ents[i],
        scored(ents, targ, o)[i].v.health == ents[i].v.health,
{
}

proof fn lemma_buried(ents: Seq<Entity>, targ: EntId, attacker: EntId, i: int)
    requires
        targ.0 < ents.len(),
        attacker.0 < ents.len(),
        0 <= i < ents.len(),
    ensures
        buried(ents, targ, attacker).0.len() == ents.len(),
        i != targ.0 && i != attacker.0 ==> buried(ents, targ, attacker).0[i] == ents[i],
        buried(ents, targ, attacker).0[targ.0 as int].v.health == floored(ents[targ.0 as int].v).health,
{
    let t = targ.0 as int;
    if is_thing(ents[t]) {
        lemma_put_v(ents, targ, floored(ents[t].v), i);
    } else {
        let blamed = put_v(ents, targ, blaming(ents[t].v, attacker));
        lemma_put_v(ents, targ, blaming(ents[t].v, attacker), i);
        let o = blame(blamed[t], blamed[attacker.0 as int], targ == attacker, attacker);
        lemma_scored(blamed, targ, attacker, o, i);
        lemma_scored(blamed, targ, attacker, o, t);
    }
}

/// God mode, the pentagram and teamplay keep health whole, whatever the hit.
pub proof fn protected_targets_keep_their_health(
    ents: Seq<Entity>,
    level: Level,
    targ: EntId,
    inflictor: EntId,
    attacker: EntId,
    f: HitFacts,
)
    requires
        targ.0 < ents.len(),
        inflictor.0 < ents.len(),
        attacker.0 < ents.len(),
        ({
            let t = ents[targ.0 as int];
            t.v.takedamage == TakeDamage::No || t.v.flags & Flags::GODMODE != 0 || shielded(t, f.now) || spares(
                level.teamplay,
                ents[attacker.0 as int],
                ents[inflictor.0 as int],
                f.same_team,
                targ == attacker,
            )
        }),
    ensures
        hit(ents, level, targ, inflictor, attacker, f).0[targ.0 as int].v.health == ents[targ.0 as int].v.health,
        !(hit(ents, level, targ, inflictor, attacker, f).1 is Killed),
{
    let t = targ.0 as int;
    let factor = quad_factor(ents[attacker.0 as int], ents[inflictor.0 as int], level.deathmatch, f.now);
    let full = full_of(f.damage, factor);
    let claim = claim_of(ents[t].v.armortype, f.damage, factor);
    let v = armored(ents[t].v, claim, full, inflictor);
    let worn = put_v(ents, targ, v);
    lemma_put_v(ents, targ, v, t);
    lemma_put_v(ents, targ, v, attacker.0 as int);
    lemma_put_v(ents, targ, v, inflictor.0 as int);
    assert(v.health == ents[t].v.health);
    reveal(put_combat);
    assert(put_combat(worn, targ, protesting(ents[t].combat, f.now))[t].v == v);
    assert(spares(level.teamplay, worn[attacker.0 as int], worn[inflictor.0 as int], f.same_team, targ == attacker)
        == spares(level.teamplay, ents[attacker.0 as int], ents[inflictor.0 as int], f.same_team, targ == attacker));
}

/// A hit changes nobody but its target, and the score of whoever is to blame.
pub proof fn bystanders_are_untouched(
    ents: Seq<Entity>,
    level: Level,
    targ: EntId,
    inflictor: EntId,
    attacker: EntId,
    f: HitFacts,
    i: int,
)
    requires
        targ.0 < ents.len(),
        attacker.0 < ents.len(),
        0 <= i < ents.len(),
        i != targ.0,
        i != attacker.0,
    ensures
        hit(ents, level, targ, inflictor, attacker, f).0[i] == ents[i],
        hit(ents, level, targ, inflictor, attacker, f).0.len() == ents.len(),
{
    let t = targ.0 as int;
    let factor = quad_factor(ents[attacker.0 as int], ents[inflictor.0 as int], level.deathmatch, f.now);
    let full = full_of(f.damage, factor);
    let claim = claim_of(ents[t].v.armortype, f.damage, factor);
    let v = armored(ents[t].v, claim, full, inflictor);
    let worn = put_v(ents, targ, v);
    lemma_put_v(ents, targ, v, i);
    let noisy = put_combat(worn, targ, protesting(ents[t].combat, f.now));
    reveal(put_combat);
    assert(noisy[i] == worn[i] && noisy.len() == worn.len());
    let low = drained(worn[t].v, taken(ents[t].v, claim, full));
    lemma_put_v(worn, targ, low, i);
    reveal(alerted);
    lemma_buried(put_v(worn, targ, low), targ, attacker, i);
}

proof fn lemma_alerted(ents: Seq<Entity>, targ: EntId, attacker: EntId, now: i64)
    requires
        targ.0 < ents.len(),
        feels(ents[targ.0 as int], ents[attacker.0 as int], targ == attacker),
    ensures
        alerted(ents, targ, attacker, now)[targ.0 as int].bot == alarmed(ents[targ.0 as int].bot, attacker.0, now),
{
    reveal(alerted);
}

/// A bot that survives a hit by another player knows who did it.
pub proof fn hurt_bots_know_their_attacker(
    ents: Seq<Entity>,
    level: Level,
    targ: EntId,
    inflictor: EntId,
    attacker: EntId,
    f: HitFacts,
)
    requires
        targ.0 < ents.len(),
        inflictor.0 < ents.len(),
        attacker.0 < ents.len(),
        targ != attacker,
        ents[targ.0 as int].bot.is_bot,
        ents[attacker.0 as int].class() == Some("player"@),
        hit(ents, level, targ, inflictor, attacker, f).1 is Hurt,
    ensures
        hit(ents, level, targ, inflictor, attacker, f).0[targ.0 as int].bot == alarmed(
            ents[targ.0 as int].bot,
            attacker.0,
            f.now,
        ),
{
    let t = targ.0 as int;
    let factor = quad_factor(ents[attacker.0 as int], ents[inflictor.0 as int], level.deathmatch, f.now);
    let full = full_of(f.damage, factor);
    let claim = claim_of(ents[t].v.armortype, f.damage, factor);
    let v = armored(ents[t].v, claim, full, inflictor);
    let worn = put_v(ents, targ, v);
    lemma_put_v(ents, targ, v, attacker.0 as int);
    let low = drained(worn[t].v, taken(ents[t].v, claim, full));
    lemma_put_v(worn, targ, low, attacker.0 as int);
    lemma_alerted(put_v(worn, targ, low), targ, attacker, f.now);
}

/// A target that dies is left with no more than no health, and no less than the floor; laid out, it
/// takes no more damage and its health stays.
pub proof fn the_dead_have_no_health(ents: Seq<Entity>, targ: EntId, attacker: EntId)
    requires
        targ.0 < ents.len(),
        attacker.0 < ents.len(),
        ents[targ.0 as int].v.health <= 0,
    ensures
        LOWEST_HEALTH <= buried(ents, targ, attacker).0[targ.0 as int].v.health <= 0,
        ({
            let dead = buried(ents, targ, attacker).0[targ.0 as int];
            laid_out(dead).v.takedamage == TakeDamage::No && laid_out(dead).v.health == dead.v.health
        }),
{
    lemma_buried(ents, targ, attacker, targ.0 as int);
}

// --- what a hit promises ---
/// Armor claims the least whole number of points that is not below its share of the hit.
pub proof fn armor_claims_its_share(armortype: i32, damage: i64, factor: int)
    requires
        0 <= armortype <= 1000,
        0 <= damage,
        1 <= factor <= 8,
    ensures
        ({
            let claim = claim_of(armortype, damage, factor);
            let share = armortype * damage * factor;
            &&& 0 <= claim
            &&& claim < i32::MAX ==> 4_000_000 * (claim - 1) < share <= 4_000_000 * claim
            &&& claim == i32::MAX ==> 4_000_000 * (claim - 1) < share
        }),
{
    let x = armortype * (damage * factor);
    assert(x == armortype * damage * factor) by (nonlinear_arith)
        requires
            x == armortype * (damage * factor),
    ;
    assert(x >= 0) by (nonlinear_arith)
        requires
            x == armortype * (damage * factor),
            armortype >= 0,
            damage >= 0,
            factor >= 1,
    ;
}

/// A hit counts the least whole number of points that is not below it.
pub proof fn hits_count_in_whole_points(damage: i64, factor: int)
    requires
        0 <= damage,
        1 <= factor <= 8,
    ensures
        ({
            let full = full_of(damage, factor);
            &&& 0 <= full
            &&& full < i32::MAX ==> 4_000 * (full - 1) < damage * factor <= 4_000 * full
            &&& full == i32::MAX ==> 4_000 * (full - 1) < damage * factor
        }),
{
    assert(damage * factor >= 0) by (nonlinear_arith)
        requires
            damage >= 0,
            factor >= 1,
    ;
}

/// Only a running quad multiplies a hit, by four, or by eight in the fourth deathmatch; never that of
/// a door.
pub proof fn quad_is_for_attackers(attacker: Entity, inflictor: Entity, deathmatch: i32, now: i64)
    ensures
        ({
            let q = quad_factor(attacker, inflictor, deathmatch, now);
            &&& attacker.combat.super_damage_finished <= now ==> q == 1
            &&& inflictor.class() == Some("door"@) ==> q == 1
            &&& attacker.combat.super_damage_finished > now && inflictor.class() != Some("door"@) ==> q == if deathmatch
                == 4 {
                8int
            } else {
                4int
            }
        }),
{
}

/// Teamplay spares nobody in other modes, from strangers, from doors or from the world; it spares the
/// own team otherwise, and oneself in the first mode alone.
pub proof fn teamplay_spares_the_own_team(teamplay: i32, attacker: Entity, inflictor: Entity, same_team: bool, own: bool)
    ensures
        ({
            let r = spares(teamplay, attacker, inflictor, same_team, own);
            let by_player = attacker.class() == Some("player"@) && inflictor.class() != Some("door"@);
            &&& !same_team || !by_player ==> !r
            &&& teamplay != 1 && teamplay != 3 ==> !r
            &&& teamplay == 3 && own ==> !r
            &&& same_team && by_player && teamplay == 1 ==> r
            &&& same_team && by_player && teamplay == 3 && !own ==> r
        }),
{
}

/// Broken armor is gone with its bits and nothing else; whole armor is as it was but for what it
/// paid.
pub proof fn armor_wears_off(v: EntVars, absorbed: i32, full: i32, inflictor: EntId)
    requires
        0 <= v.armorvalue,
        0 <= absorbed,
    ensures
        ({
            let r = armored(v, absorbed, full, inflictor);
            &&& absorbed < v.armorvalue ==> r.armorvalue == v.armorvalue - absorbed && r.armortype == v.armortype
                && r.items == v.items
            &&& absorbed >= v.armorvalue ==> r.armorvalue == 0 && r.armortype == 0 && r.items & (Items::ARMOR1
                | Items::ARMOR2 | Items::ARMOR3) == 0 && r.items | (Items::ARMOR1 | Items::ARMOR2 | Items::ARMOR3)
                == v.items | (Items::ARMOR1 | Items::ARMOR2 | Items::ARMOR3)
            &&& r.health == v.health && r.frags == v.frags && r.takedamage == v.takedamage && r.flags == v.flags
            &&& v.flags & Flags::CLIENT == 0 ==> r.dmg_take == v.dmg_take && r.dmg_save == v.dmg_save
            &&& v.flags & Flags::CLIENT != 0 && v.dmg_take == 0 && v.dmg_save == 0 && 0 <= full <= 0x4000_0000 && absorbed
                <= full ==> r.dmg_take + r.dmg_save == full && r.dmg_inflictor == prog_of(inflictor)
        }),
{
    let items = v.items;
    let all = ALL_ARMOR;
    assert((items & !all) & all == 0 && (items & !all) | all == items | all) by (bit_vector);
}

/// A hit that lands on a target that nothing protects: armor and health pay for it together, the armor
/// no more than its share and what there is of it, and the target dies exactly if its health does not
/// suffice.
pub proof fn hits_are_paid_for(
    ents: Seq<Entity>,
    level: Level,
    targ: EntId,
    inflictor: EntId,
    attacker: EntId,
    f: HitFacts,
)
    requires
        targ.0 < ents.len(),
        inflictor.0 < ents.len(),
        attacker.0 < ents.len(),
        0 <= f.damage <= 0x1_0000_0000,
        f.allowed,
        f.grenade == GrenadeTarget::Other,
        ({
            let t = ents[targ.0 as int];
            &&& t.v.takedamage != TakeDamage::No
            &&& t.v.flags & Flags::GODMODE == 0
            &&& t.combat.invincible_finished < f.now
            &&& 0 < t.v.health
            &&& 0 <= t.v.armorvalue
            &&& 0 <= t.v.armortype <= 1000
            &&& !spares(level.teamplay, ents[attacker.0 as int], ents[inflictor.0 as int], f.same_team, targ == attacker)
        }),
    ensures
        ({
            let before = ents[targ.0 as int].v;
            let (after, end) = hit(ents, level, targ, inflictor, attacker, f);
            let now = after[targ.0 as int].v;
            let factor = quad_factor(ents[attacker.0 as int], ents[inflictor.0 as int], level.deathmatch, f.now);
            let full = full_of(f.damage, factor);
            let claim = claim_of(before.armortype, f.damage, factor);
            let save = before.armorvalue - now.armorvalue;
            &&& save == if claim < before.armorvalue {
                claim
            } else {
                before.armorvalue
            }
            &&& full - save < before.health ==> end == HitEnd::Hurt((full - save) as i32) && now.health == before.health - (
            full - save)
            &&& full - save >= before.health ==> end is Killed && now.health <= 0
        }),
{
    let t = targ.0 as int;
    let factor = quad_factor(ents[attacker.0 as int], ents[inflictor.0 as int], level.deathmatch, f.now);
    let full = full_of(f.damage, factor);
    let claim = claim_of(ents[t].v.armortype, f.damage, factor);
    let v = armored(ents[t].v, claim, full, inflictor);
    let worn = put_v(ents, targ, v);
    lemma_put_v(ents, targ, v, t);
    lemma_put_v(ents, targ, v, attacker.0 as int);
    lemma_put_v(ents, targ, v, inflictor.0 as int);
    let take = taken(ents[t].v, claim, full);
    let low = drained(worn[t].v, take);
    let hurt = put_v(worn, targ, low);
    lemma_put_v(worn, targ, low, t);
    lemma_put_v(worn, targ, low, attacker.0 as int);
    claims_fit_the_hit(ents[t].v.armortype, f.damage, factor);
    hits_count_in_whole_points(f.damage, factor);
    assert(0 <= f.damage * factor <= 0x8_0000_0000) by (nonlinear_arith)
        requires
            0 <= f.damage <= 0x1_0000_0000,
            1 <= factor <= 8,
    ;
    assert(0 <= full <= 0x100_0000);
    lemma_alerted_v(hurt, targ, attacker, f.now);
    lemma_buried(hurt, targ, attacker, t);
    lemma_buried_armor(hurt, targ, attacker);
    assert(spares(level.teamplay, worn[attacker.0 as int], worn[inflictor.0 as int], f.same_team, targ == attacker)
        == spares(level.teamplay, ents[attacker.0 as int], ents[inflictor.0 as int], f.same_team, targ == attacker));
}

proof fn lemma_alerted_v(ents: Seq<Entity>, targ: EntId, attacker: EntId, now: i64)
    requires
        targ.0 < ents.len(),
    ensures
        alerted(ents, targ, attacker, now)[targ.0 as int].v == ents[targ.0 as int].v,
        alerted(ents, targ, attacker, now).len() == ents.len(),
{
    reveal(alerted);
}

proof fn lemma_buried_armor(ents: Seq<Entity>, targ: EntId, attacker: EntId)
    requires
        targ.0 < ents.len(),
        attacker.0 < ents.len(),
    ensures
        buried(ents, targ, attacker).0[targ.0 as int].v.armorvalue == ents[targ.0 as int].v.armorvalue,
{
    let t = targ.0 as int;
    lemma_put_v(ents, targ, floored(ents[t].v), t);
    lemma_put_v(ents, targ, blaming(ents[t].v, attacker), t);
}

/// A death is scored once: a player gains a frag for killing another; a suicide, or a death by
/// anything else, costs the dead one; nobody scores for the death of a thing or a monster.
pub proof fn deaths_are_scored_once(ents: Seq<Entity>, targ: EntId, attacker: EntId, i: int)
    requires
        targ.0 < ents.len(),
        attacker.0 < ents.len(),
        0 <= i < ents.len(),
        -0x4000_0000 < ents[i].v.frags < 0x4000_0000,
    ensures
        ({
            let gained = buried(ents, targ, attacker).0[i].v.frags - ents[i].v.frags;
            let of_player = ents[targ.0 as int].class() == Some("player"@) && !is_thing(ents[targ.0 as int]);
            let by_player = ents[attacker.0 as int].class() == Some("player"@);
            gained == if of_player && by_player && targ != attacker && i == attacker.0 {
                1int
            } else if of_player && (!by_player || targ == attacker) && i == targ.0 {
                -1int
            } else {
                0int
            }
        }),
{
    let t = targ.0 as int;
    lemma_put_v(ents, targ, floored(ents[t].v), i);
    lemma_put_v(ents, targ, blaming(ents[t].v, attacker), i);
    lemma_put_v(ents, targ, blaming(ents[t].v, attacker), attacker.0 as int);
    lemma_put_v(ents, targ, blaming(ents[t].v, attacker), t);
}

/// The dead name their killer, are hurt no more, touch nothing, and lie as low as ninety-nine below.
pub proof fn the_dead_lie_still(ents: Seq<Entity>, targ: EntId, attacker: EntId)
    requires
        targ.0 < ents.len(),
        attacker.0 < ents.len(),
        ents[targ.0 as int].v.health <= 0,
    ensures
        ({
            let was = ents[targ.0 as int];
            let dead = buried(ents, targ, attacker).0[targ.0 as int];
            let body = laid_out(dead);
            &&& dead.v.health == if was.v.health < -99 {
                -99int
            } else {
                was.v.health as int
            }
            &&& was.v.movetype == MoveType::Push || was.v.movetype == MoveType::Nil <==> buried(ents, targ, attacker).1
                == Death::Thing
            &&& was.v.movetype != MoveType::Push && was.v.movetype != MoveType::Nil ==> dead.v.enemy == prog_of(attacker)
            &&& body.v.takedamage == TakeDamage::No && body.touch == Touch::Nil && body.v.touch == 0 && body.v.effects == 0
            &&& body.v.health == dead.v.health && body.v.items == dead.v.items && body.v.frags == dead.v.frags
        }),
{
    lemma_buried(ents, targ, attacker, targ.0 as int);
    let t = targ.0 as int;
    lemma_put_v(ents, targ, floored(ents[t].v), t);
    lemma_put_v(ents, targ, blaming(ents[t].v, attacker), t);
}

/// What no longer takes damage, what the mode protects and grenades that ignore shots are left alone; a
/// live grenade goes off.
pub proof fn some_hits_do_nothing(
    ents: Seq<Entity>,
    level: Level,
    targ: EntId,
    inflictor: EntId,
    attacker: EntId,
    f: HitFacts,
)
    requires
        targ.0 < ents.len(),
    ensures
        ({
            let t = ents[targ.0 as int];
            let (after, end) = hit(ents, level, targ, inflictor, attacker, f);
            &&& t.v.takedamage == TakeDamage::No || !f.allowed ==> end == HitEnd::Untouched && after == ents
            &&& t.v.takedamage != TakeDamage::No && f.allowed && f.grenade == GrenadeTarget::Inert ==> end
                == HitEnd::Untouched && after == ents
            &&& t.v.takedamage != TakeDamage::No && f.allowed && f.grenade == GrenadeTarget::Live ==> end
                == HitEnd::Explode && after == ents
            &&& end == HitEnd::Explode ==> f.grenade == GrenadeTarget::Live
            &&& end == HitEnd::God ==> t.v.flags & Flags::GODMODE != 0
            &&& end is Shielded ==> t.combat.invincible_finished >= f.now
            &&& (end matches HitEnd::Shielded { sound } && sound) ==> t.combat.invincible_sound < f.now
            &&& t.v.takedamage != TakeDamage::No && f.allowed && f.grenade == GrenadeTarget::Other && t.v.flags
                & Flags::GODMODE != 0 ==> end == HitEnd::God
            &&& t.v.takedamage != TakeDamage::No && f.allowed && f.grenade == GrenadeTarget::Other && t.v.flags
                & Flags::GODMODE == 0 && t.combat.invincible_finished >= f.now ==> end == (HitEnd::Shielded {
                sound: t.combat.invincible_sound < f.now,
            })
        }),
{
}

/// The pentagram protests at most once in two seconds.
pub proof fn protests_are_spaced(c: CombatState, now: i64, later: i64)
    requires
        now <= later,
        later <= now + 2_000,
        now < i64::MAX - 2_000,
    ensures
        !(protesting(c, now).invincible_sound < later),
        protesting(c, now).invincible_finished == c.invincible_finished,
{
}

/// A blast deals a point for each point of damage, less half a point for each unit of distance, to
/// others; it needs a way to its target, and something that can be hurt.
pub proof fn blasts_need_a_way(e: Entity, own: bool, b: Blast)
    ensures
        ({
            let r = blasted(e, own, b);
            &&& !b.reaches || e.v.takedamage == TakeDamage::No || b.distance >= 2 * b.damage ==> r is None
            &&& b.reaches && e.v.takedamage != TakeDamage::No && b.distance < 2 * b.damage ==> (r matches Some(p) && if own {
                2 * p == 4 * b.damage - 2 * b.distance
            } else {
                p == 4 * b.damage - 2 * b.distance
            })
        }),
{
}

/// A blast tries the middle of a target and four points fifteen units out on the diagonals.
pub proof fn blasts_try_five_points()
    ensures
        corner(0) == (0int, 0int),
        corner(1) == (15int, 15int),
        corner(2) == (-15int, -15int),
        corner(3) == (-15int, 15int),
        corner(4) == (15int, -15int),
{
}

/// A hit lands on what can be hurt, where the mode allows it, and not on a grenade.
pub proof fn hits_land_where_they_may(t: Entity, f: HitFacts)
    ensures
        lands(t, f) <==> t.v.takedamage != TakeDamage::No && f.allowed && f.grenade == GrenadeTarget::Other,
{
}

/// An entity is known by its name, else by its class; two players are one where their names are.
pub proof fn names_are_shown(a: Entity, b: Entity)
    ensures
        a.netname matches Some(n) ==> shown_name(a) == n@,
        a.netname is None && a.classname is Some ==> shown_name(a) == (a.classname->0)@,
        a.netname is None && a.classname is None ==> shown_name(a) == ""@,
        one_name(a, b) <==> a.class() == Some("player"@) && b.class() == Some("player"@) && shown_name(a) == shown_name(b),
{
}

/// Health never falls below minus ninety-nine, a blast is looked for forty units further than it
/// reaches, and a protected target protests every two seconds.
pub proof fn hits_have_their_measures()
    ensures
        LOWEST_HEALTH == -99 && BLAST_SLACK == 40_000 && PROTECT_SOUND == 2_000,
{
}

/// Whether two team names are those of one team.
pub open spec fn same_side(a: Seq<char>, b: Seq<char>) -> bool {
    a != ""@ && a == b
}

/// A side is shared by who has the same name for it; who has none has no side.
pub proof fn sides_are_shared_by_name(a: Seq<char>, b: Seq<char>)
    ensures
        same_side(a, b) == same_side(b, a),
        same_side(a, b) ==> a == b && a != ""@,
        a != ""@ ==> same_side(a, a),
        !same_side(""@, b),
{
}

} // verus!
