//! Items: what a player gets for touching one, and when it comes back.
//!
//! Health, armor and ammo are whole points, times milliseconds.
use crate::abi::EntVars;
use crate::arsenal::{
    ammo_count, ammo_held, row_of_class, row_of_item, weapon_spec, weapon_spec_for_classname, AmmoKind, WeaponSpec,
};
use crate::assets::{Model, Sound};
use crate::combat::ALL_ARMOR;
use crate::defs::{AmmoFlags, Bits, Flags, HealthFlags, Items, MoveType, Solid, Weapon};
use crate::entity::{prog_of, CombatState, EntId, Entity, ItemState, Think, Touch};
use crate::game::{drawn, put_combat, put_think, put_v, xorshift, GameState};
use crate::num::{after, bounded, fit, fitted};
use crate::spawn::{AmmoBox, ExploboxSpawn, FlameSpawn, PowerupSpawn, SpawnAction, SpawnFn};
use vstd::prelude::*;

verus! {

/// No item raises health beyond this.
pub const HEALTH_CAP: i32 = 250;

pub const MEGA_ROT_DELAY: i64 = 5000;

pub const MEGA_ROT_STEP: i64 = 1000;

pub const ITEM_RESPAWN: i64 = 20000;

pub const WEAPON_RESPAWN: i64 = 30000;

pub const POWERUP_TIME: i64 = 30000;

/// An item settles this long after it spawns; a backpack lies this long.
pub const ITEM_SETTLE: i64 = 200;

pub const BACKPACK_TIME: i64 = 120000;

// --- shared steps ---
pub open spec fn is_live_player(e: Entity) -> bool {
    e.class() == Some("player"@) && e.v.health > 0
}

pub fn live_player(e: &Entity) -> (r: bool)
    ensures
        r == is_live_player(*e),
{
    e.is_class("player") && e.v.health > 0
}

/// In the fourth deathmatch an invulnerable player takes no health and no armor.
pub open spec fn barred(e: Entity, deathmatch: i32) -> bool {
    deathmatch == 4 && e.combat.invincible_time > 0
}

/// A taken item: invisible and out of the way.
pub open spec fn hidden(v: EntVars) -> EntVars {
    EntVars { modelindex: 0, solid: Solid::Not, ..v }
}

fn hide_v(v: EntVars) -> (r: EntVars)
    ensures
        r == hidden(v),
{
    let mut out = v;
    out.modelindex = 0;
    out.solid = Solid::Not;
    out
}

/// A hidden item that comes back `delay` after `now`.
pub open spec fn due_back(v: EntVars, delay: i64, now: i64) -> EntVars {
    EntVars { nextthink: bounded(now + delay), ..hidden(v) }
}

fn hide_until(v: EntVars, delay: i64, now: i64) -> (r: EntVars)
    ensures
        r == due_back(v, delay, now),
{
    let mut out = hide_v(v);
    out.nextthink = after(now, delay);
    out
}

/// The entities once an item was taken: it is hidden, and where it respawns it is due back.
pub open spec fn finished(ents: Seq<Entity>, e: EntId, delay: Option<i64>, now: i64) -> Seq<Entity> {
    let v = ents[e.0 as int].v;
    match delay {
        Some(d) => put_think(ents, e, due_back(v, d, now), Think::SubRegen),
        None => put_v(ents, e, hidden(v)),
    }
}

/// The respawn delay of an ordinary item: none in the second deathmatch.
pub open spec fn respawn(deathmatch: i32, delay: i64) -> Option<i64> {
    if deathmatch != 2 {
        Some(delay)
    } else {
        None
    }
}

fn respawn_delay(deathmatch: i32, delay: i64) -> (r: Option<i64>)
    ensures
        r == respawn(deathmatch, delay),
{
    if deathmatch != 2 {
        Some(delay)
    } else {
        None
    }
}

impl GameState {
    /// Hide an item, schedule its return, and note who took it; its targets are to be fired next.
    pub fn pickup_finish(&mut self, e: EntId, other: EntId, delay: Option<i64>, now: i64)
        requires
            old(self).holds(e),
        ensures
            final(self).entities@ == finished(old(self).entities@, e, delay, now),
            *final(self) == (GameState { entities: final(self).entities, activator: other, ..*old(self) }),
    {
        let v = self.entities.slots[e.0 as usize].v;
        match delay {
            Some(d) => {
                self.set_think(e, hide_until(v, d, now), Think::SubRegen);
            },
            None => {
                self.set_v(e, hide_v(v));
            },
        }
        self.activator = other;
    }

    /// Show an item again.
    pub fn sub_regen(&mut self, e: EntId)
        requires
            old(self).holds(e),
        ensures
            final(self).entities@ == put_v(
                old(self).entities@,
                e,
                EntVars { solid: Solid::Trigger, ..old(self).at(e).v },
            ),
            *final(self) == (GameState { entities: final(self).entities, ..*old(self) }),
    {
        let mut v = self.entities.slots[e.0 as usize].v;
        v.solid = Solid::Trigger;
        self.set_v(e, v);
    }

    /// Let an item settle once everything solid has.
    pub fn start_item(&mut self, e: EntId, now: i64)
        requires
            old(self).holds(e),
        ensures
            final(self).entities@ == put_think(
                old(self).entities@,
                e,
                EntVars { nextthink: bounded(now + ITEM_SETTLE), ..old(self).at(e).v },
                Think::PlaceItem,
            ),
            *final(self) == (GameState { entities: final(self).entities, ..*old(self) }),
    {
        let mut v = self.entities.slots[e.0 as usize].v;
        v.nextthink = after(now, ITEM_SETTLE);
        self.set_think(e, v, Think::PlaceItem);
    }

    /// Settle an item; one that finds no floor is to be removed.
    pub fn place_item(&mut self, e: EntId, on_floor: bool)
        requires
            old(self).holds(e),
        ensures
            final(self).entities@ == placed(old(self).entities@, e, on_floor),
            *final(self) == (GameState { entities: final(self).entities, ..*old(self) }),
    {
        let mut v = self.entities.slots[e.0 as usize].v;
        v.flags = Flags::ITEM;
        v.solid = Solid::Trigger;
        v.movetype = MoveType::Toss;
        self.set_v(e, v);
        if !on_floor {
            self.free(e);
        }
    }
}

pub open spec fn settled(v: EntVars) -> EntVars {
    EntVars { flags: Flags::ITEM, solid: Solid::Trigger, movetype: MoveType::Toss, ..v }
}

pub open spec fn placed(ents: Seq<Entity>, e: EntId, on_floor: bool) -> Seq<Entity> {
    let down = put_v(ents, e, settled(ents[e.0 as int].v));
    if on_floor {
        down
    } else {
        down.update(e.0 as int, Entity { in_use: false, ..down[e.0 as int] })
    }
}

// --- health ---
/// The fields after healing, or none where it does nothing: the dead are not healed, and the
/// healthy only by what may exceed their maximum.
pub open spec fn healed(v: EntVars, heal: i32, ignore: bool) -> Option<EntVars> {
    if v.health <= 0 || (!ignore && v.health >= v.max_health) {
        None
    } else {
        let sum = v.health + heal;
        let held = if !ignore && sum >= v.max_health {
            v.max_health as int
        } else {
            sum
        };
        Some(
            EntVars {
                health: if held > HEALTH_CAP {
                    HEALTH_CAP
                } else {
                    fitted(held)
                },
                ..v
            },
        )
    }
}

pub fn t_heal(v: EntVars, heal: i32, ignore: bool) -> (r: Option<EntVars>)
    ensures
        r == healed(v, heal, ignore),
{
    if v.health <= 0 || (!ignore && v.health >= v.max_health) {
        return None;
    }
    let mut new: i64 = v.health as i64 + heal as i64;
    if !ignore && new >= v.max_health as i64 {
        new = v.max_health as i64;
    }
    if new > HEALTH_CAP as i64 {
        new = HEALTH_CAP as i64;
    }
    let mut out = v;
    out.health = fit(new);
    Some(out)
}

/// Healing never kills, and never lifts health past the cap that applies.
pub proof fn healing_stays_in_bounds(v: EntVars, heal: i32, ignore: bool)
    requires
        heal >= 0,
        v.max_health > 0,
    ensures
        healed(v, heal, ignore) matches Some(h) ==> {
            &&& 0 < h.health <= HEALTH_CAP
            &&& !ignore ==> h.health <= v.max_health
            &&& v.health <= HEALTH_CAP ==> v.health <= h.health
        },
{
}

/// The player after a health box, if it helps; a megahealth leaves its mark.
pub open spec fn boxed(v: EntVars, item: ItemState) -> Option<EntVars> {
    if item.healtype == 2 {
        if v.health < HEALTH_CAP {
            match healed(v, item.healamount, true) {
                Some(h) => Some(EntVars { items: h.items | Items::SUPERHEALTH, ..h }),
                None => None,
            }
        } else {
            None
        }
    } else {
        healed(v, item.healamount, false)
    }
}

fn open_box(v: EntVars, item: ItemState) -> (r: Option<EntVars>)
    ensures
        r == boxed(v, item),
{
    if item.healtype != 2 {
        return t_heal(v, item.healamount, false);
    }
    if v.health >= HEALTH_CAP {
        return None;
    }
    match t_heal(v, item.healamount, true) {
        Some(h) => {
            let mut out = h;
            out.items = h.items.with(Items::SUPERHEALTH);
            Some(out)
        },
        None => None,
    }
}

/// A megahealth that was taken: it belongs to the taker and starts to rot, save in the fourth
/// deathmatch.
pub open spec fn claimed(v: EntVars, other: EntId, rots: bool, now: i64) -> EntVars {
    EntVars {
        owner: prog_of(other),
        nextthink: if rots {
            bounded(now + MEGA_ROT_DELAY)
        } else {
            v.nextthink
        },
        ..hidden(v)
    }
}

fn claim(v: EntVars, other: EntId, rots: bool, now: i64) -> (r: EntVars)
    ensures
        r == claimed(v, other, rots, now),
{
    let mut out = hide_v(v);
    out.owner = other.to_prog();
    if rots {
        out.nextthink = after(now, MEGA_ROT_DELAY);
    }
    out
}

/// The entities after a health box was taken.
pub open spec fn health_taken(
    ents: Seq<Entity>,
    e: EntId,
    other: EntId,
    v: EntVars,
    deathmatch: i32,
    now: i64,
) -> Seq<Entity> {
    let fed = put_v(ents, other, v);
    let box_ = fed[e.0 as int];
    if box_.item.healtype == 2 {
        let rots = deathmatch != 4;
        put_think(
            fed,
            e,
            claimed(box_.v, other, rots, now),
            if rots {
                Think::MegaHealthRot
            } else {
                box_.think
            },
        )
    } else {
        finished(fed, e, respawn(deathmatch, ITEM_RESPAWN), now)
    }
}

impl GameState {
    /// A health box is touched. True where it was taken: its targets are to be fired.
    pub fn health_touch(&mut self, e: EntId, other: EntId, now: i64) -> (taken: bool)
        requires
            old(self).holds(e),
            old(self).holds(other),
        ensures
            ({
                let p = old(self).at(other);
                let gain = boxed(p.v, old(self).at(e).item);
                &&& taken == (is_live_player(p) && !barred(p, old(self).level.deathmatch) && gain is Some)
                &&& final(self).entities@ == if taken {
                    health_taken(old(self).entities@, e, other, gain->0, old(self).level.deathmatch, now)
                } else {
                    old(self).entities@
                }
            }),
            *final(self) == (GameState {
                entities: final(self).entities,
                activator: if taken {
                    other
                } else {
                    old(self).activator
                },
                ..*old(self)
            }),
    {
        let p = &self.entities.slots[other.0 as usize];
        if !live_player(p) {
            return false;
        }
        if self.level.deathmatch == 4 && p.combat.invincible_time > 0 {
            return false;
        }
        let v = match open_box(p.v, self.entities.slots[e.0 as usize].item) {
            Some(v) => v,
            None => return false,
        };
        self.set_v(other, v);
        if self.entities.slots[e.0 as usize].item.healtype == 2 {
            let rots: bool = self.level.deathmatch != 4;
            let think = if rots {
                Think::MegaHealthRot
            } else {
                self.entities.slots[e.0 as usize].think
            };
            let v = claim(self.entities.slots[e.0 as usize].v, other, rots, now);
            self.set_think(e, v, think);
            self.activator = other;
        } else {
            let delay = respawn_delay(self.level.deathmatch, ITEM_RESPAWN);
            self.pickup_finish(e, other, delay, now);
        }
        true
    }

    /// A megahealth wears off: a point a second down to the maximum, then it is over and the box is
    /// due back. True while it goes on.
    pub fn mega_health_rot(&mut self, e: EntId, now: i64) -> (rotting: bool)
        requires
            old(self).holds(e),
            old(self).holds(old(self).at(e).spec_owner()),
        ensures
            ({
                let owner = old(self).at(e).spec_owner();
                let v = old(self).at(owner).v;
                &&& rotting == (v.health > v.max_health)
                &&& final(self).entities@ == rotted(old(self).entities@, e, owner, old(self).level.deathmatch, now)
            }),
            *final(self) == (GameState { entities: final(self).entities, ..*old(self) }),
    {
        let owner = self.entities.slots[e.0 as usize].owner();
        let mut v = self.entities.slots[owner.0 as usize].v;
        if v.health > v.max_health {
            v.health = v.health - 1;
            self.set_v(owner, v);
            let mut w = self.entities.slots[e.0 as usize].v;
            w.nextthink = after(now, MEGA_ROT_STEP);
            self.set_v(e, w);
            return true;
        }
        v.items = v.items.without(Items::SUPERHEALTH);
        self.set_v(owner, v);
        if self.level.deathmatch != 2 {
            let mut w = self.entities.slots[e.0 as usize].v;
            w.nextthink = after(now, ITEM_RESPAWN);
            self.set_think(e, w, Think::SubRegen);
        }
        false
    }
}

/// The entities after a step of a megahealth's rot.
pub open spec fn rotted(ents: Seq<Entity>, e: EntId, owner: EntId, deathmatch: i32, now: i64) -> Seq<Entity> {
    let v = ents[owner.0 as int].v;
    if v.health > v.max_health {
        let less = put_v(ents, owner, EntVars { health: (v.health - 1) as i32, ..v });
        put_v(less, e, EntVars { nextthink: bounded(now + MEGA_ROT_STEP), ..less[e.0 as int].v })
    } else {
        let over = put_v(ents, owner, EntVars { items: v.items & !Items::SUPERHEALTH, ..v });
        if deathmatch != 2 {
            put_think(
                over,
                e,
                EntVars { nextthink: bounded(now + ITEM_RESPAWN), ..over[e.0 as int].v },
                Think::SubRegen,
            )
        } else {
            over
        }
    }
}

// --- armor ---
/// Share, points and item bit of an armor by its class.
pub open spec fn armor_of(class: Option<Seq<char>>) -> (i32, i32, i32) {
    if class == Some("item_armor1"@) {
        (300, 100, Items::ARMOR1)
    } else if class == Some("item_armor2"@) {
        (600, 150, Items::ARMOR2)
    } else {
        (800, 200, Items::ARMOR3)
    }
}

pub open spec fn dressed(v: EntVars, armor: (i32, i32, i32)) -> EntVars {
    EntVars { armortype: armor.0, armorvalue: armor.1, items: (v.items & !ALL_ARMOR) | armor.2, ..v }
}

/// Whether an armor is better than what is worn.
pub open spec fn improves(v: EntVars, armor: (i32, i32, i32)) -> bool {
    v.armortype * v.armorvalue < armor.0 * armor.1
}

impl GameState {
    /// An armor is touched. True where it was taken: its targets are to be fired.
    pub fn armor_touch(&mut self, e: EntId, other: EntId, now: i64) -> (taken: bool)
        requires
            old(self).holds(e),
            old(self).holds(other),
        ensures
            ({
                let p = old(self).at(other);
                let armor = armor_of(old(self).at(e).class());
                &&& taken == (is_live_player(p) && !barred(p, old(self).level.deathmatch) && improves(p.v, armor))
                &&& final(self).entities@ == if taken {
                    finished(
                        put_v(old(self).entities@, other, dressed(p.v, armor)),
                        e,
                        respawn(old(self).level.deathmatch, ITEM_RESPAWN),
                        now,
                    )
                } else {
                    old(self).entities@
                }
            }),
            *final(self) == (GameState {
                entities: final(self).entities,
                activator: if taken {
                    other
                } else {
                    old(self).activator
                },
                ..*old(self)
            }),
    {
        let p = &self.entities.slots[other.0 as usize];
        if !live_player(p) {
            return false;
        }
        if self.level.deathmatch == 4 && p.combat.invincible_time > 0 {
            return false;
        }
        let item = &self.entities.slots[e.0 as usize];
        let (kind, value, bit, offered): (i32, i32, i32, i64) = if item.is_class("item_armor1") {
            (300, 100, Items::ARMOR1, 30000)
        } else if item.is_class("item_armor2") {
            (600, 150, Items::ARMOR2, 90000)
        } else {
            (800, 200, Items::ARMOR3, 160000)
        };
        let mut v = p.v;
        assert(-0x4000_0000_0000_0000 <= v.armortype * v.armorvalue <= 0x4000_0000_0000_0000) by (nonlinear_arith)
            requires
                -0x8000_0000 <= v.armortype <= 0x7fff_ffff,
                -0x8000_0000 <= v.armorvalue <= 0x7fff_ffff,
        ;
        if v.armortype as i64 * v.armorvalue as i64 >= offered {
            return false;
        }
        v.armortype = kind;
        v.armorvalue = value;
        v.items = v.items.without(ALL_ARMOR).with(bit);
        self.set_v(other, v);
        let delay = respawn_delay(self.level.deathmatch, ITEM_RESPAWN);
        self.pickup_finish(e, other, delay, now);
        true
    }
}

/// Armor is only ever traded for better.
pub proof fn armor_never_gets_worse(v: EntVars, armor: (i32, i32, i32))
    requires
        improves(v, armor),
    ensures
        dressed(v, armor).armortype * dressed(v, armor).armorvalue > v.armortype * v.armorvalue,
{
}

// --- ammo and weapons ---
/// What each pool holds at most.
pub open spec fn ammo_cap(kind: AmmoKind) -> i32 {
    match kind {
        AmmoKind::Nails => 200,
        _ => 100,
    }
}

pub open spec fn at_most(n: i32, cap: i32) -> i32 {
    if n <= cap {
        n
    } else {
        cap
    }
}

/// All pools within their caps.
pub open spec fn capped(v: EntVars) -> EntVars {
    EntVars {
        ammo_shells: at_most(v.ammo_shells, 100),
        ammo_nails: at_most(v.ammo_nails, 200),
        ammo_rockets: at_most(v.ammo_rockets, 100),
        ammo_cells: at_most(v.ammo_cells, 100),
        ..v
    }
}

fn hold_to(n: i32, cap: i32) -> (r: i32)
    ensures
        r == at_most(n, cap),
{
    if n <= cap {
        n
    } else {
        cap
    }
}

pub fn bound_other_ammo(v: EntVars) -> (r: EntVars)
    ensures
        r == capped(v),
{
    let mut out = v;
    out.ammo_shells = hold_to(v.ammo_shells, 100);
    out.ammo_nails = hold_to(v.ammo_nails, 200);
    out.ammo_rockets = hold_to(v.ammo_rockets, 100);
    out.ammo_cells = hold_to(v.ammo_cells, 100);
    out
}

/// One pool increased.
pub open spec fn supplied(v: EntVars, kind: AmmoKind, amount: i32) -> EntVars {
    match kind {
        AmmoKind::Shells => EntVars { ammo_shells: fitted(v.ammo_shells + amount), ..v },
        AmmoKind::Nails => EntVars { ammo_nails: fitted(v.ammo_nails + amount), ..v },
        AmmoKind::Rockets => EntVars { ammo_rockets: fitted(v.ammo_rockets + amount), ..v },
        AmmoKind::Cells => EntVars { ammo_cells: fitted(v.ammo_cells + amount), ..v },
    }
}

pub fn add_ammo(v: EntVars, kind: AmmoKind, amount: i32) -> (r: EntVars)
    ensures
        r == supplied(v, kind, amount),
{
    let mut out = v;
    match kind {
        AmmoKind::Shells => {
            out.ammo_shells = fit(v.ammo_shells as i64 + amount as i64);
        },
        AmmoKind::Nails => {
            out.ammo_nails = fit(v.ammo_nails as i64 + amount as i64);
        },
        AmmoKind::Rockets => {
            out.ammo_rockets = fit(v.ammo_rockets as i64 + amount as i64);
        },
        AmmoKind::Cells => {
            out.ammo_cells = fit(v.ammo_cells as i64 + amount as i64);
        },
    }
    out
}

/// No pool ever exceeds its cap once the caps were applied.
pub proof fn caps_hold(v: EntVars, kind: AmmoKind)
    ensures
        ammo_held(capped(v), kind) <= ammo_cap(kind),
        ammo_held(v, kind) <= ammo_cap(kind) ==> ammo_held(capped(v), kind) == ammo_held(v, kind),
{
}

/// How good a weapon is; lower is better.
pub open spec fn rank(w: Weapon) -> int {
    match row_of_item(w.bit()) {
        Some(row) => row.rank as int,
        None => 7,
    }
}

pub fn rank_for_weapon(w: Weapon) -> (r: i32)
    ensures
        r == rank(w),
{
    match weapon_spec(w.item()) {
        Some(row) => row.rank,
        None => 7,
    }
}

/// The number by which players limit automatic switching.
pub open spec fn code_of(w: Weapon) -> int {
    match row_of_item(w.bit()) {
        Some(row) => row.switch_code as int,
        None => 1,
    }
}

pub fn weapon_code(w: Weapon) -> (r: i32)
    ensures
        r == code_of(w),
{
    match weapon_spec(w.item()) {
        Some(row) => row.switch_code,
        None => 1,
    }
}

/// The weapon held after finding `new`: the better of the two.
pub open spec fn better_weapon(held: Weapon, new: Weapon) -> Weapon {
    if rank(new) < rank(held) {
        new
    } else {
        held
    }
}

pub fn deathmatch_weapon(held: Weapon, new: Weapon) -> (r: Weapon)
    ensures
        r == better_weapon(held, new),
{
    if rank_for_weapon(new) < rank_for_weapon(held) {
        new
    } else {
        held
    }
}

/// The fields after switching to a found weapon, where the player's limit allows it and it is no
/// lightning gun in the water.
pub open spec fn switched(v: EntVars, new: Weapon, limit: i32) -> EntVars {
    if code_of(new) <= limit && !(v.flags & Flags::INWATER != 0 && new == Weapon::Lightning) {
        EntVars { weapon: better_weapon(v.weapon, new), ..v }
    } else {
        v
    }
}

fn switch_up(v: EntVars, new: Weapon, limit: i32) -> (r: EntVars)
    ensures
        r == switched(v, new, limit),
{
    let mut out = v;
    if weapon_code(new) <= limit {
        if !v.flags.has(Flags::INWATER) || new != Weapon::Lightning {
            out.weapon = deathmatch_weapon(v.weapon, new);
        }
    }
    out
}

pub open spec fn weapons_stay(deathmatch: i32) -> bool {
    deathmatch == 2 || deathmatch == 3 || deathmatch == 5
}

/// What a weapon on the floor gives: its row and its ammo.
pub open spec fn weapon_offer(class: Option<Seq<char>>) -> Option<(WeaponSpec, AmmoKind)> {
    match class {
        Some(name) => match row_of_class(name) {
            Some(row) => match row.ammo_kind {
                Some(kind) => Some((row, kind)),
                None => None,
            },
            None => None,
        },
        None => None,
    }
}

/// The player after taking a weapon.
pub open spec fn rearmed(v: EntVars, row: WeaponSpec, kind: AmmoKind, limit: i32) -> EntVars {
    let fed = capped(supplied(v, kind, row.pickup_ammo));
    let new = Weapon::of_bit(row.item);
    switched(EntVars { items: fed.items | new.bit(), ..fed }, new, limit)
}

fn rearm(v: EntVars, row: &WeaponSpec, kind: AmmoKind, limit: i32) -> (r: EntVars)
    ensures
        r == rearmed(v, *row, kind, limit),
{
    let mut fed = bound_other_ammo(add_ammo(v, kind, row.pickup_ammo));
    let new = Weapon::from_item(row.item);
    fed.items = fed.items.with(new.item());
    switch_up(fed, new, limit)
}

/// How touching a weapon ended.
#[derive(Clone, Copy, PartialEq, Eq, Debug, Structural)]
pub enum WeaponTouch {
    Refused,
    /// Taken, and it stays where it is.
    Left,
    /// Taken: its targets are to be fired.
    Taken,
}

pub open spec fn weapon_touched(p: Entity, class: Option<Seq<char>>, deathmatch: i32) -> WeaponTouch {
    match weapon_offer(class) {
        Some((row, _)) if p.v.flags & Flags::CLIENT != 0 => {
            let owned = p.v.items & Weapon::of_bit(row.item).bit() != 0;
            if weapons_stay(deathmatch) {
                if owned {
                    WeaponTouch::Refused
                } else {
                    WeaponTouch::Left
                }
            } else {
                WeaponTouch::Taken
            }
        },
        _ => WeaponTouch::Refused,
    }
}

impl GameState {
    /// A weapon is touched. `limit` is the highest weapon number the player lets itself be switched
    /// to.
    pub fn weapon_touch(&mut self, e: EntId, other: EntId, limit: i32, now: i64) -> (r: WeaponTouch)
        requires
            old(self).holds(e),
            old(self).holds(other),
        ensures
            r == weapon_touched(old(self).at(other), old(self).at(e).class(), old(self).level.deathmatch),
            ({
                let offer = weapon_offer(old(self).at(e).class());
                let armed = put_v(
                    old(self).entities@,
                    other,
                    rearmed(old(self).at(other).v, (offer->0).0, (offer->0).1, limit),
                );
                final(self).entities@ == match r {
                    WeaponTouch::Refused => old(self).entities@,
                    WeaponTouch::Left => armed,
                    WeaponTouch::Taken => finished(armed, e, Some(WEAPON_RESPAWN), now),
                }
            }),
            *final(self) == (GameState {
                entities: final(self).entities,
                activator: if r == WeaponTouch::Taken {
                    other
                } else {
                    old(self).activator
                },
                ..*old(self)
            }),
    {
        let v = self.entities.slots[other.0 as usize].v;
        if !v.flags.has(Flags::CLIENT) {
            return WeaponTouch::Refused;
        }
        let dm: i32 = self.level.deathmatch;
        let leave: bool = dm == 2 || dm == 3 || dm == 5;
        let row = match self.entities.slots[e.0 as usize].classname() {
            Some(name) => match weapon_spec_for_classname(name) {
                Some(row) => row,
                None => return WeaponTouch::Refused,
            },
            None => return WeaponTouch::Refused,
        };
        let kind = match row.ammo_kind {
            Some(kind) => kind,
            None => return WeaponTouch::Refused,
        };
        if leave && v.items.has(Weapon::from_item(row.item).item()) {
            return WeaponTouch::Refused;
        }
        self.set_v(other, rearm(v, &row, kind, limit));
        if leave {
            return WeaponTouch::Left;
        }
        self.pickup_finish(e, other, Some(WEAPON_RESPAWN), now);
        WeaponTouch::Taken
    }
}

/// The ammo kind of an ammo box by its number.
pub open spec fn ammo_kind_of(code: i32) -> AmmoKind {
    if code == 1 {
        AmmoKind::Shells
    } else if code == 2 {
        AmmoKind::Nails
    } else if code == 3 {
        AmmoKind::Rockets
    } else {
        AmmoKind::Cells
    }
}

fn ammo_kind(code: i32) -> (r: AmmoKind)
    ensures
        r == ammo_kind_of(code),
{
    if code == 1 {
        AmmoKind::Shells
    } else if code == 2 {
        AmmoKind::Nails
    } else if code == 3 {
        AmmoKind::Rockets
    } else {
        AmmoKind::Cells
    }
}

/// The player after taking an ammo box.
pub open spec fn restocked(v: EntVars, item: ItemState) -> EntVars {
    capped(supplied(v, ammo_kind_of(item.ammo_code), item.aflag))
}

/// When ammo is back: sooner in the modes where weapons stay, never in the second.
pub open spec fn ammo_respawn(deathmatch: i32) -> Option<i64> {
    if deathmatch == 3 || deathmatch == 5 {
        Some(15000i64)
    } else if deathmatch != 2 {
        Some(30000i64)
    } else {
        None
    }
}

impl GameState {
    /// An ammo box is touched: a living player with room for it gets what it holds. True where it was
    /// taken.
    pub fn ammo_touch(&mut self, e: EntId, other: EntId) -> (taken: bool)
        requires
            old(self).holds(e),
            old(self).holds(other),
        ensures
            ({
                let p = old(self).at(other);
                let item = old(self).at(e).item;
                let kind = ammo_kind_of(item.ammo_code);
                &&& taken == (is_live_player(p) && ammo_held(p.v, kind) < ammo_cap(kind))
                &&& final(self).entities@ == if taken {
                    put_v(old(self).entities@, other, restocked(p.v, item))
                } else {
                    old(self).entities@
                }
            }),
            *final(self) == (GameState { entities: final(self).entities, ..*old(self) }),
    {
        let p = &self.entities.slots[other.0 as usize];
        if !live_player(p) {
            return false;
        }
        let item = self.entities.slots[e.0 as usize].item;
        let kind = ammo_kind(item.ammo_code);
        let cap: i32 = match kind {
            AmmoKind::Nails => 200,
            _ => 100,
        };
        if ammo_count(&p.v, kind) >= cap {
            return false;
        }
        let v = bound_other_ammo(add_ammo(p.v, kind, item.aflag));
        self.set_v(other, v);
        true
    }

    /// An ammo box was taken: a player that still holds what was its best weapon is switched to what
    /// is its best one now, and the box goes. Its targets are to be fired.
    pub fn ammo_taken(&mut self, e: EntId, other: EntId, best_before: Weapon, best_now: Weapon, now: i64)
        requires
            old(self).holds(e),
            old(self).holds(other),
        ensures
            ({
                let v = old(self).at(other).v;
                let drawn = if v.weapon == best_before {
                    EntVars { weapon: best_now, ..v }
                } else {
                    v
                };
                final(self).entities@ == finished(
                    put_v(old(self).entities@, other, drawn),
                    e,
                    ammo_respawn(old(self).level.deathmatch),
                    now,
                )
            }),
            *final(self) == (GameState { entities: final(self).entities, activator: other, ..*old(self) }),
    {
        let mut v = self.entities.slots[other.0 as usize].v;
        if v.weapon == best_before {
            v.weapon = best_now;
        }
        self.set_v(other, v);
        let dm: i32 = self.level.deathmatch;
        let delay: Option<i64> = if dm == 3 || dm == 5 {
            Some(15000)
        } else if dm != 2 {
            Some(30000)
        } else {
            None
        };
        self.pickup_finish(e, other, delay, now);
    }
}

// --- powerups ---
/// Which powerup a class is.
#[derive(Clone, Copy, PartialEq, Eq, Debug, Structural)]
pub enum Artifact {
    Suit,
    Pentagram,
    Ring,
    Quad,
    Unknown,
}

pub open spec fn artifact_of(class: Option<Seq<char>>) -> Artifact {
    if class == Some("item_artifact_envirosuit"@) {
        Artifact::Suit
    } else if class == Some("item_artifact_invulnerability"@) {
        Artifact::Pentagram
    } else if class == Some("item_artifact_invisibility"@) {
        Artifact::Ring
    } else if class == Some("item_artifact_super_damage"@) {
        Artifact::Quad
    } else {
        Artifact::Unknown
    }
}

pub fn artifact(e: &Entity) -> (r: Artifact)
    ensures
        r == artifact_of(e.class()),
{
    if e.is_class("item_artifact_envirosuit") {
        Artifact::Suit
    } else if e.is_class("item_artifact_invulnerability") {
        Artifact::Pentagram
    } else if e.is_class("item_artifact_invisibility") {
        Artifact::Ring
    } else if e.is_class("item_artifact_super_damage") {
        Artifact::Quad
    } else {
        Artifact::Unknown
    }
}

/// The warning latch of a powerup that has just begun and has not warned yet.
pub const POWERUP_LATCH: i64 = 1000;

/// The timers once a powerup began.
pub open spec fn empowered(c: CombatState, a: Artifact, now: i64) -> CombatState {
    let until = bounded(now + POWERUP_TIME);
    match a {
        Artifact::Suit => CombatState { rad_time: POWERUP_LATCH, radsuit_finished: until, ..c },
        Artifact::Pentagram => CombatState { invincible_time: POWERUP_LATCH, invincible_finished: until, ..c },
        Artifact::Ring => CombatState { invisible_time: POWERUP_LATCH, invisible_finished: until, ..c },
        Artifact::Quad => CombatState { super_time: POWERUP_LATCH, super_damage_finished: until, ..c },
        Artifact::Unknown => c,
    }
}

fn empower(c: CombatState, a: Artifact, now: i64) -> (r: CombatState)
    ensures
        r == empowered(c, a, now),
{
    let until: i64 = after(now, POWERUP_TIME);
    let mut out = c;
    match a {
        Artifact::Suit => {
            out.rad_time = POWERUP_LATCH;
            out.radsuit_finished = until;
        },
        Artifact::Pentagram => {
            out.invincible_time = POWERUP_LATCH;
            out.invincible_finished = until;
        },
        Artifact::Ring => {
            out.invisible_time = POWERUP_LATCH;
            out.invisible_finished = until;
        },
        Artifact::Quad => {
            out.super_time = POWERUP_LATCH;
            out.super_damage_finished = until;
        },
        Artifact::Unknown => {},
    }
    out
}

/// The player's fields once it has a powerup; quad in the fourth deathmatch costs armor and cells.
pub open spec fn adorned(v: EntVars, bits: i32, a: Artifact, deathmatch: i32) -> EntVars {
    let w = EntVars { items: v.items | bits, ..v };
    if a == Artifact::Quad && deathmatch == 4 {
        EntVars { armortype: 0, armorvalue: 0, ammo_cells: 0, ..w }
    } else {
        w
    }
}

/// The pentagram and the ring are back after five minutes, the others after one.
pub open spec fn powerup_respawn(a: Artifact) -> i64 {
    if a == Artifact::Pentagram || a == Artifact::Ring {
        300000
    } else {
        60000
    }
}

impl GameState {
    /// A powerup is touched. True where it was taken: its targets are to be fired.
    pub fn powerup_touch(&mut self, e: EntId, other: EntId, now: i64) -> (taken: bool)
        requires
            old(self).holds(e),
            old(self).holds(other),
        ensures
            ({
                let p = old(self).at(other);
                let a = artifact_of(old(self).at(e).class());
                let v = adorned(p.v, old(self).at(e).v.items, a, old(self).level.deathmatch);
                &&& taken == is_live_player(p)
                &&& final(self).entities@ == if taken {
                    finished(
                        put_combat(put_v(old(self).entities@, other, v), other, empowered(p.combat, a, now)),
                        e,
                        Some(powerup_respawn(a)),
                        now,
                    )
                } else {
                    old(self).entities@
                }
            }),
            *final(self) == (GameState {
                entities: final(self).entities,
                activator: if taken {
                    other
                } else {
                    old(self).activator
                },
                ..*old(self)
            }),
    {
        let p = &self.entities.slots[other.0 as usize];
        if !live_player(p) {
            return false;
        }
        let a = artifact(&self.entities.slots[e.0 as usize]);
        let bits: i32 = self.entities.slots[e.0 as usize].v.items;
        let mut v = p.v;
        let combat = p.combat;
        v.items = v.items.with(bits);
        if a == Artifact::Quad && self.level.deathmatch == 4 {
            v.armortype = 0;
            v.armorvalue = 0;
            v.ammo_cells = 0;
        }
        self.set_v(other, v);
        self.set_combat(other, empower(combat, a, now));
        let delay: i64 = if a == Artifact::Pentagram || a == Artifact::Ring {
            300000
        } else {
            60000
        };
        self.pickup_finish(e, other, Some(delay), now);
        true
    }
}

// --- backpacks ---
/// The player after taking a backpack with these fields.
pub open spec fn unpacked(v: EntVars, pack: EntVars, limit: i32) -> EntVars {
    let fed = EntVars {
        ammo_shells: fitted(v.ammo_shells + pack.ammo_shells),
        ammo_nails: fitted(v.ammo_nails + pack.ammo_nails),
        ammo_rockets: fitted(v.ammo_rockets + pack.ammo_rockets),
        ammo_cells: fitted(v.ammo_cells + pack.ammo_cells),
        items: v.items | pack.items,
        ..v
    };
    let new = if pack.items != 0 {
        Weapon::of_bit(pack.items)
    } else {
        v.weapon
    };
    switched(capped(fed), new, limit)
}

fn unpack(v: EntVars, pack: EntVars, limit: i32) -> (r: EntVars)
    ensures
        r == unpacked(v, pack, limit),
{
    let mut fed = v;
    fed.ammo_shells = fit(v.ammo_shells as i64 + pack.ammo_shells as i64);
    fed.ammo_nails = fit(v.ammo_nails as i64 + pack.ammo_nails as i64);
    fed.ammo_rockets = fit(v.ammo_rockets as i64 + pack.ammo_rockets as i64);
    fed.ammo_cells = fit(v.ammo_cells as i64 + pack.ammo_cells as i64);
    fed.items = v.items.with(pack.items);
    let new = if pack.items != 0 {
        Weapon::from_item(pack.items)
    } else {
        v.weapon
    };
    switch_up(bound_other_ammo(fed), new, limit)
}

impl GameState {
    /// A backpack is touched. True where it was taken, and is gone.
    pub fn backpack_touch(&mut self, e: EntId, other: EntId, limit: i32) -> (taken: bool)
        requires
            old(self).holds(e),
            old(self).holds(other),
        ensures
            ({
                let p = old(self).at(other);
                let fed = put_v(old(self).entities@, other, unpacked(p.v, old(self).at(e).v, limit));
                &&& taken == is_live_player(p)
                &&& final(self).entities@ == if taken {
                    fed.update(e.0 as int, Entity { in_use: false, ..fed[e.0 as int] })
                } else {
                    old(self).entities@
                }
            }),
            *final(self) == (GameState { entities: final(self).entities, ..*old(self) }),
    {
        let p = &self.entities.slots[other.0 as usize];
        if !live_player(p) {
            return false;
        }
        let v = unpack(p.v, self.entities.slots[e.0 as usize].v, limit);
        self.set_v(other, v);
        self.free(e);
        true
    }
}

/// Whether the dead leave a backpack: they must have some ammo.
pub fn leaves_backpack(v: &EntVars) -> (r: bool)
    ensures
        r == drops_pack(*v),
        r == (v.ammo_shells + v.ammo_nails + v.ammo_rockets + v.ammo_cells != 0),
{
    v.ammo_shells as i64 + v.ammo_nails as i64 + v.ammo_rockets as i64 + v.ammo_cells as i64 != 0
}

/// The fields of a backpack with the weapon and ammo of the dead.
pub open spec fn packed(item: EntVars, dead: EntVars, now: i64) -> EntVars {
    EntVars {
        items: dead.weapon.bit(),
        ammo_shells: dead.ammo_shells,
        ammo_nails: dead.ammo_nails,
        ammo_rockets: dead.ammo_rockets,
        ammo_cells: dead.ammo_cells,
        flags: Flags::ITEM,
        solid: Solid::Trigger,
        movetype: MoveType::Toss,
        touch: 1,
        nextthink: bounded(now + BACKPACK_TIME),
        ..item
    }
}

/// The name on a backpack.
pub open spec fn pack_name(w: Weapon) -> Seq<char> {
    match row_of_item(w.bit()) {
        Some(row) => row.backpack_name@,
        None => ""@,
    }
}

/// The lower and the upper corner of an item's box, in thousandths of a unit.
pub open spec fn low_corner(t: Touch) -> Seq<i32> {
    let side = (-16_000) as i32;
    match t {
        Touch::ItemHealth | Touch::ItemAmmo => seq![0i32, 0, 0],
        Touch::ItemPowerup => seq![side, side, (-24_000) as i32],
        _ => seq![side, side, 0],
    }
}

pub open spec fn high_corner(t: Touch) -> Seq<i32> {
    match t {
        Touch::ItemHealth | Touch::ItemAmmo => seq![32_000i32, 32_000, 56_000],
        Touch::ItemPowerup => seq![16_000i32, 16_000, 32_000],
        _ => seq![16_000i32, 16_000, 56_000],
    }
}

/// The box of an item, by how it is taken.
pub fn item_box(t: Touch) -> (r: ([i32; 3], [i32; 3]))
    ensures
        r.0@ == low_corner(t),
        r.1@ == high_corner(t),
{
    match t {
        Touch::ItemHealth | Touch::ItemAmmo => ([0, 0, 0], [32_000, 32_000, 56_000]),
        Touch::ItemPowerup => ([-16_000, -16_000, -24_000], [16_000, 16_000, 32_000]),
        _ => ([-16_000, -16_000, 0], [16_000, 16_000, 56_000]),
    }
}

/// How fast a backpack is tossed up.
pub const TOSS_UP: i32 = 300_000;

/// A sideways toss: up to a hundred units a second either way, by a share of all of it.
pub open spec fn tossed(share: u32) -> int {
    -100_000 + 200_000 * share / 0x100_0000
}

fn toss(share: u32) -> (r: i32)
    requires
        share < 0x100_0000,
    ensures
        r == tossed(share),
        -100_000 <= r < 100_000,
{
    (200_000 * share as i64 / 0x100_0000) as i32 - 100_000
}

impl GameState {
    /// Which way a backpack is tossed. Two numbers are drawn.
    pub fn toss_backpack(&mut self) -> (r: [i32; 3])
        ensures
            r@ == seq![
                tossed(drawn(old(self).rng)) as i32,
                tossed(drawn(xorshift(old(self).rng))) as i32,
                TOSS_UP,
            ],
            *final(self) == (GameState { rng: xorshift(xorshift(old(self).rng)), ..*old(self) }),
    {
        let x = self.random();
        let y = self.random();
        [toss(x), toss(y), TOSS_UP]
    }
}

/// Make a fresh entity the backpack of a dead player.
pub fn drop_backpack(item: &mut Entity, dead: &EntVars, now: i64)
    ensures
        *final(item) == (Entity {
            v: packed(old(item).v, *dead, now),
            netname: final(item).netname,
            touch: Touch::Backpack,
            think: Think::SubRemove,
            ..*old(item)
        }),
        final(item).netname matches Some(n) && n@ == pack_name(dead.weapon),
{
    let name: &'static str = match weapon_spec(dead.weapon.item()) {
        Some(row) => row.backpack_name,
        None => "",
    };
    let mut v = item.v;
    v.items = dead.weapon.item();
    v.ammo_shells = dead.ammo_shells;
    v.ammo_nails = dead.ammo_nails;
    v.ammo_rockets = dead.ammo_rockets;
    v.ammo_cells = dead.ammo_cells;
    v.flags = Flags::ITEM;
    v.solid = Solid::Trigger;
    v.movetype = MoveType::Toss;
    v.touch = 1;
    v.nextthink = after(now, BACKPACK_TIME);
    item.v = v;
    item.netname = Some(name.to_owned());
    item.touch = Touch::Backpack;
    item.think = Think::SubRemove;
}

/// Taking a dropped backpack gives the ammo of the dead, up to the caps, and their weapon.
pub proof fn a_backpack_holds_what_was_dropped(taker: EntVars, item: EntVars, dead: EntVars, limit: i32, now: i64, kind: AmmoKind)
    requires
        0 <= ammo_held(taker, kind) <= ammo_cap(kind),
        0 <= ammo_held(dead, kind) <= ammo_cap(kind),
    ensures
        ammo_held(unpacked(taker, packed(item, dead, now), limit), kind) == at_most(
            (ammo_held(taker, kind) + ammo_held(dead, kind)) as i32,
            ammo_cap(kind),
        ),
        unpacked(taker, packed(item, dead, now), limit).items == taker.items | dead.weapon.bit(),
{
}

// --- placing items on the map ---
/// An item that is about to settle.
pub open spec fn starting(e: Entity, now: i64) -> Entity {
    Entity { v: EntVars { nextthink: bounded(now + ITEM_SETTLE), ..e.v }, think: Think::PlaceItem, ..e }
}

pub open spec fn touchable(e: Entity, t: Touch) -> Entity {
    Entity { touch: t, v: EntVars { touch: 1, ..e.v }, ..e }
}

fn start(e: &mut Entity, now: i64)
    ensures
        *final(e) == starting(*old(e), now),
{
    e.v.nextthink = after(now, ITEM_SETTLE);
    e.think = Think::PlaceItem;
}

/// Amount, type, model and sound of a health box by its spawn flags.
pub open spec fn health_box(flags: i32) -> (i32, i32, Model, Sound) {
    if flags & HealthFlags::ROTTEN != 0 {
        (15, 0, Model::MAPS_B_BH10, Sound::ITEMS_R_ITEM1)
    } else if flags & HealthFlags::MEGA != 0 {
        (100, 2, Model::MAPS_B_BH100, Sound::ITEMS_R_ITEM2)
    } else {
        (25, 1, Model::MAPS_B_BH25, Sound::ITEMS_HEALTH1)
    }
}

/// A health box that was placed.
pub open spec fn health_placed(before: Entity, now: i64) -> Entity {
    let (amount, kind, model, noise) = health_box(before.v.spawnflags);
    starting(
        Entity {
            model_cstr: Some(model),
            noise: Some(noise),
            item: ItemState { healamount: amount, healtype: kind, ..before.item },
            ..touchable(before, Touch::ItemHealth)
        },
        now,
    )
}

pub fn spawn_item_health(e: &mut Entity, now: i64)
    ensures
        *final(e) == health_placed(*old(e), now),
{
    e.set_touch(Touch::ItemHealth);
    let flags: i32 = e.v.spawnflags;
    let (amount, kind, model, noise): (i32, i32, Model, Sound) = if flags.has(HealthFlags::ROTTEN) {
        (15, 0, Model::MAPS_B_BH10, Sound::ITEMS_R_ITEM1)
    } else if flags.has(HealthFlags::MEGA) {
        (100, 2, Model::MAPS_B_BH100, Sound::ITEMS_R_ITEM2)
    } else {
        (25, 1, Model::MAPS_B_BH25, Sound::ITEMS_HEALTH1)
    };
    e.model_cstr = Some(model);
    e.noise = Some(noise);
    e.item.healamount = amount;
    e.item.healtype = kind;
    start(e, now);
}

/// Armor that was placed.
pub open spec fn armor_placed(before: Entity, skin: i32, now: i64) -> Entity {
    starting(
        Entity {
            model_cstr: Some(Model::PROGS_ARMOR),
            v: EntVars { skin, touch: 1, ..before.v },
            touch: Touch::ItemArmor,
            ..before
        },
        now,
    )
}

pub fn spawn_item_armor(e: &mut Entity, skin: i32, now: i64)
    ensures
        *final(e) == armor_placed(*old(e), skin, now),
{
    e.set_touch(Touch::ItemArmor);
    e.model_cstr = Some(Model::PROGS_ARMOR);
    e.v.skin = skin;
    start(e, now);
}

/// What a weapon of a class looks like on the floor and is called; none in the later deathmatches.
pub open spec fn weapon_on_floor(class: Seq<char>, deathmatch: i32) -> Option<(Model, Seq<char>)> {
    match row_of_class(class) {
        Some(row) if deathmatch <= 3 => match row.pickup_model {
            Some(model) => Some((model, row.pickup_name@)),
            None => None,
        },
        _ => None,
    }
}

/// A weapon of a class that was placed.
pub open spec fn weapon_placed(before: Entity, after: Entity, w: (Model, Seq<char>), now: i64) -> bool {
    &&& after == starting(
        Entity { model_cstr: Some(w.0), netname: after.netname, ..touchable(before, Touch::ItemWeapon) },
        now,
    )
    &&& after.netname matches Some(n) && n@ == w.1
}

/// Place a weapon. False where this class or mode has none.
pub fn spawn_weapon_by_classname(e: &mut Entity, classname: &str, deathmatch: i32, now: i64) -> (placed: bool)
    ensures
        placed == weapon_on_floor(classname@, deathmatch) is Some,
        !placed ==> *final(e) == *old(e),
        weapon_on_floor(classname@, deathmatch) matches Some(w) ==> weapon_placed(*old(e), *final(e), w, now),
{
    let row = match weapon_spec_for_classname(classname) {
        Some(row) => row,
        None => return false,
    };
    if deathmatch > 3 {
        return false;
    }
    let model = match row.pickup_model {
        Some(model) => model,
        None => return false,
    };
    e.model_cstr = Some(model);
    e.set_touch(Touch::ItemWeapon);
    e.netname = Some(row.pickup_name.to_owned());
    start(e, now);
    true
}

/// An ammo box that was placed, a large or a small one by its spawn flags.
pub open spec fn ammo_placed(before: Entity, after: Entity, b: AmmoBox, now: i64) -> bool {
    let big = before.v.spawnflags & AmmoFlags::BIG != 0;
    &&& after == starting(
        Entity {
            model_cstr: Some(
                if big {
                    b.big
                } else {
                    b.small
                },
            ),
            item: ItemState {
                aflag: if big {
                    b.big_amt
                } else {
                    b.small_amt
                },
                ammo_code: b.weapon_code,
                ..before.item
            },
            netname: after.netname,
            ..touchable(before, Touch::ItemAmmo)
        },
        now,
    )
    &&& after.netname matches Some(n) && n@ == b.netname@
}

/// Place an ammo box. There is none in the fourth deathmatch.
pub fn spawn_ammo(e: &mut Entity, b: &AmmoBox, deathmatch: i32, now: i64) -> (placed: bool)
    ensures
        placed == (deathmatch != 4),
        !placed ==> *final(e) == *old(e),
        placed ==> ammo_placed(*old(e), *final(e), *b, now),
{
    if deathmatch == 4 {
        return false;
    }
    let big: bool = e.v.spawnflags.has(AmmoFlags::BIG);
    let (model, aflag): (Model, i32) = if big {
        (b.big, b.big_amt)
    } else {
        (b.small, b.small_amt)
    };
    e.item = ItemState { aflag, ammo_code: b.weapon_code, ..e.item };
    e.model_cstr = Some(model);
    e.netname = Some(b.netname.to_owned());
    e.set_touch(Touch::ItemAmmo);
    start(e, now);
    true
}

/// An artifact that was placed.
pub open spec fn powerup_placed(before: Entity, after: Entity, p: PowerupSpawn, now: i64) -> bool {
    &&& after == starting(
        Entity {
            model_cstr: Some(p.model),
            noise: Some(p.noise),
            netname: after.netname,
            v: EntVars { items: p.item_bit, effects: before.v.effects | p.effect, touch: 1, ..before.v },
            touch: Touch::ItemPowerup,
            ..before
        },
        now,
    )
    &&& after.netname matches Some(n) && n@ == p.netname@
}

pub fn spawn_powerup(e: &mut Entity, p: &PowerupSpawn, now: i64)
    ensures
        powerup_placed(*old(e), *final(e), *p, now),
{
    e.set_touch(Touch::ItemPowerup);
    e.model_cstr = Some(p.model);
    e.noise = Some(p.noise);
    e.netname = Some(p.netname.to_owned());
    e.v.items = p.item_bit;
    e.v.effects = e.v.effects.with(p.effect);
    start(e, now);
}

/// What is still to be done for an entity of the map once its items were set up.
#[derive(Clone, Copy, Debug)]
pub enum Spawned {
    /// It is in place.
    Stays,
    /// It is freed.
    Goes,
    /// Its class sets it up.
    ByClass(SpawnFn),
    Flame(FlameSpawn),
    Explobox(ExploboxSpawn),
}

/// The outcome of a spawn rule.
pub open spec fn spawned(before: Entity, after: Entity, class: Seq<char>, a: SpawnAction, deathmatch: i32, now: i64, r: Spawned) -> bool {
    match a {
        SpawnAction::Keep => after == before && r == Spawned::Stays,
        SpawnAction::Drop => after == before && r == Spawned::Goes,
        SpawnAction::Spawn(SpawnFn::ItemHealth) => after == health_placed(before, now) && r == Spawned::Stays,
        SpawnAction::Spawn(f) => after == before && r == Spawned::ByClass(f),
        SpawnAction::Armor(skin) => after == armor_placed(before, skin, now) && r == Spawned::Stays,
        SpawnAction::Weapon => match weapon_on_floor(class, deathmatch) {
            Some(w) => weapon_placed(before, after, w, now) && r == Spawned::Stays,
            None => after == before && r == Spawned::Goes,
        },
        SpawnAction::Ammo(b) => if deathmatch != 4 {
            ammo_placed(before, after, b, now) && r == Spawned::Stays
        } else {
            after == before && r == Spawned::Goes
        },
        SpawnAction::Powerup(p) => powerup_placed(before, after, p, now) && r == Spawned::Stays,
        SpawnAction::Flame(f) => after == before && r == Spawned::Flame(f),
        SpawnAction::Explobox(x) => after == before && r == Spawned::Explobox(x),
    }
}

/// Carry a spawn rule out, as far as items go.
pub fn execute_spawn_action(e: &mut Entity, class: &str, action: &SpawnAction, deathmatch: i32, now: i64) -> (r: Spawned)
    ensures
        spawned(*old(e), *final(e), class@, *action, deathmatch, now, r),
{
    match action {
        SpawnAction::Keep => Spawned::Stays,
        SpawnAction::Drop => Spawned::Goes,
        SpawnAction::Spawn(f) => match f {
            SpawnFn::ItemHealth => {
                spawn_item_health(e, now);
                Spawned::Stays
            },
            _ => Spawned::ByClass(*f),
        },
        SpawnAction::Armor(skin) => {
            spawn_item_armor(e, *skin, now);
            Spawned::Stays
        },
        SpawnAction::Weapon => if spawn_weapon_by_classname(e, class, deathmatch, now) {
            Spawned::Stays
        } else {
            Spawned::Goes
        },
        SpawnAction::Ammo(b) => if spawn_ammo(e, b, deathmatch, now) {
            Spawned::Stays
        } else {
            Spawned::Goes
        },
        SpawnAction::Powerup(p) => {
            spawn_powerup(e, p, now);
            Spawned::Stays
        },
        SpawnAction::Flame(f) => Spawned::Flame(*f),
        SpawnAction::Explobox(x) => Spawned::Explobox(*x),
    }
}

/// What a player's status bar shows: the ammo of the held weapon, its model and its ammo bit.
pub open spec fn shown_weapon(v: EntVars) -> (i32, Option<Model>, i32) {
    match row_of_item(v.weapon.bit()) {
        Some(row) => (
            match row.ammo_kind {
                Some(kind) => ammo_held(v, kind),
                None => 0,
            },
            Some(row.view_model),
            row.ammo_bit,
        ),
        None => (0, None, 0),
    }
}

pub fn current_weapon_ammo_state(v: &EntVars) -> (r: (i32, Option<Model>, i32))
    ensures
        r == shown_weapon(*v),
{
    match weapon_spec(v.weapon.item()) {
        Some(row) => {
            let ammo: i32 = match row.ammo_kind {
                Some(kind) => ammo_count(v, kind),
                None => 0,
            };
            (ammo, Some(row.view_model), row.ammo_bit)
        },
        None => (0, None, 0),
    }
}

// --- what pickups promise ---
/// Pickups are for living players; in the fourth mode, whoever is protected takes no health and no
/// armor.
pub proof fn pickups_are_for_the_living(e: Entity, deathmatch: i32)
    ensures
        is_live_player(e) <==> e.class() == Some("player"@) && e.v.health > 0,
        barred(e, deathmatch) <==> deathmatch == 4 && e.combat.invincible_time > 0,
{
}

/// What was taken is gone from sight and touch; it comes back after its delay, or not at all.
pub proof fn what_is_taken_is_gone(ents: Seq<Entity>, e: EntId, delay: Option<i64>, now: i64)
    requires
        e.0 < ents.len(),
        0 <= now <= i64::MAX - 300_000,
        delay matches Some(d) ==> 0 <= d <= 300_000,
    ensures
        ({
            let after = finished(ents, e, delay, now)[e.0 as int];
            &&& after.v.modelindex == 0 && after.v.solid == Solid::Not
            &&& delay matches Some(d) ==> after.v.nextthink == now + d && after.think == Think::SubRegen
            &&& delay is None ==> after.v.nextthink == ents[e.0 as int].v.nextthink && after.think == ents[e.0 as int].think
            &&& after.v.items == ents[e.0 as int].v.items && after.v.owner == ents[e.0 as int].v.owner
        }),
{
    reveal(put_v);
    reveal(put_think);
}

/// In the second mode nothing comes back.
pub proof fn the_second_mode_brings_nothing_back(deathmatch: i32, delay: i64)
    ensures
        respawn(deathmatch, delay) is None <==> deathmatch == 2,
        deathmatch != 2 ==> respawn(deathmatch, delay) == Some(delay),
        ammo_respawn(deathmatch) is None <==> deathmatch == 2,
        deathmatch == 3 || deathmatch == 5 ==> ammo_respawn(deathmatch) == Some(15_000i64),
        deathmatch != 2 && deathmatch != 3 && deathmatch != 5 ==> ammo_respawn(deathmatch) == Some(30_000i64),
{
}

/// An item on the floor is a thing to touch that falls; one that cannot come to rest is freed.
pub proof fn items_need_a_floor(ents: Seq<Entity>, e: EntId, on_floor: bool)
    requires
        e.0 < ents.len(),
    ensures
        ({
            let after = placed(ents, e, on_floor)[e.0 as int];
            &&& after.in_use == (ents[e.0 as int].in_use && on_floor)
            &&& after.v.flags == Flags::ITEM && after.v.solid == Solid::Trigger && after.v.movetype == MoveType::Toss
        }),
{
    reveal(put_v);
}

/// Healing helps the living by what it is worth, up to their own maximum unless it goes beyond it, and
/// never past two hundred and fifty; who is whole, or dead, gets none.
pub proof fn healing_helps_the_hurt(v: EntVars, heal: i32, ignore: bool)
    requires
        0 <= heal <= 1_000,
        v.health <= 1_000,
        0 < v.max_health <= 250,
    ensures
        ({
            let h = healed(v, heal, ignore);
            &&& h is None <==> v.health <= 0 || (!ignore && v.health >= v.max_health)
            &&& h matches Some(w) ==> {
                &&& !ignore && v.health + heal < v.max_health ==> w.health == v.health + heal
                &&& !ignore && v.health + heal >= v.max_health ==> w.health == v.max_health
                &&& ignore && v.health + heal <= 250 ==> w.health == v.health + heal
                &&& ignore && v.health + heal > 250 ==> w.health == 250
                &&& w == (EntVars { health: w.health, ..v })
            }
        }),
{
}

/// A megahealth goes beyond the maximum and marks its taker; a box does not.
pub proof fn megahealth_goes_beyond(v: EntVars, item: ItemState)
    requires
        0 <= item.healamount <= 1_000,
        0 < v.max_health <= 250,
        v.health <= 1_000,
    ensures
        ({
            let b = boxed(v, item);
            let mega = item.healtype == 2;
            &&& mega ==> (b is Some <==> 0 < v.health < 250)
            &&& !mega ==> (b is Some <==> 0 < v.health < v.max_health)
            &&& mega && b is Some ==> (b->0).items == v.items | Items::SUPERHEALTH
            &&& mega && b is Some && v.health + item.healamount <= 250 ==> (b->0).health == v.health + item.healamount
            &&& mega && b is Some && v.health + item.healamount > 250 ==> (b->0).health == 250
            &&& !mega && b is Some ==> (b->0).items == v.items && (b->0).health <= v.max_health
            &&& !mega && b is Some && v.health + item.healamount <= v.max_health ==> (b->0).health == v.health
                + item.healamount
        }),
{
}

proof fn lemma_put(ents: Seq<Entity>, e: EntId, v: EntVars, t: Think)
    requires
        e.0 < ents.len(),
    ensures
        put_v(ents, e, v).len() == ents.len(),
        put_v(ents, e, v)[e.0 as int] == (Entity { v, ..ents[e.0 as int] }),
        forall|i: int| 0 <= i < ents.len() && i != e.0 ==> put_v(ents, e, v)[i] == ents[i],
        put_think(ents, e, v, t).len() == ents.len(),
        put_think(ents, e, v, t)[e.0 as int] == (Entity { v, think: t, ..ents[e.0 as int] }),
        forall|i: int| 0 <= i < ents.len() && i != e.0 ==> put_think(ents, e, v, t)[i] == ents[i],
{
    reveal(put_v);
    reveal(put_think);
}

/// A box that was taken is due back after twenty seconds. A megahealth hides and starts to rot its
/// taker after five, except in the fourth mode.
pub proof fn health_boxes_come_back(
    ents: Seq<Entity>,
    e: EntId,
    other: EntId,
    v: EntVars,
    deathmatch: i32,
    now: i64,
)
    requires
        e.0 < ents.len(),
        other.0 < ents.len(),
        e != other,
        0 <= now <= i64::MAX - 20_000,
    ensures
        ({
            let after = health_taken(ents, e, other, v, deathmatch, now);
            let gone = after[e.0 as int];
            let mega = ents[e.0 as int].item.healtype == 2;
            &&& after[other.0 as int].v == v
            &&& gone.v.modelindex == 0 && gone.v.solid == Solid::Not
            &&& mega ==> gone.v.owner == prog_of(other)
            &&& mega && deathmatch != 4 ==> gone.think == Think::MegaHealthRot && gone.v.nextthink == now + 5_000
            &&& mega && deathmatch == 4 ==> gone.think == ents[e.0 as int].think && gone.v.nextthink
                == ents[e.0 as int].v.nextthink
            &&& !mega && deathmatch != 2 ==> gone.think == Think::SubRegen && gone.v.nextthink == now + 20_000
            &&& !mega && deathmatch == 2 ==> gone.think == ents[e.0 as int].think && gone.v.nextthink
                == ents[e.0 as int].v.nextthink
        }),
{
    let old_box = ents[e.0 as int];
    let fed = put_v(ents, other, v);
    lemma_put(ents, other, v, old_box.think);
    assert(fed[e.0 as int] == old_box);
    let mega = old_box.item.healtype == 2;
    if mega {
        let rots = deathmatch != 4;
        lemma_put(fed, e, claimed(old_box.v, other, rots, now), Think::MegaHealthRot);
        lemma_put(fed, e, claimed(old_box.v, other, rots, now), old_box.think);
    } else {
        lemma_put(fed, e, due_back(old_box.v, 20_000, now), Think::SubRegen);
        lemma_put(fed, e, hidden(old_box.v), Think::SubRegen);
    }
}

/// A megahealth takes a point a second until its taker is back at the maximum; then the mark goes, and
/// the box is due back after twenty seconds, except in the second mode.
pub proof fn megahealth_rots_away(ents: Seq<Entity>, e: EntId, owner: EntId, deathmatch: i32, now: i64)
    requires
        e.0 < ents.len(),
        owner.0 < ents.len(),
        e != owner,
        0 <= now <= i64::MAX - 20_000,
    ensures
        ({
            let v = ents[owner.0 as int].v;
            let after = rotted(ents, e, owner, deathmatch, now);
            let w = after[owner.0 as int].v;
            let b = after[e.0 as int];
            let over = v.health > v.max_health;
            &&& over ==> w == (EntVars { health: (v.health - 1) as i32, ..v }) && b.v.nextthink == now + 1_000 && b.think
                == ents[e.0 as int].think
            &&& !over ==> w.health == v.health && w.items & Items::SUPERHEALTH == 0 && w.items | Items::SUPERHEALTH
                == v.items | Items::SUPERHEALTH
            &&& !over && deathmatch != 2 ==> b.v.nextthink == now + 20_000 && b.think == Think::SubRegen
            &&& !over && deathmatch == 2 ==> b == ents[e.0 as int]
        }),
{
    let v = ents[owner.0 as int].v;
    let old_box = ents[e.0 as int];
    let less = EntVars { health: (v.health - 1) as i32, ..v };
    let clean = EntVars { items: v.items & !Items::SUPERHEALTH, ..v };
    lemma_put(ents, owner, less, Think::SubRegen);
    lemma_put(ents, owner, clean, Think::SubRegen);
    lemma_put(
        put_v(ents, owner, less),
        e,
        EntVars { nextthink: bounded(now + 1_000), ..old_box.v },
        Think::SubRegen,
    );
    lemma_put(
        put_v(ents, owner, clean),
        e,
        EntVars { nextthink: bounded(now + 20_000), ..old_box.v },
        Think::SubRegen,
    );
    let items = ents[owner.0 as int].v.items;
    assert((items & !(1i32 << 16)) & (1i32 << 16) == 0 && (items & !(1i32 << 16)) | (1i32 << 16) == items | (1i32 << 16))
        by (bit_vector);
}

/// The three armors: how much of a hit they take, and how much they hold.
pub proof fn armors_come_in_three()
    ensures
        armor_of(Some("item_armor1"@)) == (300i32, 100i32, Items::ARMOR1),
        armor_of(Some("item_armor2"@)) == (600i32, 150i32, Items::ARMOR2),
        armor_of(Some("item_armorInv"@)) == (800i32, 200i32, Items::ARMOR3),
{
    reveal_strlit("item_armor1");
    reveal_strlit("item_armor2");
    reveal_strlit("item_armorInv");
    assert("item_armor1"@[10] != "item_armor2"@[10]);
    assert("item_armorInv"@.len() == 13 && "item_armor1"@.len() == 11 && "item_armor2"@.len() == 11);
}

/// Armor is taken exactly where it protects against more than what is worn; it replaces what was worn
/// and its mark, and changes nothing else.
pub proof fn armor_replaces_armor(v: EntVars, kind: i32, value: i32, bit: i32, other: i32)
    requires
        other & (Items::ARMOR1 | Items::ARMOR2 | Items::ARMOR3) == 0,
        bit == Items::ARMOR1 || bit == Items::ARMOR2 || bit == Items::ARMOR3,
    ensures
        ({
            let d = dressed(v, (kind, value, bit));
            &&& improves(v, (kind, value, bit)) <==> kind * value > v.armortype * v.armorvalue
            &&& d.armortype == kind && d.armorvalue == value && d.health == v.health
            &&& d.items & (Items::ARMOR1 | Items::ARMOR2 | Items::ARMOR3) == bit
            &&& d.items & other == v.items & other
        }),
{
    let items = v.items;
    assert(other & ((1i32 << 13) | (1i32 << 14) | (1i32 << 15)) == 0 && (bit == 1i32 << 13 || bit == 1i32 << 14 || bit
        == 1i32 << 15) ==> {
        let all = (1i32 << 13) | (1i32 << 14) | (1i32 << 15);
        let d = (items & !all) | bit;
        d & all == bit && d & other == items & other
    }) by (bit_vector);
}

/// Who can carry how much: two hundred nails, a hundred of the rest; what is beyond it is lost, and
/// nothing else is.
pub proof fn ammo_has_its_caps(v: EntVars)
    ensures
        ammo_cap(AmmoKind::Shells) == 100,
        ammo_cap(AmmoKind::Nails) == 200,
        ammo_cap(AmmoKind::Rockets) == 100,
        ammo_cap(AmmoKind::Cells) == 100,
        ({
            let c = capped(v);
            &&& v.ammo_shells <= 100 ==> c.ammo_shells == v.ammo_shells
            &&& v.ammo_shells > 100 ==> c.ammo_shells == 100
            &&& v.ammo_nails <= 200 ==> c.ammo_nails == v.ammo_nails
            &&& v.ammo_nails > 200 ==> c.ammo_nails == 200
            &&& v.ammo_rockets <= 100 ==> c.ammo_rockets == v.ammo_rockets
            &&& v.ammo_rockets > 100 ==> c.ammo_rockets == 100
            &&& v.ammo_cells <= 100 ==> c.ammo_cells == v.ammo_cells
            &&& v.ammo_cells > 100 ==> c.ammo_cells == 100
            &&& c.health == v.health && c.items == v.items && c.weapon == v.weapon
        }),
{
}

/// What is supplied is added to its own kind, and the other kinds stay.
pub proof fn ammo_is_added_to_its_kind(v: EntVars, kind: AmmoKind, other: AmmoKind, amount: i32)
    requires
        0 <= amount <= 10_000,
        0 <= ammo_held(v, kind) <= 10_000,
        other != kind,
    ensures
        ammo_held(supplied(v, kind, amount), kind) == ammo_held(v, kind) + amount,
        ammo_held(supplied(v, kind, amount), other) == ammo_held(v, other),
        supplied(v, kind, amount).items == v.items && supplied(v, kind, amount).weapon == v.weapon,
{
}

/// The kinds of ammo by their number on a box, and what a box brings.
pub proof fn boxes_hold_one_kind(v: EntVars, item: ItemState)
    requires
        0 <= item.aflag <= 10_000,
        0 <= v.ammo_shells <= 100 && 0 <= v.ammo_nails <= 200 && 0 <= v.ammo_rockets <= 100 && 0 <= v.ammo_cells <= 100,
    ensures
        ({
            let r = restocked(v, item);
            let (code, n) = (item.ammo_code, item.aflag);
            &&& code == 1 ==> r == (EntVars { ammo_shells: at_most((v.ammo_shells + n) as i32, 100), ..v })
            &&& code == 2 ==> r == (EntVars { ammo_nails: at_most((v.ammo_nails + n) as i32, 200), ..v })
            &&& code == 3 ==> r == (EntVars { ammo_rockets: at_most((v.ammo_rockets + n) as i32, 100), ..v })
            &&& code == 4 ==> r == (EntVars { ammo_cells: at_most((v.ammo_cells + n) as i32, 100), ..v })
        }),
{
}

/// The order of the weapons, from the best down, and the numbers by which players limit a switch.
pub proof fn weapons_are_ranked()
    ensures
        rank(Weapon::Lightning) == 1 && code_of(Weapon::Lightning) == 8,
        rank(Weapon::RocketLauncher) == 2 && code_of(Weapon::RocketLauncher) == 7,
        rank(Weapon::SuperNailgun) == 3 && code_of(Weapon::SuperNailgun) == 5,
        rank(Weapon::GrenadeLauncher) == 4 && code_of(Weapon::GrenadeLauncher) == 6,
        rank(Weapon::SuperShotgun) == 5 && code_of(Weapon::SuperShotgun) == 3,
        rank(Weapon::Nailgun) == 6 && code_of(Weapon::Nailgun) == 4,
        rank(Weapon::Shotgun) == 7 && code_of(Weapon::Shotgun) == 1,
        rank(Weapon::Axe) == 7 && code_of(Weapon::Axe) == 1,
        rank(Weapon::Grapple) == 8 && code_of(Weapon::Grapple) == 0,
{
    crate::arsenal::weapons_have_their_worth();
}

/// A find is drawn where it is better than what is held, within the player's limit, and never the
/// thunderbolt in water.
pub proof fn better_finds_are_drawn(v: EntVars, new: Weapon, limit: i32)
    ensures
        ({
            let s = switched(v, new, limit);
            let wet = v.flags & Flags::INWATER != 0 && new == Weapon::Lightning;
            &&& rank(new) < rank(v.weapon) && code_of(new) <= limit && !wet ==> s.weapon == new
            &&& rank(new) >= rank(v.weapon) || code_of(new) > limit || wet ==> s.weapon == v.weapon
            &&& s == (EntVars { weapon: s.weapon, ..v })
        }),
{
}

/// A weapon is for players. Where weapons stay, in modes two, three and five, it is refused to who has
/// it and left for the next; elsewhere it is taken.
pub proof fn weapons_stay_or_go(p: Entity, class: Option<Seq<char>>, deathmatch: i32)
    ensures
        ({
            let t = weapon_touched(p, class, deathmatch);
            let stays = deathmatch == 2 || deathmatch == 3 || deathmatch == 5;
            let offer = weapon_offer(class);
            let owned = p.v.items & Weapon::of_bit((offer->0).0.item).bit() != 0;
            let client = p.v.flags & Flags::CLIENT != 0;
            &&& t == WeaponTouch::Taken <==> client && offer is Some && !stays
            &&& t == WeaponTouch::Left <==> client && offer is Some && stays && !owned
            &&& t == WeaponTouch::Refused <==> !client || offer is None || (stays && owned)
        }),
{
}

/// A weapon brings itself and its ammo, within the caps.
pub proof fn weapons_bring_their_ammo(v: EntVars, row: WeaponSpec, kind: AmmoKind, limit: i32)
    requires
        0 <= row.pickup_ammo <= 10_000,
        0 <= ammo_held(v, kind) <= ammo_cap(kind),
    ensures
        ({
            let r = rearmed(v, row, kind, limit);
            &&& r.items == v.items | Weapon::of_bit(row.item).bit()
            &&& ammo_held(v, kind) + row.pickup_ammo <= ammo_cap(kind) ==> ammo_held(r, kind) == ammo_held(v, kind)
                + row.pickup_ammo
            &&& ammo_held(v, kind) + row.pickup_ammo > ammo_cap(kind) ==> ammo_held(r, kind) == ammo_cap(kind)
            &&& r.health == v.health && r.armorvalue == v.armorvalue
        }),
{
}

/// The powerups by the classes of the map.
pub proof fn artifacts_are_known_by_class()
    ensures
        artifact_of(Some("item_artifact_envirosuit"@)) == Artifact::Suit,
        artifact_of(Some("item_artifact_invulnerability"@)) == Artifact::Pentagram,
        artifact_of(Some("item_artifact_invisibility"@)) == Artifact::Ring,
        artifact_of(Some("item_artifact_super_damage"@)) == Artifact::Quad,
        artifact_of(None) == Artifact::Unknown,
{
    reveal_strlit("item_artifact_envirosuit");
    reveal_strlit("item_artifact_invulnerability");
    reveal_strlit("item_artifact_invisibility");
    reveal_strlit("item_artifact_super_damage");
    assert("item_artifact_envirosuit"@.len() == 24 && "item_artifact_invulnerability"@.len() == 29);
    assert("item_artifact_invisibility"@.len() == 26 && "item_artifact_super_damage"@.len() == 26);
    assert("item_artifact_invisibility"@[14] != "item_artifact_super_damage"@[14]);
}

/// A powerup lasts thirty seconds and is armed to warn; the others run on. The pentagram and the ring
/// come back after five minutes, the rest after one.
pub proof fn powerups_last_thirty_seconds(c: CombatState, a: Artifact, now: i64)
    requires
        0 <= now <= i64::MAX - 30_000,
    ensures
        ({
            let p = empowered(c, a, now);
            let until = (now + 30_000) as i64;
            &&& a == Artifact::Suit ==> p == (CombatState { radsuit_finished: until, rad_time: 1_000, ..c })
            &&& a == Artifact::Pentagram ==> p == (CombatState { invincible_finished: until, invincible_time: 1_000, ..c })
            &&& a == Artifact::Ring ==> p == (CombatState { invisible_finished: until, invisible_time: 1_000, ..c })
            &&& a == Artifact::Quad ==> p == (CombatState { super_damage_finished: until, super_time: 1_000, ..c })
            &&& a == Artifact::Unknown ==> p == c
            &&& a == Artifact::Pentagram || a == Artifact::Ring ==> powerup_respawn(a) == 300_000
            &&& a != Artifact::Pentagram && a != Artifact::Ring ==> powerup_respawn(a) == 60_000
        }),
{
}

/// A powerup adds its mark. In the fourth mode the quad costs armor and cells.
pub proof fn octas_cost_armor(v: EntVars, bits: i32, a: Artifact, deathmatch: i32)
    ensures
        ({
            let w = adorned(v, bits, a, deathmatch);
            let octa = a == Artifact::Quad && deathmatch == 4;
            &&& w.items == v.items | bits && w.health == v.health
            &&& octa ==> w.armortype == 0 && w.armorvalue == 0 && w.ammo_cells == 0
            &&& !octa ==> w == (EntVars { items: w.items, ..v })
        }),
{
}

/// A backpack adds what it holds, within the caps; its weapon is drawn like any find.
pub proof fn backpacks_add_up(v: EntVars, pack: EntVars, limit: i32)
    requires
        0 <= v.ammo_shells <= 100 && 0 <= v.ammo_nails <= 200 && 0 <= v.ammo_rockets <= 100 && 0 <= v.ammo_cells <= 100,
        0 <= pack.ammo_shells <= 1_000 && 0 <= pack.ammo_nails <= 1_000,
        0 <= pack.ammo_rockets <= 1_000 && 0 <= pack.ammo_cells <= 1_000,
    ensures
        ({
            let u = unpacked(v, pack, limit);
            let new = if pack.items != 0 {
                Weapon::of_bit(pack.items)
            } else {
                v.weapon
            };
            &&& u.ammo_shells == at_most((v.ammo_shells + pack.ammo_shells) as i32, 100)
            &&& u.ammo_nails == at_most((v.ammo_nails + pack.ammo_nails) as i32, 200)
            &&& u.ammo_rockets == at_most((v.ammo_rockets + pack.ammo_rockets) as i32, 100)
            &&& u.ammo_cells == at_most((v.ammo_cells + pack.ammo_cells) as i32, 100)
            &&& u.items == v.items | pack.items
            &&& u.weapon == v.weapon || u.weapon == new
            &&& u.weapon != v.weapon ==> rank(new) < rank(v.weapon) && code_of(new) <= limit
            &&& u.weapon == v.weapon && new != v.weapon && code_of(new) <= limit && v.flags & Flags::INWATER == 0 ==> rank(
                new,
            ) >= rank(v.weapon)
        }),
{
}

/// A backpack holds the weapon in hand and all the ammo, lies for two minutes and is touched.
pub proof fn backpacks_lie_for_two_minutes(item: EntVars, dead: EntVars, now: i64)
    requires
        0 <= now <= i64::MAX - 120_000,
    ensures
        ({
            let p = packed(item, dead, now);
            &&& p.items == dead.weapon.bit()
            &&& p.ammo_shells == dead.ammo_shells && p.ammo_nails == dead.ammo_nails
            &&& p.ammo_rockets == dead.ammo_rockets && p.ammo_cells == dead.ammo_cells
            &&& p.flags == Flags::ITEM && p.solid == Solid::Trigger && p.movetype == MoveType::Toss && p.touch == 1
            &&& p.nextthink == now + 120_000
        }),
{
}

/// A backpack is thrown between a hundred units a second back and a hundred forth along either axis.
pub proof fn backpacks_are_tossed(share: u32)
    requires
        share < 0x100_0000,
    ensures
        -100_000 <= tossed(share) < 100_000,
        share == 0 ==> tossed(share) == -100_000,
        share == 0x80_0000 ==> tossed(share) == 0,
{
}

/// The sizes of what lies on the floor.
pub proof fn items_have_their_boxes(t: Touch)
    ensures
        t == Touch::ItemHealth || t == Touch::ItemAmmo ==> low_corner(t) == seq![0i32, 0, 0] && high_corner(t)
            == seq![32_000i32, 32_000, 56_000],
        t == Touch::ItemPowerup ==> low_corner(t) == seq![-16_000i32, -16_000i32, -24_000i32] && high_corner(t)
            == seq![16_000i32, 16_000, 32_000],
        t == Touch::ItemArmor || t == Touch::ItemWeapon || t == Touch::Backpack ==> low_corner(t)
            == seq![-16_000i32, -16_000i32, 0] && high_corner(t) == seq![16_000i32, 16_000, 56_000],
{
}

/// A box heals by its marks: rotten fifteen, plain twenty-five, mega a hundred.
pub proof fn boxes_heal_by_their_marks(before: Entity, now: i64)
    requires
        0 <= now <= i64::MAX - 200,
    ensures
        ({
            let p = health_placed(before, now);
            let rotten = before.v.spawnflags & HealthFlags::ROTTEN != 0;
            let mega = before.v.spawnflags & HealthFlags::MEGA != 0;
            &&& rotten ==> p.item.healamount == 15 && p.item.healtype == 0 && p.model_cstr == Some(Model::MAPS_B_BH10)
            &&& !rotten && mega ==> p.item.healamount == 100 && p.item.healtype == 2 && p.model_cstr == Some(
                Model::MAPS_B_BH100,
            )
            &&& !rotten && !mega ==> p.item.healamount == 25 && p.item.healtype == 1 && p.model_cstr == Some(
                Model::MAPS_B_BH25,
            )
            &&& p.touch == Touch::ItemHealth && p.v.touch == 1
            &&& p.think == Think::PlaceItem && p.v.nextthink == now + 200
        }),
{
}

/// Armor and ammo wait a fifth of a second to settle; a big box holds the big amount.
pub proof fn spawned_items_settle(before: Entity, after: Entity, skin: i32, b: AmmoBox, now: i64)
    requires
        0 <= now <= i64::MAX - 200,
        ammo_placed(before, after, b, now),
    ensures
        ({
            let a = armor_placed(before, skin, now);
            let big = before.v.spawnflags & AmmoFlags::BIG != 0;
            &&& a.v.skin == skin && a.touch == Touch::ItemArmor && a.v.touch == 1 && a.model_cstr == Some(
                Model::PROGS_ARMOR,
            )
            &&& a.think == Think::PlaceItem && a.v.nextthink == now + 200
            &&& big ==> after.item.aflag == b.big_amt && after.model_cstr == Some(b.big)
            &&& !big ==> after.item.aflag == b.small_amt && after.model_cstr == Some(b.small)
            &&& after.item.ammo_code == b.weapon_code && after.touch == Touch::ItemAmmo && after.v.touch == 1
            &&& after.think == Think::PlaceItem && after.v.nextthink == now + 200
        }),
{
}

/// Weapons lie on the floor up to the third mode; ammo in all but the fourth; powerups in all.
pub proof fn modes_decide_what_lies_about(
    before: Entity,
    after: Entity,
    class: Seq<char>,
    a: SpawnAction,
    deathmatch: i32,
    now: i64,
    r: Spawned,
)
    requires
        spawned(before, after, class, a, deathmatch, now, r),
    ensures
        a is Weapon && deathmatch > 3 ==> r == Spawned::Goes,
        a is Weapon && deathmatch <= 3 && row_of_class(class) is Some && (row_of_class(class)->0).pickup_model is Some ==> r
            == Spawned::Stays && after.touch == Touch::ItemWeapon,
        a is Weapon && row_of_class(class) is None ==> r == Spawned::Goes,
        a is Ammo ==> (r == Spawned::Goes <==> deathmatch == 4),
        a is Ammo && deathmatch != 4 ==> r == Spawned::Stays && after.touch == Touch::ItemAmmo,
        a is Powerup ==> r == Spawned::Stays && after.touch == Touch::ItemPowerup,
        a is Armor ==> r == Spawned::Stays && after.touch == Touch::ItemArmor,
        a is Keep ==> r == Spawned::Stays && after == before,
        a is Drop ==> r == Spawned::Goes && after == before,
        a == SpawnAction::Spawn(SpawnFn::ItemHealth) ==> r == Spawned::Stays && after.touch == Touch::ItemHealth,
{
}

/// What is shown of the weapon in hand: its own ammo, model and mark.
pub proof fn hands_show_their_ammo(v: EntVars)
    ensures
        ({
            let (ammo, model, bit) = shown_weapon(v);
            &&& v.weapon == Weapon::Axe || v.weapon == Weapon::Grapple || v.weapon == Weapon::Nil ==> ammo == 0 && bit == 0
            &&& v.weapon == Weapon::Shotgun || v.weapon == Weapon::SuperShotgun ==> ammo == v.ammo_shells && bit
                == Items::SHELLS
            &&& v.weapon == Weapon::Nailgun || v.weapon == Weapon::SuperNailgun ==> ammo == v.ammo_nails && bit
                == Items::NAILS
            &&& v.weapon == Weapon::GrenadeLauncher || v.weapon == Weapon::RocketLauncher ==> ammo == v.ammo_rockets && bit
                == Items::ROCKETS
            &&& v.weapon == Weapon::Lightning ==> ammo == v.ammo_cells && bit == Items::CELLS
            &&& model is None <==> v.weapon == Weapon::Nil
        }),
{
    crate::arsenal::weapons_have_their_worth();
    crate::defs::weapon_bits_round_trip(v.weapon);
    crate::defs::bits_have_their_places();
}

/// A backpack is named for the weapon in it.
pub proof fn backpacks_are_named(w: Weapon)
    ensures
        w == Weapon::Axe ==> pack_name(w) == "Axe"@,
        w == Weapon::Shotgun ==> pack_name(w) == "Shotgun"@,
        w == Weapon::SuperShotgun ==> pack_name(w) == "Double-barrelled Shotgun"@,
        w == Weapon::Nailgun ==> pack_name(w) == "Nailgun"@,
        w == Weapon::SuperNailgun ==> pack_name(w) == "Super Nailgun"@,
        w == Weapon::GrenadeLauncher ==> pack_name(w) == "Grenade Launcher"@,
        w == Weapon::RocketLauncher ==> pack_name(w) == "Rocket Launcher"@,
        w == Weapon::Lightning ==> pack_name(w) == "Thunderbolt"@,
        w == Weapon::Nil ==> pack_name(w) == ""@,
{
    crate::defs::bits_have_their_places();
}

/// A powerup on the floor shows, marks and glows as its class says.
pub proof fn powerups_lie_as_they_are(before: Entity, after: Entity, p: PowerupSpawn, now: i64)
    requires
        powerup_placed(before, after, p, now),
        0 <= now <= i64::MAX - 200,
    ensures
        after.v.items == p.item_bit && after.v.effects == before.v.effects | p.effect,
        after.model_cstr == Some(p.model) && after.noise == Some(p.noise),
        after.touch == Touch::ItemPowerup && after.v.touch == 1,
        after.think == Think::PlaceItem && after.v.nextthink == now + 200,
        after.netname matches Some(n) && n@ == p.netname@,
{
}

/// Weapons come back after thirty seconds, and a backpack flies up at three hundred units a second.
pub proof fn pickups_have_their_measures()
    ensures
        WEAPON_RESPAWN == 30_000 && TOSS_UP == 300_000,
{
}

/// A weapon on the floor shows its own model and bears its own name.
pub proof fn weapons_lie_as_they_are(before: Entity, after: Entity, class: Seq<char>, deathmatch: i32, now: i64)
    requires
        weapon_on_floor(class, deathmatch) is Some,
        weapon_placed(before, after, weapon_on_floor(class, deathmatch)->0, now),
        0 <= now <= i64::MAX - 200,
    ensures
        deathmatch <= 3,
        row_of_class(class) matches Some(row) && after.model_cstr == row.pickup_model && (after.netname matches Some(n)
            && n@ == row.pickup_name@),
        after.touch == Touch::ItemWeapon && after.v.touch == 1,
        after.think == Think::PlaceItem && after.v.nextthink == now + 200,
        after.item == before.item && after.v.items == before.v.items,
{
}

/// Whether the dead leave a backpack.
pub open spec fn drops_pack(v: EntVars) -> bool {
    v.ammo_shells + v.ammo_nails + v.ammo_rockets + v.ammo_cells != 0
}

/// Who has any ammo leaves a backpack; who has none leaves nothing.
pub proof fn the_dead_leave_their_ammo(v: EntVars)
    requires
        v.ammo_shells >= 0 && v.ammo_nails >= 0 && v.ammo_rockets >= 0 && v.ammo_cells >= 0,
    ensures
        drops_pack(v) <==> v.ammo_shells > 0 || v.ammo_nails > 0 || v.ammo_rockets > 0 || v.ammo_cells > 0,
{
}

} // verus!
