//! What bots believe about their opponents: a small estimate per player, moved only by what a bot
//! could have seen or heard, and shared by the bots of one side.
//!
//! Health, armor and damage are thousandths of a point, distances thousandths of a unit; times are
//! milliseconds.
use crate::bot::goals::{effective_strength, total_strength};
use crate::defs::{Bits, Items, Weapon};
use crate::entity::EntId;
use crate::game::matching_below;
use crate::num::{bound, bounded, round_up, whole_up};
use crate::text::same_text;
use vstd::prelude::*;

verus! {

/// Pool zero is shared by the bots of a game without teams; each of eight teams has its own.
pub const MAX_POOLS: usize = 9;

/// One entry per client slot; slot zero is the world and stays unused.
pub const MAX_SLOTS: usize = 33;

pub const POOL_ENTRIES: usize = 297;

/// A health estimate starts to rise again after this long without news.
pub const DRIFT_GRACE: i64 = 5000;

/// Thousandths of a point that a stale estimate gains per millisecond.
pub const DRIFT_RATE: i64 = 2;

/// How long a powerup seen to be taken is believed to last.
pub const POWERUP_SECS: i64 = 30000;

pub const FULL_HEALTH: i64 = 100000;

pub const MEGA_HEALTH: i64 = 250000;

/// The belief about one player.
#[derive(Clone, Copy, PartialEq, Eq, Debug, Structural)]
pub struct OpponentEstimate {
    pub health: i64,
    pub armor_value: i64,
    /// Share the armor absorbs, in thousandths.
    pub armor_type: i32,
    /// Weapons believed owned.
    pub items: i32,
    /// When a witnessed powerup ends; zero for none.
    pub quad_until: i64,
    pub pent_until: i64,
    /// Time of the last news.
    pub last_update: i64,
}

/// A pickup that was witnessed.
#[derive(Clone, Copy, PartialEq, Eq, Debug, Structural)]
pub enum PickupKind {
    Health(i64),
    Mega,
    Armor { value: i64, atype: i32 },
    Weapon(i32),
    Quad,
    Pent,
    Backpack(i32),
}

/// The stock kit of a player who has just spawned: shotgun and axe, full health, no armor.
pub open spec fn fresh_estimate() -> OpponentEstimate {
    OpponentEstimate {
        health: FULL_HEALTH,
        armor_value: 0,
        armor_type: 0,
        items: Items::SHOTGUN | Items::AXE,
        quad_until: 0,
        pent_until: 0,
        last_update: 0,
    }
}

impl Default for OpponentEstimate {
    fn default() -> (e: OpponentEstimate)
        ensures
            e == fresh_estimate(),
    {
        OpponentEstimate {
            health: FULL_HEALTH,
            armor_value: 0,
            armor_type: 0,
            items: Items::SHOTGUN | Items::AXE,
            quad_until: 0,
            pent_until: 0,
            last_update: 0,
        }
    }
}

/// The kit that a mode spawns players with.
pub open spec fn kit_of_mode(name: Seq<char>) -> OpponentEstimate {
    if name == "midair"@ {
        OpponentEstimate {
            items: Items::AXE | Items::ROCKET_LAUNCHER,
            health: MEGA_HEALTH,
            armor_value: 200000,
            armor_type: 800,
            ..fresh_estimate()
        }
    } else if name == "arena"@ {
        OpponentEstimate {
            items: Items::AXE | Items::SHOTGUN | Items::SUPER_SHOTGUN | Items::NAILGUN | Items::SUPER_NAILGUN
                | Items::GRENADE_LAUNCHER | Items::ROCKET_LAUNCHER,
            armor_value: 200000,
            armor_type: 800,
            ..fresh_estimate()
        }
    } else {
        fresh_estimate()
    }
}

pub fn baseline_for_mode(name: &str) -> (e: OpponentEstimate)
    ensures
        e == kit_of_mode(name@),
{
    let mut est = OpponentEstimate::default();
    if same_text(name, "midair") {
        est.items = Items::AXE | Items::ROCKET_LAUNCHER;
        est.health = MEGA_HEALTH;
        est.armor_value = 200000;
        est.armor_type = 800;
    } else if same_text(name, "arena") {
        est.items = Items::AXE | Items::SHOTGUN | Items::SUPER_SHOTGUN | Items::NAILGUN | Items::SUPER_NAILGUN
            | Items::GRENADE_LAUNCHER | Items::ROCKET_LAUNCHER;
        est.armor_value = 200000;
        est.armor_type = 800;
    }
    est
}

/// A health estimate after `now - last_update` without news: below the prior it rises back toward
/// it once the grace is over, at or above the prior it stays.
pub open spec fn drifted(health: i64, last_update: i64, now: i64) -> int {
    let idle = now - last_update - DRIFT_GRACE;
    if health >= FULL_HEALTH || idle <= 0 {
        health as int
    } else if health + DRIFT_RATE * idle <= FULL_HEALTH {
        health + DRIFT_RATE * idle
    } else {
        FULL_HEALTH as int
    }
}

pub fn drifted_health(health: i64, last_update: i64, now: i64) -> (r: i64)
    ensures
        r == drifted(health, last_update, now),
{
    if health >= FULL_HEALTH {
        return health;
    }
    let idle: i128 = now as i128 - last_update as i128 - DRIFT_GRACE as i128;
    if idle <= 0 {
        return health;
    }
    let risen: i128 = health as i128 + DRIFT_RATE as i128 * idle;
    if risen <= FULL_HEALTH as i128 {
        risen as i64
    } else {
        FULL_HEALTH
    }
}

/// What armor of a type claims of some damage: its share, in whole points, rounded up.
pub open spec fn armor_claim(armor_type: i32, damage: i64) -> i64 {
    bounded(-((-(armor_type * damage)) / 1_000_000) * 1000)
}

fn claim(armor_type: i32, damage: i64) -> (r: i64)
    ensures
        r == armor_claim(armor_type, damage),
{
    assert(-0x8000_0000 * 0x8000_0000_0000_0000 <= armor_type * damage <= 0x8000_0000 * 0x8000_0000_0000_0000)
        by (nonlinear_arith)
        requires
            -0x8000_0000 <= armor_type <= 0x7fff_ffff,
            -0x8000_0000_0000_0000 <= damage <= 0x7fff_ffff_ffff_ffff,
    ;
    let share: i128 = armor_type as i128 * damage as i128;
    let points: i128 = if share >= 0 {
        (share + 999_999) / 1_000_000
    } else {
        -((-share) / 1_000_000)
    };
    bound(points * 1000)
}

/// An estimate after a hit of `damage`, of which the armor claims its share: the armor pays
/// what it has, breaks when all of it is claimed, and health pays the rest, rounded up.
pub open spec fn damaged(est: OpponentEstimate, damage: i64) -> OpponentEstimate {
    let absorbed = armor_claim(est.armor_type, damage);
    let broken = absorbed >= est.armor_value;
    let save = if broken {
        est.armor_value
    } else {
        absorbed
    };
    OpponentEstimate {
        armor_type: if broken {
            0
        } else {
            est.armor_type
        },
        armor_value: bounded(est.armor_value - save),
        health: bounded(est.health - whole_up(damage - save)),
        ..est
    }
}

pub fn apply_damage(est: OpponentEstimate, damage: i64) -> (r: OpponentEstimate)
    ensures
        r == damaged(est, damage),
{
    let mut out = est;
    let mut save: i64 = claim(est.armor_type, damage);
    if save >= est.armor_value {
        save = est.armor_value;
        out.armor_type = 0;
    }
    out.armor_value = bound(est.armor_value as i128 - save as i128);
    out.health = bound(est.health as i128 - round_up(damage as i128 - save as i128));
    out
}

/// An estimate after a witnessed pickup. Health is topped up to the prior, a megahealth to its own
/// cap; armor replaces armor; weapons add up.
pub open spec fn picked_up(est: OpponentEstimate, kind: PickupKind, now: i64) -> OpponentEstimate {
    let e = match kind {
        PickupKind::Health(amount) => OpponentEstimate {
            health: if est.health + amount <= FULL_HEALTH {
                bounded(est.health + amount)
            } else {
                FULL_HEALTH
            },
            ..est
        },
        PickupKind::Mega => OpponentEstimate {
            health: if est.health + FULL_HEALTH <= MEGA_HEALTH {
                bounded(est.health + FULL_HEALTH)
            } else {
                MEGA_HEALTH
            },
            ..est
        },
        PickupKind::Armor { value, atype } => OpponentEstimate { armor_value: value, armor_type: atype, ..est },
        PickupKind::Weapon(bit) => OpponentEstimate { items: est.items | bit, ..est },
        PickupKind::Quad => OpponentEstimate { quad_until: bounded(now + POWERUP_SECS), ..est },
        PickupKind::Pent => OpponentEstimate { pent_until: bounded(now + POWERUP_SECS), ..est },
        PickupKind::Backpack(bits) => OpponentEstimate { items: est.items | bits, ..est },
    };
    OpponentEstimate { last_update: now, ..e }
}

fn apply_pickup(est: OpponentEstimate, kind: PickupKind, now: i64) -> (r: OpponentEstimate)
    ensures
        r == picked_up(est, kind, now),
{
    let mut e = est;
    match kind {
        PickupKind::Health(amount) => {
            let sum: i128 = e.health as i128 + amount as i128;
            e.health = if sum <= FULL_HEALTH as i128 {
                bound(sum)
            } else {
                FULL_HEALTH
            };
        },
        PickupKind::Mega => {
            let sum: i128 = e.health as i128 + FULL_HEALTH as i128;
            e.health = if sum <= MEGA_HEALTH as i128 {
                bound(sum)
            } else {
                MEGA_HEALTH
            };
        },
        PickupKind::Armor { value, atype } => {
            e.armor_value = value;
            e.armor_type = atype;
        },
        PickupKind::Weapon(bit) => {
            e.items = e.items.with(bit);
        },
        PickupKind::Quad => {
            e.quad_until = bound(now as i128 + POWERUP_SECS as i128);
        },
        PickupKind::Pent => {
            e.pent_until = bound(now as i128 + POWERUP_SECS as i128);
        },
        PickupKind::Backpack(bits) => {
            e.items = e.items.with(bits);
        },
    }
    e.last_update = now;
    e
}

/// The shared store: one estimate per player and pool, and the kit that a death resets to.
pub struct OpponentModel {
    pub entries: Vec<OpponentEstimate>,
    pub baseline: OpponentEstimate,
}

/// Whether there is an entry for `target` in `pool`.
pub open spec fn has_entry(pool: int, target: EntId) -> bool {
    0 <= pool < MAX_POOLS && 0 < target.0 < MAX_SLOTS
}

/// Where the entry of `slot` in `pool` lies.
pub open spec fn entry_at(pool: int, slot: int) -> int {
    pool * MAX_SLOTS + slot
}

impl Default for OpponentModel {
    /// A store that believes everyone to have just spawned.
    fn default() -> (m: OpponentModel)
        ensures
            m.wf(),
            m.baseline == fresh_estimate(),
            forall|i: int| 0 <= i < POOL_ENTRIES ==> #[trigger] m.entries@[i] == fresh_estimate(),
    {
        OpponentModel::new(OpponentEstimate::default())
    }
}

impl OpponentModel {
    pub open spec fn wf(self) -> bool {
        self.entries@.len() == POOL_ENTRIES
    }

    /// What `pool` believes about `target`; the fresh kit where there is no entry.
    pub open spec fn belief(self, pool: int, target: EntId) -> OpponentEstimate {
        if has_entry(pool, target) {
            self.entries@[entry_at(pool, target.0 as int)]
        } else {
            fresh_estimate()
        }
    }

    /// This store with one belief replaced, where there is an entry for it.
    pub open spec fn revised(self, after: OpponentModel, pool: int, target: EntId, est: OpponentEstimate) -> bool {
        &&& after.baseline == self.baseline
        &&& after.entries@ == if has_entry(pool, target) {
            self.entries@.update(entry_at(pool, target.0 as int), est)
        } else {
            self.entries@
        }
    }

    /// A store in which every entry starts at `baseline`.
    pub fn new(baseline: OpponentEstimate) -> (m: OpponentModel)
        ensures
            m.wf(),
            m.baseline == baseline,
            forall|i: int| 0 <= i < POOL_ENTRIES ==> #[trigger] m.entries@[i] == baseline,
    {
        let mut entries: Vec<OpponentEstimate> = Vec::new();
        let mut i: usize = 0;
        while i < POOL_ENTRIES
            invariant
                i <= POOL_ENTRIES,
                entries@.len() == i,
                forall|j: int| 0 <= j < i ==> #[trigger] entries@[j] == baseline,
            decreases POOL_ENTRIES - i,
        {
            entries.push(baseline);
            i = i + 1;
        }
        OpponentModel { entries, baseline }
    }

    pub fn entry(&self, pool: usize, target: EntId) -> (e: OpponentEstimate)
        requires
            self.wf(),
        ensures
            e == self.belief(pool as int, target),
    {
        let slot: usize = target.0 as usize;
        if pool >= MAX_POOLS || slot == 0 || slot >= MAX_SLOTS {
            return OpponentEstimate::default();
        }
        self.entries[pool * MAX_SLOTS + slot]
    }

    fn put(&mut self, pool: usize, target: EntId, est: OpponentEstimate)
        requires
            old(self).wf(),
        ensures
            final(self).wf(),
            old(self).revised(*final(self), pool as int, target, est),
    {
        let slot: usize = target.0 as usize;
        if pool >= MAX_POOLS || slot == 0 || slot >= MAX_SLOTS {
            return;
        }
        self.entries.set(pool * MAX_SLOTS + slot, est);
    }

    /// Forget what every pool believed about `target`: the kit it spawns with is all there is.
    pub fn reset_target(&mut self, target: EntId, now: i64)
        requires
            old(self).wf(),
        ensures
            final(self).wf(),
            final(self).baseline == old(self).baseline,
            forall|pool: int, t: EntId|
                has_entry(pool, t) ==> #[trigger] final(self).belief(pool, t) == if t == target {
                    OpponentEstimate { last_update: now, ..old(self).baseline }
                } else {
                    old(self).belief(pool, t)
                },
    {
        let slot: usize = target.0 as usize;
        if slot == 0 || slot >= MAX_SLOTS {
            return;
        }
        let mut fresh = self.baseline;
        fresh.last_update = now;
        let mut pool: usize = 0;
        while pool < MAX_POOLS
            invariant
                pool <= MAX_POOLS,
                0 < slot < MAX_SLOTS,
                slot == target.0,
                self.wf(),
                self.baseline == old(self).baseline,
                fresh == (OpponentEstimate { last_update: now, ..old(self).baseline }),
                forall|p: int, t: EntId|
                    has_entry(p, t) ==> #[trigger] self.belief(p, t) == if t == target && p < pool {
                        fresh
                    } else {
                        old(self).belief(p, t)
                    },
            decreases MAX_POOLS - pool,
        {
            let ghost before = *self;
            self.entries.set(pool * MAX_SLOTS + slot, fresh);
            assert forall|p: int, t: EntId| has_entry(p, t) implies #[trigger] self.belief(p, t) == if t == target
                && p < pool + 1 {
                fresh
            } else {
                old(self).belief(p, t)
            } by {
                assert(before.belief(p, t) == if t == target && p < pool {
                    fresh
                } else {
                    old(self).belief(p, t)
                });
                if !(p == pool && t == target) {
                    assert(entry_at(p, t.0 as int) != entry_at(pool as int, slot as int));
                }
            }
            pool = pool + 1;
        }
    }

    /// A shot or hit seen proves that `target` owns the weapon.
    pub fn note_weapon(&mut self, pool: usize, target: EntId, bit: i32, now: i64)
        requires
            old(self).wf(),
        ensures
            final(self).wf(),
            old(self).revised(
                *final(self),
                pool as int,
                target,
                OpponentEstimate {
                    items: old(self).belief(pool as int, target).items | bit,
                    last_update: now,
                    ..old(self).belief(pool as int, target)
                },
            ),
    {
        let mut e = self.entry(pool, target);
        e.items = e.items.with(bit);
        e.last_update = now;
        self.put(pool, target, e);
    }

    /// Damage dealt, as the attacker knows it.
    pub fn note_damage(&mut self, pool: usize, target: EntId, damage: i64, now: i64)
        requires
            old(self).wf(),
        ensures
            final(self).wf(),
            old(self).revised(
                *final(self),
                pool as int,
                target,
                OpponentEstimate {
                    last_update: now,
                    ..damaged(old(self).belief(pool as int, target), damage)
                },
            ),
    {
        let mut e = apply_damage(self.entry(pool, target), damage);
        e.last_update = now;
        self.put(pool, target, e);
    }

    /// A pickup that was witnessed.
    pub fn note_pickup(&mut self, pool: usize, target: EntId, kind: PickupKind, now: i64)
        requires
            old(self).wf(),
        ensures
            final(self).wf(),
            old(self).revised(
                *final(self),
                pool as int,
                target,
                picked_up(old(self).belief(pool as int, target), kind, now),
            ),
    {
        let e = apply_pickup(self.entry(pool, target), kind, now);
        self.put(pool, target, e);
    }
}

/// Effective hit points of an estimate at `now`.
pub fn est_strength(est: &OpponentEstimate, now: i64) -> (r: i64)
    ensures
        r == bounded(
            effective_strength(
                drifted(est.health, est.last_update, now),
                est.armor_value as int,
                est.armor_type as int,
            ),
        ),
{
    let health: i64 = drifted_health(est.health, est.last_update, now);
    total_strength(health, est.armor_value, est.armor_type)
}

/// How a candidate target's squared distance is weighed, in millionths: a weak one counts as nearer
/// and a strong one as farther, within limits, and one with a big weapon is preferred where killing
/// it takes the weapon away.
pub open spec fn bias(strength: int, armed_big: bool, weapons_stay: bool) -> int {
    let ratio = strength * 10;
    let held = if ratio < 400000 {
        400000
    } else if ratio > 2500000 {
        2500000
    } else {
        ratio
    };
    if armed_big && !weapons_stay {
        held * 8 / 10
    } else {
        held
    }
}

pub fn target_bias(est_strength: i64, armed_big: bool, weapons_stay: bool) -> (r: i64)
    ensures
        r == bias(est_strength as int, armed_big, weapons_stay),
{
    let held: i64 = if est_strength < 40000 {
        400000
    } else if est_strength > 250000 {
        2500000
    } else {
        est_strength * 10
    };
    if armed_big && !weapons_stay {
        held * 8 / 10
    } else {
        held
    }
}

/// The item bit that firing a weapon proves; the axe, the hook and empty hands prove nothing.
pub open spec fn proven_bit(w: Weapon) -> Option<i32> {
    match w {
        Weapon::Nil | Weapon::Axe | Weapon::Grapple => None,
        _ => Some(w.bit()),
    }
}

pub fn weapon_fire_bit(w: Weapon) -> (r: Option<i32>)
    ensures
        r == proven_bit(w),
{
    if w == Weapon::Nil || w == Weapon::Axe || w == Weapon::Grapple {
        return None;
    }
    Some(w.item())
}

/// Whether pool `p` is named by a mask.
pub open spec fn names_pool(mask: u16, p: int) -> bool {
    (mask >> (p as u16)) & 1 == 1
}

/// Pool numbers.
pub open spec fn pool_numbers(v: Seq<usize>) -> Seq<int> {
    Seq::new(v.len(), |i: int| v[i] as int)
}

/// The pools that a mask names, in order.
pub fn iter_pools(mask: u16) -> (r: Vec<usize>)
    ensures
        pool_numbers(r@) == matching_below(|p: int| names_pool(mask, p), MAX_POOLS as int),
{
    let mut r: Vec<usize> = Vec::new();
    let mut p: u16 = 0;
    let ghost test = |p: int| names_pool(mask, p);
    assert(pool_numbers(r@) =~= Seq::<int>::empty());
    while p < 9
        invariant
            p <= 9,
            test == (|p: int| names_pool(mask, p)),
            pool_numbers(r@) == matching_below(test, p as int),
        decreases 9 - p,
    {
        let ghost before = r@;
        if (mask >> p) & 1 == 1 {
            r.push(p as usize);
            assert(pool_numbers(r@) =~= pool_numbers(before).push(p as int));
        }
        p = p + 1;
    }
    r
}

/// The pool an observer reports to: the team's, the shared one for a bot without a team, none for a
/// person without a team.
pub open spec fn pool_of(team: u8, is_bot: bool) -> Option<usize> {
    if team >= 1 {
        Some(
            if team < MAX_POOLS {
                team as usize
            } else {
                (MAX_POOLS - 1) as usize
            },
        )
    } else if is_bot {
        Some(0)
    } else {
        None
    }
}

pub fn observer_pool(team: u8, is_bot: bool) -> (r: Option<usize>)
    ensures
        r == pool_of(team, is_bot),
        r matches Some(p) ==> p < MAX_POOLS,
{
    if team >= 1 {
        if (team as usize) < MAX_POOLS {
            Some(team as usize)
        } else {
            Some(MAX_POOLS - 1)
        }
    } else if is_bot {
        Some(0)
    } else {
        None
    }
}

/// An event this near is noticed.
pub const WITNESS_RADIUS: u32 = 1_000_000;

/// A client as a possible witness of an event.
#[derive(Clone, Copy, PartialEq, Eq, Debug, Structural)]
pub struct Witness {
    pub in_use: bool,
    pub is_bot: bool,
    pub player: bool,
    pub health: i32,
    pub team: u8,
    /// Distance from the event.
    pub dist: u32,
}

/// Whether a client noticed the event on behalf of pool `p`.
pub open spec fn noticed(c: Witness, p: int) -> bool {
    &&& c.in_use && c.is_bot && c.player && c.health > 0 && c.dist <= WITNESS_RADIUS
    &&& pool_of(c.team, c.is_bot) matches Some(q) && q == p
}

/// The pools with a bot that noticed an event, as a mask. None where modelling is off.
pub fn witness_pools(enabled: bool, clients: &Vec<Witness>) -> (mask: u16)
    ensures
        !enabled ==> mask == 0,
        enabled ==> forall|p: int|
            0 <= p < 16 ==> (#[trigger] names_pool(mask, p) <==> exists|i: int|
                0 <= i < clients@.len() && noticed(#[trigger] clients@[i], p)),
{
    if !enabled {
        return 0;
    }
    let mut mask: u16 = 0;
    let mut i: usize = 0;
    proof {
        assert(forall|q: u16| q < 16 ==> #[trigger] (0u16 >> q) & 1 == 0) by (bit_vector);
    }
    while i < clients.len()
        invariant
            i <= clients@.len(),
            forall|p: int|
                0 <= p < 16 ==> (#[trigger] names_pool(mask, p) <==> exists|j: int|
                    0 <= j < i && noticed(#[trigger] clients@[j], p)),
        decreases clients.len() - i,
    {
        let c: Witness = clients[i];
        let ghost before = mask;
        if c.in_use && c.is_bot && c.health > 0 && c.player {
            if let Some(pool) = observer_pool(c.team, c.is_bot) {
                let bit: u16 = pool as u16;
                if (mask >> bit) & 1 != 1 && c.dist <= WITNESS_RADIUS {
                    mask = mask | (1u16 << bit);
                    assert(forall|q: u16|
                        q < 16 && bit < 16 && mask == before | (1u16 << bit) ==> ((#[trigger] (mask >> q)) & 1 == 1
                            <==> (before >> q) & 1 == 1 || q == bit)) by (bit_vector);
                }
            }
        }
        proof {
            assert forall|p: int| 0 <= p < 16 implies (#[trigger] names_pool(mask, p) <==> exists|j: int|
                0 <= j < i + 1 && noticed(#[trigger] clients@[j], p)) by {
                let q = p as u16;
                assert(names_pool(before, p) <==> exists|j: int| 0 <= j < i && noticed(#[trigger] clients@[j], p));
                assert(names_pool(mask, p) <==> names_pool(before, p) || noticed(clients@[i as int], p));
                if names_pool(mask, p) {
                    if names_pool(before, p) {
                        let j = choose|j: int| 0 <= j < i && noticed(#[trigger] clients@[j], p);
                        assert(noticed(clients@[j], p));
                    }
                }
            }
        }
        i = i + 1;
    }
    mask
}

/// A client on one side of an event.
#[derive(Clone, Copy, PartialEq, Eq, Debug, Structural)]
pub struct Party {
    pub id: EntId,
    pub player: bool,
    pub team: u8,
    pub is_bot: bool,
}

/// The estimates after a rule was applied to `target` in every pool that a mask names.
pub open spec fn revised_in_pools(
    before: OpponentModel,
    after: OpponentModel,
    mask: u16,
    below: int,
    target: EntId,
    rule: spec_fn(OpponentEstimate) -> OpponentEstimate,
) -> bool {
    &&& after.baseline == before.baseline
    &&& forall|p: int, t: EntId|
        has_entry(p, t) ==> #[trigger] after.belief(p, t) == if t == target && p < below && names_pool(mask, p) {
            rule(before.belief(p, t))
        } else {
            before.belief(p, t)
        }
}

/// Two entries of different pools or players lie apart.
proof fn lemma_entries_apart(p: int, t: EntId, q: int, u: EntId)
    requires
        has_entry(p, t),
        has_entry(q, u),
        (p, t) != (q, u),
    ensures
        entry_at(p, t.0 as int) != entry_at(q, u.0 as int),
{
}

/// A belief changes only in the pool and about the player it was noted for: what one side sees
/// never reaches the other.
pub proof fn pools_do_not_leak(
    before: OpponentModel,
    after: OpponentModel,
    pool: int,
    target: EntId,
    est: OpponentEstimate,
    p: int,
    t: EntId,
)
    requires
        before.wf(),
        before.revised(after, pool, target, est),
        (p, t) != (pool, target),
    ensures
        after.belief(p, t) == before.belief(p, t),
{
    if has_entry(p, t) && has_entry(pool, target) {
        lemma_entries_apart(p, t, pool, target);
    }
}

/// A weapon once believed owned stays so through hits and pickups, until the player dies.
pub proof fn arsenal_is_sticky(
    est: OpponentEstimate,
    damage: i64,
    kind: PickupKind,
    bit: i32,
    now: i64,
)
    ensures
        damaged(est, damage).items == est.items,
        picked_up(est, kind, now).items & est.items == est.items,
        (est.items | bit) & est.items == est.items,
{
    let items = est.items;
    let more: i32 = match kind {
        PickupKind::Weapon(b) => b,
        PickupKind::Backpack(b) => b,
        _ => 0,
    };
    assert((items | more) & items == items) by (bit_vector);
    assert((items | bit) & items == items) by (bit_vector);
    assert(items & items == items) by (bit_vector);
}

/// A stale estimate only rises, never beyond the prior, and stands still within the grace.
pub proof fn drift_is_monotone_and_capped(health: i64, last_update: i64, sooner: i64, later: i64)
    requires
        sooner <= later,
    ensures
        drifted(health, last_update, sooner) <= drifted(health, last_update, later),
        health <= drifted(health, last_update, later),
        drifted(health, last_update, later) <= if health >= FULL_HEALTH {
            health
        } else {
            FULL_HEALTH
        },
        later - last_update <= DRIFT_GRACE ==> drifted(health, last_update, later) == health,
{
}

impl OpponentModel {
    /// What an observer's side believes about `target` at `now`; nothing where modelling is off or
    /// the observer reports to no pool.
    pub fn opponent_est(&self, enabled: bool, observer: Party, target: EntId, now: i64) -> (r: Option<
        OpponentEstimate,
    >)
        requires
            self.wf(),
        ensures
            r == match pool_of(observer.team, observer.is_bot) {
                Some(pool) if enabled => Some(
                    OpponentEstimate {
                        health: drifted(
                            self.belief(pool as int, target).health,
                            self.belief(pool as int, target).last_update,
                            now,
                        ) as i64,
                        ..self.belief(pool as int, target)
                    },
                ),
                _ => None,
            },
    {
        if !enabled {
            return None;
        }
        match observer_pool(observer.team, observer.is_bot) {
            Some(pool) => {
                let mut est = self.entry(pool, target);
                est.health = drifted_health(est.health, est.last_update, now);
                Some(est)
            },
            None => None,
        }
    }

    /// `attacker` hit `targ`: the attacker's side learns of it.
    pub fn model_note_damage(
        &mut self,
        enabled: bool,
        attacker: Party,
        targ: Party,
        damage: i64,
        now: i64,
    )
        requires
            old(self).wf(),
        ensures
            final(self).wf(),
            match pool_of(attacker.team, attacker.is_bot) {
                Some(pool) if enabled && attacker.id != targ.id && attacker.player && targ.player => old(
                    self,
                ).revised(
                    *final(self),
                    pool as int,
                    targ.id,
                    OpponentEstimate {
                        last_update: now,
                        ..damaged(old(self).belief(pool as int, targ.id), damage)
                    },
                ),
                _ => *final(self) == *old(self),
            },
    {
        if !enabled || attacker.id == targ.id {
            return;
        }
        if !attacker.player || !targ.player {
            return;
        }
        if let Some(pool) = observer_pool(attacker.team, attacker.is_bot) {
            self.note_damage(pool, targ.id, damage, now);
        }
    }

    /// `attacker` hit `victim` with a weapon that can be told: the victim's side learns of it.
    pub fn model_note_weapon_of_attacker(
        &mut self,
        enabled: bool,
        victim: Party,
        attacker: Party,
        bit: i32,
        now: i64,
    )
        requires
            old(self).wf(),
        ensures
            final(self).wf(),
            match pool_of(victim.team, victim.is_bot) {
                Some(pool) if enabled && attacker.id != victim.id && attacker.player => old(self).revised(
                    *final(self),
                    pool as int,
                    attacker.id,
                    OpponentEstimate {
                        items: old(self).belief(pool as int, attacker.id).items | bit,
                        last_update: now,
                        ..old(self).belief(pool as int, attacker.id)
                    },
                ),
                _ => *final(self) == *old(self),
            },
    {
        if !enabled || attacker.id == victim.id {
            return;
        }
        if !attacker.player {
            return;
        }
        if let Some(pool) = observer_pool(victim.team, victim.is_bot) {
            self.note_weapon(pool, attacker.id, bit, now);
        }
    }

    /// `firer` shot: every pool with a bot in earshot learns the weapon.
    pub fn model_note_weapon_fire(
        &mut self,
        enabled: bool,
        firer: EntId,
        weapon: Weapon,
        clients: &Vec<Witness>,
        now: i64,
    )
        requires
            old(self).wf(),
        ensures
            final(self).wf(),
            !enabled || proven_bit(weapon) is None ==> *final(self) == *old(self),
            enabled ==> (proven_bit(weapon) matches Some(bit) ==> exists|mask: u16|
                #![trigger witnessed(mask, clients@)]
                witnessed(mask, clients@) && revised_in_pools(
                    *old(self),
                    *final(self),
                    mask,
                    MAX_POOLS as int,
                    firer,
                    |e: OpponentEstimate| OpponentEstimate { items: e.items | bit, last_update: now, ..e },
                )),
    {
        if !enabled {
            return;
        }
        let bit: i32 = match weapon_fire_bit(weapon) {
            Some(b) => b,
            None => return,
        };
        let mask: u16 = witness_pools(enabled, clients);
        let ghost rule = |e: OpponentEstimate| OpponentEstimate { items: e.items | bit, last_update: now, ..e };
        let mut pool: usize = 0;
        while pool < MAX_POOLS
            invariant
                pool <= MAX_POOLS,
                self.wf(),
                rule == (|e: OpponentEstimate| OpponentEstimate { items: e.items | bit, last_update: now, ..e }),
                revised_in_pools(*old(self), *self, mask, pool as int, firer, rule),
            decreases MAX_POOLS - pool,
        {
            let ghost before = *self;
            if (mask >> (pool as u16)) & 1 == 1 {
                self.note_weapon(pool, firer, bit, now);
                proof {
                    lemma_one_more_pool(*old(self), before, *self, mask, pool as int, firer, rule);
                }
            } else {
                proof {
                    lemma_skip_pool(*old(self), before, mask, pool as int, firer, rule);
                }
            }
            pool = pool + 1;
        }
        assert(witnessed(mask, clients@));
    }

    /// `picker` took something: every pool with a bot in earshot learns of it.
    pub fn model_note_pickup(
        &mut self,
        enabled: bool,
        picker: EntId,
        kind: PickupKind,
        clients: &Vec<Witness>,
        now: i64,
    )
        requires
            old(self).wf(),
        ensures
            final(self).wf(),
            !enabled ==> *final(self) == *old(self),
            enabled ==> exists|mask: u16|
                #![trigger witnessed(mask, clients@)]
                witnessed(mask, clients@) && revised_in_pools(
                    *old(self),
                    *final(self),
                    mask,
                    MAX_POOLS as int,
                    picker,
                    |e: OpponentEstimate| picked_up(e, kind, now),
                ),
    {
        if !enabled {
            return;
        }
        let mask: u16 = witness_pools(enabled, clients);
        let ghost rule = |e: OpponentEstimate| picked_up(e, kind, now);
        let mut pool: usize = 0;
        while pool < MAX_POOLS
            invariant
                pool <= MAX_POOLS,
                self.wf(),
                rule == (|e: OpponentEstimate| picked_up(e, kind, now)),
                revised_in_pools(*old(self), *self, mask, pool as int, picker, rule),
            decreases MAX_POOLS - pool,
        {
            let ghost before = *self;
            if (mask >> (pool as u16)) & 1 == 1 {
                self.note_pickup(pool, picker, kind, now);
                proof {
                    lemma_one_more_pool(*old(self), before, *self, mask, pool as int, picker, rule);
                }
            } else {
                proof {
                    lemma_skip_pool(*old(self), before, mask, pool as int, picker, rule);
                }
            }
            pool = pool + 1;
        }
        assert(witnessed(mask, clients@));
    }

    /// How to weigh the squared distance of `target` in the observer's eyes, in millionths; plain
    /// distance where there is no belief.
    pub fn target_dist_bias(
        &self,
        enabled: bool,
        observer: Party,
        target: EntId,
        now: i64,
        weapons_stay: bool,
    ) -> (r: i64)
        requires
            self.wf(),
        ensures
            r == match pool_of(observer.team, observer.is_bot) {
                Some(pool) if enabled => {
                    let est = self.belief(pool as int, target);
                    bias(
                        bounded(
                            effective_strength(
                                drifted(est.health, est.last_update, now),
                                est.armor_value as int,
                                est.armor_type as int,
                            ),
                        ) as int,
                        est.items & Items::ROCKET_LAUNCHER != 0 || est.items & Items::LIGHTNING != 0,
                        weapons_stay,
                    )
                },
                _ => 1000000,
            },
    {
        match self.opponent_est(enabled, observer, target, now) {
            Some(est) => {
                let armed_big: bool = est.items.has(Items::ROCKET_LAUNCHER) || est.items.has(Items::LIGHTNING);
                let strength: i64 = total_strength(est.health, est.armor_value, est.armor_type);
                target_bias(strength, armed_big, weapons_stay)
            },
            None => 1000000,
        }
    }

    /// `target` died or spawned.
    pub fn model_reset_target(&mut self, enabled: bool, target: EntId, player: bool, now: i64)
        requires
            old(self).wf(),
        ensures
            final(self).wf(),
            !enabled || !player ==> *final(self) == *old(self),
            enabled && player ==> final(self).baseline == old(self).baseline && forall|pool: int, t: EntId|
                has_entry(pool, t) ==> #[trigger] final(self).belief(pool, t) == if t == target {
                    OpponentEstimate { last_update: now, ..old(self).baseline }
                } else {
                    old(self).belief(pool, t)
                },
    {
        if !enabled || !player {
            return;
        }
        self.reset_target(target, now);
    }
}

/// Whether a mask names exactly the pools with a client that noticed an event.
pub open spec fn witnessed(mask: u16, clients: Seq<Witness>) -> bool {
    forall|p: int|
        0 <= p < MAX_POOLS ==> (#[trigger] names_pool(mask, p) <==> exists|i: int|
            0 <= i < clients.len() && noticed(#[trigger] clients[i], p))
}

proof fn lemma_one_more_pool(
    start: OpponentModel,
    before: OpponentModel,
    after: OpponentModel,
    mask: u16,
    pool: int,
    target: EntId,
    rule: spec_fn(OpponentEstimate) -> OpponentEstimate,
)
    requires
        before.wf(),
        0 <= pool < MAX_POOLS,
        names_pool(mask, pool),
        revised_in_pools(start, before, mask, pool, target, rule),
        before.revised(after, pool, target, rule(before.belief(pool, target))),
    ensures
        revised_in_pools(start, after, mask, pool + 1, target, rule),
{
    assert forall|p: int, t: EntId| has_entry(p, t) implies #[trigger] after.belief(p, t) == if t == target && p
        < pool + 1 && names_pool(mask, p) {
        rule(start.belief(p, t))
    } else {
        start.belief(p, t)
    } by {
        assert(before.belief(p, t) == if t == target && p < pool && names_pool(mask, p) {
            rule(start.belief(p, t))
        } else {
            start.belief(p, t)
        });
        if (p, t) != (pool, target) && has_entry(pool, target) {
            lemma_entries_apart(p, t, pool, target);
        }
    }
}

proof fn lemma_skip_pool(
    start: OpponentModel,
    before: OpponentModel,
    mask: u16,
    pool: int,
    target: EntId,
    rule: spec_fn(OpponentEstimate) -> OpponentEstimate,
)
    requires
        !names_pool(mask, pool),
        revised_in_pools(start, before, mask, pool, target, rule),
    ensures
        revised_in_pools(start, before, mask, pool + 1, target, rule),
{
    assert forall|p: int, t: EntId| has_entry(p, t) implies #[trigger] before.belief(p, t) == if t == target && p
        < pool + 1 && names_pool(mask, p) {
        rule(start.belief(p, t))
    } else {
        start.belief(p, t)
    } by {}
}

// --- what the estimates promise ---
/// Nothing is known of a newcomer but that it has full health, the axe and the shotgun.
pub proof fn strangers_are_taken_for_newcomers()
    ensures
        fresh_estimate().health == 100_000,
        fresh_estimate().armor_value == 0 && fresh_estimate().armor_type == 0,
        fresh_estimate().items == 4097,
        fresh_estimate().quad_until == 0 && fresh_estimate().pent_until == 0 && fresh_estimate().last_update == 0,
{
    assert(1i32 | (1i32 << 12) == 4097) by (bit_vector);
}

/// In the air duels everyone has the rocket launcher, red armor and two hundred and fifty health; in the
/// arena every weapon but the thunderbolt, and red armor; elsewhere what newcomers have.
pub proof fn modes_hand_out_their_kits(name: Seq<char>)
    ensures
        ({
            let k = kit_of_mode(name);
            &&& name == "midair"@ ==> k.health == 250_000 && k.armor_value == 200_000 && k.armor_type == 800 && k.items
                == 4096 + 32
            &&& name == "arena"@ ==> k.health == 100_000 && k.armor_value == 200_000 && k.armor_type == 800 && k.items
                == 4096 + 63
            &&& name != "midair"@ && name != "arena"@ ==> k == fresh_estimate()
        }),
{
    reveal_strlit("midair");
    reveal_strlit("arena");
    assert("midair"@.len() == 6 && "arena"@.len() == 5);
    assert((1i32 << 12) | (1i32 << 5) == 4128 && (1i32 << 12) | 1i32 | (1i32 << 1) | (1i32 << 2) | (1i32 << 3) | (1i32
        << 4) | (1i32 << 5) == 4159) by (bit_vector);
}

/// A hurt opponent is taken to heal two points a second, from five seconds after the last news on, up
/// to full health.
pub proof fn opponents_are_taken_to_heal(health: i64, last_update: i64, now: i64)
    ensures
        ({
            let d = drifted(health, last_update, now);
            let idle = now - last_update - 5_000;
            &&& health >= 100_000 || idle <= 0 ==> d == health
            &&& health < 100_000 && idle > 0 && health + 2 * idle <= 100_000 ==> d == health + 2 * idle
            &&& health < 100_000 && idle > 0 && health + 2 * idle > 100_000 ==> d == 100_000
        }),
{
}

/// A hit that was seen costs what armor does not take: of red armor four fifths, while it lasts.
pub proof fn hits_are_believed(est: OpponentEstimate, damage: i64)
    requires
        0 <= damage <= 1_000_000,
        damage % 1000 == 0,
        0 <= est.armor_value <= 1_000_000,
        est.armor_value % 1000 == 0,
        0 <= est.armor_type <= 1_000,
        -1_000_000_000 <= est.health <= 1_000_000_000,
    ensures
        ({
            let d = damaged(est, damage);
            let lost = est.armor_value - d.armor_value;
            &&& 0 <= lost <= est.armor_value
            &&& d.health == est.health - (damage - lost)
            &&& d.items == est.items && d.quad_until == est.quad_until && d.last_update == est.last_update
            &&& est.armor_value == 0 || est.armor_type == 0 ==> lost == 0
            &&& lost == est.armor_value ==> d.armor_type == 0 && d.armor_value == 0
            &&& lost < est.armor_value ==> d.armor_type == est.armor_type && est.armor_type * damage <= 1000 * lost
                < est.armor_type * damage + 1_000_000
        }),
{
    let n = est.armor_type * damage;
    let claim = -((-n) / 1_000_000) * 1000;
    assert(0 <= n <= 1_000_000_000) by (nonlinear_arith)
        requires
            n == est.armor_type * damage,
            0 <= est.armor_type <= 1_000,
            0 <= damage <= 1_000_000,
    ;
    assert(claim % 1000 == 0);
    assert(n <= claim * 1000 < n + 1_000_000);
    assert(est.armor_type == 0 ==> n == 0) by (nonlinear_arith)
        requires
            n == est.armor_type * damage,
    ;
}

/// A pickup that was seen adds what it brings: health up to a hundred, a megahealth a hundred up to two
/// hundred and fifty, armor for armor, a weapon or a pack of them, a powerup for thirty seconds; and it
/// is news.
pub proof fn pickups_are_believed(est: OpponentEstimate, kind: PickupKind, now: i64)
    requires
        0 <= now <= i64::MAX - 30_000,
        0 <= est.health <= 250_000,
        kind matches PickupKind::Health(amount) ==> 0 <= amount <= 1_000_000,
    ensures
        ({
            let p = picked_up(est, kind, now);
            let news = OpponentEstimate { last_update: now, ..est };
            &&& p.last_update == now
            &&& kind is Mega && est.health <= 150_000 ==> p == (OpponentEstimate {
                health: (est.health + 100_000) as i64,
                ..news
            })
            &&& kind is Mega && est.health > 150_000 ==> p == (OpponentEstimate { health: 250_000, ..news })
            &&& kind matches PickupKind::Health(n) ==> p == (OpponentEstimate {
                health: if est.health + n <= 100_000 {
                    (est.health + n) as i64
                } else {
                    100_000
                },
                ..news
            })
            &&& kind matches PickupKind::Armor { value, atype } ==> p == (OpponentEstimate {
                armor_value: value,
                armor_type: atype,
                ..news
            })
            &&& kind matches PickupKind::Weapon(bit) ==> p == (OpponentEstimate { items: est.items | bit, ..news })
            &&& kind matches PickupKind::Backpack(bits) ==> p == (OpponentEstimate { items: est.items | bits, ..news })
            &&& kind is Quad ==> p == (OpponentEstimate { quad_until: (now + 30_000) as i64, ..news })
            &&& kind is Pent ==> p == (OpponentEstimate { pent_until: (now + 30_000) as i64, ..news })
        }),
{
}

/// Where an estimate is kept: one for each of nine pools and each client slot but the world's; no two
/// share a place.
pub proof fn estimates_have_their_places(p: int, s: EntId, q: int, t: EntId)
    requires
        has_entry(p, s),
        has_entry(q, t),
    ensures
        0 <= entry_at(p, s.0 as int) < 297,
        entry_at(p, s.0 as int) == entry_at(q, t.0 as int) ==> p == q && s == t,
        0 <= p < 9 && 0 < s.0 <= 32,
{
}

/// An opponent is worth by its strength, a hundred points of it counting once, between two fifths and
/// two and a half; who holds a big weapon where weapons do not stay is worth a fifth less.
pub proof fn the_strong_are_feared(strength: int, armed_big: bool, weapons_stay: bool)
    requires
        0 <= strength,
    ensures
        ({
            let b = bias(strength, armed_big, weapons_stay);
            let less = armed_big && !weapons_stay;
            &&& strength <= 40_000 && !less ==> b == 400_000
            &&& 40_000 <= strength <= 250_000 && !less ==> b == 10 * strength
            &&& strength >= 250_000 && !less ==> b == 2_500_000
            &&& strength <= 40_000 && less ==> b == 320_000
            &&& 40_000 <= strength <= 250_000 && less ==> b == 8 * strength
            &&& strength >= 250_000 && less ==> b == 2_000_000
        }),
{
}

/// Firing a weapon proves that it is owned; the axe and the hook prove nothing.
pub proof fn firing_proves_the_weapon(w: Weapon)
    ensures
        w == Weapon::Nil || w == Weapon::Axe || w == Weapon::Grapple ==> proven_bit(w) is None,
        w == Weapon::RocketLauncher ==> proven_bit(w) == Some(Items::ROCKET_LAUNCHER),
        w == Weapon::Lightning ==> proven_bit(w) == Some(Items::LIGHTNING),
        w != Weapon::Nil && w != Weapon::Axe && w != Weapon::Grapple ==> proven_bit(w) == Some(w.bit()),
{
}

/// A side shares what it knows; bots without a side share among themselves; people without one do not.
pub proof fn sides_share_what_they_know(team: u8, is_bot: bool)
    ensures
        1 <= team <= 8 ==> pool_of(team, is_bot) == Some(team as usize),
        team > 8 ==> pool_of(team, is_bot) == Some(8usize),
        team == 0 && is_bot ==> pool_of(team, is_bot) == Some(0usize),
        team == 0 && !is_bot ==> pool_of(team, is_bot) is None,
{
}

/// A witness is a living bot in play within a thousand units, of that pool.
pub proof fn witnesses_are_near(c: Witness, p: int)
    ensures
        noticed(c, p) <==> {
            &&& c.in_use && c.is_bot && c.player && c.health > 0
            &&& c.dist <= 1_000_000
            &&& c.team == 0 ==> p == 0
            &&& 1 <= c.team <= 8 ==> p == c.team
            &&& c.team > 8 ==> p == 8
        },
{
}

/// News goes to the pools that had a witness, about the one it is about, and to no other.
pub proof fn news_goes_to_the_witnesses(
    before: OpponentModel,
    after: OpponentModel,
    mask: u16,
    clients: Seq<Witness>,
    target: EntId,
    rule: spec_fn(OpponentEstimate) -> OpponentEstimate,
    p: int,
    t: EntId,
)
    requires
        revised_in_pools(before, after, mask, 9, target, rule),
        witnessed(mask, clients),
        has_entry(p, t),
    ensures
        t == target && (exists|i: int| 0 <= i < clients.len() && noticed(#[trigger] clients[i], p)) ==> after.belief(p, t)
            == rule(before.belief(p, t)),
        t != target || (forall|i: int| 0 <= i < clients.len() ==> !noticed(#[trigger] clients[i], p)) ==> after.belief(p, t)
            == before.belief(p, t),
{
    assert(names_pool(mask, p) <==> exists|i: int| 0 <= i < clients.len() && noticed(#[trigger] clients[i], p));
    assert(after.belief(p, t) == if t == target && p < 9 && names_pool(mask, p) {
        rule(before.belief(p, t))
    } else {
        before.belief(p, t)
    });
}

/// A revision is what is believed from then on, and the baseline stays.
pub proof fn revisions_are_believed(
    before: OpponentModel,
    after: OpponentModel,
    pool: int,
    target: EntId,
    est: OpponentEstimate,
)
    requires
        before.wf(),
        before.revised(after, pool, target, est),
    ensures
        after.wf(),
        after.baseline == before.baseline,
        has_entry(pool, target) ==> after.belief(pool, target) == est,
{
}

/// News leaves the baseline as it is.
pub proof fn news_leaves_the_baseline(
    before: OpponentModel,
    after: OpponentModel,
    mask: u16,
    below: int,
    target: EntId,
    rule: spec_fn(OpponentEstimate) -> OpponentEstimate,
)
    requires
        revised_in_pools(before, after, mask, below, target, rule),
    ensures
        after.baseline == before.baseline,
{
}

} // verus!
