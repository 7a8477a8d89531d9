//! Doors. Doors that touch form a group that opens and closes together; the first of a group owns
//! the others, and each names the next as its enemy, the last naming the first again.
//!
//! Times are milliseconds.
use crate::abi::{EntVars, ENTITY_STRIDE};
use crate::defs::{Bits, DoorFlags, Items, MoveType, Solid, TakeDamage};
use crate::entity::{
    prog_of, prog_round_trip, Blocked, CombatState, CustomRefs, Die, EntId, Entity, MoverState, Think, Touch, Use, STATE_BOTTOM,
    STATE_DOWN, STATE_TOP, STATE_UP,
};
use crate::game::{put_combat, put_v, GameState};
use crate::num::{after, bounded};
use vstd::prelude::*;

verus! {

/// What a door does when it is told to open.
#[derive(Clone, Copy, PartialEq, Eq, Debug, Structural)]
pub enum DoorUp {
    /// It is opening already.
    Opening,
    /// It is open: it stays so for longer.
    Open,
    /// It starts to open, and fires its targets.
    Starts,
}

/// The time at which an open door closes again.
pub open spec fn closing_time(e: Entity) -> i64 {
    bounded(e.v.ltime + e.mover.wait)
}

fn close_at(e: &Entity) -> (r: i64)
    ensures
        r == closing_time(*e),
{
    after(e.v.ltime as i64, e.mover.wait as i64)
}

/// A door that has just opened: unless it is a toggle it will close.
pub open spec fn at_top(e: Entity) -> Entity {
    let top = Entity { mover: MoverState { state: STATE_TOP, ..e.mover }, ..e };
    if e.v.spawnflags & DoorFlags::TOGGLE != 0 {
        top
    } else {
        Entity { think: Think::DoorGoDown, v: EntVars { nextthink: closing_time(e), ..e.v }, ..top }
    }
}

pub fn door_hit_top(e: &mut Entity)
    ensures
        *final(e) == at_top(*old(e)),
{
    e.mover.state = STATE_TOP;
    if e.v.spawnflags.has(DoorFlags::TOGGLE) {
        return;
    }
    e.think = Think::DoorGoDown;
    e.v.nextthink = close_at(e);
}

pub fn door_hit_bottom(e: &mut Entity)
    ensures
        *final(e) == (Entity { mover: MoverState { state: STATE_BOTTOM, ..old(e).mover }, ..*old(e) }),
{
    e.mover.state = STATE_BOTTOM;
}

/// A door that starts to close; one that can be shot open can be shot again.
pub open spec fn closing(e: Entity) -> Entity {
    Entity {
        mover: MoverState { state: STATE_DOWN, ..e.mover },
        v: if e.v.max_health != 0 {
            EntVars { takedamage: TakeDamage::Yes, health: e.v.max_health, ..e.v }
        } else {
            e.v
        },
        ..e
    }
}

pub fn door_go_down(e: &mut Entity)
    ensures
        *final(e) == closing(*old(e)),
{
    if e.v.max_health != 0 {
        e.v.takedamage = TakeDamage::Yes;
        e.v.health = e.v.max_health;
    }
    e.mover.state = STATE_DOWN;
}

pub open spec fn up_step(e: Entity) -> DoorUp {
    if e.mover.state == STATE_UP {
        DoorUp::Opening
    } else if e.mover.state == STATE_TOP {
        DoorUp::Open
    } else {
        DoorUp::Starts
    }
}

/// A door that was told to open.
pub open spec fn opening(e: Entity) -> Entity {
    match up_step(e) {
        DoorUp::Opening => e,
        DoorUp::Open => Entity { v: EntVars { nextthink: closing_time(e), ..e.v }, ..e },
        DoorUp::Starts => Entity { mover: MoverState { state: STATE_UP, ..e.mover }, ..e },
    }
}

pub fn door_go_up(e: &mut Entity) -> (r: DoorUp)
    ensures
        r == up_step(*old(e)),
        *final(e) == opening(*old(e)),
{
    if e.mover.state == STATE_UP {
        return DoorUp::Opening;
    }
    if e.mover.state == STATE_TOP {
        e.v.nextthink = close_at(e);
        return DoorUp::Open;
    }
    e.mover.state = STATE_UP;
    DoorUp::Starts
}

/// What a blocked door does after hurting what is in its way: it reverses, unless it stays open.
#[derive(Clone, Copy, PartialEq, Eq, Debug, Structural)]
pub enum DoorBlock {
    Press,
    Reopen,
    Close,
}

pub fn door_blocked(e: &Entity) -> (r: DoorBlock)
    ensures
        r == blocked_step(*e),
        r == if e.mover.wait < 0 {
            DoorBlock::Press
        } else if e.mover.state == STATE_DOWN {
            DoorBlock::Reopen
        } else {
            DoorBlock::Close
        },
{
    if e.mover.wait < 0 {
        DoorBlock::Press
    } else if e.mover.state == STATE_DOWN {
        DoorBlock::Reopen
    } else {
        DoorBlock::Close
    }
}

/// Opening a door and telling it again changes nothing more.
pub proof fn opening_twice_is_opening_once(e: Entity)
    requires
        up_step(e) == DoorUp::Starts,
    ensures
        opening(opening(e)) == opening(e),
{
}

// --- groups ---
/// Whether two boxes touch or overlap.
pub open spec fn boxes_touch(a: EntVars, b: EntVars) -> bool {
    &&& a.mins@[0] <= b.maxs@[0] && a.mins@[1] <= b.maxs@[1] && a.mins@[2] <= b.maxs@[2]
    &&& a.maxs@[0] >= b.mins@[0] && a.maxs@[1] >= b.mins@[1] && a.maxs@[2] >= b.mins@[2]
}

pub fn entities_touching(a: &EntVars, b: &EntVars) -> (r: bool)
    ensures
        r == boxes_touch(*a, *b),
{
    a.mins[0] <= b.maxs[0] && a.mins[1] <= b.maxs[1] && a.mins[2] <= b.maxs[2] && a.maxs[0] >= b.mins[0]
        && a.maxs[1] >= b.mins[1] && a.maxs[2] >= b.mins[2]
}

/// Touching goes both ways.
pub proof fn touching_is_mutual(a: EntVars, b: EntVars)
    ensures
        boxes_touch(a, b) == boxes_touch(b, a),
{
}

pub open spec fn is_door(e: Entity) -> bool {
    e.in_use && e.class() == Some("door"@)
}

/// The members of a group beyond `cur`, looking at the doors from `from` on: the next door that
/// touches `cur` joins and is the one the next must touch.
pub open spec fn members(ents: Seq<Entity>, cur: int, from: int) -> Seq<int>
    decreases ents.len() - from,
{
    if from >= ents.len() {
        Seq::empty()
    } else if is_door(ents[from]) && boxes_touch(ents[cur].v, ents[from].v) {
        seq![from] + members(ents, from, from + 1)
    } else {
        members(ents, cur, from + 1)
    }
}

/// A whole group, first door first.
pub open spec fn group_of(ents: Seq<Entity>, master: int) -> Seq<int> {
    seq![master] + members(ents, master, master + 1)
}

/// The same as entity numbers.
pub open spec fn door_ids(ents: Seq<Entity>, master: EntId) -> Seq<EntId> {
    Seq::new(group_of(ents, master.0 as int).len(), |i: int| EntId(group_of(ents, master.0 as int)[i] as u32))
}

proof fn lemma_members_rise(ents: Seq<Entity>, cur: int, from: int)
    requires
        0 <= from,
    ensures
        forall|i: int|
            0 <= i < members(ents, cur, from).len() ==> from <= #[trigger] members(ents, cur, from)[i] < ents.len(),
        forall|i: int, j: int|
            0 <= i < j < members(ents, cur, from).len() ==> members(ents, cur, from)[i] < members(ents, cur, from)[j],
    decreases ents.len() - from,
{
    if from < ents.len() {
        if is_door(ents[from]) && boxes_touch(ents[cur].v, ents[from].v) {
            lemma_members_rise(ents, from, from + 1);
            let rest = members(ents, from, from + 1);
            let whole = members(ents, cur, from);
            assert forall|i: int| 0 <= i < whole.len() implies from <= #[trigger] whole[i] < ents.len() by {
                if i > 0 {
                    assert(whole[i] == rest[i - 1]);
                }
            }
            assert forall|i: int, j: int| 0 <= i < j < whole.len() implies whole[i] < whole[j] by {
                assert(whole[j] == rest[j - 1]);
                if i > 0 {
                    assert(whole[i] == rest[i - 1]);
                }
            }
        } else {
            lemma_members_rise(ents, cur, from + 1);
            assert(members(ents, cur, from) == members(ents, cur, from + 1));
        }
    } else {
        assert(members(ents, cur, from).len() == 0);
    }
}

/// A group lists its doors once each, in rising order.
pub proof fn groups_have_no_duplicates(ents: Seq<Entity>, master: int)
    requires
        0 <= master < ents.len(),
    ensures
        forall|i: int| 0 <= i < group_of(ents, master).len() ==> 0 <= #[trigger] group_of(ents, master)[i] < ents.len(),
        forall|i: int, j: int|
            0 <= i < j < group_of(ents, master).len() ==> group_of(ents, master)[i] < group_of(ents, master)[j],
{
    lemma_members_rise(ents, master, master + 1);
    let rest = members(ents, master, master + 1);
    let whole = group_of(ents, master);
    assert forall|i: int| 0 <= i < whole.len() implies 0 <= #[trigger] whole[i] < ents.len() by {
        if i > 0 {
            assert(whole[i] == rest[i - 1]);
        }
    }
    assert forall|i: int, j: int| 0 <= i < j < whole.len() implies whole[i] < whole[j] by {
        assert(whole[j] == rest[j - 1]);
        if i > 0 {
            assert(whole[i] == rest[i - 1]);
        }
    }
}

impl GameState {
    /// The doors that open with `master`.
    pub fn door_group(&self, master: EntId) -> (r: Vec<EntId>)
        requires
            self.holds(master),
            self.entities@.len() <= u32::MAX,
        ensures
            r@ == door_ids(self.entities@, master),
    {
        let ghost ents = self.entities@;
        let ghost whole = group_of(ents, master.0 as int);
        let mut r: Vec<EntId> = Vec::new();
        r.push(master);
        let mut cur: usize = master.0 as usize;
        let mut from: usize = master.0 as usize + 1;
        while from < self.entities.slots.len()
            invariant
                ents == self.entities@,
                self.entities@.len() <= u32::MAX,
                whole == group_of(ents, master.0 as int),
                cur < from <= self.entities@.len(),
                whole =~= Seq::new(r@.len(), |i: int| r@[i].0 as int) + members(ents, cur as int, from as int),
            decreases self.entities@.len() - from,
        {
            let e = &self.entities.slots[from];
            let ghost before = r@;
            if e.in_use && e.is_class("door") && entities_touching(&self.entities.slots[cur].v, &e.v) {
                r.push(EntId(from as u32));
                cur = from;
                assert(Seq::new(r@.len(), |i: int| r@[i].0 as int) =~= Seq::new(
                    before.len(),
                    |i: int| before[i].0 as int,
                ).push(from as int));
            }
            from = from + 1;
        }
        assert(r@ =~= door_ids(ents, master)) by {
            assert(members(ents, cur as int, from as int).len() == 0);
            assert forall|i: int| 0 <= i < r@.len() implies r@[i] == door_ids(ents, master)[i] by {
                assert(whole[i] == r@[i].0);
            }
        }
        r
    }
}

// --- linking ---
/// The door after door `k` of a group; the first follows the last.
pub open spec fn next_in(group: Seq<EntId>, k: int) -> EntId {
    if k + 1 < group.len() {
        group[k + 1]
    } else {
        group[0]
    }
}

pub open spec fn chained(v: EntVars, master: EntId, next: EntId) -> EntVars {
    EntVars { owner: prog_of(master), enemy: prog_of(next), ..v }
}

/// The entities once the first `n` doors of a group were chained.
pub open spec fn linked(ents: Seq<Entity>, group: Seq<EntId>, n: int) -> Seq<Entity>
    decreases n,
{
    if n <= 0 {
        ents
    } else {
        let rest = linked(ents, group, n - 1);
        let d = group[n - 1];
        put_v(rest, d, chained(rest[d.0 as int].v, group[0], next_in(group, n - 1)))
    }
}

/// A list of different doors of these entities.
pub open spec fn proper_group(ents: Seq<Entity>, group: Seq<EntId>) -> bool {
    &&& group.len() > 0
    &&& forall|i: int| 0 <= i < group.len() ==> (#[trigger] group[i]).0 < ents.len()
    &&& forall|i: int, j: int| 0 <= i < j < group.len() ==> (#[trigger] group[i]).0 != (#[trigger] group[j]).0
}

proof fn lemma_link_keeps_others(ents: Seq<Entity>, group: Seq<EntId>, n: int, i: int)
    requires
        proper_group(ents, group),
        0 <= n <= group.len(),
        0 <= i < ents.len(),
        forall|k: int| 0 <= k < n ==> (#[trigger] group[k]).0 != i,
    ensures
        linked(ents, group, n).len() == ents.len(),
        linked(ents, group, n)[i] == ents[i],
    decreases n,
{
    reveal(put_v);
    if n > 0 {
        lemma_link_keeps_others(ents, group, n - 1, i);
        assert(group[n - 1].0 != i);
    }
}

proof fn lemma_linked(ents: Seq<Entity>, group: Seq<EntId>, n: int, k: int)
    requires
        proper_group(ents, group),
        0 <= k < n <= group.len(),
    ensures
        linked(ents, group, n).len() == ents.len(),
        linked(ents, group, n)[group[k].0 as int].v == chained(
            ents[group[k].0 as int].v,
            group[0],
            next_in(group, k),
        ),
    decreases n,
{
    reveal(put_v);
    let last = group[n - 1];
    let rest = linked(ents, group, n - 1);
    if k < n - 1 {
        lemma_linked(ents, group, n - 1, k);
        assert(group[k].0 != last.0);
    } else {
        lemma_link_keeps_others(ents, group, n - 1, last.0 as int);
    }
}

impl GameState {
    /// Chain the doors of a group.
    pub fn link_group(&mut self, group: &Vec<EntId>)
        requires
            proper_group(old(self).entities@, group@),
        ensures
            final(self).entities@ == linked(old(self).entities@, group@, group@.len() as int),
            final(self).entities@.len() == old(self).entities@.len(),
            *final(self) == (GameState { entities: final(self).entities, ..*old(self) }),
    {
        let mut k: usize = 0;
        while k < group.len()
            invariant
                proper_group(old(self).entities@, group@),
                k <= group@.len(),
                self.entities@ == linked(old(self).entities@, group@, k as int),
                self.entities@.len() == old(self).entities@.len(),
                *self == (GameState { entities: self.entities, ..*old(self) }),
            decreases group@.len() - k,
        {
            let d = group[k];
            let next = if k + 1 < group.len() {
                group[k + 1]
            } else {
                group[0]
            };
            let mut v = self.entities.slots[d.0 as usize].v;
            v.owner = group[0].to_prog();
            v.enemy = next.to_prog();
            self.set_v(d, v);
            k = k + 1;
        }
    }
}

/// Entity `k` steps along a chain of enemies.
pub open spec fn follow(ents: Seq<Entity>, master: EntId, k: nat) -> EntId
    decreases k,
{
    if k == 0 {
        master
    } else {
        ents[follow(ents, master, (k - 1) as nat).0 as int].spec_enemy()
    }
}

/// Whether a chain of enemies comes back to its start, or ends in the world, after exactly `n` steps.
pub open spec fn closes_after(ents: Seq<Entity>, master: EntId, n: nat) -> bool {
    &&& n >= 1
    &&& follow(ents, master, n) == master || follow(ents, master, n).0 == EntId::WORLD
    &&& forall|k: nat|
        k < n ==> (#[trigger] follow(ents, master, k)).0 < ents.len() && (k > 0 ==> follow(ents, master, k) != master
            && follow(ents, master, k).0 != EntId::WORLD)
}

/// A linked group is a ring: following enemies from its first door visits every door once and
/// comes back.
pub proof fn linked_groups_are_rings(ents: Seq<Entity>, group: Seq<EntId>)
    requires
        proper_group(ents, group),
        forall|i: int| 0 <= i < group.len() ==> (#[trigger] group[i]).0 * ENTITY_STRIDE <= i32::MAX && group[i].0 != 0,
    ensures
        closes_after(linked(ents, group, group.len() as int), group[0], group.len()),
        forall|k: nat|
            k < group.len() ==> #[trigger] follow(linked(ents, group, group.len() as int), group[0], k)
                == group[k as int],
{
    let after = linked(ents, group, group.len() as int);
    assert forall|k: nat| k < group.len() implies #[trigger] follow(after, group[0], k) == group[k as int] by {
        lemma_ring_step(ents, group, k);
    }
    let last = (group.len() - 1) as nat;
    lemma_ring_step(ents, group, last);
    lemma_ring_next(ents, group, last as int);
    assert forall|k: nat| k < group.len() implies (#[trigger] follow(after, group[0], k)).0 < after.len() && (k > 0
        ==> follow(after, group[0], k) != group[0] && follow(after, group[0], k).0 != EntId::WORLD) by {
        assert(follow(after, group[0], k) == group[k as int]);
        if k > 0 {
            assert(group[0].0 != group[k as int].0);
        }
    }
}

proof fn lemma_ring_next(ents: Seq<Entity>, group: Seq<EntId>, k: int)
    requires
        proper_group(ents, group),
        forall|i: int| 0 <= i < group.len() ==> (#[trigger] group[i]).0 * ENTITY_STRIDE <= i32::MAX && group[i].0 != 0,
        0 <= k < group.len(),
    ensures
        linked(ents, group, group.len() as int).len() == ents.len(),
        linked(ents, group, group.len() as int)[group[k].0 as int].spec_enemy() == next_in(group, k),
        linked(ents, group, group.len() as int)[group[k].0 as int].spec_owner() == group[0],
{
    lemma_linked(ents, group, group.len() as int, k);
    prog_round_trip(next_in(group, k));
    prog_round_trip(group[0]);
}

proof fn lemma_ring_step(ents: Seq<Entity>, group: Seq<EntId>, k: nat)
    requires
        proper_group(ents, group),
        forall|i: int| 0 <= i < group.len() ==> (#[trigger] group[i]).0 * ENTITY_STRIDE <= i32::MAX && group[i].0 != 0,
        k < group.len(),
    ensures
        follow(linked(ents, group, group.len() as int), group[0], k) == group[k as int],
    decreases k,
{
    if k > 0 {
        lemma_ring_step(ents, group, (k - 1) as nat);
        lemma_ring_next(ents, group, k - 1);
    }
}

/// The health of a group: the last of its doors that has any decides.
pub open spec fn group_health(ents: Seq<Entity>, group: Seq<EntId>, n: int) -> i32
    decreases n,
{
    if n <= 0 {
        0
    } else if ents[group[n - 1].0 as int].v.health != 0 {
        ents[group[n - 1].0 as int].v.health
    } else {
        group_health(ents, group, n - 1)
    }
}

pub open spec fn text_of(t: Option<String>) -> Option<Seq<char>> {
    match t {
        Some(s) => Some(s@),
        None => None,
    }
}

/// The name of a group: the last of its doors that has one decides.
pub open spec fn group_name(ents: Seq<Entity>, group: Seq<EntId>, n: int) -> Option<Seq<char>>
    decreases n,
{
    if n <= 0 {
        None
    } else if ents[group[n - 1].0 as int].targetname is Some {
        text_of(ents[group[n - 1].0 as int].targetname)
    } else {
        group_name(ents, group, n - 1)
    }
}

/// The message of a group, likewise.
pub open spec fn group_message(ents: Seq<Entity>, group: Seq<EntId>, n: int) -> Option<Seq<char>>
    decreases n,
{
    if n <= 0 {
        None
    } else if ents[group[n - 1].0 as int].message is Some {
        text_of(ents[group[n - 1].0 as int].message)
    } else {
        group_message(ents, group, n - 1)
    }
}

fn copy_text(t: &Option<String>) -> (r: Option<String>)
    ensures
        text_of(r) == text_of(*t),
{
    match t {
        Some(s) => Some(s.as_str().to_owned()),
        None => None,
    }
}

impl GameState {
    /// Give the first door of a group the health, name and message of the group.
    pub fn promote_group(&mut self, group: &Vec<EntId>)
        requires
            proper_group(old(self).entities@, group@),
        ensures
            ({
                let ents = old(self).entities@;
                let n = group@.len() as int;
                let m = group@[0].0 as int;
                let after = final(self).entities@[m];
                &&& final(self).entities@ == ents.update(m, after)
                &&& after == (Entity {
                    v: EntVars { health: group_health(ents, group@, n), ..ents[m].v },
                    targetname: after.targetname,
                    message: after.message,
                    ..ents[m]
                })
                &&& text_of(after.targetname) == group_name(ents, group@, n)
                &&& text_of(after.message) == group_message(ents, group@, n)
            }),
            *final(self) == (GameState { entities: final(self).entities, ..*old(self) }),
    {
        let mut health: i32 = 0;
        let mut name: Option<String> = None;
        let mut message: Option<String> = None;
        let mut k: usize = 0;
        while k < group.len()
            invariant
                proper_group(old(self).entities@, group@),
                *self == *old(self),
                k <= group@.len(),
                health == group_health(self.entities@, group@, k as int),
                text_of(name) == group_name(self.entities@, group@, k as int),
                text_of(message) == group_message(self.entities@, group@, k as int),
            decreases group@.len() - k,
        {
            let d = &self.entities.slots[group[k].0 as usize];
            if d.v.health != 0 {
                health = d.v.health;
            }
            if d.targetname.is_some() {
                name = copy_text(&d.targetname);
            }
            if d.message.is_some() {
                message = copy_text(&d.message);
            }
            k = k + 1;
        }
        let m: usize = group[0].0 as usize;
        let ghost ents = self.entities@;
        self.entities.slots[m].v.health = health;
        self.entities.slots[m].targetname = name;
        self.entities.slots[m].message = message;
        assert(self.entities@ =~= ents.update(m as int, self.entities@[m as int]));
    }
}

/// What linking a door came to.
#[derive(Clone, Copy, PartialEq, Eq, Debug, Structural)]
pub enum DoorLink {
    /// It was linked before.
    Already,
    /// It stands alone.
    Alone,
    /// It heads a group; a field around the group opens it, unless something else does.
    Group { field: bool },
}

/// Whether a group opens by itself: nothing shoots, names or locks it.
pub open spec fn opens_itself(master: Entity) -> bool {
    master.v.health == 0 && master.targetname is None && master.v.items == 0
}

/// The entities after a door was linked.
pub open spec fn door_linked(before: Seq<Entity>, e: EntId, group: Seq<EntId>, after: Seq<Entity>) -> bool {
    let chain = linked(before, group, group.len() as int);
    let m = e.0 as int;
    &&& after == chain.update(m, after[m])
    &&& after[m] == (Entity {
        v: EntVars { health: group_health(chain, group, group.len() as int), ..chain[m].v },
        targetname: after[m].targetname,
        message: after[m].message,
        ..chain[m]
    })
    &&& text_of(after[m].targetname) == group_name(chain, group, group.len() as int)
    &&& text_of(after[m].message) == group_message(chain, group, group.len() as int)
}

proof fn lemma_ids_proper(ents: Seq<Entity>, e: EntId)
    requires
        e.0 < ents.len() <= u32::MAX,
    ensures
        proper_group(ents, door_ids(ents, e)),
        door_ids(ents, e)[0] == e,
{
    groups_have_no_duplicates(ents, e.0 as int);
    let g = group_of(ents, e.0 as int);
    let d = door_ids(ents, e);
    assert forall|i: int| 0 <= i < d.len() implies (#[trigger] d[i]).0 < ents.len() by {
        assert(0 <= g[i] < ents.len());
    }
    assert forall|i: int, j: int| 0 <= i < j < d.len() implies (#[trigger] d[i]).0 != (#[trigger] d[j]).0 by {
        assert(g[i] < g[j]);
    }
}

impl GameState {
    /// Link a door with those that touch it.
    pub fn door_link(&mut self, e: EntId) -> (r: DoorLink)
        requires
            old(self).holds(e),
            old(self).entities@.len() <= u32::MAX,
        ensures
            *final(self) == (GameState { entities: final(self).entities, ..*old(self) }),
            ({
                let d = old(self).at(e);
                if d.spec_enemy().0 != 0 {
                    r == DoorLink::Already && final(self).entities@ == old(self).entities@
                } else if d.v.spawnflags & DoorFlags::DONT_LINK != 0 {
                    r == DoorLink::Alone && final(self).entities@ == put_v(
                        old(self).entities@,
                        e,
                        chained(d.v, e, e),
                    )
                } else {
                    let group = door_ids(old(self).entities@, e);
                    &&& door_linked(old(self).entities@, e, group, final(self).entities@)
                    &&& r == (DoorLink::Group { field: opens_itself(final(self).at(e)) })
                    &&& r == (DoorLink::Group { field: true }) <==> {
                        &&& final(self).at(e).v.health == 0
                        &&& final(self).at(e).targetname is None
                        &&& final(self).at(e).v.items == 0
                    }
                }
            }),
    {
        let d = &self.entities.slots[e.0 as usize];
        if d.enemy().is_some() {
            return DoorLink::Already;
        }
        if d.v.spawnflags.has(DoorFlags::DONT_LINK) {
            let mut v = d.v;
            v.owner = e.to_prog();
            v.enemy = e.to_prog();
            self.set_v(e, v);
            return DoorLink::Alone;
        }
        let ghost before = self.entities@;
        let group = self.door_group(e);
        proof {
            groups_have_no_duplicates(before, e.0 as int);
            lemma_ids_proper(before, e);
        }
        self.link_group(&group);
        let ghost chain = self.entities@;
        assert(proper_group(chain, group@));
        self.promote_group(&group);
        assert(door_linked(before, e, group@, self.entities@));
        let m = &self.entities.slots[e.0 as usize];
        DoorLink::Group { field: m.v.health == 0 && m.targetname.is_none() && m.v.items == 0 }
    }
}

/// How far the field around a group reaches beyond its doors, along each axis.
pub open spec fn field_margin(axis: int) -> int {
    if axis == 2 {
        8_000
    } else {
        60_000
    }
}

/// The lowest and the highest that the doors of a group reach along an axis.
pub open spec fn lowest(ents: Seq<Entity>, group: Seq<EntId>, axis: int, n: int) -> int
    decreases n,
{
    let here = ents[group[n - 1].0 as int].v.mins@[axis] as int;
    if n <= 1 {
        here
    } else if lowest(ents, group, axis, n - 1) < here {
        lowest(ents, group, axis, n - 1)
    } else {
        here
    }
}

pub open spec fn highest(ents: Seq<Entity>, group: Seq<EntId>, axis: int, n: int) -> int
    decreases n,
{
    let here = ents[group[n - 1].0 as int].v.maxs@[axis] as int;
    if n <= 1 {
        here
    } else if highest(ents, group, axis, n - 1) > here {
        highest(ents, group, axis, n - 1)
    } else {
        here
    }
}

impl GameState {
    /// The corners of the field around a group along one axis, in thousandths of a unit.
    pub fn field_span(&self, group: &Vec<EntId>, axis: usize) -> (r: (i64, i64))
        requires
            proper_group(self.entities@, group@),
            axis < 3,
        ensures
            r.0 == lowest(self.entities@, group@, axis as int, group@.len() as int) - field_margin(axis as int),
            r.1 == highest(self.entities@, group@, axis as int, group@.len() as int) + field_margin(axis as int),
    {
        let mut lo: i32 = self.entities.slots[group[0].0 as usize].v.mins[axis];
        let mut hi: i32 = self.entities.slots[group[0].0 as usize].v.maxs[axis];
        let mut k: usize = 1;
        while k < group.len()
            invariant
                proper_group(self.entities@, group@),
                axis < 3,
                1 <= k <= group@.len(),
                lo == lowest(self.entities@, group@, axis as int, k as int),
                hi == highest(self.entities@, group@, axis as int, k as int),
            decreases group@.len() - k,
        {
            let v = &self.entities.slots[group[k].0 as usize].v;
            if v.mins[axis] <= lo {
                lo = v.mins[axis];
            }
            if v.maxs[axis] >= hi {
                hi = v.maxs[axis];
            }
            k = k + 1;
        }
        let margin: i64 = if axis == 2 {
            8_000
        } else {
            60_000
        };
        (lo as i64 - margin, hi as i64 + margin)
    }

    /// Make the fresh entity `id` the field that opens the group of `master`.
    pub fn spawn_field(&mut self, master: EntId, id: EntId)
        requires
            old(self).holds(master),
            old(self).holds(id),
            master != id,
        ensures
            final(self).entities@ == old(self).entities@.update(
                id.0 as int,
                as_field(old(self).at(id), master),
            ).update(
                master.0 as int,
                Entity { refs: CustomRefs { trigger_field: id.0, ..old(self).at(master).refs }, ..old(self).at(master) },
            ),
            *final(self) == (GameState { entities: final(self).entities, ..*old(self) }),
    {
        let ghost before = self.entities@;
        let f: usize = id.0 as usize;
        let m: usize = master.0 as usize;
        self.entities.slots[f].v.movetype = MoveType::Nil;
        self.entities.slots[f].v.solid = Solid::Trigger;
        self.entities.slots[f].v.touch = 1;
        self.entities.slots[f].touch = Touch::DoorTriggerField;
        self.entities.slots[f].v.owner = master.to_prog();
        assert(self.entities@ =~= before.update(id.0 as int, as_field(before[id.0 as int], master)));
        self.entities.slots[m].refs.trigger_field = id.0;
        assert(self.entities@ =~= before.update(id.0 as int, as_field(before[id.0 as int], master)).update(
            master.0 as int,
            Entity { refs: CustomRefs { trigger_field: id.0, ..before[m as int].refs }, ..before[m as int] },
        ));
    }
}

pub open spec fn as_field(e: Entity, master: EntId) -> Entity {
    Entity {
        touch: Touch::DoorTriggerField,
        v: EntVars {
            movetype: MoveType::Nil,
            solid: Solid::Trigger,
            touch: 1,
            owner: prog_of(master),
            ..e.v
        },
        ..e
    }
}

/// The field of a group surrounds each of its doors.
pub proof fn fields_surround_their_doors(ents: Seq<Entity>, group: Seq<EntId>, axis: int, n: int, k: int)
    requires
        0 <= k < n <= group.len(),
    ensures
        lowest(ents, group, axis, n) <= ents[group[k].0 as int].v.mins@[axis],
        highest(ents, group, axis, n) >= ents[group[k].0 as int].v.maxs@[axis],
    decreases n,
{
    if k < n - 1 {
        fields_surround_their_doors(ents, group, axis, n - 1, k);
    }
}

// --- opening ---
/// What one door of a group was told to do.
#[derive(Clone, Copy, PartialEq, Eq, Debug, Structural)]
pub enum DoorStep {
    Closes,
    Opens(DoorUp),
}

/// A ring of doors that is being fired: its first door, whether it closes, and on whose behalf it
/// opens. Its doors are told one after the other, since each may set off something else before the
/// next is told.
#[derive(Clone, Copy, PartialEq, Eq, Debug, Structural)]
pub struct DoorRing {
    pub master: EntId,
    pub shut: bool,
    pub activator: EntId,
    /// The first door is a key door: it makes its key sound.
    pub key_sound: bool,
}

/// The entities with one replaced.
#[verifier::opaque]
pub open spec fn put_door(ents: Seq<Entity>, e: EntId, d: Entity) -> Seq<Entity> {
    ents.update(e.0 as int, d)
}

/// The entities once a door has nothing to say any more.
pub open spec fn hushed(ents: Seq<Entity>, e: EntId) -> Seq<Entity> {
    put_door(ents, e, Entity { message: None, ..ents[e.0 as int] })
}

/// A door about to be opened by `activator`.
pub open spec fn aimed(e: Entity, activator: EntId) -> Entity {
    Entity { v: EntVars { goalentity: prog_of(activator), ..e.v }, ..e }
}

/// Whether a group closes when it is fired.
pub open spec fn fires_shut(master: Entity) -> bool {
    master.v.spawnflags & DoorFlags::TOGGLE != 0 && (master.mover.state == STATE_UP || master.mover.state == STATE_TOP)
}

pub open spec fn stepped(e: Entity, shut: bool, activator: EntId) -> Entity {
    if shut {
        closing(e)
    } else {
        opening(aimed(e, activator))
    }
}

pub open spec fn step_of(e: Entity, shut: bool) -> DoorStep {
    if shut {
        DoorStep::Closes
    } else {
        DoorStep::Opens(up_step(e))
    }
}

/// The ring that firing `master` starts.
pub open spec fn ring_of(ents: Seq<Entity>, master: EntId, activator: EntId) -> DoorRing {
    let m = ents[master.0 as int];
    DoorRing { master, shut: fires_shut(m), activator, key_sound: m.v.items != 0 }
}

/// The entities once one door of a ring was told.
pub open spec fn told(ents: Seq<Entity>, ring: DoorRing, e: EntId) -> Seq<Entity> {
    put_door(ents, e, stepped(ents[e.0 as int], ring.shut, ring.activator))
}

/// The door to tell after `e`; none where the ring has come round or ends.
pub open spec fn told_next(ents: Seq<Entity>, ring: DoorRing, e: EntId) -> Option<EntId> {
    let next = ents[e.0 as int].spec_enemy();
    if next == ring.master || next.0 == EntId::WORLD {
        None
    } else {
        Some(next)
    }
}

/// The entities once the first `n` doors of a ring were told, with nothing else between.
pub open spec fn swung(ents: Seq<Entity>, ring: DoorRing, n: nat) -> Seq<Entity>
    decreases n,
{
    if n == 0 {
        ents
    } else {
        told(swung(ents, ring, (n - 1) as nat), ring, follow(ents, ring.master, (n - 1) as nat))
    }
}

/// Whether two states of the entities have the same owners and enemies.
pub open spec fn same_links(a: Seq<Entity>, b: Seq<Entity>) -> bool {
    &&& a.len() == b.len()
    &&& forall|i: int|
        0 <= i < a.len() ==> (#[trigger] a[i]).v.enemy == b[i].v.enemy && a[i].v.owner == b[i].v.owner
}

proof fn lemma_swung_links(ents: Seq<Entity>, ring: DoorRing, n: nat, m: nat)
    requires
        closes_after(ents, ring.master, n),
        m <= n,
    ensures
        same_links(ents, swung(ents, ring, m)),
    decreases m,
{
    if m > 0 {
        lemma_swung_links(ents, ring, n, (m - 1) as nat);
        reveal(put_door);
        assert(follow(ents, ring.master, (m - 1) as nat).0 < ents.len());
    }
}

/// A ring that closes after `n` doors is told door by door in its order, each once, and ends there.
pub proof fn a_ring_is_told_once(ents: Seq<Entity>, ring: DoorRing, n: nat, k: nat)
    requires
        closes_after(ents, ring.master, n),
        k < n,
    ensures
        told_next(swung(ents, ring, k + 1), ring, follow(ents, ring.master, k)) == if k + 1 == n {
            None
        } else {
            Some(follow(ents, ring.master, k + 1))
        },
{
    lemma_swung_links(ents, ring, n, k + 1);
    let d = follow(ents, ring.master, k);
    assert(d.0 < ents.len());
    assert(ents[d.0 as int].v.enemy == swung(ents, ring, k + 1)[d.0 as int].v.enemy);
    assert(follow(ents, ring.master, k + 1) == ents[d.0 as int].spec_enemy());
    if k + 1 < n {
        assert(follow(ents, ring.master, k + 1).0 < ents.len());
    }
}

/// A group moves together: every door that was told is on its way down where the ring closes, and
/// on its way up or open where it opens.
pub proof fn a_group_moves_together(ents: Seq<Entity>, ring: DoorRing, n: nat, m: nat, k: nat)
    requires
        closes_after(ents, ring.master, n),
        k < m <= n,
    ensures
        ({
            let state = swung(ents, ring, m)[follow(ents, ring.master, k).0 as int].mover.state;
            if ring.shut {
                state == STATE_DOWN
            } else {
                state == STATE_UP || state == STATE_TOP
            }
        }),
    decreases m,
{
    lemma_swung_links(ents, ring, n, (m - 1) as nat);
    reveal(put_door);
    assert(follow(ents, ring.master, (m - 1) as nat).0 < ents.len());
    assert(follow(ents, ring.master, k).0 < ents.len());
    if k < m - 1 {
        a_group_moves_together(ents, ring, n, (m - 1) as nat, k);
    }
}

impl GameState {
    /// Clear the message of one entity.
    fn hush(&mut self, e: EntId)
        requires
            old(self).holds(e),
        ensures
            final(self).entities@ == hushed(old(self).entities@, e),
            same_links(old(self).entities@, final(self).entities@),
            *final(self) == (GameState { entities: final(self).entities, ..*old(self) }),
    {
        self.entities.slots[e.0 as usize].message = None;
        reveal(put_door);
        assert(self.entities@ =~= hushed(old(self).entities@, e));
    }

    /// Tell one door of a ring.
    pub fn tell_door(&mut self, ring: &DoorRing, e: EntId) -> (r: DoorStep)
        requires
            old(self).holds(e),
        ensures
            final(self).entities@ == told(old(self).entities@, *ring, e),
            r == step_of(old(self).at(e), ring.shut),
            *final(self) == (GameState { entities: final(self).entities, ..*old(self) }),
    {
        let d: &mut Entity = &mut self.entities.slots[e.0 as usize];
        let r = if ring.shut {
            door_go_down(d);
            DoorStep::Closes
        } else {
            d.set_goalentity(ring.activator);
            DoorStep::Opens(door_go_up(d))
        };
        reveal(put_door);
        assert(self.entities@ =~= told(old(self).entities@, *ring, e));
        r
    }

    /// The door of a ring to tell after `e`, once what `e` set off is done.
    pub fn next_told(&self, ring: &DoorRing, e: EntId) -> (r: Option<EntId>)
        requires
            self.holds(e),
        ensures
            r == told_next(self.entities@, *ring, e),
    {
        let next = self.entities.slots[e.0 as usize].enemy();
        if next == ring.master || !next.is_some() {
            None
        } else {
            Some(next)
        }
    }

    /// Start to fire the ring of `master`: to open it, or to close it where it is a toggle that is
    /// open. Its first door is the first to be told.
    pub fn door_fire(&mut self, master: EntId) -> (r: DoorRing)
        requires
            old(self).holds(master),
        ensures
            r == ring_of(old(self).entities@, master, old(self).activator),
            final(self).entities@ == hushed(old(self).entities@, master),
            same_links(old(self).entities@, final(self).entities@),
            *final(self) == (GameState { entities: final(self).entities, ..*old(self) }),
    {
        let m = &self.entities.slots[master.0 as usize];
        let key_sound: bool = m.v.items != 0;
        let shut: bool = m.v.spawnflags.has(DoorFlags::TOGGLE) && (m.mover.state == STATE_UP || m.mover.state
            == STATE_TOP);
        self.hush(master);
        DoorRing { master, shut, activator: self.activator, key_sound }
    }
}

/// The entities with the messages that hang on a door cleared.
pub open spec fn quieted(ents: Seq<Entity>, e: EntId) -> Seq<Entity> {
    let owner = ents[e.0 as int].spec_owner();
    let enemy = ents[e.0 as int].spec_enemy();
    let both = hushed(hushed(ents, e), owner);
    if enemy.0 != 0 {
        hushed(both, enemy)
    } else {
        both
    }
}

/// Whether what a door refers to is there.
pub open spec fn usable(ents: Seq<Entity>, e: EntId) -> bool {
    &&& e.0 < ents.len()
    &&& ents[e.0 as int].spec_owner().0 < ents.len()
    &&& ents[e.0 as int].spec_enemy().0 < ents.len()
}

/// What using a door does: its messages go and the ring of its owner starts to be fired.
pub open spec fn door_used(before: Seq<Entity>, e: EntId, activator: EntId) -> (Seq<Entity>, DoorRing) {
    let owner = before[e.0 as int].spec_owner();
    let quiet = quieted(before, e);
    (hushed(quiet, owner), ring_of(quiet, owner, activator))
}

proof fn lemma_usable_same(a: Seq<Entity>, b: Seq<Entity>, e: EntId)
    requires
        same_links(a, b),
        usable(a, e),
    ensures
        usable(b, e),
        a[e.0 as int].spec_owner() == b[e.0 as int].spec_owner(),
        a[e.0 as int].spec_enemy() == b[e.0 as int].spec_enemy(),
{
    assert(a[e.0 as int].v.enemy == b[e.0 as int].v.enemy);
}

impl GameState {
    pub fn door_use(&mut self, e: EntId) -> (r: DoorRing)
        requires
            usable(old(self).entities@, e),
        ensures
            (final(self).entities@, r) == door_used(old(self).entities@, e, old(self).activator),
            *final(self) == (GameState { entities: final(self).entities, ..*old(self) }),
    {
        let ghost before = self.entities@;
        self.hush(e);
        proof {
            lemma_usable_same(before, self.entities@, e);
        }
        let owner = self.entities.slots[e.0 as usize].owner();
        let ghost one = self.entities@;
        self.hush(owner);
        proof {
            lemma_usable_same(one, self.entities@, e);
        }
        let enemy = self.entities.slots[e.0 as usize].enemy();
        if enemy.is_some() {
            self.hush(enemy);
        }
        assert(self.entities@ == quieted(before, e));
        self.door_fire(owner)
    }

    /// Something alive touches the field of a group.
    pub fn door_trigger_touch(&mut self, e: EntId, other: EntId, now: i64) -> (r: Option<DoorRing>)
        requires
            old(self).holds(e),
            old(self).holds(other),
            field_opens(old(self).at(e), old(self).at(other), now) ==> usable(
                old(self).entities@,
                old(self).at(e).spec_owner(),
            ),
        ensures
            ({
                let before = old(self).entities@;
                let field = old(self).at(e);
                if field_opens(field, old(self).at(other), now) {
                    let held = put_combat(
                        before,
                        e,
                        CombatState { attack_finished: bounded(now + 1000), ..field.combat },
                    );
                    let (used, ring) = door_used(held, field.spec_owner(), other);
                    &&& r == Some(ring)
                    &&& final(self).entities@ == used
                    &&& *final(self) == (GameState {
                        entities: final(self).entities,
                        activator: other,
                        ..*old(self)
                    })
                } else {
                    r is None && *final(self) == *old(self)
                }
            }),
    {
        if self.entities.slots[other.0 as usize].v.health <= 0 {
            return None;
        }
        if now < self.entities.slots[e.0 as usize].combat.attack_finished {
            return None;
        }
        let ghost before = self.entities@;
        let mut combat = self.entities.slots[e.0 as usize].combat;
        combat.attack_finished = after(now, 1000);
        self.set_combat(e, combat);
        self.activator = other;
        let owner = self.entities.slots[e.0 as usize].owner();
        proof {
            assert(same_links(before, self.entities@)) by {
                reveal(put_combat);
            }
            lemma_usable_same(before, self.entities@, owner);
        }
        Some(self.door_use(owner))
    }

    /// A door that can be shot was: it opens, whole again.
    pub fn door_killed(&mut self, e: EntId) -> (r: DoorRing)
        requires
            old(self).holds(e),
            usable(old(self).entities@, old(self).at(e).spec_owner()),
        ensures
            ({
                let owner = old(self).at(e).spec_owner();
                let v = old(self).at(owner).v;
                let whole = put_v(
                    old(self).entities@,
                    owner,
                    EntVars { health: v.max_health, takedamage: TakeDamage::No, ..v },
                );
                (final(self).entities@, r) == door_used(whole, owner, old(self).activator)
            }),
            *final(self) == (GameState { entities: final(self).entities, ..*old(self) }),
    {
        let ghost before = self.entities@;
        let owner = self.entities.slots[e.0 as usize].owner();
        let mut v = self.entities.slots[owner.0 as usize].v;
        v.health = v.max_health;
        v.takedamage = TakeDamage::No;
        self.set_v(owner, v);
        proof {
            assert(same_links(before, self.entities@)) by {
                reveal(put_v);
            }
            lemma_usable_same(before, self.entities@, owner);
        }
        self.door_use(owner)
    }
}

/// Whether a field opens its doors for `other`.
pub open spec fn field_opens(field: Entity, other: Entity, now: i64) -> bool {
    other.v.health > 0 && now >= field.combat.attack_finished
}

/// What touching a door came to.
pub enum DoorTouch {
    /// Not a player, or too soon after the last time.
    Ignored,
    /// Nothing beyond its message.
    Shown,
    /// A key is missing; this says which.
    NeedsKey(&'static str),
    /// The key turned.
    Opens(DoorRing),
}

/// Whether a door takes notice of a touch.
pub open spec fn door_notices(owner: Entity, other: Entity, now: i64) -> bool {
    other.class() == Some("player"@) && owner.combat.attack_finished <= now
}

/// What a player without the key is told.
pub open spec fn key_words(items: i32, worldtype: i32) -> Seq<char> {
    if items == Items::KEY1 {
        if worldtype == 2 {
            "You need the silver keycard"@
        } else if worldtype == 1 {
            "You need the silver runekey"@
        } else {
            "You need the silver key"@
        }
    } else {
        if worldtype == 2 {
            "You need the gold keycard"@
        } else if worldtype == 1 {
            "You need the gold runekey"@
        } else {
            "You need the gold key"@
        }
    }
}

fn missing_key(items: i32, worldtype: i32) -> (r: &'static str)
    ensures
        r@ == key_words(items, worldtype),
{
    if items == Items::KEY1 {
        match worldtype {
            2 => "You need the silver keycard",
            1 => "You need the silver runekey",
            _ => "You need the silver key",
        }
    } else {
        match worldtype {
            2 => "You need the gold keycard",
            1 => "You need the gold runekey",
            _ => "You need the gold key",
        }
    }
}

/// The entities once a door answers no more touches.
pub open spec fn untouchable(ents: Seq<Entity>, e: EntId) -> Seq<Entity> {
    let d = ents[e.0 as int];
    put_door(ents, e, Entity { touch: Touch::Nil, v: EntVars { touch: 0, ..d.v }, ..d })
}

/// The entities when a door that `other` holds the key of is about to open.
pub open spec fn unlocked(ents: Seq<Entity>, e: EntId, other: EntId) -> Seq<Entity> {
    let o = ents[other.0 as int].v;
    let paid = put_v(ents, other, EntVars { items: o.items & !ents[e.0 as int].v.items, ..o });
    let enemy = ents[e.0 as int].spec_enemy();
    if enemy.0 != 0 {
        untouchable(untouchable(paid, e), enemy)
    } else {
        untouchable(paid, e)
    }
}

/// The entities when a door has noticed a touch.
pub open spec fn noticed(ents: Seq<Entity>, owner: EntId, now: i64) -> Seq<Entity> {
    put_combat(
        ents,
        owner,
        CombatState { attack_finished: bounded(now + 2000), ..ents[owner.0 as int].combat },
    )
}

impl GameState {
    fn make_untouchable(&mut self, e: EntId)
        requires
            old(self).holds(e),
        ensures
            final(self).entities@ == untouchable(old(self).entities@, e),
            same_links(old(self).entities@, final(self).entities@),
            *final(self) == (GameState { entities: final(self).entities, ..*old(self) }),
    {
        self.entities.slots[e.0 as usize].set_touch(Touch::Nil);
        reveal(put_door);
        assert(self.entities@ =~= untouchable(old(self).entities@, e));
    }

    /// Hold a door that noticed a touch back for a while.
    fn notice(&mut self, owner: EntId, now: i64)
        requires
            old(self).holds(owner),
        ensures
            final(self).entities@ == noticed(old(self).entities@, owner, now),
            same_links(old(self).entities@, final(self).entities@),
            *final(self) == (GameState { entities: final(self).entities, ..*old(self) }),
    {
        let mut combat = self.entities.slots[owner.0 as usize].combat;
        combat.attack_finished = after(now, 2000);
        self.set_combat(owner, combat);
        reveal(put_combat);
    }

    /// Take the key of a door and let it go unnoticed from now on.
    fn unlock(&mut self, e: EntId, other: EntId)
        requires
            old(self).holds(other),
            usable(old(self).entities@, e),
        ensures
            final(self).entities@ == unlocked(old(self).entities@, e, other),
            same_links(old(self).entities@, final(self).entities@),
            *final(self) == (GameState { entities: final(self).entities, ..*old(self) }),
    {
        let ghost before = self.entities@;
        let items: i32 = self.entities.slots[e.0 as usize].v.items;
        let mut v = self.entities.slots[other.0 as usize].v;
        v.items = v.items.without(items);
        self.set_v(other, v);
        let ghost paid = self.entities@;
        assert(same_links(before, paid)) by {
            reveal(put_v);
        }
        self.make_untouchable(e);
        proof {
            lemma_usable_same(before, self.entities@, e);
        }
        let enemy = self.entities.slots[e.0 as usize].enemy();
        if enemy.is_some() {
            self.make_untouchable(enemy);
        }
    }

    /// A player touches a door: it says its message, and opens to who has its key. Gives the
    /// message, and what came of it.
    pub fn door_touch(&mut self, e: EntId, other: EntId, now: i64) -> (r: (Option<String>, DoorTouch))
        requires
            old(self).holds(e),
            old(self).holds(other),
            old(self).holds(old(self).at(e).spec_owner()),
            door_notices(old(self).at(old(self).at(e).spec_owner()), old(self).at(other), now) && old(self).at(e).v.items
                != 0 ==> usable(old(self).entities@, e),
        ensures
            ({
                let before = old(self).entities@;
                let owner = old(self).at(e).spec_owner();
                let items = old(self).at(e).v.items;
                let seen = noticed(before, owner, now);
                if !door_notices(old(self).at(owner), old(self).at(other), now) {
                    r.0 is None && r.1 is Ignored && final(self).entities@ == before
                } else {
                    &&& text_of(r.0) == text_of(old(self).at(owner).message)
                    &&& if items == 0 {
                        r.1 is Shown && final(self).entities@ == seen
                    } else if old(self).at(other).v.items & items != items {
                        &&& r.1 matches DoorTouch::NeedsKey(words) && words@ == key_words(
                            old(self).at(owner).v.items,
                            old(self).level.worldtype,
                        )
                        &&& final(self).entities@ == seen
                    } else {
                        let (used, ring) = door_used(unlocked(seen, e, other), e, old(self).activator);
                        &&& r.1 matches DoorTouch::Opens(f) && f == ring
                        &&& final(self).entities@ == used
                    }
                }
            }),
            *final(self) == (GameState { entities: final(self).entities, ..*old(self) }),
    {
        let ghost before = self.entities@;
        if !self.entities.slots[other.0 as usize].is_class("player") {
            return (None, DoorTouch::Ignored);
        }
        let owner = self.entities.slots[e.0 as usize].owner();
        let o = &self.entities.slots[owner.0 as usize];
        if o.combat.attack_finished > now {
            return (None, DoorTouch::Ignored);
        }
        let said = copy_text(&o.message);
        let lock: i32 = o.v.items;
        let items: i32 = self.entities.slots[e.0 as usize].v.items;
        let held: i32 = self.entities.slots[other.0 as usize].v.items;
        self.notice(owner, now);
        if items == 0 {
            return (said, DoorTouch::Shown);
        }
        if !held.has_all(items) {
            return (said, DoorTouch::NeedsKey(missing_key(lock, self.level.worldtype)));
        }
        proof {
            lemma_usable_same(before, self.entities@, e);
        }
        let ghost seen = self.entities@;
        self.unlock(e, other);
        proof {
            lemma_usable_same(seen, self.entities@, e);
        }
        (said, DoorTouch::Opens(self.door_use(e)))
    }
}

/// A key is spent on the door it opens.
pub proof fn keys_are_spent(ents: Seq<Entity>, e: EntId, other: EntId)
    requires
        other.0 < ents.len(),
        e.0 < ents.len(),
        ents[e.0 as int].spec_enemy().0 < ents.len(),
    ensures
        unlocked(ents, e, other)[other.0 as int].v.items & ents[e.0 as int].v.items == 0,
{
    reveal(put_v);
    reveal(put_door);
    let held = ents[other.0 as int].v.items;
    let key = ents[e.0 as int].v.items;
    assert((held & !key) & key == 0) by (bit_vector);
}

// --- spawning ---
/// The sounds of a locked door, by the theme of the map: refusing and turning.
pub open spec fn lock_sounds(worldtype: i32) -> (Seq<char>, Seq<char>) {
    if worldtype == 1 {
        ("doors/runetry.wav"@, "doors/runeuse.wav"@)
    } else if worldtype == 2 {
        ("doors/basetry.wav"@, "doors/baseuse.wav"@)
    } else {
        ("doors/medtry.wav"@, "doors/meduse.wav"@)
    }
}

/// The sounds of a moving door, by its own choice: stopping and moving.
pub open spec fn move_sounds(sounds: i32) -> (Seq<char>, Seq<char>) {
    if sounds == 1 {
        ("doors/drclos4.wav"@, "doors/doormv1.wav"@)
    } else if sounds == 2 {
        ("doors/hydro2.wav"@, "doors/hydro1.wav"@)
    } else if sounds == 3 {
        ("doors/stndr2.wav"@, "doors/stndr1.wav"@)
    } else if sounds == 4 {
        ("doors/ddoor2.wav"@, "doors/ddoor1.wav"@)
    } else {
        ("misc/null.wav"@, "misc/null.wav"@)
    }
}

/// Give a door its four sounds.
pub fn setup_door_sounds(e: &mut Entity, worldtype: i32)
    ensures
        text_of(final(e).noise1) == Some(move_sounds(old(e).v.sounds).0),
        text_of(final(e).noise2) == Some(move_sounds(old(e).v.sounds).1),
        text_of(final(e).noise3) == Some(lock_sounds(worldtype).0),
        text_of(final(e).noise4) == Some(lock_sounds(worldtype).1),
        *final(e) == (Entity {
            noise1: final(e).noise1,
            noise2: final(e).noise2,
            noise3: final(e).noise3,
            noise4: final(e).noise4,
            ..*old(e)
        }),
{
    let (try_s, use_s) = match worldtype {
        1 => ("doors/runetry.wav", "doors/runeuse.wav"),
        2 => ("doors/basetry.wav", "doors/baseuse.wav"),
        _ => ("doors/medtry.wav", "doors/meduse.wav"),
    };
    e.noise3 = Some(try_s.to_owned());
    e.noise4 = Some(use_s.to_owned());
    let (stop, go) = match e.v.sounds {
        1 => ("doors/drclos4.wav", "doors/doormv1.wav"),
        2 => ("doors/hydro2.wav", "doors/hydro1.wav"),
        3 => ("doors/stndr2.wav", "doors/stndr1.wav"),
        4 => ("doors/ddoor2.wav", "doors/ddoor1.wav"),
        _ => ("misc/null.wav", "misc/null.wav"),
    };
    e.noise1 = Some(stop.to_owned());
    e.noise2 = Some(go.to_owned());
}

/// The text of one of a door's four sounds; any other number means the fourth.
pub open spec fn noise_of(e: Entity, which: i32) -> Option<Seq<char>> {
    if which == 1 {
        text_of(e.noise1)
    } else if which == 2 {
        text_of(e.noise2)
    } else if which == 3 {
        text_of(e.noise3)
    } else {
        text_of(e.noise4)
    }
}

/// The sound a door makes, if it has that one.
pub fn play_door(e: &Entity, which: i32) -> (r: Option<&str>)
    ensures
        match r {
            Some(s) => noise_of(*e, which) == Some(s@),
            None => noise_of(*e, which) is None,
        },
{
    let noise = match which {
        1 => &e.noise1,
        2 => &e.noise2,
        3 => &e.noise3,
        _ => &e.noise4,
    };
    match noise {
        Some(s) => Some(s.as_str()),
        None => None,
    }
}

/// The key that the spawn flags of a door ask for.
pub open spec fn door_key(flags: i32, items: i32) -> i32 {
    if flags & DoorFlags::GOLD_KEY != 0 {
        Items::KEY2
    } else if flags & DoorFlags::SILVER_KEY != 0 {
        Items::KEY1
    } else {
        items
    }
}

pub open spec fn or_default(x: i32, default: i32) -> i32 {
    if x == 0 {
        default
    } else {
        x
    }
}

/// The motion of a door as its map keys give it, with what they leave out filled in.
pub open spec fn door_motion(m: MoverState) -> MoverState {
    MoverState {
        speed: or_default(m.speed, 100_000),
        wait: or_default(m.wait, 3_000),
        lip: or_default(m.lip, 8_000),
        dmg: or_default(m.dmg, 2),
        ..m
    }
}

/// A door as its map keys describe it, before it is placed.
pub fn spawn_func_door(e: &mut Entity, worldtype: i32)
    ensures
        text_of(final(e).noise1) == Some(move_sounds(old(e).v.sounds).0),
        text_of(final(e).noise2) == Some(move_sounds(old(e).v.sounds).1),
        text_of(final(e).noise3) == Some(lock_sounds(worldtype).0),
        text_of(final(e).noise4) == Some(lock_sounds(worldtype).1),
        final(e).class() == Some("door"@),
        *final(e) == (Entity {
            noise1: final(e).noise1,
            noise2: final(e).noise2,
            noise3: final(e).noise3,
            noise4: final(e).noise4,
            classname: final(e).classname,
            use_: Use::DoorUse,
            blocked: Blocked::DoorBlocked,
            v: as_door(old(e).v),
            mover: door_motion(old(e).mover),
            ..*old(e)
        }),
{
    setup_door_sounds(e, worldtype);
    e.classname = Some("door".to_owned());
    e.use_ = Use::DoorUse;
    e.blocked = Blocked::DoorBlocked;
    e.v = door_fields(e.v);
    e.mover = default_motion(e.mover);
}

/// The shared fields of a door.
pub open spec fn as_door(v: EntVars) -> EntVars {
    EntVars {
        max_health: v.health,
        solid: Solid::Bsp,
        movetype: MoveType::Push,
        blocked: 1,
        items: door_key(v.spawnflags, v.items),
        ..v
    }
}

fn door_fields(v: EntVars) -> (r: EntVars)
    ensures
        r == as_door(v),
{
    let items: i32 = if v.spawnflags.has(DoorFlags::GOLD_KEY) {
        Items::KEY2
    } else if v.spawnflags.has(DoorFlags::SILVER_KEY) {
        Items::KEY1
    } else {
        v.items
    };
    EntVars { max_health: v.health, solid: Solid::Bsp, movetype: MoveType::Push, blocked: 1, items, ..v }
}

fn default_motion(m: MoverState) -> (r: MoverState)
    ensures
        r == door_motion(m),
{
    let mut m = m;
    if m.speed == 0 {
        m.speed = 100_000;
    }
    if m.wait == 0 {
        m.wait = 3_000;
    }
    if m.lip == 0 {
        m.lip = 8_000;
    }
    if m.dmg == 0 {
        m.dmg = 2;
    }
    m
}

/// The motion of a placed door, between where it stands and where it slides to. One that starts open
/// starts at the far end. A key door stays open.
pub open spec fn placed_motion(m: MoverState, v: EntVars, origin: [i32; 3], far: [i32; 3]) -> MoverState {
    let open = v.spawnflags & DoorFlags::START_OPEN != 0;
    MoverState {
        pos1: if open {
            far
        } else {
            origin
        },
        pos2: if open {
            origin
        } else {
            far
        },
        state: STATE_BOTTOM,
        wait: if v.items != 0 {
            (-1000) as i32
        } else {
            m.wait
        },
        ..m
    }
}

fn place_motion(m: MoverState, v: &EntVars, origin: [i32; 3], far: [i32; 3]) -> (r: MoverState)
    ensures
        r == placed_motion(m, *v, origin, far),
{
    let wait: i32 = if v.items != 0 {
        -1000
    } else {
        m.wait
    };
    if v.spawnflags.has(DoorFlags::START_OPEN) {
        MoverState { pos1: far, pos2: origin, state: STATE_BOTTOM, wait, ..m }
    } else {
        MoverState { pos1: origin, pos2: far, state: STATE_BOTTOM, wait, ..m }
    }
}

/// The shared fields of a placed door: one with health can be shot, and all link up soon.
pub open spec fn placed_fields(v: EntVars) -> EntVars {
    EntVars {
        takedamage: if v.health != 0 {
            TakeDamage::Yes
        } else {
            v.takedamage
        },
        touch: 1,
        nextthink: (v.ltime + 100) as i64,
        ..v
    }
}

fn place_fields(v: EntVars) -> (r: EntVars)
    ensures
        r == placed_fields(v),
{
    let takedamage = if v.health != 0 {
        TakeDamage::Yes
    } else {
        v.takedamage
    };
    EntVars { takedamage, touch: 1, nextthink: v.ltime as i64 + 100, ..v }
}

pub open spec fn placed(e: Entity, origin: [i32; 3], far: [i32; 3]) -> Entity {
    Entity {
        th_die: if e.v.health != 0 {
            Die::DoorKilled
        } else {
            e.th_die
        },
        touch: Touch::DoorTouch,
        think: Think::DoorLink,
        v: placed_fields(e.v),
        mover: placed_motion(e.mover, e.v, origin, far),
        ..e
    }
}

/// Place a door; says whether it has to be moved to its far end.
pub fn place_door(e: &mut Entity, origin: [i32; 3], far: [i32; 3]) -> (r: bool)
    ensures
        r == (old(e).v.spawnflags & DoorFlags::START_OPEN != 0),
        *final(e) == placed(*old(e), origin, far),
{
    let open = e.v.spawnflags.has(DoorFlags::START_OPEN);
    if e.v.health != 0 {
        e.th_die = Die::DoorKilled;
    }
    e.touch = Touch::DoorTouch;
    e.think = Think::DoorLink;
    e.mover = place_motion(e.mover, &e.v, origin, far);
    e.v = place_fields(e.v);
    open
}

/// A secret door: it stands in its wall and does not move.
pub fn spawn_func_door_secret(e: &mut Entity)
    ensures
        *final(e) == (Entity {
            v: EntVars { solid: Solid::Bsp, movetype: MoveType::Push, ..old(e).v },
            ..*old(e)
        }),
{
    e.v.solid = Solid::Bsp;
    e.v.movetype = MoveType::Push;
}

/// A door that needs a key never reverses when blocked, since it never closes.
pub proof fn key_doors_stay_open(e: Entity, origin: [i32; 3], far: [i32; 3])
    requires
        e.v.items != 0,
    ensures
        placed(e, origin, far).mover.wait < 0,
{
}

// --- what the doors promise ---
proof fn lemma_member_touches(ents: Seq<Entity>, cur: int, from: int, k: int, j: int)
    requires
        0 <= cur < from,
        0 <= k <= members(ents, cur, from).len(),
        from <= j < ents.len(),
        k < members(ents, cur, from).len() ==> j <= members(ents, cur, from)[k],
        k > 0 ==> members(ents, cur, from)[k - 1] < j,
    ensures
        ({
            let m = members(ents, cur, from);
            let last = if k > 0 {
                m[k - 1]
            } else {
                cur
            };
            (k < m.len() && j == m[k]) <==> is_door(ents[j]) && boxes_touch(ents[last].v, ents[j].v)
        }),
    decreases ents.len() - from,
{
    lemma_members_rise(ents, cur, from);
    let m = members(ents, cur, from);
    if is_door(ents[from]) && boxes_touch(ents[cur].v, ents[from].v) {
        let rest = members(ents, from, from + 1);
        assert(m == seq![from] + rest);
        assert(m[0] == from);
        assert forall|i: int| 0 <= i < rest.len() implies m[i + 1] == #[trigger] rest[i] by {}
        if k > 0 {
            assert(m[0] <= m[k - 1]) by {
                if k > 1 {
                    assert(m[0] < m[k - 1]);
                }
            }
            if k < m.len() {
                assert(m[k] == rest[k - 1]);
            }
            if k > 1 {
                assert(m[k - 1] == rest[k - 2]);
            }
            lemma_member_touches(ents, from, from + 1, k - 1, j);
        }
    } else {
        assert(m == members(ents, cur, from + 1));
        lemma_members_rise(ents, cur, from + 1);
        if j > from {
            lemma_member_touches(ents, cur, from + 1, k, j);
        } else {
            assert(k == 0);
        }
    }
}

/// A group is a chain: past door `k`, the next slot that joins is the first door in use whose box
/// touches the box of door `k`, and none is passed over.
pub proof fn groups_are_chains_of_touching_doors(ents: Seq<Entity>, master: int, k: int, j: int)
    requires
        0 <= master < ents.len(),
        0 <= k < group_of(ents, master).len(),
        group_of(ents, master)[k] < j < ents.len(),
        k + 1 < group_of(ents, master).len() ==> j <= group_of(ents, master)[k + 1],
    ensures
        ({
            let g = group_of(ents, master);
            let (a, b) = (ents[g[k]].v, ents[j].v);
            (k + 1 < g.len() && j == g[k + 1]) <==> {
                &&& ents[j].in_use && ents[j].class() == Some("door"@)
                &&& a.mins@[0] <= b.maxs@[0] && b.mins@[0] <= a.maxs@[0]
                &&& a.mins@[1] <= b.maxs@[1] && b.mins@[1] <= a.maxs@[1]
                &&& a.mins@[2] <= b.maxs@[2] && b.mins@[2] <= a.maxs@[2]
            }
        }),
{
    let g = group_of(ents, master);
    let m = members(ents, master, master + 1);
    groups_have_no_duplicates(ents, master);
    assert(g == seq![master] + m);
    assert(g[0] == master);
    if k > 0 {
        assert(g[k] == m[k - 1]);
        assert(g[0] < g[k]);
    }
    if k + 1 < g.len() {
        assert(g[k + 1] == m[k]);
    }
    lemma_member_touches(ents, master, master + 1, k, j);
}

proof fn lemma_linking_keeps_doors(ents: Seq<Entity>, group: Seq<EntId>, n: int, i: int)
    requires
        proper_group(ents, group),
        0 <= n <= group.len(),
    ensures
        linked(ents, group, n).len() == ents.len(),
        0 <= i < ents.len() ==> linked(ents, group, n)[i] == (Entity {
            v: EntVars {
                owner: linked(ents, group, n)[i].v.owner,
                enemy: linked(ents, group, n)[i].v.enemy,
                ..ents[i].v
            },
            ..ents[i]
        }),
    decreases n,
{
    if n > 0 {
        reveal(put_v);
        lemma_linking_keeps_doors(ents, group, n - 1, i);
        assert(group[n - 1].0 < ents.len());
    }
}

proof fn lemma_group_health(ents: Seq<Entity>, group: Seq<EntId>, n: int, k: int)
    requires
        0 <= k < n,
        forall|j: int| k < j < n ==> ents[(#[trigger] group[j]).0 as int].v.health == 0,
    ensures
        ents[group[k].0 as int].v.health != 0 ==> group_health(ents, group, n) == ents[group[k].0 as int].v.health,
        ents[group[k].0 as int].v.health == 0 ==> group_health(ents, group, n) == group_health(ents, group, k),
    decreases n,
{
    if k < n - 1 {
        assert(ents[group[n - 1].0 as int].v.health == 0);
        lemma_group_health(ents, group, n - 1, k);
    }
}

proof fn lemma_group_texts(ents: Seq<Entity>, group: Seq<EntId>, n: int)
    requires
        0 <= n,
    ensures
        group_health(ents, group, n) == 0 <==> forall|j: int|
            0 <= j < n ==> ents[(#[trigger] group[j]).0 as int].v.health == 0,
        group_name(ents, group, n) is None <==> forall|j: int|
            0 <= j < n ==> ents[(#[trigger] group[j]).0 as int].targetname is None,
        group_message(ents, group, n) is None <==> forall|j: int|
            0 <= j < n ==> ents[(#[trigger] group[j]).0 as int].message is None,
    decreases n,
{
    if n > 0 {
        lemma_group_texts(ents, group, n - 1);
        let last = ents[group[n - 1].0 as int];
        if last.v.health == 0 && group_health(ents, group, n - 1) == 0 {
            assert forall|j: int| 0 <= j < n implies ents[(#[trigger] group[j]).0 as int].v.health == 0 by {}
        }
        if last.targetname is None && group_name(ents, group, n - 1) is None {
            assert forall|j: int| 0 <= j < n implies ents[(#[trigger] group[j]).0 as int].targetname is None by {}
        }
        if last.message is None && group_message(ents, group, n - 1) is None {
            assert forall|j: int| 0 <= j < n implies ents[(#[trigger] group[j]).0 as int].message is None by {}
        }
    }
}

/// Linking decides who opens a group. A first door that needs a key keeps the group from getting a
/// field; so does any door of the group that can be shot or that has a target name; and a group with
/// none of the three gets one.
pub proof fn locked_groups_get_no_field(before: Seq<Entity>, e: EntId, after: Seq<Entity>)
    requires
        e.0 < before.len() <= u32::MAX,
        door_linked(before, e, door_ids(before, e), after),
    ensures
        ({
            let group = door_ids(before, e);
            let m = after[e.0 as int];
            &&& m.v.items != 0 ==> !opens_itself(m)
            &&& m.v.health != 0 ==> !opens_itself(m)
            &&& m.targetname is Some ==> !opens_itself(m)
            &&& m.v.items == before[e.0 as int].v.items
            &&& opens_itself(m) <==> before[e.0 as int].v.items == 0 && forall|k: int|
                0 <= k < group.len() ==> before[(#[trigger] group[k]).0 as int].v.health == 0
                    && before[group[k].0 as int].targetname is None
        }),
{
    let group = door_ids(before, e);
    let n = group.len() as int;
    let chain = linked(before, group, n);
    lemma_ids_proper(before, e);
    lemma_group_texts(chain, group, n);
    lemma_linking_keeps_doors(before, group, n, e.0 as int);
    assert forall|k: int| 0 <= k < n implies chain[(#[trigger] group[k]).0 as int].v.health
        == before[group[k].0 as int].v.health && chain[group[k].0 as int].targetname
        == before[group[k].0 as int].targetname by {
        lemma_linking_keeps_doors(before, group, n, group[k].0 as int);
    }
    if before[e.0 as int].v.items == 0 && opens_itself(after[e.0 as int]) {
        assert forall|k: int| 0 <= k < n implies before[(#[trigger] group[k]).0 as int].v.health == 0
            && before[group[k].0 as int].targetname is None by {
            assert(chain[group[k].0 as int].v.health == 0);
            assert(chain[group[k].0 as int].targetname is None);
        }
    }
    if forall|k: int|
        0 <= k < n ==> before[(#[trigger] group[k]).0 as int].v.health == 0 && before[group[k].0 as int].targetname
            is None {
        assert forall|j: int| 0 <= j < n implies chain[(#[trigger] group[j]).0 as int].v.health == 0 by {
            assert(before[group[j].0 as int].v.health == 0);
        }
        assert forall|j: int| 0 <= j < n implies chain[(#[trigger] group[j]).0 as int].targetname is None by {
            assert(before[group[j].0 as int].targetname is None);
        }
    }
}

/// The health of a group's last door that has any becomes the first door's.
pub proof fn the_first_door_takes_the_groups_health(before: Seq<Entity>, e: EntId, after: Seq<Entity>, k: int)
    requires
        e.0 < before.len() <= u32::MAX,
        door_linked(before, e, door_ids(before, e), after),
        0 <= k < door_ids(before, e).len(),
        before[door_ids(before, e)[k].0 as int].v.health != 0,
        forall|j: int|
            k < j < door_ids(before, e).len() ==> before[(#[trigger] door_ids(before, e)[j]).0 as int].v.health == 0,
    ensures
        after[e.0 as int].v.health == before[door_ids(before, e)[k].0 as int].v.health,
{
    let group = door_ids(before, e);
    let n = group.len() as int;
    let chain = linked(before, group, n);
    lemma_ids_proper(before, e);
    assert forall|j: int| 0 <= j < n implies chain[(#[trigger] group[j]).0 as int].v.health
        == before[group[j].0 as int].v.health by {
        lemma_linking_keeps_doors(before, group, n, group[j].0 as int);
    }
    lemma_group_health(chain, group, n, k);
}

/// A door runs through its states: told to open it goes up, at the top it waits and then closes unless
/// it is a toggle, told to close it goes down; and a door that can be shot can be shot again once it
/// closes.
pub proof fn doors_go_through_their_states(e: Entity)
    ensures
        ({
            let up = opening(e);
            let top = at_top(e);
            let down = closing(e);
            &&& e.mover.state == 1 || e.mover.state == 3 ==> up_step(e) == DoorUp::Starts && up.mover.state == 2 && up.v
                == e.v
            &&& e.mover.state == 2 ==> up_step(e) == DoorUp::Opening && up == e
            &&& e.mover.state == 0 ==> up_step(e) == DoorUp::Open && up.mover == e.mover && up.v.nextthink
                == e.v.ltime + e.mover.wait
            &&& top.mover.state == 0
            &&& e.v.spawnflags & DoorFlags::TOGGLE != 0 ==> top.think == e.think && top.v == e.v
            &&& e.v.spawnflags & DoorFlags::TOGGLE == 0 ==> top.think == Think::DoorGoDown && top.v.nextthink
                == e.v.ltime + e.mover.wait
            &&& down.mover.state == 3
            &&& e.v.max_health == 0 ==> down.v == e.v
            &&& e.v.max_health != 0 ==> down.v.takedamage == TakeDamage::Yes && down.v.health == e.v.max_health
        }),
{
}

/// A ring of doors closes when it is fired while a toggle is up or on its way; it opens otherwise. Its
/// key sound is for doors with a key.
pub proof fn toggles_close_what_is_open(ents: Seq<Entity>, master: EntId, activator: EntId)
    ensures
        ({
            let m = ents[master.0 as int];
            let ring = ring_of(ents, master, activator);
            &&& ring.shut <==> m.v.spawnflags & DoorFlags::TOGGLE != 0 && (m.mover.state == 0 || m.mover.state == 2)
            &&& ring.key_sound <==> m.v.items != 0
            &&& ring.master == master && ring.activator == activator
        }),
{
}

/// A door that is told does as its ring does, for who fired it.
pub proof fn told_doors_do_as_their_ring(e: Entity, shut: bool, activator: EntId)
    ensures
        ({
            let after = stepped(e, shut, activator);
            &&& shut ==> after.mover.state == 3 && step_of(e, shut) == DoorStep::Closes && after.v.goalentity
                == e.v.goalentity
            &&& !shut ==> after.v.goalentity == prog_of(activator) && after.v.health == e.v.health
            &&& !shut && e.mover.state == 0 ==> after.mover.state == 0 && step_of(e, shut) == DoorStep::Opens(DoorUp::Open)
            &&& !shut && e.mover.state == 2 ==> after.mover.state == 2 && step_of(e, shut) == DoorStep::Opens(
                DoorUp::Opening,
            )
            &&& !shut && (e.mover.state == 1 || e.mover.state == 3) ==> after.mover.state == 2 && step_of(e, shut)
                == DoorStep::Opens(DoorUp::Starts)
        }),
{
}

/// Using a door silences it, its first door and the next in the ring, and nothing else.
pub proof fn used_doors_fall_silent(before: Seq<Entity>, e: EntId, activator: EntId, i: int)
    requires
        usable(before, e),
        0 <= i < before.len(),
    ensures
        ({
            let after = door_used(before, e, activator).0;
            let owner = before[e.0 as int].spec_owner();
            let enemy = before[e.0 as int].spec_enemy();
            &&& after.len() == before.len()
            &&& i == e.0 || i == owner.0 || (i == enemy.0 && i != 0) ==> after[i] == (Entity { message: None, ..before[i] })
            &&& i != e.0 && i != owner.0 && (i != enemy.0 || i == 0) ==> after[i] == before[i]
            &&& door_used(before, e, activator).1 == ring_of(before, owner, activator)
        }),
{
    reveal(put_door);
}

/// A field opens to whatever lives, once its second is over; a door heeds players, once its two are.
pub proof fn doors_heed_the_living(field: Entity, owner: Entity, other: Entity, now: i64)
    ensures
        field_opens(field, other, now) <==> other.v.health > 0 && field.combat.attack_finished <= now,
        door_notices(owner, other, now) <==> other.class() == Some("player"@) && owner.combat.attack_finished <= now,
{
}

/// A door that has taken notice says nothing for two seconds; nothing else changes.
pub proof fn messages_are_two_seconds_apart(ents: Seq<Entity>, owner: EntId, other: Entity, now: i64, later: i64)
    requires
        owner.0 < ents.len(),
        now <= i64::MAX - 2000,
    ensures
        ({
            let after = noticed(ents, owner, now)[owner.0 as int];
            &&& later < now + 2000 ==> !door_notices(after, other, later)
            &&& later >= now + 2000 && other.class() == Some("player"@) ==> door_notices(after, other, later)
            &&& after.v == ents[owner.0 as int].v
        }),
{
    reveal(put_combat);
}

/// Turning a key costs the player that key alone, and the door and the next in its ring are touched no
/// more.
pub proof fn keys_turn_once(ents: Seq<Entity>, e: EntId, other: EntId, bit: i32)
    requires
        e.0 < ents.len(),
        other.0 < ents.len(),
        e != other,
        ents[e.0 as int].spec_enemy().0 < ents.len(),
        ents[e.0 as int].spec_enemy() != other,
        bit & ents[e.0 as int].v.items == 0,
    ensures
        ({
            let after = unlocked(ents, e, other);
            let enemy = ents[e.0 as int].spec_enemy();
            &&& after[e.0 as int].touch == Touch::Nil && after[e.0 as int].v.touch == 0
            &&& enemy.0 != 0 ==> after[enemy.0 as int].touch == Touch::Nil && after[enemy.0 as int].v.touch == 0
            &&& after[other.0 as int].v.items & ents[e.0 as int].v.items == 0
            &&& after[other.0 as int].v.items & bit == ents[other.0 as int].v.items & bit
            &&& after[other.0 as int].v.health == ents[other.0 as int].v.health
        }),
{
    reveal(put_v);
    reveal(put_door);
    let held = ents[other.0 as int].v.items;
    let key = ents[e.0 as int].v.items;
    assert((held & !key) & key == 0 && (bit & key == 0 ==> (held & !key) & bit == held & bit)) by (bit_vector);
}

/// What is said at a locked door names the right key, in the words of the map.
pub proof fn locked_doors_name_their_key(items: i32, world: i32)
    ensures
        key_words(Items::KEY1, 0) == "You need the silver key"@,
        key_words(Items::KEY1, 1) == "You need the silver runekey"@,
        key_words(Items::KEY1, 2) == "You need the silver keycard"@,
        key_words(Items::KEY2, 0) == "You need the gold key"@,
        key_words(Items::KEY2, 1) == "You need the gold runekey"@,
        key_words(Items::KEY2, 2) == "You need the gold keycard"@,
        world != 1 && world != 2 ==> key_words(items, world) == key_words(items, 0),
        items != Items::KEY1 ==> key_words(items, world) == key_words(Items::KEY2, world),
{
    crate::defs::bits_have_their_places();
}

/// The sounds of a door, by its map's theme and by its own choice.
pub proof fn doors_sound_as_they_are_built(world: i32, sounds: i32, e: Entity)
    ensures
        lock_sounds(0) == ("doors/medtry.wav"@, "doors/meduse.wav"@),
        lock_sounds(1) == ("doors/runetry.wav"@, "doors/runeuse.wav"@),
        lock_sounds(2) == ("doors/basetry.wav"@, "doors/baseuse.wav"@),
        world != 1 && world != 2 ==> lock_sounds(world) == lock_sounds(0),
        move_sounds(0) == ("misc/null.wav"@, "misc/null.wav"@),
        move_sounds(1) == ("doors/drclos4.wav"@, "doors/doormv1.wav"@),
        move_sounds(2) == ("doors/hydro2.wav"@, "doors/hydro1.wav"@),
        move_sounds(3) == ("doors/stndr2.wav"@, "doors/stndr1.wav"@),
        move_sounds(4) == ("doors/ddoor2.wav"@, "doors/ddoor1.wav"@),
        !(1 <= sounds <= 4) ==> move_sounds(sounds) == move_sounds(0),
        noise_of(e, 1) == text_of(e.noise1),
        noise_of(e, 2) == text_of(e.noise2),
        noise_of(e, 3) == text_of(e.noise3),
        noise_of(e, 4) == text_of(e.noise4),
{
}

/// A door needs the gold key if it asks for it, else the silver one if it asks for that, else what it
/// already asked for; it keeps the speed, the wait, the lip and the damage of its map keys, and has the
/// usual ones where it has none.
pub proof fn doors_are_built_as_their_keys_say(v: EntVars, m: MoverState)
    ensures
        ({
            let d = as_door(v);
            let n = door_motion(m);
            &&& v.spawnflags & DoorFlags::GOLD_KEY != 0 ==> d.items == Items::KEY2
            &&& v.spawnflags & DoorFlags::GOLD_KEY == 0 && v.spawnflags & DoorFlags::SILVER_KEY != 0 ==> d.items
                == Items::KEY1
            &&& v.spawnflags & DoorFlags::GOLD_KEY == 0 && v.spawnflags & DoorFlags::SILVER_KEY == 0 ==> d.items
                == v.items
            &&& d.max_health == v.health && d.health == v.health && d.solid == Solid::Bsp && d.movetype == MoveType::Push
            &&& m.speed != 0 ==> n.speed == m.speed
            &&& m.speed == 0 ==> n.speed == 100_000
            &&& m.wait != 0 ==> n.wait == m.wait
            &&& m.wait == 0 ==> n.wait == 3_000
            &&& m.lip != 0 ==> n.lip == m.lip
            &&& m.lip == 0 ==> n.lip == 8_000
            &&& m.dmg != 0 ==> n.dmg == m.dmg
            &&& m.dmg == 0 ==> n.dmg == 2
        }),
{
}

/// A placed door stands closed at the bottom, between its place and its far end, the other way round
/// where it starts open; it can be shot exactly where it has health; it waits forever exactly where it
/// needs a key; and it links a tenth of a second later.
pub proof fn placed_doors_wait_to_be_linked(e: Entity, origin: [i32; 3], far: [i32; 3])
    requires
        e.v.ltime <= i64::MAX - 100,
    ensures
        ({
            let p = placed(e, origin, far);
            &&& e.v.spawnflags & DoorFlags::START_OPEN == 0 ==> p.mover.pos1 == origin && p.mover.pos2 == far
            &&& e.v.spawnflags & DoorFlags::START_OPEN != 0 ==> p.mover.pos1 == far && p.mover.pos2 == origin
            &&& p.mover.state == 1
            &&& e.v.items != 0 ==> p.mover.wait == -1000
            &&& e.v.items == 0 ==> p.mover.wait == e.mover.wait
            &&& e.v.health != 0 ==> p.v.takedamage == TakeDamage::Yes && p.th_die == Die::DoorKilled
            &&& e.v.health == 0 ==> p.v.takedamage == e.v.takedamage && p.th_die == e.th_die
            &&& p.touch == Touch::DoorTouch && p.v.touch == 1
            &&& p.think == Think::DoorLink && p.v.nextthink == e.v.ltime + 100
        }),
{
}

/// A field is a trigger of its group's first door, sixty units wider on either side and eight above and
/// below.
pub proof fn fields_are_triggers(e: Entity, master: EntId)
    ensures
        ({
            let f = as_field(e, master);
            &&& f.touch == Touch::DoorTriggerField && f.v.touch == 1
            &&& f.v.solid == Solid::Trigger && f.v.movetype == MoveType::Nil
            &&& f.v.owner == prog_of(master)
        }),
        field_margin(0) == 60_000,
        field_margin(1) == 60_000,
        field_margin(2) == 8_000,
{
}

/// A field reaches no further than its outermost doors.
pub proof fn fields_end_at_their_doors(ents: Seq<Entity>, group: Seq<EntId>, axis: int, n: int)
    requires
        0 < n <= group.len(),
    ensures
        exists|k: int|
            0 <= k < n && lowest(ents, group, axis, n) == ents[(#[trigger] group[k]).0 as int].v.mins@[axis],
        exists|k: int|
            0 <= k < n && highest(ents, group, axis, n) == ents[(#[trigger] group[k]).0 as int].v.maxs@[axis],
    decreases n,
{
    let here = group[n - 1];
    if n > 1 {
        fields_end_at_their_doors(ents, group, axis, n - 1);
    }
}

proof fn lemma_group_name(ents: Seq<Entity>, group: Seq<EntId>, n: int, k: int)
    requires
        0 <= k < n,
    ensures
        (forall|j: int| k < j < n ==> ents[(#[trigger] group[j]).0 as int].targetname is None)
            && ents[group[k].0 as int].targetname is Some ==> group_name(ents, group, n) == text_of(
            ents[group[k].0 as int].targetname,
        ),
        (forall|j: int| k < j < n ==> ents[(#[trigger] group[j]).0 as int].message is None)
            && ents[group[k].0 as int].message is Some ==> group_message(ents, group, n) == text_of(
            ents[group[k].0 as int].message,
        ),
    decreases n,
{
    if k < n - 1 {
        lemma_group_name(ents, group, n - 1, k);
        if forall|j: int| k < j < n ==> ents[(#[trigger] group[j]).0 as int].targetname is None {
            assert(ents[group[n - 1].0 as int].targetname is None);
        }
        if forall|j: int| k < j < n ==> ents[(#[trigger] group[j]).0 as int].message is None {
            assert(ents[group[n - 1].0 as int].message is None);
        }
    }
}

/// The first door takes the name and the message of the last door of the group that has one.
pub proof fn the_first_door_takes_the_groups_words(before: Seq<Entity>, e: EntId, after: Seq<Entity>, k: int)
    requires
        e.0 < before.len() <= u32::MAX,
        door_linked(before, e, door_ids(before, e), after),
        0 <= k < door_ids(before, e).len(),
    ensures
        ({
            let group = door_ids(before, e);
            let d = before[group[k].0 as int];
            &&& d.targetname is Some && (forall|j: int|
                k < j < group.len() ==> before[(#[trigger] group[j]).0 as int].targetname is None) ==> text_of(
                after[e.0 as int].targetname,
            ) == Some((d.targetname->0)@)
            &&& d.message is Some && (forall|j: int|
                k < j < group.len() ==> before[(#[trigger] group[j]).0 as int].message is None) ==> text_of(
                after[e.0 as int].message,
            ) == Some((d.message->0)@)
        }),
{
    let group = door_ids(before, e);
    let n = group.len() as int;
    let chain = linked(before, group, n);
    lemma_ids_proper(before, e);
    assert forall|j: int| 0 <= j < n implies chain[(#[trigger] group[j]).0 as int].targetname
        == before[group[j].0 as int].targetname && chain[group[j].0 as int].message == before[group[j].0 as int].message by {
        lemma_linking_keeps_doors(before, group, n, group[j].0 as int);
    }
    lemma_group_name(chain, group, n, k);
}

/// Linking leaves every other entity as it was, and of a door of the group changes only whom it follows.
pub proof fn linking_changes_only_the_links(before: Seq<Entity>, e: EntId, after: Seq<Entity>, i: int)
    requires
        e.0 < before.len() <= u32::MAX,
        door_linked(before, e, door_ids(before, e), after),
        0 <= i < before.len(),
        i != e.0,
    ensures
        after.len() == before.len(),
        after[i] == (Entity {
            v: EntVars { owner: after[i].v.owner, enemy: after[i].v.enemy, ..before[i].v },
            ..before[i]
        }),
        (forall|k: int| 0 <= k < door_ids(before, e).len() ==> (#[trigger] door_ids(before, e)[k]).0 != i) ==> after[i]
            == before[i],
{
    let group = door_ids(before, e);
    let n = group.len() as int;
    lemma_ids_proper(before, e);
    lemma_linking_keeps_doors(before, group, n, i);
    if forall|k: int| 0 <= k < group.len() ==> (#[trigger] group[k]).0 != i {
        lemma_link_keeps_others(before, group, n, i);
    }
}

/// What a blocked door does.
pub open spec fn blocked_step(e: Entity) -> DoorBlock {
    if e.mover.wait < 0 {
        DoorBlock::Press
    } else if e.mover.state == STATE_DOWN {
        DoorBlock::Reopen
    } else {
        DoorBlock::Close
    }
}

/// A door that stays open presses on; any other turns back: up where it was closing, down where it was
/// opening.
pub proof fn blocked_doors_turn_back(e: Entity)
    ensures
        blocked_step(e) == DoorBlock::Press <==> e.mover.wait < 0,
        blocked_step(e) == DoorBlock::Reopen <==> e.mover.wait >= 0 && e.mover.state == 3,
        blocked_step(e) == DoorBlock::Close <==> e.mover.wait >= 0 && e.mover.state != 3,
        e.mover.wait >= 0 ==> blocked_step(closing(e)) == DoorBlock::Reopen,
        e.mover.wait >= 0 && up_step(e) == DoorUp::Starts ==> blocked_step(opening(e)) == DoorBlock::Close,
{
}

} // verus!
