//! Per-bot state: navigation, perception and the traversal machines.
//!
//! Times are milliseconds of server time and distances thousandths of a unit, rounded down; the
//! largest distance stands for an infinite one.
use crate::bot::bhop::{blank_bhop, Bhop};
use vstd::prelude::*;

verus! {

/// An infinite distance.
pub const FAR: u32 = 0xffff_ffff;

/// A cell number that stands for no cell.
pub const NO_CELL: u32 = 0xffff_ffff;

/// Phase of a bot's lob-and-shoot combination.
#[derive(Clone, Copy, PartialEq, Eq, Debug, Structural)]
pub enum GrenadePhase {
    /// Not running one.
    Idle,
    /// Settling the view onto the lob angles with the launcher in hand.
    Windup,
    /// The grenade flies; switching to a gun that can set it off.
    Lobbed,
    /// Waiting to shoot the grenade when its blast does what it is meant to.
    Detonate,
}

/// Phase of a bot's rocket jump.
#[derive(Clone, Copy, PartialEq, Eq, Debug, Structural)]
pub enum RjPhase {
    /// Not flying one.
    Idle,
    /// Walking to the launch cell and settling the view.
    Stance,
    /// Jumped; counting down to the shot.
    Rise,
    /// Riding the blast to the landing.
    Ballistic,
}

/// Phase of a bot's grappling-hook traversal.
#[derive(Clone, Copy, PartialEq, Eq, Debug, Structural)]
pub enum HookPhase {
    /// Not flying one.
    Idle,
    /// Settling the view onto the anchor before the throw.
    Aim,
    /// Thrown; waiting for the hook to bite.
    Flight,
    /// Anchored; reeling in with fire held.
    Reel,
    /// Released; flying to the landing with no input.
    Ballistic,
}

/// The state of one bot.
pub struct BotState {
    /// Whether this client is driven by the server.
    pub is_bot: bool,
    /// The engine's 1-based client number.
    pub client: i32,
    /// The planned route, as link numbers, with the planned speed band of each leg and the current leg.
    pub route: Vec<u32>,
    pub route_bands: Vec<u8>,
    pub route_pos: usize,
    /// The cell last routed toward; the largest number stands for none.
    pub goal_cell: u32,
    /// A gate being opened as an errand.
    pub gate: Option<usize>,
    /// The item being fetched (zero for none) and the cell it lies in.
    pub goal_item: u32,
    pub goal_item_cell: u32,
    /// A weapon reserved for a teammate: the item (zero for none), the teammate, the deadline.
    pub hold_item: u32,
    pub hold_for: u32,
    pub hold_until: i64,
    /// Earliest time to pick a new item goal, and when the current one was picked.
    pub goal_select_time: i64,
    pub goal_started: i64,
    /// Items to skip, each until its expiry.
    pub avoid_items: [(u32, i64); 4],
    /// Links recently failed: link, expiry, strikes.
    pub failed_links: [(u32, i64, u8); 8],
    /// Earliest time to plan a new route.
    pub repath_time: i64,
    /// Since when the bot has stood where it stands.
    pub stuck_since: i64,
    /// The closest distance to the goal on this route, and when it last improved.
    pub progress_best: u32,
    pub progress_since: i64,
    /// Flips every frame, for buttons that act on a press edge.
    pub pulse: bool,
    /// When to draw a new aim error.
    pub aim_err_until: i64,
    /// When the enemy was last in plain sight.
    pub enemy_seen_time: i64,
    /// The target being watched before reacting, and since when.
    pub percept_ent: u32,
    pub percept_since: i64,
    /// The target the bot is aware of, and until when.
    pub known_enemy: u32,
    pub known_until: i64,
    /// When unbroken sight of the current target began; zero for none.
    pub vis_since: i64,
    /// When the last clean firing solution was computed.
    pub look_prev_time: i64,
    /// When to pick a new wander destination.
    pub wander_time: i64,
    /// The closest distance to the errand's button, and when it last improved.
    pub gate_best_dist: u32,
    pub gate_since: i64,
    /// A gate given up on, and until when to leave it alone.
    pub avoid_gate: usize,
    pub avoid_gate_until: i64,
    /// The grappling-hook traversal.
    pub hook_phase: HookPhase,
    pub hook_link: u32,
    pub hook_started: i64,
    pub hook_release_dist: u32,
    pub hook_prev_dist: u32,
    pub hook_fails: u8,
    /// The lob-and-shoot combination.
    pub grenade_phase: GrenadePhase,
    pub grenade_started: i64,
    pub grenade_ent: u32,
    pub grenade_bank: bool,
    /// Whether the blast is meant to push the enemy into a hazard.
    pub grenade_shove: bool,
    pub grenade_next_try: i64,
    /// The speed-jump leg being flown, and since when.
    pub sj_leg: Option<u32>,
    pub sj_started: i64,
    /// The plain jump leg being flown, and since when.
    pub air_leg: Option<u32>,
    pub air_started: i64,
    /// The raised lift being waited for, and since when.
    pub plat_wait: Option<usize>,
    pub plat_wait_since: i64,
    /// The rocket-jump traversal.
    pub rj_phase: RjPhase,
    pub rj_link: u32,
    pub rj_started: i64,
    pub rj_jump_time: i64,
    pub rj_fails: u8,
    /// The bunny-hop controller.
    pub bhop: Bhop,
}

/// Whether slot `i` is the first of `ring` that holds `item`.
pub open spec fn first_holding(ring: Seq<(u32, i64)>, item: u32, i: int) -> bool {
    &&& 0 <= i < ring.len()
    &&& ring[i].0 == item
    &&& forall|j: int| 0 <= j < i ==> ring[j].0 != item
}

/// Whether slot `i` is the first of `ring` among those that expire soonest.
pub open spec fn soonest_to_expire(ring: Seq<(u32, i64)>, i: int) -> bool {
    &&& 0 <= i < ring.len()
    &&& forall|j: int| 0 <= j < ring.len() ==> ring[i].1 <= ring[j].1
    &&& forall|j: int| 0 <= j < i ==> ring[i].1 < ring[j].1
}

/// Whether `item` has an unexpired entry.
pub open spec fn avoids(ring: Seq<(u32, i64)>, item: u32, now: i64) -> bool {
    exists|i: int| 0 <= i < ring.len() && #[trigger] ring[i].0 == item && now < ring[i].1
}

pub open spec fn later(a: i64, b: i64) -> i64 {
    if a >= b {
        a
    } else {
        b
    }
}

/// The ring after an item was marked: a held item keeps the later expiry, a new one takes the slot
/// that expires soonest, and item zero marks nothing.
pub open spec fn marked(before: Seq<(u32, i64)>, item: u32, until: i64, after: Seq<(u32, i64)>) -> bool {
    if item == 0 {
        after == before
    } else if exists|i: int| 0 <= i < before.len() && #[trigger] before[i].0 == item {
        exists|i: int|
            #[trigger] first_holding(before, item, i) && after == before.update(
                i,
                (item, later(before[i].1, until)),
            )
    } else {
        exists|i: int| #[trigger] soonest_to_expire(before, i) && after == before.update(i, (item, until))
    }
}

impl BotState {
    /// The state of a client that is no bot.
    pub open spec fn is_blank(self) -> bool {
        &&& self.is_bot == false
        &&& self.client == 0
        &&& self.route@.len() == 0
        &&& self.route_bands@.len() == 0
        &&& self.route_pos == 0
        &&& self.goal_cell == 0
        &&& self.gate is None
        &&& self.goal_item == 0
        &&& self.goal_item_cell == 0
        &&& self.hold_item == 0
        &&& self.hold_for == 0
        &&& self.hold_until == 0
        &&& self.goal_select_time == 0
        &&& self.goal_started == 0
        &&& self.avoid_items@ == Seq::new(4, |i: int| (0u32, 0i64))
        &&& self.failed_links@ == Seq::new(8, |i: int| (0u32, 0i64, 0u8))
        &&& self.repath_time == 0
        &&& self.stuck_since == 0
        &&& self.progress_best == 0
        &&& self.progress_since == 0
        &&& self.pulse == false
        &&& self.aim_err_until == 0
        &&& self.enemy_seen_time == 0
        &&& self.percept_ent == 0
        &&& self.percept_since == 0
        &&& self.known_enemy == 0
        &&& self.known_until == 0
        &&& self.vis_since == 0
        &&& self.look_prev_time == 0
        &&& self.wander_time == 0
        &&& self.gate_best_dist == 0
        &&& self.gate_since == 0
        &&& self.avoid_gate == 0
        &&& self.avoid_gate_until == 0
        &&& self.hook_phase == HookPhase::Idle
        &&& self.hook_link == 0
        &&& self.hook_started == 0
        &&& self.hook_release_dist == 0
        &&& self.hook_prev_dist == 0
        &&& self.hook_fails == 0
        &&& self.grenade_phase == GrenadePhase::Idle
        &&& self.grenade_started == 0
        &&& self.grenade_ent == 0
        &&& self.grenade_bank == false
        &&& self.grenade_shove == false
        &&& self.grenade_next_try == 0
        &&& self.sj_leg is None
        &&& self.sj_started == 0
        &&& self.air_leg is None
        &&& self.air_started == 0
        &&& self.plat_wait is None
        &&& self.plat_wait_since == 0
        &&& self.rj_phase == RjPhase::Idle
        &&& self.rj_link == 0
        &&& self.rj_started == 0
        &&& self.rj_jump_time == 0
        &&& self.rj_fails == 0
        &&& self.bhop == blank_bhop()
    }

    pub fn blank() -> (b: BotState)
        ensures
            b.is_blank(),
    {
        let b = BotState {
            is_bot: false,
            client: 0,
            route: Vec::new(),
            route_bands: Vec::new(),
            route_pos: 0,
            goal_cell: 0,
            gate: None,
            goal_item: 0,
            goal_item_cell: 0,
            hold_item: 0,
            hold_for: 0,
            hold_until: 0,
            goal_select_time: 0,
            goal_started: 0,
            avoid_items: [(0, 0), (0, 0), (0, 0), (0, 0)],
            failed_links: [(0, 0, 0), (0, 0, 0), (0, 0, 0), (0, 0, 0), (0, 0, 0), (0, 0, 0), (0, 0, 0), (0, 0, 0)],
            repath_time: 0,
            stuck_since: 0,
            progress_best: 0,
            progress_since: 0,
            pulse: false,
            aim_err_until: 0,
            enemy_seen_time: 0,
            percept_ent: 0,
            percept_since: 0,
            known_enemy: 0,
            known_until: 0,
            vis_since: 0,
            look_prev_time: 0,
            wander_time: 0,
            gate_best_dist: 0,
            gate_since: 0,
            avoid_gate: 0,
            avoid_gate_until: 0,
            hook_phase: HookPhase::Idle,
            hook_link: 0,
            hook_started: 0,
            hook_release_dist: 0,
            hook_prev_dist: 0,
            hook_fails: 0,
            grenade_phase: GrenadePhase::Idle,
            grenade_started: 0,
            grenade_ent: 0,
            grenade_bank: false,
            grenade_shove: false,
            grenade_next_try: 0,
            sj_leg: None,
            sj_started: 0,
            air_leg: None,
            air_started: 0,
            plat_wait: None,
            plat_wait_since: 0,
            rj_phase: RjPhase::Idle,
            rj_link: 0,
            rj_started: 0,
            rj_jump_time: 0,
            rj_fails: 0,
            bhop: Bhop::blank(),
        };
        assert(b.avoid_items@ =~= Seq::new(4, |i: int| (0u32, 0i64)));
        assert(b.failed_links@ =~= Seq::new(8, |i: int| (0u32, 0i64, 0u8)));
        b
    }

    /// Keep `item` off the goals until `until`. Item zero stands for none and is ignored.
    pub fn mark_avoid(&mut self, item: u32, until: i64)
        ensures
            marked(old(self).avoid_items@, item, until, final(self).avoid_items@),
            *final(self) == (BotState { avoid_items: final(self).avoid_items, ..*old(self) }),
    {
        if item == 0 {
            return;
        }
        let mut i: usize = 0;
        while i < 4
            invariant
                i <= 4,
                item != 0,
                *self == *old(self),
                forall|j: int| 0 <= j < i ==> self.avoid_items@[j].0 != item,
            decreases 4 - i,
        {
            if self.avoid_items[i].0 == item {
                if self.avoid_items[i].1 < until {
                    self.avoid_items[i] = (item, until);
                }
                assert(old(self).avoid_items@[i as int].0 == item);
                assert(first_holding(old(self).avoid_items@, item, i as int));
                assert(self.avoid_items@ =~= old(self).avoid_items@.update(
                    i as int,
                    (item, later(old(self).avoid_items@[i as int].1, until)),
                ));
                return;
            }
            i = i + 1;
        }
        let mut best: usize = 0;
        let mut k: usize = 1;
        while k < 4
            invariant
                best < k <= 4,
                *self == *old(self),
                forall|j: int| 0 <= j < k ==> self.avoid_items@[best as int].1 <= self.avoid_items@[j].1,
                forall|j: int| 0 <= j < best ==> self.avoid_items@[best as int].1 < self.avoid_items@[j].1,
                forall|j: int| 0 <= j < 4 ==> self.avoid_items@[j].0 != item,
            decreases 4 - k,
        {
            if self.avoid_items[k].1 < self.avoid_items[best].1 {
                best = k;
            }
            k = k + 1;
        }
        assert(soonest_to_expire(old(self).avoid_items@, best as int));
        self.avoid_items[best] = (item, until);
    }

    /// Whether `item` is to be skipped at `now`.
    pub fn is_avoided(&self, item: u32, now: i64) -> (r: bool)
        ensures
            r == avoids(self.avoid_items@, item, now),
    {
        let mut i: usize = 0;
        while i < 4
            invariant
                i <= 4,
                forall|j: int| 0 <= j < i ==> !(self.avoid_items@[j].0 == item && now < self.avoid_items@[j].1),
            decreases 4 - i,
        {
            if self.avoid_items[i].0 == item && now < self.avoid_items[i].1 {
                assert(self.avoid_items@[i as int].0 == item);
                return true;
            }
            i = i + 1;
        }
        false
    }
}

/// An item marked until some time is avoided at every earlier time.
pub proof fn marked_item_is_avoided(
    before: Seq<(u32, i64)>,
    item: u32,
    until: i64,
    after: Seq<(u32, i64)>,
    now: i64,
)
    requires
        before.len() == 4,
        item != 0,
        now < until,
        marked(before, item, until, after),
    ensures
        avoids(after, item, now),
{
    if exists|i: int| 0 <= i < before.len() && #[trigger] before[i].0 == item {
        let i = choose|i: int|
            #[trigger] first_holding(before, item, i) && after == before.update(
                i,
                (item, later(before[i].1, until)),
            );
        assert(after[i].0 == item);
    } else {
        let i = choose|i: int|
            #[trigger] soonest_to_expire(before, i) && after == before.update(i, (item, until));
        assert(after[i].0 == item);
    }
}

/// Marking one item never ends another's avoidance, unless that other was the soonest to expire.
pub proof fn marking_keeps_later_entries(
    before: Seq<(u32, i64)>,
    item: u32,
    until: i64,
    after: Seq<(u32, i64)>,
    kept: int,
    now: i64,
)
    requires
        before.len() == 4,
        marked(before, item, until, after),
        0 <= kept < 4,
        before[kept].0 != item,
        now < before[kept].1,
        exists|j: int| 0 <= j < 4 && #[trigger] before[j].1 < before[kept].1,
    ensures
        avoids(after, before[kept].0, now),
{
    let j = choose|j: int| 0 <= j < 4 && #[trigger] before[j].1 < before[kept].1;
    if item == 0 {
        assert(after[kept].0 == before[kept].0);
    } else if exists|i: int| 0 <= i < before.len() && #[trigger] before[i].0 == item {
        let i = choose|i: int|
            #[trigger] first_holding(before, item, i) && after == before.update(
                i,
                (item, later(before[i].1, until)),
            );
        assert(i != kept);
        assert(after[kept].0 == before[kept].0);
    } else {
        let i = choose|i: int|
            #[trigger] soonest_to_expire(before, i) && after == before.update(i, (item, until));
        assert(before[i].1 <= before[j].1);
        assert(i != kept);
        assert(after[kept].0 == before[kept].0);
    }
}

/// An item that is marked is marked once, until the later of the two times; a new one takes the place of
/// the one that runs out first; the others stay.
pub proof fn items_are_marked_once(before: Seq<(u32, i64)>, item: u32, until: i64, after: Seq<(u32, i64)>, i: int)
    requires
        marked(before, item, until, after),
        0 <= i < before.len(),
    ensures
        after.len() == before.len(),
        item == 0 ==> after == before,
        item != 0 && before[i].0 == item && (forall|j: int| 0 <= j < i ==> (#[trigger] before[j]).0 != item) ==> after[i].0
            == item && after[i].1 >= until && after[i].1 >= before[i].1 && (after[i].1 == until || after[i].1
            == before[i].1),
        item != 0 && (forall|j: int| 0 <= j < before.len() ==> (#[trigger] before[j]).0 != item)
            && soonest_to_expire(before, i) ==> after[i] == (item, until),
        item != 0 && before[i].0 != item && !soonest_to_expire(before, i) ==> after[i] == before[i],
{
    if item != 0 {
        if exists|k: int| 0 <= k < before.len() && #[trigger] before[k].0 == item {
            let k = choose|k: int|
                #[trigger] first_holding(before, item, k) && after == before.update(
                    k,
                    (item, later(before[k].1, until)),
                );
            assert(first_holding(before, item, k));
            if before[i].0 == item && (forall|j: int| 0 <= j < i ==> (#[trigger] before[j]).0 != item) && i != k {
                if k < i {
                    assert(before[k].0 != item);
                } else {
                    assert(before[i].0 != item);
                }
            }
        } else {
            let k = choose|k: int|
                #[trigger] soonest_to_expire(before, k) && after == before.update(k, (item, until));
            assert(soonest_to_expire(before, k));
            if soonest_to_expire(before, i) && i != k {
                if i < k {
                    assert(before[k].1 < before[i].1);
                } else {
                    assert(before[i].1 < before[k].1);
                }
            }
        }
    }
}

/// An item is avoided while a mark of it lasts.
pub proof fn marks_last_until_their_time(ring: Seq<(u32, i64)>, item: u32, now: i64)
    ensures
        avoids(ring, item, now) <==> exists|i: int| 0 <= i < ring.len() && (#[trigger] ring[i]).0 == item && ring[i].1 > now,
{
    if exists|i: int| 0 <= i < ring.len() && (#[trigger] ring[i]).0 == item && ring[i].1 > now {
        let i = choose|i: int| 0 <= i < ring.len() && (#[trigger] ring[i]).0 == item && ring[i].1 > now;
        assert(ring[i].0 == item);
    }
}

} // verus!
