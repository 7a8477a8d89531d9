//! How many bots play, who they are, and which of them act this frame.
use crate::bot::state::{marked, BotState, NO_CELL};
use crate::defs::{DeadFlag, Solid};
use crate::entity::{EntId, Entities, Entity, Touch};
use crate::game::{ids, matching_below};
use crate::num::{after, bounded};
use vstd::prelude::*;

verus! {

/// How long an item is left alone once taken.
pub const PICKUP_AVOID_TIME: i64 = 3000;

/// Half the width and height within which an item is taken, in thousandths.
pub const PICKUP_XY: i64 = 40000;

pub const PICKUP_Z: i64 = 48000;

/// A match: how many teams of how many players; without either it is open.
#[derive(Clone, Copy, PartialEq, Eq, Debug, Structural)]
pub struct MatchConfig {
    pub teams: u8,
    pub size: u8,
}

pub open spec fn structured(cfg: MatchConfig) -> bool {
    cfg.teams >= 2 && cfg.size >= 1
}

/// How many bots to field: what was asked for in open play; in a structured match no more than the
/// seats that people leave empty, and no change at all once it is under way.
pub open spec fn target(cvar_want: i32, humans: i32, cfg: MatchConfig, in_warmup: bool) -> Option<int> {
    if !structured(cfg) {
        Some(cvar_want as int)
    } else if !in_warmup {
        None
    } else {
        let empty = cfg.teams * cfg.size - humans;
        let free = if empty >= 0 {
            empty
        } else {
            0
        };
        Some(
            if cvar_want <= free {
                cvar_want as int
            } else {
                free
            },
        )
    }
}

pub fn bot_target(cvar_want: i32, humans: i32, cfg: MatchConfig, in_warmup: bool) -> (r: Option<i32>)
    ensures
        match r {
            Some(n) => target(cvar_want, humans, cfg, in_warmup) == Some(n as int),
            None => target(cvar_want, humans, cfg, in_warmup) is None,
        },
{
    if !(cfg.teams >= 2 && cfg.size >= 1) {
        return Some(cvar_want);
    }
    if !in_warmup {
        return None;
    }
    assert(0 <= cfg.teams * cfg.size <= 255 * 255) by (nonlinear_arith)
        requires
            0 <= cfg.teams <= 255,
            0 <= cfg.size <= 255,
    ;
    let seats: i64 = cfg.teams as i64 * cfg.size as i64;
    let free: i64 = if seats - humans as i64 >= 0 {
        seats - humans as i64
    } else {
        0
    };
    if cvar_want as i64 <= free {
        Some(cvar_want)
    } else {
        Some(free as i32)
    }
}

/// The name of the bot with a number; the names repeat.
pub open spec fn name_of(index: int) -> Seq<char> {
    let i = index % 8;
    if i == 0 {
        "Grunt"@
    } else if i == 1 {
        "Ranger"@
    } else if i == 2 {
        "Visor"@
    } else if i == 3 {
        "Sarge"@
    } else if i == 4 {
        "Bitterman"@
    } else if i == 5 {
        "Hossman"@
    } else if i == 6 {
        "Daemia"@
    } else {
        "Klesk"@
    }
}

pub fn bot_name(index: i32) -> (r: &'static str)
    ensures
        r@ == name_of(index as int),
{
    // Eight divides what is added, which keeps the remainder and leaves nothing negative.
    let i: i64 = (index as i64 + 0x8000_0000) % 8;
    if i == 0 {
        "Grunt"
    } else if i == 1 {
        "Ranger"
    } else if i == 2 {
        "Visor"
    } else if i == 3 {
        "Sarge"
    } else if i == 4 {
        "Bitterman"
    } else if i == 5 {
        "Hossman"
    } else if i == 6 {
        "Daemia"
    } else {
        "Klesk"
    }
}

pub open spec fn color(i: int) -> int {
    seq![4int, 11, 12, 13, 2, 6, 3, 10][i % 8]
}

fn palette(i: i64) -> (r: i32)
    requires
        i >= 0,
    ensures
        r == color(i as int),
{
    let k: i64 = i % 8;
    if k == 0 {
        4
    } else if k == 1 {
        11
    } else if k == 2 {
        12
    } else if k == 3 {
        13
    } else if k == 4 {
        2
    } else if k == 5 {
        6
    } else if k == 6 {
        3
    } else {
        10
    }
}

/// Pants and shirt of the bot with a number.
pub fn bot_colors(index: i32) -> (r: (i32, i32))
    requires
        index >= 0,
    ensures
        r.0 == color(index as int),
        r.1 == color(index * 3 + 1),
{
    (palette(index as i64), palette(index as i64 * 3 + 1))
}

/// Who is in the game.
#[derive(Clone, Copy, PartialEq, Eq, Debug, Structural)]
pub struct Tally {
    pub humans: i32,
    pub bots: i32,
    pub last_bot: Option<EntId>,
}

pub open spec fn is_human(e: Entity) -> bool {
    !e.bot.is_bot && e.in_use && e.class() == Some("player"@)
}

/// The count over client slots one to `n`.
pub open spec fn tally_of(entities: Seq<Entity>, n: int) -> (int, int, Option<EntId>)
    decreases n,
{
    if n <= 0 {
        (0, 0, None)
    } else {
        let (humans, bots, last) = tally_of(entities, n - 1);
        if entities[n].bot.is_bot {
            (humans, bots + 1, Some(EntId(n as u32)))
        } else if is_human(entities[n]) {
            (humans + 1, bots, last)
        } else {
            (humans, bots, last)
        }
    }
}

/// The tally of a server with `n` client slots.
pub open spec fn counted(entities: Seq<Entity>, n: int) -> Tally {
    let (humans, bots, last_bot) = tally_of(entities, n);
    Tally { humans: humans as i32, bots: bots as i32, last_bot }
}

pub fn tally(entities: &Entities, maxclients: u32) -> (r: Tally)
    requires
        maxclients < entities@.len(),
        maxclients <= 0x7fff_ffff,
    ensures
        (r.humans as int, r.bots as int, r.last_bot) == tally_of(entities@, maxclients as int),
        r == counted(entities@, maxclients as int),
        r.humans >= 0,
        r.bots >= 0,
{
    let mut humans: i32 = 0;
    let mut bots: i32 = 0;
    let mut last_bot: Option<EntId> = None;
    let mut i: u32 = 0;
    while i < maxclients
        invariant
            i <= maxclients < entities@.len(),
            maxclients <= 0x7fff_ffff,
            0 <= humans <= i,
            0 <= bots <= i,
            (humans as int, bots as int, last_bot) == tally_of(entities@, i as int),
        decreases maxclients - i,
    {
        i = i + 1;
        let e = &entities.slots[i as usize];
        if e.bot.is_bot {
            bots = bots + 1;
            last_bot = Some(EntId(i));
        } else if e.in_use && e.is_class("player") {
            humans = humans + 1;
        }
    }
    Tally { humans, bots, last_bot }
}

/// What to do about the number of bots, one at a time.
#[derive(Clone, Copy, PartialEq, Eq, Debug, Structural)]
pub enum Population {
    Keep,
    /// Add the bot with this number.
    Add(i32),
    /// Remove this one.
    Remove(EntId),
}

/// How many bots are wanted: none on a server without people, unless it is meant to play alone.
pub open spec fn wanted(humans: int, alone: bool, count: i32) -> i32 {
    if (humans >= 1 || alone) && count >= 0 {
        count
    } else {
        0
    }
}

pub open spec fn population(t: Tally, alone: bool, count: i32, cfg: MatchConfig, in_warmup: bool, map_ready: bool) -> Population {
    match target(wanted(t.humans as int, alone, count), t.humans, cfg, in_warmup) {
        None => Population::Keep,
        Some(want) => if want > 0 && !map_ready {
            Population::Keep
        } else if t.bots < want {
            Population::Add(t.bots)
        } else if t.bots > want && t.last_bot is Some {
            Population::Remove(t.last_bot->0)
        } else {
            Population::Keep
        },
    }
}

/// How many bots are wanted now; `None` where the roster is to stay as it is.
pub fn bots_wanted(t: &Tally, alone: bool, count: i32, cfg: MatchConfig, in_warmup: bool) -> (r: Option<i32>)
    ensures
        match r {
            Some(n) => target(wanted(t.humans as int, alone, count), t.humans, cfg, in_warmup) == Some(n as int),
            None => target(wanted(t.humans as int, alone, count), t.humans, cfg, in_warmup) is None,
        },
{
    let want: i32 = if (t.humans >= 1 || alone) && count >= 0 {
        count
    } else {
        0
    };
    bot_target(want, t.humans, cfg, in_warmup)
}

/// Bring the number of bots one step closer to what is wanted. Without a navigation map none are
/// added.
pub fn manage_population(
    entities: &Entities,
    maxclients: u32,
    alone: bool,
    count: i32,
    cfg: MatchConfig,
    in_warmup: bool,
    map_ready: bool,
) -> (r: Population)
    requires
        maxclients < entities@.len(),
        maxclients <= 0x7fff_ffff,
    ensures
        r == population(
            counted(entities@, maxclients as int),
            alone,
            count,
            cfg,
            in_warmup,
            map_ready,
        ),
{
    let t = tally(entities, maxclients);
    let want: i32 = match bots_wanted(&t, alone, count, cfg, in_warmup) {
        Some(n) => n,
        None => return Population::Keep,
    };
    if want > 0 && !map_ready {
        return Population::Keep;
    }
    if t.bots < want {
        return Population::Add(t.bots);
    }
    if t.bots > want {
        if let Some(e) = t.last_bot {
            return Population::Remove(e);
        }
    }
    Population::Keep
}

/// A structured match that is under way keeps its roster.
pub proof fn a_live_match_keeps_its_roster(t: Tally, alone: bool, count: i32, cfg: MatchConfig, map_ready: bool)
    requires
        structured(cfg),
    ensures
        population(t, alone, count, cfg, false, map_ready) == Population::Keep,
{
}

/// Bots never take a seat that a person could have: people and bots together fit the seats.
pub proof fn bots_leave_seats_to_people(cvar_want: i32, humans: i32, cfg: MatchConfig)
    requires
        structured(cfg),
        0 <= humans <= cfg.teams * cfg.size,
    ensures
        target(cvar_want, humans, cfg, true) matches Some(n) && humans + n <= cfg.teams * cfg.size,
{
}

/// An empty server fields no bots.
pub proof fn an_empty_server_has_no_bots(t: Tally, count: i32, cfg: MatchConfig, in_warmup: bool, map_ready: bool)
    requires
        t.humans == 0,
        t.bots >= 0,
    ensures
        !(population(t, false, count, cfg, in_warmup, map_ready) is Add),
{
}

impl BotState {
    /// The state of a bot that has just joined as `client`.
    pub open spec fn has_joined(self, client: i32) -> bool {
        exists|blank: BotState|
            #[trigger] blank.is_blank() && self == (BotState { is_bot: true, client, goal_cell: NO_CELL, ..blank })
    }

    pub fn joined(client: i32) -> (b: BotState)
        ensures
            b.has_joined(client),
    {
        let mut b = BotState::blank();
        let ghost blank = b;
        b.is_bot = true;
        b.client = client;
        b.goal_cell = NO_CELL;
        assert(blank.is_blank());
        b
    }

    /// Whether to take an item: not one that is being kept for a teammate, nor one that has been taken
    /// meanwhile.
    pub fn takes(&self, id: u32, item: &Entity, now: i64) -> (r: bool)
        ensures
            r == takes_item(*self, id, *item, now),
            r == (item.v.solid == Solid::Trigger && !(self.hold_item != 0 && now < self.hold_until && id
                == self.hold_item)),
    {
        item.v.solid == Solid::Trigger && !(self.hold_item != 0 && now < self.hold_until && id == self.hold_item)
    }

    /// Once the item that was being fetched is taken, look for another.
    pub fn note_taken(&mut self, item: u32, now: i64)
        ensures
            *final(self) == (BotState { avoid_items: final(self).avoid_items, ..*old(self) }),
            if item == old(self).goal_item {
                marked(old(self).avoid_items@, item, bounded(now + PICKUP_AVOID_TIME), final(self).avoid_items@)
            } else {
                final(self).avoid_items == old(self).avoid_items
            },
    {
        if item == self.goal_item {
            self.mark_avoid(item, after(now, PICKUP_AVOID_TIME));
        }
    }
}

/// Forget a bot that left, so that a person in its slot is not taken for one.
pub fn on_disconnect(ent: &mut Entity)
    ensures
        !old(ent).bot.is_bot ==> *final(ent) == *old(ent),
        old(ent).bot.is_bot ==> final(ent).bot.is_blank() && *final(ent) == (Entity {
            bot: final(ent).bot,
            ..*old(ent)
        }),
{
    if ent.bot.is_bot {
        ent.bot = BotState::blank();
    }
}

/// Whether a client is driven this frame.
pub open spec fn acts(e: Entity) -> bool {
    e.bot.is_bot && e.in_use
}

/// The bots to drive this frame; none without a navigation map.
pub fn run_bots(entities: &Entities, maxclients: u32, map_ready: bool) -> (r: Vec<EntId>)
    requires
        maxclients < entities@.len(),
    ensures
        map_ready ==> ids(r@) == matching_below(|i: int| i > 0 && acts(entities@[i]), maxclients + 1),
        !map_ready ==> r@.len() == 0,
{
    let mut r: Vec<EntId> = Vec::new();
    if !map_ready {
        return r;
    }
    let ghost test = |i: int| i > 0 && acts(entities@[i]);
    let mut i: u32 = 0;
    assert(ids(r@) =~= Seq::<int>::empty());
    assert(matching_below(test, 1) == matching_below(test, 0));
    while i < maxclients
        invariant
            i <= maxclients < entities@.len(),
            test == (|i: int| i > 0 && acts(entities@[i])),
            ids(r@) == matching_below(test, i + 1),
        decreases maxclients - i,
    {
        i = i + 1;
        let ghost before = r@;
        let e = &entities.slots[i as usize];
        if e.bot.is_bot && e.in_use {
            r.push(EntId(i));
            assert(ids(r@) =~= ids(before).push(i as int));
        }
    }
    r
}

/// Whether a bot stands on an item, in thousandths.
pub fn on_item(bot: [i32; 3], item: [i32; 3]) -> (r: bool)
    ensures
        r == stands_on(bot, item),
        r == (-PICKUP_XY <= item@[0] - bot@[0] <= PICKUP_XY && -PICKUP_XY <= item@[1] - bot@[1] <= PICKUP_XY
            && -PICKUP_Z <= item@[2] - bot@[2] <= PICKUP_Z),
{
    let dx: i64 = item[0] as i64 - bot[0] as i64;
    let dy: i64 = item[1] as i64 - bot[1] as i64;
    let dz: i64 = item[2] as i64 - bot[2] as i64;
    -PICKUP_XY <= dx && dx <= PICKUP_XY && -PICKUP_XY <= dy && dy <= PICKUP_XY && -PICKUP_Z <= dz && dz <= PICKUP_Z
}

/// Whether an entity is a dropped pack that can be taken.
pub open spec fn takeable_pack(e: Entity) -> bool {
    e.touch == Touch::Backpack && e.v.solid == Solid::Trigger
}

/// The backpacks a bot stands on, where `on` tells of each entity whether it does.
pub fn packs_underfoot(entities: &Entities, on: &Vec<bool>) -> (r: Vec<EntId>)
    requires
        on@.len() == entities@.len(),
        entities@.len() <= 0xffff_ffff,
    ensures
        ids(r@) == matching_below(|i: int| takeable_pack(entities@[i]) && on@[i], entities@.len() as int),
{
    let mut r: Vec<EntId> = Vec::new();
    let ghost test = |i: int| takeable_pack(entities@[i]) && on@[i];
    let mut i: usize = 0;
    assert(ids(r@) =~= Seq::<int>::empty());
    while i < entities.slots.len()
        invariant
            i <= entities@.len(),
            on@.len() == entities@.len(),
            entities@.len() <= 0xffff_ffff,
            test == (|i: int| takeable_pack(entities@[i]) && on@[i]),
            ids(r@) == matching_below(test, i as int),
        decreases entities@.len() - i,
    {
        let ghost before = r@;
        let e = &entities.slots[i];
        if e.touch == Touch::Backpack && e.v.solid == Solid::Trigger && on[i] {
            r.push(EntId(i as u32));
            assert(ids(r@) =~= ids(before).push(i as int));
        }
        i = i + 1;
    }
    r
}

/// The items of the map that a bot stands on and can take.
pub fn items_underfoot(entities: &Entities, goals: &Vec<(u32, u32)>, on: &Vec<bool>) -> (r: Vec<EntId>)
    requires
        on@.len() == entities@.len(),
        forall|i: int| 0 <= i < goals@.len() ==> (#[trigger] goals@[i]).0 < entities@.len(),
    ensures
        r@ == underfoot(entities@, goals@, on@, goals@.len() as int),
{
    let mut r: Vec<EntId> = Vec::new();
    let mut i: usize = 0;
    while i < goals.len()
        invariant
            i <= goals@.len(),
            on@.len() == entities@.len(),
            forall|i: int| 0 <= i < goals@.len() ==> (#[trigger] goals@[i]).0 < entities@.len(),
            r@ == underfoot(entities@, goals@, on@, i as int),
        decreases goals@.len() - i,
    {
        let idx: u32 = goals[i].0;
        if entities.slots[idx as usize].v.solid == Solid::Trigger && on[idx as usize] {
            r.push(EntId(idx));
        }
        i = i + 1;
    }
    r
}

pub open spec fn underfoot(entities: Seq<Entity>, goals: Seq<(u32, u32)>, on: Seq<bool>, n: int) -> Seq<EntId>
    decreases n,
{
    if n <= 0 {
        Seq::empty()
    } else {
        let rest = underfoot(entities, goals, on, n - 1);
        let idx = goals[n - 1].0;
        if entities[idx as int].v.solid == Solid::Trigger && on[idx as int] {
            rest.push(EntId(idx))
        } else {
            rest
        }
    }
}

/// What a bot stands on and may take, items of the map before packs; the dead take nothing.
pub fn bot_pickup_items(
    entities: &Entities,
    e: EntId,
    goals: &Vec<(u32, u32)>,
    on: &Vec<bool>,
) -> (r: Vec<EntId>)
    requires
        e.0 < entities@.len() <= 0xffff_ffff,
        on@.len() == entities@.len(),
        forall|i: int| 0 <= i < goals@.len() ==> (#[trigger] goals@[i]).0 < entities@.len(),
    ensures
        ids(r@) == if entities@[e.0 as int].v.health > 0 && entities@[e.0 as int].v.deadflag == DeadFlag::No {
            ids(underfoot(entities@, goals@, on@, goals@.len() as int)) + matching_below(
                |i: int| takeable_pack(entities@[i]) && on@[i],
                entities@.len() as int,
            )
        } else {
            Seq::empty()
        },
{
    let bot = &entities.slots[e.0 as usize];
    assert(entities@[e.0 as int] == entities.slots@[e.0 as int]);
    if bot.v.health <= 0 || bot.v.deadflag != DeadFlag::No {
        let none: Vec<EntId> = Vec::new();
        assert(ids(none@) =~= Seq::<int>::empty());
        return none;
    }
    let mut hits = items_underfoot(entities, goals, on);
    let mut packs = packs_underfoot(entities, on);
    let ghost (a, b) = (hits@, packs@);
    hits.append(&mut packs);
    assert(ids(hits@) =~= ids(a) + ids(b));
    hits
}

/// Whether a client is a person who is alive.
pub open spec fn living_human(e: Entity) -> bool {
    is_human(e) && e.v.health > 0 && e.v.deadflag == DeadFlag::No
}

/// Whether slot `i` is the first of the nearest living people, other than `me`.
pub open spec fn nearest_to(entities: Seq<Entity>, dist: Seq<u32>, me: u32, n: int, i: int) -> bool {
    &&& 0 < i <= n && i != me && living_human(entities[i])
    &&& forall|j: int| 0 < j <= n && j != me && living_human(#[trigger] entities[j]) ==> dist[i] <= dist[j]
    &&& forall|j: int| 0 < j < i && j != me && living_human(#[trigger] entities[j]) ==> dist[i] < dist[j]
}

/// The nearest living person to bot `me`, by distances that need only be in order.
pub fn nearest_human(entities: &Entities, dist: &Vec<u32>, me: u32, maxclients: u32) -> (r: Option<EntId>)
    requires
        maxclients < entities@.len(),
        dist@.len() == entities@.len(),
    ensures
        match r {
            Some(e) => nearest_to(entities@, dist@, me, maxclients as int, e.0 as int),
            None => forall|j: int|
                0 < j <= maxclients && j != me ==> !living_human(#[trigger] entities@[j]),
        },
{
    let mut best: Option<u32> = None;
    let mut i: u32 = 0;
    while i < maxclients
        invariant
            i <= maxclients < entities@.len(),
            dist@.len() == entities@.len(),
            match best {
                Some(k) => nearest_to(entities@, dist@, me, i as int, k as int),
                None => forall|j: int| 0 < j <= i && j != me ==> !living_human(#[trigger] entities@[j]),
            },
        decreases maxclients - i,
    {
        i = i + 1;
        let e = &entities.slots[i as usize];
        assert(entities@[i as int] == entities.slots@[i as int]);
        let living: bool = !e.bot.is_bot && e.in_use && e.is_class("player") && e.v.health > 0 && e.v.deadflag
            == DeadFlag::No;
        if i != me && living {
            let closer: bool = match best {
                Some(k) => dist[i as usize] < dist[k as usize],
                None => true,
            };
            if closer {
                best = Some(i);
            }
        }
    }
    match best {
        Some(k) => Some(EntId(k)),
        None => None,
    }
}

// --- what the population promises ---
/// A match has sides and seats. Without one the bots are as many as asked for; in a warmup they fill
/// the seats that are left, as far as they are asked for; in a match nothing changes.
pub proof fn bots_fill_the_seats(want: i32, humans: i32, cfg: MatchConfig, in_warmup: bool)
    requires
        0 <= humans <= 1_000,
    ensures
        ({
            let t = target(want, humans, cfg, in_warmup);
            let sides = cfg.teams >= 2 && cfg.size >= 1;
            let free = cfg.teams * cfg.size - humans;
            &&& !sides ==> t == Some(want as int)
            &&& sides && !in_warmup ==> t is None
            &&& sides && in_warmup && free <= 0 && want >= 0 ==> t == Some(0int)
            &&& sides && in_warmup && free >= 0 && want <= free ==> t == Some(want as int)
            &&& sides && in_warmup && 0 <= free < want ==> t == Some(free)
        }),
{
}

/// Bots keep people company, or play alone where they may.
pub proof fn bots_are_wanted_with_company(humans: int, alone: bool, count: i32)
    ensures
        humans >= 1 && count >= 0 ==> wanted(humans, alone, count) == count,
        alone && count >= 0 ==> wanted(humans, alone, count) == count,
        humans < 1 && !alone ==> wanted(humans, alone, count) == 0,
        count < 0 ==> wanted(humans, alone, count) == 0,
{
}

/// One bot comes or goes at a time: the last one leaves, and none comes before the map is ready.
pub proof fn bots_come_and_go_one_by_one(
    t: Tally,
    alone: bool,
    count: i32,
    cfg: MatchConfig,
    in_warmup: bool,
    map_ready: bool,
)
    requires
        t.bots >= 0,
    ensures
        ({
            let p = population(t, alone, count, cfg, in_warmup, map_ready);
            let want = target(wanted(t.humans as int, alone, count), t.humans, cfg, in_warmup);
            let settled = want matches Some(n) && (n <= 0 || map_ready);
            &&& p is Add <==> settled && t.bots < want->0
            &&& p is Add ==> p == Population::Add(t.bots)
            &&& p is Remove <==> settled && t.bots > want->0 && t.last_bot is Some
            &&& p is Remove ==> p == Population::Remove(t.last_bot->0)
        }),
{
}

/// The names and colors go round by eight.
pub proof fn names_go_round(i: int)
    requires
        0 <= i,
    ensures
        name_of(i + 8) == name_of(i),
        color(i + 8) == color(i),
        name_of(0) == "Grunt"@ && name_of(1) == "Ranger"@ && name_of(2) == "Visor"@ && name_of(3) == "Sarge"@,
        name_of(4) == "Bitterman"@ && name_of(5) == "Hossman"@ && name_of(6) == "Daemia"@ && name_of(7) == "Klesk"@,
        color(0) == 4 && color(1) == 11 && color(2) == 12 && color(3) == 13,
        color(4) == 2 && color(5) == 6 && color(6) == 3 && color(7) == 10,
{
    assert((i + 8) % 8 == i % 8);
}

/// The count over one more slot: a bot is a bot whatever else it is, a person is a player in use; the
/// last bot is the one with the highest number.
pub proof fn slots_are_counted_one_by_one(entities: Seq<Entity>, n: int)
    requires
        0 < n < entities.len() <= u32::MAX,
    ensures
        ({
            let (h0, b0, l0) = tally_of(entities, n - 1);
            let (h, b, l) = tally_of(entities, n);
            let e = entities[n];
            &&& e.bot.is_bot ==> b == b0 + 1 && h == h0 && l == Some(EntId(n as u32))
            &&& !e.bot.is_bot && e.in_use && e.class() == Some("player"@) ==> h == h0 + 1 && b == b0 && l == l0
            &&& !e.bot.is_bot && !(e.in_use && e.class() == Some("player"@)) ==> h == h0 && b == b0 && l == l0
        }),
        tally_of(entities, 0) == (0int, 0int, None::<EntId>),
{
}

/// A bot acts that is in use; a backpack can be taken that is a trigger; a person to follow lives.
pub proof fn the_living_act(e: Entity)
    ensures
        acts(e) <==> e.bot.is_bot && e.in_use,
        takeable_pack(e) <==> e.touch == Touch::Backpack && e.v.solid == Solid::Trigger,
        living_human(e) <==> !e.bot.is_bot && e.in_use && e.class() == Some("player"@) && e.v.health > 0 && e.v.deadflag
            == DeadFlag::No,
{
}

/// The goals underfoot are those that are there to be taken and stood on, in order.
pub proof fn goals_underfoot_are_there(entities: Seq<Entity>, goals: Seq<(u32, u32)>, on: Seq<bool>, n: int, k: int)
    requires
        0 <= k < n <= goals.len(),
    ensures
        ({
            let u = underfoot(entities, goals, on, n);
            let idx = goals[k].0;
            &&& entities[idx as int].v.solid == Solid::Trigger && on[idx as int] ==> u.contains(EntId(idx))
            &&& forall|i: int|
                0 <= i < u.len() ==> entities[(#[trigger] u[i]).0 as int].v.solid == Solid::Trigger && on[u[i].0 as int]
        }),
    decreases n,
{
    let u = underfoot(entities, goals, on, n);
    let rest = underfoot(entities, goals, on, n - 1);
    if n > 1 {
        goals_underfoot_are_there(entities, goals, on, n - 1, if k < n - 1 {
            k
        } else {
            0
        });
    } else {
        assert(underfoot(entities, goals, on, 0).len() == 0);
    }
    let last = goals[n - 1].0;
    if entities[last as int].v.solid == Solid::Trigger && on[last as int] {
        assert(u == rest.push(EntId(last)));
        assert(u[rest.len() as int] == EntId(last));
        let idx = goals[k].0;
        if k < n - 1 && entities[idx as int].v.solid == Solid::Trigger && on[idx as int] {
            let i = choose|i: int| 0 <= i < rest.len() && rest[i] == EntId(idx);
            assert(u[i] == EntId(idx));
        }
    }
}

/// A bot that joins is blank but for its number, and has no cell to go to.
pub proof fn joining_bots_are_blank(b: BotState, client: i32)
    requires
        b.has_joined(client),
    ensures
        b.is_bot && b.client == client && b.goal_cell == 0xffff_ffff,
        b.route@.len() == 0 && b.route_pos == 0 && b.goal_item == 0 && b.known_enemy == 0 && b.gate is None,
        b.hook_phase == crate::bot::state::HookPhase::Idle && b.rj_phase == crate::bot::state::RjPhase::Idle,
        b.grenade_phase == crate::bot::state::GrenadePhase::Idle && b.sj_leg is None && b.air_leg is None,
{
}

/// The nearest person is alive, is somebody else, and nobody alive is nearer.
pub proof fn the_nearest_person_is_near(entities: Seq<Entity>, dist: Seq<u32>, me: u32, n: int, i: int, j: int)
    requires
        nearest_to(entities, dist, me, n, i),
        0 < j <= n && j != me && living_human(entities[j]),
    ensures
        i != me && living_human(entities[i]) && 0 < i <= n,
        dist[i] <= dist[j],
        dist[i] == dist[j] ==> i <= j,
{
}

/// A bot stands on an item within forty units along the floor and forty-eight in height, and leaves one
/// that it took alone for three seconds.
pub proof fn pickups_have_their_measures()
    ensures
        PICKUP_XY == 40_000 && PICKUP_Z == 48_000,
        PICKUP_AVOID_TIME == 3_000,
{
}

/// Whether a bot takes an item.
pub open spec fn takes_item(b: BotState, id: u32, item: Entity, now: i64) -> bool {
    item.v.solid == Solid::Trigger && !(b.hold_item != 0 && now < b.hold_until && id == b.hold_item)
}

/// Whether a bot stands on an item.
pub open spec fn stands_on(bot: [i32; 3], item: [i32; 3]) -> bool {
    -PICKUP_XY <= item@[0] - bot@[0] <= PICKUP_XY && -PICKUP_XY <= item@[1] - bot@[1] <= PICKUP_XY && -PICKUP_Z
        <= item@[2] - bot@[2] <= PICKUP_Z
}

/// What is there is taken, unless it is being kept for a teammate, whose time runs out.
pub proof fn kept_items_are_left(b: BotState, id: u32, item: Entity, now: i64)
    ensures
        item.v.solid != Solid::Trigger ==> !takes_item(b, id, item, now),
        item.v.solid == Solid::Trigger && (b.hold_item != id || id == 0) ==> takes_item(b, id, item, now),
        item.v.solid == Solid::Trigger && now >= b.hold_until ==> takes_item(b, id, item, now),
        b.hold_item == id && id != 0 && now < b.hold_until ==> !takes_item(b, id, item, now),
{
}

/// Standing on an item goes by distance, the same from either side.
pub proof fn standing_on_is_nearness(bot: [i32; 3], item: [i32; 3])
    ensures
        stands_on(bot, item) == stands_on(item, bot),
        stands_on(bot, item) <==> {
            &&& item@[0] <= bot@[0] + 40_000 && bot@[0] <= item@[0] + 40_000
            &&& item@[1] <= bot@[1] + 40_000 && bot@[1] <= item@[1] + 40_000
            &&& item@[2] <= bot@[2] + 48_000 && bot@[2] <= item@[2] + 48_000
        },
{
}

/// Every living person that nobody else is nearer than, and nobody before as near as, is the nearest.
pub proof fn any_nearest_person_will_do(entities: Seq<Entity>, dist: Seq<u32>, me: u32, n: int, i: int)
    requires
        0 < i <= n,
        i != me,
        living_human(entities[i]),
        forall|j: int| 0 < j <= n && j != me && living_human(#[trigger] entities[j]) ==> dist[i] <= dist[j],
        forall|j: int| 0 < j < i && j != me && living_human(#[trigger] entities[j]) ==> dist[i] < dist[j],
    ensures
        nearest_to(entities, dist, me, n, i),
{
}

} // verus!
