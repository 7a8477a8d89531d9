//! Following a route over the navigation graph: arriving at legs, waiting for lifts, noticing that
//! a leg fails and steering the next plan around it.
//!
//! Positions and distances are thousandths of a unit, times milliseconds of server time.
use crate::bot::state::{BotState, FAR};
use crate::defs::TakeDamage;
use crate::entity::{Entities, Entity};
use crate::num::{after, bounded, since};
use vstd::prelude::*;

verus! {

/// How a link is traversed.
#[derive(Clone, Copy, PartialEq, Eq, Debug, Structural)]
pub enum LinkKind {
    Walk,
    Step,
    Drop,
    JumpGap,
    DoubleJump,
    SpeedJump,
    Teleport,
    Plat,
    Hook,
    RocketJump,
}

/// A directed link between two cells, with any gate it crosses and the lift it boards or rides.
#[derive(Clone, Copy, PartialEq, Eq, Debug, Structural)]
pub struct Link {
    pub kind: LinkKind,
    pub from: u32,
    pub to: u32,
    pub gate: Option<usize>,
    pub plat: Option<usize>,
}

/// A door that a button opens: the cell to press or shoot the button from.
#[derive(Clone, Copy, PartialEq, Eq, Debug, Structural)]
pub struct Gate {
    pub button_cell: u32,
    /// The entity to press or shoot.
    pub activator: u32,
    /// Whether the activator is shot rather than pushed.
    pub shoot: bool,
}

/// What route following reads of the navigation graph.
pub struct NavGraph {
    pub links: Vec<Link>,
    pub gates: Vec<Gate>,
}

impl NavGraph {
    /// Whether every leg of a route is a link of the graph.
    pub open spec fn covers(self, route: Seq<u32>) -> bool {
        forall|i: int| 0 <= i < route.len() ==> (#[trigger] route[i] as int) < self.links@.len()
    }

    pub open spec fn leg(self, route: Seq<u32>, i: int) -> Link {
        self.links@[route[i] as int]
    }
}

/// Arrival radius of an ordinary leg, and how close a plat ride must come to its exit height.
pub const ARRIVE_RADIUS: u32 = 24000;

pub const PLAT_RISE_TOL: i32 = 18000;

/// Distance to keep from a raised lift, and the distance at which keeping it starts.
pub const PLAT_STANDOFF: i64 = 40000;

pub const PLAT_ENGAGE: i64 = 96000;

pub const PLAT_WAIT_TIMEOUT: i64 = 8000;

/// How many upcoming legs are searched for a lift.
pub const PLAT_LOOKAHEAD: usize = 4;

pub const REPATH_INTERVAL: i64 = 400;

pub const STUCK_TIME: i64 = 700;

/// A jump that is still on the ground after the grace was landed or never left it; one that is
/// still in the air after the maximum is lost.
pub const AIR_COMMIT_GRACE: i64 = 200;

pub const AIR_COMMIT_MAX: i64 = 2500;

pub const GATE_GIVEUP_TIME: i64 = 4000;

pub const GATE_AVOID_TIME: i64 = 6000;

/// Progress toward a gate's button below this is none.
pub const GATE_PROGRESS: u32 = 4000;

/// Travel-time surcharge of a failed link: a step per squared strike, up to a cap, for a while.
pub const PENALTY_STEP: u32 = 4000;

pub const PENALTY_CAP: u32 = 30000;

pub const PENALTY_TTL: i64 = 8000;

pub const PROGRESS_STALL_TIME: i64 = 2500;

pub const PROGRESS_EPS: u32 = 32000;

pub const SPEED_JUMP_MAX: i64 = 4000;

// --- failed links ---
/// Surcharge of a link with `strikes` recorded failures.
pub open spec fn penalty(strikes: u8) -> int {
    let raw = strikes * strikes * PENALTY_STEP;
    if raw <= PENALTY_CAP {
        raw
    } else {
        PENALTY_CAP as int
    }
}

pub fn link_penalty_secs(strikes: u8) -> (r: u32)
    ensures
        r == penalty(strikes),
{
    assert(strikes * strikes <= 255 * 255) by (nonlinear_arith)
        requires
            0 <= strikes <= 255,
    ;
    assert(strikes * strikes >= 0) by (nonlinear_arith);
    let raw: u32 = strikes as u32 * strikes as u32 * PENALTY_STEP;
    if raw <= PENALTY_CAP {
        raw
    } else {
        PENALTY_CAP
    }
}

/// Whether slot `i` is the first with an unexpired record of `link`.
pub open spec fn live_strike(ring: Seq<(u32, i64, u8)>, link: u32, now: i64, i: int) -> bool {
    &&& 0 <= i < ring.len()
    &&& ring[i].0 == link && ring[i].1 > now
    &&& forall|j: int| 0 <= j < i ==> !(#[trigger] ring[j].0 == link && ring[j].1 > now)
}

/// Whether slot `i` is the first among those that expire soonest.
pub open spec fn soonest_strike(ring: Seq<(u32, i64, u8)>, i: int) -> bool {
    &&& 0 <= i < ring.len()
    &&& forall|j: int| 0 <= j < ring.len() ==> ring[i].1 <= (#[trigger] ring[j]).1
    &&& forall|j: int| 0 <= j < i ==> ring[i].1 < (#[trigger] ring[j]).1
}

pub open spec fn one_more(strikes: u8) -> u8 {
    if strikes == 255 {
        255
    } else {
        (strikes + 1) as u8
    }
}

/// The ring after a failure of `link`: a live record gains a strike and its expiry moves out, a new
/// one takes the slot that expires soonest.
pub open spec fn struck(
    before: Seq<(u32, i64, u8)>,
    link: u32,
    now: i64,
    after: Seq<(u32, i64, u8)>,
) -> bool {
    let until = bounded(now + PENALTY_TTL);
    if exists|i: int| #[trigger] live_strike(before, link, now, i) {
        exists|i: int|
            #[trigger] live_strike(before, link, now, i) && after == before.update(
                i,
                (link, until, one_more(before[i].2)),
            )
    } else {
        exists|i: int| #[trigger] soonest_strike(before, i) && after == before.update(i, (link, until, 1u8))
    }
}

/// Whether the failure of a leg is recorded at all: there must be one, and waiting on a lift or in
/// a teleporter is no failure.
pub open spec fn punishable(link: Option<u32>, kind: Option<LinkKind>) -> bool {
    link is Some && kind != Some(LinkKind::Plat) && kind != Some(LinkKind::Teleport)
}

/// The ring after a failed leg.
pub open spec fn leg_struck(
    before: Seq<(u32, i64, u8)>,
    link: Option<u32>,
    kind: Option<LinkKind>,
    now: i64,
    after: Seq<(u32, i64, u8)>,
) -> bool {
    if punishable(link, kind) {
        struck(before, link->0, now, after)
    } else {
        after == before
    }
}

/// The surcharges in force, in ring order.
pub open spec fn surcharges(ring: Seq<(u32, i64, u8)>, now: i64, below: int) -> Seq<(u32, u32)>
    decreases below,
{
    if below <= 0 {
        Seq::empty()
    } else {
        let rest = surcharges(ring, now, below - 1);
        let slot = ring[below - 1];
        if slot.1 > now {
            rest.push((slot.0, penalty(slot.2) as u32))
        } else {
            rest
        }
    }
}

/// Record a failure of `link`, whatever its kind.
pub fn penalize_link(bot: &mut BotState, link: u32, now: i64)
    ensures
        struck(old(bot).failed_links@, link, now, final(bot).failed_links@),
        *final(bot) == (BotState { failed_links: final(bot).failed_links, ..*old(bot) }),
{
    let until: i64 = after(now, PENALTY_TTL);
    let mut i: usize = 0;
    while i < 8
        invariant
            i <= 8,
            until == bounded(now + PENALTY_TTL),
            *bot == *old(bot),
            forall|j: int|
                0 <= j < i ==> !(#[trigger] bot.failed_links@[j].0 == link && bot.failed_links@[j].1 > now),
        decreases 8 - i,
    {
        let slot = bot.failed_links[i];
        if slot.0 == link && slot.1 > now {
            let strikes: u8 = if slot.2 == 255 {
                255
            } else {
                slot.2 + 1
            };
            bot.failed_links[i] = (link, until, strikes);
            assert(live_strike(old(bot).failed_links@, link, now, i as int));
            return;
        }
        i = i + 1;
    }
    let mut best: usize = 0;
    let mut k: usize = 1;
    while k < 8
        invariant
            best < k <= 8,
            *bot == *old(bot),
            forall|j: int| 0 <= j < k ==> bot.failed_links@[best as int].1 <= (#[trigger] bot.failed_links@[j]).1,
            forall|j: int|
                0 <= j < best ==> bot.failed_links@[best as int].1 < (#[trigger] bot.failed_links@[j]).1,
            forall|j: int|
                0 <= j < 8 ==> !(#[trigger] bot.failed_links@[j].0 == link && bot.failed_links@[j].1 > now),
        decreases 8 - k,
    {
        if bot.failed_links[k].1 < bot.failed_links[best].1 {
            best = k;
        }
        k = k + 1;
    }
    assert(soonest_strike(old(bot).failed_links@, best as int));
    bot.failed_links[best] = (link, until, 1);
}

/// Record a failed leg, unless it is one that may rightly look stuck.
pub fn penalize_leg(bot: &mut BotState, link: Option<u32>, kind: Option<LinkKind>, now: i64)
    ensures
        leg_struck(old(bot).failed_links@, link, kind, now, final(bot).failed_links@),
        *final(bot) == (BotState { failed_links: final(bot).failed_links, ..*old(bot) }),
{
    let link: u32 = match link {
        Some(l) => l,
        None => return,
    };
    match kind {
        Some(LinkKind::Plat) | Some(LinkKind::Teleport) => return,
        _ => {},
    }
    penalize_link(bot, link, now);
}

/// The links to plan around at `now`, each with its surcharge.
pub fn live_penalties(bot: &BotState, now: i64) -> (r: Vec<(u32, u32)>)
    ensures
        r@ == surcharges(bot.failed_links@, now, 8),
{
    let mut out: Vec<(u32, u32)> = Vec::new();
    let mut i: usize = 0;
    while i < 8
        invariant
            i <= 8,
            out@ == surcharges(bot.failed_links@, now, i as int),
        decreases 8 - i,
    {
        let slot = bot.failed_links[i];
        if slot.1 > now {
            out.push((slot.0, link_penalty_secs(slot.2)));
        }
        i = i + 1;
    }
    out
}

/// A link that failed has a live record afterwards, with at least one strike.
pub proof fn a_struck_link_is_penalized(
    before: Seq<(u32, i64, u8)>,
    link: u32,
    now: i64,
    after: Seq<(u32, i64, u8)>,
)
    requires
        before.len() == 8,
        struck(before, link, now, after),
        now < i64::MAX,
    ensures
        exists|i: int| #[trigger] live_strike(after, link, now, i) && penalty(after[i].2) >= PENALTY_STEP,
{
    if exists|i: int| #[trigger] live_strike(before, link, now, i) {
        let i = choose|i: int|
            #[trigger] live_strike(before, link, now, i) && after == before.update(
                i,
                (link, bounded(now + PENALTY_TTL), one_more(before[i].2)),
            );
        lemma_penalty_of_one(after[i].2);
        assert(forall|j: int| 0 <= j < i ==> after[j] == before[j]);
        assert(live_strike(after, link, now, i));
    } else {
        let i = choose|i: int|
            #[trigger] soonest_strike(before, i) && after == before.update(
                i,
                (link, bounded(now + PENALTY_TTL), 1u8),
            );
        lemma_penalty_of_one(1);
        assert forall|j: int| 0 <= j < i implies !(#[trigger] after[j].0 == link && after[j].1 > now) by {
            lemma_first_live(before, link, now, j);
        }
        assert(live_strike(after, link, now, i));
    }
}

proof fn lemma_penalty_of_one(strikes: u8)
    requires
        strikes >= 1,
    ensures
        penalty(strikes) >= PENALTY_STEP,
{
    assert(strikes * strikes >= 1) by (nonlinear_arith)
        requires
            strikes >= 1,
    ;
}

/// A ring with a live record somewhere has a first one.
proof fn lemma_first_live(ring: Seq<(u32, i64, u8)>, link: u32, now: i64, at: int)
    requires
        0 <= at < ring.len(),
        !exists|i: int| #[trigger] live_strike(ring, link, now, i),
    ensures
        !(ring[at].0 == link && ring[at].1 > now),
    decreases at,
{
    if ring[at].0 == link && ring[at].1 > now {
        assert forall|j: int| 0 <= j < at implies !(#[trigger] ring[j].0 == link && ring[j].1 > now) by {
            lemma_first_live(ring, link, now, j);
        }
        assert(live_strike(ring, link, now, at));
    }
}

/// More strikes never make a link cheaper, and no number of strikes exceeds the cap.
pub proof fn penalty_grows_to_its_cap(fewer: u8, more: u8)
    requires
        fewer <= more,
    ensures
        penalty(fewer) <= penalty(more) <= PENALTY_CAP,
{
    assert(fewer * fewer <= more * more) by (nonlinear_arith)
        requires
            0 <= fewer <= more,
    ;
}

// --- progress, jumps, lifts, gates ---
/// Whether `dist` is at least `by` below `best`; anything finite is below an infinite best.
pub open spec fn improved(dist: u32, best: u32, by: u32) -> bool {
    if best == FAR {
        dist != FAR
    } else {
        dist < best - by
    }
}

pub fn improves(dist: u32, best: u32, by: u32) -> (r: bool)
    ensures
        r == improved(dist, best, by),
{
    if best == FAR {
        dist != FAR
    } else {
        (dist as i64) < best as i64 - by as i64
    }
}

/// Whether the way to the goal has stopped getting shorter for too long.
pub open spec fn stalled(best: u32, since: i64, remaining: u32, now: i64) -> bool {
    now - since > PROGRESS_STALL_TIME && best != FAR && remaining > best - PROGRESS_EPS
}

pub fn progress_stalled(best: u32, started: i64, remaining: u32, now: i64) -> (r: bool)
    ensures
        r == stalled(best, started, remaining, now),
{
    since(now, started) > PROGRESS_STALL_TIME as i128 && best != FAR && remaining as i64 > best as i64
        - PROGRESS_EPS as i64
}

/// What becomes of a committed jump.
#[derive(Clone, Copy, PartialEq, Eq, Debug, Structural)]
pub enum AirRelease {
    /// Stay committed.
    Keep,
    /// Landed, or no longer on the leg.
    Land,
    /// In the air for longer than any real jump lasts.
    Timeout,
}

pub open spec fn air_fate(on_ground: bool, on_jump_leg: bool, elapsed: int) -> AirRelease {
    if !on_jump_leg || (on_ground && elapsed > AIR_COMMIT_GRACE) {
        AirRelease::Land
    } else if elapsed > AIR_COMMIT_MAX {
        AirRelease::Timeout
    } else {
        AirRelease::Keep
    }
}

pub fn air_commit_decision(on_ground: bool, on_jump_leg: bool, elapsed: i128) -> (r: AirRelease)
    ensures
        r == air_fate(on_ground, on_jump_leg, elapsed as int),
{
    if !on_jump_leg || (on_ground && elapsed > AIR_COMMIT_GRACE as i128) {
        AirRelease::Land
    } else if elapsed > AIR_COMMIT_MAX as i128 {
        AirRelease::Timeout
    } else {
        AirRelease::Keep
    }
}

/// Whether a point lies within a box grown by a margin on every side.
pub open spec fn within(x: int, y: int, lo: [i32; 2], hi: [i32; 2], margin: int) -> bool {
    lo@[0] - margin <= x <= hi@[0] + margin && lo@[1] - margin <= y <= hi@[1] + margin
}

pub fn in_footprint(x: i64, y: i64, fp_min: [i32; 2], fp_max: [i32; 2], margin: i64) -> (r: bool)
    ensures
        r == within(x as int, y as int, fp_min, fp_max, margin as int),
{
    let (px, py, grown): (i128, i128, i128) = (x as i128, y as i128, margin as i128);
    px >= fp_min[0] as i128 - grown && px <= fp_max[0] as i128 + grown && py >= fp_min[1] as i128 - grown && py
        <= fp_max[1] as i128 + grown
}

/// Where to wait for a lift: on the spot where that is clear of it, else straight out across the
/// nearest face.
pub open spec fn waiting_spot(x: int, y: int, lo: [i32; 2], hi: [i32; 2]) -> (int, int) {
    let west = x - (lo@[0] - PLAT_STANDOFF);
    let east = hi@[0] + PLAT_STANDOFF - x;
    let south = y - (lo@[1] - PLAT_STANDOFF);
    let north = hi@[1] + PLAT_STANDOFF - y;
    if !within(x, y, lo, hi, PLAT_STANDOFF as int) {
        (x, y)
    } else if west <= east && west <= south && west <= north {
        (lo@[0] - PLAT_STANDOFF, y)
    } else if east <= south && east <= north {
        (hi@[0] + PLAT_STANDOFF, y)
    } else if south <= north {
        (x, lo@[1] - PLAT_STANDOFF)
    } else {
        (x, hi@[1] + PLAT_STANDOFF)
    }
}

pub fn plat_standoff(origin: [i32; 3], fp_min: [i32; 2], fp_max: [i32; 2]) -> (r: [i64; 3])
    ensures
        (r@[0] as int, r@[1] as int) == waiting_spot(origin@[0] as int, origin@[1] as int, fp_min, fp_max),
        r@[2] == origin@[2],
{
    let x: i64 = origin[0] as i64;
    let y: i64 = origin[1] as i64;
    let z: i64 = origin[2] as i64;
    if !in_footprint(x, y, fp_min, fp_max, PLAT_STANDOFF) {
        return [x, y, z];
    }
    let min_x: i64 = fp_min[0] as i64 - PLAT_STANDOFF;
    let max_x: i64 = fp_max[0] as i64 + PLAT_STANDOFF;
    let min_y: i64 = fp_min[1] as i64 - PLAT_STANDOFF;
    let max_y: i64 = fp_max[1] as i64 + PLAT_STANDOFF;
    let west: i64 = x - min_x;
    let east: i64 = max_x - x;
    let south: i64 = y - min_y;
    let north: i64 = max_y - y;
    if west <= east && west <= south && west <= north {
        [min_x, y, z]
    } else if east <= south && east <= north {
        [max_x, y, z]
    } else if south <= north {
        [x, min_y, z]
    } else {
        [x, max_y, z]
    }
}

/// Waiting for a lift is always done clear of it, whatever the lift's box.
pub proof fn standoff_clears_the_lift(x: int, y: int, lo: [i32; 2], hi: [i32; 2], margin: int)
    requires
        margin < PLAT_STANDOFF,
    ensures
        ({
            let spot = waiting_spot(x, y, lo, hi);
            !within(spot.0, spot.1, lo, hi, margin)
        }),
{
}

/// Stepping back for a lift moves along one axis only, and no other face was nearer.
pub proof fn standoff_takes_the_nearest_face(x: int, y: int, lo: [i32; 2], hi: [i32; 2])
    requires
        within(x, y, lo, hi, PLAT_STANDOFF as int),
    ensures
        ({
            let spot = waiting_spot(x, y, lo, hi);
            let moved = if spot.0 >= x {
                spot.0 - x
            } else {
                x - spot.0
            } + if spot.1 >= y {
                spot.1 - y
            } else {
                y - spot.1
            };
            &&& spot.0 == x || spot.1 == y
            &&& moved <= x - (lo@[0] - PLAT_STANDOFF)
            &&& moved <= hi@[0] + PLAT_STANDOFF - x
            &&& moved <= y - (lo@[1] - PLAT_STANDOFF)
            &&& moved <= hi@[1] + PLAT_STANDOFF - y
        }),
{
}

/// Whether leg `i` crosses a gate that is shut.
pub open spec fn shut_at(graph: NavGraph, route: Seq<u32>, closed: Seq<bool>, i: int) -> bool {
    match graph.leg(route, i).gate {
        Some(g) => g < closed.len() && closed[g as int],
        None => false,
    }
}

/// The first shut gate on the rest of the route.
pub open spec fn first_shut(graph: NavGraph, route: Seq<u32>, from: int, closed: Seq<bool>) -> Option<usize>
    decreases route.len() - from,
{
    if from >= route.len() {
        None
    } else if shut_at(graph, route, closed, from) {
        graph.leg(route, from).gate
    } else {
        first_shut(graph, route, from + 1, closed)
    }
}

pub fn route_blocking_gate(graph: &NavGraph, route: &Vec<u32>, from: usize, closed: &Vec<bool>) -> (r: Option<
    usize,
>)
    requires
        graph.covers(route@),
    ensures
        r == first_shut(*graph, route@, from as int, closed@),
{
    let mut i: usize = from;
    while i < route.len()
        invariant
            graph.covers(route@),
            from <= i,
            first_shut(*graph, route@, from as int, closed@) == first_shut(*graph, route@, i as int, closed@),
        decreases route@.len() - i,
    {
        if let Some(g) = graph.links[route[i] as usize].gate {
            if g < closed.len() && closed[g] {
                return Some(g);
            }
        }
        i = i + 1;
    }
    None
}

/// Whether a route crosses gate `gi`.
pub open spec fn crosses(graph: NavGraph, route: Seq<u32>, gi: usize) -> bool {
    exists|i: int| 0 <= i < route.len() && #[trigger] graph.leg(route, i).gate == Some(gi)
}

/// Whether a gate's button can be reached without going through that gate itself, given the route
/// that was found to it.
pub fn button_reachable(graph: &NavGraph, found: &Option<Vec<u32>>, gi: usize) -> (r: bool)
    requires
        found is Some ==> graph.covers(found->0@),
    ensures
        r == (found is Some && !crosses(*graph, found->0@, gi)),
{
    let route = match found {
        Some(route) => route,
        None => return false,
    };
    let mut i: usize = 0;
    while i < route.len()
        invariant
            graph.covers(route@),
            found is Some,
            found->0@ == route@,
            i <= route@.len(),
            forall|j: int| 0 <= j < i ==> #[trigger] graph.leg(route@, j).gate != Some(gi),
        decreases route@.len() - i,
    {
        if let Some(g) = graph.links[route[i] as usize].gate {
            if g == gi {
                assert(graph.leg(route@, i as int).gate == Some(gi));
                return false;
            }
        }
        i = i + 1;
    }
    true
}

/// Whether an activator can be triggered: one that is pushed always, one that is shot only while it
/// takes damage.
pub open spec fn live(gate: Gate, entities: Seq<Entity>) -> bool {
    !gate.shoot || entities[gate.activator as int].v.takedamage != TakeDamage::No
}

/// Of every gate, whether its activator is live.
pub fn gates_ready(graph: &NavGraph, entities: &Entities) -> (r: Vec<bool>)
    requires
        forall|i: int|
            0 <= i < graph.gates@.len() ==> (#[trigger] graph.gates@[i]).activator < entities@.len(),
    ensures
        r@ == Seq::new(graph.gates@.len(), |i: int| live(graph.gates@[i], entities@)),
{
    let mut out: Vec<bool> = Vec::new();
    while out.len() < graph.gates.len()
        invariant
            forall|i: int|
                0 <= i < graph.gates@.len() ==> (#[trigger] graph.gates@[i]).activator < entities@.len(),
            out@.len() <= graph.gates@.len(),
            out@ == Seq::new(out@.len(), |i: int| live(graph.gates@[i], entities@)),
        decreases graph.gates@.len() - out@.len(),
    {
        let gate = graph.gates[out.len()];
        assert(gate == graph.gates@[out@.len() as int]);
        let armed: bool = entities.slots[gate.activator as usize].v.takedamage != TakeDamage::No;
        out.push(!gate.shoot || armed);
    }
    out
}

/// A route whose shut gates were all opened is blocked by none.
pub proof fn open_gates_block_nothing(graph: NavGraph, route: Seq<u32>, from: int, closed: Seq<bool>)
    requires
        0 <= from,
        forall|i: int| from <= i < route.len() ==> !#[trigger] shut_at(graph, route, closed, i),
    ensures
        first_shut(graph, route, from, closed) is None,
    decreases route.len() - from,
{
    if from < route.len() {
        open_gates_block_nothing(graph, route, from + 1, closed);
    }
}

// --- what navigation promises ---
/// A link that failed once costs four seconds more, one that failed twice sixteen, one that failed
/// three times or more thirty.
pub proof fn failed_links_cost_more(strikes: u8)
    ensures
        penalty(0) == 0,
        penalty(1) == 4_000,
        penalty(2) == 16_000,
        strikes >= 3 ==> penalty(strikes) == 30_000,
{
    let n = strikes as int;
    assert(n >= 3 ==> n * n >= 9) by (nonlinear_arith);
    assert(n * n * 4_000 == (n * n) * 4_000);
}

/// A strike lasts eight seconds. Striking a link again within them counts on; else the slot that runs
/// out first is taken, with one strike.
pub proof fn strikes_add_up(before: Seq<(u32, i64, u8)>, link: u32, now: i64, after: Seq<(u32, i64, u8)>, i: int)
    requires
        struck(before, link, now, after),
        0 <= now <= i64::MAX - 8_000,
    ensures
        after.len() == before.len(),
        live_strike(before, link, now, i) ==> after[i].0 == link && after[i].1 == now + 8_000,
        live_strike(before, link, now, i) && before[i].2 < 255 ==> after[i].2 == before[i].2 + 1,
        live_strike(before, link, now, i) && before[i].2 == 255 ==> after[i].2 == 255,
        (forall|j: int| 0 <= j < before.len() ==> (#[trigger] before[j]).0 != link || before[j].1 <= now)
            && soonest_strike(before, i) ==> after[i] == (link, (now + 8_000) as i64, 1u8),
        0 <= i < before.len() && !live_strike(before, link, now, i) && !soonest_strike(before, i) ==> after[i] == before[i],
{
    if exists|k: int| #[trigger] live_strike(before, link, now, k) {
        let k = choose|k: int|
            #[trigger] live_strike(before, link, now, k) && after == before.update(
                k,
                (link, bounded(now + PENALTY_TTL), one_more(before[k].2)),
            );
        if live_strike(before, link, now, i) && i != k {
            if i < k {
                assert(before[i].0 == link);
            } else {
                assert(before[k].0 == link);
            }
        }
        assert(before[k].0 == link && before[k].1 > now);
    } else {
        let k = choose|k: int|
            #[trigger] soonest_strike(before, k) && after == before.update(
                k,
                (link, bounded(now + PENALTY_TTL), 1u8),
            );
        if soonest_strike(before, i) && i != k {
            if i < k {
                assert(before[k].1 < before[i].1);
            } else {
                assert(before[i].1 < before[k].1);
            }
        }
    }
}

/// Lifts and teleporters are never struck, nor is a way without a leg.
pub proof fn lifts_are_never_struck(link: Option<u32>, kind: Option<LinkKind>)
    ensures
        punishable(link, kind) <==> link is Some && !(kind matches Some(k) && (k == LinkKind::Plat || k
            == LinkKind::Teleport)),
        punishable(Some(0u32), Some(LinkKind::JumpGap)) && punishable(Some(0u32), Some(LinkKind::Walk)),
        punishable(Some(0u32), Some(LinkKind::Hook)) && punishable(Some(0u32), Some(LinkKind::RocketJump)),
{
}

/// Each strike that still counts is charged for its link, and no other.
pub proof fn strikes_are_charged(ring: Seq<(u32, i64, u8)>, now: i64, n: int, k: int)
    requires
        0 <= k < n <= ring.len(),
    ensures
        ring[k].1 > now ==> surcharges(ring, now, n).contains((ring[k].0, penalty(ring[k].2) as u32)),
        surcharges(ring, now, n).len() <= n,
        (forall|j: int| 0 <= j < n ==> (#[trigger] ring[j]).1 <= now) ==> surcharges(ring, now, n).len() == 0,
    decreases n,
{
    let all = surcharges(ring, now, n);
    let rest = surcharges(ring, now, n - 1);
    if n > 1 {
        strikes_are_charged(ring, now, n - 1, if k < n - 1 {
            k
        } else {
            0
        });
    } else {
        assert(surcharges(ring, now, 0).len() == 0);
    }
    if ring[n - 1].1 > now {
        let charge = (ring[n - 1].0, penalty(ring[n - 1].2) as u32);
        assert(all == rest.push(charge));
        assert(all[rest.len() as int] == charge);
        if k < n - 1 && ring[k].1 > now {
            let own = (ring[k].0, penalty(ring[k].2) as u32);
            let i = choose|i: int| 0 <= i < rest.len() && rest[i] == own;
            assert(all[i] == own);
        }
    }
}

/// A distance improves on the best one only by more than what is asked; the first one that is known
/// always does.
pub proof fn progress_is_measured(dist: u32, best: u32, by: u32)
    ensures
        best == 0xffff_ffff ==> (improved(dist, best, by) <==> dist != 0xffff_ffff),
        best != 0xffff_ffff ==> (improved(dist, best, by) <==> dist + by < best),
{
}

/// A way stalls that has come no more than thirty-two units nearer in two and a half seconds.
pub proof fn ways_stall(best: u32, since: i64, remaining: u32, now: i64)
    ensures
        stalled(best, since, remaining, now) <==> now - since > 2_500 && best != 0xffff_ffff && remaining + 32_000 > best,
{
}

/// A jump is held to until it lands, two tenths of a second in at the earliest, or two and a half
/// seconds are over.
pub proof fn jumps_are_held_to(on_ground: bool, on_jump_leg: bool, elapsed: int)
    ensures
        ({
            let r = air_fate(on_ground, on_jump_leg, elapsed);
            &&& r == AirRelease::Land <==> !on_jump_leg || (on_ground && elapsed > 200)
            &&& r == AirRelease::Timeout <==> on_jump_leg && !on_ground && elapsed > 2_500
            &&& r == AirRelease::Keep <==> on_jump_leg && (on_ground ==> elapsed <= 200) && (!on_ground ==> elapsed <= 2_500)
        }),
{
}

/// Who waits for a lift waits forty units off its nearest side, or where they stand if that is clear.
pub proof fn waiting_is_forty_units_off(x: int, y: int, lo: [i32; 2], hi: [i32; 2])
    ensures
        ({
            let (sx, sy) = waiting_spot(x, y, lo, hi);
            let inside = lo@[0] - 40_000 <= x <= hi@[0] + 40_000 && lo@[1] - 40_000 <= y <= hi@[1] + 40_000;
            &&& !inside ==> (sx, sy) == (x, y)
            &&& inside ==> {
                ||| (sx == lo@[0] - 40_000 && sy == y)
                ||| (sx == hi@[0] + 40_000 && sy == y)
                ||| (sy == lo@[1] - 40_000 && sx == x)
                ||| (sy == hi@[1] + 40_000 && sx == x)
            }
        }),
{
}

/// The first closed gate on the rest of a route is the one in the way.
pub proof fn the_first_closed_gate_is_in_the_way(
    graph: NavGraph,
    route: Seq<u32>,
    from: int,
    closed: Seq<bool>,
    k: int,
    g: usize,
)
    requires
        0 <= from <= k < route.len(),
        graph.links@[route[k] as int].gate == Some(g),
        g < closed.len() && closed[g as int],
        forall|j: int| from <= j < k ==> !#[trigger] shut_at(graph, route, closed, j),
    ensures
        first_shut(graph, route, from, closed) == Some(g),
    decreases k - from,
{
    if from < k {
        assert(!shut_at(graph, route, closed, from));
        the_first_closed_gate_is_in_the_way(graph, route, from + 1, closed, k, g);
    }
}

/// A leg is shut where it has a gate that is known and closed.
pub proof fn gates_shut_their_legs(graph: NavGraph, route: Seq<u32>, closed: Seq<bool>, i: int)
    ensures
        graph.links@[route[i] as int].gate is None ==> !shut_at(graph, route, closed, i),
        graph.links@[route[i] as int].gate matches Some(g) ==> (shut_at(graph, route, closed, i) <==> g < closed.len()
            && closed[g as int]),
{
}

/// A button to push always works; one to shoot while it can be hurt.
pub proof fn buttons_work(gate: Gate, entities: Seq<Entity>)
    ensures
        !gate.shoot ==> live(gate, entities),
        gate.shoot ==> (live(gate, entities) <==> entities[gate.activator as int].v.takedamage != TakeDamage::No),
{
}

/// A route crosses a gate where one of its legs does.
pub proof fn routes_cross_the_gates_of_their_legs(graph: NavGraph, route: Seq<u32>, gi: usize, i: int)
    requires
        0 <= i < route.len(),
    ensures
        graph.links@[route[i] as int].gate == Some(gi) ==> crosses(graph, route, gi),
        crosses(graph, route, gi) ==> exists|k: int|
            0 <= k < route.len() && (#[trigger] graph.links@[route[k] as int]).gate == Some(gi),
{
    assert(graph.leg(route, i) == graph.links@[route[i] as int]);
    if crosses(graph, route, gi) {
        let k = choose|k: int| 0 <= k < route.len() && #[trigger] graph.leg(route, k).gate == Some(gi);
        assert(graph.links@[route[k] as int].gate == Some(gi));
    }
}

/// Of equally near sides the west one is taken, then the east one, then the south one.
pub proof fn ties_go_west(x: int, y: int, lo: [i32; 2], hi: [i32; 2])
    requires
        lo@[0] - 40_000 <= x <= hi@[0] + 40_000,
        lo@[1] - 40_000 <= y <= hi@[1] + 40_000,
    ensures
        ({
            let (sx, sy) = waiting_spot(x, y, lo, hi);
            let w = x - lo@[0];
            let e = hi@[0] - x;
            let s = y - lo@[1];
            let n = hi@[1] - y;
            &&& w <= e && w <= s && w <= n ==> (sx, sy) == (lo@[0] - 40_000, y)
            &&& e < w && e <= s && e <= n ==> (sx, sy) == (hi@[0] + 40_000, y)
            &&& s < w && s < e && s <= n ==> (sx, sy) == (x, lo@[1] - 40_000)
            &&& n < w && n < e && n < s ==> (sx, sy) == (x, hi@[1] + 40_000)
        }),
{
}

} // verus!
