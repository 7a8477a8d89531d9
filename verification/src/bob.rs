//! Bobbing brushes. A brush swings along an axis: in the first half of a swing its speed ramps up, in
//! the second it decays, and each swing goes against the one before, so that two undo each other.
//!
//! Times are milliseconds. Speeds and ramps are millionths of a unit per second, the offset from
//! where the brush was spawned ten-millionths of a unit, factors thousandths.
use crate::defs::{Bits, FuncBobFlags, MoveType, Solid};
use crate::entity::{EntId, Entity, Think};
use crate::game::{drawn, xorshift, GameState};
use crate::abi::EntVars;
use crate::num::{after, bounded};
use vstd::prelude::*;

verus! {

/// Time between two moves of a brush.
pub const TICK: i64 = 100;

/// The largest speed that can be written down, either way.
pub const TOP_SPEED: i64 = 0x7fff_ffff_ffff_ffff;

/// The furthest offset from which any speed still leads to one that can be written down.
pub const FAR_OFF: i128 = 0x7fff_ffff_ffff_ffff_ffff_ffff_ffff_ffff - 0x7fff_ffff_ffff_ffff;

/// How a brush bobs, and where it is in its swing.
#[derive(Clone, Copy, PartialEq, Eq, Debug, Structural)]
pub struct BobState {
    /// The ramp a swing starts with, and how long a swing takes.
    pub height: i64,
    pub count: i64,
    /// What the ramp is multiplied with in the first half, and the speed in the second.
    pub waitmin: i32,
    pub waitmin2: i32,
    pub offset: i128,
    pub vel: i64,
    pub cycle_t: i64,
    pub t_length: i64,
}

impl BobState {
    pub open spec fn wf(self) -> bool {
        &&& 0 < self.height
        &&& 1_000 <= self.count
        &&& self.waitmin > 0 && self.waitmin2 > 0
        &&& 0 <= self.cycle_t <= self.count
        &&& self.t_length != 0
        &&& -TOP_SPEED <= self.t_length <= TOP_SPEED
        &&& -TOP_SPEED <= self.vel <= TOP_SPEED
    }
}

/// A speed held to what can be written down.
pub open spec fn held(x: int) -> int {
    if x > TOP_SPEED {
        TOP_SPEED as int
    } else if x < -TOP_SPEED {
        -TOP_SPEED
    } else {
        x
    }
}

fn hold(x: i128) -> (r: i64)
    ensures
        r == held(x as int),
        -TOP_SPEED <= r <= TOP_SPEED,
{
    if x > TOP_SPEED as i128 {
        TOP_SPEED
    } else if x < -(TOP_SPEED as i128) {
        -TOP_SPEED
    } else {
        x as i64
    }
}

/// A ramp times a factor, rounded away from zero so that it keeps its direction.
pub open spec fn ramped(x: int, factor: int) -> int {
    if x >= 0 {
        held((x * factor + 999) / 1000)
    } else {
        -held(((-x) * factor + 999) / 1000)
    }
}

/// A speed times a factor, rounded toward zero.
pub open spec fn slowed(x: int, factor: int) -> int {
    if x >= 0 {
        held((x * factor) / 1000)
    } else {
        -held(((-x) * factor) / 1000)
    }
}

fn size(x: i64) -> (r: i128)
    requires
        -TOP_SPEED <= x <= TOP_SPEED,
    ensures
        r == if x >= 0 {
            x as int
        } else {
            -x
        },
        0 <= r <= TOP_SPEED,
{
    if x >= 0 {
        x as i128
    } else {
        -(x as i128)
    }
}

fn times(a: i128, factor: i32) -> (r: i128)
    requires
        0 <= a <= TOP_SPEED,
        factor > 0,
    ensures
        r == a * factor,
        0 <= r <= 0x8000_0000 * TOP_SPEED,
        a > 0 ==> r > 0,
{
    assert(0 <= a * factor <= 0x8000_0000 * 0x7fff_ffff_ffff_ffff) by (nonlinear_arith)
        requires
            0 <= a <= 0x7fff_ffff_ffff_ffff,
            0 < factor <= 0x7fff_ffff,
    ;
    assert(a > 0 ==> a * factor > 0) by (nonlinear_arith)
        requires
            factor > 0,
    ;
    a * factor as i128
}

fn ramp(x: i64, factor: i32) -> (r: i64)
    requires
        -TOP_SPEED <= x <= TOP_SPEED,
        x != 0,
        factor > 0,
    ensures
        r == ramped(x as int, factor as int),
        -TOP_SPEED <= r <= TOP_SPEED,
        (r > 0) == (x > 0),
        r != 0,
{
    let grown: i128 = (times(size(x), factor) + 999) / 1000;
    let r: i64 = hold(grown);
    if x >= 0 {
        r
    } else {
        -r
    }
}

fn slow(x: i64, factor: i32) -> (r: i64)
    requires
        -TOP_SPEED <= x <= TOP_SPEED,
        factor > 0,
    ensures
        r == slowed(x as int, factor as int),
        -TOP_SPEED <= r <= TOP_SPEED,
{
    let r: i64 = hold(times(size(x), factor) / 1000);
    if x >= 0 {
        r
    } else {
        -r
    }
}

/// Whether the next move starts a new swing.
pub open spec fn turns(b: BobState) -> bool {
    b.cycle_t + TICK >= b.count
}

/// The ramp of a new swing: against the last one.
pub open spec fn turned(b: BobState) -> int {
    if b.t_length >= 0 {
        -b.height
    } else {
        b.height as int
    }
}

/// A brush one move later.
pub open spec fn bobbed(b: BobState) -> BobState {
    let cycle = if turns(b) {
        0int
    } else {
        b.cycle_t + TICK
    };
    let ramp = if turns(b) {
        turned(b)
    } else {
        b.t_length as int
    };
    let vel = if turns(b) {
        0int
    } else {
        b.vel as int
    };
    let first_half = 2 * cycle < b.count;
    let next_ramp = if first_half {
        ramped(ramp, b.waitmin as int)
    } else {
        ramp
    };
    let next_vel = if first_half {
        held(vel + next_ramp)
    } else {
        slowed(vel, b.waitmin2 as int)
    };
    BobState {
        cycle_t: cycle as i64,
        t_length: next_ramp as i64,
        vel: next_vel as i64,
        offset: (b.offset + next_vel) as i128,
        ..b
    }
}

/// Move a brush on.
pub fn func_bob_think(b: &mut BobState)
    requires
        old(b).wf(),
        -FAR_OFF <= old(b).offset <= FAR_OFF,
    ensures
        final(b).wf(),
        *final(b) == bobbed(*old(b)),
        -TOP_SPEED <= final(b).offset - old(b).offset <= TOP_SPEED,
{
    let before: i128 = b.cycle_t as i128 + TICK as i128;
    let mut cycle: i64 = 0;
    let mut t_length: i64 = b.t_length;
    let mut vel: i64 = b.vel;
    if before >= b.count as i128 {
        t_length = if t_length >= 0 {
            -b.height
        } else {
            b.height
        };
        vel = 0;
    } else {
        cycle = before as i64;
    }
    if 2 * (cycle as i128) < b.count as i128 {
        t_length = ramp(t_length, b.waitmin);
        vel = hold(vel as i128 + t_length as i128);
    } else {
        vel = slow(vel, b.waitmin2);
    }
    b.cycle_t = cycle;
    b.t_length = t_length;
    b.vel = vel;
    b.offset = b.offset + vel as i128;
}

/// When a brush thinks next.
pub fn next_bob(v: &mut EntVars, now: u32)
    ensures
        *final(v) == (EntVars { ltime: now, nextthink: (now + TICK) as i64, ..*old(v) }),
{
    v.ltime = now;
    v.nextthink = now as i64 + TICK;
}

/// A key of the map, or its default where it is not positive.
pub open spec fn positive_or(x: int, default: int) -> int {
    if x <= 0 {
        default
    } else {
        x
    }
}

/// How a brush starts out: at rest, about to swing.
pub open spec fn bob_start(height: i64, count: i64, waitmin: i32, waitmin2: i32) -> BobState {
    let h = positive_or(height as int, 8_000_000) as i64;
    let c = if count < 1_000 {
        2_000
    } else {
        count
    };
    BobState {
        height: h,
        count: c,
        waitmin: positive_or(waitmin as int, 1_000) as i32,
        waitmin2: positive_or(waitmin2 as int, 750) as i32,
        offset: 0,
        vel: 0,
        cycle_t: c,
        t_length: h,
    }
}

/// The stagger of a first move: a negative delay stands for the sum of three drawn seconds.
pub open spec fn stagger(delay: i64, rng: u32) -> int {
    if delay < 0 {
        let second = xorshift(rng);
        (drawn(rng) + drawn(second) + drawn(xorshift(second))) * 1_000 / 0x100_0000
    } else {
        delay as int
    }
}

/// The generator once a first move was staggered.
pub open spec fn stirred(delay: i64, rng: u32) -> u32 {
    if delay < 0 {
        xorshift(xorshift(xorshift(rng)))
    } else {
        rng
    }
}

/// An entity that bobs, first after `wait`.
pub open spec fn bobbing(e: Entity, now: u32, wait: int) -> Entity {
    Entity {
        think: Think::FuncBobThink,
        v: EntVars {
            movetype: MoveType::Push,
            solid: Solid::Bsp,
            ltime: now,
            nextthink: bounded(now + TICK + wait),
            ..e.v
        },
        ..e
    }
}

/// Whether a brush is not solid: such a one is not supported, and not kept.
pub open spec fn is_ghost(flags: i32) -> bool {
    flags & FuncBobFlags::NONSOLID != 0 || flags & FuncBobFlags::MG_NONSOLID != 0
}

impl GameState {
    /// Stagger a brush.
    pub fn bob_delay(&mut self, delay: i64) -> (r: i64)
        ensures
            r == stagger(delay, old(self).rng),
            *final(self) == (GameState { rng: stirred(delay, old(self).rng), ..*old(self) }),
    {
        if delay >= 0 {
            return delay;
        }
        let sum: i64 = self.random() as i64 + self.random() as i64 + self.random() as i64;
        sum * 1_000 / 0x100_0000
    }

    /// Make a brush bob. One that is not solid is not kept. `delay` staggers the first move.
    pub fn spawn_func_bob(
        &mut self,
        e: EntId,
        height: i64,
        count: i64,
        waitmin: i32,
        waitmin2: i32,
        now: u32,
        delay: i64,
    ) -> (r: Option<BobState>)
        requires
            old(self).holds(e),
        ensures
            if is_ghost(old(self).at(e).v.spawnflags) {
                r is None && *final(self) == *old(self)
            } else {
                &&& r == Some(bob_start(height, count, waitmin, waitmin2))
                &&& bob_start(height, count, waitmin, waitmin2).wf()
                &&& final(self).entities@ == old(self).entities@.update(
                    e.0 as int,
                    bobbing(old(self).at(e), now, stagger(delay, old(self).rng)),
                )
                &&& *final(self) == (GameState {
                    entities: final(self).entities,
                    rng: stirred(delay, old(self).rng),
                    ..*old(self)
                })
            },
    {
        let flags: i32 = self.entities.slots[e.0 as usize].v.spawnflags;
        if flags.has(FuncBobFlags::NONSOLID) || flags.has(FuncBobFlags::MG_NONSOLID) {
            return None;
        }
        let wait: i64 = self.bob_delay(delay);
        set_bobbing(&mut self.entities.slots[e.0 as usize], now, wait);
        assert(self.entities@ =~= old(self).entities@.update(
            e.0 as int,
            bobbing(old(self).at(e), now, stagger(delay, old(self).rng)),
        ));
        Some(start_bob(height, count, waitmin, waitmin2))
    }
}

fn set_bobbing(e: &mut Entity, now: u32, wait: i64)
    ensures
        *final(e) == bobbing(*old(e), now, wait as int),
{
    let mut v = e.v;
    v.movetype = MoveType::Push;
    v.solid = Solid::Bsp;
    v.ltime = now;
    v.nextthink = after(now as i64 + TICK, wait);
    e.v = v;
    e.think = Think::FuncBobThink;
}

fn start_bob(height: i64, count: i64, waitmin: i32, waitmin2: i32) -> (r: BobState)
    ensures
        r == bob_start(height, count, waitmin, waitmin2),
        r.wf(),
{
    let height: i64 = if height <= 0 {
        8_000_000
    } else {
        height
    };
    let count: i64 = if count < 1_000 {
        2_000
    } else {
        count
    };
    let waitmin: i32 = if waitmin <= 0 {
        1_000
    } else {
        waitmin
    };
    let waitmin2: i32 = if waitmin2 <= 0 {
        750
    } else {
        waitmin2
    };
    BobState { height, count, waitmin, waitmin2, offset: 0, vel: 0, cycle_t: count, t_length: height }
}

// --- no drift ---
/// A brush after `n` moves.
pub open spec fn bob_run(b: BobState, n: nat) -> BobState
    decreases n,
{
    if n == 0 {
        b
    } else {
        bobbed(bob_run(b, (n - 1) as nat))
    }
}

/// Moves of one swing.
pub open spec fn swing(b: BobState) -> nat {
    ((b.count + TICK - 1) / TICK as int) as nat
}

/// How far a brush is kept from the edge of what an offset holds.
pub open spec fn in_reach(b: BobState, n: nat) -> bool {
    -FAR_OFF + n * TOP_SPEED <= b.offset <= FAR_OFF - n * TOP_SPEED
}

/// Two brushes in opposite swings.
spec fn mirrored(a: BobState, b: BobState) -> bool {
    &&& a.height == b.height && a.count == b.count && a.waitmin == b.waitmin && a.waitmin2 == b.waitmin2
    &&& a.cycle_t == b.cycle_t
    &&& a.vel == -b.vel && a.t_length == -b.t_length
}

proof fn lemma_bobbed(b: BobState)
    requires
        b.wf(),
        -FAR_OFF <= b.offset <= FAR_OFF,
    ensures
        bobbed(b).wf(),
        bobbed(b).offset - b.offset == bobbed(b).vel,
        (bobbed(b).t_length > 0) == if turns(b) {
            b.t_length < 0
        } else {
            b.t_length > 0
        },
{
    let ramp = if turns(b) {
        turned(b)
    } else {
        b.t_length as int
    };
    let vel = if turns(b) {
        0int
    } else {
        b.vel as int
    };
    lemma_ramped(ramp, b.waitmin as int);
    lemma_slowed(vel, b.waitmin2 as int);
}

proof fn lemma_ramped(x: int, factor: int)
    requires
        -TOP_SPEED <= x <= TOP_SPEED,
        x != 0,
        factor > 0,
    ensures
        -TOP_SPEED <= ramped(x, factor) <= TOP_SPEED,
        ramped(x, factor) != 0,
        (ramped(x, factor) > 0) == (x > 0),
        ramped(-x, factor) == -ramped(x, factor),
{
    let a = if x >= 0 {
        x
    } else {
        -x
    };
    assert(a * factor > 0) by (nonlinear_arith)
        requires
            a > 0,
            factor > 0,
    ;
    assert((a * factor + 999) / 1000 >= 1);
}

proof fn lemma_slowed(x: int, factor: int)
    requires
        -TOP_SPEED <= x <= TOP_SPEED,
        factor > 0,
    ensures
        -TOP_SPEED <= slowed(x, factor) <= TOP_SPEED,
        slowed(-x, factor) == -slowed(x, factor),
{
    let a = if x >= 0 {
        x
    } else {
        -x
    };
    assert(a * factor >= 0) by (nonlinear_arith)
        requires
            a >= 0,
            factor > 0,
    ;
    assert((a * factor) / 1000 >= 0);
    if x == 0 {
        assert(0 * factor == 0) by (nonlinear_arith);
    }
}

proof fn lemma_mirror_step(a: BobState, b: BobState)
    requires
        a.wf(),
        b.wf(),
        -FAR_OFF <= a.offset <= FAR_OFF,
        -FAR_OFF <= b.offset <= FAR_OFF,
        mirrored(a, b) || (turns(a) && turns(b) && a.height == b.height && a.count == b.count && a.waitmin == b.waitmin
            && a.waitmin2 == b.waitmin2 && (a.t_length > 0) == (b.t_length < 0)),
    ensures
        mirrored(bobbed(a), bobbed(b)),
        bobbed(a).offset - a.offset == -(bobbed(b).offset - b.offset),
{
    lemma_bobbed(a);
    lemma_bobbed(b);
    let ramp = if turns(a) {
        turned(a)
    } else {
        a.t_length as int
    };
    let vel = if turns(a) {
        0int
    } else {
        a.vel as int
    };
    lemma_ramped(ramp, a.waitmin as int);
    lemma_slowed(vel, a.waitmin2 as int);
}

/// Within a swing: where its clock and its direction are after `k` moves.
proof fn lemma_in_swing(b: BobState, k: nat)
    requires
        b.wf(),
        turns(b),
        1 <= k <= swing(b),
        in_reach(b, k),
    ensures
        bob_run(b, k).wf(),
        bob_run(b, k).cycle_t == TICK * (k - 1),
        (bob_run(b, k).t_length > 0) == (b.t_length < 0),
        bob_run(b, k).height == b.height && bob_run(b, k).count == b.count && bob_run(b, k).waitmin == b.waitmin
            && bob_run(b, k).waitmin2 == b.waitmin2,
        -(k * TOP_SPEED) <= bob_run(b, k).offset - b.offset <= k * TOP_SPEED,
    decreases k,
{
    if k == 1 {
        assert(bob_run(b, 0) == b);
        assert(bob_run(b, 1) == bobbed(bob_run(b, 0)));
        lemma_bobbed(b);
    } else {
        lemma_in_swing(b, (k - 1) as nat);
        let p = bob_run(b, (k - 1) as nat);
        assert(TICK * (k - 1) < b.count);
        assert(!turns(p));
        lemma_bobbed(p);
    }
}

proof fn lemma_swings_mirror(a: BobState, b: BobState, k: nat)
    requires
        a.wf(),
        b.wf(),
        turns(a),
        turns(b),
        a.height == b.height && a.count == b.count && a.waitmin == b.waitmin && a.waitmin2 == b.waitmin2,
        (a.t_length > 0) == (b.t_length < 0),
        1 <= k <= swing(a),
        in_reach(a, k),
        in_reach(b, k),
    ensures
        mirrored(bob_run(a, k), bob_run(b, k)),
        bob_run(a, k).offset - a.offset == -(bob_run(b, k).offset - b.offset),
    decreases k,
{
    if k == 1 {
        assert(bob_run(a, 0) == a && bob_run(b, 0) == b);
        assert(bob_run(a, 1) == bobbed(a) && bob_run(b, 1) == bobbed(b));
        lemma_mirror_step(a, b);
    } else {
        lemma_swings_mirror(a, b, (k - 1) as nat);
        lemma_in_swing(a, (k - 1) as nat);
        lemma_in_swing(b, (k - 1) as nat);
        lemma_mirror_step(bob_run(a, (k - 1) as nat), bob_run(b, (k - 1) as nat));
    }
}

/// Every swing takes the same number of moves: from one turn, the next comes after exactly that many.
pub proof fn swings_are_equal(b: BobState, k: nat)
    requires
        b.wf(),
        turns(b),
        1 <= k <= swing(b),
        in_reach(b, k),
    ensures
        turns(bob_run(b, k)) == (k == swing(b)),
{
    lemma_in_swing(b, k);
}

proof fn lemma_run_adds(b: BobState, n: nat, m: nat)
    ensures
        bob_run(bob_run(b, n), m) == bob_run(b, n + m),
    decreases m,
{
    if m > 0 {
        lemma_run_adds(b, n, (m - 1) as nat);
    }
}

/// A brush does not drift: after two swings it is back where it was.
pub proof fn two_swings_cancel(b: BobState)
    requires
        b.wf(),
        turns(b),
        in_reach(b, 2 * swing(b)),
    ensures
        bob_run(b, 2 * swing(b)).offset == b.offset,
        turns(bob_run(b, 2 * swing(b))),
{
    let n = swing(b);
    assert(n >= 1);
    assert(in_reach(b, n));
    lemma_in_swing(b, n);
    let mid = bob_run(b, n);
    assert(in_reach(mid, n));
    assert(swing(mid) == n);
    assert(turns(mid));
    lemma_swings_mirror(b, mid, n);
    lemma_in_swing(mid, n);
    lemma_run_adds(b, n, n);
}

// --- what a swing promises ---
/// A platform starts still, about to swing: eight thousand units of ramp and two seconds where nothing
/// else is asked for, with its ramp kept as it is and its speed let out by a quarter each tick.
pub proof fn swings_start_still(height: i64, count: i64, waitmin: i32, waitmin2: i32)
    ensures
        ({
            let b = bob_start(height, count, waitmin, waitmin2);
            &&& b.offset == 0 && b.vel == 0 && b.cycle_t == b.count && b.t_length == b.height
            &&& height > 0 ==> b.height == height
            &&& height <= 0 ==> b.height == 8_000_000
            &&& count >= 1_000 ==> b.count == count
            &&& count < 1_000 ==> b.count == 2_000
            &&& waitmin > 0 ==> b.waitmin == waitmin
            &&& waitmin <= 0 ==> b.waitmin == 1_000
            &&& waitmin2 > 0 ==> b.waitmin2 == waitmin2
            &&& waitmin2 <= 0 ==> b.waitmin2 == 750
        }),
{
}

/// A tick is a tenth of a second. Where the swing's time is over the platform stops and turns, with a
/// full ramp the other way; else it goes on.
pub proof fn swings_turn_when_their_time_is_over(b: BobState)
    requires
        b.wf(),
        -1_000_000 <= b.vel <= 1_000_000,
        -1_000_000 <= b.t_length <= 1_000_000,
        0 < b.height <= 1_000_000_000,
        b.count <= 1_000_000,
        b.waitmin == 1_000,
        b.waitmin2 <= 1_000,
        -1_000_000_000_000 <= b.offset <= 1_000_000_000_000,
    ensures
        ({
            let n = bobbed(b);
            let over = b.cycle_t + 100 >= b.count;
            let first = 2 * (b.cycle_t + 100) < b.count;
            &&& n.height == b.height && n.count == b.count && n.waitmin == b.waitmin && n.waitmin2 == b.waitmin2
            &&& n.offset == b.offset + n.vel
            &&& over ==> n.cycle_t == 0
            &&& over && b.t_length >= 0 ==> n.t_length == -b.height && n.vel == -b.height
            &&& over && b.t_length < 0 ==> n.t_length == b.height && n.vel == b.height
            &&& !over ==> n.cycle_t == b.cycle_t + 100 && n.t_length == b.t_length
            &&& !over && first ==> n.vel == b.vel + b.t_length
            &&& !over && !first && b.vel >= 0 ==> n.vel == b.vel * b.waitmin2 / 1000
            &&& !over && !first && b.vel < 0 ==> n.vel == -((-b.vel) * b.waitmin2 / 1000)
        }),
{
    let (v, w) = (b.vel as int, b.waitmin2 as int);
    assert(v >= 0 ==> 0 <= v * w <= 1_000_000_000) by (nonlinear_arith)
        requires
            v <= 1_000_000,
            0 < w <= 1_000,
    ;
    assert(v < 0 ==> 0 <= (-v) * w <= 1_000_000_000) by (nonlinear_arith)
        requires
            -1_000_000 <= v,
            0 < w <= 1_000,
    ;
    assert(b.height as int * 1_000 + 999 >= 0);
    let (h, t) = (b.height as int, b.t_length as int);
    assert((h * 1_000 + 999) / 1000 == h);
    assert(t >= 0 ==> (t * 1_000 + 999) / 1000 == t);
    assert(t < 0 ==> ((-t) * 1_000 + 999) / 1000 == -t);
}

/// A platform with a delay waits for it; one with a negative delay waits for up to three seconds, drawn
/// three times.
pub proof fn platforms_start_staggered(delay: i64, rng: u32)
    ensures
        delay >= 0 ==> stagger(delay, rng) == delay && stirred(delay, rng) == rng,
        delay < 0 ==> 0 <= stagger(delay, rng) < 3_000,
        delay < 0 ==> stirred(delay, rng) == xorshift(xorshift(xorshift(rng))),
{
    crate::game::draws_have_twenty_four_bits(rng);
    crate::game::draws_have_twenty_four_bits(xorshift(rng));
    crate::game::draws_have_twenty_four_bits(xorshift(xorshift(rng)));
}

/// A platform pushes and is solid, and thinks a tick after its delay.
pub proof fn platforms_push(e: Entity, now: u32, wait: int)
    requires
        0 <= wait <= 1_000_000,
    ensures
        ({
            let p = bobbing(e, now, wait);
            &&& p.think == Think::FuncBobThink
            &&& p.v.movetype == MoveType::Push && p.v.solid == Solid::Bsp && p.v.ltime == now
            &&& p.v.nextthink == now + 100 + wait
        }),
{
}

/// A ramp grows by its factor, rounded away from nothing; a speed is let out by its factor, rounded
/// toward nothing; either is the same both ways.
pub proof fn ramps_grow_and_speeds_fade(x: int, factor: int)
    requires
        0 <= x <= 1_000_000_000,
        0 < factor <= 1_000_000,
    ensures
        1000 * ramped(x, factor) >= x * factor > 1000 * ramped(x, factor) - 1000,
        1000 * slowed(x, factor) <= x * factor < 1000 * slowed(x, factor) + 1000,
        ramped(-x, factor) == -ramped(x, factor),
        slowed(-x, factor) == -slowed(x, factor),
{
    let p = x * factor;
    assert(0 <= p <= 1_000_000_000_000_000) by (nonlinear_arith)
        requires
            p == x * factor,
            0 <= x <= 1_000_000_000,
            0 < factor <= 1_000_000,
    ;
    assert((-(-x)) * factor == p);
    if x == 0 {
        assert(p == 0) by (nonlinear_arith)
            requires
                p == x * factor,
                x == 0,
        ;
    }
}

/// A brush that is not solid is no platform.
pub proof fn ghosts_do_not_swing(flags: i32)
    ensures
        is_ghost(flags) <==> flags & 1 != 0 || flags & 4 != 0,
{
    assert(1i32 << 2 == 4) by (bit_vector);
}

} // verus!
