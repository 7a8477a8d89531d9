//! A bot's frame: from what it senses to the legs it follows, the watchdogs that notice a failing
//! leg, and the buttons it presses.
//!
//! Positions and distances are thousandths of a unit, times milliseconds of server time.
use crate::bot::bhop::{Phase, RUNWAY_ENGAGE};
use crate::bot::hook::{HookDrive, HookLook};
use crate::bot::nav::{
    air_commit_decision, air_fate, first_shut, improved, improves, in_footprint, leg_struck, penalize_leg,
    penalize_link, progress_stalled, route_blocking_gate, stalled, struck, within, AirRelease, LinkKind, NavGraph,
    AIR_COMMIT_GRACE, ARRIVE_RADIUS, GATE_AVOID_TIME, GATE_GIVEUP_TIME, GATE_PROGRESS, PLAT_ENGAGE, PLAT_LOOKAHEAD, PLAT_RISE_TOL,
    PLAT_WAIT_TIMEOUT, PROGRESS_EPS, REPATH_INTERVAL, SPEED_JUMP_MAX, STUCK_TIME,
};
use crate::bot::state::{BotState, GrenadePhase, HookPhase, RjPhase, FAR};
use crate::abi::EntVars;
use crate::defs::{Bits, DeadFlag, Flags, Items, Weapon, BUTTON_ATTACK, BUTTON_JUMP};
use crate::entity::CombatState;
use crate::num::{after, bounded, since};
use vstd::prelude::*;

verus! {

/// Impulses that select the shotgun, the grapple and the rocket launcher.
pub const IMPULSE_SHOTGUN: i32 = 2;

pub const IMPULSE_GRAPPLE: i32 = 22;

pub const IMPULSE_ROCKET: i32 = 7;

/// A throw and a launch wait until the view is off by less than this, in thousandths of a degree.
pub const HOOK_AIM_TOL: u32 = 2000;

pub const RJ_AIM_TOL: u32 = 2000;

/// How long after losing sight the eyes may still follow the enemy, and combat still vetoes hops.
pub const LOOK_LOS_GRACE: i64 = 2000;

pub const BHOP_COMBAT_GRACE: i64 = 500;

/// A displacement in one frame beyond this is a teleport.
pub const TELEPORT_DIST: u32 = 200000;

/// A target that slipped behind the velocity still counts as reached within this.
pub const PASSED_RADIUS: u32 = 64000;

/// Moving less than this over the stuck time is standing still.
pub const STUCK_MOVE: u32 = 16000;

/// A bot faster than this has a heading to look along.
pub const HEADING_SPEED: u32 = 20000;

/// How near its button an errand counts as there, and the steepest pitch that can be aimed, in
/// thousandths of a degree.
pub const BUTTON_REACH: u32 = 40000;

pub const STEEPEST_PITCH: i32 = -68000;

/// How near the takeoff edge of a speed jump is at it, and how far a target must lie above for a
/// jump to be falling short.
pub const EDGE_REACH: u32 = 48000;

pub const SHORTFALL: i32 = 20000;

/// Stop this short of a human who is being followed.
pub const POLITE_DIST: u32 = 64000;

/// Nearer than this, a point is too close to look at; nearer than that, to walk toward.
pub const LOOK_MIN: u32 = 48000;

pub const STEER_MIN: u32 = 8000;

/// Nearer than this, a traversal's target gives no direction to look in.
pub const AIM_MIN: u32 = 1000;

/// What the start of a frame calls for.
#[derive(Clone, Copy, PartialEq, Eq, Debug, Structural)]
pub enum FrameStart {
    /// Connected but never spawned: spawn now.
    Spawn,
    /// Dead: press or release attack to respawn.
    Respawn { attack: bool },
    /// Alive.
    Drive,
}

/// What a bot knows of its own body when its frame starts.
#[derive(Clone, Copy, PartialEq, Eq, Debug, Structural)]
pub struct Sense {
    /// Length of the move to send, in milliseconds.
    pub msec: i32,
    pub alive: bool,
    pub on_ground: bool,
    pub air_jumped: bool,
    pub has_grapple: bool,
    pub has_rl: bool,
    pub quad: bool,
}

pub open spec fn sensed(v: EntVars, c: CombatState, now: i64, frame: i32) -> Sense {
    Sense {
        msec: if frame < 1 {
            1
        } else if frame > 100 {
            100
        } else {
            frame
        },
        alive: v.health > 0 && v.deadflag == DeadFlag::No,
        on_ground: v.flags & Flags::ONGROUND != 0,
        air_jumped: c.air_jumped,
        has_grapple: v.items & Items::GRAPPLE != 0,
        has_rl: v.items & Items::ROCKET_LAUNCHER != 0,
        quad: c.super_damage_finished > now,
    }
}

/// Look at the own body; `frame` is the length of the server frame.
pub fn sense(v: &EntVars, c: &CombatState, now: i64, frame: i32) -> (r: Sense)
    ensures
        r == sensed(*v, *c, now, frame),
{
    let msec: i32 = if frame < 1 {
        1
    } else if frame > 100 {
        100
    } else {
        frame
    };
    Sense {
        msec,
        alive: v.health > 0 && v.deadflag == DeadFlag::No,
        on_ground: v.flags.has(Flags::ONGROUND),
        air_jumped: c.air_jumped,
        has_grapple: v.items.has(Items::GRAPPLE),
        has_rl: v.items.has(Items::ROCKET_LAUNCHER),
        quad: c.super_damage_finished > now,
    }
}

/// The traversals a bot is committed to when its frame starts; each freezes the route.
#[derive(Clone, Copy, PartialEq, Eq, Debug, Structural)]
pub struct Commitment {
    pub hooking: bool,
    pub on_sj: bool,
    pub on_rj: bool,
    pub on_air: bool,
}

impl Commitment {
    /// Mid-hook, on a speed jump or on a rocket jump.
    pub open spec fn riding(self) -> bool {
        self.hooking || self.on_sj || self.on_rj
    }

    /// As above, or in the air on a plain jump.
    pub open spec fn frozen(self) -> bool {
        self.riding() || self.on_air
    }

    pub fn is_riding(&self) -> (r: bool)
        ensures
            r == self.riding(),
    {
        self.hooking || self.on_sj || self.on_rj
    }

    pub fn is_frozen(&self) -> (r: bool)
        ensures
            r == self.frozen(),
    {
        self.is_riding() || self.on_air
    }
}

pub open spec fn committed(b: BotState) -> Commitment {
    Commitment {
        hooking: b.hook_phase != HookPhase::Idle,
        on_sj: b.sj_leg is Some,
        on_rj: b.rj_phase != RjPhase::Idle,
        on_air: b.air_leg is Some,
    }
}

/// The state with its route dropped and a new plan due at once.
pub open spec fn rerouted(b: BotState, after: BotState, now: i64) -> bool {
    after == (BotState { route: after.route, repath_time: now, ..b }) && after.route@.len() == 0
}

/// Whether a displacement is more than running or falling makes in a frame.
pub open spec fn flung(displaced: Option<u32>) -> bool {
    displaced matches Some(d) && d > TELEPORT_DIST
}

fn drop_route(bot: &mut BotState, now: i64)
    ensures
        rerouted(*old(bot), *final(bot), now),
{
    bot.route.clear();
    bot.repath_time = now;
}

impl BotState {
    pub fn commitment(&self) -> (c: Commitment)
        ensures
            c == committed(*self),
    {
        Commitment {
            hooking: self.hook_phase != HookPhase::Idle,
            on_sj: self.sj_leg.is_some(),
            on_rj: self.rj_phase != RjPhase::Idle,
            on_air: self.air_leg.is_some(),
        }
    }

    /// Start a frame: flip the pulse, and where the bot is dead let go of what it held.
    pub fn begin_frame(&mut self, alive: bool, corpse: bool) -> (r: FrameStart)
        ensures
            r == frame_start(*old(self), alive, corpse),
            *final(self) == (BotState {
                pulse: !old(self).pulse,
                hold_item: if alive {
                    old(self).hold_item
                } else {
                    0
                },
                hold_for: if alive || old(self).hold_item == 0 {
                    old(self).hold_for
                } else {
                    0
                },
                hold_until: if alive || old(self).hold_item == 0 {
                    old(self).hold_until
                } else {
                    0
                },
                air_leg: if alive {
                    old(self).air_leg
                } else {
                    None
                },
                ..*old(self)
            }),
            r == if alive {
                FrameStart::Drive
            } else if corpse {
                FrameStart::Respawn { attack: !old(self).pulse }
            } else {
                FrameStart::Spawn
            },
    {
        self.pulse = !self.pulse;
        if alive {
            return FrameStart::Drive;
        }
        if self.hold_item != 0 {
            self.hold_item = 0;
            self.hold_for = 0;
            self.hold_until = 0;
        }
        self.air_leg = None;
        if corpse {
            FrameStart::Respawn { attack: self.pulse }
        } else {
            FrameStart::Spawn
        }
    }

    /// A bot that was displaced in an instant must plan anew, unless it rides something fast. The
    /// displacement is since the last frame, where there was one.
    pub fn note_displacement(&mut self, c: Commitment, displaced: Option<u32>, now: i64)
        ensures
            !c.riding() && flung(displaced) ==> rerouted(*old(self), *final(self), now),
            c.riding() || !flung(displaced) ==> *final(self) == *old(self),
    {
        let far: bool = match displaced {
            Some(d) => d > TELEPORT_DIST,
            None => false,
        };
        if !c.is_riding() && far {
            drop_route(self, now);
        }
    }
}

/// The cells of the bot and of its goal, where both are on the map: an item's own cell, else the
/// one nearest the target. A bot that is lost stands still.
pub fn locate(bot_cell: Option<u32>, item_cell: Option<u32>, target_cell: Option<u32>) -> (r: Option<(u32, u32)>)
    ensures
        r == located(bot_cell, item_cell, target_cell),
        r == match (bot_cell, item_cell, target_cell) {
            (Some(b), Some(item), _) => Some((b, item)),
            (Some(b), None, Some(t)) => Some((b, t)),
            _ => None,
        },
{
    match (bot_cell, item_cell, target_cell) {
        (Some(b), Some(item), _) => Some((b, item)),
        (Some(b), None, Some(t)) => Some((b, t)),
        _ => None,
    }
}

// --- gate errands ---
/// The state after an errand was given up: its gate is left alone for a while.
pub open spec fn errand_dropped(b: BotState, gi: usize, now: i64, after: BotState) -> bool {
    rerouted(
        BotState { avoid_gate: gi, avoid_gate_until: bounded(now + GATE_AVOID_TIME), gate: None, ..b },
        after,
        now,
    )
}

/// A frame of a gate errand: it ends when the door is open, is given up when the button is walled
/// off or no progress is made, and goes on otherwise.
pub open spec fn errand(b: BotState, c: Commitment, closed: Seq<bool>, reachable: bool, dist: u32, now: i64, after: BotState) -> bool {
    match b.gate {
        Some(gi) if !c.riding() => {
            if !(gi < closed.len() && closed[gi as int]) {
                rerouted(BotState { gate: None, ..b }, after, now)
            } else if !reachable {
                errand_dropped(b, gi, now, after)
            } else if improved(dist, b.gate_best_dist, GATE_PROGRESS) {
                after == (BotState { gate_best_dist: dist, gate_since: now, ..b })
            } else if now - b.gate_since > GATE_GIVEUP_TIME {
                errand_dropped(b, gi, now, after)
            } else {
                after == b
            }
        },
        _ => after == b,
    }
}

impl BotState {
    pub fn run_errand(&mut self, c: Commitment, closed: &Vec<bool>, reachable: bool, dist: u32, now: i64)
        ensures
            errand(*old(self), c, closed@, reachable, dist, now, *final(self)),
    {
        if c.is_riding() {
            return;
        }
        let gi: usize = match self.gate {
            Some(gi) => gi,
            None => return,
        };
        if !(gi < closed.len() && closed[gi]) {
            self.gate = None;
            drop_route(self, now);
        } else if !reachable {
            self.drop_errand(gi, now);
        } else if improves(dist, self.gate_best_dist, GATE_PROGRESS) {
            self.gate_best_dist = dist;
            self.gate_since = now;
        } else if since(now, self.gate_since) > GATE_GIVEUP_TIME as i128 {
            self.drop_errand(gi, now);
        }
    }

    fn drop_errand(&mut self, gi: usize, now: i64)
        ensures
            errand_dropped(*old(self), gi, now, *final(self)),
    {
        self.avoid_gate = gi;
        self.avoid_gate_until = after(now, GATE_AVOID_TIME);
        self.gate = None;
        drop_route(self, now);
    }

    /// The cell to head for: the button of the errand's gate, else the objective's.
    pub fn effective_goal(&self, graph: &NavGraph, goal_cell: u32) -> (r: u32)
        requires
            self.gate is Some ==> self.gate->0 < graph.gates@.len(),
        ensures
            r == heading_for(*self, *graph, goal_cell),
            r == match self.gate {
                Some(gi) => graph.gates@[gi as int].button_cell,
                None => goal_cell,
            },
    {
        match self.gate {
            Some(gi) => graph.gates[gi].button_cell,
            None => goal_cell,
        }
    }

    /// The shut gate that the route cannot avoid and whose button is worth a detour.
    pub fn errand_candidate(&self, c: Commitment, graph: &NavGraph, closed: &Vec<bool>, now: i64) -> (r: Option<usize>)
        requires
            graph.covers(self.route@),
        ensures
            r == errand_for(*self, c, *graph, closed@, now),
            r == if c.frozen() || self.gate is Some {
                None
            } else {
                match first_shut(*graph, self.route@, self.route_pos as int, closed@) {
                    Some(gi) if !(now < self.avoid_gate_until && gi == self.avoid_gate) => Some(gi),
                    _ => None,
                }
            },
    {
        if c.is_frozen() || self.gate.is_some() {
            return None;
        }
        match route_blocking_gate(graph, &self.route, self.route_pos, closed) {
            Some(gi) => if now < self.avoid_gate_until && gi == self.avoid_gate {
                None
            } else {
                Some(gi)
            },
            None => None,
        }
    }

    /// Set out to open gate `gi`: take the route to its button, or, where the button lies behind
    /// that gate, leave it alone for a while.
    pub fn start_errand(&mut self, gi: usize, reachable: bool, button_cell: u32, route: Vec<u32>, now: i64)
        ensures
            reachable ==> *final(self) == (BotState {
                gate: Some(gi),
                gate_since: now,
                gate_best_dist: FAR,
                route: final(self).route,
                route_bands: final(self).route_bands,
                route_pos: 0,
                goal_cell: button_cell,
                repath_time: bounded(now + REPATH_INTERVAL),
                ..*old(self)
            }) && final(self).route@ == route@ && final(self).route_bands@ == Seq::new(route@.len(), |i: int| 0u8),
            !reachable ==> *final(self) == (BotState {
                avoid_gate: gi,
                avoid_gate_until: bounded(now + GATE_AVOID_TIME),
                ..*old(self)
            }),
    {
        if !reachable {
            self.avoid_gate = gi;
            self.avoid_gate_until = after(now, GATE_AVOID_TIME);
            return;
        }
        self.gate = Some(gi);
        self.gate_since = now;
        self.gate_best_dist = FAR;
        self.route_bands = no_bands(route.len());
        self.route = route;
        self.route_pos = 0;
        self.goal_cell = button_cell;
        self.repath_time = after(now, REPATH_INTERVAL);
    }
}

fn no_bands(n: usize) -> (r: Vec<u8>)
    ensures
        r@ == Seq::new(n as nat, |i: int| 0u8),
{
    let mut out: Vec<u8> = Vec::new();
    while out.len() < n
        invariant
            out@.len() <= n,
            out@ == Seq::new(out@.len(), |i: int| 0u8),
        decreases n - out@.len(),
    {
        out.push(0);
    }
    out
}

// --- planning ---
/// A route with the speed band planned for each leg.
pub struct Banded {
    pub links: Vec<u32>,
    pub bands: Vec<u8>,
}

impl BotState {
    /// Whether a new route is due: there is none, the goal moved, or the timer ran out, and nothing
    /// freezes the current one.
    pub fn needs_route(&self, c: Commitment, goal: u32, now: i64) -> (r: bool)
        ensures
            r == wants_route(*self, c, goal, now),
            r == (!c.frozen() && (self.route@.len() == 0 || self.goal_cell != goal || now >= self.repath_time)),
    {
        !c.is_frozen() && (self.route.len() == 0 || self.goal_cell != goal || now >= self.repath_time)
    }

    /// Follow a new route. The bands stay parallel to the legs, and the progress watchdog starts
    /// over.
    pub fn adopt_route(&mut self, plan: Banded, goal: u32, now: i64)
        ensures
            final(self).route@ == plan.links@,
            final(self).route_bands@ == if plan.bands@.len() == plan.links@.len() {
                plan.bands@
            } else {
                Seq::new(plan.links@.len(), |i: int| 0u8)
            },
            final(self).route_bands@.len() == final(self).route@.len(),
            *final(self) == (BotState {
                route: final(self).route,
                route_bands: final(self).route_bands,
                route_pos: 0,
                goal_cell: goal,
                repath_time: bounded(now + REPATH_INTERVAL),
                progress_best: FAR,
                progress_since: now,
                ..*old(self)
            }),
    {
        let bands = if plan.bands.len() == plan.links.len() {
            plan.bands
        } else {
            no_bands(plan.links.len())
        };
        self.route = plan.links;
        self.route_bands = bands;
        self.route_pos = 0;
        self.goal_cell = goal;
        self.repath_time = after(now, REPATH_INTERVAL);
        self.progress_best = FAR;
        self.progress_since = now;
    }

    /// Past the end of the route without being at the goal: plan again.
    pub fn relocalize(&mut self, c: Commitment, bot_cell: u32, goal: u32, now: i64)
        ensures
            *final(self) == (BotState {
                repath_time: if !c.frozen() && old(self).route_pos >= old(self).route@.len() && bot_cell != goal && now
                    >= old(self).repath_time {
                    now
                } else {
                    old(self).repath_time
                },
                ..*old(self)
            }),
    {
        if !c.is_frozen() && self.route_pos >= self.route.len() && bot_cell != goal && now >= self.repath_time {
            self.repath_time = now;
        }
    }
}

/// The route to the goal itself. With speed bands on, only a banded plan counts.
pub fn first_route(use_bands: bool, banded: Option<Banded>, plain: Option<Vec<u32>>) -> (r: Banded)
    ensures
        use_bands && banded is Some ==> r == banded->0,
        use_bands && banded is None ==> r.links@.len() == 0 && r.bands@.len() == 0,
        !use_bands && plain is Some ==> r.links@ == plain->0@ && r.bands@.len() == 0,
        !use_bands && plain is None ==> r.links@.len() == 0 && r.bands@.len() == 0,
{
    if use_bands {
        match banded {
            Some(plan) => plan,
            None => Banded { links: Vec::new(), bands: Vec::new() },
        }
    } else {
        match plain {
            Some(links) => Banded { links, bands: Vec::new() },
            None => Banded { links: Vec::new(), bands: Vec::new() },
        }
    }
}

/// Where no route was found: the route to the reachable cell nearest the goal, banded if it can be.
pub fn detour_route(first: Banded, bot_cell: u32, goal: u32, near: bool, banded: Option<Banded>, plain: Option<
    Vec<u32>,
>) -> (r: Banded)
    ensures
        first.links@.len() != 0 || bot_cell == goal || !near ==> r == first,
        first.links@.len() == 0 && bot_cell != goal && near ==> match banded {
            Some(plan) => r == plan,
            None => r.bands == first.bands && r.links@ == match plain {
                Some(links) => links@,
                None => Seq::empty(),
            },
        },
{
    if first.links.len() != 0 || bot_cell == goal || !near {
        return first;
    }
    match banded {
        Some(plan) => plan,
        None => match plain {
            Some(links) => Banded { links, bands: first.bands },
            None => Banded { links: Vec::new(), bands: first.bands },
        },
    }
}

// --- legs ---
/// What is known of one leg of the route from where the bot stands.
#[derive(Clone, Copy, PartialEq, Eq, Debug, Structural)]
pub struct LegFacts {
    /// Horizontal distance to the leg's target.
    pub dist: u32,
    /// How far the target lies above the bot.
    pub climb: i32,
    /// The target lies behind the velocity.
    pub behind: bool,
}

/// Whether the bot runs so fast that it may overrun a target.
pub open spec fn running(b: BotState) -> bool {
    b.bhop.phase != Phase::Off || b.sj_leg is Some
}

/// The radius of arrival: wider for a bot that overruns its targets, by what it covers in two
/// frames.
pub open spec fn arrival_radius(fast: bool, stride: u32) -> u32 {
    if fast && stride > ARRIVE_RADIUS {
        stride
    } else {
        ARRIVE_RADIUS
    }
}

/// Whether a leg is done with. A lift ride ends by height; hooks and rocket jumps end by their own
/// drivers.
pub open spec fn arrived(kind: LinkKind, f: LegFacts, fast: bool, stride: u32) -> bool {
    match kind {
        LinkKind::Plat => f.climb <= PLAT_RISE_TOL,
        LinkKind::Hook => false,
        LinkKind::RocketJump => false,
        _ => f.dist <= arrival_radius(fast, stride) || (fast && f.behind && f.dist <= PASSED_RADIUS),
    }
}

/// The first leg from `at` that is not done with.
pub open spec fn first_pending(
    graph: NavGraph,
    route: Seq<u32>,
    facts: Seq<LegFacts>,
    fast: bool,
    stride: u32,
    at: int,
) -> int
    decreases route.len() - at,
{
    if at < route.len() && arrived(graph.leg(route, at).kind, facts[at], fast, stride) {
        first_pending(graph, route, facts, fast, stride, at + 1)
    } else {
        at
    }
}

/// The state after the done legs were passed.
pub open spec fn advanced(
    b: BotState,
    graph: NavGraph,
    facts: Seq<LegFacts>,
    stride: u32,
    on_ground: bool,
    on_air: bool,
) -> BotState {
    BotState {
        route_pos: if on_ground || !on_air {
            first_pending(graph, b.route@, facts, running(b), stride, b.route_pos as int) as usize
        } else {
            b.route_pos
        },
        ..b
    }
}

/// Where to walk.
#[derive(Clone, Copy, PartialEq, Eq, Debug, Structural)]
pub enum Waypoint {
    /// The start of a leg: the middle of a lift that is being ridden.
    Source(u32),
    /// The end of a leg.
    Target(u32),
    /// The objective itself.
    Objective,
    /// A spot clear of a raised lift.
    Standoff(usize),
}

/// The current leg: where to walk, how to get there, and the leg itself.
#[derive(Clone, Copy, PartialEq, Eq, Debug, Structural)]
pub struct LegPlan {
    pub waypoint: Waypoint,
    pub kind: Option<LinkKind>,
    pub final_leg: bool,
    pub cur_leg: Option<u32>,
}

pub open spec fn current_leg(b: BotState, graph: NavGraph) -> LegPlan {
    if b.route_pos < b.route@.len() {
        let leg = b.route@[b.route_pos as int];
        let kind = graph.leg(b.route@, b.route_pos as int).kind;
        LegPlan {
            waypoint: if kind == LinkKind::Plat {
                Waypoint::Source(leg)
            } else {
                Waypoint::Target(leg)
            },
            kind: Some(kind),
            final_leg: false,
            cur_leg: Some(leg),
        }
    } else {
        LegPlan { waypoint: Waypoint::Objective, kind: None, final_leg: true, cur_leg: None }
    }
}

/// While a raised lift is waited for, the bot keeps off it and is treated as if it rode it.
pub open spec fn with_hold(plan: LegPlan, hold: Option<usize>) -> LegPlan {
    match hold {
        Some(pi) => LegPlan { waypoint: Waypoint::Standoff(pi), kind: Some(LinkKind::Plat), ..plan },
        None => plan,
    }
}

/// A lift: its footprint, the height of its surface, and whether it is down.
#[derive(Clone, Copy, PartialEq, Eq, Debug)]
pub struct Lift {
    pub fp_min: [i32; 2],
    pub fp_max: [i32; 2],
    pub surface_z: i32,
    pub down: bool,
}

/// Whether a bot at `origin` must keep off a lift: it is up, near, and not being ridden.
pub open spec fn keep_off(lift: Lift, origin: [i32; 3]) -> bool {
    let riding = origin@[2] > lift.surface_z + 8000 && within(
        origin@[0] as int,
        origin@[1] as int,
        lift.fp_min,
        lift.fp_max,
        0,
    );
    !lift.down && !riding && within(
        origin@[0] as int,
        origin@[1] as int,
        lift.fp_min,
        lift.fp_max,
        PLAT_ENGAGE as int,
    )
}

/// The first lift on the next `left` legs.
pub open spec fn lift_ahead(graph: NavGraph, route: Seq<u32>, at: int, left: int) -> Option<usize>
    decreases left,
{
    if left <= 0 || at >= route.len() {
        None
    } else if graph.leg(route, at).plat is Some {
        graph.leg(route, at).plat
    } else {
        lift_ahead(graph, route, at + 1, left - 1)
    }
}

pub open spec fn held_for(b: BotState, graph: NavGraph, lifts: Seq<Lift>, origin: [i32; 3]) -> Option<usize> {
    match lift_ahead(graph, b.route@, b.route_pos as int, PLAT_LOOKAHEAD as int) {
        Some(pi) if keep_off(lifts[pi as int], origin) => Some(pi),
        _ => None,
    }
}

/// The first leg from `at` that rides lift `pi`.
pub open spec fn ride_of(graph: NavGraph, route: Seq<u32>, at: int, pi: usize) -> Option<u32>
    decreases route.len() - at,
{
    if at >= route.len() {
        None
    } else if graph.leg(route, at).kind == LinkKind::Plat && graph.leg(route, at).plat == Some(pi) {
        Some(route[at])
    } else {
        ride_of(graph, route, at + 1, pi)
    }
}

/// A frame of waiting for a lift: the wait starts over for another lift, and one that never comes
/// down is struck and planned around.
pub open spec fn waited_for_lift(b: BotState, graph: NavGraph, hold: Option<usize>, now: i64, after: BotState) -> bool {
    match hold {
        None => after == (BotState { plat_wait: None, ..b }),
        Some(pi) => {
            if b.plat_wait != Some(pi) {
                after == (BotState { plat_wait: Some(pi), plat_wait_since: now, ..b })
            } else if now - b.plat_wait_since > PLAT_WAIT_TIMEOUT {
                &&& rerouted(BotState { plat_wait: None, failed_links: after.failed_links, ..b }, after, now)
                &&& match ride_of(graph, b.route@, b.route_pos as int, pi) {
                    Some(ride) => struck(b.failed_links@, ride, now, after.failed_links@),
                    None => after.failed_links == b.failed_links,
                }
            } else {
                after == b
            }
        },
    }
}

impl BotState {
    /// Move past the legs that are done with. In the air on a committed jump nothing advances.
    /// `stride` is what the bot covers in two frames.
    pub fn advance(&mut self, graph: &NavGraph, facts: &Vec<LegFacts>, stride: u32, on_ground: bool, on_air: bool)
        requires
            graph.covers(old(self).route@),
            facts@.len() == old(self).route@.len(),
        ensures
            *final(self) == advanced(*old(self), *graph, facts@, stride, on_ground, on_air),
    {
        let fast: bool = self.bhop.phase != Phase::Off || self.sj_leg.is_some();
        let radius: u32 = if fast && stride > ARRIVE_RADIUS {
            stride
        } else {
            ARRIVE_RADIUS
        };
        let mut pos: usize = self.route_pos;
        let mut going: bool = on_ground || !on_air;
        while going && pos < self.route.len()
            invariant
                *self == *old(self),
                graph.covers(self.route@),
                facts@.len() == self.route@.len(),
                fast == running(*self),
                radius == arrival_radius(fast, stride),
                on_ground || !on_air ==> first_pending(
                    *graph,
                    self.route@,
                    facts@,
                    fast,
                    stride,
                    self.route_pos as int,
                ) == first_pending(*graph, self.route@, facts@, fast, stride, pos as int),
                !going && (on_ground || !on_air) ==> first_pending(
                    *graph,
                    self.route@,
                    facts@,
                    fast,
                    stride,
                    pos as int,
                ) == pos,
                !(on_ground || !on_air) ==> pos == self.route_pos && !going,
            decreases self.route@.len() - pos, going as int,
        {
            let f = facts[pos];
            let done: bool = match graph.links[self.route[pos] as usize].kind {
                LinkKind::Plat => f.climb <= PLAT_RISE_TOL,
                LinkKind::Hook => false,
                LinkKind::RocketJump => false,
                _ => f.dist <= radius || (fast && f.behind && f.dist <= PASSED_RADIUS),
            };
            if done {
                pos = pos + 1;
            } else {
                going = false;
            }
        }
        self.route_pos = pos;
    }

    pub fn leg_plan(&self, graph: &NavGraph) -> (r: LegPlan)
        requires
            graph.covers(self.route@),
        ensures
            r == current_leg(*self, *graph),
    {
        if self.route_pos < self.route.len() {
            let leg: u32 = self.route[self.route_pos];
            let kind = graph.links[leg as usize].kind;
            let waypoint = if kind == LinkKind::Plat {
                Waypoint::Source(leg)
            } else {
                Waypoint::Target(leg)
            };
            LegPlan { waypoint, kind: Some(kind), final_leg: false, cur_leg: Some(leg) }
        } else {
            LegPlan { waypoint: Waypoint::Objective, kind: None, final_leg: true, cur_leg: None }
        }
    }

    /// The raised lift to keep off, if the way leads over one.
    pub fn plat_hold(&self, graph: &NavGraph, lifts: &Vec<Lift>, origin: [i32; 3]) -> (r: Option<usize>)
        requires
            graph.covers(self.route@),
            forall|i: int|
                0 <= i < graph.links@.len() ==> ((#[trigger] graph.links@[i]).plat matches Some(p) ==> p
                    < lifts@.len()),
        ensures
            r == held_for(*self, *graph, lifts@, origin),
    {
        let mut at: usize = self.route_pos;
        let mut left: usize = PLAT_LOOKAHEAD;
        let mut found: Option<usize> = None;
        while left > 0 && at < self.route.len() && found.is_none()
            invariant
                graph.covers(self.route@),
                left <= PLAT_LOOKAHEAD,
                found is None ==> lift_ahead(*graph, self.route@, self.route_pos as int, PLAT_LOOKAHEAD as int)
                    == lift_ahead(*graph, self.route@, at as int, left as int),
                found is Some ==> found == lift_ahead(
                    *graph,
                    self.route@,
                    self.route_pos as int,
                    PLAT_LOOKAHEAD as int,
                ),
                found is Some ==> exists|i: int|
                    0 <= i < graph.links@.len() && (#[trigger] graph.links@[i]).plat == found,
            decreases left,
        {
            let link = graph.links[self.route[at] as usize];
            if link.plat.is_some() {
                found = link.plat;
                assert(graph.links@[self.route@[at as int] as int].plat == found);
            } else {
                at = at + 1;
            }
            left = left - 1;
        }
        let pi: usize = match found {
            Some(pi) => pi,
            None => return None,
        };
        let lift = &lifts[pi];
        let x: i64 = origin[0] as i64;
        let y: i64 = origin[1] as i64;
        let riding: bool = origin[2] as i64 > lift.surface_z as i64 + 8000 && in_footprint(
            x,
            y,
            lift.fp_min,
            lift.fp_max,
            0,
        );
        if !lift.down && !riding && in_footprint(x, y, lift.fp_min, lift.fp_max, PLAT_ENGAGE) {
            Some(pi)
        } else {
            None
        }
    }

    /// Keep the clock of a wait for a lift.
    pub fn wait_for_lift(&mut self, graph: &NavGraph, hold: Option<usize>, now: i64)
        requires
            graph.covers(old(self).route@),
        ensures
            waited_for_lift(*old(self), *graph, hold, now, *final(self)),
    {
        let pi: usize = match hold {
            Some(pi) => pi,
            None => {
                self.plat_wait = None;
                return;
            },
        };
        let same: bool = match self.plat_wait {
            Some(w) => w == pi,
            None => false,
        };
        if !same {
            self.plat_wait = Some(pi);
            self.plat_wait_since = now;
            return;
        }
        if since(now, self.plat_wait_since) > PLAT_WAIT_TIMEOUT as i128 {
            let mut at: usize = self.route_pos;
            let mut ride: Option<u32> = None;
            while at < self.route.len() && ride.is_none()
                invariant
                    *self == *old(self),
                    graph.covers(self.route@),
                    ride is None ==> ride_of(*graph, self.route@, self.route_pos as int, pi) == ride_of(
                        *graph,
                        self.route@,
                        at as int,
                        pi,
                    ),
                    ride is Some ==> ride == ride_of(*graph, self.route@, self.route_pos as int, pi),
                decreases self.route@.len() - at,
            {
                let leg: u32 = self.route[at];
                let link = graph.links[leg as usize];
                let boards: bool = match link.plat {
                    Some(p) => p == pi,
                    None => false,
                };
                if link.kind == LinkKind::Plat && boards {
                    ride = Some(leg);
                }
                at = at + 1;
            }
            if let Some(leg) = ride {
                penalize_link(self, leg, now);
            }
            self.plat_wait = None;
            drop_route(self, now);
        }
    }
}

impl BotState {
    /// Follow the route for a frame: pass the legs that are done with, see where to walk next, and
    /// keep off a raised lift.
    pub fn follow(
        &mut self,
        graph: &NavGraph,
        facts: &Vec<LegFacts>,
        stride: u32,
        lifts: &Vec<Lift>,
        origin: [i32; 3],
        on_ground: bool,
        on_air: bool,
        now: i64,
    ) -> (r: (LegPlan, Option<usize>))
        requires
            graph.covers(old(self).route@),
            facts@.len() == old(self).route@.len(),
            forall|i: int|
                0 <= i < graph.links@.len() ==> ((#[trigger] graph.links@[i]).plat matches Some(p) ==> p
                    < lifts@.len()),
        ensures
            ({
                let mid = advanced(*old(self), *graph, facts@, stride, on_ground, on_air);
                &&& r.1 == held_for(mid, *graph, lifts@, origin)
                &&& r.0 == with_hold(current_leg(mid, *graph), r.1)
                &&& waited_for_lift(mid, *graph, r.1, now, *final(self))
            }),
    {
        self.advance(graph, facts, stride, on_ground, on_air);
        let mut plan = self.leg_plan(graph);
        let hold = self.plat_hold(graph, lifts, origin);
        if let Some(pi) = hold {
            plan.waypoint = Waypoint::Standoff(pi);
            plan.kind = Some(LinkKind::Plat);
        }
        self.wait_for_lift(graph, hold, now);
        (plan, hold)
    }
}

// --- the eyes ---
/// Where the eyes go while walking.
#[derive(Clone, Copy, PartialEq, Eq, Debug, Structural)]
pub enum LookAt {
    /// The point that a bot on watch sweeps to.
    Scan,
    /// A lift that is being waited for.
    Lift(usize),
    /// The end of a leg further down the route.
    Leg(u32),
    /// Along the velocity.
    Heading,
    /// The current waypoint.
    Waypoint,
    /// The objective.
    Objective,
}

/// Whether a fight's enemy has been out of sight for too long to look at.
pub open spec fn blind(enemy: bool, chasing: bool, seen: i64, now: i64) -> bool {
    enemy && !chasing && (seen <= 0 || now - seen > LOOK_LOS_GRACE)
}

/// The choice of where to look: a watch first, then a lift, then the route ahead, and the objective
/// only where that is no enemy hidden from sight.
pub open spec fn eyes(
    b: BotState,
    scanning: bool,
    hold: Option<usize>,
    enemy: bool,
    chasing: bool,
    final_leg: bool,
    speed: u32,
    now: i64,
) -> LookAt {
    if scanning {
        LookAt::Scan
    } else if hold is Some {
        LookAt::Lift(hold->0)
    } else if b.route_pos + 2 < b.route@.len() {
        LookAt::Leg(b.route@[b.route_pos + 2])
    } else if blind(enemy, chasing, b.enemy_seen_time, now) {
        if final_leg && speed > HEADING_SPEED {
            LookAt::Heading
        } else {
            LookAt::Waypoint
        }
    } else {
        LookAt::Objective
    }
}

impl BotState {
    pub fn look_at(
        &self,
        scanning: bool,
        hold: Option<usize>,
        enemy: bool,
        chasing: bool,
        final_leg: bool,
        speed: u32,
        now: i64,
    ) -> (r: LookAt)
        ensures
            r == eyes(*self, scanning, hold, enemy, chasing, final_leg, speed, now),
    {
        if scanning {
            return LookAt::Scan;
        }
        if let Some(pi) = hold {
            return LookAt::Lift(pi);
        }
        if self.route.len() > 2 && self.route_pos < self.route.len() - 2 {
            return LookAt::Leg(self.route[self.route_pos + 2]);
        }
        let unseen: bool = self.enemy_seen_time <= 0 || since(now, self.enemy_seen_time) > LOOK_LOS_GRACE as i128;
        if enemy && !chasing && unseen {
            if final_leg && speed > HEADING_SPEED {
                LookAt::Heading
            } else {
                LookAt::Waypoint
            }
        } else {
            LookAt::Objective
        }
    }
}

/// A hidden enemy is never looked at through walls: where the eyes rest on one, it was in sight a
/// moment ago.
pub proof fn no_looking_through_walls(
    b: BotState,
    scanning: bool,
    hold: Option<usize>,
    final_leg: bool,
    speed: u32,
    now: i64,
)
    requires
        eyes(b, scanning, hold, true, false, final_leg, speed, now) == LookAt::Objective,
    ensures
        b.enemy_seen_time > 0,
        now - b.enemy_seen_time <= LOOK_LOS_GRACE,
{
}

// --- watchdogs ---
/// What the stuck watchdog found.
#[derive(Clone, Copy, PartialEq, Eq, Debug, Structural)]
pub enum StuckVerdict {
    /// Moved, or excused: measure from here.
    Moving,
    /// Not yet long enough.
    Waiting,
    /// Wedged: jump and plan around the leg.
    Wedged,
}

pub open spec fn stuck_verdict(b: BotState, exempt: bool, moved: u32, now: i64) -> StuckVerdict {
    if exempt || moved > STUCK_MOVE {
        StuckVerdict::Moving
    } else if now - b.stuck_since > STUCK_TIME {
        StuckVerdict::Wedged
    } else {
        StuckVerdict::Waiting
    }
}

/// The state the stuck watchdog leaves.
pub open spec fn stuck_checked(
    b: BotState,
    verdict: StuckVerdict,
    leg: Option<u32>,
    kind: Option<LinkKind>,
    now: i64,
    after: BotState,
) -> bool {
    match verdict {
        StuckVerdict::Moving => after == (BotState { stuck_since: now, ..b }),
        StuckVerdict::Waiting => after == b,
        StuckVerdict::Wedged => after == (BotState {
            stuck_since: now,
            repath_time: now,
            failed_links: after.failed_links,
            ..b
        }) && leg_struck(b.failed_links@, leg, kind, now, after.failed_links@),
    }
}

/// The state the progress watchdog leaves: while suspended it only keeps its baseline, and a way
/// that no longer shortens is struck and dropped.
pub open spec fn progress_checked(
    b: BotState,
    suspended: bool,
    goal_dist: u32,
    leg: Option<u32>,
    kind: Option<LinkKind>,
    now: i64,
    after: BotState,
) -> bool {
    let rebased = BotState { progress_best: goal_dist, progress_since: now, ..b };
    if suspended {
        after == rebased
    } else if stalled(b.progress_best, b.progress_since, goal_dist, now) {
        &&& rerouted(BotState { failed_links: after.failed_links, ..rebased }, after, now)
        &&& leg_struck(b.failed_links@, leg, kind, now, after.failed_links@)
    } else if improved(goal_dist, b.progress_best, PROGRESS_EPS) {
        after == rebased
    } else {
        after == b
    }
}

impl BotState {
    pub fn check_stuck(
        &mut self,
        exempt: bool,
        moved: u32,
        leg: Option<u32>,
        kind: Option<LinkKind>,
        now: i64,
    ) -> (r: StuckVerdict)
        ensures
            r == stuck_verdict(*old(self), exempt, moved, now),
            stuck_checked(*old(self), r, leg, kind, now, *final(self)),
    {
        if exempt || moved > STUCK_MOVE {
            self.stuck_since = now;
            StuckVerdict::Moving
        } else if since(now, self.stuck_since) > STUCK_TIME as i128 {
            penalize_leg(self, leg, kind, now);
            self.repath_time = now;
            self.stuck_since = now;
            StuckVerdict::Wedged
        } else {
            StuckVerdict::Waiting
        }
    }

    pub fn check_progress(
        &mut self,
        suspended: bool,
        goal_dist: u32,
        leg: Option<u32>,
        kind: Option<LinkKind>,
        now: i64,
    )
        ensures
            progress_checked(*old(self), suspended, goal_dist, leg, kind, now, *final(self)),
    {
        if suspended {
            self.progress_best = goal_dist;
            self.progress_since = now;
        } else if progress_stalled(self.progress_best, self.progress_since, goal_dist, now) {
            penalize_leg(self, leg, kind, now);
            drop_route(self, now);
            self.progress_best = goal_dist;
            self.progress_since = now;
        } else if improves(goal_dist, self.progress_best, PROGRESS_EPS) {
            self.progress_best = goal_dist;
            self.progress_since = now;
        }
    }
}

/// What excuses a bot that stands still or goes round in circles.
#[derive(Clone, Copy, PartialEq, Eq, Debug, Structural)]
pub struct Excuse {
    pub hook_active: bool,
    pub rj_active: bool,
    pub on_sj: bool,
    pub on_air: bool,
    pub vigil: bool,
    pub holding: bool,
}

/// Whether a hook or a rocket jump owns the frame.
pub open spec fn driver_owns(kind: Option<LinkKind>, which: LinkKind, running: bool) -> bool {
    kind == Some(which) || running
}

pub open spec fn excused(c: Commitment, kind: Option<LinkKind>, vigil: bool, holding: bool) -> Excuse {
    Excuse {
        hook_active: driver_owns(kind, LinkKind::Hook, c.hooking),
        rj_active: driver_owns(kind, LinkKind::RocketJump, c.on_rj),
        on_sj: c.on_sj,
        on_air: c.on_air,
        vigil,
        holding,
    }
}

pub fn excuse_of(c: Commitment, kind: Option<LinkKind>, vigil: bool, holding: bool) -> (r: Excuse)
    ensures
        r == excused(c, kind, vigil, holding),
{
    let (hook_leg, rj_leg) = match kind {
        Some(LinkKind::Hook) => (true, false),
        Some(LinkKind::RocketJump) => (false, true),
        _ => (false, false),
    };
    Excuse {
        hook_active: hook_leg || c.hooking,
        rj_active: rj_leg || c.on_rj,
        on_sj: c.on_sj,
        on_air: c.on_air,
        vigil,
        holding,
    }
}

/// The stuck watchdog is off for a bot that flies, watches or waits; the progress watchdog also on
/// speed jumps and lifts, where the distance may rightly grow.
pub open spec fn stuck_exempt(x: Excuse) -> bool {
    x.hook_active || x.rj_active || x.on_air || x.vigil || x.holding
}

pub open spec fn progress_suspended(x: Excuse, kind: Option<LinkKind>) -> bool {
    x.hook_active || x.rj_active || x.on_sj || x.on_air || kind == Some(LinkKind::Plat) || x.vigil
}

impl BotState {
    /// Run both watchdogs.
    pub fn watch(
        &mut self,
        x: Excuse,
        moved: u32,
        goal_dist: u32,
        leg: Option<u32>,
        kind: Option<LinkKind>,
        now: i64,
    ) -> (r: StuckVerdict)
        ensures
            r == stuck_verdict(*old(self), stuck_exempt(x), moved, now),
            exists|mid: BotState|
                #[trigger] stuck_checked(*old(self), r, leg, kind, now, mid) && progress_checked(
                    mid,
                    progress_suspended(x, kind),
                    goal_dist,
                    leg,
                    kind,
                    now,
                    *final(self),
                ),
    {
        let exempt: bool = x.hook_active || x.rj_active || x.on_air || x.vigil || x.holding;
        let verdict = self.check_stuck(exempt, moved, leg, kind, now);
        let ghost mid = *self;
        let riding: bool = match kind {
            Some(LinkKind::Plat) => true,
            _ => false,
        };
        let suspended: bool = x.hook_active || x.rj_active || x.on_sj || x.on_air || riding || x.vigil;
        self.check_progress(suspended, goal_dist, leg, kind, now);
        assert(stuck_checked(*old(self), verdict, leg, kind, now, mid));
        verdict
    }
}

// --- bunny hops ---
/// Bends of a corridor are judged over chords of this length, and count from this angle, in
/// thousandths of a degree.
pub const CHORD: u32 = 96000;

pub const MAX_BEND: i64 = 35000;

/// The straight corridor ahead as far as it has been walked: its length, where its last chord ended,
/// and the bearing of that chord.
#[derive(Clone, Copy, PartialEq, Eq, Debug, Structural)]
pub struct Runway {
    pub dist: u32,
    pub anchor: u32,
    pub yaw: Option<i32>,
}

/// What a leg does to the corridor.
#[derive(Clone, Copy, PartialEq, Eq, Debug, Structural)]
pub enum RunwayStep {
    On,
    /// A chord ends here; the next is measured from here.
    Chord,
    /// It is no longer than this.
    Ends(u32),
}

/// The angle between two bearings, at most half a turn.
pub open spec fn turn(a: int, b: int) -> int {
    let apart = if a < b {
        b - a
    } else {
        a - b
    };
    let d = apart % 360000;
    if d > 180000 {
        360000 - d
    } else {
        d
    }
}

fn turned(a: i32, b: i32) -> (r: i64)
    ensures
        r == turn(a as int, b as int),
{
    let apart: i64 = if a < b {
        b as i64 - a as i64
    } else {
        a as i64 - b as i64
    };
    let d: i64 = apart % 360000;
    if d > 180000 {
        360000 - d
    } else {
        d
    }
}

pub open spec fn longer(dist: u32, leg: u32) -> u32 {
    if dist + leg > u32::MAX {
        u32::MAX
    } else {
        (dist + leg) as u32
    }
}

/// The corridor with one more leg: one that is not walked ends it, and so does one whose chord bends
/// off the last, back at where that chord ended.
pub open spec fn paced(w: Runway, kind: LinkKind, leg: u32, yaw: i32) -> (Runway, RunwayStep) {
    let dist = longer(w.dist, leg);
    let bends = w.yaw is Some && turn(yaw as int, w.yaw->0 as int) > MAX_BEND;
    if kind != LinkKind::Walk && kind != LinkKind::Step {
        (w, RunwayStep::Ends(w.dist))
    } else if dist - w.anchor < CHORD {
        (Runway { dist, ..w }, RunwayStep::On)
    } else if bends {
        (Runway { dist, ..w }, RunwayStep::Ends(w.anchor))
    } else {
        (Runway { dist, anchor: dist, yaw: Some(yaw) }, RunwayStep::Chord)
    }
}

impl Runway {
    pub fn start() -> (r: Runway)
        ensures
            r == (Runway { dist: 0, anchor: 0, yaw: None }),
    {
        Runway { dist: 0, anchor: 0, yaw: None }
    }

    pub open spec fn wf(self) -> bool {
        self.anchor <= self.dist
    }

    /// One more leg of the route: `leg` is its length and `yaw` the bearing of its end from where the
    /// last chord ended.
    pub fn runway(&mut self, kind: LinkKind, leg: u32, yaw: i32) -> (r: RunwayStep)
        requires
            old(self).wf(),
        ensures
            (*final(self), r) == paced(*old(self), kind, leg, yaw),
            final(self).wf(),
    {
        match kind {
            LinkKind::Walk | LinkKind::Step => {},
            _ => {
                return RunwayStep::Ends(self.dist);
            },
        }
        self.dist = if leg > u32::MAX - self.dist {
            u32::MAX
        } else {
            self.dist + leg
        };
        if self.dist - self.anchor < CHORD {
            return RunwayStep::On;
        }
        if let Some(last) = self.yaw {
            if turned(yaw, last) > MAX_BEND {
                return RunwayStep::Ends(self.anchor);
            }
        }
        self.yaw = Some(yaw);
        self.anchor = self.dist;
        RunwayStep::Chord
    }
}

/// A corridor never ends further on than it was walked, and a bend never adds to it.
pub proof fn runways_are_walked(w: Runway, kind: LinkKind, leg: u32, yaw: i32)
    requires
        w.wf(),
        paced(w, kind, leg, yaw).1 is Ends,
    ensures
        paced(w, kind, leg, yaw).1->Ends_0 <= w.dist,
{
}

/// Facts that the hop policy weighs.
#[derive(Clone, Copy, PartialEq, Eq, Debug, Structural)]
pub struct HopFacts {
    pub enabled: bool,
    pub zigzag_enabled: bool,
    pub enemy: bool,
    pub watching: bool,
    pub kind: Option<LinkKind>,
    pub final_leg: bool,
    pub goal_dist: u32,
    pub runway: u32,
    /// Corridor enough for the ground zigzag.
    pub zigzag_runway: bool,
    pub hook_active: bool,
    pub rj_active: bool,
}

/// What the hop controller is told.
#[derive(Clone, Copy, PartialEq, Eq, Debug, Structural)]
pub struct HopPolicy {
    pub veto: bool,
    pub entry: bool,
    pub sustain: bool,
    pub zigzag: bool,
    pub carry: bool,
}

pub open spec fn band_at(b: BotState, i: int) -> u8 {
    if i < b.route_bands@.len() {
        b.route_bands@[i]
    } else {
        0
    }
}

/// Whether combat owns the view: the enemy is in sight or was a moment ago.
pub open spec fn combat_view(enemy: bool, seen: i64, now: i64) -> bool {
    enemy && seen > 0 && now - seen < BHOP_COMBAT_GRACE
}

pub open spec fn on_foot(kind: Option<LinkKind>) -> bool {
    kind == Some(LinkKind::Walk) || kind == Some(LinkKind::Step)
}

/// A run is vetoed by whatever else wants the view; it starts on an ordinary leg with a far goal or
/// a plan that carries speed, and enough corridor; it goes on under looser terms.
pub open spec fn policy(b: BotState, f: HopFacts, now: i64) -> HopPolicy {
    let planned = band_at(b, b.route_pos as int) >= 1;
    HopPolicy {
        veto: !f.enabled || combat_view(f.enemy, b.enemy_seen_time, now) || f.hook_active || f.rj_active
            || f.watching || b.gate is Some || b.grenade_phase != GrenadePhase::Idle,
        entry: !f.final_leg && on_foot(f.kind) && (f.goal_dist > 300000 || planned) && f.runway >= RUNWAY_ENGAGE,
        sustain: on_foot(f.kind) && (f.goal_dist > 150000 || planned),
        zigzag: f.zigzag_enabled && on_foot(f.kind) && !f.final_leg && f.goal_dist > 150000 && f.zigzag_runway,
        carry: planned || band_at(b, b.route_pos + 1) >= 1,
    }
}

impl BotState {
    fn band(&self, i: usize) -> (r: u8)
        ensures
            r == band_at(*self, i as int),
    {
        if i < self.route_bands.len() {
            self.route_bands[i]
        } else {
            0
        }
    }

    pub fn hop_policy(&self, f: &HopFacts, now: i64) -> (r: HopPolicy)
        ensures
            r == policy(*self, *f, now),
    {
        let view: bool = f.enemy && self.enemy_seen_time > 0 && since(now, self.enemy_seen_time)
            < BHOP_COMBAT_GRACE as i128;
        let foot: bool = match f.kind {
            Some(LinkKind::Walk) | Some(LinkKind::Step) => true,
            _ => false,
        };
        let planned: bool = self.band(self.route_pos) >= 1;
        let next: bool = self.route_pos < usize::MAX && self.band(self.route_pos + 1) >= 1;
        proof {
            if self.route_pos == usize::MAX {
                assert(self.route_bands.len() <= usize::MAX);
            }
        }
        HopPolicy {
            veto: !f.enabled || view || f.hook_active || f.rj_active || f.watching || self.gate.is_some()
                || self.grenade_phase != GrenadePhase::Idle,
            entry: !f.final_leg && foot && (f.goal_dist > 300000 || planned) && f.runway >= RUNWAY_ENGAGE,
            sustain: foot && (f.goal_dist > 150000 || planned),
            zigzag: f.zigzag_enabled && foot && !f.final_leg && f.goal_dist > 150000 && f.zigzag_runway,
            carry: planned || next,
        }
    }
}

// --- committed jumps ---
/// A frame of a speed jump: the leg is latched while it lasts, and abandoned when the run-up takes
/// too long. The flag says whether the jump is on.
pub open spec fn speed_jumped(
    b: BotState,
    kind: Option<LinkKind>,
    enabled: bool,
    x: Excuse,
    leg: Option<u32>,
    now: i64,
    after: BotState,
    on: bool,
) -> bool {
    let wanted = kind == Some(LinkKind::SpeedJump) && enabled && !x.hook_active && !x.rj_active;
    let latched = if b.sj_leg != leg {
        BotState { sj_leg: leg, sj_started: now, ..b }
    } else {
        b
    };
    if !wanted {
        !on && after == (BotState { sj_leg: None, ..b })
    } else if now - latched.sj_started > SPEED_JUMP_MAX {
        !on && rerouted(BotState { sj_leg: None, ..latched }, after, now)
    } else {
        on && after == latched
    }
}

/// A frame of a plain jump: the leg is latched while it lasts, let go on landing, and struck and
/// dropped when the bot never comes down.
pub open spec fn air_jumped(
    b: BotState,
    kind: Option<LinkKind>,
    leg: Option<u32>,
    on_ground: bool,
    now: i64,
    after: BotState,
) -> bool {
    let on_leg = kind == Some(LinkKind::JumpGap) || kind == Some(LinkKind::DoubleJump);
    let latched = if on_leg && b.air_leg != leg {
        BotState { air_leg: leg, air_started: now, ..b }
    } else {
        b
    };
    if latched.air_leg is None {
        after == latched
    } else {
        match air_fate(on_ground, on_leg, now - latched.air_started) {
            AirRelease::Keep => after == latched,
            AirRelease::Land => after == (BotState { air_leg: None, ..latched }),
            AirRelease::Timeout => {
                &&& rerouted(
                    BotState { air_leg: None, failed_links: after.failed_links, ..latched },
                    after,
                    now,
                )
                &&& leg_struck(b.failed_links@, latched.air_leg, kind, now, after.failed_links@)
            },
        }
    }
}

fn same_leg(a: Option<u32>, b: Option<u32>) -> (r: bool)
    ensures
        r == (a == b),
{
    match (a, b) {
        (Some(x), Some(y)) => x == y,
        (None, None) => true,
        _ => false,
    }
}

impl BotState {
    /// Latch, hold or abandon a speed jump.
    pub fn drive_speed_jump(
        &mut self,
        kind: Option<LinkKind>,
        enabled: bool,
        x: Excuse,
        leg: Option<u32>,
        now: i64,
    ) -> (on: bool)
        ensures
            speed_jumped(*old(self), kind, enabled, x, leg, now, *final(self), on),
    {
        let on_leg: bool = match kind {
            Some(LinkKind::SpeedJump) => true,
            _ => false,
        };
        if !on_leg || !enabled || x.hook_active || x.rj_active {
            self.sj_leg = None;
            return false;
        }
        if !same_leg(self.sj_leg, leg) {
            self.sj_leg = leg;
            self.sj_started = now;
        }
        if since(now, self.sj_started) > SPEED_JUMP_MAX as i128 {
            self.sj_leg = None;
            drop_route(self, now);
            return false;
        }
        true
    }

    /// Latch, hold, release or abandon a plain jump.
    pub fn drive_air_jump(&mut self, kind: Option<LinkKind>, leg: Option<u32>, on_ground: bool, now: i64)
        ensures
            air_jumped(*old(self), kind, leg, on_ground, now, *final(self)),
    {
        let on_leg: bool = match kind {
            Some(LinkKind::JumpGap) | Some(LinkKind::DoubleJump) => true,
            _ => false,
        };
        if on_leg && !same_leg(self.air_leg, leg) {
            self.air_leg = leg;
            self.air_started = now;
        }
        let flown = self.air_leg;
        if flown.is_some() {
            match air_commit_decision(on_ground, on_leg, since(now, self.air_started)) {
                AirRelease::Keep => {},
                AirRelease::Land => {
                    self.air_leg = None;
                },
                AirRelease::Timeout => {
                    penalize_leg(self, flown, kind, now);
                    self.air_leg = None;
                    drop_route(self, now);
                },
            }
        }
    }
}

/// A jump released on landing does not stay committed: on the ground past the grace, nothing is.
pub proof fn landing_ends_the_jump(
    b: BotState,
    kind: Option<LinkKind>,
    leg: Option<u32>,
    now: i64,
    after: BotState,
)
    requires
        air_jumped(b, kind, leg, true, now, after),
        b.air_leg == leg,
        now - b.air_started > AIR_COMMIT_GRACE,
    ensures
        after.air_leg is None,
        after.route@ == b.route@,
{
}

/// The edge that a speed jump leaps from: how far away it is, whether it lies behind the velocity,
/// and the speed that clears the gap.
#[derive(Clone, Copy, PartialEq, Eq, Debug, Structural)]
pub struct Takeoff {
    pub dist: u32,
    pub past: bool,
    pub v_req: u32,
}

/// Whether to hold the leap of a speed jump: at or past the edge, and slower than nine tenths of
/// what clears the gap.
pub fn hold_leap(on: bool, takeoff: Option<Takeoff>, speed: u32) -> (r: bool)
    ensures
        r == leap_held(on, takeoff, speed),
        r == (on && (takeoff matches Some(t) && (t.dist < EDGE_REACH || t.past) && 10 * speed < 9 * t.v_req)),
{
    match takeoff {
        Some(t) => on && (t.dist < EDGE_REACH || t.past) && 10 * (speed as u64) < 9 * (t.v_req as u64),
        None => false,
    }
}

// --- buttons ---
/// Facts for the jump button.
#[derive(Clone, Copy, PartialEq, Eq, Debug, Structural)]
pub struct JumpFacts {
    pub on_ground: bool,
    pub force_jump: bool,
    pub hop_jump: bool,
    pub kind: Option<LinkKind>,
    /// Whether the jump in the air was spent.
    pub air_jumped: bool,
    pub vz: i32,
    /// How far the waypoint lies above the bot.
    pub climb: i32,
}

/// The speed upward below which the air jump may be spent.
pub const AIR_JUMP_APEX: i32 = 30000;

/// Whether to press jump: on the ground to hop, leap or get unstuck; in the air once, near the apex
/// of a double jump or to save a jump that falls short.
pub open spec fn jump_pressed(f: JumpFacts) -> bool {
    let leap = f.kind == Some(LinkKind::JumpGap) || f.kind == Some(LinkKind::DoubleJump);
    if f.on_ground {
        f.force_jump || f.hop_jump || leap
    } else {
        !f.air_jumped && f.vz <= AIR_JUMP_APEX && (f.kind == Some(LinkKind::DoubleJump) || (f.kind == Some(
            LinkKind::JumpGap,
        ) && f.vz < 0 && f.climb > SHORTFALL))
    }
}

pub fn press_jump(f: &JumpFacts) -> (r: bool)
    ensures
        r == jump_pressed(*f),
{
    let (gap, double) = match f.kind {
        Some(LinkKind::JumpGap) => (true, false),
        Some(LinkKind::DoubleJump) => (false, true),
        _ => (false, false),
    };
    if f.on_ground {
        f.force_jump || f.hop_jump || gap || double
    } else {
        !f.air_jumped && f.vz <= AIR_JUMP_APEX && (double || (gap && f.vz < 0 && f.climb > SHORTFALL))
    }
}

/// What to do about the button of an errand's gate.
#[derive(Clone, Copy, PartialEq, Eq, Debug, Structural)]
pub enum GateAct {
    /// Not there yet.
    Nothing,
    /// Walk into it.
    Push,
    /// Too steep to aim at: back away.
    BackOff,
    /// Stand and shoot it, if the gun is up and the button is live.
    Shoot { fire: bool },
}

impl BotState {
    /// What to do about the button, given the horizontal distance to its cell, the pitch at which
    /// it would be aimed at, the weapon in hand, and which activators are live.
    pub fn gate_act(&self, graph: &NavGraph, dist: u32, pitch: i32, weapon: Weapon, ready: &Vec<bool>) -> (r: GateAct)
        requires
            self.gate is Some ==> self.gate->0 < graph.gates@.len(),
            ready@.len() == graph.gates@.len(),
        ensures
            r == gate_work(*self, *graph, dist, pitch, weapon, ready@),
            r == match self.gate {
                Some(gi) if self.route_pos >= self.route@.len() || dist < BUTTON_REACH => {
                    if !graph.gates@[gi as int].shoot {
                        GateAct::Push
                    } else if pitch < STEEPEST_PITCH {
                        GateAct::BackOff
                    } else {
                        GateAct::Shoot { fire: weapon == Weapon::Shotgun && ready@[gi as int] }
                    }
                },
                _ => GateAct::Nothing,
            },
    {
        let gi: usize = match self.gate {
            Some(gi) => gi,
            None => return GateAct::Nothing,
        };
        if !(self.route_pos >= self.route.len() || dist < BUTTON_REACH) {
            return GateAct::Nothing;
        }
        if !graph.gates[gi].shoot {
            GateAct::Push
        } else if pitch < STEEPEST_PITCH {
            GateAct::BackOff
        } else {
            GateAct::Shoot { fire: weapon == Weapon::Shotgun && ready[gi] }
        }
    }
}

/// Which movement a frame sends.
#[derive(Clone, Copy, PartialEq, Eq, Debug, Structural)]
pub enum MoveBy {
    /// Toward the waypoint.
    Waypoint,
    /// None.
    Still,
    /// Into the button.
    Button,
    /// Straight away from the button.
    BackOff,
    /// Toward the start of the hook or rocket-jump leg.
    Approach,
    /// Toward the landing.
    Correct,
}

/// Where the rocket-jump driver wants the eyes.
#[derive(Clone, Copy, PartialEq, Eq, Debug, Structural)]
pub enum RjLook {
    Keep,
    /// At the angles of the shot.
    Shot,
    /// At the landing.
    Landing,
}

/// The rocket-jump driver's decisions for a frame.
#[derive(Clone, Copy, PartialEq, Eq, Debug, Structural)]
pub struct RjDrive {
    pub look: RjLook,
    pub stand: bool,
    pub approach: bool,
    pub correct: bool,
    pub select: bool,
    pub fire: bool,
    /// Press jump as soon as the view has settled.
    pub jump_ready: bool,
}

/// A frame's buttons, impulse and kind of movement.
#[derive(Clone, Copy, PartialEq, Eq, Debug, Structural)]
pub struct Controls {
    pub buttons: i32,
    pub impulse: i32,
    pub moving: MoveBy,
}

/// Whether a bot that follows someone is near enough to stop.
pub open spec fn close_enough(final_leg: bool, polite: bool, dist: u32) -> bool {
    final_leg && polite && dist <= POLITE_DIST
}

/// Navigation's controls: the jump, and a walk to the waypoint that ends short of a human who is
/// followed; at the button of an errand, what that calls for.
pub open spec fn nav_controls(jump: bool, near: bool, act: GateAct) -> Controls {
    let jump_bit = if jump {
        BUTTON_JUMP
    } else {
        0
    };
    match act {
        GateAct::Nothing => Controls {
            buttons: jump_bit,
            impulse: 0,
            moving: if near {
                MoveBy::Still
            } else {
                MoveBy::Waypoint
            },
        },
        GateAct::Push => Controls { buttons: 0, impulse: 0, moving: MoveBy::Button },
        GateAct::BackOff => Controls { buttons: 0, impulse: IMPULSE_SHOTGUN, moving: MoveBy::BackOff },
        GateAct::Shoot { fire } => Controls {
            buttons: if fire {
                BUTTON_ATTACK
            } else {
                0
            },
            impulse: IMPULSE_SHOTGUN,
            moving: MoveBy::Still,
        },
    }
}

/// The controls once the hook driver had its say, where it is engaged.
pub open spec fn hooked_controls(c: Controls, engaged: bool, h: HookDrive) -> Controls {
    if !engaged {
        c
    } else {
        Controls {
            buttons: c.buttons & !BUTTON_JUMP,
            impulse: if h.select {
                IMPULSE_GRAPPLE
            } else {
                c.impulse
            },
            moving: if !h.stand && h.approach {
                MoveBy::Approach
            } else {
                MoveBy::Still
            },
        }
    }
}

/// The controls once the rocket-jump driver had its say, where it is engaged.
pub open spec fn rocketed_controls(c: Controls, engaged: bool, r: RjDrive) -> Controls {
    if !engaged {
        c
    } else {
        let buttons = c.buttons & !BUTTON_JUMP;
        Controls {
            buttons: if r.fire {
                buttons | BUTTON_ATTACK
            } else {
                buttons
            },
            impulse: if r.select {
                IMPULSE_ROCKET
            } else {
                c.impulse
            },
            moving: if r.stand {
                MoveBy::Still
            } else if r.approach {
                MoveBy::Approach
            } else if r.correct {
                MoveBy::Correct
            } else {
                MoveBy::Still
            },
        }
    }
}

impl BotState {
    /// The frame's controls before combat: navigation's, overridden by the hook and the rocket jump.
    pub fn controls(&self, jump: bool, near: bool, act: GateAct, hook: &HookDrive, rj: &RjDrive) -> (r: Controls)
        ensures
            r == rocketed_controls(
                hooked_controls(nav_controls(jump, near, act), self.hook_phase != HookPhase::Idle, *hook),
                self.rj_phase != RjPhase::Idle,
                *rj,
            ),
    {
        let mut c = Controls { buttons: 0, impulse: 0, moving: MoveBy::Still };
        match act {
            GateAct::Nothing => {
                if jump {
                    c.buttons = BUTTON_JUMP;
                }
                if !near {
                    c.moving = MoveBy::Waypoint;
                }
            },
            GateAct::Push => {
                c.moving = MoveBy::Button;
            },
            GateAct::BackOff => {
                c.impulse = IMPULSE_SHOTGUN;
                c.moving = MoveBy::BackOff;
            },
            GateAct::Shoot { fire } => {
                c.impulse = IMPULSE_SHOTGUN;
                if fire {
                    c.buttons = BUTTON_ATTACK;
                }
            },
        }
        if self.hook_phase != HookPhase::Idle {
            c.buttons = c.buttons.without(BUTTON_JUMP);
            if hook.select {
                c.impulse = IMPULSE_GRAPPLE;
            }
            c.moving = if !hook.stand && hook.approach {
                MoveBy::Approach
            } else {
                MoveBy::Still
            };
        }
        if self.rj_phase != RjPhase::Idle {
            c.buttons = c.buttons.without(BUTTON_JUMP);
            if rj.select {
                c.impulse = IMPULSE_ROCKET;
            }
            if rj.fire {
                c.buttons = c.buttons.with(BUTTON_ATTACK);
            }
            c.moving = if rj.stand {
                MoveBy::Still
            } else if rj.approach {
                MoveBy::Approach
            } else if rj.correct {
                MoveBy::Correct
            } else {
                MoveBy::Still
            };
        }
        c
    }
}

/// Whether a bot stops short of its destination, `dist` being what is left to the waypoint.
pub fn stops_short(final_leg: bool, polite: bool, dist: u32) -> (r: bool)
    ensures
        r == close_enough(final_leg, polite, dist),
{
    final_leg && polite && dist <= POLITE_DIST
}

/// What the view is aimed at before combat.
#[derive(Clone, Copy, PartialEq, Eq, Debug, Structural)]
pub enum ViewBy {
    /// The point that the eyes were sent to.
    Point,
    /// The way to the waypoint.
    Steering,
    /// The view as it is.
    Held,
    /// The view as the server has it, for want of one.
    Seeded,
    /// The anchor or the landing of a hook.
    Hook,
    /// The angles of a rocket jump's shot.
    Shot,
    /// The landing of a rocket jump.
    Landing,
    /// The player that is watched.
    Watched,
    /// The button of an errand's gate.
    Button,
}

/// Horizontal distances to what might be looked at.
#[derive(Clone, Copy, PartialEq, Eq, Debug, Structural)]
pub struct ViewFacts {
    /// To the point that the eyes were sent to, and to the waypoint.
    pub look: u32,
    pub waypoint: u32,
    /// Whether the bot has a view of its own yet.
    pub aimed: bool,
    /// To the targets of the hook and of the rocket jump.
    pub hook: u32,
    pub landing: u32,
    /// To the player that is watched, where one is.
    pub watched: Option<u32>,
}

/// Navigation's view: the point, unless it is so near that its direction means nothing.
pub open spec fn nav_view(f: ViewFacts) -> ViewBy {
    if f.look > LOOK_MIN {
        ViewBy::Point
    } else if f.waypoint > STEER_MIN {
        ViewBy::Steering
    } else if f.aimed {
        ViewBy::Held
    } else {
        ViewBy::Seeded
    }
}

/// The view: a button first, then whom to watch, the rocket jump, the hook, and navigation.
pub open spec fn viewed(b: BotState, f: ViewFacts, act: GateAct, hook: HookDrive, rj: RjDrive) -> ViewBy {
    if act != GateAct::Nothing {
        ViewBy::Button
    } else if b.hook_phase == HookPhase::Idle && b.rj_phase == RjPhase::Idle && (f.watched matches Some(d) && d
        > LOOK_MIN) {
        ViewBy::Watched
    } else if rj.look == RjLook::Shot {
        ViewBy::Shot
    } else if rj.look == RjLook::Landing && f.landing > AIM_MIN {
        ViewBy::Landing
    } else if hook.look != HookLook::Keep && f.hook > AIM_MIN {
        ViewBy::Hook
    } else {
        nav_view(f)
    }
}

impl BotState {
    /// Choose the view.
    pub fn view_by(&self, f: &ViewFacts, act: GateAct, hook: &HookDrive, rj: &RjDrive) -> (r: ViewBy)
        ensures
            r == viewed(*self, *f, act, *hook, *rj),
    {
        if act != GateAct::Nothing {
            return ViewBy::Button;
        }
        let free: bool = self.hook_phase == HookPhase::Idle && self.rj_phase == RjPhase::Idle;
        if let Some(d) = f.watched {
            if free && d > LOOK_MIN {
                return ViewBy::Watched;
            }
        }
        if rj.look == RjLook::Shot {
            ViewBy::Shot
        } else if rj.look == RjLook::Landing && f.landing > AIM_MIN {
            ViewBy::Landing
        } else if hook.look != HookLook::Keep && f.hook > AIM_MIN {
            ViewBy::Hook
        } else if f.look > LOOK_MIN {
            ViewBy::Point
        } else if f.waypoint > STEER_MIN {
            ViewBy::Steering
        } else if f.aimed {
            ViewBy::Held
        } else {
            ViewBy::Seeded
        }
    }
}

/// Whether a traversal owns the frame, so that no fighting may disturb it.
pub open spec fn locked(b: BotState, kind: Option<LinkKind>, on_air: bool) -> bool {
    ||| b.hook_phase == HookPhase::Flight || b.hook_phase == HookPhase::Reel || b.hook_phase == HookPhase::Ballistic
    ||| b.rj_phase == RjPhase::Rise || b.rj_phase == RjPhase::Ballistic
    ||| on_air
    ||| kind == Some(LinkKind::JumpGap) || kind == Some(LinkKind::DoubleJump) || kind == Some(LinkKind::SpeedJump)
}

/// Which overlays may act on the frame.
#[derive(Clone, Copy, PartialEq, Eq, Debug, Structural)]
pub struct Overlays {
    /// Combat may aim, move and fire.
    pub engage: bool,
    /// Grenades and rocket shoves may.
    pub splash: bool,
}

pub open spec fn overlays_of(b: BotState, kind: Option<LinkKind>, on_air: bool, enemy: bool, hopping: bool) -> Overlays {
    let lock = locked(b, kind, on_air);
    Overlays {
        engage: enemy && !lock,
        splash: b.hook_phase == HookPhase::Idle && b.rj_phase == RjPhase::Idle && !hopping && !lock,
    }
}

/// What the splash weapons do: react to live grenades first, then finish a running combination,
/// then shove with a rocket, then start a combination.
#[derive(Clone, Copy, PartialEq, Eq, Debug, Structural)]
pub enum SplashStep {
    /// The reaction owned the frame.
    Handled,
    /// A combination is running: drive it.
    Combo,
    /// Try the rocket shove, and where it does not act, the combination.
    Shove,
}

impl BotState {
    pub fn overlays(&self, kind: Option<LinkKind>, on_air: bool, enemy: bool, hopping: bool) -> (r: Overlays)
        ensures
            r == overlays_of(*self, kind, on_air, enemy, hopping),
    {
        let hook: bool = match self.hook_phase {
            HookPhase::Flight | HookPhase::Reel | HookPhase::Ballistic => true,
            _ => false,
        };
        let rj: bool = match self.rj_phase {
            RjPhase::Rise | RjPhase::Ballistic => true,
            _ => false,
        };
        let leap: bool = match kind {
            Some(LinkKind::JumpGap) | Some(LinkKind::DoubleJump) | Some(LinkKind::SpeedJump) => true,
            _ => false,
        };
        let lock: bool = hook || rj || on_air || leap;
        Overlays {
            engage: enemy && !lock,
            splash: self.hook_phase == HookPhase::Idle && self.rj_phase == RjPhase::Idle && !hopping && !lock,
        }
    }

    /// Order the splash weapons, given whether the reaction to live grenades owned the frame. A
    /// reaction drops a running combination.
    pub fn splash_step(&mut self, handled: bool) -> (r: SplashStep)
        ensures
            r == splash_order(*old(self), handled),
            *final(self) == (BotState {
                grenade_phase: if handled {
                    GrenadePhase::Idle
                } else {
                    old(self).grenade_phase
                },
                ..*old(self)
            }),
            r == if handled {
                SplashStep::Handled
            } else if old(self).grenade_phase != GrenadePhase::Idle {
                SplashStep::Combo
            } else {
                SplashStep::Shove
            },
    {
        if handled {
            self.grenade_phase = GrenadePhase::Idle;
            SplashStep::Handled
        } else if self.grenade_phase != GrenadePhase::Idle {
            SplashStep::Combo
        } else {
            SplashStep::Shove
        }
    }

    /// The last word on the buttons, once the smoothed view is known, `off` what is wanted: a throw
    /// and a launch wait for it to settle, and a thrown hook keeps fire pressed.
    pub fn emit(
        &mut self,
        buttons: i32,
        hook: &HookDrive,
        rj: &RjDrive,
        off: u32,
        now: i64,
    ) -> (r: i32)
        ensures
            *final(self) == launched(*old(self), *hook, *rj, off, now),
            r == sent_buttons(buttons, *hook, *rj, off),
    {
        let mut out: i32 = buttons;
        if hook.fire_ready {
            if off < HOOK_AIM_TOL {
                out = out.with(BUTTON_ATTACK);
                self.hook_phase = HookPhase::Flight;
                self.hook_started = now;
            }
        } else if hook.hold_fire {
            out = out.with(BUTTON_ATTACK);
        }
        if rj.jump_ready && off < RJ_AIM_TOL {
            out = out.with(BUTTON_JUMP);
            self.rj_phase = RjPhase::Rise;
            self.rj_jump_time = now;
        }
        out
    }
}

/// The state once a throw or a launch was made.
pub open spec fn launched(
    b: BotState,
    hook: HookDrive,
    rj: RjDrive,
    off: u32,
    now: i64,
) -> BotState {
    let throw = hook.fire_ready && off < HOOK_AIM_TOL;
    let launch = rj.jump_ready && off < RJ_AIM_TOL;
    BotState {
        hook_phase: if throw {
            HookPhase::Flight
        } else {
            b.hook_phase
        },
        hook_started: if throw {
            now
        } else {
            b.hook_started
        },
        rj_phase: if launch {
            RjPhase::Rise
        } else {
            b.rj_phase
        },
        rj_jump_time: if launch {
            now
        } else {
            b.rj_jump_time
        },
        ..b
    }
}

pub open spec fn sent_buttons(buttons: i32, hook: HookDrive, rj: RjDrive, off: u32) -> i32 {
    let fired = if (hook.fire_ready && off < HOOK_AIM_TOL) || (!hook.fire_ready && hook.hold_fire) {
        buttons | BUTTON_ATTACK
    } else {
        buttons
    };
    if rj.jump_ready && off < RJ_AIM_TOL {
        fired | BUTTON_JUMP
    } else {
        fired
    }
}

/// Neither combat nor splash weapons act while a bot flies: on a thrown hook, a rocket jump or a
/// leap the frame belongs to the traversal.
pub proof fn traversal_is_undisturbed(b: BotState, kind: Option<LinkKind>, on_air: bool, enemy: bool, hopping: bool)
    requires
        locked(b, kind, on_air),
    ensures
        !overlays_of(b, kind, on_air, enemy, hopping).engage,
        !overlays_of(b, kind, on_air, enemy, hopping).splash,
{
}

// --- what a frame promises ---
proof fn lemma_pending(
    graph: NavGraph,
    route: Seq<u32>,
    facts: Seq<LegFacts>,
    fast: bool,
    stride: u32,
    at: int,
    k: int,
)
    requires
        0 <= at,
    ensures
        ({
            let p = first_pending(graph, route, facts, fast, stride, at);
            &&& at <= p
            &&& p <= route.len() || p == at
            &&& at <= k < p ==> arrived(graph.leg(route, k).kind, facts[k], fast, stride)
            &&& p < route.len() ==> !arrived(graph.leg(route, p).kind, facts[p], fast, stride)
        }),
    decreases route.len() - at,
{
    if at < route.len() && arrived(graph.leg(route, at).kind, facts[at], fast, stride) {
        lemma_pending(graph, route, facts, fast, stride, at + 1, k);
    }
}

/// A bot passes exactly the legs that it is done with. It stops at no leg whose target lies within
/// twenty-four units, unless that leg is a lift, a hook or a rocket jump; a lift is done with near its
/// top; hooks and rocket jumps are never passed here; and a bot that runs also passes what it covers in
/// a stride, or what lies behind it within sixty-four units.
pub proof fn reached_legs_are_passed(
    b: BotState,
    graph: NavGraph,
    facts: Seq<LegFacts>,
    stride: u32,
    on_ground: bool,
    on_air: bool,
    k: int,
)
    requires
        graph.covers(b.route@),
        facts.len() == b.route@.len(),
        on_ground || !on_air,
    ensures
        ({
            let pos = advanced(b, graph, facts, stride, on_ground, on_air).route_pos as int;
            let fast = b.bhop.phase != Phase::Off || b.sj_leg is Some;
            &&& b.route_pos <= pos
            &&& pos <= b.route@.len() || pos == b.route_pos
            &&& b.route_pos <= k < pos ==> {
                let kind = graph.links@[b.route@[k] as int].kind;
                let f = facts[k];
                &&& kind != LinkKind::Hook && kind != LinkKind::RocketJump
                &&& kind == LinkKind::Plat ==> f.climb <= 18_000
                &&& kind != LinkKind::Plat ==> f.dist <= 24_000 || (fast && (f.dist <= stride || (f.behind && f.dist
                    <= 64_000)))
            }
            &&& pos < b.route@.len() ==> {
                let kind = graph.links@[b.route@[pos] as int].kind;
                let f = facts[pos];
                &&& kind == LinkKind::Plat ==> f.climb > 18_000
                &&& kind != LinkKind::Plat && kind != LinkKind::Hook && kind != LinkKind::RocketJump ==> f.dist > 24_000
                &&& kind != LinkKind::Plat && kind != LinkKind::Hook && kind != LinkKind::RocketJump && fast ==> f.dist
                    > stride && !(f.behind && f.dist <= 64_000)
            }
        }),
{
    let fast = running(b);
    let at = b.route_pos as int;
    lemma_pending(graph, b.route@, facts, fast, stride, at, k);
    let p = first_pending(graph, b.route@, facts, fast, stride, at);
    lemma_pending(graph, b.route@, facts, fast, stride, at, p);
    assert(b.route.len() == b.route@.len());
    assert(p <= usize::MAX);
}

/// In the air on a committed jump nothing is passed; and passing legs changes nothing else.
pub proof fn jumps_are_flown_to_their_end(
    b: BotState,
    graph: NavGraph,
    facts: Seq<LegFacts>,
    stride: u32,
    on_ground: bool,
    on_air: bool,
)
    ensures
        ({
            let after = advanced(b, graph, facts, stride, on_ground, on_air);
            &&& !on_ground && on_air ==> after == b
            &&& after == (BotState { route_pos: after.route_pos, ..b })
        }),
{
}

/// What a bot senses of itself: it lives with health and without a death; a move takes between one and
/// a hundred milliseconds.
pub proof fn senses_are_true(v: EntVars, c: CombatState, now: i64, frame: i32)
    ensures
        ({
            let s = sensed(v, c, now, frame);
            &&& s.alive <==> v.health > 0 && v.deadflag == DeadFlag::No
            &&& s.on_ground <==> v.flags & Flags::ONGROUND != 0
            &&& s.has_grapple <==> v.items & Items::GRAPPLE != 0
            &&& s.has_rl <==> v.items & Items::ROCKET_LAUNCHER != 0
            &&& s.quad <==> c.super_damage_finished > now
            &&& s.air_jumped == c.air_jumped
            &&& 1 <= s.msec <= 100
            &&& 1 <= frame <= 100 ==> s.msec == frame
            &&& frame > 100 ==> s.msec == 100
        }),
{
}

/// A route is kept while a hook, a rocket jump, a speed jump or a jump is under way, and only then.
pub proof fn traversals_freeze_the_route(b: BotState)
    ensures
        committed(b).frozen() <==> b.hook_phase != HookPhase::Idle || b.rj_phase != RjPhase::Idle || b.sj_leg is Some
            || b.air_leg is Some,
        committed(b).riding() <==> b.hook_phase != HookPhase::Idle || b.rj_phase != RjPhase::Idle || b.sj_leg is Some,
{
}

/// A bot that was moved more than two hundred units in a frame was flung.
pub proof fn teleports_are_noticed(d: u32)
    ensures
        flung(Some(d)) <==> d > 200_000,
        !flung(None),
{
}

/// An errand ends when its gate is open; it is given up, and its gate avoided for six seconds, when the
/// button cannot be reached or is not come closer to for four; and it goes on otherwise.
pub proof fn errands_end(
    b: BotState,
    c: Commitment,
    closed: Seq<bool>,
    reachable: bool,
    dist: u32,
    now: i64,
    after: BotState,
)
    requires
        errand(b, c, closed, reachable, dist, now, after),
        b.gate is Some,
        !c.hooking && !c.on_sj && !c.on_rj,
        now < i64::MAX - 6_000,
    ensures
        ({
            let gi = b.gate->0;
            let shut = gi < closed.len() && closed[gi as int];
            let closer = if b.gate_best_dist == FAR {
                dist != FAR
            } else {
                dist + 4_000 < b.gate_best_dist
            };
            let late = now - b.gate_since > 4_000;
            &&& !shut ==> after.gate is None && after.route@.len() == 0 && after.avoid_gate == b.avoid_gate
            &&& shut && (!reachable || (!closer && late)) ==> after.gate is None && after.route@.len() == 0
                && after.avoid_gate == gi && after.avoid_gate_until == now + 6_000
            &&& shut && reachable && (closer || !late) ==> after.gate == b.gate && after.route == b.route
            &&& shut && reachable && closer ==> after.gate_best_dist == dist && after.gate_since == now
        }),
{
}

/// An errand waits while the bot rides something.
pub proof fn errands_wait(b: BotState, c: Commitment, closed: Seq<bool>, reachable: bool, dist: u32, now: i64, after: BotState)
    requires
        errand(b, c, closed, reachable, dist, now, after),
        b.gate is None || c.hooking || c.on_sj || c.on_rj,
    ensures
        after == b,
{
}

/// The bot walks to the end of its leg; on a lift to its middle; and past the last leg to the objective
/// itself.
pub proof fn legs_are_walked_to_their_end(b: BotState, graph: NavGraph)
    ensures
        ({
            let p = current_leg(b, graph);
            let on = b.route_pos < b.route@.len();
            let leg = b.route@[b.route_pos as int];
            &&& p.final_leg <==> !on
            &&& !on ==> p.waypoint == Waypoint::Objective && p.kind is None && p.cur_leg is None
            &&& on ==> p.cur_leg == Some(leg) && p.kind == Some(graph.links@[leg as int].kind)
            &&& on && graph.links@[leg as int].kind == LinkKind::Plat ==> p.waypoint == Waypoint::Source(leg)
            &&& on && graph.links@[leg as int].kind != LinkKind::Plat ==> p.waypoint == Waypoint::Target(leg)
        }),
{
}

/// A raised lift is kept off within ninety-six units of it, by who does not stand on it; one that is
/// down is not.
pub proof fn raised_lifts_are_kept_off(lift: Lift, origin: [i32; 3])
    ensures
        ({
            let (x, y, z) = (origin@[0], origin@[1], origin@[2]);
            let near = |m: int|
                lift.fp_min@[0] - m <= x <= lift.fp_max@[0] + m && lift.fp_min@[1] - m <= y <= lift.fp_max@[1] + m;
            &&& lift.down ==> !keep_off(lift, origin)
            &&& !near(96_000) ==> !keep_off(lift, origin)
            &&& near(0) && z > lift.surface_z + 8_000 ==> !keep_off(lift, origin)
            &&& !lift.down && near(96_000) && (!near(0) || z <= lift.surface_z + 8_000) ==> keep_off(lift, origin)
        }),
{
}

/// Of the next four legs, the first that boards a lift is the one that is watched.
pub proof fn the_next_lift_is_watched(graph: NavGraph, route: Seq<u32>, at: int, left: int, k: int)
    requires
        0 <= at <= k < route.len(),
        k < at + left,
        graph.links@[route[k] as int].plat is Some,
        forall|j: int| at <= j < k ==> (#[trigger] graph.links@[route[j] as int]).plat is None,
    ensures
        lift_ahead(graph, route, at, left) == graph.links@[route[k] as int].plat,
    decreases k - at,
{
    if at < k {
        assert(graph.links@[route[at] as int].plat is None);
        the_next_lift_is_watched(graph, route, at + 1, left - 1, k);
    }
}

/// A lift that never comes is planned around after eight seconds; the wait starts over for another.
pub proof fn lifts_are_not_waited_for_forever(b: BotState, graph: NavGraph, hold: Option<usize>, now: i64, after: BotState)
    requires
        waited_for_lift(b, graph, hold, now, after),
    ensures
        hold is None ==> after.plat_wait is None && after.route == b.route,
        hold is Some && b.plat_wait != hold ==> after.plat_wait == hold && after.plat_wait_since == now && after.route
            == b.route,
        hold is Some && b.plat_wait == hold && now - b.plat_wait_since > 8_000 ==> after.plat_wait is None
            && after.route@.len() == 0 && after.repath_time == now,
        hold is Some && b.plat_wait == hold && now - b.plat_wait_since <= 8_000 ==> after == b,
{
}

/// The eyes: a sweep first, then a lift that is waited for, then the leg after next, then the
/// objective; an enemy that was not seen for two seconds is not looked at.
pub proof fn eyes_have_their_order(
    b: BotState,
    scanning: bool,
    hold: Option<usize>,
    enemy: bool,
    chasing: bool,
    final_leg: bool,
    speed: u32,
    now: i64,
)
    ensures
        ({
            let r = eyes(b, scanning, hold, enemy, chasing, final_leg, speed, now);
            let ahead = b.route_pos + 2 < b.route@.len();
            let unseen = enemy && !chasing && (b.enemy_seen_time <= 0 || now - b.enemy_seen_time > 2_000);
            &&& scanning <==> r == LookAt::Scan
            &&& !scanning && hold is Some ==> r == LookAt::Lift(hold->0)
            &&& !scanning && hold is None && ahead ==> r == LookAt::Leg(b.route@[b.route_pos + 2])
            &&& !scanning && hold is None && !ahead && unseen ==> r == if final_leg && speed > 20_000 {
                LookAt::Heading
            } else {
                LookAt::Waypoint
            }
            &&& !scanning && hold is None && !ahead && !unseen ==> r == LookAt::Objective
        }),
{
}

/// A bot that has not moved sixteen units in seven tenths of a second is wedged, unless it is excused:
/// then it plans anew, around the leg it was on.
pub proof fn the_stuck_are_noticed(
    b: BotState,
    exempt: bool,
    moved: u32,
    leg: Option<u32>,
    kind: Option<LinkKind>,
    now: i64,
    after: BotState,
)
    requires
        stuck_checked(b, stuck_verdict(b, exempt, moved, now), leg, kind, now, after),
    ensures
        exempt || moved > 16_000 ==> stuck_verdict(b, exempt, moved, now) == StuckVerdict::Moving && after.stuck_since == now
            && after.failed_links == b.failed_links,
        !exempt && moved <= 16_000 && now - b.stuck_since <= 700 ==> stuck_verdict(b, exempt, moved, now)
            == StuckVerdict::Waiting && after == b,
        !exempt && moved <= 16_000 && now - b.stuck_since > 700 ==> stuck_verdict(b, exempt, moved, now)
            == StuckVerdict::Wedged && after.stuck_since == now && after.repath_time == now,
        !exempt && moved <= 16_000 && now - b.stuck_since > 700 && (leg is None || kind == Some(LinkKind::Plat) || kind
            == Some(LinkKind::Teleport)) ==> after.failed_links@ == b.failed_links@,
        !exempt && moved <= 16_000 && now - b.stuck_since > 700 && leg is Some && kind != Some(LinkKind::Plat) && kind
            != Some(LinkKind::Teleport) ==> struck(b.failed_links@, leg->0, now, after.failed_links@),
{
}

/// A way that has not got thirty-two units shorter in two and a half seconds is given up.
pub proof fn stalled_ways_are_given_up(
    b: BotState,
    suspended: bool,
    goal_dist: u32,
    leg: Option<u32>,
    kind: Option<LinkKind>,
    now: i64,
    after: BotState,
)
    requires
        progress_checked(b, suspended, goal_dist, leg, kind, now, after),
    ensures
        ({
            let known = b.progress_best != FAR;
            let late = now - b.progress_since > 2_500;
            &&& suspended ==> after.progress_best == goal_dist && after.progress_since == now && after.route == b.route
            &&& !suspended && known && late && goal_dist + 32_000 > b.progress_best ==> after.route@.len() == 0
                && after.repath_time == now && after.progress_since == now
            &&& !suspended && known && goal_dist + 32_000 < b.progress_best ==> after.progress_best == goal_dist
                && after.progress_since == now && after.route == b.route
            &&& !suspended && known && !late && goal_dist + 32_000 >= b.progress_best ==> after == b
            &&& !suspended && !known && goal_dist != FAR ==> after.progress_best == goal_dist && after.route == b.route
        }),
{
}

/// Who flies, jumps, waits at a lift or stands watch is not called stuck; who walks is.
pub proof fn excuses_are_for_traversals(c: Commitment, kind: Option<LinkKind>, vigil: bool, holding: bool)
    ensures
        ({
            let x = excused(c, kind, vigil, holding);
            let hook = c.hooking || kind == Some(LinkKind::Hook);
            let rj = c.on_rj || kind == Some(LinkKind::RocketJump);
            &&& stuck_exempt(x) <==> hook || rj || c.on_air || vigil || holding
            &&& progress_suspended(x, kind) <==> hook || rj || c.on_sj || c.on_air || vigil || kind == Some(
                LinkKind::Plat,
            )
        }),
{
}

/// The angle between two bearings is at most half a turn, the same both ways, and none between equal
/// bearings or bearings a turn apart.
pub proof fn bends_are_angles(a: int, b: int)
    ensures
        0 <= turn(a, b) <= 180_000,
        turn(a, b) == turn(b, a),
        turn(a, a) == 0,
        turn(a, a + 360_000) == 0,
        a <= b <= a + 180_000 ==> turn(a, b) == b - a,
        a + 180_000 <= b <= a + 360_000 ==> turn(a, b) == a + 360_000 - b,
{
    assert(360_000int % 360000 == 0);
}

/// A corridor lasts over walks and steps that bend no more than thirty-five degrees between chords of
/// ninety-six units.
pub proof fn corridors_are_straight(w: Runway, kind: LinkKind, leg: u32, yaw: i32)
    requires
        w.anchor <= w.dist,
        w.dist + leg <= u32::MAX,
    ensures
        ({
            let (after, step) = paced(w, kind, leg, yaw);
            let foot = kind == LinkKind::Walk || kind == LinkKind::Step;
            let chord = w.dist + leg - w.anchor >= 96_000;
            let bends = w.yaw is Some && turn(yaw as int, w.yaw->0 as int) > 35_000;
            &&& !foot ==> step == RunwayStep::Ends(w.dist)
            &&& foot && !chord ==> step == RunwayStep::On && after == (Runway { dist: (w.dist + leg) as u32, ..w })
            &&& foot && chord && bends ==> step == RunwayStep::Ends(w.anchor)
            &&& foot && chord && !bends ==> step == RunwayStep::Chord && after.dist == w.dist + leg && after.anchor
                == after.dist && after.yaw == Some(yaw)
        }),
{
}

/// A hop is never begun or kept up against a veto: with hops off, an enemy seen half a second ago, on a
/// hook or a rocket jump, while watching someone, on an errand, or in a grenade combination.
pub proof fn hops_are_vetoed(b: BotState, f: HopFacts, now: i64)
    ensures
        policy(b, f, now).veto <==> {
            ||| !f.enabled
            ||| f.enemy && b.enemy_seen_time > 0 && now - b.enemy_seen_time < 500
            ||| f.hook_active
            ||| f.rj_active
            ||| f.watching
            ||| b.gate is Some
            ||| b.grenade_phase != GrenadePhase::Idle
        },
{
}

/// A hop is begun on foot, far from the goal or where the plan counts on speed, down a corridor of two
/// hundred and fifty-six units; it is kept up with half the way left.
pub proof fn hops_need_room(b: BotState, f: HopFacts, now: i64)
    ensures
        ({
            let p = policy(b, f, now);
            let foot = f.kind == Some(LinkKind::Walk) || f.kind == Some(LinkKind::Step);
            let at = b.route_pos as int;
            let planned = at < b.route_bands@.len() && b.route_bands@[at] >= 1;
            let next = at + 1 < b.route_bands@.len() && b.route_bands@[at + 1] >= 1;
            &&& p.entry <==> foot && !f.final_leg && f.runway >= 256_000 && (f.goal_dist > 300_000 || planned)
            &&& p.sustain <==> foot && (f.goal_dist > 150_000 || planned)
            &&& p.zigzag <==> foot && !f.final_leg && f.zigzag_enabled && f.zigzag_runway && f.goal_dist > 150_000
            &&& p.carry <==> planned || next
        }),
{
}

/// A speed jump is committed to on its leg, and given up after four seconds.
pub proof fn speed_jumps_end(
    b: BotState,
    kind: Option<LinkKind>,
    enabled: bool,
    x: Excuse,
    leg: Option<u32>,
    now: i64,
    after: BotState,
    on: bool,
)
    requires
        speed_jumped(b, kind, enabled, x, leg, now, after, on),
        b.sj_leg == leg ==> b.sj_started <= now,
    ensures
        kind != Some(LinkKind::SpeedJump) || !enabled || x.hook_active || x.rj_active ==> !on && after.sj_leg is None
            && after.route == b.route,
        kind == Some(LinkKind::SpeedJump) && enabled && !x.hook_active && !x.rj_active && b.sj_leg != leg ==> on
            && after.sj_leg == leg && after.sj_started == now,
        kind == Some(LinkKind::SpeedJump) && enabled && !x.hook_active && !x.rj_active && b.sj_leg == leg ==> (on <==> now
            - b.sj_started <= 4_000) && (on ==> after == b) && (!on ==> after.sj_leg is None && after.route@.len() == 0),
{
}

/// A jump is committed to on its leg and let go of on landing, two tenths of a second after it began at
/// the earliest; one that lasts two and a half seconds is struck and planned around.
pub proof fn jumps_are_let_go_of(
    b: BotState,
    kind: Option<LinkKind>,
    leg: Option<u32>,
    on_ground: bool,
    now: i64,
    after: BotState,
)
    requires
        air_jumped(b, kind, leg, on_ground, now, after),
        leg is Some,
    ensures
        ({
            let jump = kind == Some(LinkKind::JumpGap) || kind == Some(LinkKind::DoubleJump);
            let age = now - b.air_started;
            &&& !jump ==> after.air_leg is None && after.route == b.route
            &&& jump && b.air_leg != leg ==> after.air_leg == leg && after.air_started == now && after.route == b.route
            &&& jump && b.air_leg == leg && on_ground && age > 200 ==> after.air_leg is None && after.route == b.route
            &&& jump && b.air_leg == leg && age <= 200 ==> after == b
            &&& jump && b.air_leg == leg && !on_ground && age > 2_500 ==> after.air_leg is None && after.route@.len() == 0
            &&& jump && b.air_leg == leg && !on_ground && age <= 2_500 ==> after == b
        }),
{
}

/// On the ground jump is pressed for a jump leg, a hop, or to get unstuck; in the air once, by a double
/// jump past its rise, or by a plain one that would fall short.
pub proof fn jumps_are_pressed_for_a_reason(f: JumpFacts)
    ensures
        f.on_ground ==> (jump_pressed(f) <==> f.force_jump || f.hop_jump || f.kind == Some(LinkKind::JumpGap) || f.kind
            == Some(LinkKind::DoubleJump)),
        !f.on_ground && (f.air_jumped || f.vz > 30_000) ==> !jump_pressed(f),
        !f.on_ground && !f.air_jumped && f.vz <= 30_000 && f.kind == Some(LinkKind::DoubleJump) ==> jump_pressed(f),
        !f.on_ground && !f.air_jumped && f.kind == Some(LinkKind::JumpGap) ==> (jump_pressed(f) <==> f.vz < 0 && f.climb
            > 20_000),
        !f.on_ground && f.kind != Some(LinkKind::DoubleJump) && f.kind != Some(LinkKind::JumpGap) ==> !jump_pressed(f),
{
}

/// A polite bot stops sixty-four units short of its goal.
pub proof fn the_polite_stop_short(final_leg: bool, polite: bool, dist: u32)
    ensures
        close_enough(final_leg, polite, dist) <==> final_leg && polite && dist <= 64_000,
{
}

/// The keys without a hook or a rocket jump: toward the waypoint unless it is near, with jump as asked;
/// at a button they are the button's alone.
pub proof fn keys_follow_the_route(jump: bool, near: bool, act: GateAct)
    ensures
        ({
            let c = nav_controls(jump, near, act);
            &&& act == GateAct::Nothing ==> c.moving == (if near {
                MoveBy::Still
            } else {
                MoveBy::Waypoint
            }) && c.impulse == 0 && c.buttons == (if jump {
                BUTTON_JUMP
            } else {
                0
            })
            &&& act == GateAct::Push ==> c.moving == MoveBy::Button && c.buttons == 0 && c.impulse == 0
            &&& act == GateAct::BackOff ==> c.moving == MoveBy::BackOff && c.buttons == 0 && c.impulse == 2
            &&& act is Shoot ==> c.moving == MoveBy::Still && c.impulse == 2 && c.buttons == (if act == (GateAct::Shoot {
                fire: true,
            }) {
                BUTTON_ATTACK
            } else {
                0
            })
        }),
{
}

/// A hook in use takes jump off the keys and moves the bot to its stance or not at all; out of use it
/// changes nothing.
pub proof fn hooks_own_the_keys(c: Controls, engaged: bool, h: HookDrive)
    ensures
        ({
            let r = hooked_controls(c, engaged, h);
            &&& !engaged ==> r == c
            &&& engaged ==> r.buttons & BUTTON_JUMP == 0 && r.buttons | BUTTON_JUMP == c.buttons | BUTTON_JUMP
            &&& engaged && h.approach && !h.stand ==> r.moving == MoveBy::Approach
            &&& engaged && (h.stand || !h.approach) ==> r.moving == MoveBy::Still
            &&& engaged && h.select ==> r.impulse == 22
            &&& engaged && !h.select ==> r.impulse == c.impulse
        }),
{
    let (b, j) = (c.buttons, BUTTON_JUMP);
    assert((b & !j) & j == 0 && (b & !j) | j == b | j) by (bit_vector);
}

/// A rocket jump in use likewise, and fires when told to.
pub proof fn rocket_jumps_own_the_keys(c: Controls, engaged: bool, d: RjDrive)
    ensures
        ({
            let r = rocketed_controls(c, engaged, d);
            &&& !engaged ==> r == c
            &&& engaged && d.fire ==> r.buttons & BUTTON_ATTACK != 0
            &&& engaged && !d.fire ==> r.buttons | BUTTON_JUMP == c.buttons | BUTTON_JUMP && r.buttons & BUTTON_JUMP == 0
            &&& engaged && d.select ==> r.impulse == 7
            &&& engaged && !d.select ==> r.impulse == c.impulse
            &&& engaged && d.stand ==> r.moving == MoveBy::Still
            &&& engaged && !d.stand && d.approach ==> r.moving == MoveBy::Approach
            &&& engaged && !d.stand && !d.approach && d.correct ==> r.moving == MoveBy::Correct
            &&& engaged && !d.stand && !d.approach && !d.correct ==> r.moving == MoveBy::Still
        }),
{
    let (b, j, a) = (c.buttons, BUTTON_JUMP, BUTTON_ATTACK);
    assert((b & !j) & j == 0 && (b & !j) | j == b | j) by (bit_vector);
    let cut = b & !j;
    assert((cut | 1) & 1 != 0) by (bit_vector);
}

/// The view without an errand, a hook, a rocket jump or someone to watch: the point looked at where it
/// is forty-eight units away, else the way, else as it was.
pub proof fn views_follow_the_route(f: ViewFacts)
    ensures
        f.look > 48_000 <==> nav_view(f) == ViewBy::Point,
        f.look <= 48_000 && f.waypoint > 8_000 ==> nav_view(f) == ViewBy::Steering,
        f.look <= 48_000 && f.waypoint <= 8_000 && f.aimed ==> nav_view(f) == ViewBy::Held,
        f.look <= 48_000 && f.waypoint <= 8_000 && !f.aimed ==> nav_view(f) == ViewBy::Seeded,
{
}

/// Who may turn the view: a button before all; someone to watch where nothing is flown; a rocket jump
/// before a hook; the route last.
pub proof fn views_have_their_order(b: BotState, f: ViewFacts, act: GateAct, hook: HookDrive, rj: RjDrive)
    ensures
        ({
            let r = viewed(b, f, act, hook, rj);
            let watch = b.hook_phase == HookPhase::Idle && b.rj_phase == RjPhase::Idle && (f.watched matches Some(d) && d
                > 48_000);
            let land = rj.look == RjLook::Landing && f.landing > 1_000;
            let swing = hook.look != HookLook::Keep && f.hook > 1_000;
            &&& act != GateAct::Nothing <==> r == ViewBy::Button
            &&& act == GateAct::Nothing && watch ==> r == ViewBy::Watched
            &&& act == GateAct::Nothing && !watch && rj.look == RjLook::Shot ==> r == ViewBy::Shot
            &&& act == GateAct::Nothing && !watch && land ==> r == ViewBy::Landing
            &&& act == GateAct::Nothing && !watch && rj.look != RjLook::Shot && !land && swing ==> r == ViewBy::Hook
            &&& act == GateAct::Nothing && !watch && rj.look != RjLook::Shot && !land && !swing ==> r == nav_view(f)
        }),
{
}

/// A fight may take over exactly where no flight, jump or jump leg is under way; splash weapons moreover
/// only where no hook or rocket jump is even being set up, and no hop is going on.
pub proof fn fights_wait_for_landings(b: BotState, kind: Option<LinkKind>, on_air: bool, enemy: bool, hopping: bool)
    ensures
        ({
            let o = overlays_of(b, kind, on_air, enemy, hopping);
            let flying = b.hook_phase == HookPhase::Flight || b.hook_phase == HookPhase::Reel || b.hook_phase
                == HookPhase::Ballistic || b.rj_phase == RjPhase::Rise || b.rj_phase == RjPhase::Ballistic || on_air;
            let leap = kind == Some(LinkKind::JumpGap) || kind == Some(LinkKind::DoubleJump) || kind == Some(
                LinkKind::SpeedJump,
            );
            &&& o.engage <==> enemy && !flying && !leap
            &&& o.splash <==> b.hook_phase == HookPhase::Idle && b.rj_phase == RjPhase::Idle && !on_air && !leap && !hopping
        }),
{
}

/// The hook is thrown, and the rocket jump begun, once the view is within two degrees; fire is held on
/// the way; and nothing else is pressed.
pub proof fn throws_need_a_settled_view(b: BotState, buttons: i32, hook: HookDrive, rj: RjDrive, off: u32, now: i64)
    ensures
        ({
            let after = launched(b, hook, rj, off, now);
            let sent = sent_buttons(buttons, hook, rj, off);
            let throw = hook.fire_ready && off < 2_000;
            let leap = rj.jump_ready && off < 2_000;
            &&& throw ==> after.hook_phase == HookPhase::Flight && after.hook_started == now
            &&& !throw ==> after.hook_phase == b.hook_phase && after.hook_started == b.hook_started
            &&& leap ==> after.rj_phase == RjPhase::Rise && after.rj_jump_time == now
            &&& !leap ==> after.rj_phase == b.rj_phase && after.rj_jump_time == b.rj_jump_time
            &&& throw || (hook.hold_fire && !hook.fire_ready) ==> sent & BUTTON_ATTACK != 0
            &&& leap ==> sent & BUTTON_JUMP != 0
            &&& !throw && !leap && (hook.fire_ready || !hook.hold_fire) ==> sent == buttons
            &&& sent | BUTTON_ATTACK | BUTTON_JUMP == buttons | BUTTON_ATTACK | BUTTON_JUMP
        }),
{
    assert((buttons | 1) & 1 != 0 && (buttons | 2) & 2 != 0 && ((buttons | 1) | 2) & 1 != 0 && ((buttons | 1) | 2) & 2
        != 0 && (((buttons | 1) | 2) | 1) | 2 == (buttons | 1) | 2 && ((buttons | 1) | 1) | 2 == (buttons | 1) | 2 && ((
    buttons | 2) | 1) | 2 == (buttons | 1) | 2) by (bit_vector);
}

/// A raised lift within the next four legs holds the bot up where it must keep off it, and only then;
/// the bot then walks to a spot clear of it.
pub proof fn raised_lifts_hold_the_bot_up(
    b: BotState,
    graph: NavGraph,
    lifts: Seq<Lift>,
    origin: [i32; 3],
    plan: LegPlan,
    pi: usize,
)
    ensures
        ({
            let hold = held_for(b, graph, lifts, origin);
            let ahead = lift_ahead(graph, b.route@, b.route_pos as int, 4);
            let p = with_hold(plan, Some(pi));
            &&& hold is Some ==> hold == ahead && keep_off(lifts[hold->0 as int], origin)
            &&& ahead matches Some(l) ==> (keep_off(lifts[l as int], origin) ==> hold == ahead)
            &&& ahead is None ==> hold is None
            &&& p.waypoint == Waypoint::Standoff(pi) && p.kind == Some(LinkKind::Plat)
            &&& p.cur_leg == plan.cur_leg && p.final_leg == plan.final_leg
            &&& with_hold(plan, None) == plan
        }),
{
}

/// The lift that never came is struck by the first leg that rides it.
pub proof fn rides_are_found_on_the_route(graph: NavGraph, route: Seq<u32>, at: int, pi: usize, k: int)
    requires
        0 <= at <= k < route.len(),
        graph.links@[route[k] as int].kind == LinkKind::Plat,
        graph.links@[route[k] as int].plat == Some(pi),
        forall|j: int|
            at <= j < k ==> (#[trigger] graph.links@[route[j] as int]).kind != LinkKind::Plat
                || graph.links@[route[j] as int].plat != Some(pi),
    ensures
        ride_of(graph, route, at, pi) == Some(route[k]),
    decreases k - at,
{
    if at < k {
        assert(graph.links@[route[at] as int].kind != LinkKind::Plat || graph.links@[route[at] as int].plat != Some(pi));
        rides_are_found_on_the_route(graph, route, at + 1, pi, k);
    }
}

/// A lift that was given up on is struck, or nothing is where no leg rides it.
pub proof fn lifts_that_never_come_are_struck(b: BotState, graph: NavGraph, pi: usize, now: i64, after: BotState)
    requires
        waited_for_lift(b, graph, Some(pi), now, after),
        b.plat_wait == Some(pi),
        now - b.plat_wait_since > 8_000,
    ensures
        ride_of(graph, b.route@, b.route_pos as int, pi) matches Some(ride) ==> struck(
            b.failed_links@,
            ride,
            now,
            after.failed_links@,
        ),
        ride_of(graph, b.route@, b.route_pos as int, pi) is None ==> after.failed_links == b.failed_links,
{
}

/// The measures of a frame: a button is worked within forty units and shot at no more steeply than
/// sixty-eight degrees up; a leap is held from forty-eight units before the edge; a route is planned
/// anew after four tenths of a second, and a gate left alone for six.
pub proof fn frames_have_their_measures()
    ensures
        BUTTON_REACH == 40_000 && STEEPEST_PITCH == -68_000,
        EDGE_REACH == 48_000,
        REPATH_INTERVAL == 400 && GATE_AVOID_TIME == 6_000,
        GATE_GIVEUP_TIME == 4_000 && GATE_PROGRESS == 4_000,
{
}

/// Whether the leap of a speed jump is held.
pub open spec fn leap_held(on: bool, takeoff: Option<Takeoff>, speed: u32) -> bool {
    on && (takeoff matches Some(t) && (t.dist < EDGE_REACH || t.past) && 10 * speed < 9 * t.v_req)
}

/// A leap is held within forty-eight units of the edge or past it, below nine tenths of the speed that
/// clears the gap, and nowhere else.
pub proof fn slow_leaps_are_held(on: bool, t: Takeoff, speed: u32)
    ensures
        leap_held(on, Some(t), speed) <==> on && (t.past || t.dist < 48_000) && speed * 10 < t.v_req * 9,
        !leap_held(on, None, speed),
{
}

/// What to do about the button of an errand.
pub open spec fn gate_work(b: BotState, graph: NavGraph, dist: u32, pitch: i32, weapon: Weapon, ready: Seq<bool>) -> GateAct {
    match b.gate {
        Some(gi) if b.route_pos >= b.route@.len() || dist < BUTTON_REACH => {
            if !graph.gates@[gi as int].shoot {
                GateAct::Push
            } else if pitch < STEEPEST_PITCH {
                GateAct::BackOff
            } else {
                GateAct::Shoot { fire: weapon == Weapon::Shotgun && ready[gi as int] }
            }
        },
        _ => GateAct::Nothing,
    }
}

/// A button is worked within forty units or at the end of the route: pushed, or shot with the shotgun
/// while it can be hurt, from far enough away that the view need not go above sixty-eight degrees.
pub proof fn buttons_are_pushed_or_shot(
    b: BotState,
    graph: NavGraph,
    dist: u32,
    pitch: i32,
    weapon: Weapon,
    ready: Seq<bool>,
)
    ensures
        ({
            let a = gate_work(b, graph, dist, pitch, weapon, ready);
            let gi = b.gate->0 as int;
            let there = b.gate is Some && (b.route_pos >= b.route@.len() || dist < 40_000);
            let shoot = graph.gates@[gi].shoot;
            &&& a == GateAct::Nothing <==> !there
            &&& a == GateAct::Push <==> there && !shoot
            &&& a == GateAct::BackOff <==> there && shoot && pitch < -68_000
            &&& there && shoot && pitch >= -68_000 ==> (a == (GateAct::Shoot { fire: true }) <==> weapon == Weapon::Shotgun
                && ready[gi])
            &&& a is Shoot <==> there && shoot && pitch >= -68_000
        }),
{
}

/// Whether a new route is due.
pub open spec fn wants_route(b: BotState, c: Commitment, goal: u32, now: i64) -> bool {
    !c.frozen() && (b.route@.len() == 0 || b.goal_cell != goal || now >= b.repath_time)
}

/// A route is planned where there is none, where the goal has moved, or where its time is over; never
/// while a traversal is under way.
pub proof fn routes_are_planned_when_due(b: BotState, c: Commitment, goal: u32, now: i64)
    ensures
        c.frozen() ==> !wants_route(b, c, goal, now),
        !c.frozen() && b.route@.len() == 0 ==> wants_route(b, c, goal, now),
        !c.frozen() && b.goal_cell != goal ==> wants_route(b, c, goal, now),
        !c.frozen() && now >= b.repath_time ==> wants_route(b, c, goal, now),
        b.route@.len() > 0 && b.goal_cell == goal && now < b.repath_time ==> !wants_route(b, c, goal, now),
{
}

/// A closed gate on the way that is worth an errand.
pub open spec fn errand_for(b: BotState, c: Commitment, graph: NavGraph, closed: Seq<bool>, now: i64) -> Option<usize> {
    if c.frozen() || b.gate is Some {
        None
    } else {
        match first_shut(graph, b.route@, b.route_pos as int, closed) {
            Some(gi) if !(now < b.avoid_gate_until && gi == b.avoid_gate) => Some(gi),
            _ => None,
        }
    }
}

/// An errand is for the first closed gate on the way, unless it is being left alone; one errand at a
/// time, and none on a traversal.
pub proof fn errands_are_for_the_first_closed_gate(
    b: BotState,
    c: Commitment,
    graph: NavGraph,
    closed: Seq<bool>,
    now: i64,
)
    ensures
        ({
            let r = errand_for(b, c, graph, closed, now);
            let shut = first_shut(graph, b.route@, b.route_pos as int, closed);
            let left = now < b.avoid_gate_until && shut == Some(b.avoid_gate);
            &&& r is Some <==> !c.frozen() && b.gate is None && shut is Some && !left
            &&& r is Some ==> r == shut
        }),
{
}

/// The cells of the bot and of its goal.
pub open spec fn located(bot_cell: Option<u32>, item_cell: Option<u32>, target_cell: Option<u32>) -> Option<(u32, u32)> {
    match (bot_cell, item_cell, target_cell) {
        (Some(b), Some(item), _) => Some((b, item)),
        (Some(b), None, Some(t)) => Some((b, t)),
        _ => None,
    }
}

/// The cell to head for.
pub open spec fn heading_for(b: BotState, graph: NavGraph, goal_cell: u32) -> u32 {
    match b.gate {
        Some(gi) => graph.gates@[gi as int].button_cell,
        None => goal_cell,
    }
}

/// A bot that is lost goes nowhere; an item's own cell comes before the nearest one to the target; and
/// an errand's button comes before the goal.
pub proof fn goals_are_located(
    b: BotState,
    graph: NavGraph,
    goal_cell: u32,
    bot: u32,
    item: u32,
    cell: u32,
    other: Option<u32>,
)
    ensures
        located(None, other, Some(cell)) is None,
        located(Some(bot), Some(item), other) == Some((bot, item)),
        located(Some(bot), None, Some(cell)) == Some((bot, cell)),
        located(Some(bot), None, None) is None,
        b.gate is None ==> heading_for(b, graph, goal_cell) == goal_cell,
        b.gate matches Some(gi) ==> heading_for(b, graph, goal_cell) == graph.gates@[gi as int].button_cell,
{
}

/// What the start of a frame calls for.
pub open spec fn frame_start(b: BotState, alive: bool, corpse: bool) -> FrameStart {
    if alive {
        FrameStart::Drive
    } else if corpse {
        FrameStart::Respawn { attack: !b.pulse }
    } else {
        FrameStart::Spawn
    }
}

/// The living drive, the dead press and release attack in turn, and who has never lived appears.
pub proof fn frames_start_by_life(b: BotState, alive: bool, corpse: bool)
    ensures
        alive <==> frame_start(b, alive, corpse) == FrameStart::Drive,
        !alive && !corpse <==> frame_start(b, alive, corpse) == FrameStart::Spawn,
        !alive && corpse && b.pulse ==> frame_start(b, alive, corpse) == (FrameStart::Respawn { attack: false }),
        !alive && corpse && !b.pulse ==> frame_start(b, alive, corpse) == (FrameStart::Respawn { attack: true }),
{
}

/// The order of the splash weapons.
pub open spec fn splash_order(b: BotState, handled: bool) -> SplashStep {
    if handled {
        SplashStep::Handled
    } else if b.grenade_phase != GrenadePhase::Idle {
        SplashStep::Combo
    } else {
        SplashStep::Shove
    }
}

/// A reaction comes first, then a combination that runs, then a shove.
pub proof fn reactions_come_first(b: BotState, handled: bool)
    ensures
        splash_order(b, handled) == SplashStep::Handled <==> handled,
        splash_order(b, handled) == SplashStep::Combo <==> !handled && b.grenade_phase != GrenadePhase::Idle,
        splash_order(b, handled) == SplashStep::Shove <==> !handled && b.grenade_phase == GrenadePhase::Idle,
{
}

} // verus!
