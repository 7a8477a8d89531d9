//! Grenade play: lob a grenade and shoot it in the air, bank one round a corner, or shove an enemy
//! into a hazard with a blast.
//!
//! Distances and damage are thousandths, skill thousandths of a step, times milliseconds.
use crate::abi::EntVars;
use crate::bot::combat::{
    blast, blast_self_damage, detonator, hitscan_choice, owns, FLOOR_LEAN, GL_IMPULSE, GRENADE_CLEAR, GRENADE_MIN_SHOOT,
    LINE_OF_FIRE_SLACK, LOB_LAND_TOL,
};
use crate::bot::perception::CLEAR_FRACTION;
use crate::bot::state::{BotState, GrenadePhase};
use crate::defs::{Bits, Content, Flags, Items, MoveType, Weapon};
use crate::entity::Entity;
use crate::num::{after, bounded, since};
use vstd::prelude::*;

verus! {

pub const LOB_MIN_RANGE: u32 = 200000;

pub const LOB_MAX_RANGE: u32 = 500000;

pub const SHOVE_MAX_RANGE: u32 = 700000;

/// Health a lob needs.
pub const LOB_MIN_HEALTH: i32 = 50;

/// Pauses after a combination: given up, or done; the same for a bank shot.
pub const COMBO_COOLDOWN: i64 = 4000;

pub const COMBO_DONE_COOLDOWN: i64 = 1500;

pub const BANK_COOLDOWN: i64 = 6000;

pub const BANK_DONE_COOLDOWN: i64 = 3000;

pub const WINDUP_TIMEOUT: i64 = 1200;

pub const CAPTURE_TIMEOUT: i64 = 300;

/// A grenade's fuse, and how long a lost one is waited for.
pub const GL_FUSE: i64 = 2500;

pub const BANK_WAIT: i64 = 3000;

/// How old a sighting may be for a bank shot.
pub const BANK_SIGHT: i64 = 3000;

/// Distance below which a bot backs away from its own grenade.
pub const GRENADE_BACK_OFF: u32 = 200000;

pub const ROCKET_IMPULSE: i32 = 7;

/// How far off the view may be to throw, and to fire at the ground behind an enemy, in thousandths
/// of a degree.
pub const LOB_AIM_TOL: u32 = 2500;

pub const SHOVE_AIM_TOL: u32 = 4000;

/// Skill that a plain airburst takes, and a bank shot.
pub const BURST_SKILL: u32 = 3000;

pub const BANK_SKILL: u32 = 4000;

/// How high the wave that times an attempt must stand, in thousandths.
pub const BURST_WAVE: i32 = 600;

pub const BANK_WAVE: i32 = 700;

/// A hazard that lies this much in the bot's own direction is none, in thousandths of a cosine.
pub const TOWARD_ME: i32 = 500;

/// An enemy faster than this cannot be banked at, or shoved.
pub const BANK_SPEED: u32 = 120000;

pub const SHOVE_SPEED: u32 = 250000;

/// How near the enemy a grenade must be for a shove, and for a plain burst.
pub const SHOVE_REACH: u32 = 140000;

pub const BURST_REACH: u32 = 100000;

// --- shoves ---
/// How well a shove must be aligned with the way to the hazard, in thousandths of a cosine; the lift
/// beyond which the enemy flies rather than slides; and how far past the edge it must come.
pub const SHOVE_ALIGN: i32 = 600;

pub const SHOVE_LIFT: i32 = 150000;

pub const SHOVE_MARGIN: u32 = 16000;

/// Whether a blast carries an enemy over an edge: it pushes the right way, and a slide of a quarter
/// of the push, or a flight of half of it, goes beyond the edge.
pub open spec fn carries(align: i32, lift: i32, push: u32, edge: u32) -> bool {
    let reach = if lift > SHOVE_LIFT {
        2 * push
    } else {
        push as int
    };
    align >= SHOVE_ALIGN && reach > 4 * (edge + SHOVE_MARGIN)
}

/// The speed that a grenade's blast gives a victim at a distance, straight away from it.
pub fn predict_shove(dist: u32) -> (r: u32)
    ensures
        r == shoved(dist as int),
        r == if dist < 240000 {
            4 * (240000 - dist)
        } else {
            0
        },
{
    if dist < 240000 {
        4 * (240000 - dist)
    } else {
        0
    }
}

/// Whether a shove reaches the hazard, given its alignment, its lift, its horizontal push, and the
/// distance of the edge.
pub fn shove_reaches(align: i32, lift: i32, push: u32, edge: u32) -> (r: bool)
    ensures
        r == carries(align, lift, push, edge),
{
    let reach: u64 = if lift > SHOVE_LIFT {
        2 * push as u64
    } else {
        push as u64
    };
    align >= SHOVE_ALIGN && reach > 4 * (edge as u64 + SHOVE_MARGIN as u64)
}

/// Whether a line to an enemy is clear: it ended at the enemy, or was clear nearly all the way.
pub fn los_to(hit: bool, fraction: u32) -> (r: bool)
    ensures
        r == (hit || fraction > CLEAR_FRACTION),
{
    hit || fraction > CLEAR_FRACTION
}

// --- hazards ---
/// What lies where an enemy could be shoved.
#[derive(Clone, Copy, PartialEq, Eq, Debug, Structural)]
pub enum HazardKind {
    Slime,
    /// A fall that hurts or kills.
    Pit,
    Lava,
}

impl HazardKind {
    /// How much a bot prefers it.
    pub open spec fn worth(self) -> int {
        match self {
            HazardKind::Lava => 3,
            HazardKind::Pit => 2,
            HazardKind::Slime => 1,
        }
    }

    pub fn rank(self) -> (r: u8)
        ensures
            r == self.worth(),
    {
        match self {
            HazardKind::Lava => 3,
            HazardKind::Pit => 2,
            HazardKind::Slime => 1,
        }
    }
}

/// What was found at one depth of a plumb line.
#[derive(Clone, Copy, PartialEq, Eq, Debug, Structural)]
pub struct Sounding {
    pub content: i32,
    pub solid: bool,
}

/// Soundings lie this far apart, and a fall deeper than the drop is a pit.
pub const HAZARD_STEP: u32 = 24;

pub const HAZARD_DROP: u32 = 176;

/// How many soundings are taken.
pub const HAZARD_SOUNDINGS: usize = 14;

/// What a plumb line from sounding `at` on comes to: liquid, a floor that is near or far, or none.
pub open spec fn below(line: Seq<Sounding>, at: int) -> Option<HazardKind>
    decreases line.len() - at,
{
    if at >= line.len() {
        Some(HazardKind::Pit)
    } else if line[at].content == Content::Lava.code() {
        Some(HazardKind::Lava)
    } else if line[at].content == Content::Slime.code() {
        Some(HazardKind::Slime)
    } else if line[at].solid {
        if at * HAZARD_STEP > HAZARD_DROP {
            Some(HazardKind::Pit)
        } else {
            None
        }
    } else {
        below(line, at + 1)
    }
}

pub fn hazard_below(line: &Vec<Sounding>) -> (r: Option<HazardKind>)
    requires
        line@.len() <= HAZARD_SOUNDINGS,
    ensures
        r == below(line@, 0),
{
    let mut at: usize = 0;
    while at < line.len()
        invariant
            at <= line@.len() <= HAZARD_SOUNDINGS,
            below(line@, 0) == below(line@, at as int),
        decreases line@.len() - at,
    {
        let s = line[at];
        if s.content == Content::Lava.as_i32() {
            return Some(HazardKind::Lava);
        }
        if s.content == Content::Slime.as_i32() {
            return Some(HazardKind::Slime);
        }
        if s.solid {
            return if at as u32 * HAZARD_STEP > HAZARD_DROP {
                Some(HazardKind::Pit)
            } else {
                None
            };
        }
        at = at + 1;
    }
    Some(HazardKind::Pit)
}

/// What was found at one distance in one direction: whether the way there is clear, and what lies
/// below it.
#[derive(Clone, Copy, PartialEq, Eq, Debug, Structural)]
pub struct Probe {
    pub clear: bool,
    pub below: Option<HazardKind>,
}

/// A hazard: its direction, the probe its edge was found at, and what it is.
#[derive(Clone, Copy, PartialEq, Eq, Debug, Structural)]
pub struct Hazard {
    pub dir: usize,
    pub radius: usize,
    pub kind: HazardKind,
}

/// The edge found in a direction from probe `at` on: the first hazard before any wall.
pub open spec fn edge(ray: Seq<Probe>, at: int) -> Option<(int, HazardKind)>
    decreases ray.len() - at,
{
    if at >= ray.len() || !ray[at].clear {
        None
    } else {
        match ray[at].below {
            Some(kind) => Some((at, kind)),
            None => edge(ray, at + 1),
        }
    }
}

/// Whether one hazard is preferred to another: worse for the enemy, or as bad and nearer.
pub open spec fn preferred(a: (int, HazardKind), b: (int, HazardKind)) -> bool {
    a.1.worth() > b.1.worth() || (a.1.worth() == b.1.worth() && a.0 < b.0)
}

/// The first of the most preferred hazards among the first `n` directions.
pub open spec fn best_of(rays: Seq<Vec<Probe>>, n: int) -> Option<(int, int, HazardKind)>
    decreases n,
{
    if n <= 0 {
        None
    } else {
        let rest = best_of(rays, n - 1);
        match (edge(rays[n - 1]@, 0), rest) {
            (None, _) => rest,
            (Some(e), None) => Some((n - 1, e.0, e.1)),
            (Some(e), Some(b)) => if preferred(e, (b.1, b.2)) {
                Some((n - 1, e.0, e.1))
            } else {
                rest
            },
        }
    }
}

fn find_edge(ray: &Vec<Probe>) -> (r: Option<(usize, HazardKind)>)
    ensures
        match r {
            Some(e) => edge(ray@, 0) == Some((e.0 as int, e.1)),
            None => edge(ray@, 0) is None,
        },
{
    let mut at: usize = 0;
    while at < ray.len()
        invariant
            at <= ray@.len(),
            edge(ray@, 0) == edge(ray@, at as int),
        decreases ray@.len() - at,
    {
        let p = ray[at];
        if !p.clear {
            return None;
        }
        if let Some(kind) = p.below {
            return Some((at, kind));
        }
        at = at + 1;
    }
    None
}

/// A blast to shove with is set off this far behind the enemy, in thousandths of a unit.
pub const SHOVE_OFFSET: u32 = 72_000;

/// The directions probed for a hazard round an enemy, and how many probes are made in each.
pub const HAZARD_DIRS: usize = 8;

pub const HAZARD_RADII: usize = 3;

/// A direction as thousandths of a unit vector: an eighth of a turn apart from the first, which is
/// along the first axis.
pub open spec fn compass(i: int) -> (int, int) {
    if i == 0 {
        (1000, 0)
    } else if i == 1 {
        (707, 707)
    } else if i == 2 {
        (0, 1000)
    } else if i == 3 {
        (-707, 707)
    } else if i == 4 {
        (-1000, 0)
    } else if i == 5 {
        (-707, -707)
    } else if i == 6 {
        (0, -1000)
    } else {
        (707, -707)
    }
}

pub fn hazard_dir(i: usize) -> (r: (i32, i32))
    requires
        i < HAZARD_DIRS,
    ensures
        (r.0 as int, r.1 as int) == compass(i as int),
{
    match i {
        0 => (1000, 0),
        1 => (707, 707),
        2 => (0, 1000),
        3 => (-707, 707),
        4 => (-1000, 0),
        5 => (-707, -707),
        6 => (0, -1000),
        _ => (707, -707),
    }
}

/// How far from the enemy a probe is made, in thousandths of a unit.
pub fn hazard_radius(i: usize) -> (r: u32)
    requires
        i < HAZARD_RADII,
    ensures
        r == 48_000 * (i + 1),
{
    48_000 * (i as u32 + 1)
}

/// The best hazard to shove an enemy into, from probes in every direction.
pub fn find_hazard(rays: &Vec<Vec<Probe>>) -> (r: Option<Hazard>)
    ensures
        match r {
            Some(h) => best_of(rays@, rays@.len() as int) == Some((h.dir as int, h.radius as int, h.kind)),
            None => best_of(rays@, rays@.len() as int) is None,
        },
{
    let mut best: Option<Hazard> = None;
    let mut i: usize = 0;
    while i < rays.len()
        invariant
            i <= rays@.len(),
            match best {
                Some(h) => best_of(rays@, i as int) == Some((h.dir as int, h.radius as int, h.kind)),
                None => best_of(rays@, i as int) is None,
            },
        decreases rays@.len() - i,
    {
        if let Some((radius, kind)) = find_edge(&rays[i]) {
            let better: bool = match best {
                None => true,
                Some(b) => kind.rank() > b.kind.rank() || (kind.rank() == b.kind.rank() && radius < b.radius),
            };
            if better {
                best = Some(Hazard { dir: i, radius, kind });
            }
        }
        i = i + 1;
    }
    best
}

/// No direction offers anything preferred to the hazard that is found.
pub proof fn nothing_beats_the_best_hazard(rays: Seq<Vec<Probe>>, n: int, i: int)
    requires
        0 <= i < n <= rays.len(),
        edge(rays[i]@, 0) is Some,
    ensures
        best_of(rays, n) is Some,
        !preferred(edge(rays[i]@, 0)->0, ((best_of(rays, n)->0).1, (best_of(rays, n)->0).2)),
    decreases n,
{
    if i < n - 1 {
        nothing_beats_the_best_hazard(rays, n - 1, i);
    }
}

/// A wall between the enemy and every hazard leaves nothing to shove it into.
pub proof fn walls_block_the_shove(rays: Seq<Vec<Probe>>, n: int)
    requires
        0 <= n <= rays.len(),
        forall|i: int| 0 <= i < n ==> (#[trigger] rays[i])@.len() > 0 && !rays[i]@[0].clear,
    ensures
        best_of(rays, n) is None,
    decreases n,
{
    if n > 0 {
        walls_block_the_shove(rays, n - 1);
    }
}

// --- the combination ---
/// The state with no combination running and the next not before `next_try`.
pub open spec fn combo_over(b: BotState, next_try: int) -> BotState {
    BotState {
        grenade_phase: GrenadePhase::Idle,
        grenade_ent: 0,
        grenade_bank: false,
        grenade_next_try: bounded(next_try),
        ..b
    }
}

/// The state with a combination begun.
pub open spec fn combo_begun(b: BotState, bank: bool, shove: bool, now: i64) -> BotState {
    BotState {
        grenade_phase: GrenadePhase::Windup,
        grenade_started: now,
        grenade_shove: shove,
        grenade_ent: 0,
        grenade_bank: bank,
        ..b
    }
}

/// What flying an arc came to.
#[derive(Clone, Copy, PartialEq, Eq, Debug, Structural)]
pub enum Lob {
    /// There is no arc, or it never comes down.
    Lost,
    /// It comes down this far from the target.
    Lands(u32),
    /// There is no map to fly it over.
    Unchecked,
}

/// Whether an arc clears the map.
pub open spec fn clears(l: Lob) -> bool {
    match l {
        Lob::Lost => false,
        Lob::Lands(miss) => miss < 2 * LOB_LAND_TOL,
        Lob::Unchecked => true,
    }
}

fn does_clear(l: Lob) -> (r: bool)
    ensures
        r == clears(l),
{
    match l {
        Lob::Lost => false,
        Lob::Lands(miss) => miss < 2 * LOB_LAND_TOL,
        Lob::Unchecked => true,
    }
}

/// Facts for starting a combination against an enemy in sight.
#[derive(Clone, Copy, PartialEq, Eq, Debug, Structural)]
pub struct StartFacts {
    /// A hazard to shove the enemy into was found.
    pub hazard: bool,
    pub skill: u32,
    /// The wave that times plain airbursts.
    pub wave: i32,
    /// Distance from the bot to the blast.
    pub dist: u32,
    /// The blast would catch a teammate.
    pub teammate: bool,
    /// How much the way to the hazard is the way to the bot, in thousandths of a cosine.
    pub toward: i32,
    /// The blast would carry the enemy over the edge.
    pub reaches: bool,
    /// Whether a line from the blast to the enemy ended at it, and the share of it that was clear.
    pub hit: bool,
    pub fraction: u32,
    /// The flat arc to the target, and the lofted one.
    pub flat: Lob,
    pub lofted: Lob,
    pub now: i64,
}

/// What starting came to.
#[derive(Clone, Copy, PartialEq, Eq, Debug, Structural)]
pub enum Start {
    /// Not now.
    Wait,
    /// Given up for a while.
    Abandon,
    /// Begun, along the lofted arc or the flat one.
    Begin { high: bool },
}

/// Whether an enemy walks on the ground.
pub open spec fn walks(en: EntVars) -> bool {
    en.movetype == MoveType::Walk && en.flags & Flags::ONGROUND != 0
}

/// Whether a combination could start at all: due, allowed, armed, healthy, in range, and against an
/// enemy that walks on the ground.
pub open spec fn may_begin(b: BotState, enabled: bool, v: EntVars, en: EntVars, dist: u32, now: i64) -> bool {
    &&& now >= b.grenade_next_try
    &&& enabled
    &&& owns(v, Items::GRENADE_LAUNCHER) && v.ammo_rockets >= 1 && v.health >= LOB_MIN_HEALTH
    &&& LOB_MIN_RANGE <= dist <= LOB_MAX_RANGE
    &&& walks(en)
}

/// Whether a blast at a distance is too dangerous for its owner, whose own splash is halved.
pub open spec fn too_close(dist: u32, health: i32) -> bool {
    blast(dist as int) > health * 1000 || dist < GRENADE_MIN_SHOOT
}

fn is_too_close(dist: u32, health: i32) -> (r: bool)
    ensures
        r == too_close(dist, health),
{
    blast_self_damage(dist) as i64 > health as i64 * 1000 || dist < GRENADE_MIN_SHOOT
}

pub open spec fn start_of(v: EntVars, f: StartFacts) -> Start {
    if detonator(v) is None || (!f.hazard && (f.skill < BURST_SKILL || f.wave < BURST_WAVE)) {
        Start::Wait
    } else if too_close(f.dist, v.health) || f.teammate {
        Start::Abandon
    } else if f.hazard && (f.toward > TOWARD_ME || !f.reaches) {
        Start::Abandon
    } else if !(f.hit || f.fraction > GRENADE_CLEAR) {
        Start::Abandon
    } else if clears(f.flat) {
        Start::Begin { high: false }
    } else if clears(f.lofted) {
        Start::Begin { high: true }
    } else {
        Start::Abandon
    }
}

/// The state after a start: unchanged, paused, or begun.
pub open spec fn start_state(b: BotState, s: Start, bank: bool, shove: bool, pause: i64, now: i64) -> BotState {
    match s {
        Start::Wait => b,
        Start::Abandon => combo_over(b, now + pause),
        Start::Begin { .. } => combo_begun(b, bank, shove, now),
    }
}

/// Facts for a bank shot at an enemy out of sight.
#[derive(Clone, Copy, PartialEq, Eq, Debug, Structural)]
pub struct BankFacts {
    pub skill: u32,
    pub has_map: bool,
    /// Horizontal speed of the enemy.
    pub speed: u32,
    /// The enemy carries a flag.
    pub carrier: bool,
    /// The wave that times bank shots.
    pub wave: i32,
    pub solved: bool,
    pub teammate: bool,
    pub now: i64,
}

pub open spec fn bank_of(b: BotState, f: BankFacts) -> Start {
    if f.skill < BANK_SKILL || !f.has_map {
        Start::Wait
    } else if f.speed > BANK_SPEED || b.enemy_seen_time <= 0 || f.now - b.enemy_seen_time > BANK_SIGHT {
        Start::Abandon
    } else if !f.carrier && f.wave < BANK_WAVE {
        Start::Wait
    } else if !f.solved || f.teammate {
        Start::Abandon
    } else {
        Start::Begin { high: false }
    }
}

/// A frame of winding up.
#[derive(Clone, Copy, PartialEq, Eq, Debug, Structural)]
pub enum Windup {
    /// Took too long: given up.
    Abandon,
    /// Send this impulse to draw the launcher.
    Draw(i32),
    /// Stand and aim.
    Hold,
    /// Throw.
    Fire,
}

pub open spec fn windup_of(b: BotState, weapon: Weapon, attack_finished: i64, off: u32, now: i64) -> Windup {
    if now - b.grenade_started > WINDUP_TIMEOUT {
        Windup::Abandon
    } else if weapon != Weapon::GrenadeLauncher {
        Windup::Draw(GL_IMPULSE)
    } else if now >= attack_finished && off < LOB_AIM_TOL {
        Windup::Fire
    } else {
        Windup::Hold
    }
}

/// A frame of watching the thrown grenade.
#[derive(Clone, Copy, PartialEq, Eq, Debug, Structural)]
pub enum Watch {
    /// Nothing to do; the fuse runs.
    Wait,
    /// Over.
    Over,
    /// Aim at the grenade, with this impulse to draw the gun; zero when it is drawn.
    Aim(i32),
}

/// The state once the thrown grenade was found.
pub open spec fn captured(b: BotState, own: Option<u32>) -> BotState {
    if b.grenade_ent == 0 && own is Some {
        BotState { grenade_ent: own->0, ..b }
    } else {
        b
    }
}

pub open spec fn watched(b: BotState, own: Option<u32>, live: bool, v: EntVars, now: i64) -> (BotState, Watch) {
    let g = captured(b, own);
    if b.grenade_ent == 0 && own is None {
        if now - b.grenade_started > CAPTURE_TIMEOUT {
            (combo_over(b, now + COMBO_COOLDOWN), Watch::Over)
        } else {
            (b, Watch::Wait)
        }
    } else if !live {
        (combo_over(g, now + COMBO_DONE_COOLDOWN), Watch::Over)
    } else if g.grenade_bank {
        if now - g.grenade_started > BANK_WAIT {
            (combo_over(g, now + BANK_DONE_COOLDOWN), Watch::Over)
        } else {
            (g, Watch::Wait)
        }
    } else {
        match detonator(v) {
            None => (combo_over(g, now + COMBO_COOLDOWN), Watch::Over),
            Some((impulse, weapon)) => if v.weapon != weapon {
                (g, Watch::Aim(impulse))
            } else {
                (BotState { grenade_phase: GrenadePhase::Detonate, ..g }, Watch::Aim(0))
            },
        }
    }
}

/// Facts for setting the grenade off.
#[derive(Clone, Copy, PartialEq, Eq, Debug, Structural)]
pub struct DetonateFacts {
    pub live: bool,
    /// Distance from the bot to the grenade.
    pub dist: u32,
    pub teammate: bool,
    /// Distance from the enemy to the grenade.
    pub enemy_dist: u32,
    /// The blast would carry the enemy over the edge.
    pub reaches: bool,
    /// A shot would reach the grenade.
    pub can_hit: bool,
    pub now: i64,
}

/// A frame of waiting to set the grenade off.
#[derive(Clone, Copy, PartialEq, Eq, Debug, Structural)]
pub enum Detonate {
    Over,
    /// Too dangerous: hold fire, and back away if it is close.
    Hold { back: bool },
    /// Keep aiming.
    Aim,
    /// Shoot it.
    Shoot,
}

pub open spec fn detonation(b: BotState, health: i32, f: DetonateFacts) -> Detonate {
    if b.grenade_ent == 0 || !f.live || f.now - b.grenade_started > GL_FUSE {
        Detonate::Over
    } else if too_close(f.dist, health) || f.teammate {
        Detonate::Hold { back: f.dist < GRENADE_BACK_OFF }
    } else if (if b.grenade_shove {
        f.enemy_dist < SHOVE_REACH && f.reaches
    } else {
        f.enemy_dist < BURST_REACH
    }) && f.can_hit {
        Detonate::Shoot
    } else {
        Detonate::Aim
    }
}

/// The parts of a combination, one to a frame.
#[derive(Clone, Copy, PartialEq, Eq, Debug, Structural)]
pub enum ComboStep {
    Nothing,
    Start,
    Windup,
    Watch,
    Detonate,
}

pub open spec fn combo_step(phase: GrenadePhase, enemy: bool) -> ComboStep {
    if !enemy {
        ComboStep::Nothing
    } else {
        match phase {
            GrenadePhase::Idle => ComboStep::Start,
            GrenadePhase::Windup => ComboStep::Windup,
            GrenadePhase::Lobbed => ComboStep::Watch,
            GrenadePhase::Detonate => ComboStep::Detonate,
        }
    }
}

impl BotState {
    /// End a combination; the next may start at `next_try`.
    pub fn combo_reset(&mut self, next_try: i64)
        ensures
            *final(self) == combo_over(*old(self), next_try as int),
    {
        self.grenade_phase = GrenadePhase::Idle;
        self.grenade_ent = 0;
        self.grenade_bank = false;
        self.grenade_next_try = next_try;
    }

    /// What a frame of the combination consists of. Without an enemy a running one is over.
    pub fn grenade_combo(&mut self, enemy: bool, now: i64) -> (r: ComboStep)
        ensures
            r == combo_step(old(self).grenade_phase, enemy),
            *final(self) == if !enemy && old(self).grenade_phase != GrenadePhase::Idle {
                combo_over(*old(self), now + COMBO_DONE_COOLDOWN)
            } else {
                *old(self)
            },
    {
        if !enemy {
            if self.grenade_phase != GrenadePhase::Idle {
                self.combo_reset(after(now, COMBO_DONE_COOLDOWN));
            }
            return ComboStep::Nothing;
        }
        match self.grenade_phase {
            GrenadePhase::Idle => ComboStep::Start,
            GrenadePhase::Windup => ComboStep::Windup,
            GrenadePhase::Lobbed => ComboStep::Watch,
            GrenadePhase::Detonate => ComboStep::Detonate,
        }
    }

    /// Whether a combination could start against an enemy at a distance.
    pub fn may_start(&self, enabled: bool, v: &EntVars, en: &EntVars, dist: u32, now: i64) -> (r: bool)
        ensures
            r == may_begin(*self, enabled, *v, *en, dist, now),
    {
        now >= self.grenade_next_try && enabled && v.items.has(Items::GRENADE_LAUNCHER) && v.ammo_rockets >= 1
            && v.health >= LOB_MIN_HEALTH && LOB_MIN_RANGE <= dist && dist <= LOB_MAX_RANGE && en.movetype
            == MoveType::Walk && en.flags.has(Flags::ONGROUND)
    }

    /// Decide whether to start a combination against an enemy in sight.
    pub fn try_start(&mut self, v: &EntVars, f: &StartFacts) -> (r: Start)
        ensures
            r == start_of(*v, *f),
            *final(self) == start_state(*old(self), r, false, f.hazard, COMBO_COOLDOWN, f.now),
    {
        if hitscan_choice(v).is_none() {
            return Start::Wait;
        }
        if !f.hazard && (f.skill < BURST_SKILL || f.wave < BURST_WAVE) {
            return Start::Wait;
        }
        let dangerous: bool = is_too_close(f.dist, v.health) || f.teammate;
        let wrong_way: bool = f.hazard && (f.toward > TOWARD_ME || !f.reaches);
        let blocked: bool = !(f.hit || f.fraction > GRENADE_CLEAR);
        let high: bool = !does_clear(f.flat);
        if dangerous || wrong_way || blocked || (high && !does_clear(f.lofted)) {
            self.combo_reset(after(f.now, COMBO_COOLDOWN));
            return Start::Abandon;
        }
        self.begin_combo(false, f.hazard, f.now);
        Start::Begin { high }
    }

    /// Decide whether to start a bank shot.
    pub fn try_start_bank(&mut self, f: &BankFacts) -> (r: Start)
        ensures
            r == bank_of(*old(self), *f),
            *final(self) == start_state(*old(self), r, true, false, BANK_COOLDOWN, f.now),
    {
        if f.skill < BANK_SKILL || !f.has_map {
            return Start::Wait;
        }
        let stale: bool = self.enemy_seen_time <= 0 || since(f.now, self.enemy_seen_time) > BANK_SIGHT as i128;
        if f.speed > BANK_SPEED || stale {
            self.combo_reset(after(f.now, BANK_COOLDOWN));
            return Start::Abandon;
        }
        if !f.carrier && f.wave < BANK_WAVE {
            return Start::Wait;
        }
        if !f.solved || f.teammate {
            self.combo_reset(after(f.now, BANK_COOLDOWN));
            return Start::Abandon;
        }
        self.begin_combo(true, false, f.now);
        Start::Begin { high: false }
    }

    fn begin_combo(&mut self, bank: bool, shove: bool, now: i64)
        ensures
            *final(self) == combo_begun(*old(self), bank, shove, now),
    {
        self.grenade_phase = GrenadePhase::Windup;
        self.grenade_started = now;
        self.grenade_shove = shove;
        self.grenade_ent = 0;
        self.grenade_bank = bank;
    }

    /// Aim and throw; `off` is how far the view is from the arc.
    pub fn windup(&mut self, weapon: Weapon, attack_finished: i64, off: u32, now: i64) -> (r: Windup)
        ensures
            r == windup_of(*old(self), weapon, attack_finished, off, now),
            *final(self) == match r {
                Windup::Abandon => combo_over(*old(self), now + COMBO_COOLDOWN),
                Windup::Fire => BotState {
                    grenade_phase: GrenadePhase::Lobbed,
                    grenade_started: now,
                    ..*old(self)
                },
                _ => *old(self),
            },
    {
        if since(now, self.grenade_started) > WINDUP_TIMEOUT as i128 {
            self.combo_reset(after(now, COMBO_COOLDOWN));
            return Windup::Abandon;
        }
        if weapon != Weapon::GrenadeLauncher {
            return Windup::Draw(GL_IMPULSE);
        }
        if now >= attack_finished && off < LOB_AIM_TOL {
            self.grenade_phase = GrenadePhase::Lobbed;
            self.grenade_started = now;
            return Windup::Fire;
        }
        Windup::Hold
    }

    /// Find the thrown grenade and draw the gun to shoot it with.
    pub fn lobbed(&mut self, own: Option<u32>, live: bool, v: &EntVars, now: i64) -> (r: Watch)
        ensures
            (*final(self), r) == watched(*old(self), own, live, *v, now),
    {
        if self.grenade_ent == 0 {
            match own {
                Some(g) => {
                    self.grenade_ent = g;
                },
                None => {
                    if since(now, self.grenade_started) > CAPTURE_TIMEOUT as i128 {
                        self.combo_reset(after(now, COMBO_COOLDOWN));
                        return Watch::Over;
                    }
                    return Watch::Wait;
                },
            }
        }
        if !live {
            self.combo_reset(after(now, COMBO_DONE_COOLDOWN));
            return Watch::Over;
        }
        if self.grenade_bank {
            if since(now, self.grenade_started) > BANK_WAIT as i128 {
                self.combo_reset(after(now, BANK_DONE_COOLDOWN));
                return Watch::Over;
            }
            return Watch::Wait;
        }
        match hitscan_choice(v) {
            None => {
                self.combo_reset(after(now, COMBO_COOLDOWN));
                Watch::Over
            },
            Some((impulse, weapon)) => {
                if v.weapon != weapon {
                    Watch::Aim(impulse)
                } else {
                    self.grenade_phase = GrenadePhase::Detonate;
                    Watch::Aim(0)
                }
            },
        }
    }

    /// Set the grenade off when its blast does what it is meant to.
    pub fn detonate(&mut self, health: i32, f: &DetonateFacts) -> (r: Detonate)
        ensures
            r == detonation(*old(self), health, *f),
            *final(self) == if r == Detonate::Over {
                combo_over(*old(self), f.now + COMBO_DONE_COOLDOWN)
            } else {
                *old(self)
            },
    {
        if self.grenade_ent == 0 || !f.live || since(f.now, self.grenade_started) > GL_FUSE as i128 {
            self.combo_reset(after(f.now, COMBO_DONE_COOLDOWN));
            return Detonate::Over;
        }
        if is_too_close(f.dist, health) || f.teammate {
            return Detonate::Hold { back: f.dist < GRENADE_BACK_OFF };
        }
        let right: bool = if self.grenade_shove {
            f.enemy_dist < SHOVE_REACH && f.reaches
        } else {
            f.enemy_dist < BURST_REACH
        };
        if right && f.can_hit {
            Detonate::Shoot
        } else {
            Detonate::Aim
        }
    }
}

/// A grenade is never set off over a teammate or in the bot's own face.
pub proof fn detonation_is_safe(b: BotState, health: i32, f: DetonateFacts)
    requires
        detonation(b, health, f) == Detonate::Shoot,
    ensures
        !f.teammate,
        f.dist >= GRENADE_MIN_SHOOT,
        blast(f.dist as int) <= health * 1000,
{
}

/// Giving up always ends in the idle phase with a pause, so no failed attempt is retried at once.
pub proof fn failed_attempts_pause(b: BotState, v: EntVars, f: StartFacts, enabled: bool, en: EntVars, dist: u32)
    requires
        start_of(v, f) == Start::Abandon,
        f.now <= i64::MAX - COMBO_COOLDOWN,
    ensures
        ({
            let next = start_state(b, Start::Abandon, false, f.hazard, COMBO_COOLDOWN, f.now);
            &&& next.grenade_phase == GrenadePhase::Idle
            &&& forall|now: i64|
                now < f.now + COMBO_COOLDOWN ==> !#[trigger] may_begin(next, enabled, v, en, dist, now)
        }),
{
}

// --- finding the thrown grenade ---
/// Whether an entity is a grenade still in flight.
pub open spec fn in_flight(e: Entity) -> bool {
    e.in_use && e.class() == Some("grenade"@) && !e.combat.voided
}

pub fn grenade_live(e: &Entity) -> (r: bool)
    ensures
        r == in_flight(*e),
{
    e.in_use && e.is_class("grenade") && !e.combat.voided
}

/// One of the bot's own live grenades.
#[derive(Clone, Copy, PartialEq, Eq, Debug, Structural)]
pub struct OwnGrenade {
    pub id: u32,
    pub dist: u32,
}

/// A grenade further away than this was not just thrown.
pub const CAPTURE_RADIUS: u32 = 120000;

pub open spec fn just_thrown(live: Seq<OwnGrenade>, i: int) -> bool {
    &&& 0 <= i < live.len() && live[i].dist < CAPTURE_RADIUS
    &&& forall|j: int| 0 <= j < live.len() ==> live[i].dist <= (#[trigger] live[j]).dist
    &&& forall|j: int| 0 <= j < i ==> live[i].dist < (#[trigger] live[j]).dist
}

/// The grenade that was just thrown: the nearest of the bot's own, if it is near enough.
pub fn own_live_grenade(live: &Vec<OwnGrenade>) -> (r: Option<u32>)
    ensures
        match r {
            Some(id) => exists|i: int| #[trigger] just_thrown(live@, i) && live@[i].id == id,
            None => forall|j: int| 0 <= j < live@.len() ==> (#[trigger] live@[j]).dist >= CAPTURE_RADIUS,
        },
{
    if live.len() == 0 {
        return None;
    }
    let mut best: usize = 0;
    let mut i: usize = 1;
    while i < live.len()
        invariant
            best < i <= live@.len(),
            forall|j: int| 0 <= j < i ==> live@[best as int].dist <= (#[trigger] live@[j]).dist,
            forall|j: int| 0 <= j < best ==> live@[best as int].dist < (#[trigger] live@[j]).dist,
        decreases live@.len() - i,
    {
        if live[i].dist < live[best].dist {
            best = i;
        }
        i = i + 1;
    }
    if live[best].dist < CAPTURE_RADIUS {
        assert(just_thrown(live@, best as int));
        Some(live[best].id)
    } else {
        None
    }
}

// --- bank shots ---
/// How near the enemy a bank shot must go off, and one thrown slightly wrong; how far it must stay
/// from the thrower; and how far off it must first bounce.
pub const BANK_GOOD: u32 = 90000;

pub const BANK_TOL: u32 = 140000;

pub const BANK_CLEAR: u32 = 160000;

pub const BANK_FIRST: u32 = 64000;

/// Times in flight are millionths of a second: the fuse, and how long a grenade is let go before its
/// way back counts.
pub const FUSE_MICROS: u32 = 2_500_000;

pub const RETURN_MICROS: u32 = 300_000;

/// A pass this near to an enemy sets it off.
pub const BANK_TOUCH: u32 = 32000;

/// On a floor, a grenade slower than this comes to rest.
pub const REST_SPEED: u32 = 60000;

pub const BOUNCE_MAX: u8 = 8;

/// One step of a grenade in flight.
#[derive(Clone, Copy, PartialEq, Eq, Debug, Structural)]
pub struct FlightStep {
    /// The time it took.
    pub micros: u32,
    /// How near the step came to the enemy, and to where the grenade was thrown from.
    pub enemy: u32,
    pub home: u32,
    /// What it bounced off, if anything.
    pub bounce: Option<BounceFacts>,
}

#[derive(Clone, Copy, PartialEq, Eq, Debug, Structural)]
pub struct BounceFacts {
    /// Distance from where the grenade was thrown.
    pub dist: u32,
    /// How far the surface leans up, in thousandths.
    pub lean: i32,
    /// Speed after the bounce.
    pub speed: u32,
}

/// A grenade in flight. The distances are the highest there is until something happens.
#[derive(Clone, Copy, PartialEq, Eq, Debug, Structural)]
pub struct Flight {
    pub micros: u32,
    pub bounces: u8,
    pub self_return: u32,
    pub first_bounce: u32,
}

/// Where a step leaves a grenade.
#[derive(Clone, Copy, PartialEq, Eq, Debug, Structural)]
pub enum FlightEnd {
    Flying,
    /// It met the enemy.
    Touched,
    /// It lies on the floor until the fuse is out.
    Rested,
    /// It has bounced too often to be followed.
    Lost,
    /// The fuse is out.
    Fuse,
}

/// The nearest return after a step.
pub open spec fn returned(f: Flight, s: FlightStep) -> u32 {
    if f.micros > RETURN_MICROS && s.home < f.self_return {
        s.home
    } else {
        f.self_return
    }
}

pub open spec fn flown(f: Flight, s: FlightStep) -> Flight {
    let back = Flight { self_return: returned(f, s), ..f };
    let later = Flight { micros: (f.micros + s.micros) as u32, ..back };
    match s.bounce {
        _ if s.enemy < BANK_TOUCH => back,
        Some(b) => Flight {
            bounces: (f.bounces + 1) as u8,
            first_bounce: if f.bounces == 0 {
                b.dist
            } else {
                f.first_bounce
            },
            ..later
        },
        None => later,
    }
}

pub open spec fn flight_end(f: Flight, s: FlightStep) -> FlightEnd {
    let fuse = if f.micros + s.micros >= FUSE_MICROS {
        FlightEnd::Fuse
    } else {
        FlightEnd::Flying
    };
    match s.bounce {
        _ if s.enemy < BANK_TOUCH => FlightEnd::Touched,
        Some(b) => if b.lean > FLOOR_LEAN && b.speed < REST_SPEED {
            FlightEnd::Rested
        } else if f.bounces + 1 > BOUNCE_MAX {
            FlightEnd::Lost
        } else {
            fuse
        },
        None => fuse,
    }
}

impl Flight {
    /// A grenade as it leaves the hand.
    pub fn thrown() -> (r: Flight)
        ensures
            r == (Flight { micros: 0, bounces: 0, self_return: u32::MAX, first_bounce: u32::MAX }),
    {
        Flight { micros: 0, bounces: 0, self_return: u32::MAX, first_bounce: u32::MAX }
    }

    /// A grenade that still flies.
    pub open spec fn flies(self) -> bool {
        self.micros < FUSE_MICROS && self.bounces <= BOUNCE_MAX
    }

    /// One step of a flight.
    pub fn simulate_bounce(&mut self, s: &FlightStep) -> (r: FlightEnd)
        requires
            old(self).flies(),
            s.micros <= FUSE_MICROS,
        ensures
            *final(self) == flown(*old(self), *s),
            r == flight_end(*old(self), *s),
            r is Flying ==> final(self).flies(),
    {
        if self.micros > RETURN_MICROS && s.home < self.self_return {
            self.self_return = s.home;
        }
        if s.enemy < BANK_TOUCH {
            return FlightEnd::Touched;
        }
        self.micros = self.micros + s.micros;
        if let Some(b) = s.bounce {
            if self.bounces == 0 {
                self.first_bounce = b.dist;
            }
            self.bounces = self.bounces + 1;
            if b.lean > FLOOR_LEAN && b.speed < REST_SPEED {
                return FlightEnd::Rested;
            }
            if self.bounces > BOUNCE_MAX {
                return FlightEnd::Lost;
            }
        }
        if self.micros >= FUSE_MICROS {
            FlightEnd::Fuse
        } else {
            FlightEnd::Flying
        }
    }

    /// What a flight came to, `dist` from the enemy. One that rests, or whose fuse is out, goes off
    /// when the fuse is out.
    pub fn came_to(&self, end: FlightEnd, dist: u32) -> (r: BankSim)
        ensures
            r == (BankSim {
                hit: end == FlightEnd::Touched,
                det_dist: dist,
                det_time: det_time(*self, end),
                bounces: self.bounces,
                self_return: self.self_return,
                first_bounce: self.first_bounce,
            }),
    {
        let late: bool = matches!(end, FlightEnd::Rested | FlightEnd::Fuse);
        BankSim {
            hit: matches!(end, FlightEnd::Touched),
            det_dist: dist,
            det_time: if late {
                GL_FUSE as u32
            } else {
                self.micros / 1000
            },
            bounces: self.bounces,
            self_return: self.self_return,
            first_bounce: self.first_bounce,
        }
    }
}

pub open spec fn det_time(f: Flight, end: FlightEnd) -> u32 {
    if end is Rested || end is Fuse {
        GL_FUSE as u32
    } else {
        f.micros / 1000
    }
}

/// A step never moves the nearest return away, and time never runs back.
pub proof fn flights_only_go_on(f: Flight, s: FlightStep)
    requires
        f.flies(),
        s.micros <= FUSE_MICROS,
    ensures
        flown(f, s).self_return <= f.self_return,
        flown(f, s).micros >= f.micros,
        flown(f, s).bounces >= f.bounces,
{
}

/// What flying a bouncing grenade came to.
#[derive(Clone, Copy, PartialEq, Eq, Debug, Structural)]
pub struct BankSim {
    /// It touched the enemy.
    pub hit: bool,
    /// Distance from the enemy when it went off.
    pub det_dist: u32,
    pub det_time: u32,
    pub bounces: u8,
    /// The nearest it came back to the thrower, and the distance of its first bounce.
    pub self_return: u32,
    pub first_bounce: u32,
}

/// The views tried for a bank shot: pitches fifteen degrees apart from forty up, and bearings fanned
/// out to both sides of the enemy, fifteen degrees at a time, the straight one first and the left of
/// each pair before the right.
pub const BANK_VIEWS: usize = 28;

pub open spec fn fanned(k: int) -> int {
    let out = (k + 1) / 2 * 15000;
    if k % 2 == 1 {
        out
    } else {
        -out
    }
}

/// The pitch of the `i`th view and its bearing off the enemy's, in thousandths of a degree.
pub fn bank_view(i: usize) -> (r: (i32, i32))
    requires
        i < BANK_VIEWS,
    ensures
        r.0 == -40000 + 15000 * (i % 4),
        r.1 == fanned(i as int / 4),
{
    let k: i32 = (i / 4) as i32;
    let out: i32 = (k + 1) / 2 * 15000;
    let yaw: i32 = if k % 2 == 1 {
        out
    } else {
        -out
    };
    (-40000 + 15000 * (i % 4) as i32, yaw)
}

/// How far a throw may go wrong, up or down or to a side, and the shot must still come off.
pub const BANK_JITTER: i32 = 1500;

pub fn bank_jitters() -> (r: [(i32, i32); 4])
    ensures
        r@ == seq![
            (BANK_JITTER, 0i32),
            ((-BANK_JITTER) as i32, 0i32),
            (0i32, BANK_JITTER),
            (0i32, (-BANK_JITTER) as i32),
        ],
{
    [(BANK_JITTER, 0), (-BANK_JITTER, 0), (0, BANK_JITTER), (0, -BANK_JITTER)]
}

/// Whether a bank shot is worth throwing: it goes off at the enemy, and nowhere near the thrower.
pub open spec fn banks(s: BankSim) -> bool {
    (s.hit || s.det_dist < BANK_GOOD) && s.self_return >= BANK_CLEAR && s.first_bounce >= BANK_FIRST
}

/// The lower the better: the distance, twenty units a bounce, and five units a second.
pub open spec fn bank_score(s: BankSim) -> int {
    let near = if s.hit {
        0
    } else {
        s.det_dist as int
    };
    near + 20000 * s.bounces + 5 * s.det_time
}

fn score(s: &BankSim) -> (r: u64)
    ensures
        r == bank_score(*s),
{
    let near: u64 = if s.hit {
        0
    } else {
        s.det_dist as u64
    };
    near + 20000 * s.bounces as u64 + 5 * s.det_time as u64
}

/// Whether shot `i` is the first of the best.
pub open spec fn best_shot(sims: Seq<BankSim>, i: int) -> bool {
    &&& 0 <= i < sims.len() && banks(sims[i])
    &&& forall|j: int| 0 <= j < sims.len() && banks(#[trigger] sims[j]) ==> bank_score(sims[i]) <= bank_score(sims[j])
    &&& forall|j: int| 0 <= j < i && banks(#[trigger] sims[j]) ==> bank_score(sims[i]) < bank_score(sims[j])
}

/// The best of the bank shots that were flown.
pub fn pick_bank(sims: &Vec<BankSim>) -> (r: Option<usize>)
    ensures
        match r {
            Some(i) => best_shot(sims@, i as int),
            None => forall|j: int| 0 <= j < sims@.len() ==> !banks(#[trigger] sims@[j]),
        },
{
    let mut best: Option<usize> = None;
    let mut i: usize = 0;
    while i < sims.len()
        invariant
            i <= sims@.len(),
            match best {
                Some(k) => best_shot(sims@.take(i as int), k as int),
                None => forall|j: int| 0 <= j < i ==> !banks(#[trigger] sims@[j]),
            },
        decreases sims@.len() - i,
    {
        let s = sims[i];
        let ghost seen = sims@.take(i as int);
        let ghost more = sims@.take(i + 1);
        assert(more =~= seen.push(s));
        if (s.hit || s.det_dist < BANK_GOOD) && s.self_return >= BANK_CLEAR && s.first_bounce >= BANK_FIRST {
            let better: bool = match best {
                Some(k) => score(&s) < score(&sims[k]),
                None => true,
            };
            if better {
                best = Some(i);
            }
        }
        assert(more[i as int] == s);
        assert(forall|j: int| 0 <= j < i ==> more[j] == seen[j] && seen[j] == sims@[j]);
        i = i + 1;
    }
    assert(sims@.take(sims@.len() as int) =~= sims@);
    best
}

/// Whether a shot survives being thrown slightly wrong: every neighbour still goes off at the enemy
/// or not far from it.
pub fn bank_holds(sims: &Vec<BankSim>) -> (r: bool)
    ensures
        r == forall|j: int| 0 <= j < sims@.len() ==> (#[trigger] sims@[j]).hit || sims@[j].det_dist < BANK_TOL,
{
    let mut i: usize = 0;
    while i < sims.len()
        invariant
            i <= sims@.len(),
            forall|j: int| 0 <= j < i ==> (#[trigger] sims@[j]).hit || sims@[j].det_dist < BANK_TOL,
        decreases sims@.len() - i,
    {
        if !(sims[i].hit || sims[i].det_dist < BANK_TOL) {
            assert(!(sims@[i as int].hit || sims@[i as int].det_dist < BANK_TOL));
            return false;
        }
        i = i + 1;
    }
    true
}

/// No bank shot is thrown that comes back to the thrower.
pub proof fn no_shot_comes_back(sims: Seq<BankSim>, i: int)
    requires
        best_shot(sims, i),
    ensures
        sims[i].self_return >= BANK_CLEAR,
        sims[i].first_bounce >= BANK_FIRST,
{
}

// --- the rocket shove ---
/// Facts for shoving an enemy into a hazard with a rocket at the ground behind it.
#[derive(Clone, Copy, PartialEq, Eq, Debug, Structural)]
pub struct ShoveFacts {
    /// Distance and horizontal speed of the enemy.
    pub dist: u32,
    pub speed: u32,
    pub hazard: bool,
    /// The blast would carry the enemy over the edge.
    pub reaches: bool,
    pub teammate: bool,
    /// Distance from the bot to the blast.
    pub blast_dist: u32,
    /// Whether a line to the blast ended at the enemy, and how far from the blast it ended.
    pub hit: bool,
    pub miss: u32,
    /// How far off the view is.
    pub off: u32,
}

/// What the shove does to the frame.
#[derive(Clone, Copy, PartialEq, Eq, Debug, Structural)]
pub enum Shove {
    /// Nothing.
    Pass,
    /// Aim, and send this impulse to draw the launcher.
    Draw(i32),
    /// Aim, and fire where the view has settled.
    Aim { fire: bool },
}

/// The rocket shove against an enemy, if there is one.
pub open spec fn shove_of(v: EntVars, en: Option<EntVars>, f: ShoveFacts) -> Shove {
    if !(en matches Some(en) && walks(en)) || !owns(v, Items::ROCKET_LAUNCHER) || v.ammo_rockets < 1 {
        Shove::Pass
    } else if !(LOB_MIN_RANGE <= f.dist <= SHOVE_MAX_RANGE) || f.speed > SHOVE_SPEED {
        Shove::Pass
    } else if !f.hazard || !f.reaches || f.teammate {
        Shove::Pass
    } else if too_close(f.blast_dist, v.health) || f.hit || f.miss > LINE_OF_FIRE_SLACK {
        Shove::Pass
    } else if v.weapon != Weapon::RocketLauncher {
        Shove::Draw(ROCKET_IMPULSE)
    } else {
        Shove::Aim { fire: f.off < SHOVE_AIM_TOL }
    }
}

pub fn rocket_shove(v: &EntVars, en: Option<&EntVars>, f: &ShoveFacts) -> (r: Shove)
    ensures
        r == shove_of(
            *v,
            match en {
                Some(en) => Some(*en),
                None => None,
            },
            *f,
        ),
{
    let on_foot: bool = match en {
        Some(en) => en.movetype == MoveType::Walk && en.flags.has(Flags::ONGROUND),
        None => false,
    };
    if !on_foot {
        return Shove::Pass;
    }
    if !v.items.has(Items::ROCKET_LAUNCHER) || v.ammo_rockets < 1 {
        return Shove::Pass;
    }
    let in_range: bool = LOB_MIN_RANGE <= f.dist && f.dist <= SHOVE_MAX_RANGE;
    if !in_range || f.speed > SHOVE_SPEED {
        return Shove::Pass;
    }
    if !f.hazard || !f.reaches || f.teammate {
        return Shove::Pass;
    }
    if is_too_close(f.blast_dist, v.health) {
        return Shove::Pass;
    }
    if f.hit || f.miss > LINE_OF_FIRE_SLACK {
        return Shove::Pass;
    }
    if v.weapon != Weapon::RocketLauncher {
        return Shove::Draw(ROCKET_IMPULSE);
    }
    Shove::Aim { fire: f.off < SHOVE_AIM_TOL }
}

// --- what the combinations promise ---
/// A blast carries over an edge what it pushes along the way there, far enough to clear the edge by
/// sixteen units with a quarter of the push; a push that lifts counts twice.
pub proof fn shoves_carry_over_edges(align: i32, lift: i32, push: u32, edge: u32)
    ensures
        align < 600 ==> !carries(align, lift, push, edge),
        align >= 600 && lift <= 150_000 ==> (carries(align, lift, push, edge) <==> push > 4 * edge + 64_000),
        align >= 600 && lift > 150_000 ==> (carries(align, lift, push, edge) <==> 2 * push > 4 * edge + 64_000),
{
}

/// Lava is better than a pit, a pit better than slime.
pub proof fn lava_is_the_worst()
    ensures
        HazardKind::Lava.worth() > HazardKind::Pit.worth() > HazardKind::Slime.worth() > 0,
{
}

/// Straight down, what comes first decides: lava or slime are hazards, ground is one only more than a
/// hundred and seventy-six units down, in steps of twenty-four, and no ground at all is a pit.
pub proof fn falls_end_in_what_comes_first(line: Seq<Sounding>, at: int, k: int)
    requires
        0 <= at <= k <= line.len(),
        forall|j: int|
            at <= j < k ==> !(#[trigger] line[j]).solid && line[j].content != -5 && line[j].content != -4,
    ensures
        k == line.len() ==> below(line, at) == Some(HazardKind::Pit),
        k < line.len() && line[k].content == -5 ==> below(line, at) == Some(HazardKind::Lava),
        k < line.len() && line[k].content == -4 ==> below(line, at) == Some(HazardKind::Slime),
        k < line.len() && line[k].content != -5 && line[k].content != -4 && line[k].solid && 24 * k > 176 ==> below(line, at)
            == Some(HazardKind::Pit),
        k < line.len() && line[k].content != -5 && line[k].content != -4 && line[k].solid && 24 * k <= 176 ==> below(
            line,
            at,
        ) is None,
    decreases k - at,
{
    if at < k {
        assert(!line[at].solid);
        falls_end_in_what_comes_first(line, at + 1, k);
    }
}

/// Along a ray the first hazard counts, and nothing behind a wall.
pub proof fn edges_are_the_first_on_the_way(ray: Seq<Probe>, at: int, k: int)
    requires
        0 <= at <= k <= ray.len(),
        forall|j: int| at <= j < k ==> (#[trigger] ray[j]).clear && ray[j].below is None,
    ensures
        k == ray.len() ==> edge(ray, at) is None,
        k < ray.len() && !ray[k].clear ==> edge(ray, at) is None,
        k < ray.len() && ray[k].clear && ray[k].below is Some ==> edge(ray, at) == Some((k, ray[k].below->0)),
    decreases k - at,
{
    if at < k {
        assert(ray[at].clear);
        edges_are_the_first_on_the_way(ray, at + 1, k);
    }
}

/// The hazard chosen is one that was found: worse hazards first, nearer ones next, and of equals the
/// first ray.
pub proof fn hazards_are_found_where_they_are(rays: Seq<Vec<Probe>>, n: int, i: int)
    requires
        0 <= n <= rays.len(),
        best_of(rays, n) is Some,
        0 <= i < n,
        edge(rays[i]@, 0) is Some,
    ensures
        ({
            let b = best_of(rays, n)->0;
            let e = edge(rays[i]@, 0)->0;
            &&& 0 <= b.0 < n && edge(rays[b.0]@, 0) == Some((b.1, b.2))
            &&& e.1.worth() <= b.2.worth()
            &&& e.1.worth() == b.2.worth() ==> b.1 <= e.0
            &&& e.1.worth() == b.2.worth() && b.1 == e.0 ==> b.0 <= i
        }),
    decreases n,
{
    if best_of(rays, n - 1) is Some {
        if i < n - 1 {
            hazards_are_found_where_they_are(rays, n - 1, i);
        } else {
            lemma_best_is_there(rays, n - 1);
        }
    } else if i < n - 1 {
        nothing_beats_the_best_hazard(rays, n - 1, i);
    }
}

proof fn lemma_best_is_there(rays: Seq<Vec<Probe>>, n: int)
    requires
        best_of(rays, n) is Some,
    ensures
        ({
            let b = best_of(rays, n)->0;
            0 <= b.0 < n && edge(rays[b.0]@, 0) == Some((b.1, b.2))
        }),
    decreases n,
{
    if best_of(rays, n - 1) is Some {
        lemma_best_is_there(rays, n - 1);
    }
}

/// The eight directions go round: each is a quarter turn from the second after it, and about a unit
/// long.
pub proof fn the_compass_goes_round(i: int)
    requires
        0 <= i < 8,
    ensures
        compass((i + 2) % 8) == (-compass(i).1, compass(i).0),
        compass(0) == (1000int, 0int),
        compass(1) == (707int, 707int),
{
}

/// A combination is begun with its grenade unknown, and ends with nothing of it left.
pub proof fn combinations_begin_and_end(b: BotState, bank: bool, shove: bool, now: i64, pause: i64, s: Start)
    requires
        0 <= now <= i64::MAX - 10_000,
        0 <= pause <= 10_000,
    ensures
        ({
            let after = start_state(b, s, bank, shove, pause, now);
            &&& s == Start::Wait ==> after == b
            &&& s == Start::Abandon ==> after == (BotState {
                grenade_phase: GrenadePhase::Idle,
                grenade_ent: 0,
                grenade_bank: false,
                grenade_next_try: (now + pause) as i64,
                ..b
            })
            &&& s is Begin ==> after == (BotState {
                grenade_phase: GrenadePhase::Windup,
                grenade_started: now,
                grenade_shove: shove,
                grenade_ent: 0,
                grenade_bank: bank,
                ..b
            })
        }),
{
}

/// A combination is thought of once its pause is over, by a healthy bot with a launcher and a grenade,
/// against someone on foot between two hundred and five hundred units away.
pub proof fn lobs_need_their_means(b: BotState, enabled: bool, v: EntVars, en: EntVars, dist: u32, now: i64)
    ensures
        may_begin(b, enabled, v, en, dist, now) <==> {
            &&& enabled && now >= b.grenade_next_try
            &&& v.items & Items::GRENADE_LAUNCHER != 0 && v.ammo_rockets >= 1 && v.health >= 50
            &&& 200_000 <= dist <= 500_000
            &&& en.movetype == MoveType::Walk && en.flags & Flags::ONGROUND != 0
        },
{
}

/// A lob clears where it comes down near its target, or where there is no map to tell.
pub proof fn lobs_must_come_down_near(l: Lob)
    ensures
        l == Lob::Lost ==> !clears(l),
        l == Lob::Unchecked ==> clears(l),
        l matches Lob::Lands(miss) ==> (clears(l) <==> miss < 96_000),
{
}

/// A lob is begun only with a gun to set it off, a reason, and a blast that is safe, reaches what it is
/// for and is in sight; the flat arc is tried before the lofted one.
pub proof fn lobs_are_begun_for_a_reason(v: EntVars, f: StartFacts)
    ensures
        ({
            let s = start_of(v, f);
            let gun = detonator(v) is Some;
            let cause = f.hazard || (f.skill >= 3_000 && f.wave >= 600);
            let risky = too_close(f.dist, v.health) || f.teammate;
            let useless = f.hazard && (f.toward > 500 || !f.reaches);
            let seen = f.hit || f.fraction > 900;
            let arc = clears(f.flat) || clears(f.lofted);
            &&& s == Start::Wait <==> !gun || !cause
            &&& s is Begin <==> gun && cause && !risky && !useless && seen && arc
            &&& s == (Start::Begin { high: false }) ==> clears(f.flat)
            &&& s == (Start::Begin { high: true }) ==> !clears(f.flat) && clears(f.lofted)
        }),
{
}

/// A bank shot is for the skilled, with a map, at someone slow who was seen in the last three seconds:
/// always at a flag carrier, now and then at others.
pub proof fn bank_shots_are_for_the_skilled(b: BotState, f: BankFacts)
    ensures
        ({
            let s = bank_of(b, f);
            let able = f.skill >= 4_000 && f.has_map;
            let fresh = f.speed <= 120_000 && b.enemy_seen_time > 0 && f.now - b.enemy_seen_time <= 3_000;
            let cause = f.carrier || f.wave >= 700;
            &&& s is Begin <==> able && fresh && cause && f.solved && !f.teammate
            &&& s == Start::Wait <==> !able || (fresh && !cause)
            &&& s is Begin ==> s == Start::Begin { high: false }
        }),
{
}

/// The launcher is drawn, the view settled within two and a half degrees, the grenade thrown; after a
/// second and a fifth it is given up.
pub proof fn windups_are_short(b: BotState, weapon: Weapon, attack_finished: i64, off: u32, now: i64)
    ensures
        ({
            let w = windup_of(b, weapon, attack_finished, off, now);
            let late = now - b.grenade_started > 1_200;
            let drawn = weapon == Weapon::GrenadeLauncher;
            &&& w == Windup::Abandon <==> late
            &&& w == Windup::Draw(6) <==> !late && !drawn
            &&& w == Windup::Fire <==> !late && drawn && now >= attack_finished && off < 2_500
            &&& w == Windup::Hold <==> !late && drawn && (now < attack_finished || off >= 2_500)
        }),
{
}

/// A thrown grenade is looked for three tenths of a second; once it is gone the combination is over; a
/// bank shot runs its three seconds; any other grenade is aimed at with a gun that can set it off.
pub proof fn thrown_grenades_are_watched(b: BotState, own: Option<u32>, live: bool, v: EntVars, now: i64)
    requires
        0 <= now <= i64::MAX - 10_000,
    ensures
        ({
            let (after, w) = watched(b, own, live, v, now);
            let known = b.grenade_ent != 0 || own is Some;
            let id = if b.grenade_ent == 0 && own is Some {
                own->0
            } else {
                b.grenade_ent
            };
            let age = now - b.grenade_started;
            &&& !known ==> (w == Watch::Over <==> age > 300) && (w == Watch::Wait <==> age <= 300)
            &&& !known && age > 300 ==> after.grenade_next_try == now + 4_000
            &&& known && !live ==> w == Watch::Over && after.grenade_next_try == now + 1_500
            &&& known && live && b.grenade_bank ==> (w == Watch::Over <==> age > 3_000) && (w == Watch::Wait <==> age
                <= 3_000)
            &&& known && live && b.grenade_bank && age > 3_000 ==> after.grenade_next_try == now + 3_000
            &&& known && live && !b.grenade_bank && detonator(v) is None ==> w == Watch::Over && after.grenade_next_try
                == now + 4_000
            &&& known && live && !b.grenade_bank && detonator(v) is Some && v.weapon != (detonator(v)->0).1 ==> w
                == Watch::Aim((detonator(v)->0).0) && after.grenade_phase == b.grenade_phase
            &&& known && live && !b.grenade_bank && detonator(v) is Some && v.weapon == (detonator(v)->0).1 ==> w
                == Watch::Aim(0) && after.grenade_phase == GrenadePhase::Detonate
            &&& w == Watch::Over ==> after.grenade_phase == GrenadePhase::Idle && after.grenade_ent == 0
            &&& w != Watch::Over ==> after.grenade_ent == id
        }),
{
}

/// A grenade is shot where that is safe and in reach: a hundred units from the enemy, or a hundred and
/// forty for a shove that carries; after two and a half seconds, or once it is gone, it is over.
pub proof fn grenades_are_set_off_near_the_enemy(b: BotState, health: i32, f: DetonateFacts)
    ensures
        ({
            let d = detonation(b, health, f);
            let over = b.grenade_ent == 0 || !f.live || f.now - b.grenade_started > 2_500;
            let risky = too_close(f.dist, health) || f.teammate;
            let near = if b.grenade_shove {
                f.enemy_dist < 140_000 && f.reaches
            } else {
                f.enemy_dist < 100_000
            };
            &&& d == Detonate::Over <==> over
            &&& d is Hold <==> !over && risky
            &&& d is Hold ==> (d == (Detonate::Hold { back: true }) <==> f.dist < 200_000)
            &&& d == Detonate::Shoot <==> !over && !risky && near && f.can_hit
            &&& d == Detonate::Aim <==> !over && !risky && !(near && f.can_hit)
        }),
{
}

/// A blast is too close when it would cost the bot more than it has, or within the distance that is
/// never shot at.
pub proof fn blasts_may_cost_too_much(dist: u32, health: i32)
    ensures
        dist < 100_000 ==> too_close(dist, health),
        blast(dist as int) > 1000 * health ==> too_close(dist, health),
        dist >= 100_000 && blast(dist as int) <= 1000 * health ==> !too_close(dist, health),
{
}

/// Without an enemy nothing is done; with one, each phase has its step.
pub proof fn phases_have_their_steps(phase: GrenadePhase, enemy: bool)
    ensures
        combo_step(phase, enemy) == ComboStep::Nothing <==> !enemy,
        combo_step(phase, enemy) == ComboStep::Start <==> enemy && phase == GrenadePhase::Idle,
        combo_step(phase, enemy) == ComboStep::Windup <==> enemy && phase == GrenadePhase::Windup,
        combo_step(phase, enemy) == ComboStep::Watch <==> enemy && phase == GrenadePhase::Lobbed,
        combo_step(phase, enemy) == ComboStep::Detonate <==> enemy && phase == GrenadePhase::Detonate,
{
}

/// A grenade in flight is one in use that has not gone off.
pub proof fn grenades_fly_until_they_go_off(e: Entity)
    ensures
        in_flight(e) <==> e.in_use && e.class() == Some("grenade"@) && !e.combat.voided,
{
}

/// A grenade's way: it comes back only after three tenths of a second, its first bounce is remembered,
/// and touching the enemy ends it there.
pub proof fn flights_are_followed(f: Flight, s: FlightStep)
    requires
        f.micros <= 2_500_000,
        s.micros <= 2_500_000,
        f.bounces <= 8,
    ensures
        ({
            let g = flown(f, s);
            let touched = s.enemy < 32_000;
            &&& f.micros > 300_000 && s.home < f.self_return ==> g.self_return == s.home
            &&& f.micros <= 300_000 || s.home >= f.self_return ==> g.self_return == f.self_return
            &&& touched ==> g.micros == f.micros && g.bounces == f.bounces && g.first_bounce == f.first_bounce
            &&& !touched ==> g.micros == f.micros + s.micros
            &&& !touched && s.bounce is Some ==> g.bounces == f.bounces + 1
            &&& !touched && s.bounce is Some && f.bounces == 0 ==> g.first_bounce == (s.bounce->0).dist
            &&& !touched && s.bounce is Some && f.bounces != 0 ==> g.first_bounce == f.first_bounce
            &&& !touched && s.bounce is None ==> g.bounces == f.bounces && g.first_bounce == f.first_bounce
        }),
{
}

/// How a way ends: at the enemy, at rest on a floor below sixty units a second, lost after eight
/// bounces, or with the fuse after two and a half seconds.
pub proof fn flights_end(f: Flight, s: FlightStep)
    ensures
        ({
            let e = flight_end(f, s);
            let touched = s.enemy < 32_000;
            let rests = s.bounce is Some && (s.bounce->0).lean > 700 && (s.bounce->0).speed < 60_000;
            let lost = s.bounce is Some && !rests && f.bounces >= 8;
            &&& e == FlightEnd::Touched <==> touched
            &&& e == FlightEnd::Rested <==> !touched && rests
            &&& e == FlightEnd::Lost <==> !touched && lost
            &&& e == FlightEnd::Fuse <==> !touched && !rests && !lost && f.micros + s.micros >= 2_500_000
            &&& e == FlightEnd::Rested || e == FlightEnd::Fuse ==> det_time(f, e) == 2_500
            &&& e == FlightEnd::Touched || e == FlightEnd::Lost || e == FlightEnd::Flying ==> det_time(f, e) == f.micros
                / 1000
        }),
{
}

/// Bank shots are looked for straight ahead first, then a sixth of a right angle to either side, and so
/// on outward.
pub proof fn bank_views_fan_out(k: int)
    requires
        0 <= k,
    ensures
        fanned(0) == 0,
        fanned(2 * k + 1) == 15_000 * (k + 1),
        fanned(2 * k + 2) == -15_000 * (k + 1),
{
}

/// A bank shot is good that touches the enemy or goes off within ninety units of it, stays a hundred
/// and sixty clear of the thrower and first bounces sixty-four away; the fewer bounces and the sooner
/// the better.
pub proof fn bank_shots_are_scored(s: BankSim)
    ensures
        banks(s) <==> (s.hit || s.det_dist < 90_000) && s.self_return >= 160_000 && s.first_bounce >= 64_000,
        s.hit ==> bank_score(s) == 20_000 * s.bounces + 5 * s.det_time,
        !s.hit ==> bank_score(s) == s.det_dist + 20_000 * s.bounces + 5 * s.det_time,
{
}

/// A shove by rocket: at someone on foot and slow, between two hundred and seven hundred units away,
/// whom the blast would carry over an edge, with the way to the blast clear and nobody harmed who
/// should not be.
pub proof fn shoves_need_an_edge(v: EntVars, en: Option<EntVars>, f: ShoveFacts)
    ensures
        ({
            let s = shove_of(v, en, f);
            let foot = en matches Some(w) && w.movetype == MoveType::Walk && w.flags & Flags::ONGROUND != 0;
            let armed = v.items & Items::ROCKET_LAUNCHER != 0 && v.ammo_rockets >= 1;
            let range = 200_000 <= f.dist <= 700_000 && f.speed <= 250_000;
            let way = !too_close(f.blast_dist, v.health) && !f.hit && f.miss <= 48_000;
            let good = foot && armed && range && f.hazard && f.reaches && !f.teammate && way;
            &&& s == Shove::Pass <==> !good
            &&& s == Shove::Draw(7) <==> good && v.weapon != Weapon::RocketLauncher
            &&& s == (Shove::Aim { fire: true }) <==> good && v.weapon == Weapon::RocketLauncher && f.off < 4_000
            &&& s == (Shove::Aim { fire: false }) <==> good && v.weapon == Weapon::RocketLauncher && f.off >= 4_000
        }),
{
}

/// The bot's grenade is the nearest of its own, within a hundred and twenty units, and the first of
/// equals.
pub proof fn the_nearest_grenade_was_thrown(live: Seq<OwnGrenade>, i: int, j: int)
    requires
        just_thrown(live, i),
        0 <= j < live.len(),
    ensures
        live[i].dist < 120_000,
        live[i].dist <= live[j].dist,
        live[i].dist == live[j].dist ==> i <= j,
{
}

/// The measures of a combination: the pauses after one, and how hazards and bank shots are looked for.
pub proof fn combinations_have_their_measures()
    ensures
        COMBO_COOLDOWN == 4_000 && COMBO_DONE_COOLDOWN == 1_500 && BANK_COOLDOWN == 6_000,
        HAZARD_DIRS == 8 && HAZARD_RADII == 3 && HAZARD_SOUNDINGS == 14 && SHOVE_OFFSET == 72_000,
        BANK_VIEWS == 28 && BANK_JITTER == 1_500 && BANK_TOL == 140_000,
{
}

/// Every grenade that is nearest, near enough and first is the bot's own.
pub proof fn any_nearest_grenade_will_do(live: Seq<OwnGrenade>, i: int)
    requires
        0 <= i < live.len(),
        live[i].dist < 120_000,
        forall|j: int| 0 <= j < live.len() ==> live[i].dist <= (#[trigger] live[j]).dist,
        forall|j: int| 0 <= j < i ==> live[i].dist < (#[trigger] live[j]).dist,
    ensures
        just_thrown(live, i),
{
}

/// The speed that a blast gives at a distance.
pub open spec fn shoved(dist: int) -> int {
    if dist < 240000 {
        4 * (240000 - dist)
    } else {
        0
    }
}

/// A blast shoves by four units a second for each unit that it still reaches beyond.
pub proof fn shoves_fall_off(dist: int, further: int)
    requires
        0 <= dist <= further,
    ensures
        shoved(0) == 960_000,
        further <= 240_000 ==> shoved(dist) - shoved(further) == 4 * (further - dist),
        dist >= 240_000 ==> shoved(dist) == 0,
{
}

} // verus!
