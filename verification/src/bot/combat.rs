//! Fighting: which weapon, which distance, when to fire, and what to do about live grenades.
//!
//! Distances, speeds and damage are thousandths, skill thousandths of a step, times milliseconds.
//! Health is whole points unless said otherwise.
use crate::abi::EntVars;
use crate::bot::perception::CLEAR_FRACTION;
use crate::bot::state::{BotState, GrenadePhase};
use crate::defs::{Bits, Items, Weapon, BUTTON_ATTACK, BUTTON_JUMP};
use crate::num::{after, bound, bounded, since};
use vstd::prelude::*;

verus! {

pub const ROCKET_SPEED: u32 = 1000000;

/// Launch speed of a grenade, rounded down.
pub const GL_SPEED: u32 = 632455;

pub const GL_IMPULSE: i32 = 6;

/// The distance a fight is kept at, the slack around it, and the reach of one's own splash.
pub const PREFERRED_RANGE: u32 = 400000;

pub const RANGE_SLACK: u32 = 100000;

pub const LIGHTNING_SLACK: u32 = 150000;

pub const SPLASH_RANGE: u32 = 140000;

/// A projectile that would stop no farther than this from its aim has a clear line.
pub const LINE_OF_FIRE_SLACK: u32 = 48000;

/// A target on the ground that moves faster than this is aimed at low.
pub const STRAFE_SPEED: u32 = 150000;

/// A lob onto a grounded target must come down within this of the point it was led to.
pub const LOB_LAND_TOL: u32 = 48000;

/// A view that turns faster than the first jumps rather than turns; the second is the most that is
/// anticipated. Thousandths of a degree a second.
pub const JUMP_RATE: i64 = 360000;

pub const TURN_RATE: i64 = 180000;

/// Below this health a bot backs off.
pub const LOW_HEALTH: i32 = 40;

/// A kill is worth pressing against less than this stack, believed less than this long ago, by a bot
/// with at least this health.
pub const FINISH_STACK: i64 = 35000;

pub const FINISH_FRESH: i64 = 4000;

pub const PRESS_FLOOR: i64 = 20000;

/// How long the angle where an enemy vanished is held.
pub const HOLD_ANGLE_TIME: i64 = 2000;

/// The range of a grenade's blast, of noticing one, of shooting one, and of running from one.
pub const GRENADE_BLAST_RADIUS: u32 = 160000;

pub const GRENADE_AWARE: u32 = 320000;

pub const GRENADE_MIN_SHOOT: u32 = 100000;

pub const GRENADE_THREAT: u32 = 200000;

/// Whether to press a kill.
pub fn press_advantage(own_health: i64, enemy_stack: i64, est_age: i64) -> (r: bool)
    ensures
        r == (enemy_stack < FINISH_STACK && est_age < FINISH_FRESH && own_health >= PRESS_FLOOR),
{
    enemy_stack < FINISH_STACK && est_age < FINISH_FRESH && own_health >= PRESS_FLOOR
}

/// A weapon for the current range: the impulse that selects it and the speed of its projectile,
/// zero for none. An arc is a lob whose angles were solved beforehand.
#[derive(Clone, Copy, PartialEq, Eq, Debug, Structural)]
pub struct WeaponChoice {
    pub impulse: i32,
    pub weapon: Weapon,
    pub projectile_speed: u32,
    pub grenade_arc: bool,
}

pub open spec fn gun(impulse: i32, weapon: Weapon) -> WeaponChoice {
    WeaponChoice { impulse, weapon, projectile_speed: 0, grenade_arc: false }
}

pub open spec fn lob() -> WeaponChoice {
    WeaponChoice {
        impulse: GL_IMPULSE,
        weapon: Weapon::GrenadeLauncher,
        projectile_speed: GL_SPEED,
        grenade_arc: true,
    }
}

pub open spec fn owns(v: EntVars, item: i32) -> bool {
    v.items & item != 0
}

/// The weapon for a distance: a solved airborne lob first; point blank a shotgun, in the middle the
/// lightning gun, else the rocket launcher, a solved lob, and whatever still has ammo.
pub open spec fn weapon_for(v: EntVars, dist: u32, gl_air: bool, gl_ground: bool) -> WeaponChoice {
    let ssg = owns(v, Items::SUPER_SHOTGUN) && v.ammo_shells >= 2;
    let sg = owns(v, Items::SHOTGUN) && v.ammo_shells >= 1;
    let lg = owns(v, Items::LIGHTNING) && v.ammo_cells >= 1;
    let rl = owns(v, Items::ROCKET_LAUNCHER) && v.ammo_rockets >= 1;
    if gl_air {
        lob()
    } else if dist < SPLASH_RANGE && ssg {
        gun(3, Weapon::SuperShotgun)
    } else if dist < SPLASH_RANGE && sg {
        gun(2, Weapon::Shotgun)
    } else if dist < PREFERRED_RANGE + LIGHTNING_SLACK && lg {
        gun(8, Weapon::Lightning)
    } else if rl {
        WeaponChoice {
            impulse: 7,
            weapon: Weapon::RocketLauncher,
            projectile_speed: ROCKET_SPEED,
            grenade_arc: false,
        }
    } else if gl_ground {
        lob()
    } else if ssg {
        gun(3, Weapon::SuperShotgun)
    } else if lg {
        gun(8, Weapon::Lightning)
    } else if sg {
        gun(2, Weapon::Shotgun)
    } else {
        gun(1, Weapon::Axe)
    }
}

fn plain(impulse: i32, weapon: Weapon) -> (r: WeaponChoice)
    ensures
        r == gun(impulse, weapon),
{
    WeaponChoice { impulse, weapon, projectile_speed: 0, grenade_arc: false }
}

fn arc() -> (r: WeaponChoice)
    ensures
        r == lob(),
{
    WeaponChoice {
        impulse: GL_IMPULSE,
        weapon: Weapon::GrenadeLauncher,
        projectile_speed: GL_SPEED,
        grenade_arc: true,
    }
}

pub fn choose_weapon(v: &EntVars, dist: u32, gl_air: bool, gl_ground: bool) -> (r: WeaponChoice)
    ensures
        r == weapon_for(*v, dist, gl_air, gl_ground),
{
    let ssg: bool = v.items.has(Items::SUPER_SHOTGUN) && v.ammo_shells >= 2;
    let sg: bool = v.items.has(Items::SHOTGUN) && v.ammo_shells >= 1;
    let lg: bool = v.items.has(Items::LIGHTNING) && v.ammo_cells >= 1;
    if gl_air {
        return arc();
    }
    if dist < SPLASH_RANGE {
        if ssg {
            return plain(3, Weapon::SuperShotgun);
        }
        if sg {
            return plain(2, Weapon::Shotgun);
        }
    }
    if dist < PREFERRED_RANGE + LIGHTNING_SLACK && lg {
        return plain(8, Weapon::Lightning);
    }
    if v.items.has(Items::ROCKET_LAUNCHER) && v.ammo_rockets >= 1 {
        return WeaponChoice {
            impulse: 7,
            weapon: Weapon::RocketLauncher,
            projectile_speed: ROCKET_SPEED,
            grenade_arc: false,
        };
    }
    if gl_ground {
        return arc();
    }
    if ssg {
        return plain(3, Weapon::SuperShotgun);
    }
    if lg {
        return plain(8, Weapon::Lightning);
    }
    if sg {
        return plain(2, Weapon::Shotgun);
    }
    plain(1, Weapon::Axe)
}

/// A weapon is never chosen that is not owned or has nothing to fire, save the axe and a lob that was
/// solved for.
pub proof fn chosen_weapons_can_fire(v: EntVars, dist: u32, gl_air: bool, gl_ground: bool)
    ensures
        ({
            let c = weapon_for(v, dist, gl_air, gl_ground);
            match c.weapon {
                Weapon::Axe => true,
                Weapon::Shotgun => owns(v, Items::SHOTGUN) && v.ammo_shells >= 1,
                Weapon::SuperShotgun => owns(v, Items::SUPER_SHOTGUN) && v.ammo_shells >= 2,
                Weapon::Lightning => owns(v, Items::LIGHTNING) && v.ammo_cells >= 1,
                Weapon::RocketLauncher => owns(v, Items::ROCKET_LAUNCHER) && v.ammo_rockets >= 1,
                Weapon::GrenadeLauncher => gl_air || gl_ground,
                _ => false,
            }
        }),
{
}

/// Within reach of one's own splash the rocket launcher is not drawn while a shotgun will do.
pub proof fn no_rockets_point_blank(v: EntVars, dist: u32, gl_ground: bool)
    requires
        dist < SPLASH_RANGE,
        owns(v, Items::SHOTGUN) && v.ammo_shells >= 1,
    ensures
        weapon_for(v, dist, false, gl_ground).projectile_speed == 0,
{
}

/// How loose the aim is, in millionths of the base spread: loose on first sight and tightening over
/// a second and a half, looser while running and against a target that crosses.
pub open spec fn looseness(visible_for: int, own_speed: int, perp_speed: int, dist: int) -> int {
    let seen = if visible_for <= 0 {
        0
    } else if visible_for <= 1500 {
        visible_for
    } else {
        1500
    };
    let own = if own_speed <= 320000 {
        own_speed
    } else {
        320000
    };
    let reach = if dist >= 1000 {
        dist
    } else {
        1000
    };
    let crossing = if perp_speed <= reach {
        perp_speed * 1000000 / reach
    } else {
        1000000
    };
    (16000 - 6 * seen) * (4000000 + 5 * own) * (2000000 + crossing) / 80000000000
}

pub fn spread_scale(visible_for: i64, own_speed: u32, perp_speed: u32, dist: u32) -> (r: u64)
    ensures
        r == looseness(visible_for as int, own_speed as int, perp_speed as int, dist as int),
{
    let seen: u128 = if visible_for <= 0 {
        0
    } else if visible_for <= 1500 {
        visible_for as u128
    } else {
        1500
    };
    let own: u128 = if own_speed <= 320000 {
        own_speed as u128
    } else {
        320000
    };
    let reach: u128 = if dist >= 1000 {
        dist as u128
    } else {
        1000
    };
    let crossing: u128 = if perp_speed as u128 <= reach {
        perp_speed as u128 * 1000000 / reach
    } else {
        1000000
    };
    proof {
        if perp_speed as int <= reach as int {
            assert(perp_speed * 1000000 / reach as int <= 1000000) by (nonlinear_arith)
                requires
                    0 <= perp_speed <= reach,
                    reach > 0,
            ;
        }
    }
    let a: u128 = 16000 - 6 * seen;
    let b: u128 = 4000000 + 5 * own;
    let c: u128 = 2000000 + crossing;
    assert(a * b <= 16000 * 5600000) by (nonlinear_arith)
        requires
            0 <= a <= 16000,
            0 <= b <= 5600000,
    ;
    assert(a * b * c <= 16000 * 5600000 * 3000000) by (nonlinear_arith)
        requires
            0 <= a * b <= 16000 * 5600000,
            0 <= c <= 3000000,
    ;
    assert(a * b >= 0) by (nonlinear_arith)
        requires
            a >= 0,
            b >= 0,
    ;
    let wide: u128 = a * b * c / 80000000000;
    wide as u64
}

/// The spread of the aim error in thousandths of a degree: what skill leaves, widened by the
/// looseness.
pub fn aim_spread(skill: u32, scale: u64) -> (r: u64)
    ensures
        r == spread(skill as int, scale as int),
        r == if skill <= 7000 {
            (7000 - skill) * scale / 1000000
        } else {
            0
        },
{
    if skill > 7000 {
        return 0;
    }
    let base: u128 = 7000 - skill as u128;
    assert(0 <= base * scale <= 7000 * 0xffff_ffff_ffff_ffff) by (nonlinear_arith)
        requires
            0 <= base <= 7000,
            0 <= scale <= 0xffff_ffff_ffff_ffff,
    ;
    (base * scale as u128 / 1000000) as u64
}

/// The looseness never falls below that of a settled aim and never exceeds the product of its caps.
pub proof fn looseness_is_bounded(visible_for: int, own_speed: int, perp_speed: int, dist: int)
    requires
        own_speed >= 0,
        perp_speed >= 0,
    ensures
        700000 <= looseness(visible_for, own_speed, perp_speed, dist) <= 3360000,
{
    let seen = if visible_for <= 0 {
        0
    } else if visible_for <= 1500 {
        visible_for
    } else {
        1500
    };
    let own = if own_speed <= 320000 {
        own_speed
    } else {
        320000
    };
    let reach = if dist >= 1000 {
        dist
    } else {
        1000
    };
    let crossing = if perp_speed <= reach {
        perp_speed * 1000000 / reach
    } else {
        1000000
    };
    if perp_speed <= reach {
        assert(0 <= perp_speed * 1000000 / reach <= 1000000) by (nonlinear_arith)
            requires
                0 <= perp_speed <= reach,
                reach > 0,
        ;
    }
    let a = 16000 - 6 * seen;
    let b = 4000000 + 5 * own;
    let c = 2000000 + crossing;
    assert(7000 * 4000000 <= a * b <= 16000 * 5600000) by (nonlinear_arith)
        requires
            7000 <= a <= 16000,
            4000000 <= b <= 5600000,
    ;
    assert(7000 * 4000000 * 2000000 <= a * b * c <= 16000 * 5600000 * 3000000) by (nonlinear_arith)
        requires
            7000 * 4000000 <= a * b <= 16000 * 5600000,
            2000000 <= c <= 3000000,
    ;
}

/// The rate at which a firing solution turns, for anticipating it: a jump is no turn, and a turn is
/// anticipated only so far.
pub open spec fn turning(pitch: i64, yaw: i64) -> (int, int) {
    if pitch > JUMP_RATE || pitch < -JUMP_RATE || yaw > JUMP_RATE || yaw < -JUMP_RATE {
        (0, 0)
    } else {
        (clipped(pitch as int), clipped(yaw as int))
    }
}

pub open spec fn clipped(rate: int) -> int {
    if rate > TURN_RATE {
        TURN_RATE as int
    } else if rate < -TURN_RATE {
        -(TURN_RATE as int)
    } else {
        rate
    }
}

fn clip(rate: i64) -> (r: i64)
    ensures
        r == clipped(rate as int),
{
    if rate > TURN_RATE {
        TURN_RATE
    } else if rate < -TURN_RATE {
        -TURN_RATE
    } else {
        rate
    }
}

pub fn turn_rate(pitch: i64, yaw: i64) -> (r: (i64, i64))
    ensures
        (r.0 as int, r.1 as int) == turning(pitch, yaw),
{
    if pitch > JUMP_RATE || pitch < -JUMP_RATE || yaw > JUMP_RATE || yaw < -JUMP_RATE {
        (0, 0)
    } else {
        (clip(pitch), clip(yaw))
    }
}

/// How far off a shot may be, by skill: a direct hit must meet the hull, a splash may fall near.
pub open spec fn tolerance(skill: int, direct: bool) -> int {
    let s = if skill <= 7000 {
        skill
    } else {
        7000
    };
    if direct {
        16000 + (7000 - s) * 18
    } else {
        40000 + (7000 - s) * 25
    }
}

pub fn fire_tolerance(skill: u32, direct: bool) -> (r: u32)
    ensures
        r == tolerance(skill as int, direct),
{
    let s: u32 = if skill <= 7000 {
        skill
    } else {
        7000
    };
    if direct {
        16000 + (7000 - s) * 18
    } else {
        40000 + (7000 - s) * 25
    }
}

/// A direct shot is held to a tighter tolerance than a splash, and skill only tightens both.
pub proof fn tolerance_tightens(less: int, more: int, direct: bool)
    requires
        0 <= less <= more,
    ensures
        tolerance(more, direct) <= tolerance(less, direct),
        tolerance(less, true) < tolerance(less, false),
{
}

/// Damage of a grenade's blast at a distance, rounded up.
pub open spec fn blast(dist: int) -> int {
    if dist < GRENADE_BLAST_RADIUS {
        (240000 - dist + 1) / 2
    } else {
        0
    }
}

pub fn blast_self_damage(dist: u32) -> (r: u32)
    ensures
        r == blast(dist as int),
{
    if dist < GRENADE_BLAST_RADIUS {
        (240000 - dist + 1) / 2
    } else {
        0
    }
}

/// The best gun for shooting a grenade: the beam, then the shotguns.
pub open spec fn detonator(v: EntVars) -> Option<(i32, Weapon)> {
    if owns(v, Items::LIGHTNING) && v.ammo_cells >= 1 {
        Some((8, Weapon::Lightning))
    } else if owns(v, Items::SUPER_SHOTGUN) && v.ammo_shells >= 2 {
        Some((3, Weapon::SuperShotgun))
    } else if owns(v, Items::SHOTGUN) && v.ammo_shells >= 1 {
        Some((2, Weapon::Shotgun))
    } else {
        None
    }
}

pub fn hitscan_choice(v: &EntVars) -> (r: Option<(i32, Weapon)>)
    ensures
        r == detonator(*v),
{
    if v.items.has(Items::LIGHTNING) && v.ammo_cells >= 1 {
        Some((8, Weapon::Lightning))
    } else if v.items.has(Items::SUPER_SHOTGUN) && v.ammo_shells >= 2 {
        Some((3, Weapon::SuperShotgun))
    } else if v.items.has(Items::SHOTGUN) && v.ammo_shells >= 1 {
        Some((2, Weapon::Shotgun))
    } else {
        None
    }
}

// --- engaging an enemy ---
/// How the target moves.
#[derive(Clone, Copy, PartialEq, Eq, Debug, Structural)]
pub enum Footing {
    Grounded,
    Swimming,
    Airborne,
}

pub fn footing(grounded: bool, waterlevel: i32) -> (r: Footing)
    ensures
        r == stood(grounded, waterlevel),
        r == if waterlevel >= 2 {
            Footing::Swimming
        } else if grounded {
            Footing::Grounded
        } else {
            Footing::Airborne
        },
{
    if waterlevel >= 2 {
        Footing::Swimming
    } else if grounded {
        Footing::Grounded
    } else {
        Footing::Airborne
    }
}

/// A floor is what leans up more than this, in thousandths.
pub const FLOOR_LEAN: i32 = 700;

/// A fall is not followed beyond so many steps.
pub const FALL_STEPS: u32 = 512;

/// A fall as far as it has been followed, in millionths of a second.
#[derive(Clone, Copy, PartialEq, Eq, Debug, Structural)]
pub struct Fall {
    pub steps: u32,
    pub micros: u32,
}

#[derive(Clone, Copy, PartialEq, Eq, Debug, Structural)]
pub enum FallStep {
    Falling,
    /// It ended on a floor, so long after it began.
    Lands(u32),
    /// Still in the air at the horizon, or followed long enough.
    Unknown,
}

pub open spec fn fallen(f: Fall, micros: u32) -> Fall {
    let sum = f.micros + micros;
    Fall {
        steps: (f.steps + 1) as u32,
        micros: if sum > u32::MAX {
            u32::MAX
        } else {
            sum as u32
        },
    }
}

impl Fall {
    pub fn begins() -> (r: Fall)
        ensures
            r == (Fall { steps: 0, micros: 0 }),
    {
        Fall { steps: 0, micros: 0 }
    }

    /// One step of a fall, of `micros`, that met a surface leaning by `lean`, or nothing. A wall only
    /// turns the fall along itself.
    pub fn fall_land(&mut self, micros: u32, lean: Option<i32>, horizon: u32) -> (r: FallStep)
        requires
            old(self).steps < FALL_STEPS,
        ensures
            r == fall_end(fallen(*old(self), micros), lean, horizon),
            *final(self) == fallen(*old(self), micros),
            r == if lean is Some && lean->0 > FLOOR_LEAN {
                FallStep::Lands(final(self).micros)
            } else if final(self).micros >= horizon || final(self).steps >= FALL_STEPS {
                FallStep::Unknown
            } else {
                FallStep::Falling
            },
    {
        self.steps = self.steps + 1;
        self.micros = if micros > u32::MAX - self.micros {
            u32::MAX
        } else {
            self.micros + micros
        };
        if let Some(up) = lean {
            if up > FLOOR_LEAN {
                return FallStep::Lands(self.micros);
            }
        }
        if self.micros >= horizon || self.steps >= FALL_STEPS {
            FallStep::Unknown
        } else {
            FallStep::Falling
        }
    }
}

/// Which lob is worth solving: with a grenade launcher and no rocket launcher, an intercept of an
/// airborne target, or, where no combination would do it, a lob onto a grounded one.
#[derive(Clone, Copy, PartialEq, Eq, Debug, Structural)]
pub enum LobWanted {
    Neither,
    Air,
    Ground,
}

pub open spec fn lob_wanted(b: BotState, v: EntVars, foot: Footing, combos: bool) -> LobWanted {
    let rl = owns(v, Items::ROCKET_LAUNCHER) && v.ammo_rockets >= 1;
    let gl = owns(v, Items::GRENADE_LAUNCHER) && v.ammo_rockets >= 1;
    if !gl || rl || b.grenade_phase != GrenadePhase::Idle {
        LobWanted::Neither
    } else {
        match foot {
            Footing::Airborne => LobWanted::Air,
            Footing::Grounded => if combos {
                LobWanted::Neither
            } else {
                LobWanted::Ground
            },
            Footing::Swimming => LobWanted::Neither,
        }
    }
}

/// How the shot is aimed.
#[derive(Clone, Copy, PartialEq, Eq, Debug, Structural)]
pub enum AimBy {
    /// Along the solved arc.
    Arc,
    /// Where the falling target and the projectile meet.
    Intercept,
    /// Ahead of the target; low, so that a miss splashes, where it strafes on the ground.
    Lead { low: bool },
    /// Straight at it.
    Direct,
}

/// Whether the intercept of an airborne target is worth a grenade: it is still in the air when they
/// meet, they meet out of reach of one's own blast, and the arc, flown out, hits it.
pub fn air_lob_good(meet_time: i64, lands: Option<i64>, meet_dist: u32, hits: bool) -> (r: bool)
    ensures
        r == air_lob(meet_time, lands, meet_dist, hits),
        r == ((lands matches Some(t) ==> meet_time < t) && meet_dist >= GRENADE_BLAST_RADIUS && hits),
{
    let aloft: bool = match lands {
        Some(t) => meet_time < t,
        None => true,
    };
    aloft && meet_dist >= GRENADE_BLAST_RADIUS && hits
}

/// Whether a lob onto a grounded target clears the map: it comes down, and near where it was led.
pub fn ground_lob_good(miss: Option<u32>) -> (r: bool)
    ensures
        r == ground_lob(miss),
        r == (miss matches Some(d) && d < LOB_LAND_TOL),
{
    match miss {
        Some(d) => d < LOB_LAND_TOL,
        None => false,
    }
}

/// The aim of a weapon at a target with a horizontal speed.
pub open spec fn aim_for(choice: WeaponChoice, foot: Footing, speed: u32) -> AimBy {
    if choice.grenade_arc {
        AimBy::Arc
    } else if choice.projectile_speed == 0 {
        AimBy::Direct
    } else if foot == Footing::Airborne {
        AimBy::Intercept
    } else {
        AimBy::Lead {
            low: foot != Footing::Swimming && choice.weapon == Weapon::RocketLauncher && speed > STRAFE_SPEED,
        }
    }
}

/// Whether the shot must meet the hull.
pub open spec fn must_hit(choice: WeaponChoice, foot: Footing) -> bool {
    choice.projectile_speed > 0 && foot == Footing::Airborne
}

/// The opening decisions of a fight frame.
#[derive(Clone, Copy, PartialEq, Eq, Debug, Structural)]
pub struct Opening {
    pub choice: WeaponChoice,
    /// Impulse to send, zero for none.
    pub impulse: i32,
    pub aim: AimBy,
    pub direct: bool,
}

/// Distance kept in a fight.
#[derive(Clone, Copy, PartialEq, Eq, Debug, Structural)]
pub enum RangeMove {
    Back,
    Close,
    Hold,
}

/// Back off when hurt or too close, close in when far or pressing a kill, else hold. Pressing halves
/// the health at which a bot backs off.
pub open spec fn range_move(health: i32, dist: u32, press: bool) -> RangeMove {
    let retreat = if press {
        LOW_HEALTH / 2
    } else {
        LOW_HEALTH as int
    };
    if health < retreat || dist < PREFERRED_RANGE - RANGE_SLACK {
        RangeMove::Back
    } else if dist > PREFERRED_RANGE + RANGE_SLACK || press {
        RangeMove::Close
    } else {
        RangeMove::Hold
    }
}

pub fn keep_range(health: i32, dist: u32, press: bool) -> (r: RangeMove)
    ensures
        r == range_move(health, dist, press),
{
    let retreat: i32 = if press {
        LOW_HEALTH / 2
    } else {
        LOW_HEALTH
    };
    if health < retreat || dist < PREFERRED_RANGE - RANGE_SLACK {
        RangeMove::Back
    } else if dist > PREFERRED_RANGE + RANGE_SLACK || press {
        RangeMove::Close
    } else {
        RangeMove::Hold
    }
}

/// What is believed of an enemy: its stack, and the age of the belief.
#[derive(Clone, Copy, PartialEq, Eq, Debug, Structural)]
pub struct Belief {
    pub stack: i64,
    pub age: i64,
}

/// Facts for the end of a fight frame.
#[derive(Clone, Copy, PartialEq, Eq, Debug, Structural)]
pub struct Closing {
    /// The view points nowhere yet.
    pub fresh_view: bool,
    /// How far off the view is: at the target for a projectile, in thousandths of a degree for a
    /// hitscan.
    pub off: u32,
    pub skill: u32,
    /// Whether a line from the muzzle to the aim ended at the enemy, and else how far short of the
    /// aim it ended.
    pub hit: bool,
    pub short: u32,
    pub belief: Option<Belief>,
    pub dist: u32,
}

/// How far off the view may be: a distance for a projectile; for a hitscan an angle, tight for the
/// beam, and looser with less skill.
pub open spec fn allowance(o: Opening, skill: int) -> int {
    if o.choice.projectile_speed > 0 {
        tolerance(skill, o.direct)
    } else {
        let beam = if o.choice.weapon == Weapon::Lightning {
            2500int
        } else {
            5000int
        };
        if skill <= 7000 {
            beam + 7000 - skill
        } else {
            beam
        }
    }
}

fn allowed(o: &Opening, skill: u32) -> (r: u32)
    ensures
        r == allowance(*o, skill as int),
{
    if o.choice.projectile_speed > 0 {
        return fire_tolerance(skill, o.direct);
    }
    let beam: u32 = if o.choice.weapon == Weapon::Lightning {
        2500
    } else {
        5000
    };
    if skill <= 7000 {
        beam + (7000 - skill)
    } else {
        beam
    }
}

/// Whether to press a kill on what is believed.
pub open spec fn presses(health: i32, belief: Option<Belief>) -> bool {
    belief matches Some(b) && b.stack < FINISH_STACK && b.age < FINISH_FRESH && health * 1000 >= PRESS_FLOOR
}

/// Whether to fire: the crosshair is on the spot, nothing is in the way (an arc was checked when it
/// was solved, a hitscan by the sight itself), and the launcher for an arc is in hand.
pub open spec fn fires(o: Opening, held: Weapon, f: Closing) -> bool {
    &&& f.fresh_view || f.off <= allowance(o, f.skill as int)
    &&& o.choice.grenade_arc || o.choice.projectile_speed == 0 || f.hit || f.short <= LINE_OF_FIRE_SLACK
    &&& !(o.choice.grenade_arc && held != Weapon::GrenadeLauncher)
}

/// Whether the enemy can be fought.
#[derive(Clone, Copy, PartialEq, Eq, Debug, Structural)]
pub enum Sight {
    /// In sight.
    Clear,
    /// Out of sight since a moment: hold the angle where it vanished.
    Held,
    /// Out of sight: leave the view to navigation.
    Lost,
}

impl BotState {
    /// Look for the enemy along a line from eye to eye: whether it ended at the enemy, and the share
    /// of it that was clear, in thousandths.
    pub fn sight(&self, hit: bool, fraction: u32, now: i64) -> (r: Sight)
        ensures
            r == seen(*self, hit, fraction, now),
            r == if hit || fraction > CLEAR_FRACTION {
                Sight::Clear
            } else if self.enemy_seen_time > 0 && now - self.enemy_seen_time < HOLD_ANGLE_TIME {
                Sight::Held
            } else {
                Sight::Lost
            },
    {
        if hit || fraction > CLEAR_FRACTION {
            Sight::Clear
        } else if self.enemy_seen_time > 0 && since(now, self.enemy_seen_time) < HOLD_ANGLE_TIME as i128 {
            Sight::Held
        } else {
            Sight::Lost
        }
    }

    pub fn wants_lob(&self, v: &EntVars, foot: Footing, combos: bool) -> (r: LobWanted)
        ensures
            r == lob_wanted(*self, *v, foot, combos),
    {
        let rl: bool = v.items.has(Items::ROCKET_LAUNCHER) && v.ammo_rockets >= 1;
        let gl: bool = v.items.has(Items::GRENADE_LAUNCHER) && v.ammo_rockets >= 1;
        if !gl || rl || self.grenade_phase != GrenadePhase::Idle {
            return LobWanted::Neither;
        }
        match foot {
            Footing::Airborne => LobWanted::Air,
            Footing::Grounded => if combos {
                LobWanted::Neither
            } else {
                LobWanted::Ground
            },
            Footing::Swimming => LobWanted::Neither,
        }
    }

    /// How long the current target has been in plain sight.
    pub fn visible_for(&self, now: i64) -> (r: i64)
        ensures
            r == if self.vis_since > 0 {
                bounded(now - self.vis_since)
            } else {
                0
            },
    {
        if self.vis_since > 0 {
            bound(since(now, self.vis_since))
        } else {
            0
        }
    }

    /// Whether a new aim error is due; if so the next is due 0.3 to 0.6 seconds on, by a random
    /// fraction of 2^24.
    pub fn resample_aim(&mut self, fraction: u32, now: i64) -> (due: bool)
        requires
            fraction < 0x100_0000,
        ensures
            due == (now >= old(self).aim_err_until),
            *final(self) == (BotState {
                aim_err_until: if due {
                    bounded(now + 300 + fraction * 300 / 0x100_0000)
                } else {
                    old(self).aim_err_until
                },
                ..*old(self)
            }),
    {
        if now < self.aim_err_until {
            return false;
        }
        let extra: i64 = fraction as i64 * 300 / 0x100_0000;
        self.aim_err_until = after(now, 300 + extra);
        true
    }

    /// Note a frame of sight. The flag says whether the last firing solution is recent enough to
    /// estimate how fast the solution moves.
    pub fn note_sight(&mut self, now: i64) -> (recent: bool)
        ensures
            recent == (old(self).look_prev_time > 0 && 1 < now - old(self).look_prev_time < 250),
            *final(self) == (BotState { enemy_seen_time: now, look_prev_time: now, ..*old(self) }),
    {
        let dt: i128 = since(now, self.look_prev_time);
        let recent: bool = self.look_prev_time > 0 && dt > 1 && dt < 250;
        self.enemy_seen_time = now;
        self.look_prev_time = now;
        recent
    }
}

/// Open a fight frame against an enemy in sight that moves at `speed` over the ground: pick the
/// weapon, switch to it where another is held, and say how to aim.
pub fn engage_open(v: &EntVars, dist: u32, foot: Footing, gl_air: bool, gl_ground: bool, speed: u32) -> (r: Opening)
    ensures
        r.choice == weapon_for(*v, dist, gl_air, gl_ground),
        r.impulse == if v.weapon != r.choice.weapon {
            r.choice.impulse
        } else {
            0
        },
        r.aim == aim_for(r.choice, foot, speed),
        r.direct == must_hit(r.choice, foot),
{
    let choice = choose_weapon(v, dist, gl_air, gl_ground);
    let impulse: i32 = if v.weapon != choice.weapon {
        choice.impulse
    } else {
        0
    };
    let aim = if choice.grenade_arc {
        AimBy::Arc
    } else if choice.projectile_speed == 0 {
        AimBy::Direct
    } else if foot == Footing::Airborne {
        AimBy::Intercept
    } else {
        AimBy::Lead {
            low: foot != Footing::Swimming && choice.weapon == Weapon::RocketLauncher && speed > STRAFE_SPEED,
        }
    };
    Opening { choice, impulse, aim, direct: choice.projectile_speed > 0 && foot == Footing::Airborne }
}

/// Close a fight frame: the distance to keep and the buttons. There is no hopping in a duel.
pub fn engage_close(o: &Opening, health: i32, held: Weapon, buttons: i32, f: &Closing) -> (r: (RangeMove, i32))
    ensures
        r.0 == range_move(health, f.dist, presses(health, f.belief)),
        r.1 == if fires(*o, held, *f) {
            (buttons & !BUTTON_JUMP) | BUTTON_ATTACK
        } else {
            buttons & !BUTTON_JUMP
        },
{
    let mut out: i32 = buttons.without(BUTTON_JUMP);
    let on_target: bool = f.fresh_view || f.off <= allowed(o, f.skill);
    let clear: bool = o.choice.grenade_arc || o.choice.projectile_speed == 0 || f.hit || f.short
        <= LINE_OF_FIRE_SLACK;
    let switching: bool = o.choice.grenade_arc && held != Weapon::GrenadeLauncher;
    if on_target && clear && !switching {
        out = out.with(BUTTON_ATTACK);
    }
    let press: bool = match f.belief {
        Some(b) => press_advantage(health as i64 * 1000, b.stack, b.age),
        None => false,
    };
    (keep_range(health, f.dist, press), out)
}

/// A bot in a duel never fires a projectile into a wall.
pub proof fn blocked_projectiles_are_held(o: Opening, held: Weapon, f: Closing)
    requires
        o.choice.projectile_speed > 0,
        !o.choice.grenade_arc,
        !f.hit,
        f.short > LINE_OF_FIRE_SLACK,
    ensures
        !fires(o, held, f),
{
}

/// Pressing a kill only ever trades retreating and holding for closing in.
pub proof fn pressing_is_bolder(health: i32, dist: u32)
    ensures
        range_move(health, dist, false) == RangeMove::Close ==> range_move(health, dist, true) == RangeMove::Close,
        range_move(health, dist, true) != RangeMove::Hold,
{
}

// --- live grenades ---
/// What is known of one live grenade.
#[derive(Clone, Copy, PartialEq, Eq, Debug, Structural)]
pub struct GrenadeFacts {
    pub id: u32,
    /// Distance to the bot.
    pub dist: u32,
    /// Who threw it, zero for nobody, and the thrower's team.
    pub owner: u32,
    pub owner_team: u8,
    /// Flying toward the bot.
    pub approaching: bool,
    /// Distance to the enemy, and whether its blast reaches a teammate.
    pub enemy_dist: u32,
    pub on_teammate: bool,
}

/// The bot that weighs them.
#[derive(Clone, Copy, PartialEq, Eq, Debug, Structural)]
pub struct Thrower {
    pub id: u32,
    pub team: u8,
    pub health: i32,
    /// Whether it has an enemy.
    pub enemy: bool,
    /// Its own grenade that is not to be set off early, zero for none.
    pub combo: u32,
}

/// What to do about live grenades.
#[derive(Clone, Copy, PartialEq, Eq, Debug, Structural)]
pub enum Tactic {
    Nothing,
    /// A grenade threatens: shoot it if that is safe and possible, else run.
    Defend { grenade: u32, safe: bool },
    /// A grenade lies by the enemy: set it off.
    Burst { grenade: u32 },
}

/// Whether the blast at a distance costs no more than half of the health.
pub open spec fn bearable(dist: u32, health: i32) -> bool {
    blast(dist as int) <= if health >= 1 {
        health * 500
    } else {
        500
    }
}

fn can_bear(dist: u32, health: i32) -> (r: bool)
    ensures
        r == bearable(dist, health),
{
    let half: i64 = if health >= 1 {
        health as i64 * 500
    } else {
        500
    };
    blast_self_damage(dist) as i64 <= half
}

/// Whether a grenade was thrown by the bot or its side.
pub open spec fn own(g: GrenadeFacts, me: Thrower) -> bool {
    g.owner == me.id || (me.team != 0 && g.owner != 0 && g.owner_team == me.team)
}

/// Whether a grenade threatens the bot: not its own, and close or coming.
pub open spec fn threatens(g: GrenadeFacts, me: Thrower) -> bool {
    g.dist <= GRENADE_AWARE && !own(g, me) && (g.dist < GRENADE_THREAT || g.approaching)
}

/// Whether a grenade lies by the enemy, and can be set off without harm.
pub open spec fn offers(g: GrenadeFacts, me: Thrower) -> bool {
    g.dist <= GRENADE_AWARE && me.enemy && g.id != me.combo && g.enemy_dist < GRENADE_BLAST_RADIUS && bearable(
        g.dist,
        me.health,
    ) && !g.on_teammate
}

/// Whether grenade `i` is the first of the nearest of those that pass a test.
pub open spec fn nearest(live: Seq<GrenadeFacts>, test: spec_fn(GrenadeFacts) -> bool, i: int) -> bool {
    &&& 0 <= i < live.len() && test(live[i])
    &&& forall|j: int| 0 <= j < live.len() && test(#[trigger] live[j]) ==> live[i].dist <= live[j].dist
    &&& forall|j: int| 0 <= j < i && test(#[trigger] live[j]) ==> live[i].dist < live[j].dist
}

pub open spec fn none_of(live: Seq<GrenadeFacts>, test: spec_fn(GrenadeFacts) -> bool) -> bool {
    forall|j: int| 0 <= j < live.len() ==> !test(#[trigger] live[j])
}

/// The choice of a tactic: a threat comes first, then a grenade beside the enemy.
pub open spec fn tactic_for(enabled: bool, live: Seq<GrenadeFacts>, me: Thrower, t: Tactic) -> bool {
    let threat = |g: GrenadeFacts| threatens(g, me);
    let offer = |g: GrenadeFacts| offers(g, me);
    if !enabled {
        t == Tactic::Nothing
    } else {
        match t {
            Tactic::Defend { grenade, safe } => exists|i: int|
                #[trigger] nearest(live, threat, i) && live[i].id == grenade && safe == (live[i].dist
                    >= GRENADE_MIN_SHOOT && bearable(live[i].dist, me.health)),
            Tactic::Burst { grenade } => none_of(live, threat) && exists|i: int|
                #[trigger] nearest(live, offer, i) && live[i].id == grenade,
            Tactic::Nothing => none_of(live, threat) && none_of(live, offer),
        }
    }
}

/// Weigh the live grenades, where they can be shot at all.
pub fn grenade_tactics(enabled: bool, live: &Vec<GrenadeFacts>, me: &Thrower) -> (r: Tactic)
    ensures
        tactic_for(enabled, live@, *me, r),
{
    if !enabled {
        return Tactic::Nothing;
    }
    let ghost threat = |g: GrenadeFacts| threatens(g, *me);
    let ghost offer = |g: GrenadeFacts| offers(g, *me);
    let mut worst: Option<usize> = None;
    let mut best: Option<usize> = None;
    let mut i: usize = 0;
    while i < live.len()
        invariant
            i <= live@.len(),
            enabled,
            threat == (|g: GrenadeFacts| threatens(g, *me)),
            offer == (|g: GrenadeFacts| offers(g, *me)),
            match worst {
                Some(k) => nearest(live@.take(i as int), threat, k as int),
                None => none_of(live@.take(i as int), threat),
            },
            match best {
                Some(k) => nearest(live@.take(i as int), offer, k as int),
                None => none_of(live@.take(i as int), offer),
            },
        decreases live@.len() - i,
    {
        let g = live[i];
        let ghost seen = live@.take(i as int);
        let ghost more = live@.take(i + 1);
        assert(more =~= seen.push(g));
        let near: bool = g.dist <= GRENADE_AWARE;
        let ally: bool = g.owner == me.id || (me.team != 0 && g.owner != 0 && g.owner_team == me.team);
        if near && !ally && (g.dist < GRENADE_THREAT || g.approaching) {
            let closer: bool = match worst {
                Some(k) => g.dist < live[k].dist,
                None => true,
            };
            if closer {
                worst = Some(i);
            }
        }
        let on_enemy: bool = me.enemy && g.id != me.combo && g.enemy_dist < GRENADE_BLAST_RADIUS;
        if near && on_enemy && can_bear(g.dist, me.health) && !g.on_teammate {
            let closer: bool = match best {
                Some(k) => g.dist < live[k].dist,
                None => true,
            };
            if closer {
                best = Some(i);
            }
        }
        assert(more[i as int] == g);
        assert(forall|j: int| 0 <= j < i ==> more[j] == seen[j]);
        i = i + 1;
    }
    assert(live@.take(live@.len() as int) =~= live@);
    if let Some(k) = worst {
        let g = live[k];
        return Tactic::Defend { grenade: g.id, safe: g.dist >= GRENADE_MIN_SHOOT && can_bear(g.dist, me.health) };
    }
    match best {
        Some(k) => Tactic::Burst { grenade: live[k].id },
        None => Tactic::Nothing,
    }
}

/// The share of a line to a grenade, in thousandths, past which a shot reaches it.
pub const GRENADE_CLEAR: u32 = 900;

/// Whether a shot would reach a grenade: the line ended at it, or was clear nearly all the way.
pub fn can_hit_grenade(hit: bool, fraction: u32) -> (r: bool)
    ensures
        r == (hit || fraction > GRENADE_CLEAR),
{
    hit || fraction > GRENADE_CLEAR
}

/// The outcome of a threat: shoot the grenade where that is safe, the line is clear and a gun is at
/// hand; otherwise run, and hop off the ground.
#[derive(Clone, Copy, PartialEq, Eq, Debug, Structural)]
pub enum Defence {
    Shoot,
    Run { hop: bool },
}

pub fn defend(safe: bool, can_hit: bool, v: &EntVars, on_ground: bool) -> (r: Defence)
    ensures
        r == defence(safe, can_hit, *v, on_ground),
        r == if safe && can_hit && detonator(*v) is Some {
            Defence::Shoot
        } else {
            Defence::Run { hop: on_ground }
        },
{
    if safe && can_hit && hitscan_choice(v).is_some() {
        Defence::Shoot
    } else {
        Defence::Run { hop: on_ground }
    }
}

/// A frame of shooting at a grenade.
#[derive(Clone, Copy, PartialEq, Eq, Debug, Structural)]
pub enum GrenadeShot {
    /// No gun for it.
    Unable,
    /// Send this impulse to draw the gun.
    Draw(i32),
    /// The gun is up: fire where the view is on the grenade.
    Aim { fire: bool },
}

/// The least and the most angle, in thousandths of a degree, within which a grenade is shot at.
pub const SPOT_MIN: u32 = 1500;

pub const SPOT_MAX: u32 = 5000;

pub open spec fn spot(cone: u32) -> u32 {
    if cone < SPOT_MIN {
        SPOT_MIN
    } else if cone > SPOT_MAX {
        SPOT_MAX
    } else {
        cone
    }
}

/// Shoot at a grenade with a view that is `off` by an angle, where `cone` is the angle of a hit.
pub fn shoot_grenade(v: &EntVars, fresh_view: bool, off: u32, cone: u32) -> (r: GrenadeShot)
    ensures
        r == grenade_shot(*v, fresh_view, off, cone),
        r == match detonator(*v) {
            None => GrenadeShot::Unable,
            Some((impulse, weapon)) => if v.weapon != weapon {
                GrenadeShot::Draw(impulse)
            } else {
                GrenadeShot::Aim { fire: fresh_view || off <= spot(cone) }
            },
        },
{
    let tight: u32 = if cone < SPOT_MIN {
        SPOT_MIN
    } else if cone > SPOT_MAX {
        SPOT_MAX
    } else {
        cone
    };
    match hitscan_choice(v) {
        None => GrenadeShot::Unable,
        Some((impulse, weapon)) => if v.weapon != weapon {
            GrenadeShot::Draw(impulse)
        } else {
            GrenadeShot::Aim { fire: fresh_view || off <= tight }
        },
    }
}

/// A player who may stand in a blast.
#[derive(Clone, Copy, PartialEq, Eq, Debug, Structural)]
pub struct Bystander {
    pub id: u32,
    pub playing: bool,
    pub health: i32,
    pub team: u8,
    /// Distance from the blast.
    pub dist: u32,
}

pub open spec fn endangered(p: Bystander, me: u32, my_team: u8) -> bool {
    p.id != me && p.playing && p.health > 0 && p.team == my_team && p.dist < GRENADE_BLAST_RADIUS
}

/// Whether a blast would catch a living teammate; without teams there are none.
pub fn teammate_in_blast(me: u32, my_team: u8, players: &Vec<Bystander>) -> (r: bool)
    ensures
        r == (my_team != 0 && exists|i: int|
            0 <= i < players@.len() && endangered(#[trigger] players@[i], me, my_team)),
{
    if my_team == 0 {
        return false;
    }
    let mut i: usize = 0;
    while i < players.len()
        invariant
            i <= players@.len(),
            my_team != 0,
            forall|j: int| 0 <= j < i ==> !endangered(#[trigger] players@[j], me, my_team),
        decreases players@.len() - i,
    {
        let p = players[i];
        if p.id != me && p.playing && p.health > 0 && p.team == my_team && p.dist < GRENADE_BLAST_RADIUS {
            assert(endangered(players@[i as int], me, my_team));
            return true;
        }
        i = i + 1;
    }
    false
}

/// A bot never chooses to shoot a grenade whose blast would cost it more than half of its health.
pub proof fn no_grenade_is_shot_in_ones_face(live: Seq<GrenadeFacts>, me: Thrower, t: Tactic)
    requires
        tactic_for(true, live, me, t),
        t is Burst || (t is Defend && t->safe),
    ensures
        exists|i: int|
            0 <= i < live.len() && #[trigger] bearable(live[i].dist, me.health) && live[i].id == match t {
                Tactic::Defend { grenade, .. } => grenade,
                Tactic::Burst { grenade } => grenade,
                Tactic::Nothing => 0,
            },
{
    let threat = |g: GrenadeFacts| threatens(g, me);
    let offer = |g: GrenadeFacts| offers(g, me);
    match t {
        Tactic::Defend { grenade, safe } => {
            let i = choose|i: int|
                #[trigger] nearest(live, threat, i) && live[i].id == grenade && safe == (live[i].dist
                    >= GRENADE_MIN_SHOOT && bearable(live[i].dist, me.health));
            assert(bearable(live[i].dist, me.health));
        },
        Tactic::Burst { grenade } => {
            let i = choose|i: int| #[trigger] nearest(live, offer, i) && live[i].id == grenade;
            assert(bearable(live[i].dist, me.health));
        },
        Tactic::Nothing => {},
    }
}

// --- what a fight promises ---
/// The axe is drawn only by a bot that has nothing else to fire.
pub proof fn the_axe_is_the_last_resort(v: EntVars, dist: u32, gl_air: bool, gl_ground: bool)
    ensures
        weapon_for(v, dist, gl_air, gl_ground).weapon == Weapon::Axe <==> {
            &&& !gl_air && !gl_ground
            &&& v.items & Items::SHOTGUN == 0 || v.ammo_shells < 1
            &&& v.items & Items::SUPER_SHOTGUN == 0 || v.ammo_shells < 2
            &&& v.items & Items::LIGHTNING == 0 || v.ammo_cells < 1
            &&& v.items & Items::ROCKET_LAUNCHER == 0 || v.ammo_rockets < 1
        },
{
}

/// Every weapon has its range: a lob that was solved in the air comes before all; up close a shotgun,
/// the double one first; in the middle the lightning gun; beyond it rockets, a lob on the ground, the
/// double shotgun, the lightning gun, the shotgun.
pub proof fn weapons_have_their_range(v: EntVars, dist: u32, gl_air: bool, gl_ground: bool)
    ensures
        ({
            let w = weapon_for(v, dist, gl_air, gl_ground).weapon;
            let ssg = v.items & Items::SUPER_SHOTGUN != 0 && v.ammo_shells >= 2;
            let sg = v.items & Items::SHOTGUN != 0 && v.ammo_shells >= 1;
            let lg = v.items & Items::LIGHTNING != 0 && v.ammo_cells >= 1;
            let rl = v.items & Items::ROCKET_LAUNCHER != 0 && v.ammo_rockets >= 1;
            let close = dist < 140_000 && (ssg || sg);
            let middle = dist < 550_000 && lg;
            &&& gl_air ==> w == Weapon::GrenadeLauncher
            &&& !gl_air && close && ssg ==> w == Weapon::SuperShotgun
            &&& !gl_air && close && !ssg ==> w == Weapon::Shotgun
            &&& !gl_air && !close && middle ==> w == Weapon::Lightning
            &&& !gl_air && !close && !middle && rl ==> w == Weapon::RocketLauncher
            &&& !gl_air && !close && !middle && !rl && gl_ground ==> w == Weapon::GrenadeLauncher
            &&& !gl_air && !close && !middle && !rl && !gl_ground && ssg ==> w == Weapon::SuperShotgun
            &&& !gl_air && !close && !middle && !rl && !gl_ground && !ssg && lg ==> w == Weapon::Lightning
            &&& !gl_air && !close && !middle && !rl && !gl_ground && !ssg && !lg && sg ==> w == Weapon::Shotgun
        }),
{
}

/// The impulse sent is the one that draws the weapon chosen, and only rockets and grenades fly.
pub proof fn weapons_have_their_impulse(v: EntVars, dist: u32, gl_air: bool, gl_ground: bool)
    ensures
        ({
            let c = weapon_for(v, dist, gl_air, gl_ground);
            &&& match c.weapon {
                Weapon::Axe => c.impulse == 1,
                Weapon::Shotgun => c.impulse == 2,
                Weapon::SuperShotgun => c.impulse == 3,
                Weapon::GrenadeLauncher => c.impulse == 6,
                Weapon::RocketLauncher => c.impulse == 7,
                Weapon::Lightning => c.impulse == 8,
                _ => false,
            }
            &&& c.grenade_arc <==> c.weapon == Weapon::GrenadeLauncher
            &&& c.projectile_speed == if c.weapon == Weapon::RocketLauncher {
                1_000_000int
            } else if c.weapon == Weapon::GrenadeLauncher {
                632_455int
            } else {
                0int
            }
        }),
{
}

/// A standing bot's aim at a standing target tightens from sixteen tenths of its spread to seven tenths
/// within a second and a half.
pub proof fn aim_settles(visible_for: int, dist: int)
    ensures
        visible_for <= 0 ==> looseness(visible_for, 0, 0, dist) == 1_600_000,
        0 <= visible_for <= 1500 ==> looseness(visible_for, 0, 0, dist) == 1_600_000 - 600 * visible_for,
        visible_for >= 1500 ==> looseness(visible_for, 0, 0, dist) == 700_000,
{
    let reach = if dist >= 1000 {
        dist
    } else {
        1000
    };
    assert(0int * 1000000 / reach == 0) by (nonlinear_arith)
        requires
            reach >= 1000,
    ;
    let seen = if visible_for <= 0 {
        0
    } else if visible_for <= 1500 {
        visible_for
    } else {
        1500
    };
    lemma_looseness(visible_for, 0, 0, dist, seen, 0, 0);
    assert((16000 - 6 * seen) * 4000000 * 2000000 == (16000 - 6 * seen) * 8000000000000) by (nonlinear_arith);
}

/// Looseness as the product of its three parts.
proof fn lemma_looseness(visible_for: int, own_speed: int, perp_speed: int, dist: int, seen: int, own: int, cross: int)
    requires
        seen == if visible_for <= 0 {
            0
        } else if visible_for <= 1500 {
            visible_for
        } else {
            1500
        },
        own == if own_speed <= 320000 {
            own_speed
        } else {
            320000
        },
        ({
            let reach = if dist >= 1000 {
                dist
            } else {
                1000
            };
            cross == if perp_speed <= reach {
                perp_speed * 1000000 / reach
            } else {
                1000000
            }
        }),
    ensures
        looseness(visible_for, own_speed, perp_speed, dist) == ((16000 - 6 * seen) * (4000000 + 5 * own) * (2000000
            + cross)) / 80000000000,
{
}

/// Running loosens the aim by up to two fifths, and a target that crosses by up to a half.
pub proof fn motion_loosens_aim(visible_for: int, own: int, faster: int, perp: int, crossing: int, dist: int)
    requires
        0 <= own <= faster,
        0 <= perp <= crossing,
    ensures
        looseness(visible_for, own, perp, dist) <= looseness(visible_for, faster, perp, dist),
        looseness(visible_for, own, perp, dist) <= looseness(visible_for, own, crossing, dist),
        faster >= 320_000 ==> 5 * looseness(0, faster, 0, dist) == 7 * looseness(0, 0, 0, dist),
        crossing >= dist && crossing >= 1000 ==> 2 * looseness(0, 0, crossing, dist) == 3 * looseness(0, 0, 0, dist),
{
    let seen = if visible_for <= 0 {
        0
    } else if visible_for <= 1500 {
        visible_for
    } else {
        1500
    };
    let reach = if dist >= 1000 {
        dist
    } else {
        1000
    };
    let o1 = if own <= 320000 {
        own
    } else {
        320000
    };
    let o2 = if faster <= 320000 {
        faster
    } else {
        320000
    };
    let c1 = if perp <= reach {
        perp * 1000000 / reach
    } else {
        1000000
    };
    let c2 = if crossing <= reach {
        crossing * 1000000 / reach
    } else {
        1000000
    };
    assert(0 <= c1 <= 1000000) by (nonlinear_arith)
        requires
            reach >= 1000,
            0 <= perp,
            c1 == if perp <= reach { perp * 1000000 / reach } else { 1000000 },
    ;
    assert(c1 <= c2) by (nonlinear_arith)
        requires
            reach >= 1000,
            0 <= perp <= crossing,
            0 <= c1 <= 1000000,
            c1 == if perp <= reach { perp * 1000000 / reach } else { 1000000 },
            c2 == if crossing <= reach { crossing * 1000000 / reach } else { 1000000 },
    ;
    let a = 16000 - 6 * seen;
    let x1 = a * (4000000 + 5 * o1);
    let x2 = a * (4000000 + 5 * o2);
    assert(0 <= x1 <= x2) by (nonlinear_arith)
        requires
            a >= 0,
            0 <= o1 <= o2,
            x1 == a * (4000000 + 5 * o1),
            x2 == a * (4000000 + 5 * o2),
    ;
    assert(x1 * (2000000 + c1) <= x2 * (2000000 + c1)) by (nonlinear_arith)
        requires
            x1 <= x2,
            c1 >= 0,
    ;
    assert(x1 * (2000000 + c1) <= x1 * (2000000 + c2)) by (nonlinear_arith)
        requires
            x1 >= 0,
            c1 <= c2,
    ;
    assert(0int * 1000000 / reach == 0) by (nonlinear_arith)
        requires
            reach >= 1000,
    ;
    if crossing >= dist && crossing >= 1000 {
        assert(c2 == 1000000) by (nonlinear_arith)
            requires
                reach >= 1000,
                crossing >= reach,
                c2 == if crossing <= reach { crossing * 1000000 / reach } else { 1000000 },
        ;
        lemma_looseness(0, 0, crossing, dist, 0, 0, 1000000);
    }
    lemma_looseness(0, 0, 0, dist, 0, 0, 0);
    assert((16000 - 6 * 0int) * (4000000 + 5 * 0int) * (2000000 + 0int) == 128_000_000_000_000_000) by (nonlinear_arith);
    assert((16000 - 6 * 0int) * (4000000 + 5 * 320000int) * (2000000 + 0int) == 179_200_000_000_000_000)
        by (nonlinear_arith);
    assert((16000 - 6 * 0int) * (4000000 + 5 * 0int) * (2000000 + 1000000int) == 192_000_000_000_000_000)
        by (nonlinear_arith);
    if faster >= 320_000 {
        lemma_looseness(0, faster, 0, dist, 0, 320000, 0);
    }
}

/// A turn of the target is followed up to half a turn a second; a jump of the view is not a turn.
pub proof fn turns_are_followed(pitch: i64, yaw: i64)
    ensures
        ({
            let r = turning(pitch, yaw);
            let jump = pitch > 360_000 || pitch < -360_000 || yaw > 360_000 || yaw < -360_000;
            &&& jump ==> r == (0int, 0int)
            &&& !jump && -180_000 <= pitch <= 180_000 ==> r.0 == pitch
            &&& !jump && -180_000 <= yaw <= 180_000 ==> r.1 == yaw
            &&& !jump && pitch > 180_000 ==> r.0 == 180_000
            &&& !jump && pitch < -180_000 ==> r.0 == -180_000
            &&& !jump && yaw > 180_000 ==> r.1 == 180_000
            &&& !jump && yaw < -180_000 ==> r.1 == -180_000
        }),
{
}

/// A perfect bot fires within sixteen units of a direct hit, or forty of a splash; each step of skill
/// that is missing adds eighteen, or twenty-five.
pub proof fn tolerance_by_skill(skill: int)
    requires
        0 <= skill,
    ensures
        skill >= 7_000 ==> tolerance(skill, true) == 16_000 && tolerance(skill, false) == 40_000,
        skill <= 6_000 ==> tolerance(skill, true) - tolerance(skill + 1_000, true) == 18_000,
        skill <= 6_000 ==> tolerance(skill, false) - tolerance(skill + 1_000, false) == 25_000,
        skill <= 7_000 ==> tolerance(skill, true) + 18 * skill == 142_000,
        skill <= 7_000 ==> tolerance(skill, false) + 25 * skill == 215_000,
{
}

/// A grenade's blast takes a hundred and twenty points less half a point a unit, out to a hundred and
/// sixty units.
pub proof fn grenades_reach_so_far(dist: int)
    requires
        0 <= dist,
    ensures
        dist >= 160_000 ==> blast(dist) == 0,
        dist < 160_000 ==> 240_000 <= 2 * blast(dist) + dist <= 240_001,
{
}

/// A gun to set a grenade off with: the lightning gun, then the double shotgun, then the shotgun, and
/// none exactly where none of them can fire.
pub proof fn guns_for_grenades(v: EntVars)
    ensures
        ({
            let lg = v.items & Items::LIGHTNING != 0 && v.ammo_cells >= 1;
            let ssg = v.items & Items::SUPER_SHOTGUN != 0 && v.ammo_shells >= 2;
            let sg = v.items & Items::SHOTGUN != 0 && v.ammo_shells >= 1;
            &&& detonator(v) is None <==> !lg && !ssg && !sg
            &&& lg ==> detonator(v) == Some((8i32, Weapon::Lightning))
            &&& !lg && ssg ==> detonator(v) == Some((3i32, Weapon::SuperShotgun))
            &&& !lg && !ssg && sg ==> detonator(v) == Some((2i32, Weapon::Shotgun))
        }),
{
}

/// A lob is wanted only by a bot with a loaded grenade launcher, without rockets of the better kind,
/// and with no combination going: at an enemy in the air, or on the ground where combinations are off.
pub proof fn lobs_are_for_those_without_rockets(b: BotState, v: EntVars, foot: Footing, combos: bool)
    ensures
        ({
            let r = lob_wanted(b, v, foot, combos);
            let fit = v.items & Items::GRENADE_LAUNCHER != 0 && v.ammo_rockets >= 1 && v.items & Items::ROCKET_LAUNCHER == 0
                && b.grenade_phase == GrenadePhase::Idle;
            &&& r == LobWanted::Air <==> fit && foot == Footing::Airborne
            &&& r == LobWanted::Ground <==> fit && foot == Footing::Grounded && !combos
        }),
{
}

/// Hitscan weapons are aimed straight; a rocket meets a falling enemy where it falls, leads one on the
/// ground, and low where it runs; a lob follows its arc.
pub proof fn aims_fit_weapons(choice: WeaponChoice, foot: Footing, speed: u32)
    ensures
        ({
            let r = aim_for(choice, foot, speed);
            &&& r == AimBy::Arc <==> choice.grenade_arc
            &&& r == AimBy::Direct <==> !choice.grenade_arc && choice.projectile_speed == 0
            &&& r == AimBy::Intercept <==> !choice.grenade_arc && choice.projectile_speed > 0 && foot == Footing::Airborne
            &&& r == (AimBy::Lead { low: true }) <==> !choice.grenade_arc && choice.projectile_speed > 0 && foot
                == Footing::Grounded && choice.weapon == Weapon::RocketLauncher && speed > 150_000
            &&& must_hit(choice, foot) <==> choice.projectile_speed > 0 && foot == Footing::Airborne
        }),
{
}

/// A hurt bot backs off, and so does one that is too near; one that is too far closes in, and so does
/// one that presses a kill, which dares to with half the health.
pub proof fn ranges_are_kept(health: i32, dist: u32, press: bool)
    ensures
        ({
            let r = range_move(health, dist, press);
            let hurt = health < 20 || (!press && health < 40);
            &&& r == RangeMove::Back <==> hurt || dist < 300_000
            &&& r == RangeMove::Close <==> !hurt && dist >= 300_000 && (dist > 500_000 || press)
            &&& r == RangeMove::Hold <==> !hurt && 300_000 <= dist <= 500_000 && !press
        }),
{
}

/// A kill is pressed against an enemy believed weak, on fresh news, by a bot that can afford it.
pub proof fn kills_are_pressed_on_fresh_news(health: i32, belief: Option<Belief>)
    ensures
        presses(health, belief) <==> (belief matches Some(b) && b.stack < 35_000 && b.age < 4_000) && health >= 20,
{
}

/// The allowance of a hitscan weapon: two and a half degrees for the beam, five for the shotguns, and a
/// degree more for each missing step of skill; a projectile's is that of its tolerance.
pub proof fn allowances_by_weapon(o: Opening, skill: int)
    requires
        0 <= skill <= 7_000,
    ensures
        o.choice.projectile_speed > 0 ==> allowance(o, skill) == tolerance(skill, o.direct),
        o.choice.projectile_speed == 0 && o.choice.weapon == Weapon::Lightning ==> allowance(o, skill) + skill == 9_500,
        o.choice.projectile_speed == 0 && o.choice.weapon != Weapon::Lightning ==> allowance(o, skill) + skill == 12_000,
{
}

/// A shot is fired exactly when the view is on the target, nothing blocks a projectile, and a lob has
/// its launcher in hand.
pub proof fn shots_are_taken_when_they_hit(o: Opening, held: Weapon, f: Closing)
    ensures
        f.fresh_view && o.choice.projectile_speed == 0 && !o.choice.grenade_arc ==> fires(o, held, f),
        !f.fresh_view && f.off > allowance(o, f.skill as int) ==> !fires(o, held, f),
        o.choice.grenade_arc && held != Weapon::GrenadeLauncher ==> !fires(o, held, f),
        o.choice.projectile_speed > 0 && !o.choice.grenade_arc && !f.hit && f.short > 48_000 ==> !fires(o, held, f),
        (f.fresh_view || f.off <= allowance(o, f.skill as int)) && o.choice.grenade_arc && held
            == Weapon::GrenadeLauncher ==> fires(o, held, f),
        (f.fresh_view || f.off <= allowance(o, f.skill as int)) && !o.choice.grenade_arc && (o.choice.projectile_speed == 0
            || f.hit || f.short <= 48_000) ==> fires(o, held, f),
{
}

/// A grenade of the own side threatens nobody; a stranger's does within two hundred units, or as far as
/// three hundred and twenty where it comes closer.
pub proof fn strangers_grenades_threaten(g: GrenadeFacts, me: Thrower)
    ensures
        g.owner == me.id ==> !threatens(g, me),
        me.team != 0 && g.owner != 0 && g.owner_team == me.team ==> !threatens(g, me),
        g.dist > 320_000 ==> !threatens(g, me),
        g.dist >= 200_000 && !g.approaching ==> !threatens(g, me),
        g.owner != me.id && (me.team == 0 || g.owner == 0 || g.owner_team != me.team) && (g.dist < 200_000 || (g.dist
            <= 320_000 && g.approaching)) ==> threatens(g, me),
{
}

/// A grenade by the enemy is set off where its blast reaches the enemy, no teammate, and costs the bot
/// no more than half its health.
pub proof fn grenades_by_the_enemy_are_used(g: GrenadeFacts, me: Thrower)
    requires
        me.health >= 1,
    ensures
        offers(g, me) <==> {
            &&& g.dist <= 320_000
            &&& me.enemy
            &&& g.id != me.combo
            &&& g.enemy_dist < 160_000
            &&& !g.on_teammate
            &&& blast(g.dist as int) <= 500 * me.health
        },
{
}

/// A blast endangers a living teammate within its reach, and nobody else.
pub proof fn teammates_are_minded(p: Bystander, me: u32, my_team: u8)
    ensures
        p.id == me || !p.playing || p.health <= 0 || p.team != my_team || p.dist >= 160_000 ==> !endangered(p, me, my_team),
        p.id != me && p.playing && p.health > 0 && p.team == my_team && p.dist < 160_000 ==> endangered(p, me, my_team),
{
}

/// A grenade in the air is a spot between one and a half and five degrees wide.
pub proof fn spots_are_bounded(cone: u32)
    ensures
        1_500 <= spot(cone) <= 5_000,
        1_500 <= cone <= 5_000 ==> spot(cone) == cone,
        cone < 1_500 ==> spot(cone) == 1_500,
        cone > 5_000 ==> spot(cone) == 5_000,
{
}

/// A fall goes on step by step, and its time with it.
pub proof fn falls_add_up(f: Fall, micros: u32)
    requires
        f.steps < 512,
    ensures
        fallen(f, micros).steps == f.steps + 1,
        f.micros + micros <= u32::MAX ==> fallen(f, micros).micros == f.micros + micros,
{
}

/// The measures of a fight: rockets fly a thousand units a second, grenades six hundred and thirty-two;
/// an angle is held for two seconds; a kill is pressed on news four seconds old at most, against less
/// than thirty-five points and with twenty or more; a lob must come down within forty-eight units, a
/// fall is followed for so many steps, and a line counts that is clear for nine tenths.
pub proof fn fights_have_their_measures()
    ensures
        ROCKET_SPEED == 1_000_000 && GL_SPEED == 632_455,
        HOLD_ANGLE_TIME == 2_000,
        FINISH_FRESH == 4_000 && FINISH_STACK == 35_000 && PRESS_FLOOR == 20_000,
        LOB_LAND_TOL == 48_000 && FALL_STEPS == 512 && FLOOR_LEAN == 700,
        GRENADE_CLEAR == 900 && GRENADE_BLAST_RADIUS == 160_000,
        GRENADE_AWARE == 2 * GRENADE_BLAST_RADIUS && GRENADE_MIN_SHOOT == 100_000,
{
}

/// A threat comes before all: where there is one the bot defends, and says whether shooting it is safe;
/// else a grenade beside the enemy is burst; else, or where grenades are left alone, nothing is done.
pub proof fn threats_come_first(enabled: bool, live: Seq<GrenadeFacts>, me: Thrower, t: Tactic, k: int)
    requires
        tactic_for(enabled, live, me, t),
        0 <= k < live.len(),
    ensures
        !enabled ==> t == Tactic::Nothing,
        enabled && threatens(live[k], me) ==> t is Defend,
        enabled && offers(live[k], me) ==> t != Tactic::Nothing,
        t is Defend ==> exists|i: int|
            0 <= i < live.len() && threatens(#[trigger] live[i], me) && live[i].id == t->Defend_grenade && (threatens(
                live[k],
                me,
            ) ==> live[i].dist <= live[k].dist) && (t->safe ==> live[i].dist >= 100_000),
        t is Burst ==> !threatens(live[k], me) && exists|i: int|
            0 <= i < live.len() && offers(#[trigger] live[i], me) && live[i].id == t->Burst_grenade && (offers(live[k], me)
                ==> live[i].dist <= live[k].dist),
{
    let threat = |g: GrenadeFacts| threatens(g, me);
    let offer = |g: GrenadeFacts| offers(g, me);
    assert(threat(live[k]) == threatens(live[k], me));
    assert(offer(live[k]) == offers(live[k], me));
    if enabled {
        if t is Defend {
            let i = choose|i: int|
                #[trigger] nearest(live, threat, i) && live[i].id == t->Defend_grenade && t->safe == (live[i].dist
                    >= GRENADE_MIN_SHOOT && bearable(live[i].dist, me.health));
            assert(threatens(live[i], me));
        } else if t is Burst {
            let i = choose|i: int| #[trigger] nearest(live, offer, i) && live[i].id == t->Burst_grenade;
            assert(offers(live[i], me));
        }
    }
}

/// How a target stands.
pub open spec fn stood(grounded: bool, waterlevel: i32) -> Footing {
    if waterlevel >= 2 {
        Footing::Swimming
    } else if grounded {
        Footing::Grounded
    } else {
        Footing::Airborne
    }
}

/// Who is in deep water swims, whatever is below; else the ground decides.
pub proof fn deep_water_is_swum_in(grounded: bool, waterlevel: i32)
    ensures
        stood(grounded, waterlevel) == Footing::Swimming <==> waterlevel >= 2,
        stood(grounded, waterlevel) == Footing::Grounded <==> waterlevel < 2 && grounded,
        stood(grounded, waterlevel) == Footing::Airborne <==> waterlevel < 2 && !grounded,
{
}

/// What a look for the enemy gives.
pub open spec fn seen(b: BotState, hit: bool, fraction: u32, now: i64) -> Sight {
    if hit || fraction > CLEAR_FRACTION {
        Sight::Clear
    } else if b.enemy_seen_time > 0 && now - b.enemy_seen_time < HOLD_ANGLE_TIME {
        Sight::Held
    } else {
        Sight::Lost
    }
}

/// An enemy is seen along a line that ends at it or is clear for ninety-five hundredths; the angle is
/// held for two seconds after that, and then lost.
pub proof fn angles_are_held_for_two_seconds(b: BotState, hit: bool, fraction: u32, now: i64)
    ensures
        ({
            let s = seen(b, hit, fraction, now);
            let clear = hit || fraction > 950;
            let fresh = b.enemy_seen_time > 0 && now < b.enemy_seen_time + 2_000;
            &&& s == Sight::Clear <==> clear
            &&& s == Sight::Held <==> !clear && fresh
            &&& s == Sight::Lost <==> !clear && !fresh
        }),
{
}

/// What is done about a grenade that threatens.
pub open spec fn defence(safe: bool, can_hit: bool, v: EntVars, on_ground: bool) -> Defence {
    if safe && can_hit && detonator(v) is Some {
        Defence::Shoot
    } else {
        Defence::Run { hop: on_ground }
    }
}

/// A threat is shot where that is safe, in reach and there is a gun for it; else the bot runs, with a
/// hop off the ground.
pub proof fn threats_are_shot_or_fled(safe: bool, can_hit: bool, v: EntVars, on_ground: bool)
    ensures
        ({
            let d = defence(safe, can_hit, v, on_ground);
            let shot = safe && can_hit && detonator(v) is Some;
            &&& shot <==> d == Defence::Shoot
            &&& !shot && on_ground <==> d == (Defence::Run { hop: true })
            &&& !shot && !on_ground <==> d == (Defence::Run { hop: false })
        }),
{
}

/// A shot at a grenade.
pub open spec fn grenade_shot(v: EntVars, fresh_view: bool, off: u32, cone: u32) -> GrenadeShot {
    match detonator(v) {
        None => GrenadeShot::Unable,
        Some((impulse, weapon)) => if v.weapon != weapon {
            GrenadeShot::Draw(impulse)
        } else {
            GrenadeShot::Aim { fire: fresh_view || off <= spot(cone) }
        },
    }
}

/// The gun for a grenade is drawn first, then fired once the view is on it.
pub proof fn grenades_are_shot_with_the_right_gun(v: EntVars, fresh_view: bool, off: u32, cone: u32)
    ensures
        ({
            let s = grenade_shot(v, fresh_view, off, cone);
            let gun = detonator(v);
            let up = gun is Some && v.weapon == (gun->0).1;
            let on = fresh_view || off <= spot(cone);
            &&& s == GrenadeShot::Unable <==> gun is None
            &&& gun is Some && !up ==> s == GrenadeShot::Draw((gun->0).0)
            &&& up && on <==> s == (GrenadeShot::Aim { fire: true })
            &&& up && !on <==> s == (GrenadeShot::Aim { fire: false })
        }),
{
}

/// Whether the intercept of an airborne target is worth a grenade.
pub open spec fn air_lob(meet_time: i64, lands: Option<i64>, meet_dist: u32, hits: bool) -> bool {
    (lands matches Some(t) ==> meet_time < t) && meet_dist >= GRENADE_BLAST_RADIUS && hits
}

/// Whether a lob onto a grounded target is.
pub open spec fn ground_lob(miss: Option<u32>) -> bool {
    miss matches Some(d) && d < LOB_LAND_TOL
}

/// A target in the air is met before it lands and a hundred and sixty units off; one on the ground is
/// missed by less than forty-eight; a lob that never comes down is none.
pub proof fn lobs_must_meet_their_target(meet_time: i64, t: i64, meet_dist: u32, hits: bool, d: u32)
    ensures
        air_lob(meet_time, Some(t), meet_dist, hits) <==> meet_time < t && meet_dist >= 160_000 && hits,
        air_lob(meet_time, None, meet_dist, hits) <==> meet_dist >= 160_000 && hits,
        ground_lob(Some(d)) <==> d < 48_000,
        !ground_lob(None),
{
}

/// The spread of the aim error.
pub open spec fn spread(skill: int, scale: int) -> int {
    if skill <= 7000 {
        (7000 - skill) * scale / 1000000
    } else {
        0
    }
}

/// The best aim without error; the worst, at a plain looseness, by seven degrees; looseness widens it
/// in proportion.
pub proof fn skill_narrows_the_spread(skill: int, scale: int)
    requires
        0 <= skill,
        0 <= scale,
    ensures
        skill >= 7_000 ==> spread(skill, scale) == 0,
        skill <= 7_000 ==> spread(skill, 1_000_000) == 7_000 - skill,
        skill <= 7_000 ==> spread(skill, 2_000_000) == 2 * (7_000 - skill),
        spread(skill, scale) >= 0,
{
    let k = 7_000 - skill;
    assert(k >= 0 ==> k * scale >= 0) by (nonlinear_arith)
        requires
            k == 7_000 - skill,
            scale >= 0,
    ;
    if skill == 7_000 {
        assert(k * scale == 0) by (nonlinear_arith)
            requires
                k == 0,
        ;
    }
}

/// What a step of a fall comes to.
pub open spec fn fall_end(f: Fall, lean: Option<i32>, horizon: u32) -> FallStep {
    if lean is Some && lean->0 > FLOOR_LEAN {
        FallStep::Lands(f.micros)
    } else if f.micros >= horizon || f.steps >= FALL_STEPS {
        FallStep::Unknown
    } else {
        FallStep::Falling
    }
}

/// A fall ends on what leans up by more than seven tenths; a wall does not end it, the horizon does.
pub proof fn falls_end_on_floors(f: Fall, lean: Option<i32>, horizon: u32)
    ensures
        ({
            let s = fall_end(f, lean, horizon);
            let floor = lean matches Some(l) && l > 700;
            let late = f.micros >= horizon || f.steps >= 512;
            &&& floor ==> s == FallStep::Lands(f.micros)
            &&& !floor && late <==> s == FallStep::Unknown
            &&& !floor && !late <==> s == FallStep::Falling
        }),
{
}

} // verus!
