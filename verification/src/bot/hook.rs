//! Flying a grappling-hook leg: take out the grapple, settle the view on the anchor, throw, reel in
//! for speed, release into an arc that lands on the far ledge.
//!
//! Distances are thousandths of a unit, times milliseconds.
use crate::bot::state::{marked, BotState, HookPhase};
use crate::defs::Weapon;
use crate::num::{after, bounded, since};
use vstd::prelude::*;

verus! {

/// How near the cell of the throw counts as there, how far the hook may bite from where it was
/// planned to, and how near the landing counts as on it.
pub const HOOK_STANCE: u32 = 24000;

pub const HOOK_ANCHOR_DRIFT: u32 = 48000;

pub const HOOK_LANDING: u32 = 48000;

/// How long aiming, the throw and the reel may take.
pub const HOOK_AIM_TIMEOUT: i64 = 1500;

pub const HOOK_FLIGHT_TIMEOUT: i64 = 1000;

pub const HOOK_REEL_TIMEOUT: i64 = 3000;

/// Time added to the planned airtime before the landing is given up.
pub const HOOK_BALLISTIC_SLACK: i64 = 1000;

/// A landing counts only this long after the release.
pub const HOOK_RELEASE_GRACE: i64 = 100;

/// Slack below which the reel makes no progress.
pub const HOOK_REEL_SLACK: u32 = 1000;

/// How long an item that could not be reached is left alone.
pub const GOAL_AVOID_TIME: i64 = 12000;

/// Where the driver wants the eyes.
#[derive(Clone, Copy, PartialEq, Eq, Debug, Structural)]
pub enum HookLook {
    Keep,
    Anchor,
    Landing,
}

/// The driver's decisions for a frame.
#[derive(Clone, Copy, PartialEq, Eq, Debug, Structural)]
pub struct HookDrive {
    pub look: HookLook,
    /// Send no movement.
    pub stand: bool,
    /// Walk to the cell the throw is made from.
    pub approach: bool,
    /// Switch to the grapple.
    pub select: bool,
    /// Throw as soon as the view has settled.
    pub fire_ready: bool,
    /// Keep fire pressed.
    pub hold_fire: bool,
    /// Recall the hook.
    pub reset: bool,
}

/// A planned hook leg: its link, the distance at which to let go and the flight time after that.
#[derive(Clone, Copy, PartialEq, Eq, Debug, Structural)]
pub struct HookLeg {
    pub link: u32,
    pub release_dist: u32,
    pub airtime: i64,
}

/// One frame of facts.
#[derive(Clone, Copy, PartialEq, Eq, Debug, Structural)]
pub struct HookCtx {
    pub hook_active: bool,
    /// The current leg, where it is one that a hook was planned for.
    pub leg: Option<HookLeg>,
    pub enemy: bool,
    pub hook_out: bool,
    pub on_hook: bool,
    pub has_grapple: bool,
    pub now: i64,
    pub weapon: Weapon,
    /// Horizontal distance to the cell to throw from.
    pub stance_dist: u32,
    pub on_ground: bool,
    /// Distance of the hook from the planned anchor.
    pub drift: u32,
    /// Distance to the hook, and half of what one frame reels in.
    pub dist: u32,
    pub reel_half_step: u32,
    /// Horizontal distance to the landing.
    pub landing_dist: u32,
    pub chasing: bool,
}

impl HookCtx {
    pub open spec fn in_stance(self) -> bool {
        self.stance_dist <= HOOK_STANCE
    }

    /// Whether the hook bit somewhere else than planned.
    pub open spec fn drifted(self) -> bool {
        self.drift > HOOK_ANCHOR_DRIFT
    }
}

pub open spec fn no_drive() -> HookDrive {
    HookDrive {
        look: HookLook::Keep,
        stand: false,
        approach: false,
        select: false,
        fire_ready: false,
        hold_fire: false,
        reset: false,
    }
}

/// A frame of aiming.
pub open spec fn aiming(b: BotState, c: HookCtx) -> (BotState, HookDrive, bool) {
    (
        b,
        HookDrive {
            look: HookLook::Anchor,
            select: c.weapon != Weapon::Grapple,
            stand: c.in_stance(),
            approach: !c.in_stance(),
            fire_ready: c.in_stance() && c.weapon == Weapon::Grapple && c.on_ground && !c.hook_out,
            ..no_drive()
        },
        c.now - b.hook_started > HOOK_AIM_TIMEOUT,
    )
}

/// A frame of the hook's flight.
pub open spec fn thrown(b: BotState, c: HookCtx) -> (BotState, HookDrive, bool) {
    let drive = HookDrive { look: HookLook::Anchor, stand: true, hold_fire: true, ..no_drive() };
    if c.on_hook {
        if c.drifted() {
            (b, drive, true)
        } else {
            (
                BotState { hook_phase: HookPhase::Reel, hook_started: c.now, hook_prev_dist: c.dist, ..b },
                drive,
                false,
            )
        }
    } else {
        (b, drive, !c.hook_out || c.now - b.hook_started > HOOK_FLIGHT_TIMEOUT)
    }
}

/// A frame of reeling in.
pub open spec fn reeling(b: BotState, c: HookCtx) -> (BotState, HookDrive, bool) {
    let drive = HookDrive { look: HookLook::Landing, stand: true, hold_fire: true, ..no_drive() };
    if !c.on_hook || !c.hook_out || c.drifted() {
        (b, drive, true)
    } else if c.dist - c.reel_half_step <= b.hook_release_dist {
        (
            BotState { hook_phase: HookPhase::Ballistic, hook_started: c.now, ..b },
            HookDrive { hold_fire: false, ..drive },
            false,
        )
    } else if c.dist > b.hook_prev_dist - HOOK_REEL_SLACK && c.now - b.hook_started > HOOK_REEL_TIMEOUT {
        (b, drive, true)
    } else {
        (
            BotState {
                hook_prev_dist: if c.dist <= b.hook_prev_dist {
                    c.dist
                } else {
                    b.hook_prev_dist
                },
                ..b
            },
            drive,
            false,
        )
    }
}

/// A frame of the flight after the release.
pub open spec fn falling(b: BotState, c: HookCtx, airtime: i64) -> (BotState, HookDrive, bool) {
    let drive = HookDrive { look: HookLook::Landing, stand: true, ..no_drive() };
    let aloft = c.now - b.hook_started;
    if c.on_ground && aloft > HOOK_RELEASE_GRACE {
        (
            BotState {
                hook_fails: if c.landing_dist <= HOOK_LANDING {
                    0
                } else {
                    b.hook_fails
                },
                route_pos: (b.route_pos + 1) as usize,
                hook_phase: HookPhase::Idle,
                repath_time: c.now,
                ..b
            },
            drive,
            false,
        )
    } else if aloft > airtime + HOOK_BALLISTIC_SLACK {
        (BotState { hook_phase: HookPhase::Idle, repath_time: c.now, ..b }, drive, false)
    } else {
        (b, drive, false)
    }
}

/// The state after the leg is taken on, where the bot stands idle before it.
pub open spec fn taken_on(b: BotState, c: HookCtx, leg: HookLeg) -> BotState {
    if b.hook_phase == HookPhase::Idle && c.has_grapple {
        BotState {
            hook_phase: HookPhase::Aim,
            hook_link: leg.link,
            hook_started: c.now,
            hook_release_dist: leg.release_dist,
            ..b
        }
    } else {
        b
    }
}

/// A frame of the driver before any failure is dealt with: the state, the decisions, and whether
/// the attempt failed.
pub open spec fn flown(b: BotState, c: HookCtx) -> (BotState, HookDrive, bool) {
    let aborted = (
        BotState { hook_phase: HookPhase::Idle, ..b },
        HookDrive { reset: c.hook_out, ..no_drive() },
        false,
    );
    if !c.hook_active {
        (b, no_drive(), false)
    } else {
        match c.leg {
            None => aborted,
            Some(leg) => {
                if c.enemy && (b.hook_phase == HookPhase::Idle || b.hook_phase == HookPhase::Aim) {
                    aborted
                } else {
                    let b = taken_on(b, c, leg);
                    match b.hook_phase {
                        HookPhase::Idle => (b, no_drive(), true),
                        HookPhase::Aim => aiming(b, c),
                        HookPhase::Flight => thrown(b, c),
                        HookPhase::Reel => reeling(b, c),
                        HookPhase::Ballistic => falling(b, c, leg.airtime),
                    }
                }
            },
        }
    }
}

pub open spec fn failures(fails: u8) -> int {
    if fails == 255 {
        255
    } else {
        fails + 1
    }
}

/// The state after a failed attempt: idle and due for a new plan; a second failure in a row also
/// drops the route and, where an item was being fetched, the item.
pub open spec fn given_up(b: BotState, c: HookCtx, after: BotState) -> bool {
    let again = failures(b.hook_fails) >= 2;
    let drop = again && c.chasing;
    &&& after == (BotState {
        hook_phase: HookPhase::Idle,
        hook_fails: if again {
            0
        } else {
            failures(b.hook_fails) as u8
        },
        repath_time: c.now,
        goal_item: if drop {
            0
        } else {
            b.goal_item
        },
        goal_select_time: if drop {
            c.now
        } else {
            b.goal_select_time
        },
        route: after.route,
        avoid_items: after.avoid_items,
        ..b
    })
    &&& after.route@ == if again {
        Seq::empty()
    } else {
        b.route@
    }
    &&& if drop {
        marked(b.avoid_items@, b.goal_item, bounded(c.now + GOAL_AVOID_TIME), after.avoid_items@)
    } else {
        after.avoid_items == b.avoid_items
    }
}

/// The decisions of a frame: a failed attempt recalls whatever is out.
pub open spec fn decided(b: BotState, c: HookCtx) -> HookDrive {
    let (mid, drive, failed) = flown(b, c);
    if failed {
        HookDrive { reset: c.hook_out, ..drive }
    } else {
        drive
    }
}

/// Drive the hook for one frame.
pub fn drive_hook(bot: &mut BotState, c: HookCtx) -> (r: HookDrive)
    requires
        c.leg is Some ==> old(bot).route_pos < usize::MAX,
    ensures
        ({
            let (mid, drive, failed) = flown(*old(bot), c);
            if failed {
                given_up(mid, c, *final(bot))
            } else {
                *final(bot) == mid
            }
        }),
        r == decided(*old(bot), c),
{
    let (mut drive, failed) = fly(bot, c);
    if failed {
        drive.reset = c.hook_out;
        give_up(bot, c);
    }
    drive
}

fn idle_drive() -> (r: HookDrive)
    ensures
        r == no_drive(),
{
    HookDrive {
        look: HookLook::Keep,
        stand: false,
        approach: false,
        select: false,
        fire_ready: false,
        hold_fire: false,
        reset: false,
    }
}

fn fly(bot: &mut BotState, c: HookCtx) -> (r: (HookDrive, bool))
    requires
        c.leg is Some ==> old(bot).route_pos < usize::MAX,
    ensures
        (*final(bot), r.0, r.1) == flown(*old(bot), c),
{
    let mut drive = idle_drive();
    if !c.hook_active {
        return (drive, false);
    }
    let leg = match c.leg {
        Some(leg) => leg,
        None => {
            drive.reset = c.hook_out;
            bot.hook_phase = HookPhase::Idle;
            return (drive, false);
        },
    };
    if c.enemy && (bot.hook_phase == HookPhase::Idle || bot.hook_phase == HookPhase::Aim) {
        drive.reset = c.hook_out;
        bot.hook_phase = HookPhase::Idle;
        return (drive, false);
    }
    if bot.hook_phase == HookPhase::Idle && c.has_grapple {
        bot.hook_phase = HookPhase::Aim;
        bot.hook_link = leg.link;
        bot.hook_started = c.now;
        bot.hook_release_dist = leg.release_dist;
    }
    match bot.hook_phase {
        HookPhase::Idle => (drive, true),
        HookPhase::Aim => aim(bot, c),
        HookPhase::Flight => flight(bot, c),
        HookPhase::Reel => reel(bot, c),
        HookPhase::Ballistic => ballistic(bot, c, leg.airtime),
    }
}

fn aim(bot: &BotState, c: HookCtx) -> (r: (HookDrive, bool))
    ensures
        (*bot, r.0, r.1) == aiming(*bot, c),
{
    let mut drive = idle_drive();
    drive.look = HookLook::Anchor;
    drive.select = c.weapon != Weapon::Grapple;
    if c.stance_dist <= HOOK_STANCE {
        drive.stand = true;
        drive.fire_ready = c.weapon == Weapon::Grapple && c.on_ground && !c.hook_out;
    } else {
        drive.approach = true;
    }
    (drive, since(c.now, bot.hook_started) > HOOK_AIM_TIMEOUT as i128)
}

fn flight(bot: &mut BotState, c: HookCtx) -> (r: (HookDrive, bool))
    ensures
        (*final(bot), r.0, r.1) == thrown(*old(bot), c),
{
    let mut drive = idle_drive();
    drive.look = HookLook::Anchor;
    drive.stand = true;
    drive.hold_fire = true;
    if !c.on_hook {
        return (drive, !c.hook_out || since(c.now, bot.hook_started) > HOOK_FLIGHT_TIMEOUT as i128);
    }
    if c.drift > HOOK_ANCHOR_DRIFT {
        return (drive, true);
    }
    bot.hook_phase = HookPhase::Reel;
    bot.hook_started = c.now;
    bot.hook_prev_dist = c.dist;
    (drive, false)
}

fn reel(bot: &mut BotState, c: HookCtx) -> (r: (HookDrive, bool))
    ensures
        (*final(bot), r.0, r.1) == reeling(*old(bot), c),
{
    let mut drive = idle_drive();
    drive.look = HookLook::Landing;
    drive.stand = true;
    drive.hold_fire = true;
    if !c.on_hook || !c.hook_out || c.drift > HOOK_ANCHOR_DRIFT {
        return (drive, true);
    }
    if c.dist as i64 - c.reel_half_step as i64 <= bot.hook_release_dist as i64 {
        drive.hold_fire = false;
        bot.hook_phase = HookPhase::Ballistic;
        bot.hook_started = c.now;
        return (drive, false);
    }
    let stalled: bool = c.dist as i64 > bot.hook_prev_dist as i64 - HOOK_REEL_SLACK as i64;
    if stalled && since(c.now, bot.hook_started) > HOOK_REEL_TIMEOUT as i128 {
        return (drive, true);
    }
    if c.dist <= bot.hook_prev_dist {
        bot.hook_prev_dist = c.dist;
    }
    (drive, false)
}

fn ballistic(bot: &mut BotState, c: HookCtx, airtime: i64) -> (r: (HookDrive, bool))
    requires
        old(bot).route_pos < usize::MAX,
    ensures
        (*final(bot), r.0, r.1) == falling(*old(bot), c, airtime),
{
    let mut drive = idle_drive();
    drive.look = HookLook::Landing;
    drive.stand = true;
    let aloft: i128 = since(c.now, bot.hook_started);
    if c.on_ground && aloft > HOOK_RELEASE_GRACE as i128 {
        if c.landing_dist <= HOOK_LANDING {
            bot.hook_fails = 0;
        }
        bot.route_pos = bot.route_pos + 1;
        bot.hook_phase = HookPhase::Idle;
        bot.repath_time = c.now;
    } else if aloft > airtime as i128 + HOOK_BALLISTIC_SLACK as i128 {
        bot.hook_phase = HookPhase::Idle;
        bot.repath_time = c.now;
    }
    (drive, false)
}

fn give_up(bot: &mut BotState, c: HookCtx)
    ensures
        given_up(*old(bot), c, *final(bot)),
{
    let fails: u8 = if bot.hook_fails == 255 {
        255
    } else {
        bot.hook_fails + 1
    };
    bot.hook_phase = HookPhase::Idle;
    bot.hook_fails = fails;
    bot.repath_time = c.now;
    if fails >= 2 {
        bot.hook_fails = 0;
        bot.route.clear();
        if c.chasing {
            let item: u32 = bot.goal_item;
            bot.mark_avoid(item, after(c.now, GOAL_AVOID_TIME));
            bot.goal_item = 0;
            bot.goal_select_time = c.now;
        }
    }
}

/// A hook given up while it is out is always recalled.
pub proof fn an_abandoned_hook_is_recalled(b: BotState, c: HookCtx)
    requires
        c.hook_active,
        c.hook_out,
        b.hook_phase == HookPhase::Aim || b.hook_phase == HookPhase::Flight || b.hook_phase == HookPhase::Reel,
    ensures
        ({
            let (mid, drive, failed) = flown(b, c);
            (failed || mid.hook_phase == HookPhase::Idle) ==> decided(b, c).reset
        }),
{
}

/// Fire stays pressed from the throw to the release: a flying or reeling frame lets go of it only
/// by moving on to the arc.
pub proof fn fire_is_held_until_the_release(b: BotState, c: HookCtx)
    requires
        c.hook_active,
        c.leg is Some,
        b.hook_phase == HookPhase::Flight || b.hook_phase == HookPhase::Reel,
    ensures
        ({
            let (mid, drive, failed) = flown(b, c);
            !drive.hold_fire <==> mid.hook_phase == HookPhase::Ballistic
        }),
{
}

/// A throw is only offered with the grapple in hand, standing, and no hook out.
pub proof fn a_throw_needs_its_stance(b: BotState, c: HookCtx)
    requires
        flown(b, c).1.fire_ready,
    ensures
        c.weapon == Weapon::Grapple && c.on_ground && !c.hook_out && c.in_stance() && c.hook_active,
{
}

// --- what a throw promises ---
/// The throw: from a stance within twenty-four units, with the grapple in hand, on the ground and with
/// no hook out; it is given up after a second and a half.
pub proof fn throws_are_made_from_a_stance(b: BotState, c: HookCtx)
    ensures
        ({
            let (after, d, failed) = aiming(b, c);
            let near = c.stance_dist <= 24_000;
            &&& after == b
            &&& d.look == HookLook::Anchor
            &&& d.stand <==> near
            &&& d.approach <==> !near
            &&& d.select <==> c.weapon != Weapon::Grapple
            &&& d.fire_ready <==> near && c.weapon == Weapon::Grapple && c.on_ground && !c.hook_out
            &&& !d.hold_fire && !d.reset
            &&& failed <==> c.now - b.hook_started > 1_500
        }),
{
}

/// A hook that catches within forty-eight units of its anchor starts the reel; one that catches
/// elsewhere, is gone, or flies for a second has failed.
pub proof fn hooks_must_catch(b: BotState, c: HookCtx)
    ensures
        ({
            let (after, d, failed) = thrown(b, c);
            let caught = c.on_hook && c.drift <= 48_000;
            &&& failed <==> (c.on_hook && c.drift > 48_000) || (!c.on_hook && (!c.hook_out || c.now - b.hook_started > 1_000))
            &&& caught ==> after.hook_phase == HookPhase::Reel && after.hook_started == c.now && after.hook_prev_dist == c.dist
            &&& !caught ==> after == b
            &&& d.hold_fire && d.stand && d.look == HookLook::Anchor
        }),
{
}

/// The reel is let go of at the planned distance; it fails where the hook slips, is gone, or brings the
/// bot no nearer for three seconds.
pub proof fn reels_are_let_go_of_in_time(b: BotState, c: HookCtx)
    requires
        b.hook_phase == HookPhase::Reel,
    ensures
        ({
            let (after, d, failed) = reeling(b, c);
            let holds = c.on_hook && c.hook_out && c.drift <= 48_000;
            let there = c.dist <= b.hook_release_dist + c.reel_half_step;
            let stalls = c.dist + 1_000 > b.hook_prev_dist && c.now - b.hook_started > 3_000;
            &&& failed <==> !holds || (!there && stalls)
            &&& after.hook_phase == HookPhase::Ballistic <==> holds && there
            &&& holds && there ==> after.hook_started == c.now && !d.hold_fire
            &&& !(holds && there) ==> d.hold_fire && after.hook_phase == HookPhase::Reel
            &&& holds && !there && !stalls && c.dist <= b.hook_prev_dist ==> after.hook_prev_dist == c.dist
            &&& holds && !there && !stalls && c.dist > b.hook_prev_dist ==> after.hook_prev_dist == b.hook_prev_dist
            &&& d.look == HookLook::Landing && d.stand
        }),
{
}

/// The flight ends on the ground, a tenth of a second after the release at the earliest, and the leg is
/// done with; a landing within forty-eight units of the plan clears the failures. A flight that lasts a
/// second longer than planned is planned anew.
pub proof fn swings_end_on_the_ground(b: BotState, c: HookCtx, airtime: i64)
    requires
        b.hook_phase == HookPhase::Ballistic,
        b.route_pos < usize::MAX,
    ensures
        ({
            let (after, d, failed) = falling(b, c, airtime);
            let age = c.now - b.hook_started;
            let landed = c.on_ground && age > 100;
            let lost = !landed && age > airtime + 1_000;
            &&& !failed && d.look == HookLook::Landing && d.stand && !d.hold_fire
            &&& landed || lost <==> after.hook_phase == HookPhase::Idle
            &&& landed ==> after.route_pos == b.route_pos + 1 && after.repath_time == c.now
            &&& landed && c.landing_dist <= 48_000 ==> after.hook_fails == 0
            &&& landed && c.landing_dist > 48_000 ==> after.hook_fails == b.hook_fails
            &&& lost ==> after.route_pos == b.route_pos && after.repath_time == c.now
            &&& !landed && !lost ==> after == b
        }),
{
}

/// A hook leg is taken on by a bot that waits for one and has the grapple, with what was planned for it.
pub proof fn hook_legs_are_taken_on(b: BotState, c: HookCtx, leg: HookLeg)
    ensures
        ({
            let after = taken_on(b, c, leg);
            let on = b.hook_phase == HookPhase::Idle && c.has_grapple;
            &&& on ==> after == (BotState {
                hook_phase: HookPhase::Aim,
                hook_link: leg.link,
                hook_started: c.now,
                hook_release_dist: leg.release_dist,
                ..b
            })
            &&& !on ==> after == b
        }),
{
}

/// Without a hook leg, or with an enemy before the throw, the hook is dropped and recalled; a bot
/// without the grapple fails the leg.
pub proof fn hooks_give_way_to_enemies(b: BotState, c: HookCtx)
    ensures
        ({
            let (after, d, failed) = flown(b, c);
            let early = b.hook_phase == HookPhase::Idle || b.hook_phase == HookPhase::Aim;
            &&& !c.hook_active ==> after == b && d == no_drive() && !failed
            &&& c.hook_active && (c.leg is None || (c.enemy && early)) ==> after.hook_phase == HookPhase::Idle && (d.reset
                <==> c.hook_out) && !failed && !d.fire_ready && !d.hold_fire
            &&& c.hook_active && c.leg is Some && !(c.enemy && early) && b.hook_phase == HookPhase::Idle && !c.has_grapple
                ==> failed
            &&& c.hook_active && c.leg is Some && !c.enemy && b.hook_phase == HookPhase::Idle && c.has_grapple
                ==> after.hook_phase == HookPhase::Aim
            &&& c.hook_active && c.leg is Some && !c.enemy && b.hook_phase == HookPhase::Aim ==> (after, d, failed)
                == aiming(b, c)
            &&& c.hook_active && c.leg is Some && b.hook_phase == HookPhase::Flight ==> (after, d, failed) == thrown(b, c)
            &&& c.hook_active && c.leg is Some && b.hook_phase == HookPhase::Reel ==> (after, d, failed) == reeling(b, c)
            &&& c.hook_active && c.leg is Some && b.hook_phase == HookPhase::Ballistic ==> (after, d, failed) == falling(
                b,
                c,
                (c.leg->0).airtime,
            )
        }),
{
}

/// A first failure is planned around; a second one in a row drops the route, and with it an item that
/// is chased, which is avoided for twelve seconds.
pub proof fn hooks_fail_twice(b: BotState, c: HookCtx, after: BotState)
    requires
        given_up(b, c, after),
    ensures
        after.hook_phase == HookPhase::Idle && after.repath_time == c.now,
        b.hook_fails == 0 ==> after.hook_fails == 1 && after.route@ == b.route@ && after.goal_item == b.goal_item
            && after.avoid_items == b.avoid_items,
        b.hook_fails >= 1 ==> after.hook_fails == 0 && after.route@.len() == 0,
        b.hook_fails >= 1 && !c.chasing ==> after.goal_item == b.goal_item && after.avoid_items == b.avoid_items,
        b.hook_fails >= 1 && c.chasing ==> after.goal_item == 0 && after.goal_select_time == c.now,
        b.hook_fails >= 1 && c.chasing && 0 <= c.now <= i64::MAX - 12_000 ==> marked(
            b.avoid_items@,
            b.goal_item,
            (c.now + 12_000) as i64,
            after.avoid_items@,
        ),
{
}

/// A hook that does nothing asks for nothing, and each phase asks only for what is its own.
pub proof fn hooks_ask_for_what_they_need(b: BotState, c: HookCtx, airtime: i64)
    ensures
        no_drive().look == HookLook::Keep && !no_drive().stand && !no_drive().approach && !no_drive().select,
        !no_drive().fire_ready && !no_drive().hold_fire && !no_drive().reset,
        !thrown(b, c).1.select && !thrown(b, c).1.approach && !thrown(b, c).1.fire_ready && !thrown(b, c).1.reset,
        !reeling(b, c).1.select && !reeling(b, c).1.approach && !reeling(b, c).1.fire_ready && !reeling(b, c).1.reset,
        !falling(b, c, airtime).1.select && !falling(b, c, airtime).1.approach && !falling(b, c, airtime).1.fire_ready
            && !falling(b, c, airtime).1.reset,
{
}

/// A hook that failed is recalled where it is out.
pub proof fn failed_hooks_are_recalled(b: BotState, c: HookCtx)
    ensures
        flown(b, c).2 ==> (decided(b, c).reset <==> c.hook_out),
        !flown(b, c).2 ==> decided(b, c) == flown(b, c).1,
        decided(b, c).look == flown(b, c).1.look && decided(b, c).stand == flown(b, c).1.stand && decided(b, c).hold_fire
            == flown(b, c).1.hold_fire,
{
}

} // verus!
