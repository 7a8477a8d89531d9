//! The bunny-hop cycle: circle on the ground for speed, hop, and on every landing decide whether
//! another hop fits. The strafe angles are worked out from the state kept here; this module decides
//! when to engage, which strafe a frame asks for and when the jump button is pressed.
//!
//! Speeds and distances are thousandths, times milliseconds.
use crate::num::since;
use vstd::prelude::*;

verus! {

/// How long the entry conditions must hold before a run starts.
pub const ENGAGE_DELAY: i64 = 150;

/// Speed at which the circle-strafe launches into the first hop, and how long to wait for it.
pub const PRESTRAFE_TARGET: u32 = 450000;

pub const PRESTRAFE_MAX_T: i64 = 1200;

/// Corridor worth circling in before the first hop.
pub const PRESTRAFE_MIN_RUNWAY: u32 = 512000;

/// Corridor needed to start a run.
pub const RUNWAY_ENGAGE: u32 = 256000;

/// Corridor to spare beyond a hop, and the time a hop takes on the flat.
pub const HOP_MARGIN: u64 = 64000;

pub const T_HOP: u64 = 675;

/// Where the controller is in the hop cycle.
#[derive(Clone, Copy, PartialEq, Eq, Debug, Structural)]
pub enum Phase {
    /// Not engaged.
    Off,
    /// On the ground, building launch speed.
    Prestrafe,
    /// Strafing through the air, jumping on each landing.
    Hop,
}

/// Why the last run ended.
#[derive(Clone, Copy, PartialEq, Eq, Debug, Structural)]
pub enum OffReason {
    Never,
    Veto,
    Runway,
    Leg,
}

/// One frame of facts and verdicts.
#[derive(Clone, Copy, PartialEq, Eq, Debug, Structural)]
pub struct Input {
    /// Horizontal speed.
    pub speed: u32,
    pub on_ground: bool,
    /// Straight corridor left.
    pub runway: u32,
    /// The entry conditions hold.
    pub eligible: bool,
    /// Another hop would be welcome.
    pub sustain: bool,
    /// Something else wants the view.
    pub veto: bool,
    /// On a link whose runway is known to suffice.
    pub committed: bool,
    /// Too slow at the takeoff edge: do not leap yet.
    pub hold_jump: bool,
    pub now: i64,
}

/// What the controller asks for this frame.
#[derive(Clone, Copy, PartialEq, Eq, Debug, Structural)]
pub enum HopMove {
    /// A ground circle-strafe.
    Ground,
    /// An air strafe, with the jump button released.
    Air,
    /// An air strafe with the jump button pressed.
    Jump,
}

/// The controller's state.
#[derive(Clone, Copy, PartialEq, Eq, Debug, Structural)]
pub struct Bhop {
    pub phase: Phase,
    /// The strafe side: one, minus one, or zero when not yet chosen.
    pub sigma: i8,
    /// Since when the entry conditions hold; zero for not at all.
    pub eligible_since: i64,
    pub phase_start: i64,
    /// Whether the last frame pressed jump.
    pub jump_prev: bool,
    /// Hops, side changes and top speed of this run.
    pub hops: u32,
    pub flips: u32,
    pub peak: u32,
    pub off_reason: OffReason,
}

pub open spec fn blank_bhop() -> Bhop {
    Bhop {
        phase: Phase::Off,
        sigma: 0,
        eligible_since: 0,
        phase_start: 0,
        jump_prev: false,
        hops: 0,
        flips: 0,
        peak: 0,
        off_reason: OffReason::Never,
    }
}

/// One more, where there is room for it.
pub open spec fn counted(n: u32) -> u32 {
    if n == u32::MAX {
        n
    } else {
        (n + 1) as u32
    }
}

pub open spec fn off(b: Bhop, reason: OffReason) -> Bhop {
    Bhop { phase: Phase::Off, sigma: 0, jump_prev: false, eligible_since: 0, off_reason: reason, ..b }
}

/// The start of a run: circle first where there is ground, room and speed to gain.
pub open spec fn started(b: Bhop, i: Input) -> Bhop {
    Bhop {
        phase: if i.on_ground && i.speed < PRESTRAFE_TARGET && i.runway > PRESTRAFE_MIN_RUNWAY {
            Phase::Prestrafe
        } else {
            Phase::Hop
        },
        phase_start: i.now,
        sigma: 0,
        jump_prev: false,
        hops: 0,
        flips: 0,
        peak: 0,
        ..b
    }
}

/// The clock of the entry conditions.
pub open spec fn waited(b: Bhop, i: Input) -> Bhop {
    if i.committed {
        b
    } else if !i.eligible {
        Bhop { eligible_since: 0, ..b }
    } else if b.eligible_since == 0 {
        Bhop { eligible_since: i.now, ..b }
    } else {
        b
    }
}

/// Whether an idle controller starts a run.
pub open spec fn engages(b: Bhop, i: Input) -> bool {
    i.committed || (i.eligible && i.now - waited(b, i).eligible_since >= ENGAGE_DELAY)
}

/// Whether the circle-strafe gives way to the first hop.
pub open spec fn launches(b: Bhop, i: Input) -> bool {
    !i.on_ground || i.speed >= PRESTRAFE_TARGET || i.now - b.phase_start > PRESTRAFE_MAX_T || i.runway * 1000
        < i.speed * T_HOP * 2 + HOP_MARGIN * 1000
}

/// Whether a landing is followed by another hop.
pub open spec fn goes_on(i: Input) -> bool {
    i.committed || (i.sustain && i.runway * 1000 >= i.speed * T_HOP + HOP_MARGIN * 1000)
}

/// A frame of the hop loop.
pub open spec fn hopped(b: Bhop, i: Input) -> (Bhop, Option<HopMove>) {
    if !i.on_ground {
        (Bhop { jump_prev: false, ..b }, Some(HopMove::Air))
    } else if !goes_on(i) {
        (
            off(
                b,
                if i.sustain {
                    OffReason::Runway
                } else {
                    OffReason::Leg
                },
            ),
            None,
        )
    } else if i.hold_jump || b.jump_prev {
        (Bhop { jump_prev: false, ..b }, Some(HopMove::Ground))
    } else {
        (Bhop { jump_prev: true, hops: counted(b.hops), ..b }, Some(HopMove::Jump))
    }
}

/// A frame of an engaged controller.
pub open spec fn driven(b: Bhop, i: Input) -> (Bhop, Option<HopMove>) {
    let b = Bhop {
        peak: if b.peak >= i.speed {
            b.peak
        } else {
            i.speed
        },
        ..b
    };
    if b.phase == Phase::Prestrafe {
        if launches(b, i) {
            hopped(Bhop { phase: Phase::Hop, phase_start: i.now, ..b }, i)
        } else {
            (Bhop { jump_prev: false, ..b }, Some(HopMove::Ground))
        }
    } else {
        hopped(b, i)
    }
}

/// One frame: the state it leaves and the move it asks for, if the controller steers at all.
pub open spec fn stepped(b: Bhop, i: Input) -> (Bhop, Option<HopMove>) {
    if i.veto {
        (
            Bhop {
                eligible_since: 0,
                ..if b.phase == Phase::Off {
                    b
                } else {
                    off(b, OffReason::Veto)
                }
            },
            None,
        )
    } else if b.phase == Phase::Off {
        if engages(b, i) {
            driven(started(waited(b, i), i), i)
        } else {
            (waited(b, i), None)
        }
    } else {
        driven(b, i)
    }
}

impl Bhop {
    pub fn blank() -> (b: Bhop)
        ensures
            b == blank_bhop(),
    {
        Bhop {
            phase: Phase::Off,
            sigma: 0,
            eligible_since: 0,
            phase_start: 0,
            jump_prev: false,
            hops: 0,
            flips: 0,
            peak: 0,
            off_reason: OffReason::Never,
        }
    }

    /// Drive one frame.
    pub fn step(&mut self, i: &Input) -> (r: Option<HopMove>)
        ensures
            (*final(self), r) == stepped(*old(self), *i),
    {
        if i.veto {
            if self.phase != Phase::Off {
                self.disengage(OffReason::Veto);
            }
            self.eligible_since = 0;
            return None;
        }
        if self.phase == Phase::Off {
            let engage: bool = if i.committed {
                true
            } else if i.eligible {
                if self.eligible_since == 0 {
                    self.eligible_since = i.now;
                }
                since(i.now, self.eligible_since) >= ENGAGE_DELAY as i128
            } else {
                self.eligible_since = 0;
                false
            };
            if !engage {
                return None;
            }
            self.engage(i);
        }
        if self.peak < i.speed {
            self.peak = i.speed;
        }
        if self.phase == Phase::Prestrafe {
            let two_hops: u64 = i.speed as u64 * T_HOP * 2 + HOP_MARGIN * 1000;
            let launch: bool = !i.on_ground || i.speed >= PRESTRAFE_TARGET || since(i.now, self.phase_start)
                > PRESTRAFE_MAX_T as i128 || i.runway as u64 * 1000 < two_hops;
            if !launch {
                self.jump_prev = false;
                return Some(HopMove::Ground);
            }
            self.phase = Phase::Hop;
            self.phase_start = i.now;
        }
        self.hop_cmd(i)
    }

    /// The hop loop: strafe while airborne, decide on the landing frame.
    pub fn hop_cmd(&mut self, i: &Input) -> (r: Option<HopMove>)
        ensures
            (*final(self), r) == hopped(*old(self), *i),
    {
        if !i.on_ground {
            self.jump_prev = false;
            return Some(HopMove::Air);
        }
        let room: bool = i.runway as u64 * 1000 >= i.speed as u64 * T_HOP + HOP_MARGIN * 1000;
        if !i.committed && !(i.sustain && room) {
            self.disengage(
                if i.sustain {
                    OffReason::Runway
                } else {
                    OffReason::Leg
                },
            );
            return None;
        }
        if i.hold_jump {
            self.jump_prev = false;
            return Some(HopMove::Ground);
        }
        let jump: bool = !self.jump_prev;
        self.jump_prev = jump;
        if jump {
            if self.hops < u32::MAX {
                self.hops = self.hops + 1;
            }
            Some(HopMove::Jump)
        } else {
            self.jump_prev = false;
            Some(HopMove::Ground)
        }
    }

    /// Keep the side that a strafe chose, counting changes.
    pub fn weave(&mut self, sigma: i8)
        ensures
            *final(self) == (Bhop {
                sigma,
                flips: if old(self).sigma != 0 && sigma != old(self).sigma {
                    counted(old(self).flips)
                } else {
                    old(self).flips
                },
                ..*old(self)
            }),
    {
        if self.sigma != 0 && sigma != self.sigma && self.flips < u32::MAX {
            self.flips = self.flips + 1;
        }
        self.sigma = sigma;
    }

    pub fn engage(&mut self, i: &Input)
        ensures
            *final(self) == started(*old(self), *i),
    {
        self.phase = if i.on_ground && i.speed < PRESTRAFE_TARGET && i.runway > PRESTRAFE_MIN_RUNWAY {
            Phase::Prestrafe
        } else {
            Phase::Hop
        };
        self.phase_start = i.now;
        self.sigma = 0;
        self.jump_prev = false;
        self.hops = 0;
        self.flips = 0;
        self.peak = 0;
    }

    pub fn disengage(&mut self, reason: OffReason)
        ensures
            *final(self) == off(*old(self), reason),
    {
        self.phase = Phase::Off;
        self.sigma = 0;
        self.jump_prev = false;
        self.eligible_since = 0;
        self.off_reason = reason;
    }
}

/// The side to strafe on: first toward the bearing, then the same side until the bearing error
/// overshoots the band on the other. Both are thousandths of a degree.
pub fn weave_sigma(err: i32, prev_sigma: i8, band: u32) -> (r: i8)
    requires
        prev_sigma > i8::MIN,
    ensures
        r == side_of(err as int, prev_sigma as int, band as int),
        r == if prev_sigma == 0 {
            if err >= 0 {
                1int
            } else {
                -1int
            }
        } else if err * prev_sigma < -band {
            -prev_sigma
        } else {
            prev_sigma as int
        },
{
    if prev_sigma == 0 {
        return if err >= 0 {
            1
        } else {
            -1
        };
    }
    assert(-0x40_0000_0000 <= err * prev_sigma <= 0x40_0000_0000) by (nonlinear_arith)
        requires
            -0x8000_0000 <= err <= 0x7fff_ffff,
            -0x80 <= prev_sigma <= 0x7f,
    ;
    let turned: i64 = err as i64 * prev_sigma as i64;
    if turned < -(band as i64) {
        -prev_sigma
    } else {
        prev_sigma
    }
}

/// Nothing but a veto ends a run in the air.
pub proof fn only_a_veto_cuts_a_hop(b: Bhop, i: Input)
    requires
        b.phase != Phase::Off,
        !i.on_ground,
        !i.veto,
    ensures
        stepped(b, i).0.phase == Phase::Hop,
        stepped(b, i).1 == Some(HopMove::Air),
{
}

/// The jump button is never held: after a frame that pressed it, the next does not.
pub proof fn jump_is_pulsed(b: Bhop, first: Input, second: Input)
    requires
        stepped(b, first).1 == Some(HopMove::Jump),
        !second.veto,
    ensures
        stepped(stepped(b, first).0, second).1 != Some(HopMove::Jump),
{
}

/// A veto always leaves the controller off.
pub proof fn a_veto_is_final(b: Bhop, i: Input)
    requires
        i.veto,
    ensures
        stepped(b, i).0.phase == Phase::Off,
        stepped(b, i).1 is None,
{
}

/// The controller steers exactly while it is engaged.
pub proof fn steering_means_engaged(b: Bhop, i: Input)
    ensures
        stepped(b, i).1 is Some <==> stepped(b, i).0.phase != Phase::Off,
{
}

// --- what a run promises ---
/// A run is begun where the conditions have held for fifteen hundredths of a second, or at once on a
/// link that was planned for it.
pub proof fn runs_need_patience(b: Bhop, i: Input)
    requires
        b.phase == Phase::Off,
        !i.veto,
    ensures
        ({
            let (after, m) = stepped(b, i);
            let since = if b.eligible_since == 0 {
                i.now
            } else {
                b.eligible_since
            };
            let begins = i.committed || (i.eligible && i.now - since >= 150);
            &&& !begins ==> m is None && after.phase == Phase::Off
            &&& !begins && i.eligible ==> after.eligible_since == since
            &&& !begins && !i.eligible ==> after.eligible_since == 0
            &&& begins && !i.on_ground ==> m == Some(HopMove::Air) && after.phase == Phase::Hop
            &&& begins && i.on_ground && i.speed < 450_000 && i.runway > 512_000 && i.runway * 1000 >= i.speed * 1350
                + 64_000_000 ==> after.phase == Phase::Prestrafe && m == Some(HopMove::Ground) && after.phase_start == i.now
        }),
{
}

/// Launch speed is built until it is four hundred and fifty, until a second and a fifth is over, or
/// until the corridor leaves room for no more than two hops.
pub proof fn prestrafes_launch(b: Bhop, i: Input)
    requires
        b.phase == Phase::Prestrafe,
        !i.veto,
    ensures
        ({
            let (after, m) = stepped(b, i);
            let room = i.runway * 1000 >= i.speed * 1350 + 64_000_000;
            let stays = i.on_ground && i.speed < 450_000 && i.now - b.phase_start <= 1_200 && room;
            &&& stays ==> after.phase == Phase::Prestrafe && m == Some(HopMove::Ground) && !after.jump_prev
            &&& !stays ==> after.phase != Phase::Prestrafe
            &&& after.peak >= i.speed || after.phase == Phase::Off
        }),
{
}

/// In the air the bot strafes. On the ground it jumps, one frame in two, while another hop is wanted and
/// there is room for it; else it stops, and says why.
pub proof fn hops_go_on_while_there_is_room(b: Bhop, i: Input)
    requires
        b.phase == Phase::Hop,
        !i.veto,
    ensures
        ({
            let (after, m) = stepped(b, i);
            let room = i.runway * 1000 >= i.speed * 675 + 64_000_000;
            let on = i.committed || (i.sustain && room);
            &&& !i.on_ground ==> m == Some(HopMove::Air) && after.phase == Phase::Hop && !after.jump_prev
            &&& i.on_ground && !on ==> m is None && after.phase == Phase::Off && after.sigma == 0
            &&& i.on_ground && !on && i.sustain ==> after.off_reason == OffReason::Runway
            &&& i.on_ground && !on && !i.sustain ==> after.off_reason == OffReason::Leg
            &&& i.on_ground && on && (i.hold_jump || b.jump_prev) ==> m == Some(HopMove::Ground) && !after.jump_prev
                && after.hops == b.hops
            &&& i.on_ground && on && !i.hold_jump && !b.jump_prev ==> m == Some(HopMove::Jump) && after.jump_prev
            &&& i.on_ground && on && !i.hold_jump && !b.jump_prev && b.hops < u32::MAX ==> after.hops == b.hops + 1
            &&& b.peak >= i.speed ==> after.peak == b.peak
            &&& b.peak < i.speed ==> after.peak == i.speed
        }),
{
}

/// A veto ends a run and says so, and the wait starts over.
pub proof fn vetoes_are_noted(b: Bhop, i: Input)
    requires
        i.veto,
    ensures
        b.phase != Phase::Off ==> stepped(b, i).0.off_reason == OffReason::Veto && stepped(b, i).0.sigma == 0,
        b.phase == Phase::Off ==> stepped(b, i).0 == (Bhop { eligible_since: 0, ..b }),
        stepped(b, i).0.eligible_since == 0,
{
}

/// A new run counts from nothing.
pub proof fn runs_count_from_nothing(b: Bhop, i: Input)
    ensures
        ({
            let s = started(b, i);
            &&& s.hops == 0 && s.flips == 0 && s.peak == 0 && s.sigma == 0 && !s.jump_prev && s.phase_start == i.now
            &&& s.phase == Phase::Prestrafe <==> i.on_ground && i.speed < 450_000 && i.runway > 512_000
            &&& s.phase == Phase::Hop <==> !(i.on_ground && i.speed < 450_000 && i.runway > 512_000)
        }),
        blank_bhop().phase == Phase::Off && blank_bhop().hops == 0 && blank_bhop().off_reason == OffReason::Never,
        blank_bhop().sigma == 0 && blank_bhop().eligible_since == 0 && !blank_bhop().jump_prev,
{
}

/// The side to strafe on.
pub open spec fn side_of(err: int, prev: int, band: int) -> int {
    if prev == 0 {
        if err >= 0 {
            1
        } else {
            -1
        }
    } else if err * prev < -band {
        -prev
    } else {
        prev
    }
}

/// The first side is the one the bearing is on; it is kept until the bearing is off by more than the
/// band on the other, and the other way round just the same.
pub proof fn sides_are_kept_within_the_band(err: int, band: int)
    requires
        0 <= band,
    ensures
        err >= 0 ==> side_of(err, 0, band) == 1,
        err < 0 ==> side_of(err, 0, band) == -1,
        err >= -band ==> side_of(err, 1, band) == 1,
        err < -band ==> side_of(err, 1, band) == -1,
        err <= band ==> side_of(err, -1, band) == -1,
        err > band ==> side_of(err, -1, band) == 1,
{
    assert(err * 1 == err && err * (-1) == -err) by (nonlinear_arith);
}

/// A bot that has never run has counted nothing.
pub proof fn nothing_is_counted_before_a_run()
    ensures
        blank_bhop().flips == 0 && blank_bhop().peak == 0 && blank_bhop().phase_start == 0,
{
}

} // verus!
