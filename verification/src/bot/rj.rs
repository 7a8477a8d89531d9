//! Whether a bot is fit to fly a rocket jump.
use crate::abi::EntVars;
use crate::defs::{Bits, Items};
use vstd::prelude::*;

verus! {

/// The most a point-blank rocket costs its owner, before armor.
pub const RJ_WORST_SELF_DAMAGE: i64 = 60;

/// Health to keep beyond that.
pub const RJ_HEALTH_MARGIN: i64 = 25;

/// What armor takes off the blast: its share rounded up, but no more than there is.
pub open spec fn blast_absorbed(armor_type: int, armor_value: int) -> int {
    let share = (armor_type * RJ_WORST_SELF_DAMAGE + 999) / 1000;
    if share <= armor_value {
        share
    } else {
        armor_value
    }
}

/// Armed, loaded, not running quad, and healthy enough to land with the margin to spare.
pub open spec fn fit(v: EntVars, quad_until: i64, now: i64) -> bool {
    &&& v.items & Items::ROCKET_LAUNCHER != 0
    &&& v.ammo_rockets >= 1
    &&& quad_until <= now
    &&& v.health > RJ_WORST_SELF_DAMAGE - blast_absorbed(v.armortype as int, v.armorvalue as int)
        + RJ_HEALTH_MARGIN
}

/// The surcharge on rocket-jump links for this bot: none where it is fit, else `unfit`.
pub fn rocket_jump_extra(v: &EntVars, quad_until: i64, now: i64, unfit: u32) -> (r: u32)
    ensures
        r == if fit(*v, quad_until, now) {
            0
        } else {
            unfit
        },
{
    let has_rl: bool = v.items.has(Items::ROCKET_LAUNCHER);
    let quad: bool = quad_until > now;
    let whole: i64 = v.armortype as i64 * RJ_WORST_SELF_DAMAGE + 999;
    let share: i64 = if whole >= 0 {
        whole / 1000
    } else {
        -((-whole + 999) / 1000)
    };
    let save: i64 = if share <= v.armorvalue as i64 {
        share
    } else {
        v.armorvalue as i64
    };
    let bar: i64 = RJ_WORST_SELF_DAMAGE - save + RJ_HEALTH_MARGIN;
    if has_rl && v.ammo_rockets >= 1 && !quad && v.health as i64 > bar {
        0
    } else {
        unfit
    }
}

/// Better armor never makes a fit bot unfit.
pub proof fn armor_lowers_the_bar(v: EntVars, better: EntVars, quad_until: i64, now: i64)
    requires
        fit(v, quad_until, now),
        better == (EntVars { armortype: better.armortype, armorvalue: better.armorvalue, ..v }),
        v.armortype <= better.armortype,
        v.armorvalue <= better.armorvalue,
    ensures
        fit(better, quad_until, now),
{
}

/// A bot rocket jumps with a launcher and a rocket, without the quad, and with more than eighty-five
/// points of health less what its armor takes of the sixty that the blast may cost: a green armor
/// eighteen, a yellow one thirty-six, a red one forty-eight, as far as they hold out.
pub proof fn rocket_jumps_need_health(v: EntVars, quad_until: i64, now: i64)
    ensures
        ({
            let armed = v.items & Items::ROCKET_LAUNCHER != 0 && v.ammo_rockets >= 1 && quad_until <= now;
            &&& !armed ==> !fit(v, quad_until, now)
            &&& armed && (v.armorvalue == 0 || v.armortype == 0) && v.armorvalue >= 0 && v.armortype >= 0 ==> (fit(v, quad_until, now)
                <==> v.health > 85)
            &&& armed && v.armortype == 300 && v.armorvalue >= 18 ==> (fit(v, quad_until, now) <==> v.health > 67)
            &&& armed && v.armortype == 600 && v.armorvalue >= 36 ==> (fit(v, quad_until, now) <==> v.health > 49)
            &&& armed && v.armortype == 800 && v.armorvalue >= 48 ==> (fit(v, quad_until, now) <==> v.health > 37)
            &&& armed && v.armortype == 800 && 0 <= v.armorvalue < 48 ==> (fit(v, quad_until, now) <==> v.health
                + v.armorvalue > 85)
        }),
{
}

} // verus!
