//! Whole points and bounded sums.
use vstd::prelude::*;

verus! {

/// A number held to the range of 64 bits.
pub open spec fn bounded(x: int) -> i64 {
    if x > i64::MAX {
        i64::MAX
    } else if x < i64::MIN {
        i64::MIN
    } else {
        x as i64
    }
}

pub fn bound(x: i128) -> (r: i64)
    ensures
        r == bounded(x as int),
{
    if x > i64::MAX as i128 {
        i64::MAX
    } else if x < i64::MIN as i128 {
        i64::MIN
    } else {
        x as i64
    }
}

/// The smallest whole number of points that is at least `x`, in thousandths.
pub open spec fn whole_up(x: int) -> int {
    -((-x) / 1000) * 1000
}

pub fn round_up(x: i128) -> (r: i128)
    requires
        -0x1_0000_0000_0000_0000 <= x <= 0x1_0000_0000_0000_0000,
    ensures
        r == whole_up(x as int),
        x <= r < x + 1000,
{
    let m: i128 = if x >= 0 {
        x % 1000
    } else {
        -((-x) % 1000)
    };
    if m > 0 {
        x - m + 1000
    } else {
        x - m
    }
}

/// The moment `ms` after `now`, held to the range of 64 bits.
pub fn after(now: i64, ms: i64) -> (r: i64)
    ensures
        r == bounded(now + ms),
{
    bound(now as i128 + ms as i128)
}

/// How long ago `then` was.
pub fn since(now: i64, then: i64) -> (r: i128)
    ensures
        r == now - then,
{
    now as i128 - then as i128
}

/// A number held to the range of 32 bits.
pub open spec fn fitted(x: int) -> i32 {
    if x > i32::MAX {
        i32::MAX
    } else if x < i32::MIN {
        i32::MIN
    } else {
        x as i32
    }
}

pub fn fit(x: i64) -> (r: i32)
    ensures
        r == fitted(x as int),
{
    if x > i32::MAX as i64 {
        i32::MAX
    } else if x < i32::MIN as i64 {
        i32::MIN
    } else {
        x as i32
    }
}

/// A number that fits is kept; one that does not is held at the nearer end.
pub proof fn numbers_are_held_in_range(x: int)
    ensures
        i64::MIN <= x <= i64::MAX ==> bounded(x) == x,
        x > i64::MAX ==> bounded(x) == i64::MAX,
        x < i64::MIN ==> bounded(x) == i64::MIN,
        i32::MIN <= x <= i32::MAX ==> fitted(x) == x,
        x > i32::MAX ==> fitted(x) == i32::MAX,
        x < i32::MIN ==> fitted(x) == i32::MIN,
        x <= whole_up(x) < x + 1000,
        whole_up(x) % 1000 == 0,
{
}

} // verus!
