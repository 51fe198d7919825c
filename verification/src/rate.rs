//! Playback rates. Every rate in this library is held as an integer count of
//! thousandths of normal speed: 1000 is 1×, 250 is 0.25×, 16000 is 16×.

use vstd::prelude::*;

verus! {

/// Lowest rate the product sets (0.25×), as in browser engines.
pub const RATE_MIN: u32 = 250;

/// Highest rate the product sets (16×), as in browser engines.
pub const RATE_MAX: u32 = 16000;

/// Normal speed (1×).
pub const RATE_NORMAL: u32 = 1000;

pub open spec fn min_int(a: int, b: int) -> int {
    if a <= b {
        a
    } else {
        b
    }
}

pub open spec fn max_int(a: int, b: int) -> int {
    if a >= b {
        a
    } else {
        b
    }
}

/// `x` brought into `[lo, hi]`.
pub open spec fn clamp_int(x: int, lo: int, hi: int) -> int {
    if x < lo {
        lo
    } else if x > hi {
        hi
    } else {
        x
    }
}

/// Distance between two integers.
pub open spec fn dist(a: int, b: int) -> int {
    if a >= b {
        a - b
    } else {
        b - a
    }
}

/// A non-negative rate rounded to two decimals (the nearest multiple of ten
/// thousandths, halves away from zero).
pub open spec fn round_hundredth(r: int) -> int {
    (r + 5) / 10 * 10
}

/// The rate every setter funnels through: brought into
/// `[RATE_MIN, min(max, RATE_MAX)]` and rounded to two decimals.
pub open spec fn clamp_rate_spec(rate: int, max: int) -> int {
    round_hundredth(clamp_int(rate, RATE_MIN as int, min_int(max, RATE_MAX as int)))
}

/// Brings a rate into `[0.25×, min(max, 16×)]` and rounds it to two decimals.
/// The upper bound must not lie below 0.25×.
pub fn clamp_rate(rate: u32, max: u32) -> (r: u32)
    requires
        max >= RATE_MIN,
    ensures
        r == clamp_rate_spec(rate as int, max as int),
        RATE_MIN <= r <= RATE_MAX,
        r % 10 == 0,
{
    let hi = if max < RATE_MAX {
        max
    } else {
        RATE_MAX
    };
    let c = if rate < RATE_MIN {
        RATE_MIN
    } else if rate > hi {
        hi
    } else {
        rate
    };
    (c + 5) / 10 * 10
}

/// [`clamp_rate`] for a rate computed with a sign (a step below zero ends at
/// 0.25×).
pub fn clamp_signed_rate(rate: i128, max: u32) -> (r: u32)
    requires
        max >= RATE_MIN,
    ensures
        r == clamp_rate_spec(rate as int, max as int),
        RATE_MIN <= r <= RATE_MAX,
{
    let hi: u32 = if max < RATE_MAX {
        max
    } else {
        RATE_MAX
    };
    let c: u32 = if rate < RATE_MIN as i128 {
        RATE_MIN
    } else if rate > hi as i128 {
        hi
    } else {
        rate as u32
    };
    (c + 5) / 10 * 10
}

/// Brings a value into `[lo, hi]` (`lo <= hi`).
pub fn clamp_u32(x: u32, lo: u32, hi: u32) -> (r: u32)
    requires
        lo <= hi,
    ensures
        r == clamp_int(x as int, lo as int, hi as int),
{
    if x < lo {
        lo
    } else if x > hi {
        hi
    } else {
        x
    }
}

/// Clamping to the product range is idempotent: a rate that already went
/// through [`clamp_rate`] with the same bound comes out unchanged.
pub proof fn law_clamp_rate_idempotent(rate: int, max: int)
    requires
        max >= RATE_MIN,
    ensures
        clamp_rate_spec(clamp_rate_spec(rate, max), max) == clamp_rate_spec(rate, max),
{
}

} // verus!
