//! Fixed-point fractions in parts per thousand.
//!
//! Damage-reduction profiles, block efficiency and critical multipliers are
//! all fractions with three decimal digits, held as integers scaled by 1000.
//! Scaling a signed quantity by such a fraction truncates toward zero, as a
//! float product cast to an integer would.

use vstd::prelude::*;

verus! {

/// One whole, in parts per thousand.
pub const PERMILLE: u32 = 1000;

/// Largest health-delta magnitude (in milli-points) the damage pipeline
/// accepts; keeps every intermediate product inside `u64`.
pub const DELTA_LIMIT: i64 = 1_000_000_000_000;

/// Clamping into `[0, hi]`: how every bounded pool mutation lands.
pub open spec fn clamped(x: int, hi: int) -> int {
    if x < 0 {
        0
    } else if x > hi {
        hi
    } else {
        x
    }
}

/// What scaling by `num` parts per thousand means: multiply, divide by 1000,
/// truncate toward zero.
pub open spec fn scale_permille(x: int, num: int) -> int {
    if x >= 0 {
        (x * num) / 1000
    } else {
        -(((-x) * num) / 1000)
    }
}

/// Scaling a non-negative value by at most one whole never increases it, and
/// scaling by at most 2000 permille at most doubles it; signs are preserved.
pub proof fn lemma_scale_permille_bounds(x: int, num: int)
    requires
        0 <= num <= 2000,
    ensures
        x >= 0 ==> 0 <= scale_permille(x, num),
        x >= 0 && num <= 1000 ==> scale_permille(x, num) <= x,
        x >= 0 ==> scale_permille(x, num) <= 2 * x,
        x < 0 ==> scale_permille(x, num) <= 0,
        x < 0 && num <= 1000 ==> x <= scale_permille(x, num),
        x < 0 ==> 2 * x <= scale_permille(x, num),
{
    let m: int = if x >= 0 { x } else { -x };
    let q = (m * num) / 1000;
    assert(m * num >= 0 && m * num <= 2000 * m) by (nonlinear_arith)
        requires 0 <= num <= 2000, m >= 0;
    assert(1000 * q <= m * num && 0 <= q) by (nonlinear_arith)
        requires q == (m * num) / 1000, m * num >= 0;
    if num <= 1000 {
        assert(m * num <= 1000 * m) by (nonlinear_arith)
            requires 0 <= num <= 1000, m >= 0;
    }
}

/// `x * num / 1000`, truncated toward zero.
pub fn apply_permille(x: i64, num: u32) -> (r: i64)
    requires
        -4 * DELTA_LIMIT <= x <= 4 * DELTA_LIMIT,
        num <= 1200,
    ensures
        r == scale_permille(x as int, num as int),
        x >= 0 ==> 0 <= r <= 2 * x,
        x < 0 ==> 2 * x <= r <= 0,
        num <= 1000 && x >= 0 ==> r <= x,
        num <= 1000 && x < 0 ==> x <= r,
{
    proof {
        lemma_scale_permille_bounds(x as int, num as int);
    }
    let mag: u64 = if x >= 0 {
        x as u64
    } else {
        (-x) as u64
    };
    assert(mag * num <= 4_800_000_000_000_000) by (nonlinear_arith)
        requires mag <= 4_000_000_000_000, num <= 1200;
    let prod: u64 = mag * (num as u64);
    let q: u64 = prod / 1000;
    if x >= 0 {
        q as i64
    } else {
        -(q as i64)
    }
}

} // verus!
