//! Fixed-point units, bounds, and the truncating division the controllers
//! compute with.

use vstd::prelude::*;

verus! {

/// Micro-units per world unit (and per radian, and per second).
pub const SCALE: i64 = 1_000_000;

/// Largest speed cap, acceleration, jump speed, or sensitivity a controller
/// state may carry, in micro-units (1000 world units per second).
pub const TUNING_LIMIT: i64 = 1_000_000_000;

/// Largest frame delta accepted, in micro-seconds (1000 seconds).
pub const DT_LIMIT: i64 = 1_000_000_000;

/// Largest mouse sensitivity a controller state may carry: a gain of one
/// degree per count per pixel, in micro-units.
pub const SENS_LIMIT: i64 = 1_000_000;

/// Truncating (round-toward-zero) division of `a` by a positive divisor `d`,
/// as the `/` operator of the machine computes it on signed integers.
pub open spec fn tdiv(a: int, d: int) -> int {
    if a >= 0 {
        a / d
    } else {
        -((-a) / d)
    }
}

/// `v` clamped to the interval `[lo, hi]`.
pub open spec fn spec_clamp(v: int, lo: int, hi: int) -> int {
    if v < lo {
        lo
    } else if v > hi {
        hi
    } else {
        v
    }
}

/// The smaller of two values.
pub open spec fn spec_min(a: int, b: int) -> int {
    if a < b {
        a
    } else {
        b
    }
}

/// The larger of two values.
pub open spec fn spec_max(a: int, b: int) -> int {
    if a > b {
        a
    } else {
        b
    }
}

/// The absolute value.
pub open spec fn spec_abs(a: int) -> int {
    if a >= 0 {
        a
    } else {
        -a
    }
}

/// Clamps `v` to `[lo, hi]`.
pub fn clamp_i64(v: i64, lo: i64, hi: i64) -> (r: i64)
    requires
        lo <= hi,
    ensures
        r == spec_clamp(v as int, lo as int, hi as int),
{
    if v < lo {
        lo
    } else if v > hi {
        hi
    } else {
        v
    }
}

/// Truncating division of a signed value by a positive divisor, the way the
/// machine's `/` rounds: toward zero.
pub fn tdiv_i64(a: i64, d: i64) -> (r: i64)
    requires
        0 < d,
        i64::MIN < a,
    ensures
        r == tdiv(a as int, d as int),
        spec_abs(r as int) <= spec_abs(a as int),
{
    proof {
        if a >= 0 {
            assert(0 <= a as int / d as int <= a as int) by (nonlinear_arith)
                requires
                    a >= 0,
                    d > 0,
            ;
        } else {
            assert(0 <= (-a as int) / d as int <= -a as int) by (nonlinear_arith)
                requires
                    a < 0,
                    d > 0,
            ;
        }
    }
    if a >= 0 {
        a / d
    } else {
        -((-a) / d)
    }
}

/// Multiplies a signed micro-unit value by a non-negative micro-unit value
/// and rescales, truncating toward zero: `tdiv(a * b, SCALE)`.
pub fn mul_scaled(a: i64, b: i64) -> (r: i64)
    requires
        -TUNING_LIMIT <= a <= TUNING_LIMIT,
        0 <= b <= DT_LIMIT,
    ensures
        r == tdiv(a as int * b as int, SCALE as int),
        spec_abs(r as int) <= spec_abs(a as int * b as int),
{
    proof {
        assert(-TUNING_LIMIT * DT_LIMIT <= a as int * b as int <= TUNING_LIMIT * DT_LIMIT)
            by (nonlinear_arith)
            requires
                -TUNING_LIMIT <= a <= TUNING_LIMIT,
                0 <= b <= DT_LIMIT,
        ;
    }
    let p: i64 = a * b;
    tdiv_i64(p, SCALE)
}

} // verus!
