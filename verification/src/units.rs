//! Fixed-point scale and small arithmetic helpers shared by every component.
//!
//! One world unit is `MILLI` milli-units; one second is `MILLI` milliseconds.
//! Rates given "per second" are stored in milli-units per second, so a rate
//! applied over `dt` milliseconds contributes `rate * dt / MILLI`.

use vstd::prelude::*;

verus! {

/// Milli-units per world unit, and milliseconds per second.
pub const MILLI: i64 = 1000;

/// Clamps `v` into the closed interval `[lo, hi]`.
pub fn clamp_i64(v: i64, lo: i64, hi: i64) -> (r: i64)
    requires
        lo <= hi,
    ensures
        r == spec_clamp(v as int, lo as int, hi as int),
        lo <= r <= hi,
{
    if v < lo {
        lo
    } else if v > hi {
        hi
    } else {
        v
    }
}

/// Bounds for the product of two bounded non-negative factors and for its
/// quotient by a positive divisor; used wherever a rate is applied over an
/// elapsed time.
pub proof fn lemma_mul_div_bounds(a: int, b: int, amax: int, bmax: int, d: int)
    requires
        0 <= a <= amax,
        0 <= b <= bmax,
        0 < d,
    ensures
        0 <= a * b <= amax * bmax,
        0 <= a * b / d <= amax * bmax / d,
{
    assert(0 <= a * b <= amax * bmax) by (nonlinear_arith)
        requires
            0 <= a <= amax,
            0 <= b <= bmax,
    ;
    vstd::arithmetic::div_mod::lemma_div_is_ordered(0, a * b, d);
    vstd::arithmetic::div_mod::lemma_div_is_ordered(a * b, amax * bmax, d);
}

/// Mathematical clamp of `v` into `[lo, hi]`.
pub open spec fn spec_clamp(v: int, lo: int, hi: int) -> int {
    if v < lo {
        lo
    } else if v > hi {
        hi
    } else {
        v
    }
}

} // verus!
