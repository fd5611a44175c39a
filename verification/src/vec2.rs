//! Plane vectors in milli-units, with the integer square root and the
//! sign-aware scaling that movement and direction computations share.
//!
//! Directions are stored as per-mille unit vectors: a normalized direction
//! has both components in `[-MILLI, MILLI]`.

use vstd::prelude::*;
use vstd::arithmetic::div_mod::{lemma_div_is_ordered, lemma_div_multiples_vanish};
use vstd::arithmetic::mul::lemma_mul_inequality;
use crate::units::{MILLI, clamp_i64, spec_clamp};

verus! {

/// Absolute bound on every stored coordinate, in milli-units.
pub const POS_LIMIT: i64 = 100_000_000;

/// Largest distance step a single movement may take, in milli-units.
pub const STEP_LIMIT: i64 = 10_000_000_000;

/// Largest argument `isqrt` accepts; at least `2 * (2 * POS_LIMIT)^2`.
pub const ISQRT_ARG_LIMIT: i64 = 80_000_000_000_000_000;

#[derive(Clone, Copy, PartialEq, Eq, Structural, Debug)]
pub struct Vec2i {
    pub x: i64,
    pub y: i64,
}

impl Vec2i {
    /// Both coordinates lie within the absolute coordinate bound.
    pub open spec fn in_world_range(self) -> bool {
        &&& -POS_LIMIT <= self.x <= POS_LIMIT
        &&& -POS_LIMIT <= self.y <= POS_LIMIT
    }

    /// A stored direction: both components within one per-mille unit.
    pub open spec fn is_unit_range(self) -> bool {
        &&& -MILLI <= self.x <= MILLI
        &&& -MILLI <= self.y <= MILLI
    }
}

/// Floor of the square root, defined recursively on the argument.
pub open spec fn spec_isqrt(n: int) -> int
    decreases n,
{
    if n < 1 {
        0
    } else {
        let r = spec_isqrt(n - 1);
        if (r + 1) * (r + 1) <= n {
            r + 1
        } else {
            r
        }
    }
}

pub proof fn lemma_isqrt_props(n: int)
    requires
        n >= 0,
    ensures
        0 <= spec_isqrt(n),
        spec_isqrt(n) * spec_isqrt(n) <= n,
        n < (spec_isqrt(n) + 1) * (spec_isqrt(n) + 1),
    decreases n,
{
    if n == 0 {
    } else {
        lemma_isqrt_props(n - 1);
        let r = spec_isqrt(n - 1);
        if (r + 1) * (r + 1) <= n {
            assert(n < (r + 2) * (r + 2)) by (nonlinear_arith)
                requires
                    n - 1 < (r + 1) * (r + 1),
                    r >= 0,
            ;
        }
    }
}

/// The two bracketing inequalities determine the square root uniquely.
pub proof fn lemma_isqrt_unique(n: int, r: int)
    requires
        n >= 0,
        0 <= r,
        r * r <= n,
        n < (r + 1) * (r + 1),
    ensures
        r == spec_isqrt(n),
{
    lemma_isqrt_props(n);
    let s = spec_isqrt(n);
    assert(r == s) by (nonlinear_arith)
        requires
            0 <= r,
            0 <= s,
            r * r <= n,
            n < (r + 1) * (r + 1),
            s * s <= n,
            n < (s + 1) * (s + 1),
    ;
}

/// A square below `n` has its root below the square root of `n`.
pub proof fn lemma_isqrt_ge_abs(n: int, a: int)
    requires
        0 <= a,
        a * a <= n,
    ensures
        spec_isqrt(n) >= a,
{
    lemma_isqrt_props(n);
    let r = spec_isqrt(n);
    assert(r >= a) by (nonlinear_arith)
        requires
            0 <= a,
            0 <= r,
            a * a <= n,
            n < (r + 1) * (r + 1),
    ;
}

/// Floor of the square root of `n`.
pub fn isqrt(n: i64) -> (r: i64)
    requires
        0 <= n <= ISQRT_ARG_LIMIT,
    ensures
        r == spec_isqrt(n as int),
        0 <= r <= 300_000_001,
        r * r <= n,
        n < (r + 1) * (r + 1),
{
    let mut lo: i64 = 0;
    let mut hi: i64 = 300_000_001;
    assert(300_000_001i64 * 300_000_001 > ISQRT_ARG_LIMIT) by (nonlinear_arith);
    while lo + 1 < hi
        invariant
            0 <= lo < hi <= 300_000_001,
            lo * lo <= n,
            n < hi * hi,
        decreases hi - lo,
    {
        let mid: i64 = lo + (hi - lo) / 2;
        assert(lo < mid < hi);
        assert(mid * mid <= 300_000_001i64 * 300_000_001) by (nonlinear_arith)
            requires
                0 <= mid <= 300_000_001,
        ;
        if mid * mid <= n {
            lo = mid;
        } else {
            hi = mid;
        }
    }
    proof {
        lemma_isqrt_unique(n as int, lo as int);
    }
    lo
}

/// Scales `a` by `num / den`, rounding the magnitude down and keeping the
/// sign of `a`, so that the executable truncating division and this
/// mathematical statement agree.
pub open spec fn spec_scaled(a: int, num: int, den: int) -> int {
    if a >= 0 {
        a * num / den
    } else {
        -((-a) * num / den)
    }
}

/// When the factor is at most one, scaling shrinks the magnitude and
/// keeps the sign.
pub proof fn lemma_scaled_within(a: int, num: int, den: int)
    requires
        0 <= num <= den,
        0 < den,
    ensures
        a >= 0 ==> 0 <= spec_scaled(a, num, den) <= a,
        a < 0 ==> a <= spec_scaled(a, num, den) <= 0,
{
    let m = if a >= 0 { a } else { -a };
    assert(m * num <= m * den) by (nonlinear_arith)
        requires
            0 <= m,
            num <= den,
    ;
    lemma_div_is_ordered(m * num, m * den, den);
    lemma_div_multiples_vanish(m, den);
    assert(m * den == den * m) by (nonlinear_arith);
    assert(m * num / den <= m);
    assert(m * num >= 0) by (nonlinear_arith)
        requires
            m >= 0,
            num >= 0,
    ;
    assert(m * num / den >= 0) by {
        lemma_div_is_ordered(0, m * num, den);
    }
}

/// The magnitude of the scaled value never exceeds `num` while the
/// magnitude of `a` stays within `den`.
pub proof fn lemma_scaled_le(a: int, num: int, den: int)
    requires
        0 < den,
        0 <= num,
        -den <= a <= den,
    ensures
        -num <= spec_scaled(a, num, den) <= num,
{
    let m = if a >= 0 { a } else { -a };
    lemma_mul_inequality(m, den, num);
    assert(m * num == num * m) by (nonlinear_arith);
    assert(den * num == num * den) by (nonlinear_arith);
    lemma_div_is_ordered(m * num, den * num, den);
    lemma_div_multiples_vanish(num, den);
    assert(m * num / den <= num);
    assert(m * num >= 0) by (nonlinear_arith)
        requires
            m >= 0,
            num >= 0,
    ;
    lemma_div_is_ordered(0, m * num, den);
}

/// Executable counterpart of `spec_scaled`.
pub fn scaled_i64(a: i64, num: i64, den: i64) -> (r: i64)
    requires
        -400_000_000 <= a <= 400_000_000,
        0 <= num <= STEP_LIMIT,
        0 < den,
    ensures
        r == spec_scaled(a as int, num as int, den as int),
{
    proof {
        assert(400_000_000i64 * STEP_LIMIT <= i64::MAX) by (nonlinear_arith);
        let m: int = if a >= 0 { a as int } else { -(a as int) };
        assert(m * num <= 400_000_000 * (STEP_LIMIT as int)) by (nonlinear_arith)
            requires
                0 <= m <= 400_000_000,
                0 <= num <= STEP_LIMIT,
        ;
        assert(m * num >= 0) by (nonlinear_arith)
            requires
                m >= 0,
                num >= 0,
        ;
        lemma_div_is_ordered(0, m * num, den as int);
    }
    if a >= 0 {
        let p: i64 = a * num;
        p / den
    } else {
        let p: i64 = (-a) * num;
        -(p / den)
    }
}

/// Squared distance between two points.
pub open spec fn spec_dist2(a: Vec2i, b: Vec2i) -> int {
    let dx = b.x - a.x;
    let dy = b.y - a.y;
    dx * dx + dy * dy
}

/// Distance between two points, rounded down.
pub open spec fn spec_dist(a: Vec2i, b: Vec2i) -> int {
    spec_isqrt(spec_dist2(a, b))
}

proof fn lemma_dist2_bound(a: Vec2i, b: Vec2i)
    requires
        a.in_world_range(),
        b.in_world_range(),
    ensures
        0 <= spec_dist2(a, b) <= ISQRT_ARG_LIMIT,
        spec_dist2(a, b) >= (b.x - a.x) * (b.x - a.x),
        spec_dist2(a, b) >= (b.y - a.y) * (b.y - a.y),
{
    let dx = b.x - a.x;
    let dy = b.y - a.y;
    assert(0 <= dx * dx <= 40_000_000_000_000_000 && 0 <= dy * dy <= 40_000_000_000_000_000)
        by (nonlinear_arith)
        requires
            -200_000_000 <= dx <= 200_000_000,
            -200_000_000 <= dy <= 200_000_000,
    ;
}

/// Distance between two points.
pub fn dist(a: Vec2i, b: Vec2i) -> (r: i64)
    requires
        a.in_world_range(),
        b.in_world_range(),
    ensures
        r == spec_dist(a, b),
        0 <= r <= 300_000_001,
{
    proof {
        lemma_dist2_bound(a, b);
    }
    let dx = b.x - a.x;
    let dy = b.y - a.y;
    isqrt(dx * dx + dy * dy)
}

/// Per-mille unit vector pointing from `from` toward `to`; zero when the
/// points coincide.
pub open spec fn spec_dir_toward(from: Vec2i, to: Vec2i) -> Vec2i {
    let dx = to.x - from.x;
    let dy = to.y - from.y;
    let len = spec_isqrt(spec_dist2(from, to));
    if len == 0 {
        Vec2i { x: 0, y: 0 }
    } else {
        Vec2i {
            x: spec_scaled(dx, MILLI as int, len) as i64,
            y: spec_scaled(dy, MILLI as int, len) as i64,
        }
    }
}

pub fn dir_toward(from: Vec2i, to: Vec2i) -> (r: Vec2i)
    requires
        from.in_world_range(),
        to.in_world_range(),
    ensures
        r == spec_dir_toward(from, to),
        r.is_unit_range(),
{
    proof {
        lemma_dist2_bound(from, to);
    }
    let dx = to.x - from.x;
    let dy = to.y - from.y;
    let len = isqrt(dx * dx + dy * dy);
    if len == 0 {
        Vec2i { x: 0, y: 0 }
    } else {
        proof {
            let ax: int = if dx >= 0 { dx as int } else { -(dx as int) };
            let ay: int = if dy >= 0 { dy as int } else { -(dy as int) };
            assert(ax * ax == dx * dx) by (nonlinear_arith)
                requires
                    ax == if dx >= 0 { dx as int } else { -(dx as int) },
            ;
            assert(ay * ay == dy * dy) by (nonlinear_arith)
                requires
                    ay == if dy >= 0 { dy as int } else { -(dy as int) },
            ;
            lemma_isqrt_ge_abs(spec_dist2(from, to), ax);
            lemma_isqrt_ge_abs(spec_dist2(from, to), ay);
            lemma_scaled_le(dx as int, MILLI as int, len as int);
            lemma_scaled_le(dy as int, MILLI as int, len as int);
        }
        Vec2i { x: scaled_i64(dx, MILLI, len), y: scaled_i64(dy, MILLI, len) }
    }
}

/// Displacement along a stored per-mille direction, clamped back into the
/// absolute coordinate range.
pub open spec fn spec_move_by_dir(pos: Vec2i, dir: Vec2i, step: int) -> Vec2i {
    Vec2i {
        x: spec_clamp(pos.x + spec_scaled(dir.x as int, step, MILLI as int), -POS_LIMIT as int, POS_LIMIT as int) as i64,
        y: spec_clamp(pos.y + spec_scaled(dir.y as int, step, MILLI as int), -POS_LIMIT as int, POS_LIMIT as int) as i64,
    }
}

pub fn move_by_dir(pos: Vec2i, dir: Vec2i, step: i64) -> (r: Vec2i)
    requires
        pos.in_world_range(),
        dir.is_unit_range(),
        0 <= step <= STEP_LIMIT,
    ensures
        r == spec_move_by_dir(pos, dir, step as int),
        r.in_world_range(),
{
    proof {
        lemma_scaled_le(dir.x as int, step as int, MILLI as int);
        lemma_scaled_le(dir.y as int, step as int, MILLI as int);
    }
    let sx = scaled_i64(dir.x, step, MILLI);
    let sy = scaled_i64(dir.y, step, MILLI);
    Vec2i {
        x: clamp_i64(pos.x + sx, -POS_LIMIT, POS_LIMIT),
        y: clamp_i64(pos.y + sy, -POS_LIMIT, POS_LIMIT),
    }
}

} // verus!
