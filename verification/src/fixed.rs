//! Fixed-point scalar and vector arithmetic shared by the input mapper, the
//! flight-dynamics updater and the camera controller.
//!
//! Scalars are `i64` values in the units documented at the crate root.
//! Division is truncating (toward zero), matching the rounding the host
//! engine's conversions apply when it turns these values back into floats.

use vstd::arithmetic::div_mod::{
    lemma_div_is_ordered, lemma_div_multiples_vanish, lemma_div_nonincreasing,
    lemma_div_pos_is_pos,
};
use vstd::prelude::*;

verus! {

/// Largest magnitude a position coordinate may take, in thousandths of a
/// world unit (one billion world units). Position updates saturate here; a
/// simulation that is behaving at all stays far inside this bound.
pub const POS_LIMIT: i64 = 1_000_000_000_000;

/// Largest magnitude an accumulated angle may take, in microradians (one
/// million radians). Angle accumulators saturate here.
pub const ANGLE_LIMIT: i64 = 1_000_000_000_000;

/// The magnitude of `v`.
pub open spec fn abs_i(v: int) -> int {
    if v < 0 {
        -v
    } else {
        v
    }
}

/// `v` clamped into `[lo, hi]`.
pub open spec fn clamp_i(v: int, lo: int, hi: int) -> int {
    if v < lo {
        lo
    } else if v > hi {
        hi
    } else {
        v
    }
}

/// `a / d` rounded toward zero, for a positive divisor.
pub open spec fn div_trunc(a: int, d: int) -> int
    recommends
        0 < d,
{
    if a >= 0 {
        a / d
    } else {
        -((-a) / d)
    }
}

/// A product of values bounded in magnitude is bounded by the product of the
/// bounds.
pub proof fn lemma_mul_bound(a: int, b: int, amax: int, bmax: int)
    requires
        -amax <= a <= amax,
        -bmax <= b <= bmax,
    ensures
        -(amax * bmax) <= a * b <= amax * bmax,
{
    assert(-(amax * bmax) <= a * b <= amax * bmax) by (nonlinear_arith)
        requires
            -amax <= a <= amax,
            -bmax <= b <= bmax,
    ;
}

/// A dividend bounded by `m * d` in magnitude has a quotient bounded by `m`.
pub proof fn lemma_div_trunc_scaled_bound(a: int, d: int, m: int)
    requires
        0 < d,
        0 <= m,
        -(m * d) <= a <= m * d,
    ensures
        -m <= div_trunc(a, d) <= m,
{
    lemma_div_multiples_vanish(m, d);
    assert(m * d == d * m) by (nonlinear_arith);
    if a >= 0 {
        lemma_div_pos_is_pos(a, d);
        lemma_div_is_ordered(a, m * d, d);
    } else {
        lemma_div_pos_is_pos(-a, d);
        lemma_div_is_ordered(-a, m * d, d);
    }
}

/// `v` clamped into `[lo, hi]`.
pub fn clamp64(v: i64, lo: i64, hi: i64) -> (r: i64)
    requires
        lo <= hi,
    ensures
        r == clamp_i(v as int, lo as int, hi as int),
{
    if v < lo {
        lo
    } else if v > hi {
        hi
    } else {
        v
    }
}

/// `a / d` rounded toward zero, for a positive divisor.
pub fn div_trunc64(a: i64, d: i64) -> (r: i64)
    requires
        0 < d,
    ensures
        r == div_trunc(a as int, d as int),
{
    proof {
        if a >= 0 {
            lemma_div_pos_is_pos(a as int, d as int);
            lemma_div_nonincreasing(a as int, d as int);
        } else {
            lemma_div_pos_is_pos(-(a as int), d as int);
            lemma_div_nonincreasing(-(a as int), d as int);
        }
    }
    match a.checked_div(d) {
        Some(q) => q,
        None => 0,
    }
}

/// A three-component fixed-point vector. Component units depend on context:
/// thousandths of a world unit for positions, thousandths of a unit vector
/// for directions, thousandths of a newton (or newton-metre) for forces and
/// torques.
#[derive(Clone, Copy, Debug, PartialEq, Eq, Structural)]
pub struct Vec3i {
    pub x: i64,
    pub y: i64,
    pub z: i64,
}

impl Vec3i {
    /// All components have magnitude at most `limit`.
    pub open spec fn in_bounds(self, limit: int) -> bool {
        &&& -limit <= self.x <= limit
        &&& -limit <= self.y <= limit
        &&& -limit <= self.z <= limit
    }

    /// A direction vector scaled so a unit vector has components in
    /// `[-AXIS_UNIT, AXIS_UNIT]`.
    pub open spec fn is_milli_dir(self) -> bool {
        self.in_bounds(crate::AXIS_UNIT as int)
    }

    /// The zero vector.
    pub fn zero() -> (r: Vec3i)
        ensures
            r == (Vec3i { x: 0, y: 0, z: 0 }),
    {
        Vec3i { x: 0, y: 0, z: 0 }
    }
}

/// `v` scaled by `s` thousandths, truncating toward zero.
pub open spec fn vscale_milli(v: Vec3i, s: int) -> Vec3i
    recommends
        v.is_milli_dir(),
        -POS_LIMIT <= s <= POS_LIMIT,
{
    Vec3i {
        x: div_trunc(v.x * s, 1000) as i64,
        y: div_trunc(v.y * s, 1000) as i64,
        z: div_trunc(v.z * s, 1000) as i64,
    }
}

/// `a + b` with each component saturated into `[-limit, limit]`.
pub open spec fn vadd_sat(a: Vec3i, b: Vec3i, limit: int) -> Vec3i {
    Vec3i {
        x: clamp_i(a.x + b.x, -limit, limit) as i64,
        y: clamp_i(a.y + b.y, -limit, limit) as i64,
        z: clamp_i(a.z + b.z, -limit, limit) as i64,
    }
}

/// `a - b` with each component saturated into `[-limit, limit]`.
pub open spec fn vsub_sat(a: Vec3i, b: Vec3i, limit: int) -> Vec3i {
    Vec3i {
        x: clamp_i(a.x - b.x, -limit, limit) as i64,
        y: clamp_i(a.y - b.y, -limit, limit) as i64,
        z: clamp_i(a.z - b.z, -limit, limit) as i64,
    }
}

/// Scales a direction vector by `s` thousandths: a unit direction scaled by
/// `s` yields a vector of length `s` (up to truncation).
pub fn scale_milli(v: &Vec3i, s: i64) -> (r: Vec3i)
    requires
        v.is_milli_dir(),
        -POS_LIMIT <= s <= POS_LIMIT,
    ensures
        r == vscale_milli(*v, s as int),
        r.in_bounds(abs_i(s as int)),
{
    let sbound: i64 = if s < 0 {
        -s
    } else {
        s
    };
    proof {
        lemma_mul_bound(v.x as int, s as int, 1000, sbound as int);
        lemma_mul_bound(v.y as int, s as int, 1000, sbound as int);
        lemma_mul_bound(v.z as int, s as int, 1000, sbound as int);
        assert(1000 * (sbound as int) == (sbound as int) * 1000) by (nonlinear_arith);
        lemma_div_trunc_scaled_bound(v.x as int * s as int, 1000, sbound as int);
        lemma_div_trunc_scaled_bound(v.y as int * s as int, 1000, sbound as int);
        lemma_div_trunc_scaled_bound(v.z as int * s as int, 1000, sbound as int);
    }
    Vec3i {
        x: div_trunc64(v.x * s, 1000),
        y: div_trunc64(v.y * s, 1000),
        z: div_trunc64(v.z * s, 1000),
    }
}

/// Componentwise sum, saturated into `[-limit, limit]`.
pub fn add_sat(a: &Vec3i, b: &Vec3i, limit: i64) -> (r: Vec3i)
    requires
        0 <= limit,
        a.in_bounds(2 * POS_LIMIT as int),
        b.in_bounds(2 * POS_LIMIT as int),
    ensures
        r == vadd_sat(*a, *b, limit as int),
        r.in_bounds(limit as int),
{
    Vec3i {
        x: clamp64(a.x + b.x, -limit, limit),
        y: clamp64(a.y + b.y, -limit, limit),
        z: clamp64(a.z + b.z, -limit, limit),
    }
}

/// Componentwise difference, saturated into `[-limit, limit]`.
pub fn sub_sat(a: &Vec3i, b: &Vec3i, limit: i64) -> (r: Vec3i)
    requires
        0 <= limit,
        a.in_bounds(2 * POS_LIMIT as int),
        b.in_bounds(2 * POS_LIMIT as int),
    ensures
        r == vsub_sat(*a, *b, limit as int),
        r.in_bounds(limit as int),
{
    Vec3i {
        x: clamp64(a.x - b.x, -limit, limit),
        y: clamp64(a.y - b.y, -limit, limit),
        z: clamp64(a.z - b.z, -limit, limit),
    }
}

} // verus!
