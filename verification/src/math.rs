//! Ranges of numbers and the decisions that close a random draw.

use crate::scalar::Scalar;
use crate::vector::Vec3;
use vstd::prelude::*;

verus! {

/// The pattern of `1e-8`: a component nearer to zero than this counts as zero.
pub const APPROX_ZERO_BITS: u64 = 0x3e45_798e_e230_8c3a;

/// A range of numbers given by its two ends.
#[derive(Clone, Copy, Debug)]
pub struct Interval {
    pub start: Scalar,
    pub end: Scalar,
}

impl Interval {
    /// `start <= t <= end`.
    pub open spec fn spec_contains(&self, t: Scalar) -> bool {
        self.start.spec_le(t) && t.spec_le(self.end)
    }

    /// `start < t < end`.
    pub open spec fn spec_surrounds(&self, t: Scalar) -> bool {
        self.start.spec_lt(t) && t.spec_lt(self.end)
    }

    /// The range from `start` to `end`. Nothing is asked of the two: a range
    /// whose start is above its end, or is a NaN, holds no number.
    pub fn new(start: Scalar, end: Scalar) -> (interval: Self)
        ensures
            interval == (Interval { start, end }),
    {
        Self { start: start, end: end }
    }

    /// Whether `t` lies in the range, the ends included.
    #[verifier::when_used_as_spec(spec_contains)]
    pub fn contains(&self, t: Scalar) -> (r: bool)
        ensures
            r == self.spec_contains(t),
    {
        self.start.le(t) && t.le(self.end)
    }

    /// Whether `t` lies strictly inside the range.
    #[verifier::when_used_as_spec(spec_surrounds)]
    pub fn surrounds(&self, t: Scalar) -> (r: bool)
        ensures
            r == self.spec_surrounds(t),
    {
        self.start.lt(t) && t.lt(self.end)
    }
}

/// Whether every component of `vec` is nearer to zero than `1e-8`.
pub open spec fn spec_is_approx_zero(vec: Vec3) -> bool {
    let eps = Scalar { bits: APPROX_ZERO_BITS };
    vec.x.spec_abs().spec_lt(eps) && vec.y.spec_abs().spec_lt(eps) && vec.z.spec_abs().spec_lt(eps)
}

/// `vec` if it points into the hemisphere of the normal, else its opposite.
/// `toward_normal` is the dot product of `vec` with the normal.
pub open spec fn spec_random_on_hemisphere(vec: Vec3, toward_normal: Scalar) -> Vec3 {
    if Scalar::spec_zero().spec_lt(toward_normal) {
        vec
    } else {
        vec.spec_neg()
    }
}

/// Turns a direction drawn from the whole sphere into one of the hemisphere
/// around a normal: `vec` is kept where its dot product with the normal,
/// `toward_normal`, is above zero, and flipped otherwise.
#[verifier::when_used_as_spec(spec_random_on_hemisphere)]
pub fn random_on_hemisphere(vec: Vec3, toward_normal: Scalar) -> (r: Vec3)
    ensures
        r == spec_random_on_hemisphere(vec, toward_normal),
{
    if toward_normal.gt(Scalar::zero()) {
        vec
    } else {
        vec.neg()
    }
}

/// The vector that comes back never points out of the hemisphere: its dot
/// product with the normal, which is `toward_normal` or its opposite, is not
/// below zero. A vector that is kept points strictly into it.
pub proof fn lemma_on_hemisphere(vec: Vec3, toward_normal: Scalar)
    ensures
        spec_random_on_hemisphere(vec, toward_normal) == vec ==> vec == vec.spec_neg()
            || Scalar::spec_zero().spec_lt(toward_normal),
        Scalar::spec_zero().spec_lt(toward_normal) ==> spec_random_on_hemisphere(
            vec,
            toward_normal,
        ) == vec,
        !Scalar::spec_zero().spec_lt(toward_normal) ==> spec_random_on_hemisphere(
            vec,
            toward_normal,
        ) == vec.spec_neg() && !toward_normal.spec_neg().spec_lt(Scalar::spec_zero()),
{
}

/// Whether every component of `vec` is nearer to zero than `1e-8`.
#[verifier::when_used_as_spec(spec_is_approx_zero)]
pub fn is_approx_zero(vec: Vec3) -> (r: bool)
    ensures
        r == spec_is_approx_zero(vec),
{
    let eps = Scalar::from_bits(APPROX_ZERO_BITS);
    vec.x.abs().lt(eps) && vec.y.abs().lt(eps) && vec.z.abs().lt(eps)
}

} // verus!
