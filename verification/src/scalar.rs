//! Double-precision numbers as the library holds them: by their bit pattern.
//!
//! The library never computes with a number. It stores numbers, negates them,
//! and compares them, and each of these is decided by the IEEE 754 binary64
//! bit pattern alone. A [`Scalar`] is that pattern; whoever does the
//! arithmetic converts with `f64::to_bits` and `f64::from_bits`.

use vstd::prelude::*;

verus! {

/// The sign bit of a binary64 pattern.
pub const SIGN_BIT: u64 = 0x8000_0000_0000_0000;

/// The pattern of positive infinity. A larger magnitude is a NaN.
pub const INFINITY_BITS: u64 = 0x7ff0_0000_0000_0000;

/// The pattern of `1.0`.
pub const ONE_BITS: u64 = 0x3ff0_0000_0000_0000;

/// A double-precision number, held as its binary64 bit pattern.
#[derive(Clone, Copy, Debug)]
pub struct Scalar {
    pub bits: u64,
}

impl Scalar {
    /// The pattern with the sign bit cleared.
    pub open spec fn magnitude(self) -> u64 {
        if self.bits >= SIGN_BIT {
            (self.bits - SIGN_BIT) as u64
        } else {
            self.bits
        }
    }

    /// Whether the sign bit is set. True of `-0.0` too.
    pub open spec fn sign_negative(self) -> bool {
        self.bits >= SIGN_BIT
    }

    /// Whether the pattern is one of the NaNs.
    pub open spec fn spec_is_nan(self) -> bool {
        self.magnitude() > INFINITY_BITS
    }

    /// Where the number stands among the numbers: for two patterns that are
    /// not NaN, the smaller number has the smaller rank, and equal numbers
    /// (both zeros included) have the same rank.
    pub open spec fn rank(self) -> int {
        if self.sign_negative() {
            -(self.magnitude() as int)
        } else {
            self.magnitude() as int
        }
    }

    /// `self < other` as IEEE 754 decides it: false if either is a NaN.
    pub open spec fn spec_lt(self, other: Scalar) -> bool {
        !self.spec_is_nan() && !other.spec_is_nan() && self.rank() < other.rank()
    }

    /// `self <= other` as IEEE 754 decides it: false if either is a NaN.
    pub open spec fn spec_le(self, other: Scalar) -> bool {
        !self.spec_is_nan() && !other.spec_is_nan() && self.rank() <= other.rank()
    }

    /// `self == other` as IEEE 754 decides it: false if either is a NaN, true
    /// of the two zeros.
    pub open spec fn spec_equals(self, other: Scalar) -> bool {
        !self.spec_is_nan() && !other.spec_is_nan() && self.rank() == other.rank()
    }

    /// The number with its sign flipped. Defined on every pattern, NaNs included.
    pub open spec fn spec_neg(self) -> Scalar {
        if self.bits >= SIGN_BIT {
            Scalar { bits: (self.bits - SIGN_BIT) as u64 }
        } else {
            Scalar { bits: (self.bits + SIGN_BIT) as u64 }
        }
    }

    /// The number with its sign cleared.
    pub open spec fn spec_abs(self) -> Scalar {
        Scalar { bits: self.magnitude() }
    }

    /// `self` restricted to `[min, max]`; a NaN stays as it is.
    pub open spec fn spec_clamp(self, min: Scalar, max: Scalar) -> Scalar {
        if self.spec_lt(min) {
            min
        } else if max.spec_lt(self) {
            max
        } else {
            self
        }
    }

    /// `+0.0`.
    pub open spec fn spec_zero() -> Scalar {
        Scalar { bits: 0 }
    }

    /// `1.0`.
    pub open spec fn spec_one() -> Scalar {
        Scalar { bits: ONE_BITS }
    }

    /// Positive infinity.
    pub open spec fn spec_infinity() -> Scalar {
        Scalar { bits: INFINITY_BITS }
    }

    /// The number with the given bit pattern.
    pub fn from_bits(bits: u64) -> (s: Scalar)
        ensures
            s.bits == bits,
    {
        Scalar { bits }
    }

    /// The bit pattern of the number.
    pub fn to_bits(self) -> (bits: u64)
        ensures
            bits == self.bits,
    {
        self.bits
    }

    /// `+0.0`.
    #[verifier::when_used_as_spec(spec_zero)]
    pub fn zero() -> (s: Scalar)
        ensures
            s == Scalar::spec_zero(),
    {
        Scalar { bits: 0 }
    }

    /// `1.0`.
    #[verifier::when_used_as_spec(spec_one)]
    pub fn one() -> (s: Scalar)
        ensures
            s == Scalar::spec_one(),
    {
        Scalar { bits: ONE_BITS }
    }

    /// Positive infinity.
    #[verifier::when_used_as_spec(spec_infinity)]
    pub fn infinity() -> (s: Scalar)
        ensures
            s == Scalar::spec_infinity(),
    {
        Scalar { bits: INFINITY_BITS }
    }

    fn magnitude_bits(self) -> (m: u64)
        ensures
            m == self.magnitude(),
    {
        if self.bits >= SIGN_BIT {
            self.bits - SIGN_BIT
        } else {
            self.bits
        }
    }

    /// Whether the number is a NaN.
    #[verifier::when_used_as_spec(spec_is_nan)]
    pub fn is_nan(self) -> (r: bool)
        ensures
            r == self.spec_is_nan(),
    {
        self.magnitude_bits() > INFINITY_BITS
    }

    /// `self < other`. False if either is a NaN.
    #[verifier::when_used_as_spec(spec_lt)]
    pub fn lt(self, other: Scalar) -> (r: bool)
        ensures
            r == self.spec_lt(other),
    {
        if self.is_nan() || other.is_nan() {
            return false;
        }
        let a: u64 = self.magnitude_bits();
        let b: u64 = other.magnitude_bits();
        if self.bits >= SIGN_BIT {
            if other.bits >= SIGN_BIT {
                b < a
            } else {
                a != 0 || b != 0
            }
        } else {
            if other.bits >= SIGN_BIT {
                false
            } else {
                a < b
            }
        }
    }

    /// `self == other` as numbers: false if either is a NaN, true of the
    /// two zeros.
    #[verifier::when_used_as_spec(spec_equals)]
    pub fn equals(self, other: Scalar) -> (r: bool)
        ensures
            r == self.spec_equals(other),
    {
        if self.is_nan() || other.is_nan() {
            return false;
        }
        let a: u64 = self.magnitude_bits();
        let b: u64 = other.magnitude_bits();
        if (self.bits >= SIGN_BIT) == (other.bits >= SIGN_BIT) {
            a == b
        } else {
            a == 0 && b == 0
        }
    }

    /// `self <= other`. False if either is a NaN.
    #[verifier::when_used_as_spec(spec_le)]
    pub fn le(self, other: Scalar) -> (r: bool)
        ensures
            r == self.spec_le(other),
    {
        self.lt(other) || self.equals(other)
    }

    /// `self > other`: the same as `other < self`.
    pub fn gt(self, other: Scalar) -> (r: bool)
        ensures
            r == other.spec_lt(self),
    {
        other.lt(self)
    }

    /// The number with its sign flipped.
    #[verifier::when_used_as_spec(spec_neg)]
    pub fn neg(self) -> (r: Scalar)
        ensures
            r == self.spec_neg(),
    {
        if self.bits >= SIGN_BIT {
            Scalar { bits: self.bits - SIGN_BIT }
        } else {
            Scalar { bits: self.bits + SIGN_BIT }
        }
    }

    /// The number with its sign cleared.
    #[verifier::when_used_as_spec(spec_abs)]
    pub fn abs(self) -> (r: Scalar)
        ensures
            r == self.spec_abs(),
    {
        Scalar { bits: self.magnitude_bits() }
    }

    /// Restricts `self` to `[min, max]`. A NaN is returned as it is.
    #[verifier::when_used_as_spec(spec_clamp)]
    pub fn clamp(self, min: Scalar, max: Scalar) -> (r: Scalar)
        requires
            min.spec_le(max),
        ensures
            r == self.spec_clamp(min, max),
    {
        if self.lt(min) {
            min
        } else if max.lt(self) {
            max
        } else {
            self
        }
    }
}

/// Numbers that are not NaN are totally ordered: of two, one is below the
/// other or they are equal, and never two of these at once.
pub proof fn lemma_order_total(a: Scalar, b: Scalar)
    requires
        !a.spec_is_nan(),
        !b.spec_is_nan(),
    ensures
        a.spec_lt(b) || a.spec_equals(b) || b.spec_lt(a),
        !(a.spec_lt(b) && b.spec_lt(a)),
        !(a.spec_lt(b) && a.spec_equals(b)),
        a.spec_le(b) <==> !b.spec_lt(a),
{
}

/// `<` and `<=` chain.
pub proof fn lemma_order_transitive(a: Scalar, b: Scalar, c: Scalar)
    ensures
        a.spec_lt(b) && b.spec_lt(c) ==> a.spec_lt(c),
        a.spec_le(b) && b.spec_le(c) ==> a.spec_le(c),
        a.spec_lt(b) && b.spec_le(c) ==> a.spec_lt(c),
        a.spec_le(b) && b.spec_lt(c) ==> a.spec_lt(c),
{
}

/// Flipping the sign twice gives the number back, and flipping it once
/// turns the order round.
pub proof fn lemma_neg(a: Scalar, b: Scalar)
    ensures
        a.spec_neg().spec_neg() == a,
        a.spec_neg().spec_is_nan() == a.spec_is_nan(),
        a.spec_lt(b) <==> b.spec_neg().spec_lt(a.spec_neg()),
        a.spec_neg().rank() == -a.rank(),
{
}

/// What clamping does to a number that is not NaN: the result lies in
/// `[min, max]`, and a number already there is left as it is.
pub proof fn lemma_clamp_range(x: Scalar, min: Scalar, max: Scalar)
    requires
        min.spec_le(max),
        !x.spec_is_nan(),
    ensures
        min.spec_le(x.spec_clamp(min, max)),
        x.spec_clamp(min, max).spec_le(max),
        min.spec_le(x) && x.spec_le(max) ==> x.spec_clamp(min, max) == x,
{
}

/// Clamping keeps the order: of two numbers, the smaller has the smaller
/// clamped value, or the same.
pub proof fn lemma_clamp_monotonic(x: Scalar, y: Scalar, min: Scalar, max: Scalar)
    requires
        min.spec_le(max),
        x.spec_le(y),
    ensures
        x.spec_clamp(min, max).spec_le(y.spec_clamp(min, max)),
{
}

/// Clamping a clamped number changes nothing.
pub proof fn lemma_clamp_idempotent(x: Scalar, min: Scalar, max: Scalar)
    requires
        min.spec_le(max),
    ensures
        x.spec_clamp(min, max).spec_clamp(min, max) == x.spec_clamp(min, max),
{
}

/// Clamped to `[0, 1]`, zero stays zero and one stays one.
pub proof fn lemma_clamp_unit_ends()
    ensures
        Scalar::spec_zero().spec_le(Scalar::spec_one()),
        Scalar::spec_zero().spec_clamp(Scalar::spec_zero(), Scalar::spec_one())
            == Scalar::spec_zero(),
        Scalar::spec_one().spec_clamp(Scalar::spec_zero(), Scalar::spec_one())
            == Scalar::spec_one(),
{
}

} // verus!
