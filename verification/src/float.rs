//! Floating-point numbers as bit patterns.
//!
//! A [`Float`] holds the 64 bits of an IEEE-754 binary64 number. Classification and
//! comparison are decided on the bits; arithmetic, rounding and text conversion are
//! left to the host of the machine (see [`crate::host`]).

use vstd::prelude::*;
use vstd::std_specs::cmp::PartialEqSpecImpl;

verus! {

/// The bit that holds the sign.
pub const SIGN_BIT: u64 = 0x8000_0000_0000_0000;

/// The bit pattern of positive infinity: every larger magnitude is a NaN.
pub const INFINITY_BITS: u64 = 0x7ff0_0000_0000_0000;

/// An IEEE-754 binary64 number, kept as its bit pattern.
#[derive(Clone, Copy, Debug)]
pub struct Float {
    pub bits: u64,
}

impl Float {
    /// The bits without the sign.
    pub open spec fn magnitude(self) -> int {
        if self.bits >= SIGN_BIT {
            self.bits - SIGN_BIT
        } else {
            self.bits as int
        }
    }

    /// Whether the sign bit is set.
    pub open spec fn is_negative(self) -> bool {
        self.bits >= SIGN_BIT
    }

    /// Whether the number is a NaN: all exponent bits set and a mantissa that is not zero.
    pub open spec fn nan(self) -> bool {
        self.magnitude() > INFINITY_BITS
    }

    /// Whether the number is `+0.0` or `-0.0`.
    pub open spec fn zero(self) -> bool {
        self.magnitude() == 0
    }

    /// The place of a number that is no NaN on the number line: for such numbers the
    /// order of the values is the order of sign and magnitude.
    pub open spec fn rank(self) -> int {
        if self.is_negative() {
            -self.magnitude()
        } else {
            self.magnitude()
        }
    }

    /// Whether IEEE-754 orders the two numbers at all: neither is a NaN.
    pub open spec fn comparable(self, other: Float) -> bool {
        !self.nan() && !other.nan()
    }

    /// IEEE-754 equality: a NaN equals nothing, the two zeros equal each other.
    pub open spec fn same(self, other: Float) -> bool {
        self.comparable(other) && self.rank() == other.rank()
    }

    /// IEEE-754 `<`.
    pub open spec fn below(self, other: Float) -> bool {
        self.comparable(other) && self.rank() < other.rank()
    }

    pub fn from_bits(bits: u64) -> (r: Float)
        ensures
            r.bits == bits,
    {
        Float { bits }
    }

    pub fn to_bits(self) -> (r: u64)
        ensures
            r == self.bits,
    {
        self.bits
    }

    fn magnitude_bits(self) -> (r: u64)
        ensures
            r == self.magnitude(),
    {
        if self.bits >= SIGN_BIT {
            self.bits - SIGN_BIT
        } else {
            self.bits
        }
    }

    pub fn is_nan(self) -> (r: bool)
        ensures
            r == self.nan(),
    {
        self.magnitude_bits() > INFINITY_BITS
    }

    pub fn is_zero(self) -> (r: bool)
        ensures
            r == self.zero(),
    {
        self.magnitude_bits() == 0
    }

    pub fn is_comparable(self, other: Float) -> (r: bool)
        ensures
            r == self.comparable(other),
    {
        !self.is_nan() && !other.is_nan()
    }

    pub fn is_same(self, other: Float) -> (r: bool)
        ensures
            r == self.same(other),
    {
        if self.is_nan() || other.is_nan() {
            false
        } else if self.is_zero() {
            other.is_zero()
        } else {
            self.bits == other.bits
        }
    }

    pub fn is_below(self, other: Float) -> (r: bool)
        ensures
            r == self.below(other),
    {
        if self.is_nan() || other.is_nan() {
            return false;
        }
        let a: u64 = self.magnitude_bits();
        let b: u64 = other.magnitude_bits();
        if self.bits >= SIGN_BIT {
            if other.bits >= SIGN_BIT {
                b < a
            } else {
                a > 0 || b > 0
            }
        } else {
            if other.bits >= SIGN_BIT {
                false
            } else {
                a < b
            }
        }
    }
}

impl PartialEq for Float {
    /// IEEE-754 equality.
    fn eq(&self, other: &Self) -> (r: bool) {
        self.is_same(*other)
    }
}

impl PartialEqSpecImpl for Float {
    open spec fn obeys_eq_spec() -> bool {
        true
    }

    open spec fn eq_spec(&self, other: &Self) -> bool {
        self.same(*other)
    }
}

} // verus!
