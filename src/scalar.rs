//! Single-precision floats held by their IEEE-754 bit pattern.
use vstd::prelude::*;

verus! {

/// The sign bit of a single-precision float.
pub const SIGN_BIT: u32 = 0x8000_0000;

/// The bit pattern of positive infinity; every larger magnitude is a NaN.
pub const INFINITY_BITS: u32 = 0x7F80_0000;

/// The bit pattern of `0.5`.
pub const HALF_BITS: u32 = 0x3F00_0000;

/// The bit pattern of `1.0`.
pub const ONE_BITS: u32 = 0x3F80_0000;

/// A single-precision float, held as its IEEE-754 bit pattern.
///
/// Two scalars are equal when their bits are, so equality is bit identity.
#[derive(Clone, Copy, Debug, PartialEq, Eq, Structural)]
pub struct Scalar {
    pub bits: u32,
}

impl Scalar {
    /// The sign bit is set.
    pub open spec fn is_negative(self) -> bool {
        self.bits >= SIGN_BIT
    }

    /// The bit pattern without its sign bit.
    pub open spec fn magnitude(self) -> u32 {
        if self.is_negative() {
            (self.bits - SIGN_BIT) as u32
        } else {
            self.bits
        }
    }

    pub open spec fn is_nan(self) -> bool {
        self.magnitude() > INFINITY_BITS
    }

    /// Position on the number line: for two scalars that are not NaN, the
    /// float order is the order of their keys, and `-0.0` and `0.0` share one.
    pub open spec fn key(self) -> int {
        if self.is_negative() {
            -(self.magnitude() as int)
        } else {
            self.magnitude() as int
        }
    }

    /// Greater than zero and finite.
    pub open spec fn is_positive_finite(self) -> bool {
        0 < self.bits < INFINITY_BITS
    }

    /// In the interval `(0, 1]`.
    pub open spec fn is_unit_ratio(self) -> bool {
        0 < self.bits <= ONE_BITS
    }

    /// What `f32::min` returns: the smaller, or the other where one is NaN.
    pub open spec fn spec_min(self, other: Scalar) -> Scalar {
        if self.is_nan() {
            other
        } else if other.is_nan() {
            self
        } else if other.key() < self.key() {
            other
        } else {
            self
        }
    }

    /// What `f32::max` returns: the larger, or the other where one is NaN.
    pub open spec fn spec_max(self, other: Scalar) -> Scalar {
        if self.is_nan() {
            other
        } else if other.is_nan() {
            self
        } else if other.key() > self.key() {
            other
        } else {
            self
        }
    }

    pub fn from_bits(bits: u32) -> (r: Scalar)
        ensures
            r.bits == bits,
    {
        Scalar { bits }
    }

    pub fn to_bits(self) -> (r: u32)
        ensures
            r == self.bits,
    {
        self.bits
    }

    /// `0.0`.
    pub fn zero() -> (r: Scalar)
        ensures
            r.bits == 0,
    {
        Scalar { bits: 0 }
    }

    /// `1.0`.
    pub fn one() -> (r: Scalar)
        ensures
            r.bits == ONE_BITS,
    {
        Scalar { bits: ONE_BITS }
    }

    fn magnitude_bits(self) -> (r: u32)
        ensures
            r == self.magnitude(),
    {
        if self.bits >= SIGN_BIT {
            self.bits - SIGN_BIT
        } else {
            self.bits
        }
    }

    pub fn is_nan_value(self) -> (r: bool)
        ensures
            r == self.is_nan(),
    {
        self.magnitude_bits() > INFINITY_BITS
    }

    /// Whether the float is greater than zero and finite.
    pub fn positive_finite(self) -> (r: bool)
        ensures
            r == self.is_positive_finite(),
    {
        0 < self.bits && self.bits < INFINITY_BITS
    }

    /// Whether the float lies in `(0, 1]`.
    pub fn unit_ratio(self) -> (r: bool)
        ensures
            r == self.is_unit_ratio(),
    {
        0 < self.bits && self.bits <= ONE_BITS
    }

    /// Whether `self` lies strictly below `other` on the number line.
    fn key_lt(self, other: Scalar) -> (r: bool)
        ensures
            r == (self.key() < other.key()),
    {
        let a = self.magnitude_bits();
        let b = other.magnitude_bits();
        let na = self.bits >= SIGN_BIT;
        let nb = other.bits >= SIGN_BIT;
        if na && nb {
            b < a
        } else if na {
            !(a == 0 && b == 0)
        } else if nb {
            false
        } else {
            a < b
        }
    }

    /// `f32::min` on the two floats.
    pub fn min(self, other: Scalar) -> (r: Scalar)
        ensures
            r == self.spec_min(other),
    {
        if self.is_nan_value() {
            other
        } else if other.is_nan_value() {
            self
        } else if other.key_lt(self) {
            other
        } else {
            self
        }
    }

    /// `f32::max` on the two floats.
    pub fn max(self, other: Scalar) -> (r: Scalar)
        ensures
            r == self.spec_max(other),
    {
        if self.is_nan_value() {
            other
        } else if other.is_nan_value() {
            self
        } else if self.key_lt(other) {
            other
        } else {
            self
        }
    }
}

} // verus!
