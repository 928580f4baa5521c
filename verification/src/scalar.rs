//! Double-precision numbers carried as bit patterns.
//!
//! Arithmetic stays with the application. What this crate does with a number
//! is to order it, test it and pass it on, and all of that is exact on the
//! IEEE 754 bit pattern.

use vstd::prelude::*;

verus! {

/// The weight of the sign bit.
pub const SIGN: u64 = 0x8000_0000_0000_0000;

/// The magnitude bits of an infinity; anything above is not a number.
pub const INFINITE: u64 = 0x7ff0_0000_0000_0000;

/// The bit pattern of `1.0`.
pub const ONE_BITS: u64 = 0x3ff0_0000_0000_0000;

/// A double-precision number, by its bit pattern.
#[derive(Clone, Copy, Debug, PartialEq, Eq, Structural)]
pub struct Scalar {
    pub bits: u64,
}

impl Scalar {
    /// Whether the sign bit is set.
    pub open spec fn negative(self) -> bool {
        self.bits >= SIGN
    }

    /// The bits below the sign, which order the absolute values.
    pub open spec fn magnitude(self) -> int {
        if self.negative() {
            self.bits - SIGN
        } else {
            self.bits as int
        }
    }

    pub open spec fn nan(self) -> bool {
        self.magnitude() > INFINITE
    }

    pub open spec fn finite(self) -> bool {
        self.magnitude() < INFINITE
    }

    /// The place of a number on the extended real line. Both zeros share one
    /// place; the value means nothing for a NaN.
    pub open spec fn place(self) -> int {
        if self.negative() {
            -self.magnitude()
        } else {
            self.magnitude()
        }
    }

    /// The place in the total order of all bit patterns, which puts negative
    /// zero below zero and the NaNs at both ends.
    pub open spec fn rank(self) -> int {
        if self.negative() {
            -self.magnitude() - 1
        } else {
            self.magnitude()
        }
    }

    /// IEEE equality: false as soon as a NaN takes part.
    pub open spec fn eq_num(self, other: Scalar) -> bool {
        !self.nan() && !other.nan() && self.place() == other.place()
    }

    pub open spec fn lt_num(self, other: Scalar) -> bool {
        !self.nan() && !other.nan() && self.place() < other.place()
    }

    pub open spec fn le_num(self, other: Scalar) -> bool {
        !self.nan() && !other.nan() && self.place() <= other.place()
    }

    pub fn is_nan(self) -> (result: bool)
        ensures
            result == self.nan(),
    {
        self.magnitude_bits() > INFINITE
    }

    pub fn is_finite(self) -> (result: bool)
        ensures
            result == self.finite(),
    {
        self.magnitude_bits() < INFINITE
    }

    fn magnitude_bits(self) -> (result: u64)
        ensures
            result as int == self.magnitude(),
    {
        if self.bits >= SIGN {
            self.bits - SIGN
        } else {
            self.bits
        }
    }

    pub fn equals(self, other: Scalar) -> (result: bool)
        ensures
            result == self.eq_num(other),
    {
        let left: u64 = self.magnitude_bits();
        let right: u64 = other.magnitude_bits();
        left <= INFINITE && right <= INFINITE && left == right && ((self.bits >= SIGN) == (
        other.bits >= SIGN) || left == 0)
    }

    pub fn less(self, other: Scalar) -> (result: bool)
        ensures
            result == self.lt_num(other),
    {
        let left: u64 = self.magnitude_bits();
        let right: u64 = other.magnitude_bits();
        if left > INFINITE || right > INFINITE {
            return false;
        }
        if self.bits >= SIGN {
            if other.bits >= SIGN {
                left > right
            } else {
                left > 0 || right > 0
            }
        } else {
            other.bits < SIGN && left < right
        }
    }

    pub fn at_most(self, other: Scalar) -> (result: bool)
        ensures
            result == self.le_num(other),
    {
        self.less(other) || self.equals(other)
    }

    /// Strictly below in the total order of bit patterns.
    pub fn ranks_below(self, other: Scalar) -> (result: bool)
        ensures
            result == (self.rank() < other.rank()),
    {
        let left: u64 = self.magnitude_bits();
        let right: u64 = other.magnitude_bits();
        if self.bits >= SIGN {
            other.bits < SIGN || left > right
        } else {
            other.bits < SIGN && left < right
        }
    }

    /// The larger of two numbers; a NaN gives way to the other one.
    pub open spec fn larger_num(self, other: Scalar) -> Scalar {
        if self.nan() || self.lt_num(other) {
            other
        } else {
            self
        }
    }

    /// The smaller of two numbers; a NaN gives way to the other one.
    pub open spec fn smaller_num(self, other: Scalar) -> Scalar {
        if self.nan() || other.lt_num(self) {
            other
        } else {
            self
        }
    }

    pub fn larger(self, other: Scalar) -> (result: Scalar)
        ensures
            result == self.larger_num(other),
    {
        if self.is_nan() || self.less(other) {
            other
        } else {
            self
        }
    }

    pub fn smaller(self, other: Scalar) -> (result: Scalar)
        ensures
            result == self.smaller_num(other),
    {
        if self.is_nan() || other.less(self) {
            other
        } else {
            self
        }
    }

    pub open spec fn zero_num() -> Scalar {
        Scalar { bits: 0 }
    }

    pub open spec fn one_num() -> Scalar {
        Scalar { bits: ONE_BITS }
    }

    pub fn zero() -> (result: Scalar)
        ensures
            result == Self::zero_num(),
    {
        Scalar { bits: 0 }
    }

    pub fn one() -> (result: Scalar)
        ensures
            result == Self::one_num(),
    {
        Scalar { bits: ONE_BITS }
    }
}

/// The total order tells any two bit patterns apart.
pub proof fn rank_is_injective(a: Scalar, b: Scalar)
    ensures
        a.rank() == b.rank() <==> a == b,
{
}

/// On numbers the total order refines the numeric one.
pub proof fn rank_refines_numeric_order(a: Scalar, b: Scalar)
    requires
        a.lt_num(b),
    ensures
        a.rank() < b.rank(),
{
}

/// Exactly one of less, equal and greater holds of two numbers, and none of
/// them when a NaN takes part.
pub proof fn numeric_order_is_total_but_for_nan(a: Scalar, b: Scalar)
    ensures
        !a.nan() && !b.nan() ==> (a.lt_num(b) || a.eq_num(b) || b.lt_num(a)),
        !(a.lt_num(b) && b.lt_num(a)),
        !(a.lt_num(b) && a.eq_num(b)),
        a.nan() || b.nan() ==> !a.lt_num(b) && !a.eq_num(b) && !a.le_num(b),
{
}

/// A point of the plane.
#[derive(Clone, Copy, Debug, PartialEq, Eq, Structural)]
pub struct Point2 {
    pub x: Scalar,
    pub y: Scalar,
}

impl Point2 {
    pub open spec fn finite_point(self) -> bool {
        self.x.finite() && self.y.finite()
    }

    pub open spec fn eq_point(self, other: Point2) -> bool {
        self.x.eq_num(other.x) && self.y.eq_num(other.y)
    }

    pub fn finite(self) -> (result: bool)
        ensures
            result == self.finite_point(),
    {
        self.x.is_finite() && self.y.is_finite()
    }

    pub fn equals(self, other: Point2) -> (result: bool)
        ensures
            result == self.eq_point(other),
    {
        self.x.equals(other.x) && self.y.equals(other.y)
    }
}

} // verus!
