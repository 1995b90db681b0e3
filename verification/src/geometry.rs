//! Integer geometry and floating point numbers by their bits.

use vstd::prelude::*;

verus! {

/// Logical size.
#[derive(Clone, Copy, Debug, PartialEq, Eq, Structural)]
pub struct Size {
    pub w: i32,
    pub h: i32,
}

/// Logical location.
#[derive(Clone, Copy, Debug, PartialEq, Eq, Structural)]
pub struct Point {
    pub x: i32,
    pub y: i32,
}

/// Logical area.
#[derive(Clone, Copy, Debug, PartialEq, Eq, Structural)]
pub struct Rectangle {
    pub loc: Point,
    pub size: Size,
}

impl Rectangle {
    /// Area of a size at the origin.
    pub open spec fn of_size(size: Size) -> Rectangle {
        Rectangle { loc: Point { x: 0, y: 0 }, size: size }
    }

    /// Create an area at the origin.
    pub fn from_size(size: Size) -> (r: Rectangle)
        ensures
            r == Self::of_size(size),
    {
        Rectangle { loc: Point { x: 0, y: 0 }, size }
    }
}

/// Sign bit of a double precision number.
pub const SIGN_BIT: u64 = 0x8000_0000_0000_0000;

/// Bits of positive infinity. Every larger magnitude is not a number.
pub const INFINITY_BITS: u64 = 0x7ff0_0000_0000_0000;

/// Bits of the number one.
pub const ONE_BITS: u64 = 0x3ff0_0000_0000_0000;

/// Double precision number, held by its bits.
///
/// The numbers are only stored, handed on and tested for equality here.
#[derive(Clone, Copy, Debug, PartialEq, Eq, Structural)]
pub struct FloatBits {
    pub bits: u64,
}

impl FloatBits {
    /// Bits without the sign.
    pub open spec fn magnitude(self) -> u64 {
        if self.bits >= SIGN_BIT {
            (self.bits - SIGN_BIT) as u64
        } else {
            self.bits
        }
    }

    /// Whether the bits encode no number.
    pub open spec fn is_nan(self) -> bool {
        self.magnitude() > INFINITY_BITS
    }

    /// Numeric equality: zeros are equal whatever their sign, and nothing equals a value which is
    /// not a number.
    pub open spec fn equals(self, other: FloatBits) -> bool {
        !self.is_nan() && !other.is_nan() && (self.bits == other.bits || (self.magnitude() == 0
            && other.magnitude() == 0))
    }

    /// The number zero.
    pub open spec fn zero() -> FloatBits {
        FloatBits { bits: 0 }
    }

    /// The number one.
    pub open spec fn one() -> FloatBits {
        FloatBits { bits: ONE_BITS }
    }

    fn unsigned(self) -> (r: u64)
        ensures
            r == self.magnitude(),
    {
        if self.bits >= SIGN_BIT {
            self.bits - SIGN_BIT
        } else {
            self.bits
        }
    }

    /// Compare two numbers.
    pub fn same(self, other: FloatBits) -> (r: bool)
        ensures
            r == self.equals(other),
    {
        self.unsigned() <= INFINITY_BITS && other.unsigned() <= INFINITY_BITS && (self.bits
            == other.bits || (self.unsigned() == 0 && other.unsigned() == 0))
    }
}

} // verus!
