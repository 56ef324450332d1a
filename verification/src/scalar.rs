//! Bit-level model of the single-precision scalars that drawing commands
//! carry.
//!
//! The rasterization engine computes with IEEE-754 single-precision values;
//! the verified core never does.  A [`Scalar`] holds such a value as its
//! 32-bit pattern, which is enough for everything the core decides on:
//! whether a value is negative (sign bit set, other than negative zero) and
//! whether it is a zero of either sign.

use vstd::prelude::*;

verus! {

/// The bit pattern of negative zero.
pub const NEG_ZERO_BITS: u32 = 0x8000_0000;

/// An IEEE-754 single-precision value, carried as its bit pattern.
#[derive(Clone, Copy, Debug, PartialEq, Eq, Structural)]
pub struct Scalar {
    pub bits: u32,
}

impl Scalar {
    /// True of every value whose sign bit is set, except negative zero:
    /// exactly the values the decoders reject where a width or dash length
    /// must not be negative.  (A quiet NaN with a clear sign bit passes;
    /// it compares as not-less-than zero.)
    pub open spec fn is_negative(self) -> bool {
        self.bits > NEG_ZERO_BITS
    }

    /// True of positive and negative zero: the two patterns that compare
    /// equal to zero.
    pub open spec fn is_zero(self) -> bool {
        self.bits == 0 || self.bits == NEG_ZERO_BITS
    }

    /// True of every value whose single-precision square rounds to zero:
    /// magnitude at most 2^-75 (`0x1A00_0000` with the sign bit cleared;
    /// the square of exactly 2^-75 is halfway below the smallest subnormal
    /// and ties to even, that is to zero).  Both zeros qualify; NaN and
    /// infinity do not.
    pub open spec fn square_is_zero(self) -> bool {
        self.bits & 0x7fff_ffff <= 0x1A00_0000
    }

    /// True of finite values of magnitude below 2^62 (`0x5E80_0000` with
    /// the sign bit cleared).  Coordinates this bounded keep the engine's
    /// squared-length arithmetic finite — a segment between two such
    /// points has a squared length below 2^127 — while NaN and infinity,
    /// whose exponent bits exceed the bound, are excluded.
    pub open spec fn is_moderate(self) -> bool {
        self.bits & 0x7fff_ffff < 0x5E80_0000
    }

    pub fn negative(&self) -> (r: bool)
        ensures
            r == self.is_negative(),
    {
        self.bits > NEG_ZERO_BITS
    }

    pub fn moderate(&self) -> (r: bool)
        ensures
            r == self.is_moderate(),
    {
        (self.bits & 0x7fff_ffff) < 0x5E80_0000
    }

    pub fn square_zero(&self) -> (r: bool)
        ensures
            r == self.square_is_zero(),
    {
        (self.bits & 0x7fff_ffff) <= 0x1A00_0000
    }

    pub fn zero_valued(&self) -> (r: bool)
        ensures
            r == self.is_zero(),
    {
        self.bits == 0 || self.bits == NEG_ZERO_BITS
    }
}

/// A point in user space, both coordinates carried as bit patterns.
#[derive(Clone, Copy, Debug, PartialEq, Eq, Structural)]
pub struct Point {
    pub x: Scalar,
    pub y: Scalar,
}

} // verus!
