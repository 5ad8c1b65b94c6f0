//! Floating-point values as their IEEE 754 encodings.
//!
//! Plans carry floating-point settings without computing on them. Only the questions a plan asks
//! of a value, whether it is finite, positive, or above another, are answered here.

use vstd::prelude::*;

verus! {

/// Binary32 value, by its encoding.
#[derive(Debug, Clone, Copy, PartialEq, Eq, Structural)]
pub struct Float32 {
    /// Sign, exponent, and fraction, from the most significant bit.
    pub bits: u32,
}

/// Binary64 value, by its encoding.
#[derive(Debug, Clone, Copy, PartialEq, Eq, Structural)]
pub struct Float64 {
    /// Sign, exponent, and fraction, from the most significant bit.
    pub bits: u64,
}

/// Encoding of positive infinity in binary32; larger magnitudes are not numbers.
pub const INFINITY_32: u32 = 0x7f80_0000;

/// Weight of the sign bit in binary32.
pub const SIGN_32: u32 = 0x8000_0000;

/// Encoding of positive infinity in binary64; larger magnitudes are not numbers.
pub const INFINITY_64: u64 = 0x7ff0_0000_0000_0000;

impl Float32 {
    /// Encoding without the sign.
    pub open spec fn magnitude(self) -> int {
        if self.bits >= SIGN_32 {
            self.bits - SIGN_32
        } else {
            self.bits as int
        }
    }

    /// Signed magnitude. It orders finite values as their numeric order does, and both zeros
    /// have rank zero.
    pub open spec fn rank(self) -> int {
        if self.bits >= SIGN_32 {
            -self.magnitude()
        } else {
            self.magnitude()
        }
    }

    /// Whether the value is neither infinite nor a NaN.
    pub open spec fn finite(self) -> bool {
        self.magnitude() < INFINITY_32
    }

    /// Whether the value is finite and above zero.
    pub open spec fn finite_positive(self) -> bool {
        self.finite() && self.rank() > 0
    }

    /// Whether the value is neither infinite nor a NaN.
    pub fn is_finite(self) -> (r: bool)
        ensures
            r == self.finite(),
    {
        if self.bits >= SIGN_32 {
            self.bits - SIGN_32 < INFINITY_32
        } else {
            self.bits < INFINITY_32
        }
    }

    /// Whether the value is finite and above zero.
    pub fn is_finite_positive(self) -> (r: bool)
        ensures
            r == self.finite_positive(),
    {
        0 < self.bits && self.bits < INFINITY_32
    }

    /// Whether the value is above `other`; both are finite.
    pub fn exceeds(self, other: Float32) -> (r: bool)
        requires
            self.finite(),
            other.finite(),
        ensures
            r == (self.rank() > other.rank()),
    {
        if self.bits < SIGN_32 {
            if other.bits < SIGN_32 {
                self.bits > other.bits
            } else {
                self.bits > 0 || other.bits > SIGN_32
            }
        } else if other.bits < SIGN_32 {
            false
        } else {
            self.bits < other.bits
        }
    }
}

impl Float64 {
    /// Whether the value is finite and above zero.
    pub open spec fn finite_positive(self) -> bool {
        0 < self.bits < INFINITY_64
    }

    /// Whether the value is finite and above zero.
    pub fn is_finite_positive(self) -> (r: bool)
        ensures
            r == self.finite_positive(),
    {
        0 < self.bits && self.bits < INFINITY_64
    }
}

} // verus!
