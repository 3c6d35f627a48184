//! Real quantities, held by their IEEE 754 binary64 encoding.
//!
//! Nothing here does arithmetic on a quantity. A `Scalar` is moved, read
//! for its sign, and recognised where it is a constant.

use vstd::prelude::*;

verus! {

/// A quantity, as the 64 bits of its IEEE 754 binary64 encoding: bit 63 is
/// the sign, bits 52 to 62 the exponent, bits 0 to 51 the fraction.
///
/// `==` compares encodings: it tells the two zeros apart, and a NaN equals
/// itself.
#[derive(Debug, Copy, Clone, PartialEq, Eq, Structural)]
pub struct Scalar {
    pub bits: u64,
}

/// The encoding without its sign bit.
pub open spec fn magnitude_bits(bits: u64) -> u64 {
    bits & 0x7fff_ffff_ffff_ffff
}

impl Scalar {
    /// The encoding is a NaN: the exponent is all ones and the fraction is
    /// not zero.
    pub open spec fn is_nan(self) -> bool {
        magnitude_bits(self.bits) > 0x7ff0_0000_0000_0000
    }

    /// The encoding is one of the two zeros.
    pub open spec fn is_zero(self) -> bool {
        magnitude_bits(self.bits) == 0
    }

    /// The sign bit is set.
    pub open spec fn is_sign_negative(self) -> bool {
        self.bits & 0x8000_0000_0000_0000 != 0
    }

    /// The quantity is at least zero, as IEEE 754 compares: it is no NaN,
    /// and it is a zero or its sign bit is clear.
    pub open spec fn is_nonnegative(self) -> bool {
        !self.is_nan() && (self.is_zero() || !self.is_sign_negative())
    }

    /// The quantity with the given encoding.
    pub fn from_bits(bits: u64) -> (r: Scalar)
        ensures
            r.bits == bits,
    {
        Scalar { bits }
    }

    /// The encoding.
    pub fn to_bits(self) -> (r: u64)
        ensures
            r == self.bits,
    {
        self.bits
    }

    /// Positive zero.
    pub fn zero() -> (r: Scalar)
        ensures
            r.bits == 0,
    {
        Scalar { bits: 0 }
    }

    /// One: sign clear, exponent at the bias, fraction zero.
    pub fn one() -> (r: Scalar)
        ensures
            r.bits == 0x3ff0_0000_0000_0000,
    {
        Scalar { bits: 0x3ff0_0000_0000_0000 }
    }

    /// Whether the quantity is at least zero.
    pub fn at_least_zero(self) -> (r: bool)
        ensures
            r == self.is_nonnegative(),
    {
        let magnitude: u64 = self.bits & 0x7fff_ffff_ffff_ffff;
        let negative = self.bits & 0x8000_0000_0000_0000 != 0;
        magnitude <= 0x7ff0_0000_0000_0000 && (magnitude == 0 || !negative)
    }
}

} // verus!
