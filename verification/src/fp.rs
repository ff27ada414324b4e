//! Double-precision values carried as IEEE 754 binary64 bit patterns, with
//! exact spec-level predicates for the classifications the checked operations
//! depend on (zero, NaN, strictly negative).

use vstd::prelude::*;

verus! {

/// Mask that clears the sign bit of a binary64 bit pattern.
pub const ABS_MASK: u64 = 0x7fff_ffff_ffff_ffff;

/// Mask of the exponent field of a binary64 bit pattern.
pub const EXP_MASK: u64 = 0x7ff0_0000_0000_0000;

/// Mask of the fraction field of a binary64 bit pattern.
pub const FRAC_MASK: u64 = 0x000f_ffff_ffff_ffff;

/// A double-precision floating-point value, carried as its IEEE 754 binary64
/// bit pattern so that verified code can reason about it exactly.
#[derive(Clone, Copy, Debug, PartialEq, Eq, Structural)]
pub struct Fp {
    /// The IEEE 754 binary64 bit pattern of the value.
    pub bits: u64,
}

/// Holds exactly of the bit patterns of positive and negative zero.
pub open spec fn is_zero_bits(b: u64) -> bool {
    b & ABS_MASK == 0
}

/// Holds exactly of the bit patterns of NaNs: exponent field all ones and
/// fraction field nonzero.
pub open spec fn is_nan_bits(b: u64) -> bool {
    b & EXP_MASK == EXP_MASK && b & FRAC_MASK != 0
}

/// Holds exactly of the bit patterns of values strictly below zero: the sign
/// bit is set and the value is neither a zero nor a NaN.  This is exactly
/// when `v < 0.0` holds of the represented value `v`.
pub open spec fn is_negative_bits(b: u64) -> bool {
    b >> 63 == 1 && !is_zero_bits(b) && !is_nan_bits(b)
}

impl Fp {
    /// Builds the value with the given binary64 bit pattern.
    pub fn from_bits(bits: u64) -> (r: Fp)
        ensures
            r.bits == bits,
    {
        Fp { bits }
    }

    /// True exactly of positive and negative zero.
    pub fn is_zero(&self) -> (r: bool)
        ensures
            r == is_zero_bits(self.bits),
    {
        self.bits & ABS_MASK == 0
    }

    /// True exactly of values strictly below zero; never of a zero or a NaN.
    pub fn is_negative(&self) -> (r: bool)
        ensures
            r == is_negative_bits(self.bits),
    {
        self.bits >> 63 == 1 && !(self.bits & ABS_MASK == 0)
            && !(self.bits & EXP_MASK == EXP_MASK && self.bits & FRAC_MASK != 0)
    }
}

} // verus!
