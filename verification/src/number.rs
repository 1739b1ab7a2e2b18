//! Double-precision values carried as bit patterns.
//!
//! The state model stores and compares measured values without ever doing
//! arithmetic on them, so a value is held as the 64 bits of its IEEE-754
//! binary64 encoding: one sign bit, eleven exponent bits, fifty-two
//! fraction bits.

use vstd::prelude::*;

verus! {

/// Two to the power 52: the weight of the lowest exponent bit.
pub const FRACTION_SPAN: u64 = 0x10_0000_0000_0000;

/// Two to the power 63: the weight of the sign bit.
pub const SIGN_WEIGHT: u64 = 0x8000_0000_0000_0000;

/// The bit pattern of positive infinity, the largest pattern that is a
/// number with a clear sign bit.
pub const POSITIVE_INFINITY: u64 = 0x7FF0_0000_0000_0000;

/// A binary64 value, identified by its bit pattern.
#[derive(Clone, Copy, Debug, PartialEq, Eq, Structural)]
pub struct Binary64 {
    pub bits: u64,
}

impl Binary64 {
    /// The sign bit: set for negative values and for negative zero.
    pub open spec fn sign(self) -> bool {
        self.bits / SIGN_WEIGHT == 1
    }

    /// The biased exponent, from 0 to 2047.
    pub open spec fn exponent(self) -> nat {
        ((self.bits / FRACTION_SPAN) % 2048) as nat
    }

    /// The fraction field, below two to the power 52.
    pub open spec fn fraction(self) -> nat {
        (self.bits % FRACTION_SPAN) as nat
    }

    /// Not a number: the exponent is all ones and the fraction is not zero.
    pub open spec fn is_nan(self) -> bool {
        self.exponent() == 2047 && self.fraction() != 0
    }

    /// Positive or negative zero: exponent and fraction are both zero.
    pub open spec fn is_zero(self) -> bool {
        self.exponent() == 0 && self.fraction() == 0
    }

    /// The value compares greater than zero: it is a number, it is not a
    /// zero, and its sign bit is clear. Positive infinity is positive.
    pub open spec fn positive(self) -> bool {
        !self.sign() && !self.is_nan() && !self.is_zero()
    }

    /// Wraps a bit pattern.
    pub fn from_bits(bits: u64) -> (r: Binary64)
        ensures
            r.bits == bits,
    {
        Binary64 { bits }
    }

    /// The bit pattern of the value.
    pub fn to_bits(self) -> (r: u64)
        ensures
            r == self.bits,
    {
        self.bits
    }

    /// Decides whether the value compares greater than zero.
    pub fn is_positive(self) -> (r: bool)
        ensures
            r == self.positive(),
    {
        0 < self.bits && self.bits <= POSITIVE_INFINITY
    }
}

/// The positive values are exactly the bit patterns above zero up to and
/// including positive infinity.
pub proof fn lemma_positive_range(x: Binary64)
    ensures
        x.positive() <==> 0 < x.bits <= POSITIVE_INFINITY,
{
}

} // verus!
