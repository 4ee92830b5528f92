//! Operands as bit patterns.

use vstd::prelude::*;

verus! {

/// A double-precision number, held as its IEEE 754 binary64 bit pattern:
/// the sign in bit 63, the exponent in bits 52 to 62, the fraction below.
///
/// Two operands are equal where their bits are, which is not the equality
/// of the numbers they encode: the two zeros differ, and a NaN equals itself.
#[derive(Clone, Copy, Debug, PartialEq, Eq, Structural)]
pub struct Operand {
    pub bits: u64,
}

/// The bit pattern of negative zero: the sign bit alone.
pub const NEGATIVE_ZERO_BITS: u64 = 0x8000_0000_0000_0000;

impl Operand {
    /// Whether the encoded number equals zero. Positive and negative zero
    /// do, and nothing else does, however small.
    pub open spec fn encodes_zero(self) -> bool {
        self.bits == 0 || self.bits == NEGATIVE_ZERO_BITS
    }

    /// The operand with the bit pattern `bits`.
    pub fn from_bits(bits: u64) -> (operand: Operand)
        ensures
            operand.bits == bits,
    {
        Operand { bits }
    }

    /// Tests the encoded number for equality with zero.
    pub fn is_zero(&self) -> (r: bool)
        ensures
            r == self.encodes_zero(),
    {
        self.bits == 0 || self.bits == NEGATIVE_ZERO_BITS
    }
}

} // verus!
