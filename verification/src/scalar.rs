//! Single-precision numbers, carried by their bit pattern.

use vstd::prelude::*;

verus! {

/// Bit pattern of `0.0`.
pub const ZERO: u32 = 0x0000_0000;

/// Bit pattern of `0.1`, rounded to the nearest single-precision number.
pub const TENTH: u32 = 0x3DCC_CCCD;

/// Bit pattern of `0.25`.
pub const QUARTER: u32 = 0x3E80_0000;

/// Bit pattern of `0.5`.
pub const HALF: u32 = 0x3F00_0000;

/// Bit pattern of `1.0`.
pub const ONE: u32 = 0x3F80_0000;

/// Bit pattern of the largest finite single-precision number.
pub const LARGEST: u32 = 0x7F7F_FFFF;

/// An IEEE 754 binary32 number, held as its 32 bits.
///
/// The panel never computes with the numbers that pass through it: it stores
/// them and hands them on. The bit pattern is therefore all it needs, and it
/// keeps every value exact, the NaNs and the signed zeros included.
#[derive(Clone, Copy, Debug, PartialEq, Eq, Structural)]
pub struct Scalar {
    pub bits: u32,
}

impl Scalar {
    /// The number whose bit pattern is `bits`.
    pub fn from_bits(bits: u32) -> (s: Scalar)
        ensures
            s == (Scalar { bits }),
    {
        Scalar { bits }
    }

    /// The bit pattern of the number.
    pub fn to_bits(self) -> (bits: u32)
        ensures
            bits == self.bits,
    {
        self.bits
    }
}

} // verus!
