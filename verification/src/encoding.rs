//! What the library reads off the binary64 encoding of a value.
//!
//! A payload is the 64-bit word that IEEE 754 gives a binary64 number: the
//! sign in the top bit, then eleven bits of exponent, then the fraction.  Among
//! the words with a clear sign bit, those below `0x7FF0_0000_0000_0000` are
//! the numbers from zero upwards, and a greater number has the greater word.
//! Every other word is a negative number, an infinity or no number at all, and
//! lies above all of them.  So a test of a value against two positive bounds
//! is a test of its word against the bounds' words, and this is how the
//! thresholds of the library's rules are stated here.
use vstd::prelude::*;

verus! {

/// The encoding of 1.
pub const ONE: u64 = 0x3FF0_0000_0000_0000;

/// The encoding of 1000.
pub const ONE_THOUSAND: u64 = 0x408F_4000_0000_0000;

/// The encoding of the binary64 number nearest to 0.0001.
pub const TOLERANCE_LOW: u64 = 0x3F1A_36E2_EB1C_432D;

/// The encoding of the binary64 number nearest to 0.9999.
pub const TOLERANCE_HIGH: u64 = 0x3FEF_FF2E_48E8_A71E;

/// Every bit of an encoding but the sign.
pub const MAGNITUDE_BITS: u64 = 0x7FFF_FFFF_FFFF_FFFF;

/// The encoding of the absolute value: the same word with a clear sign bit.
#[verifier::allow_in_spec]
pub fn magnitude(v: u64) -> u64
    returns
        v & MAGNITUDE_BITS,
{
    v & MAGNITUDE_BITS
}

/// Whether `v` encodes zero, of either sign.
#[verifier::allow_in_spec]
pub fn is_zero(v: u64) -> bool
    returns
        v & MAGNITUDE_BITS == 0,
{
    v & MAGNITUDE_BITS == 0
}

/// Whether `q` encodes a value in the half-open range from 1 to 1000, the
/// range into which a metric prefix brings a value.
#[verifier::allow_in_spec]
pub fn in_prefix_range(q: u64) -> bool
    returns
        ONE <= q < ONE_THOUSAND,
{
    ONE <= q && q < ONE_THOUSAND
}

/// Whether a fractional part with the encoding `f` is close enough to a whole
/// number: not strictly between 0.0001 and 0.9999.
#[verifier::allow_in_spec]
pub fn settled(f: u64) -> bool
    returns
        !(TOLERANCE_LOW < f < TOLERANCE_HIGH),
{
    !(TOLERANCE_LOW < f && f < TOLERANCE_HIGH)
}

} // verus!
