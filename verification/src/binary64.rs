//! Classification of IEEE-754 binary64 values by their bit patterns.
//!
//! The engine stores every real quantity as the 64-bit pattern of a double:
//! one sign bit, eleven exponent bits and fifty-two fraction bits. Comparing
//! patterns is exact, so two states are equal here precisely when they are
//! bit-identical.

use vstd::prelude::*;

verus! {

/// Pattern of positive infinity: all exponent bits set, no fraction bit set.
pub const POSITIVE_INFINITY: u64 = 0x7ff0_0000_0000_0000;

/// Mask that clears the sign bit of a pattern.
pub const MAGNITUDE_MASK: u64 = 0x7fff_ffff_ffff_ffff;

/// The sign bit of a pattern: `true` for negative values (and negative zero).
pub open spec fn sign_bit(bits: u64) -> bool {
    (bits >> 63) == 1
}

/// The eleven-bit biased exponent field of a pattern.
pub open spec fn exponent_field(bits: u64) -> u64 {
    (bits >> 52) & 0x7ff
}

/// The fifty-two-bit fraction field of a pattern.
pub open spec fn fraction_field(bits: u64) -> u64 {
    bits & 0x000f_ffff_ffff_ffff
}

/// A pattern is finite (zero, subnormal or normal) unless every exponent bit
/// is set; those patterns encode the infinities and the NaNs.
pub open spec fn finite(bits: u64) -> bool {
    exponent_field(bits) != 0x7ff
}

/// A pattern encodes a positive real number when its sign bit is clear, it is
/// finite, and it is not zero.
pub open spec fn positive_real(bits: u64) -> bool {
    &&& !sign_bit(bits)
    &&& finite(bits)
    &&& (exponent_field(bits) != 0 || fraction_field(bits) != 0)
}

/// Positive reals are exactly the patterns strictly between positive zero and
/// positive infinity.
pub proof fn lemma_positive_real_range(bits: u64)
    ensures
        positive_real(bits) <==> 0 < bits < POSITIVE_INFINITY,
{
    assert(((bits >> 63) != 1 && ((bits >> 52) & 0x7ff) != 0x7ff && (((bits >> 52) & 0x7ff) != 0
        || (bits & 0x000f_ffff_ffff_ffff) != 0)) <==> (0 < bits && bits < 0x7ff0_0000_0000_0000u64))
        by (bit_vector);
}

/// Whether `bits` encodes a finite value.
pub fn is_finite(bits: u64) -> (r: bool)
    ensures
        r == finite(bits),
{
    assert(((bits & 0x7fff_ffff_ffff_ffff) < 0x7ff0_0000_0000_0000u64) <==> ((bits >> 52) & 0x7ff)
        != 0x7ff) by (bit_vector);
    (bits & MAGNITUDE_MASK) < POSITIVE_INFINITY
}

/// Whether `bits` encodes a positive real number.
pub fn is_positive_real(bits: u64) -> (r: bool)
    ensures
        r == positive_real(bits),
{
    proof {
        lemma_positive_real_range(bits);
    }
    0 < bits && bits < POSITIVE_INFINITY
}

} // verus!
