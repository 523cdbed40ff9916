//! The bit-level transform from an arbitrary 64-bit hash to the bit pattern of
//! a normal, finite, non-zero double.
//!
//! A double is laid out as one sign bit (63), eleven exponent bits (62..52) and
//! fifty-two mantissa bits (51..0). Zero and subnormals have an all-zero
//! exponent; infinities and NaNs have an all-one exponent; every other exponent
//! gives a normal finite value whatever the sign and mantissa hold.
use vstd::prelude::*;

verus! {

/// The two leading bits of the exponent field (bits 62 and 61).
pub const EXP_2: u64 = 0x6000_0000_0000_0000;

/// The leading bit of the exponent field (bit 62).
pub const EXP_1: u64 = 0x4000_0000_0000_0000;

/// Neither of the two leading exponent bits.
pub const EXP_0: u64 = 0;

/// The second exponent bit (bit 61).
pub const EXP_SECOND: u64 = 0x2000_0000_0000_0000;

/// The eleven-bit exponent field of a double's bit pattern.
pub open spec fn exponent_field(b: u64) -> u64 {
    (b >> 52u64) & 0x7ffu64
}

/// The fifty-two-bit mantissa field of a double's bit pattern.
pub open spec fn mantissa_field(b: u64) -> u64 {
    b & 0x000f_ffff_ffff_ffffu64
}

/// The pattern is +0.0 or -0.0.
pub open spec fn is_zero_bits(b: u64) -> bool {
    exponent_field(b) == 0 && mantissa_field(b) == 0
}

/// The pattern is a (positive or negative) subnormal.
pub open spec fn is_subnormal_bits(b: u64) -> bool {
    exponent_field(b) == 0 && mantissa_field(b) != 0
}

/// The pattern is +Infinity or -Infinity.
pub open spec fn is_infinite_bits(b: u64) -> bool {
    exponent_field(b) == 0x7ff && mantissa_field(b) == 0
}

/// The pattern is a NaN, quiet or signalling.
pub open spec fn is_nan_bits(b: u64) -> bool {
    exponent_field(b) == 0x7ff && mantissa_field(b) != 0
}

/// The pattern is a normal, finite, non-zero double.
pub open spec fn is_normal_bits(b: u64) -> bool {
    !is_zero_bits(b) && !is_subnormal_bits(b) && !is_infinite_bits(b) && !is_nan_bits(b)
}

/// The transform: the leading exponent bit becomes the negation of the
/// second one, and every other bit is kept. The two leading exponent bits
/// then always differ, so the exponent is neither all zero nor all one.
pub open spec fn safe_bits(hash: u64) -> u64 {
    (hash & !EXP_1) | (if hash & EXP_SECOND == 0 { EXP_1 } else { 0 })
}

/// Maps any 64-bit hash to a pattern that reads as a normal, finite, non-zero
/// double, changing at most the leading exponent bit.
pub fn hash_63_bits(hash: u64) -> (r: u64)
    ensures
        r == safe_bits(hash),
        is_normal_bits(r),
        r != 0,
        r & !EXP_1 == hash & !EXP_1,
{
    proof {
        lemma_result_is_normal(hash);
        lemma_only_leading_exponent_bit_changes(hash);
        lemma_window_cases(hash);
    }
    let masked = hash & EXP_2;
    if masked == EXP_0 {
        hash | EXP_1
    } else if masked == EXP_2 {
        hash ^ EXP_1
    } else {
        hash
    }
}

/// Every output of the transform reads as a double that is not ±0.0, not a
/// subnormal, not ±Infinity and not NaN; in particular it is not all zero.
pub proof fn lemma_result_is_normal(hash: u64)
    ensures
        is_normal_bits(safe_bits(hash)),
        safe_bits(hash) != 0,
{
    let r = safe_bits(hash);
    assert(((r >> 52u64) & 0x7ffu64) != 0 && ((r >> 52u64) & 0x7ffu64) != 0x7ff) by (bit_vector)
        requires
            r == (hash & !0x4000_0000_0000_0000u64) | (if hash & 0x2000_0000_0000_0000u64 == 0 {
                0x4000_0000_0000_0000u64
            } else {
                0u64
            }),
    ;
    assert(((r >> 52u64) & 0x7ffu64) != 0 ==> r != 0) by (bit_vector);
}

/// Read through the window of the two leading exponent bits, the transform
/// sets the first where both are clear, clears it where both are set, and
/// otherwise changes nothing.
proof fn lemma_window_cases(hash: u64)
    ensures
        hash & EXP_2 == EXP_0 ==> safe_bits(hash) == hash | EXP_1,
        hash & EXP_2 == EXP_2 ==> safe_bits(hash) == hash ^ EXP_1,
        hash & EXP_2 != EXP_0 && hash & EXP_2 != EXP_2 ==> safe_bits(hash) == hash,
{
    let r = safe_bits(hash);
    assert(
        (hash & 0x6000_0000_0000_0000u64 == 0 ==> r == hash | 0x4000_0000_0000_0000u64)
        && (hash & 0x6000_0000_0000_0000u64 == 0x6000_0000_0000_0000u64
            ==> r == hash ^ 0x4000_0000_0000_0000u64)
        && (hash & 0x6000_0000_0000_0000u64 != 0
            && hash & 0x6000_0000_0000_0000u64 != 0x6000_0000_0000_0000u64 ==> r == hash)
    ) by (bit_vector)
        requires
            r == (hash & !0x4000_0000_0000_0000u64) | (if hash & 0x2000_0000_0000_0000u64 == 0 {
                0x4000_0000_0000_0000u64
            } else {
                0u64
            }),
    ;
}

/// Where the two leading exponent bits differ, the hash already reads as a
/// normal finite double and the transform returns it unchanged.
pub proof fn lemma_identity_on_mixed_window(hash: u64)
    requires
        hash & EXP_2 != EXP_0,
        hash & EXP_2 != EXP_2,
    ensures
        safe_bits(hash) == hash,
        is_normal_bits(hash),
{
    lemma_result_is_normal(hash);
    lemma_window_cases(hash);
}

/// The transform depends on its input alone: equal inputs give equal outputs.
pub proof fn lemma_deterministic(a: u64, b: u64)
    requires
        a == b,
    ensures
        safe_bits(a) == safe_bits(b),
{
}

/// The sign bit, the second and later exponent bits and the whole mantissa
/// pass through the transform untouched.
proof fn lemma_only_leading_exponent_bit_changes(hash: u64)
    ensures
        safe_bits(hash) & !EXP_1 == hash & !EXP_1,
{
    let r = safe_bits(hash);
    assert(r & !0x4000_0000_0000_0000u64 == hash & !0x4000_0000_0000_0000u64) by (bit_vector)
        requires
            r == (hash & !0x4000_0000_0000_0000u64) | (if hash & 0x2000_0000_0000_0000u64 == 0 {
                0x4000_0000_0000_0000u64
            } else {
                0u64
            }),
    ;
}

} // verus!
