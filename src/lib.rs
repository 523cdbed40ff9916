//! Re-encodes a 64-bit hash as the bit pattern of an IEEE-754 double that is
//! always normal, finite and non-zero, and wraps the result in a value tagged
//! with the logical type that was hashed.
//!
//! Floating-point values themselves never appear here: the library works on
//! the raw 64-bit pattern, and `f64::from_bits` of any pattern it produces is a
//! normal, finite, non-zero double.
mod bits;
mod float_hash;

pub use bits::{
    exponent_field, hash_63_bits, is_infinite_bits, is_nan_bits, is_normal_bits,
    is_subnormal_bits, is_zero_bits, lemma_deterministic, lemma_identity_on_mixed_window,
    lemma_result_is_normal, mantissa_field, safe_bits, EXP_0, EXP_1, EXP_2, EXP_SECOND,
};

pub use float_hash::{lemma_equal_iff_same_bits, FloatHashOf};
