//! Exact operations on IEEE 754 binary64 bit patterns.
//!
//! A pattern has one sign bit, eleven exponent bits and fifty-two fraction
//! bits.  Clearing the sign bit yields the pattern of the absolute value, and
//! patterns of absolute values are ordered like the numbers they encode, with
//! every NaN above positive infinity.

use vstd::prelude::*;

verus! {

/// The sign bit; also the pattern of negative zero.
pub const SIGN_BIT: u64 = 0x8000_0000_0000_0000;

/// The pattern of positive infinity.
pub const INFINITY: u64 = 0x7ff0_0000_0000_0000;

/// The pattern of positive zero.
pub const ZERO: u64 = 0;

/// The pattern of `1.0`.
pub const ONE: u64 = 0x3ff0_0000_0000_0000;

/// The pattern of `bits` with its sign bit cleared.
pub open spec fn spec_magnitude(bits: u64) -> u64 {
    if bits >= SIGN_BIT {
        (bits - SIGN_BIT) as u64
    } else {
        bits
    }
}

/// Whether the sign bit of `bits` is set.
pub open spec fn spec_is_sign_negative(bits: u64) -> bool {
    bits >= SIGN_BIT
}

/// Whether `bits` encodes a NaN.
pub open spec fn spec_is_nan(bits: u64) -> bool {
    spec_magnitude(bits) > INFINITY
}

/// Whether `bits` encodes positive or negative zero.
pub open spec fn spec_is_zero(bits: u64) -> bool {
    spec_magnitude(bits) == 0
}

/// The pattern of `bits` with its sign bit flipped: the encoding of `-x`.
pub open spec fn spec_negate(bits: u64) -> u64 {
    if bits >= SIGN_BIT {
        (bits - SIGN_BIT) as u64
    } else {
        (bits + SIGN_BIT) as u64
    }
}

/// IEEE equality `a == b`: false when either side is NaN, true for two zeros
/// of any sign, and otherwise equality of the patterns.
pub open spec fn spec_float_eq(a: u64, b: u64) -> bool {
    &&& !spec_is_nan(a)
    &&& !spec_is_nan(b)
    &&& (a == b || (spec_is_zero(a) && spec_is_zero(b)))
}

/// IEEE comparison `x >= 0.0`: false for NaN, true for both zeros, and
/// otherwise true exactly when the sign bit is clear.
pub open spec fn spec_is_nonnegative(bits: u64) -> bool {
    &&& !spec_is_nan(bits)
    &&& (!spec_is_sign_negative(bits) || spec_is_zero(bits))
}

#[verifier::when_used_as_spec(spec_magnitude)]
pub fn magnitude(bits: u64) -> (r: u64)
    ensures
        r == spec_magnitude(bits),
{
    if bits >= SIGN_BIT {
        bits - SIGN_BIT
    } else {
        bits
    }
}

#[verifier::when_used_as_spec(spec_is_sign_negative)]
pub fn is_sign_negative(bits: u64) -> (r: bool)
    ensures
        r == spec_is_sign_negative(bits),
{
    bits >= SIGN_BIT
}

#[verifier::when_used_as_spec(spec_is_nan)]
pub fn is_nan(bits: u64) -> (r: bool)
    ensures
        r == spec_is_nan(bits),
{
    magnitude(bits) > INFINITY
}

#[verifier::when_used_as_spec(spec_is_zero)]
pub fn is_zero(bits: u64) -> (r: bool)
    ensures
        r == spec_is_zero(bits),
{
    magnitude(bits) == 0
}

#[verifier::when_used_as_spec(spec_negate)]
pub fn negate(bits: u64) -> (r: u64)
    ensures
        r == spec_negate(bits),
{
    if bits >= SIGN_BIT {
        bits - SIGN_BIT
    } else {
        bits + SIGN_BIT
    }
}

#[verifier::when_used_as_spec(spec_float_eq)]
pub fn float_eq(a: u64, b: u64) -> (r: bool)
    ensures
        r == spec_float_eq(a, b),
{
    !is_nan(a) && !is_nan(b) && (a == b || (is_zero(a) && is_zero(b)))
}

#[verifier::when_used_as_spec(spec_is_nonnegative)]
pub fn is_nonnegative(bits: u64) -> (r: bool)
    ensures
        r == spec_is_nonnegative(bits),
{
    !is_nan(bits) && (!is_sign_negative(bits) || is_zero(bits))
}

/// Negating twice restores the pattern.
pub proof fn lemma_negate_involution(bits: u64)
    ensures
        spec_negate(spec_negate(bits)) == bits,
{
}

/// Negation changes the sign bit and nothing else: the magnitude stays, so
/// a NaN stays a NaN and a zero stays a zero.
pub proof fn lemma_negate_flips_sign_only(bits: u64)
    ensures
        spec_magnitude(spec_negate(bits)) == spec_magnitude(bits),
        spec_is_sign_negative(spec_negate(bits)) == !spec_is_sign_negative(bits),
        spec_is_nan(spec_negate(bits)) == spec_is_nan(bits),
        spec_is_zero(spec_negate(bits)) == spec_is_zero(bits),
{
}

/// A value equals its own negation exactly when it is a zero.
pub proof fn lemma_equal_to_own_negation(bits: u64)
    ensures
        spec_float_eq(bits, spec_negate(bits)) <==> spec_is_zero(bits),
{
}

/// IEEE equality is symmetric, and it holds between a value and itself
/// exactly when the value is not a NaN.
pub proof fn lemma_float_eq_properties(a: u64, b: u64)
    ensures
        spec_float_eq(a, b) == spec_float_eq(b, a),
        spec_float_eq(a, a) == !spec_is_nan(a),
{
}

} // verus!
