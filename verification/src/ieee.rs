//! The bit-level model of IEEE-754 binary64 scalars.
//!
//! A scalar is a `u64` holding the bit pattern of a binary64 value: one sign
//! bit, eleven exponent bits, fifty-two fraction bits. Classification,
//! negation, absolute value, equality and order are exact functions of the
//! bit pattern, implemented and verified here without any trust.

use vstd::prelude::*;

verus! {

/// Mask of the sign bit of a binary64 bit pattern.
pub const SIGN_MASK: u64 = 0x8000_0000_0000_0000;

/// Mask of the exponent and fraction bits: the magnitude of the value.
pub const ABS_MASK: u64 = 0x7FFF_FFFF_FFFF_FFFF;

/// Exponent field all ones, fraction zero: the bit pattern of positive
/// infinity. Magnitudes above it are NaN, magnitudes below it are finite.
pub const INF_BITS: u64 = 0x7FF0_0000_0000_0000;

/// The bit pattern of positive zero.
pub const POS_ZERO: u64 = 0x0000_0000_0000_0000;

/// The bit pattern of negative zero.
pub const NEG_ZERO: u64 = 0x8000_0000_0000_0000;

/// The bit pattern of 1.0.
pub const ONE_BITS: u64 = 0x3FF0_0000_0000_0000;

/// The bit pattern of 2.0.
pub const TWO_BITS: u64 = 0x4000_0000_0000_0000;

/// The magnitude of a value: its bit pattern with the sign bit cleared.
pub open spec fn mag_bits(a: u64) -> u64 {
    a & ABS_MASK
}

/// Whether the sign bit is set, i.e. the value is negative, a negative zero,
/// or a NaN with the sign bit set.
pub open spec fn sign_bit(a: u64) -> bool {
    a & SIGN_MASK == SIGN_MASK
}

/// A bit pattern is NaN exactly when its magnitude lies above infinity's:
/// exponent all ones and a non-zero fraction.
pub open spec fn is_nan(a: u64) -> bool {
    mag_bits(a) > INF_BITS
}

/// A bit pattern of positive or negative infinity.
pub open spec fn is_inf(a: u64) -> bool {
    mag_bits(a) == INF_BITS
}

/// A bit pattern of positive or negative zero.
pub open spec fn is_zero(a: u64) -> bool {
    mag_bits(a) == 0
}

/// A finite value: neither infinite nor NaN.
pub open spec fn is_finite(a: u64) -> bool {
    mag_bits(a) < INF_BITS
}

/// IEEE-754 negation flips the sign bit and nothing else.
pub open spec fn neg_bits(a: u64) -> u64 {
    a ^ SIGN_MASK
}

/// IEEE-754 equality on bit patterns: NaN equals nothing, the two zeros are
/// equal, and every other value has a unique bit pattern.
pub open spec fn float_eq(a: u64, b: u64) -> bool {
    &&& !is_nan(a)
    &&& !is_nan(b)
    &&& (a == b || (is_zero(a) && is_zero(b)))
}

/// IEEE-754 strict order on bit patterns: NaN compares below nothing, the two
/// zeros are equal, and otherwise the order is the sign-magnitude order.
pub open spec fn float_lt(a: u64, b: u64) -> bool {
    &&& !is_nan(a)
    &&& !is_nan(b)
    &&& if sign_bit(a) && !sign_bit(b) {
        !(is_zero(a) && is_zero(b))
    } else if !sign_bit(a) && sign_bit(b) {
        false
    } else if !sign_bit(a) {
        mag_bits(a) < mag_bits(b)
    } else {
        mag_bits(a) > mag_bits(b)
    }
}

/// IEEE-754 non-strict order: strictly below or equal.
pub open spec fn float_le(a: u64, b: u64) -> bool {
    float_lt(a, b) || float_eq(a, b)
}

/// Negation of a binary64 value, exact: the sign bit flips.
pub fn f64_neg(a: u64) -> (r: u64)
    ensures
        r == neg_bits(a),
{
    a ^ SIGN_MASK
}

/// Absolute value of a binary64 value, exact: the sign bit clears.
pub fn f64_abs(a: u64) -> (r: u64)
    ensures
        r == mag_bits(a),
{
    a & ABS_MASK
}

/// Whether a bit pattern is NaN.
pub fn f64_is_nan(a: u64) -> (r: bool)
    ensures
        r == is_nan(a),
{
    a & ABS_MASK > INF_BITS
}

/// IEEE-754 equality of two binary64 values, decided on the bit patterns.
pub fn f64_eq(a: u64, b: u64) -> (r: bool)
    ensures
        r == float_eq(a, b),
{
    let ma: u64 = a & ABS_MASK;
    let mb: u64 = b & ABS_MASK;
    ma <= INF_BITS && mb <= INF_BITS && (a == b || (ma == 0 && mb == 0))
}

/// IEEE-754 strict order of two binary64 values, decided on the bit patterns.
pub fn f64_lt(a: u64, b: u64) -> (r: bool)
    ensures
        r == float_lt(a, b),
{
    let ma: u64 = a & ABS_MASK;
    let mb: u64 = b & ABS_MASK;
    if ma > INF_BITS || mb > INF_BITS {
        false
    } else {
        let neg_a: bool = a & SIGN_MASK == SIGN_MASK;
        let neg_b: bool = b & SIGN_MASK == SIGN_MASK;
        if neg_a && !neg_b {
            !(ma == 0 && mb == 0)
        } else if !neg_a && neg_b {
            false
        } else if !neg_a {
            ma < mb
        } else {
            ma > mb
        }
    }
}

/// IEEE-754 non-strict order of two binary64 values.
pub fn f64_le(a: u64, b: u64) -> (r: bool)
    ensures
        r == float_le(a, b),
{
    f64_lt(a, b) || f64_eq(a, b)
}

/// A zero bit pattern is one of the two zeros.
pub proof fn lemma_zero_forms(a: u64)
    ensures
        is_zero(a) ==> a == POS_ZERO || a == NEG_ZERO,
{
    assert(a & 0x7FFF_FFFF_FFFF_FFFF == 0 ==> a == 0 || a == 0x8000_0000_0000_0000)
        by (bit_vector);
}

/// Negation keeps the magnitude, so it keeps every classification.
pub proof fn lemma_neg_mag(a: u64)
    ensures
        mag_bits(neg_bits(a)) == mag_bits(a),
{
    assert((a ^ 0x8000_0000_0000_0000) & 0x7FFF_FFFF_FFFF_FFFF == a & 0x7FFF_FFFF_FFFF_FFFF)
        by (bit_vector);
}

/// Classification of the fixed bit patterns the algebra uses.
pub proof fn lemma_const_class()
    ensures
        is_zero(POS_ZERO),
        !is_nan(POS_ZERO),
        !is_inf(POS_ZERO),
        is_zero(NEG_ZERO),
        !is_nan(NEG_ZERO),
        !is_inf(NEG_ZERO),
        !is_nan(ONE_BITS),
        !is_inf(ONE_BITS),
        !is_zero(ONE_BITS),
        is_finite(ONE_BITS),
        neg_bits(POS_ZERO) == NEG_ZERO,
        neg_bits(NEG_ZERO) == POS_ZERO,
{
    assert(0u64 & 0x7FFF_FFFF_FFFF_FFFF == 0) by (bit_vector);
    assert(0x8000_0000_0000_0000u64 & 0x7FFF_FFFF_FFFF_FFFF == 0) by (bit_vector);
    assert(0x3FF0_0000_0000_0000u64 & 0x7FFF_FFFF_FFFF_FFFF == 0x3FF0_0000_0000_0000u64)
        by (bit_vector);
    assert(0u64 ^ 0x8000_0000_0000_0000 == 0x8000_0000_0000_0000u64) by (bit_vector);
    assert(0x8000_0000_0000_0000u64 ^ 0x8000_0000_0000_0000 == 0u64) by (bit_vector);
}

/// Keeping only the sign bit of any pattern gives one of the two zeros.
pub proof fn lemma_sign_only_is_zero(a: u64, b: u64)
    ensures
        is_zero((a ^ b) & SIGN_MASK),
{
    assert(((a ^ b) & 0x8000_0000_0000_0000) & 0x7FFF_FFFF_FFFF_FFFF == 0) by (bit_vector);
}

/// The bitwise and of a zero pattern with anything is a zero pattern.
pub proof fn lemma_zero_and(a: u64, b: u64)
    ensures
        is_zero(a) ==> is_zero(a & b),
{
    assert(a & 0x7FFF_FFFF_FFFF_FFFF == 0 ==> (a & b) & 0x7FFF_FFFF_FFFF_FFFF == 0)
        by (bit_vector);
}

} // verus!
