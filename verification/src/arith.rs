//! Rounded IEEE-754 binary64 arithmetic over bit patterns.
//!
//! Addition, multiplication, division, square root and the trigonometric
//! functions are not bit manipulations: their results take a full
//! arithmetic implementation. They are obtained from software IEEE-754
//! implementations (`const_soft_float`, `libm`) that work purely on the bit
//! patterns, so each result is a deterministic function of its argument bits;
//! the uninterpreted spec functions below name those results, and the trusted
//! wrappers state the special cases that the implementations' sources show.

use vstd::prelude::*;

use const_soft_float::soft_f64::SoftF64;
use crate::ieee::{
    is_finite, is_inf, is_nan, is_zero, neg_bits, sign_bit, ONE_BITS, POS_ZERO, SIGN_MASK,
};

verus! {

/// The bit pattern of the IEEE-754 binary64 sum of two bit patterns,
/// rounded to nearest, ties to even.
pub uninterp spec fn add_bits(a: u64, b: u64) -> u64;

/// The bit pattern of the rounded binary64 product of two bit patterns.
pub uninterp spec fn mul_bits(a: u64, b: u64) -> u64;

/// The bit pattern of the rounded binary64 quotient of two bit patterns.
pub uninterp spec fn div_bits(a: u64, b: u64) -> u64;

/// The bit pattern of the correctly rounded binary64 square root.
pub uninterp spec fn sqrt_bits(a: u64) -> u64;

/// The bit pattern of the binary64 sine, as the software implementation
/// computes it: a fixed function of the argument bits.
pub uninterp spec fn sin_bits(a: u64) -> u64;

/// The bit pattern of the binary64 cosine, as the software implementation
/// computes it: a fixed function of the argument bits.
pub uninterp spec fn cos_bits(a: u64) -> u64;

/// The bit pattern of the binary64 arc tangent, as the software
/// implementation computes it.
pub uninterp spec fn atan_bits(a: u64) -> u64;

/// The bit pattern of the binary64 arc cosine, as the software
/// implementation computes it.
pub uninterp spec fn acos_bits(a: u64) -> u64;

/// Binary64 subtraction is addition of the negated second operand.
pub open spec fn sub_bits(a: u64, b: u64) -> u64 {
    add_bits(a, neg_bits(b))
}

/// Relies on `const_soft_float`'s `SoftF64::add`: IEEE-754 binary64 addition
/// on the bit patterns, rounded to nearest even. Its source also shows: the
/// result does not depend on the operand order unless both operands are NaN;
/// a NaN operand gives a NaN result; adding a zero to a non-NaN returns it
/// (two zeros combine their signs by `&`); a finite value plus its own
/// negation returns positive zero; the sum of two non-negative non-NaN
/// values is non-negative and not NaN.
#[verifier::external_body]
pub(crate) fn f64_add(a: u64, b: u64) -> (r: u64)
    ensures
        r == add_bits(a, b),
        !is_nan(a) || !is_nan(b) ==> r == add_bits(b, a),
        is_nan(a) || is_nan(b) ==> is_nan(r),
        !is_nan(a) && is_zero(b) ==> r == (if is_zero(a) { a & b } else { a }),
        is_zero(a) && !is_nan(b) ==> r == (if is_zero(b) { a & b } else { b }),
        !is_nan(a) && !is_inf(a) && b == neg_bits(a) ==> r == POS_ZERO,
        !is_nan(a) && !is_nan(b) && !sign_bit(a) && !sign_bit(b) ==> !is_nan(r) && !sign_bit(r),
{
    SoftF64::from_bits(a).add(SoftF64::from_bits(b)).to_bits()
}

/// Relies on `const_soft_float`'s `SoftF64::sub`, whose source is
/// `self.add(rhs.neg())` with `neg` a sign-bit flip. Beyond the special
/// cases mirrored from `add`, its source shows: a NaN operand gives a NaN
/// result, two finite operands never do, and the difference relates to the
/// swapped difference: outside NaN operands the two are negations of one
/// another, or both zero, or the same NaN produced by an invalid operation.
#[verifier::external_body]
pub(crate) fn f64_sub(a: u64, b: u64) -> (r: u64)
    ensures
        r == sub_bits(a, b),
        is_nan(a) || is_nan(b) ==> is_nan(r),
        is_finite(a) && is_finite(b) ==> !is_nan(r),
        !is_nan(a) && is_zero(b) ==> r == (if is_zero(a) { a & neg_bits(b) } else { a }),
        !is_nan(a) && !is_inf(a) && b == a ==> r == POS_ZERO,
        !is_nan(a) && !is_nan(b) ==> ((!is_nan(r) && sub_bits(b, a) == neg_bits(r))
            || (is_zero(r) && is_zero(sub_bits(b, a)))
            || (is_nan(r) && sub_bits(b, a) == r)),
{
    SoftF64::from_bits(a).sub(SoftF64::from_bits(b)).to_bits()
}

/// Relies on `const_soft_float`'s `SoftF64::mul`: IEEE-754 binary64
/// multiplication on the bit patterns, rounded to nearest even. Its source
/// also shows: the result does not depend on the operand order unless both
/// operands are NaN; a NaN operand gives a NaN result; negating both
/// operands leaves the product unchanged; a finite value times a zero is
/// the zero whose sign is the exclusive or of the operand signs; a non-NaN
/// value times 1.0 is itself; a non-NaN value times itself is non-negative
/// and not NaN.
#[verifier::external_body]
pub(crate) fn f64_mul(a: u64, b: u64) -> (r: u64)
    ensures
        r == mul_bits(a, b),
        !is_nan(a) || !is_nan(b) ==> r == mul_bits(b, a),
        is_nan(a) || is_nan(b) ==> is_nan(r),
        !is_nan(a) && !is_nan(b) ==> r == mul_bits(neg_bits(a), neg_bits(b)),
        !is_nan(a) && !is_inf(a) && is_zero(b) ==> r == ((a ^ b) & SIGN_MASK),
        !is_nan(a) && b == ONE_BITS ==> r == a,
        !is_nan(a) && b == a ==> !is_nan(r) && !sign_bit(r),
{
    SoftF64::from_bits(a).mul(SoftF64::from_bits(b)).to_bits()
}

/// Relies on `const_soft_float`'s `SoftF64::div`: IEEE-754 binary64 division
/// on the bit patterns, rounded to nearest even.
#[verifier::external_body]
pub(crate) fn f64_div(a: u64, b: u64) -> (r: u64)
    ensures
        r == div_bits(a, b),
{
    SoftF64::from_bits(a).div(SoftF64::from_bits(b)).to_bits()
}

/// Relies on `const_soft_float`'s `SoftF64::sqrt`: the correctly rounded
/// binary64 square root of the bit pattern. Its source also shows: the root
/// of 1.0 is 1.0 exactly, and the root of a non-negative non-NaN value is
/// non-negative and not NaN.
#[verifier::external_body]
pub(crate) fn f64_sqrt(a: u64) -> (r: u64)
    ensures
        r == sqrt_bits(a),
        a == ONE_BITS ==> r == ONE_BITS,
        !is_nan(a) && !sign_bit(a) ==> !is_nan(r) && !sign_bit(r),
{
    SoftF64::from_bits(a).sqrt().to_bits()
}

/// Relies on `const_soft_float`'s `SoftF64::sin`: a software binary64 sine,
/// a fixed function of the argument bits; its source returns arguments
/// below 2^-26 in magnitude unchanged, so the sine of either zero is that
/// zero.
#[verifier::external_body]
pub(crate) fn f64_sin(a: u64) -> (r: u64)
    ensures
        r == sin_bits(a),
        is_zero(a) ==> r == a,
{
    SoftF64::from_bits(a).sin().to_bits()
}

/// Relies on `const_soft_float`'s `SoftF64::cos`: a software binary64
/// cosine, a fixed function of the argument bits; its source returns
/// exactly 1.0 for arguments below 2^-27 times the root of two in
/// magnitude, so the cosine of either zero is exactly 1.0.
#[verifier::external_body]
pub(crate) fn f64_cos(a: u64) -> (r: u64)
    ensures
        r == cos_bits(a),
        is_zero(a) ==> r == ONE_BITS,
{
    SoftF64::from_bits(a).cos().to_bits()
}

/// Relies on `libm::atan`: a software binary64 arc tangent, a fixed
/// function of the argument bits.
#[verifier::external_body]
pub(crate) fn f64_atan(a: u64) -> (r: u64)
    ensures
        r == atan_bits(a),
{
    SoftF64::from_f64(libm::atan(SoftF64::from_bits(a).to_f64())).to_bits()
}

/// Relies on `libm::acos`: a software binary64 arc cosine, a fixed
/// function of the argument bits; every result its source returns lies in
/// [0, pi] or is NaN, so a result that is not NaN is not negative.
#[verifier::external_body]
pub(crate) fn f64_acos(a: u64) -> (r: u64)
    ensures
        r == acos_bits(a),
        !is_nan(r) ==> !sign_bit(r),
{
    SoftF64::from_f64(libm::acos(SoftF64::from_bits(a).to_f64())).to_bits()
}

/// The square of a difference does not depend on the order of the
/// subtraction: `(a-b)*(a-b)` and `(b-a)*(b-a)` are the same bit pattern
/// whenever `a` and `b` are not NaN. `d` and `s` are the computed
/// difference and its square, carrying the stated facts of those calls.
pub(crate) proof fn lemma_swapped_square(a: u64, b: u64, d: u64, s: u64)
    requires
        !is_nan(a),
        !is_nan(b),
        d == sub_bits(a, b),
        s == mul_bits(d, d),
        (!is_nan(d) && sub_bits(b, a) == neg_bits(d)) || (is_zero(d) && is_zero(sub_bits(b, a)))
            || (is_nan(d) && sub_bits(b, a) == d),
        !is_nan(d) ==> s == mul_bits(neg_bits(d), neg_bits(d)),
    ensures
        s == mul_bits(sub_bits(b, a), sub_bits(b, a)),
{
    let d2 = sub_bits(b, a);
    if !is_nan(d) && d2 == neg_bits(d) {
    } else if is_zero(d) && is_zero(d2) {
        crate::ieee::lemma_zero_forms(d);
        crate::ieee::lemma_zero_forms(d2);
        crate::ieee::lemma_const_class();
        if d2 != d {
            assert(d2 == neg_bits(d));
        }
    } else {
    }
}

} // verus!
