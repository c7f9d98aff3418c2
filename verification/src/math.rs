//! Shared numeric utilities: the tolerance for approximate-equality tests
//! and the sine-to-cosine shortcut used inside rotation.

use vstd::prelude::*;

use crate::arith::{f64_mul, f64_sqrt, f64_sub, mul_bits, sqrt_bits, sub_bits};
use crate::ieee::{lemma_const_class, lemma_sign_only_is_zero, ONE_BITS, POS_ZERO};

verus! {

/// The bit pattern of the fixed tolerance 1.0e-8 used by all
/// `is_normalized` checks.
pub const EPSILON: u64 = 0x3E45_798E_E230_8C3A;

/// The bit pattern of the binary64 value nearest to pi.
pub const PI_BITS: u64 = 0x4009_21FB_5444_2D18;

/// The cosine magnitude derived from a sine: `sqrt(1 - sin^2)`.
pub open spec fn spec_cosq(sin_a: u64) -> u64 {
    sqrt_bits(sub_bits(ONE_BITS, mul_bits(sin_a, sin_a)))
}

/// Derives a cosine magnitude from the sine of an angle, as
/// `sqrt(1 - sin^2)`. This equals the true cosine only where that cosine is
/// non-negative; callers in the second or third quadrant get its magnitude.
/// A sine of exactly zero gives exactly 1.0.
pub fn cosq(sin_a: u64) -> (r: u64)
    ensures
        r == spec_cosq(sin_a),
        sin_a == POS_ZERO ==> r == ONE_BITS,
{
    proof {
        lemma_const_class();
        lemma_sign_only_is_zero(sin_a, sin_a);
    }
    let s2 = f64_mul(sin_a, sin_a);
    let d = f64_sub(ONE_BITS, s2);
    f64_sqrt(d)
}

} // verus!
