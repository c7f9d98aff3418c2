//! Mathematical vectors in two-dimensional space.
//!
//! Each component holds the bit pattern of an IEEE-754 binary64 value, so
//! every contract can name the exact bit pattern an operation returns.

use vstd::prelude::*;

use crate::arith::{
    add_bits, atan_bits, cos_bits, div_bits, f64_add, f64_atan, f64_cos, f64_div, f64_mul,
    f64_sin, f64_sqrt, f64_sub, lemma_swapped_square, mul_bits, sin_bits, sqrt_bits, sub_bits,
};
use crate::ieee::{
    f64_abs, f64_eq, f64_le, f64_lt, f64_neg, float_eq, float_le, float_lt, is_finite, is_nan,
    is_zero, lemma_const_class, lemma_sign_only_is_zero, lemma_zero_and, mag_bits, neg_bits,
    sign_bit, ABS_MASK, ONE_BITS, POS_ZERO, TWO_BITS,
};
use crate::math::{EPSILON, PI_BITS};

verus! {

/// A planar vector. Each component is the bit pattern of a binary64 value.
#[derive(Copy, Clone, Debug)]
pub struct Vector2 {
    pub x: u64,
    pub y: u64,
}

/// Componentwise IEEE-754 equality of two planar vectors.
pub open spec fn float_eq2(a: Vector2, b: Vector2) -> bool {
    float_eq(a.x, b.x) && float_eq(a.y, b.y)
}

/// Both components are finite: neither NaN nor infinite.
pub open spec fn finite2(v: Vector2) -> bool {
    is_finite(v.x) && is_finite(v.y)
}

impl Vector2 {
    /// The squared magnitude, as the bit pattern `x*x + y*y`.
    pub open spec fn spec_magn_sq(self) -> u64 {
        add_bits(mul_bits(self.x, self.x), mul_bits(self.y, self.y))
    }

    /// The dot product, as the bit pattern `x1*x2 + y1*y2`.
    pub open spec fn spec_scalar(v1: Vector2, v2: Vector2) -> u64 {
        add_bits(mul_bits(v1.x, v2.x), mul_bits(v1.y, v2.y))
    }

    /// The planar cross term `x1*y2 - y1*x2`, whose vanishing means the
    /// vectors are collinear.
    pub open spec fn spec_cross_term(v1: Vector2, v2: Vector2) -> u64 {
        sub_bits(mul_bits(v1.x, v2.y), mul_bits(v1.y, v2.x))
    }

    /// The squared distance between the two vectors taken as points.
    pub open spec fn spec_dist_sq(v1: Vector2, v2: Vector2) -> u64 {
        add_bits(
            mul_bits(sub_bits(v1.x, v2.x), sub_bits(v1.x, v2.x)),
            mul_bits(sub_bits(v1.y, v2.y), sub_bits(v1.y, v2.y)),
        )
    }

    /// The reciprocal of the magnitude, the factor `normalize` scales by.
    pub open spec fn spec_inv_magn(self) -> u64 {
        div_bits(ONE_BITS, sqrt_bits(self.spec_magn_sq()))
    }

    pub fn new(x: u64, y: u64) -> (r: Self)
        ensures
            r.x == x,
            r.y == y,
    {
        Self { x, y }
    }

    /// Whether both components are exactly zero. A binary64 value equals
    /// zero exactly when its magnitude bits vanish, so this holds for
    /// positive and negative zero components and for nothing else.
    pub fn is_nullvector(&self) -> (r: bool)
        ensures
            r == (is_zero(self.x) && is_zero(self.y)),
    {
        self.x & ABS_MASK == 0 && self.y & ABS_MASK == 0
    }

    /// Whether the squared magnitude is within the fixed tolerance of 1.0.
    pub fn is_normalized(&self) -> (r: bool)
        ensures
            r == float_lt(mag_bits(sub_bits(ONE_BITS, self.spec_magn_sq())), EPSILON),
    {
        let diff = f64_sub(ONE_BITS, self.magn_sq());
        f64_lt(f64_abs(diff), EPSILON)
    }

    /// Whether one vector is a multiple of the other, decided as the exact
    /// vanishing of the planar cross term. The inputs are meant to be
    /// non-null vectors; on null vectors the term vanishes trivially.
    pub fn is_collinear(v1: &Self, v2: &Self) -> (r: bool)
        ensures
            r == float_eq(Self::spec_cross_term(*v1, *v2), POS_ZERO),
    {
        let c = f64_sub(f64_mul(v1.x, v2.y), f64_mul(v1.y, v2.x));
        f64_eq(c, POS_ZERO)
    }

    /// The dot product of two vectors. It does not depend on the operand
    /// order, except where a component pair is NaN on both sides.
    pub fn scalar(v1: &Self, v2: &Self) -> (r: u64)
        ensures
            r == Self::spec_scalar(*v1, *v2),
            (!is_nan(v1.x) || !is_nan(v2.x)) && (!is_nan(v1.y) || !is_nan(v2.y)) ==> r
                == Self::spec_scalar(*v2, *v1),
    {
        f64_add(f64_mul(v1.x, v2.x), f64_mul(v1.y, v2.y))
    }

    /// Scales the vector in place by the reciprocal of its magnitude. On a
    /// null vector the reciprocal is infinite and the components come out
    /// non-finite; guarding against that is the caller's responsibility.
    pub fn normalize(&mut self)
        ensures
            final(self).x == mul_bits(old(self).x, old(self).spec_inv_magn()),
            final(self).y == mul_bits(old(self).y, old(self).spec_inv_magn()),
    {
        let inv_magn = f64_div(ONE_BITS, self.magn());
        self.x = f64_mul(self.x, inv_magn);
        self.y = f64_mul(self.y, inv_magn);
    }

    /// The square of the magnitude, preferred internally wherever only a
    /// comparison is needed, since it takes no square root. On vectors
    /// without NaN components it is non-negative and not NaN.
    pub fn magn_sq(&self) -> (r: u64)
        ensures
            r == self.spec_magn_sq(),
            !is_nan(self.x) && !is_nan(self.y) ==> !is_nan(r) && !sign_bit(r),
    {
        f64_add(f64_mul(self.x, self.x), f64_mul(self.y, self.y))
    }

    /// The Euclidean magnitude. On vectors without NaN components it is
    /// non-negative and not NaN.
    pub fn magn(&self) -> (r: u64)
        ensures
            r == sqrt_bits(self.spec_magn_sq()),
            !is_nan(self.x) && !is_nan(self.y) ==> !is_nan(r) && !sign_bit(r),
    {
        f64_sqrt(self.magn_sq())
    }

    /// The squared distance between two vectors taken as points. It does
    /// not depend on the operand order where no component is NaN, and on
    /// finite inputs it is non-negative and not NaN.
    pub fn dist_sq(v1: &Self, v2: &Self) -> (r: u64)
        ensures
            r == Self::spec_dist_sq(*v1, *v2),
            !is_nan(v1.x) && !is_nan(v1.y) && !is_nan(v2.x) && !is_nan(v2.y) ==> r
                == Self::spec_dist_sq(*v2, *v1),
            finite2(*v1) && finite2(*v2) ==> !is_nan(r) && !sign_bit(r),
    {
        let dx = f64_sub(v1.x, v2.x);
        let dy = f64_sub(v1.y, v2.y);
        let sx = f64_mul(dx, dx);
        let sy = f64_mul(dy, dy);
        proof {
            if !is_nan(v1.x) && !is_nan(v1.y) && !is_nan(v2.x) && !is_nan(v2.y) {
                lemma_swapped_square(v1.x, v2.x, dx, sx);
                lemma_swapped_square(v1.y, v2.y, dy, sy);
            }
        }
        f64_add(sx, sy)
    }

    /// The distance between two vectors taken as points; symmetric in its
    /// operands where no component is NaN, and on finite inputs
    /// non-negative and not NaN.
    pub fn dist(v1: &Self, v2: &Self) -> (r: u64)
        ensures
            r == sqrt_bits(Self::spec_dist_sq(*v1, *v2)),
            !is_nan(v1.x) && !is_nan(v1.y) && !is_nan(v2.x) && !is_nan(v2.y) ==> r
                == sqrt_bits(Self::spec_dist_sq(*v2, *v1)),
            finite2(*v1) && finite2(*v2) ==> !is_nan(r) && !sign_bit(r),
    {
        f64_sqrt(Self::dist_sq(v1, v2))
    }

    /// Rescales the vector in place to the given magnitude if its own
    /// magnitude exceeds it; otherwise leaves it unchanged.
    pub fn clamp_max(&mut self, max: u64)
        ensures
            float_lt(max, sqrt_bits(old(self).spec_magn_sq())) ==> final(self).x == mul_bits(
                old(self).x,
                div_bits(max, sqrt_bits(old(self).spec_magn_sq())),
            ),
            float_lt(max, sqrt_bits(old(self).spec_magn_sq())) ==> final(self).y == mul_bits(
                old(self).y,
                div_bits(max, sqrt_bits(old(self).spec_magn_sq())),
            ),
            !float_lt(max, sqrt_bits(old(self).spec_magn_sq())) ==> *final(self) == *old(self),
    {
        let len = self.magn();
        if f64_lt(max, len) {
            let f = f64_div(max, len);
            self.x = f64_mul(self.x, f);
            self.y = f64_mul(self.y, f);
        }
    }

    /// Rescales the vector in place to the given magnitude if its own
    /// magnitude falls short of it; otherwise leaves it unchanged. On a
    /// null vector the rescaling divides by zero and the components come
    /// out non-finite.
    pub fn clamp_min(&mut self, min: u64)
        ensures
            float_lt(sqrt_bits(old(self).spec_magn_sq()), min) ==> final(self).x == mul_bits(
                old(self).x,
                div_bits(min, sqrt_bits(old(self).spec_magn_sq())),
            ),
            float_lt(sqrt_bits(old(self).spec_magn_sq()), min) ==> final(self).y == mul_bits(
                old(self).y,
                div_bits(min, sqrt_bits(old(self).spec_magn_sq())),
            ),
            !float_lt(sqrt_bits(old(self).spec_magn_sq()), min) ==> *final(self) == *old(self),
    {
        let len = self.magn();
        if f64_lt(len, min) {
            let f = f64_div(min, len);
            self.x = f64_mul(self.x, f);
            self.y = f64_mul(self.y, f);
        }
    }

    /// Linear interpolation `v1*(1-factor) + v2*factor`, defined for any
    /// factor, including extrapolation outside [0, 1]. A factor equal to
    /// zero, of either sign, returns `v1`, and a factor of exactly one
    /// returns `v2`, up to IEEE-754 equality, whenever the components are
    /// finite.
    pub fn lerp(v1: &Self, v2: &Self, factor: u64) -> (r: Self)
        ensures
            r.x == add_bits(
                mul_bits(v1.x, sub_bits(ONE_BITS, factor)),
                mul_bits(v2.x, factor),
            ),
            r.y == add_bits(
                mul_bits(v1.y, sub_bits(ONE_BITS, factor)),
                mul_bits(v2.y, factor),
            ),
            is_zero(factor) && finite2(*v1) && finite2(*v2) ==> float_eq2(r, *v1),
            factor == ONE_BITS && finite2(*v1) && finite2(*v2) ==> float_eq2(r, *v2),
    {
        let temp = f64_sub(ONE_BITS, factor);
        let px1 = f64_mul(v1.x, temp);
        let px2 = f64_mul(v2.x, factor);
        let py1 = f64_mul(v1.y, temp);
        let py2 = f64_mul(v2.y, factor);
        let rx = f64_add(px1, px2);
        let ry = f64_add(py1, py2);
        proof {
            lemma_const_class();
            lemma_sign_only_is_zero(v2.x, factor);
            lemma_sign_only_is_zero(v2.y, factor);
            lemma_sign_only_is_zero(v1.x, temp);
            lemma_sign_only_is_zero(v1.y, temp);
            lemma_zero_and(v1.x, px2);
            lemma_zero_and(v1.y, py2);
            lemma_zero_and(px1, v2.x);
            lemma_zero_and(py1, v2.y);
        }
        Self { x: rx, y: ry }
    }

    /// The signed angle from `v1` to `v2` in radians: the arc tangent of the
    /// orientation term over the dot term, corrected by quadrant. Undefined
    /// (non-finite intermediates) when the dot term is zero.
    pub fn angle_between(v1: &Self, v2: &Self) -> (r: u64)
        ensures
            r == spec_angle_between2(*v1, *v2),
    {
        let o = f64_sub(f64_mul(v1.y, v2.x), f64_mul(v1.x, v2.y));
        let a = f64_add(f64_mul(v1.x, v2.x), f64_mul(v1.y, v2.y));
        let res = f64_atan(f64_div(o, a));
        if f64_lt(o, POS_ZERO) {
            if f64_le(a, POS_ZERO) {
                f64_sub(PI_BITS, res)
            } else {
                f64_neg(res)
            }
        } else {
            if f64_lt(a, POS_ZERO) {
                f64_add(PI_BITS, res)
            } else {
                res
            }
        }
    }

    /// Rotation counter-clockwise by an angle in radians, via the true sine
    /// and cosine of the angle; exact for a rotation by either zero on
    /// finite vectors.
    pub fn rotate(&self, angle: u64) -> (r: Self)
        ensures
            r.x == sub_bits(
                mul_bits(self.x, cos_bits(angle)),
                mul_bits(self.y, sin_bits(angle)),
            ),
            r.y == add_bits(
                mul_bits(self.y, cos_bits(angle)),
                mul_bits(self.x, sin_bits(angle)),
            ),
            is_zero(angle) && finite2(*self) ==> float_eq2(r, *self),
    {
        let sin_a = f64_sin(angle);
        let cos_a = f64_cos(angle);
        let xc = f64_mul(self.x, cos_a);
        let ys = f64_mul(self.y, sin_a);
        let yc = f64_mul(self.y, cos_a);
        let xs = f64_mul(self.x, sin_a);
        let rx = f64_sub(xc, ys);
        let ry = f64_add(yc, xs);
        proof {
            lemma_const_class();
            lemma_sign_only_is_zero(self.y, sin_a);
            lemma_sign_only_is_zero(self.x, sin_a);
            lemma_zero_and(self.x, neg_bits(ys));
            lemma_zero_and(self.y, xs);
        }
        Self { x: rx, y: ry }
    }

    /// Rotation by exactly +90 degrees: a component swap with one sign
    /// flip, exact with no trigonometry.
    pub fn rotate_right(&self) -> (r: Self)
        ensures
            r.x == neg_bits(self.y),
            r.y == self.x,
    {
        Self { x: f64_neg(self.y), y: self.x }
    }

    /// Rotation by exactly -90 degrees, exact with no trigonometry.
    pub fn rotate_left(&self) -> (r: Self)
        ensures
            r.x == self.y,
            r.y == neg_bits(self.x),
    {
        Self { x: self.y, y: f64_neg(self.x) }
    }

    /// Reflection off a surface with normal `n0`: `self - 2*(self . n0)*n0`.
    /// The normal is meant to be normalized; the formula is applied to the
    /// given bits either way.
    pub fn reflect(&self, n0: &Self) -> (r: Self)
        ensures
            r.x == sub_bits(
                self.x,
                mul_bits(n0.x, mul_bits(TWO_BITS, Self::spec_scalar(*self, *n0))),
            ),
            r.y == sub_bits(
                self.y,
                mul_bits(n0.y, mul_bits(TWO_BITS, Self::spec_scalar(*self, *n0))),
            ),
    {
        let factor = f64_mul(TWO_BITS, Self::scalar(self, n0));
        let tx = f64_mul(n0.x, factor);
        let ty = f64_mul(n0.y, factor);
        Self { x: f64_sub(self.x, tx), y: f64_sub(self.y, ty) }
    }

    /// Componentwise sum.
    pub fn add(&self, other: &Self) -> (r: Self)
        ensures
            r.x == add_bits(self.x, other.x),
            r.y == add_bits(self.y, other.y),
    {
        Self { x: f64_add(self.x, other.x), y: f64_add(self.y, other.y) }
    }

    /// Componentwise difference.
    pub fn sub(&self, other: &Self) -> (r: Self)
        ensures
            r.x == sub_bits(self.x, other.x),
            r.y == sub_bits(self.y, other.y),
    {
        Self { x: f64_sub(self.x, other.x), y: f64_sub(self.y, other.y) }
    }

    /// Multiplication by a scalar.
    pub fn scale(&self, factor: u64) -> (r: Self)
        ensures
            r.x == mul_bits(self.x, factor),
            r.y == mul_bits(self.y, factor),
    {
        Self { x: f64_mul(self.x, factor), y: f64_mul(self.y, factor) }
    }

    /// Division by a scalar, computed as multiplication by the reciprocal.
    pub fn divide(&self, quotient: u64) -> (r: Self)
        ensures
            r.x == mul_bits(self.x, div_bits(ONE_BITS, quotient)),
            r.y == mul_bits(self.y, div_bits(ONE_BITS, quotient)),
    {
        let f = f64_div(ONE_BITS, quotient);
        Self { x: f64_mul(self.x, f), y: f64_mul(self.y, f) }
    }

    /// Componentwise negation, exact.
    pub fn negate(&self) -> (r: Self)
        ensures
            r.x == neg_bits(self.x),
            r.y == neg_bits(self.y),
    {
        Self { x: f64_neg(self.x), y: f64_neg(self.y) }
    }
}

/// The signed planar angle formula: `atan(o/a)` with quadrant correction,
/// where `o` is the orientation term and `a` the dot term.
pub open spec fn spec_angle_between2(v1: Vector2, v2: Vector2) -> u64 {
    let o = sub_bits(mul_bits(v1.y, v2.x), mul_bits(v1.x, v2.y));
    let a = add_bits(mul_bits(v1.x, v2.x), mul_bits(v1.y, v2.y));
    let res = atan_bits(div_bits(o, a));
    if float_lt(o, POS_ZERO) {
        if float_le(a, POS_ZERO) {
            sub_bits(PI_BITS, res)
        } else {
            neg_bits(res)
        }
    } else {
        if float_lt(a, POS_ZERO) {
            add_bits(PI_BITS, res)
        } else {
            res
        }
    }
}

impl PartialEq for Vector2 {
    /// Componentwise IEEE-754 equality: NaN components make vectors unequal
    /// to everything, and zero components compare equal whatever their sign.
    fn eq(&self, other: &Vector2) -> (r: bool) {
        f64_eq(self.x, other.x) && f64_eq(self.y, other.y)
    }
}

impl vstd::std_specs::cmp::PartialEqSpecImpl for Vector2 {
    open spec fn obeys_eq_spec() -> bool {
        true
    }

    open spec fn eq_spec(&self, other: &Vector2) -> bool {
        float_eq2(*self, *other)
    }
}

impl Default for Vector2 {
    /// The null vector: both components positive zero.
    fn default() -> (r: Self)
        ensures
            r.x == POS_ZERO,
            r.y == POS_ZERO,
    {
        Self { x: POS_ZERO, y: POS_ZERO }
    }
}

} // verus!
