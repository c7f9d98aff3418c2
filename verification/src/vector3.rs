//! Mathematical vectors in three-dimensional space.
//!
//! Each component holds the bit pattern of an IEEE-754 binary64 value, so
//! every contract can name the exact bit pattern an operation returns.

use vstd::prelude::*;

use crate::arith::{
    acos_bits, add_bits, cos_bits, div_bits, f64_acos, f64_add, f64_cos, f64_div, f64_mul,
    f64_sin, f64_sqrt, f64_sub, lemma_swapped_square, mul_bits, sin_bits, sqrt_bits, sub_bits,
};
use crate::ieee::{
    f64_abs, f64_eq, f64_lt, f64_neg, float_eq, float_lt, is_finite, is_nan, is_zero,
    lemma_const_class, lemma_neg_mag, lemma_sign_only_is_zero, lemma_zero_and, mag_bits,
    neg_bits, sign_bit, ABS_MASK, ONE_BITS, POS_ZERO, TWO_BITS,
};
use crate::math::EPSILON;
use crate::vector2::Vector2;

verus! {

/// A spatial vector. Each component is the bit pattern of a binary64 value.
#[derive(Copy, Clone, Debug)]
pub struct Vector3 {
    pub x: u64,
    pub y: u64,
    pub z: u64,
}

/// Componentwise IEEE-754 equality of two spatial vectors.
pub open spec fn float_eq3(a: Vector3, b: Vector3) -> bool {
    float_eq(a.x, b.x) && float_eq(a.y, b.y) && float_eq(a.z, b.z)
}

/// All three components are finite: neither NaN nor infinite.
pub open spec fn finite3(v: Vector3) -> bool {
    is_finite(v.x) && is_finite(v.y) && is_finite(v.z)
}

/// No component is NaN; infinite components are allowed.
pub open spec fn no_nan3(v: Vector3) -> bool {
    !is_nan(v.x) && !is_nan(v.y) && !is_nan(v.z)
}

impl Vector3 {
    /// The squared magnitude, as the bit pattern `x*x + y*y + z*z`.
    pub open spec fn spec_magn_sq(self) -> u64 {
        add_bits(
            add_bits(mul_bits(self.x, self.x), mul_bits(self.y, self.y)),
            mul_bits(self.z, self.z),
        )
    }

    /// The dot product, as the bit pattern `x1*x2 + y1*y2 + z1*z2`.
    pub open spec fn spec_scalar(v1: Vector3, v2: Vector3) -> u64 {
        add_bits(
            add_bits(mul_bits(v1.x, v2.x), mul_bits(v1.y, v2.y)),
            mul_bits(v1.z, v2.z),
        )
    }

    /// The cross product, componentwise.
    pub open spec fn spec_crossp(v1: Vector3, v2: Vector3) -> Vector3 {
        Vector3 {
            x: sub_bits(mul_bits(v1.y, v2.z), mul_bits(v1.z, v2.y)),
            y: sub_bits(mul_bits(v1.z, v2.x), mul_bits(v1.x, v2.z)),
            z: sub_bits(mul_bits(v1.x, v2.y), mul_bits(v1.y, v2.x)),
        }
    }

    /// The scalar triple product `(v1 x v2) . v3`, whose vanishing means
    /// the three vectors lie in a common plane through the origin.
    pub open spec fn spec_triple(v1: Vector3, v2: Vector3, v3: Vector3) -> u64 {
        add_bits(
            add_bits(
                mul_bits(Self::spec_crossp(v1, v2).x, v3.x),
                mul_bits(Self::spec_crossp(v1, v2).y, v3.y),
            ),
            mul_bits(Self::spec_crossp(v1, v2).z, v3.z),
        )
    }

    /// The squared distance between the two vectors taken as points.
    pub open spec fn spec_dist_sq(v1: Vector3, v2: Vector3) -> u64 {
        add_bits(
            add_bits(
                mul_bits(sub_bits(v1.x, v2.x), sub_bits(v1.x, v2.x)),
                mul_bits(sub_bits(v1.y, v2.y), sub_bits(v1.y, v2.y)),
            ),
            mul_bits(sub_bits(v1.z, v2.z), sub_bits(v1.z, v2.z)),
        )
    }

    /// The reciprocal of the magnitude, the factor `normalize` scales by.
    pub open spec fn spec_inv_magn(self) -> u64 {
        div_bits(ONE_BITS, sqrt_bits(self.spec_magn_sq()))
    }

    /// One component of the rotated vector of `rotate`: the Rodrigues
    /// formula `(axis x v)*sin + v*cos + axis*((axis . v)*(1 - cos))`.
    pub open spec fn spec_rotated(
        cross_c: u64,
        v_c: u64,
        n_c: u64,
        dot: u64,
        sin_a: u64,
        cos_a: u64,
    ) -> u64 {
        add_bits(
            add_bits(mul_bits(cross_c, sin_a), mul_bits(v_c, cos_a)),
            mul_bits(n_c, mul_bits(dot, sub_bits(ONE_BITS, cos_a))),
        )
    }

    pub fn new(x: u64, y: u64, z: u64) -> (r: Self)
        ensures
            r.x == x,
            r.y == y,
            r.z == z,
    {
        Self { x, y, z }
    }

    /// Whether all components are exactly zero. A binary64 value equals
    /// zero exactly when its magnitude bits vanish, so this holds for
    /// positive and negative zero components and for nothing else.
    pub fn is_nullvector(&self) -> (r: bool)
        ensures
            r == (is_zero(self.x) && is_zero(self.y) && is_zero(self.z)),
    {
        self.x & ABS_MASK == 0 && self.y & ABS_MASK == 0 && self.z & ABS_MASK == 0
    }

    /// Whether the squared magnitude is within the fixed tolerance of 1.0.
    pub fn is_normalized(&self) -> (r: bool)
        ensures
            r == float_lt(mag_bits(sub_bits(ONE_BITS, self.spec_magn_sq())), EPSILON),
    {
        let diff = f64_sub(ONE_BITS, self.magn_sq());
        f64_lt(f64_abs(diff), EPSILON)
    }

    /// Whether one vector is a multiple of the other, decided as the exact
    /// vanishing of every cross product component. The inputs are meant to
    /// be non-null vectors; on null vectors the product vanishes trivially.
    pub fn is_collinear(v1: &Self, v2: &Self) -> (r: bool)
        ensures
            r == (float_eq(Self::spec_crossp(*v1, *v2).x, POS_ZERO) && float_eq(
                Self::spec_crossp(*v1, *v2).y,
                POS_ZERO,
            ) && float_eq(Self::spec_crossp(*v1, *v2).z, POS_ZERO)),
    {
        let cx = f64_sub(f64_mul(v1.y, v2.z), f64_mul(v1.z, v2.y));
        let cy = f64_sub(f64_mul(v1.z, v2.x), f64_mul(v1.x, v2.z));
        let cz = f64_sub(f64_mul(v1.x, v2.y), f64_mul(v1.y, v2.x));
        f64_eq(cx, POS_ZERO) && f64_eq(cy, POS_ZERO) && f64_eq(cz, POS_ZERO)
    }

    /// Whether the three vectors lie in a common plane through the origin,
    /// decided as the exact vanishing of the scalar triple product. The
    /// inputs are meant to be non-null vectors.
    pub fn is_coplanar(v1: &Self, v2: &Self, v3: &Self) -> (r: bool)
        ensures
            r == float_eq(Self::spec_triple(*v1, *v2, *v3), POS_ZERO),
    {
        let cx = f64_sub(f64_mul(v1.y, v2.z), f64_mul(v1.z, v2.y));
        let cy = f64_sub(f64_mul(v1.z, v2.x), f64_mul(v1.x, v2.z));
        let cz = f64_sub(f64_mul(v1.x, v2.y), f64_mul(v1.y, v2.x));
        let t = f64_add(f64_add(f64_mul(cx, v3.x), f64_mul(cy, v3.y)), f64_mul(cz, v3.z));
        f64_eq(t, POS_ZERO)
    }

    /// The dot product of two vectors. It does not depend on the operand
    /// order, except where a component pair is NaN on both sides.
    pub fn scalar(v1: &Self, v2: &Self) -> (r: u64)
        ensures
            r == Self::spec_scalar(*v1, *v2),
            (!is_nan(v1.x) || !is_nan(v2.x)) && (!is_nan(v1.y) || !is_nan(v2.y)) && (!is_nan(v1.z)
                || !is_nan(v2.z)) ==> r == Self::spec_scalar(*v2, *v1),
    {
        f64_add(f64_add(f64_mul(v1.x, v2.x), f64_mul(v1.y, v2.y)), f64_mul(v1.z, v2.z))
    }

    /// Scales the vector in place by the reciprocal of its magnitude. On a
    /// null vector the reciprocal is infinite and the components come out
    /// non-finite; guarding against that is the caller's responsibility.
    pub fn normalize(&mut self)
        ensures
            final(self).x == mul_bits(old(self).x, old(self).spec_inv_magn()),
            final(self).y == mul_bits(old(self).y, old(self).spec_inv_magn()),
            final(self).z == mul_bits(old(self).z, old(self).spec_inv_magn()),
    {
        let inv_magn = f64_div(ONE_BITS, self.magn());
        self.x = f64_mul(self.x, inv_magn);
        self.y = f64_mul(self.y, inv_magn);
        self.z = f64_mul(self.z, inv_magn);
    }

    /// The square of the magnitude, preferred internally wherever only a
    /// comparison is needed, since it takes no square root. On vectors
    /// without NaN components it is non-negative and not NaN.
    pub fn magn_sq(&self) -> (r: u64)
        ensures
            r == self.spec_magn_sq(),
            no_nan3(*self) ==> !is_nan(r) && !sign_bit(r),
    {
        f64_add(
            f64_add(f64_mul(self.x, self.x), f64_mul(self.y, self.y)),
            f64_mul(self.z, self.z),
        )
    }

    /// The Euclidean magnitude. On vectors without NaN components it is
    /// non-negative and not NaN.
    pub fn magn(&self) -> (r: u64)
        ensures
            r == sqrt_bits(self.spec_magn_sq()),
            no_nan3(*self) ==> !is_nan(r) && !sign_bit(r),
    {
        f64_sqrt(self.magn_sq())
    }

    /// The squared distance between two vectors taken as points. It does
    /// not depend on the operand order where no component is NaN, and on
    /// finite inputs it is non-negative and not NaN.
    pub fn dist_sq(v1: &Self, v2: &Self) -> (r: u64)
        ensures
            r == Self::spec_dist_sq(*v1, *v2),
            no_nan3(*v1) && no_nan3(*v2) ==> r == Self::spec_dist_sq(*v2, *v1),
            finite3(*v1) && finite3(*v2) ==> !is_nan(r) && !sign_bit(r),
    {
        let dx = f64_sub(v1.x, v2.x);
        let dy = f64_sub(v1.y, v2.y);
        let dz = f64_sub(v1.z, v2.z);
        let sx = f64_mul(dx, dx);
        let sy = f64_mul(dy, dy);
        let sz = f64_mul(dz, dz);
        proof {
            if !is_nan(v1.x) && !is_nan(v1.y) && !is_nan(v1.z) && !is_nan(v2.x) && !is_nan(v2.y)
                && !is_nan(v2.z) {
                lemma_swapped_square(v1.x, v2.x, dx, sx);
                lemma_swapped_square(v1.y, v2.y, dy, sy);
                lemma_swapped_square(v1.z, v2.z, dz, sz);
            }
        }
        f64_add(f64_add(sx, sy), sz)
    }

    /// The distance between two vectors taken as points; symmetric in its
    /// operands where no component is NaN, and on finite inputs
    /// non-negative and not NaN.
    pub fn dist(v1: &Self, v2: &Self) -> (r: u64)
        ensures
            r == sqrt_bits(Self::spec_dist_sq(*v1, *v2)),
            no_nan3(*v1) && no_nan3(*v2) ==> r == sqrt_bits(Self::spec_dist_sq(*v2, *v1)),
            finite3(*v1) && finite3(*v2) ==> !is_nan(r) && !sign_bit(r),
    {
        f64_sqrt(Self::dist_sq(v1, v2))
    }

    /// Rescales the vector in place to the given magnitude if its own
    /// magnitude exceeds it; otherwise leaves it unchanged.
    pub fn clamp_max(&mut self, max: u64)
        ensures
            float_lt(max, sqrt_bits(old(self).spec_magn_sq())) ==> final(self).x == mul_bits(
                old(self).x,
                div_bits(max, sqrt_bits(old(self).spec_magn_sq())),
            ),
            float_lt(max, sqrt_bits(old(self).spec_magn_sq())) ==> final(self).y == mul_bits(
                old(self).y,
                div_bits(max, sqrt_bits(old(self).spec_magn_sq())),
            ),
            float_lt(max, sqrt_bits(old(self).spec_magn_sq())) ==> final(self).z == mul_bits(
                old(self).z,
                div_bits(max, sqrt_bits(old(self).spec_magn_sq())),
            ),
            !float_lt(max, sqrt_bits(old(self).spec_magn_sq())) ==> *final(self) == *old(self),
    {
        let len = self.magn();
        if f64_lt(max, len) {
            let f = f64_div(max, len);
            self.x = f64_mul(self.x, f);
            self.y = f64_mul(self.y, f);
            self.z = f64_mul(self.z, f);
        }
    }

    /// Rescales the vector in place to the given magnitude if its own
    /// magnitude falls short of it; otherwise leaves it unchanged. On a
    /// null vector the rescaling divides by zero and the components come
    /// out non-finite.
    pub fn clamp_min(&mut self, min: u64)
        ensures
            float_lt(sqrt_bits(old(self).spec_magn_sq()), min) ==> final(self).x == mul_bits(
                old(self).x,
                div_bits(min, sqrt_bits(old(self).spec_magn_sq())),
            ),
            float_lt(sqrt_bits(old(self).spec_magn_sq()), min) ==> final(self).y == mul_bits(
                old(self).y,
                div_bits(min, sqrt_bits(old(self).spec_magn_sq())),
            ),
            float_lt(sqrt_bits(old(self).spec_magn_sq()), min) ==> final(self).z == mul_bits(
                old(self).z,
                div_bits(min, sqrt_bits(old(self).spec_magn_sq())),
            ),
            !float_lt(sqrt_bits(old(self).spec_magn_sq()), min) ==> *final(self) == *old(self),
    {
        let len = self.magn();
        if f64_lt(len, min) {
            let f = f64_div(min, len);
            self.x = f64_mul(self.x, f);
            self.y = f64_mul(self.y, f);
            self.z = f64_mul(self.z, f);
        }
    }

    /// Linear interpolation `v1*(1-factor) + v2*factor`, defined for any
    /// factor, including extrapolation outside [0, 1]. A factor equal to
    /// zero, of either sign, returns `v1`, and a factor of exactly one
    /// returns `v2`, up to IEEE-754 equality, whenever the components are
    /// finite.
    pub fn lerp(v1: &Self, v2: &Self, factor: u64) -> (r: Self)
        ensures
            r.x == add_bits(
                mul_bits(v1.x, sub_bits(ONE_BITS, factor)),
                mul_bits(v2.x, factor),
            ),
            r.y == add_bits(
                mul_bits(v1.y, sub_bits(ONE_BITS, factor)),
                mul_bits(v2.y, factor),
            ),
            r.z == add_bits(
                mul_bits(v1.z, sub_bits(ONE_BITS, factor)),
                mul_bits(v2.z, factor),
            ),
            is_zero(factor) && finite3(*v1) && finite3(*v2) ==> float_eq3(r, *v1),
            factor == ONE_BITS && finite3(*v1) && finite3(*v2) ==> float_eq3(r, *v2),
    {
        let temp = f64_sub(ONE_BITS, factor);
        let px1 = f64_mul(v1.x, temp);
        let px2 = f64_mul(v2.x, factor);
        let py1 = f64_mul(v1.y, temp);
        let py2 = f64_mul(v2.y, factor);
        let pz1 = f64_mul(v1.z, temp);
        let pz2 = f64_mul(v2.z, factor);
        let rx = f64_add(px1, px2);
        let ry = f64_add(py1, py2);
        let rz = f64_add(pz1, pz2);
        proof {
            lemma_const_class();
            lemma_sign_only_is_zero(v2.x, factor);
            lemma_sign_only_is_zero(v2.y, factor);
            lemma_sign_only_is_zero(v2.z, factor);
            lemma_sign_only_is_zero(v1.x, temp);
            lemma_sign_only_is_zero(v1.y, temp);
            lemma_sign_only_is_zero(v1.z, temp);
            lemma_zero_and(v1.x, px2);
            lemma_zero_and(v1.y, py2);
            lemma_zero_and(v1.z, pz2);
            lemma_zero_and(px1, v2.x);
            lemma_zero_and(py1, v2.y);
            lemma_zero_and(pz1, v2.z);
        }
        Self { x: rx, y: ry, z: rz }
    }

    /// The unsigned angle between two vectors in radians: the arc cosine of
    /// the dot product over the product of the magnitudes. A result that is
    /// not NaN is not negative, and the operands can be swapped whenever no
    /// component is NaN.
    pub fn angle_between(v1: &Self, v2: &Self) -> (r: u64)
        ensures
            r == acos_bits(
                div_bits(
                    Self::spec_scalar(*v1, *v2),
                    sqrt_bits(mul_bits(v1.spec_magn_sq(), v2.spec_magn_sq())),
                ),
            ),
            no_nan3(*v1) && no_nan3(*v2) ==> r == acos_bits(
                div_bits(
                    Self::spec_scalar(*v2, *v1),
                    sqrt_bits(mul_bits(v2.spec_magn_sq(), v1.spec_magn_sq())),
                ),
            ),
            !is_nan(r) ==> !sign_bit(r),
    {
        let a = Self::scalar(v1, v2);
        let h = f64_sqrt(f64_mul(v1.magn_sq(), v2.magn_sq()));
        f64_acos(f64_div(a, h))
    }

    /// The cross product: the vector orthogonal to both operands, computed
    /// componentwise with exact operand order. Swapping the operands
    /// negates each component, up to IEEE-754 equality, wherever that
    /// component is not NaN and no input component is.
    pub fn crossp(v1: &Self, v2: &Self) -> (r: Self)
        ensures
            r == Self::spec_crossp(*v1, *v2),
            no_nan3(*v1) && no_nan3(*v2) && !is_nan(r.x) ==> float_eq(
                Self::spec_crossp(*v2, *v1).x,
                neg_bits(r.x),
            ),
            no_nan3(*v1) && no_nan3(*v2) && !is_nan(r.y) ==> float_eq(
                Self::spec_crossp(*v2, *v1).y,
                neg_bits(r.y),
            ),
            no_nan3(*v1) && no_nan3(*v2) && !is_nan(r.z) ==> float_eq(
                Self::spec_crossp(*v2, *v1).z,
                neg_bits(r.z),
            ),
    {
        let ax = f64_mul(v1.y, v2.z);
        let bx = f64_mul(v1.z, v2.y);
        let cx = f64_sub(ax, bx);
        let ay = f64_mul(v1.z, v2.x);
        let by = f64_mul(v1.x, v2.z);
        let cy = f64_sub(ay, by);
        let az = f64_mul(v1.x, v2.y);
        let bz = f64_mul(v1.y, v2.x);
        let cz = f64_sub(az, bz);
        proof {
            lemma_neg_mag(cx);
            lemma_neg_mag(cy);
            lemma_neg_mag(cz);
        }
        Self { x: cx, y: cy, z: cz }
    }

    /// Rotation counter-clockwise by an angle about an axis, by the
    /// Rodrigues formula, via the true sine and cosine of the angle. The
    /// axis is meant to be normalized; the formula is applied to the given
    /// bits either way. A rotation by either zero returns the vector, up to
    /// IEEE-754 equality, whenever the operands and the cross and dot
    /// intermediates are finite.
    pub fn rotate(&self, angle: u64, n0: &Self) -> (r: Self)
        ensures
            r.x == Self::spec_rotated(
                Self::spec_crossp(*n0, *self).x,
                self.x,
                n0.x,
                Self::spec_scalar(*n0, *self),
                sin_bits(angle),
                cos_bits(angle),
            ),
            r.y == Self::spec_rotated(
                Self::spec_crossp(*n0, *self).y,
                self.y,
                n0.y,
                Self::spec_scalar(*n0, *self),
                sin_bits(angle),
                cos_bits(angle),
            ),
            r.z == Self::spec_rotated(
                Self::spec_crossp(*n0, *self).z,
                self.z,
                n0.z,
                Self::spec_scalar(*n0, *self),
                sin_bits(angle),
                cos_bits(angle),
            ),
            is_zero(angle) && finite3(*self) && finite3(*n0) && finite3(
                Self::spec_crossp(*n0, *self),
            ) && is_finite(Self::spec_scalar(*n0, *self)) ==> float_eq3(r, *self),
    {
        let sin_a = f64_sin(angle);
        let cos_a = f64_cos(angle);
        let cross = Self::crossp(n0, self);
        let dot = Self::scalar(n0, self);
        let mcx = f64_mul(cross.x, sin_a);
        let mcy = f64_mul(cross.y, sin_a);
        let mcz = f64_mul(cross.z, sin_a);
        let t1x = f64_add(mcx, f64_mul(self.x, cos_a));
        let t1y = f64_add(mcy, f64_mul(self.y, cos_a));
        let t1z = f64_add(mcz, f64_mul(self.z, cos_a));
        let omc = f64_sub(ONE_BITS, cos_a);
        let f = f64_mul(dot, omc);
        let nfx = f64_mul(n0.x, f);
        let nfy = f64_mul(n0.y, f);
        let nfz = f64_mul(n0.z, f);
        let rx = f64_add(t1x, nfx);
        let ry = f64_add(t1y, nfy);
        let rz = f64_add(t1z, nfz);
        proof {
            lemma_const_class();
            lemma_sign_only_is_zero(cross.x, sin_a);
            lemma_sign_only_is_zero(cross.y, sin_a);
            lemma_sign_only_is_zero(cross.z, sin_a);
            lemma_sign_only_is_zero(dot, omc);
            lemma_sign_only_is_zero(n0.x, f);
            lemma_sign_only_is_zero(n0.y, f);
            lemma_sign_only_is_zero(n0.z, f);
            lemma_zero_and(mcx, self.x);
            lemma_zero_and(mcy, self.y);
            lemma_zero_and(mcz, self.z);
            lemma_zero_and(t1x, nfx);
            lemma_zero_and(t1y, nfy);
            lemma_zero_and(t1z, nfz);
        }
        Self { x: rx, y: ry, z: rz }
    }

    /// Rotation by exactly +90 degrees about an axis, by the right hand
    /// rule: the Rodrigues formula with cosine zero and sine one, expressed
    /// without trigonometry as `(axis x v) + axis*(axis . v)`.
    pub fn rotate_right(&self, n0: &Self) -> (r: Self)
        ensures
            r.x == add_bits(
                Self::spec_crossp(*n0, *self).x,
                mul_bits(n0.x, Self::spec_scalar(*n0, *self)),
            ),
            r.y == add_bits(
                Self::spec_crossp(*n0, *self).y,
                mul_bits(n0.y, Self::spec_scalar(*n0, *self)),
            ),
            r.z == add_bits(
                Self::spec_crossp(*n0, *self).z,
                mul_bits(n0.z, Self::spec_scalar(*n0, *self)),
            ),
    {
        let cross = Self::crossp(n0, self);
        let dot = Self::scalar(n0, self);
        Self {
            x: f64_add(cross.x, f64_mul(n0.x, dot)),
            y: f64_add(cross.y, f64_mul(n0.y, dot)),
            z: f64_add(cross.z, f64_mul(n0.z, dot)),
        }
    }

    /// Rotation by exactly -90 degrees about an axis: as `rotate_right`,
    /// with the cross product negated.
    pub fn rotate_left(&self, n0: &Self) -> (r: Self)
        ensures
            r.x == add_bits(
                neg_bits(Self::spec_crossp(*n0, *self).x),
                mul_bits(n0.x, Self::spec_scalar(*n0, *self)),
            ),
            r.y == add_bits(
                neg_bits(Self::spec_crossp(*n0, *self).y),
                mul_bits(n0.y, Self::spec_scalar(*n0, *self)),
            ),
            r.z == add_bits(
                neg_bits(Self::spec_crossp(*n0, *self).z),
                mul_bits(n0.z, Self::spec_scalar(*n0, *self)),
            ),
    {
        let cross = Self::crossp(n0, self);
        let dot = Self::scalar(n0, self);
        Self {
            x: f64_add(f64_neg(cross.x), f64_mul(n0.x, dot)),
            y: f64_add(f64_neg(cross.y), f64_mul(n0.y, dot)),
            z: f64_add(f64_neg(cross.z), f64_mul(n0.z, dot)),
        }
    }

    /// Reflects the vector in place off a surface with normal `n0`:
    /// `self -= 2*(self . n0)*n0`. The normal is meant to be normalized;
    /// the formula is applied to the given bits either way.
    pub fn reflect(&mut self, n0: &Self)
        ensures
            final(self).x == sub_bits(
                old(self).x,
                mul_bits(n0.x, mul_bits(Self::spec_scalar(*old(self), *n0), TWO_BITS)),
            ),
            final(self).y == sub_bits(
                old(self).y,
                mul_bits(n0.y, mul_bits(Self::spec_scalar(*old(self), *n0), TWO_BITS)),
            ),
            final(self).z == sub_bits(
                old(self).z,
                mul_bits(n0.z, mul_bits(Self::spec_scalar(*old(self), *n0), TWO_BITS)),
            ),
    {
        let f = f64_mul(Self::scalar(self, n0), TWO_BITS);
        self.x = f64_sub(self.x, f64_mul(n0.x, f));
        self.y = f64_sub(self.y, f64_mul(n0.y, f));
        self.z = f64_sub(self.z, f64_mul(n0.z, f));
    }

    /// Componentwise sum.
    pub fn add(&self, other: &Self) -> (r: Self)
        ensures
            r.x == add_bits(self.x, other.x),
            r.y == add_bits(self.y, other.y),
            r.z == add_bits(self.z, other.z),
    {
        Self {
            x: f64_add(self.x, other.x),
            y: f64_add(self.y, other.y),
            z: f64_add(self.z, other.z),
        }
    }

    /// Componentwise difference.
    pub fn sub(&self, other: &Self) -> (r: Self)
        ensures
            r.x == sub_bits(self.x, other.x),
            r.y == sub_bits(self.y, other.y),
            r.z == sub_bits(self.z, other.z),
    {
        Self {
            x: f64_sub(self.x, other.x),
            y: f64_sub(self.y, other.y),
            z: f64_sub(self.z, other.z),
        }
    }

    /// Multiplication by a scalar.
    pub fn scale(&self, factor: u64) -> (r: Self)
        ensures
            r.x == mul_bits(self.x, factor),
            r.y == mul_bits(self.y, factor),
            r.z == mul_bits(self.z, factor),
    {
        Self {
            x: f64_mul(self.x, factor),
            y: f64_mul(self.y, factor),
            z: f64_mul(self.z, factor),
        }
    }

    /// Division by a scalar, computed as multiplication by the reciprocal.
    pub fn divide(&self, quotient: u64) -> (r: Self)
        ensures
            r.x == mul_bits(self.x, div_bits(ONE_BITS, quotient)),
            r.y == mul_bits(self.y, div_bits(ONE_BITS, quotient)),
            r.z == mul_bits(self.z, div_bits(ONE_BITS, quotient)),
    {
        let f = f64_div(ONE_BITS, quotient);
        Self { x: f64_mul(self.x, f), y: f64_mul(self.y, f), z: f64_mul(self.z, f) }
    }

    /// Componentwise negation, exact.
    pub fn negate(&self) -> (r: Self)
        ensures
            r.x == neg_bits(self.x),
            r.y == neg_bits(self.y),
            r.z == neg_bits(self.z),
    {
        Self { x: f64_neg(self.x), y: f64_neg(self.y), z: f64_neg(self.z) }
    }
}

impl PartialEq for Vector3 {
    /// Componentwise IEEE-754 equality: NaN components make vectors unequal
    /// to everything, and zero components compare equal whatever their sign.
    fn eq(&self, other: &Vector3) -> (r: bool) {
        f64_eq(self.x, other.x) && f64_eq(self.y, other.y) && f64_eq(self.z, other.z)
    }
}

impl vstd::std_specs::cmp::PartialEqSpecImpl for Vector3 {
    open spec fn obeys_eq_spec() -> bool {
        true
    }

    open spec fn eq_spec(&self, other: &Vector3) -> bool {
        float_eq3(*self, *other)
    }
}

impl Default for Vector3 {
    /// The null vector: all components positive zero.
    fn default() -> (r: Self)
        ensures
            r.x == POS_ZERO,
            r.y == POS_ZERO,
            r.z == POS_ZERO,
    {
        Self { x: POS_ZERO, y: POS_ZERO, z: POS_ZERO }
    }
}

impl From<Vector2> for Vector3 {
    /// Embeds a planar vector into the z = 0 plane.
    fn from(v2: Vector2) -> (r: Vector3) {
        Vector3 { x: v2.x, y: v2.y, z: POS_ZERO }
    }
}

impl vstd::std_specs::convert::FromSpecImpl<Vector2> for Vector3 {
    open spec fn obeys_from_spec() -> bool {
        true
    }

    open spec fn from_spec(v2: Vector2) -> Vector3 {
        Vector3 { x: v2.x, y: v2.y, z: POS_ZERO }
    }
}

} // verus!
