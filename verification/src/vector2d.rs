//! The leaf value type: a pair of binary64 scalars with arithmetic,
//! trigonometric derivations and the robustness layer of guards and snapping.

use vstd::prelude::*;
use core::cmp::Ordering;
use crate::scalar::{
    Scalar, mag_of, sign_of, is_nan_b, is_finite_b, is_zero_b, float_eq, float_lt, float_le,
    float_gt, float_ge, flip_sign, snap_b, guarded, add_bits, sub_bits, mul_bits, div_bits,
    max_b, min_b, POS_ZERO, ONE_BITS, TWO_BITS,
};
use crate::sqrt::sqrt_bits;
use crate::trig::{atan2_b, sin_b, cos_b, acos_b};

verus! {

/// Degrees per radian, as the nearest single-precision value widened to
/// binary64: the conversion factor the degree methods scale by.
pub const DEG_F32_BITS: u64 = 0x404CA5DC00000000;

/// Radians per degree, as the nearest single-precision value widened to
/// binary64.
pub const RAD_F32_BITS: u64 = 0x3F91DF46A0000000;

/// Bit pattern of 360.
pub const THREE_SIXTY_BITS: u64 = 0x4076_8000_0000_0000;

/// A 2D vector over binary64 scalars.
#[derive(Clone, Copy, Debug, PartialEq, Hash)]
pub struct Vector2d {
    pub x: Scalar,
    pub y: Scalar,
}

/// The squared length: x*x + y*y, unguarded.
pub open spec fn v_lensq_b(xb: u64, yb: u64) -> u64 {
    add_bits(mul_bits(xb, xb), mul_bits(yb, yb))
}

/// The guarded length: the root of the squared length, with NaN and
/// infinities replaced by zero and near-zero results snapped to zero.
pub open spec fn v_len_b(xb: u64, yb: u64) -> u64 {
    guarded(sqrt_bits(v_lensq_b(xb, yb)))
}

/// The guarded angle in (-pi, pi]: zero for non-finite components, otherwise
/// the guarded two-argument arctangent.
pub open spec fn v_angle_b(xb: u64, yb: u64) -> u64 {
    if !is_finite_b(xb) || !is_finite_b(yb) {
        POS_ZERO
    } else {
        guarded(atan2_b(yb, xb))
    }
}

/// The normalized pair: the null pair for a zero or invalid length, otherwise
/// the components divided by the length, with non-finite quotients rejected
/// and near-zero components snapped.
pub open spec fn v_normalized_b(xb: u64, yb: u64) -> (u64, u64) {
    let len = v_len_b(xb, yb);
    if mag_of(len) == 0 {
        (POS_ZERO, POS_ZERO)
    } else {
        let dx = div_bits(xb, len);
        let dy = div_bits(yb, len);
        if !is_finite_b(dx) || !is_finite_b(dy) {
            (POS_ZERO, POS_ZERO)
        } else {
            (snap_b(dx), snap_b(dy))
        }
    }
}

/// The dot product, unguarded.
pub open spec fn v_dot_b(x1: u64, y1: u64, x2: u64, y2: u64) -> u64 {
    add_bits(mul_bits(x1, x2), mul_bits(y1, y2))
}

/// The cross product, unguarded.
pub open spec fn v_cross_b(x1: u64, y1: u64, x2: u64, y2: u64) -> u64 {
    sub_bits(mul_bits(x1, y2), mul_bits(y1, x2))
}

impl Vector2d {
    pub fn new(x: Scalar, y: Scalar) -> (r: Vector2d)
        ensures
            r.x == x && r.y == y,
    {
        Vector2d { x, y }
    }

    /// The null vector: both components exact positive zero.
    pub fn null() -> (r: Vector2d)
        ensures
            r.x.bits == POS_ZERO && r.y.bits == POS_ZERO,
    {
        Vector2d { x: Scalar::zero(), y: Scalar::zero() }
    }

    pub fn null_vector() -> (r: Vector2d)
        ensures
            r.x.bits == POS_ZERO && r.y.bits == POS_ZERO,
    {
        Vector2d::null()
    }

    pub fn zero_vector() -> (r: Vector2d)
        ensures
            r.x.bits == POS_ZERO && r.y.bits == POS_ZERO,
    {
        Vector2d::null()
    }

    pub fn origin() -> (r: Vector2d)
        ensures
            r.x.bits == POS_ZERO && r.y.bits == POS_ZERO,
    {
        Vector2d::null()
    }

    pub fn is_null(&self) -> (r: bool)
        ensures
            r == (is_zero_b(self.x.bits) && is_zero_b(self.y.bits)),
    {
        self.x.is_zero() && self.y.is_zero()
    }

    pub fn is_not_null(&self) -> (r: bool)
        ensures
            r == !(is_zero_b(self.x.bits) && is_zero_b(self.y.bits)),
    {
        !self.is_null()
    }

    pub fn is_zero(&self) -> (r: bool)
        ensures
            r == (is_zero_b(self.x.bits) && is_zero_b(self.y.bits)),
    {
        self.is_null()
    }

    /// Conversion into a vector over the library's scalar type; with one
    /// scalar type this is the identity.
    pub fn into_vector2d(self) -> (r: Vector2d)
        ensures
            r == self,
    {
        self
    }

    pub fn is_not_zero(&self) -> (r: bool)
        ensures
            r == !(is_zero_b(self.x.bits) && is_zero_b(self.y.bits)),
    {
        self.is_not_null()
    }

    pub fn is_origin(&self) -> (r: bool)
        ensures
            r == (is_zero_b(self.x.bits) && is_zero_b(self.y.bits)),
    {
        self.x.is_zero() && self.y.is_zero()
    }

    pub fn x(&self) -> (r: Scalar)
        ensures
            r == self.x,
    {
        self.x
    }

    pub fn y(&self) -> (r: Scalar)
        ensures
            r == self.y,
    {
        self.y
    }

    pub fn set_x(&mut self, x: Scalar)
        ensures
            final (self).x == x && final (self).y == old(self).y,
    {
        self.x = x;
    }

    pub fn set_y(&mut self, y: Scalar)
        ensures
            final (self).x == old(self).x && final (self).y == y,
    {
        self.y = y;
    }

    pub fn with_x_y(x: Scalar, y: Scalar) -> (r: Vector2d)
        ensures
            r.x == x && r.y == y,
    {
        Vector2d { x, y }
    }

    /// The y component defaults to zero.
    pub fn with_x(x: Scalar) -> (r: Vector2d)
        ensures
            r.x == x && r.y.bits == POS_ZERO,
    {
        Vector2d { x, y: Scalar::zero() }
    }

    /// The x component defaults to zero.
    pub fn with_y(y: Scalar) -> (r: Vector2d)
        ensures
            r.x.bits == POS_ZERO && r.y == y,
    {
        Vector2d { x: Scalar::zero(), y }
    }

    /// The projection onto the x axis: y is reset to its default.
    pub fn x_axis(self) -> (r: Vector2d)
        ensures
            r.x == self.x && r.y.bits == POS_ZERO,
    {
        Vector2d { x: self.x, y: Scalar::zero() }
    }

    /// The projection onto the y axis: x is reset to its default.
    pub fn y_axis(self) -> (r: Vector2d)
        ensures
            r.x.bits == POS_ZERO && r.y == self.y,
    {
        Vector2d { x: Scalar::zero(), y: self.y }
    }

    pub fn set_origin(&mut self)
        ensures
            final (self).x.bits == POS_ZERO && final (self).y.bits == POS_ZERO,
    {
        self.x = Scalar::zero();
        self.y = Scalar::zero();
    }

    pub fn swap_xy(&mut self)
        ensures
            final (self).x == old(self).y && final (self).y == old(self).x,
    {
        let temp = self.x;
        self.x = self.y;
        self.y = temp;
    }

    pub fn splat(&mut self, value: Scalar)
        ensures
            final (self).x == value && final (self).y == value,
    {
        self.x = value;
        self.y = value;
    }

    pub fn to_tuple(&self) -> (r: (Scalar, Scalar))
        ensures
            r.0 == self.x && r.1 == self.y,
    {
        (self.x, self.y)
    }

    pub fn from_tuple(tuple: (Scalar, Scalar)) -> (r: Vector2d)
        ensures
            r.x == tuple.0 && r.y == tuple.1,
    {
        Vector2d { x: tuple.0, y: tuple.1 }
    }

    pub fn to_array(&self) -> (r: [Scalar; 2])
        ensures
            r[0] == self.x && r[1] == self.y,
    {
        [self.x, self.y]
    }

    pub fn from_array(array: [Scalar; 2]) -> (r: Vector2d)
        ensures
            r.x == array[0] && r.y == array[1],
    {
        Vector2d { x: array[0], y: array[1] }
    }

    /// Componentwise equality in the scalar ordering: the two zeros are
    /// equal, NaN equals nothing.
    pub fn is_equal(&self, other: &Vector2d) -> (r: bool)
        ensures
            r == (float_eq(self.x.bits, other.x.bits) && float_eq(self.y.bits, other.y.bits)),
    {
        self.x.eq_val(&other.x) && self.y.eq_val(&other.y)
    }

    pub fn is_not_equal(&self, other: &Vector2d) -> (r: bool)
        ensures
            r == !(float_eq(self.x.bits, other.x.bits) && float_eq(self.y.bits, other.y.bits)),
    {
        !self.is_equal(other)
    }

    pub fn is_positive(&self) -> (r: bool)
        ensures
            r == (float_gt(self.x.bits, POS_ZERO) && float_gt(self.y.bits, POS_ZERO)),
    {
        self.x.gt(&Scalar::zero()) && self.y.gt(&Scalar::zero())
    }

    pub fn is_negative(&self) -> (r: bool)
        ensures
            r == (float_lt(self.x.bits, POS_ZERO) && float_lt(self.y.bits, POS_ZERO)),
    {
        self.x.lt(&Scalar::zero()) && self.y.lt(&Scalar::zero())
    }

    pub fn is_positive_x(&self) -> (r: bool)
        ensures
            r == float_gt(self.x.bits, POS_ZERO),
    {
        self.x.gt(&Scalar::zero())
    }

    pub fn is_positive_y(&self) -> (r: bool)
        ensures
            r == float_gt(self.y.bits, POS_ZERO),
    {
        self.y.gt(&Scalar::zero())
    }

    pub fn is_negative_x(&self) -> (r: bool)
        ensures
            r == float_lt(self.x.bits, POS_ZERO),
    {
        self.x.lt(&Scalar::zero())
    }

    pub fn is_negative_y(&self) -> (r: bool)
        ensures
            r == float_lt(self.y.bits, POS_ZERO),
    {
        self.y.lt(&Scalar::zero())
    }

    /// Componentwise sum.
    pub fn add(&self, other: &Vector2d) -> (r: Vector2d)
        ensures
            r.x.bits == add_bits(self.x.bits, other.x.bits),
            r.y.bits == add_bits(self.y.bits, other.y.bits),
    {
        Vector2d { x: self.x.add(other.x), y: self.y.add(other.y) }
    }

    /// Componentwise difference.
    pub fn sub(&self, other: &Vector2d) -> (r: Vector2d)
        ensures
            r.x.bits == sub_bits(self.x.bits, other.x.bits),
            r.y.bits == sub_bits(self.y.bits, other.y.bits),
    {
        Vector2d { x: self.x.sub(other.x), y: self.y.sub(other.y) }
    }

    /// Componentwise product.
    pub fn mul(&self, other: &Vector2d) -> (r: Vector2d)
        ensures
            r.x.bits == mul_bits(self.x.bits, other.x.bits),
            r.y.bits == mul_bits(self.y.bits, other.y.bits),
    {
        Vector2d { x: self.x.mul(other.x), y: self.y.mul(other.y) }
    }

    /// Componentwise quotient.
    pub fn div(&self, other: &Vector2d) -> (r: Vector2d)
        ensures
            r.x.bits == div_bits(self.x.bits, other.x.bits),
            r.y.bits == div_bits(self.y.bits, other.y.bits),
    {
        Vector2d { x: self.x.div(other.x), y: self.y.div(other.y) }
    }

    pub fn add_scalar(&self, scalar: Scalar) -> (r: Vector2d)
        ensures
            r.x.bits == add_bits(self.x.bits, scalar.bits),
            r.y.bits == add_bits(self.y.bits, scalar.bits),
    {
        Vector2d { x: self.x.add(scalar), y: self.y.add(scalar) }
    }

    pub fn sub_scalar(&self, scalar: Scalar) -> (r: Vector2d)
        ensures
            r.x.bits == sub_bits(self.x.bits, scalar.bits),
            r.y.bits == sub_bits(self.y.bits, scalar.bits),
    {
        Vector2d { x: self.x.sub(scalar), y: self.y.sub(scalar) }
    }

    pub fn mul_scalar(&self, scalar: Scalar) -> (r: Vector2d)
        ensures
            r.x.bits == mul_bits(self.x.bits, scalar.bits),
            r.y.bits == mul_bits(self.y.bits, scalar.bits),
    {
        Vector2d { x: self.x.mul(scalar), y: self.y.mul(scalar) }
    }

    /// Scalar division; dividing by exact zero is a hard failure, so the
    /// divisor is required to be nonzero.  `try_div_scalar` is the checked
    /// companion.
    pub fn div_scalar(&self, scalar: Scalar) -> (r: Vector2d)
        requires
            !is_zero_b(scalar.bits),
        ensures
            r.x.bits == div_bits(self.x.bits, scalar.bits),
            r.y.bits == div_bits(self.y.bits, scalar.bits),
    {
        Vector2d { x: self.x.div(scalar), y: self.y.div(scalar) }
    }

    /// Scalar division that reports the hard-failure case instead: the
    /// result is None exactly when the divisor is zero.
    pub fn try_div_scalar(&self, scalar: Scalar) -> (r: Option<Vector2d>)
        ensures
            r is None <==> is_zero_b(scalar.bits),
            r matches Some(v) ==> v.x.bits == div_bits(self.x.bits, scalar.bits) && v.y.bits
                == div_bits(self.y.bits, scalar.bits),
    {
        if scalar.is_zero() {
            None
        } else {
            Some(self.div_scalar(scalar))
        }
    }

    /// The componentwise (Hadamard) product.
    pub fn hadamard_product(&self, other: &Vector2d) -> (r: Vector2d)
        ensures
            r.x.bits == mul_bits(self.x.bits, other.x.bits),
            r.y.bits == mul_bits(self.y.bits, other.y.bits),
    {
        Vector2d { x: self.x.mul(other.x), y: self.y.mul(other.y) }
    }

    /// The componentwise square root, deliberately unguarded: the root of a
    /// negative component is NaN and is propagated as such.
    pub fn sqrt(&self) -> (r: Vector2d)
        ensures
            r.x.bits == sqrt_bits(self.x.bits),
            r.y.bits == sqrt_bits(self.y.bits),
            sign_of(self.x.bits) && !is_zero_b(self.x.bits) ==> is_nan_b(r.x.bits),
            sign_of(self.y.bits) && !is_zero_b(self.y.bits) ==> is_nan_b(r.y.bits),
    {
        Vector2d { x: self.x.sqrt(), y: self.y.sqrt() }
    }

    /// The componentwise absolute value: exact sign clearing.
    pub fn abs(&self) -> (r: Vector2d)
        ensures
            r.x.bits == mag_of(self.x.bits),
            r.y.bits == mag_of(self.y.bits),
    {
        Vector2d { x: self.x.abs(), y: self.y.abs() }
    }

    /// The componentwise square.
    pub fn pow2(&self) -> (r: Vector2d)
        ensures
            r.x.bits == mul_bits(self.x.bits, self.x.bits),
            r.y.bits == mul_bits(self.y.bits, self.y.bits),
    {
        Vector2d { x: self.x.mul(self.x), y: self.y.mul(self.y) }
    }

    /// The Euclidean length under the robustness policy: never NaN, never
    /// infinite, never negative, and exact zero for the null vector.
    pub fn length(&self) -> (r: Scalar)
        ensures
            r.bits == v_len_b(self.x.bits, self.y.bits),
            is_finite_b(r.bits) && !is_nan_b(r.bits),
            !sign_of(r.bits),
            is_zero_b(self.x.bits) && is_zero_b(self.y.bits) ==> r.bits == POS_ZERO,
    {
        let s = self.x.mul(self.x).add(self.y.mul(self.y));
        s.sqrt().guard()
    }

    /// The squared length, unguarded.
    pub fn length_squared(&self) -> (r: Scalar)
        ensures
            r.bits == v_lensq_b(self.x.bits, self.y.bits),
    {
        self.x.mul(self.x).add(self.y.mul(self.y))
    }

    /// The direction angle from atan2 under the robustness policy: zero for
    /// non-finite components, NaN and infinities absorbed to zero, near-zero
    /// angles snapped to zero.
    pub fn angle(&self) -> (r: Scalar)
        ensures
            r.bits == v_angle_b(self.x.bits, self.y.bits),
            is_finite_b(r.bits) && !is_nan_b(r.bits),
    {
        if !self.x.is_finite() || !self.y.is_finite() {
            Scalar::zero()
        } else {
            self.y.atan2(&self.x).guard()
        }
    }

    /// The angle scaled to degrees, under the same policy.
    pub fn angle_degrees(&self) -> (r: Scalar)
        ensures
            r.bits == guarded(mul_bits(v_angle_b(self.x.bits, self.y.bits), DEG_F32_BITS)),
    {
        self.angle().mul(Scalar { bits: DEG_F32_BITS }).guard()
    }

    /// The unit vector in this direction; a zero-length vector is treated as
    /// already normalized and gives the null vector back.
    pub fn normalized(&self) -> (r: Vector2d)
        ensures
            (r.x.bits, r.y.bits) == v_normalized_b(self.x.bits, self.y.bits),
            is_finite_b(r.x.bits) && is_finite_b(r.y.bits),
            is_zero_b(self.x.bits) && is_zero_b(self.y.bits) ==> r.x.bits == POS_ZERO && r.y.bits
                == POS_ZERO,
    {
        let len = self.length();
        if len.is_zero() {
            Vector2d::null()
        } else {
            let dx = self.x.div(len);
            let dy = self.y.div(len);
            if dx.is_nan() || dx.is_infinite() || dy.is_nan() || dy.is_infinite() {
                Vector2d::null()
            } else {
                Vector2d { x: dx.snap(), y: dy.snap() }
            }
        }
    }

    /// In-place normalization.
    pub fn normalize(&mut self)
        ensures
            (final (self).x.bits, final (self).y.bits) == v_normalized_b(
                old(self).x.bits,
                old(self).y.bits,
            ),
    {
        *self = self.normalized();
    }

    /// The dot product, unguarded; on NaN-free operands it is symmetric.
    pub fn dot(&self, other: &Vector2d) -> (r: Scalar)
        ensures
            r.bits == v_dot_b(self.x.bits, self.y.bits, other.x.bits, other.y.bits),
            !is_nan_b(self.x.bits) && !is_nan_b(self.y.bits) && !is_nan_b(other.x.bits)
                && !is_nan_b(other.y.bits) ==> r.bits == v_dot_b(
                other.x.bits,
                other.y.bits,
                self.x.bits,
                self.y.bits,
            ),
    {
        self.x.mul(other.x).add(self.y.mul(other.y))
    }

    /// The two-dimensional cross product, unguarded.
    pub fn cross(&self, other: &Vector2d) -> (r: Scalar)
        ensures
            r.bits == v_cross_b(self.x.bits, self.y.bits, other.x.bits, other.y.bits),
    {
        self.x.mul(other.y).sub(self.y.mul(other.x))
    }

    /// The Euclidean distance to another vector, unguarded.
    pub fn distance_to(&self, other: &Vector2d) -> (r: Scalar)
        ensures
            r.bits == sqrt_bits(
                v_lensq_b(sub_bits(self.x.bits, other.x.bits), sub_bits(self.y.bits, other.y.bits)),
            ),
    {
        let dx = self.x.sub(other.x);
        let dy = self.y.sub(other.y);
        dx.mul(dx).add(dy.mul(dy)).sqrt()
    }

    /// The Manhattan norm: the sum of the component magnitudes.
    pub fn manhattan_magnitude(&self) -> (r: Scalar)
        ensures
            r.bits == add_bits(mag_of(self.x.bits), mag_of(self.y.bits)),
    {
        self.x.abs().add(self.y.abs())
    }

    /// The Manhattan distance: the sum of the componentwise difference
    /// magnitudes.
    pub fn manhattan_distance(&self, other: &Vector2d) -> (r: Scalar)
        ensures
            r.bits == add_bits(
                mag_of(sub_bits(self.x.bits, other.x.bits)),
                mag_of(sub_bits(self.y.bits, other.y.bits)),
            ),
    {
        self.x.sub(other.x).abs().add(self.y.sub(other.y).abs())
    }

    /// The exact arithmetic mean of the coordinates; on NaN-free operands it
    /// is symmetric.
    pub fn midpoint_to(&self, other: &Vector2d) -> (r: Vector2d)
        ensures
            r.x.bits == div_bits(add_bits(self.x.bits, other.x.bits), TWO_BITS),
            r.y.bits == div_bits(add_bits(self.y.bits, other.y.bits), TWO_BITS),
            !is_nan_b(self.x.bits) && !is_nan_b(self.y.bits) && !is_nan_b(other.x.bits)
                && !is_nan_b(other.y.bits) ==> r.x.bits == div_bits(
                add_bits(other.x.bits, self.x.bits),
                TWO_BITS,
            ) && r.y.bits == div_bits(add_bits(other.y.bits, self.y.bits), TWO_BITS),
    {
        let two = Scalar::two();
        Vector2d { x: self.x.add(other.x).div(two), y: self.y.add(other.y).div(two) }
    }

    /// The angle to another vector through the cosine of the dot product;
    /// zero when either vector has zero length, with NaN and infinite
    /// cosines and arccosine domain errors absorbed to zero.
    pub fn angle_to(&self, other: &Vector2d) -> (r: Scalar)
        ensures
            ({
                let l1 = v_len_b(self.x.bits, self.y.bits);
                let l2 = v_len_b(other.x.bits, other.y.bits);
                let d = v_dot_b(self.x.bits, self.y.bits, other.x.bits, other.y.bits);
                if mag_of(l1) == 0 || mag_of(l2) == 0 {
                    r.bits == POS_ZERO
                } else {
                    let c = div_bits(d, mul_bits(l1, l2));
                    if !is_finite_b(c) {
                        r.bits == POS_ZERO
                    } else if is_nan_b(acos_b(c)) {
                        r.bits == POS_ZERO
                    } else {
                        r.bits == acos_b(c)
                    }
                }
            }),
    {
        let dot_product = self.dot(other);
        let magnitude_self = self.length();
        let magnitude_other = other.length();
        if magnitude_self.is_zero() || magnitude_other.is_zero() {
            Scalar::zero()
        } else {
            let c = dot_product.div(magnitude_self.mul(magnitude_other));
            if c.is_nan() || c.is_infinite() {
                Scalar::zero()
            } else {
                let a = c.acos();
                if a.is_nan() {
                    Scalar::zero()
                } else {
                    a
                }
            }
        }
    }

    /// The magnitude of the difference of the two direction angles.
    pub fn angle_between(&self, other: &Vector2d) -> (r: Scalar)
        ensures
            r.bits == mag_of(
                sub_bits(
                    v_angle_b(other.x.bits, other.y.bits),
                    v_angle_b(self.x.bits, self.y.bits),
                ),
            ),
    {
        let angle_self = self.angle();
        let angle_other = other.angle();
        angle_other.sub(angle_self).abs()
    }

    /// The angle difference magnitude scaled to degrees.
    pub fn angle_between_degrees(&self, other: &Vector2d) -> (r: Scalar)
        ensures
            r.bits == mul_bits(
                mag_of(
                    sub_bits(
                        v_angle_b(other.x.bits, other.y.bits),
                        v_angle_b(self.x.bits, self.y.bits),
                    ),
                ),
                DEG_F32_BITS,
            ),
    {
        self.angle_between(other).mul(Scalar { bits: DEG_F32_BITS })
    }

    /// One when the angle from self to other turns clockwise (a negative
    /// angle difference), zero otherwise.
    pub fn angle_between_is_clockwise(&self, other: &Vector2d) -> (r: Scalar)
        ensures
            r.bits == (if float_lt(
                sub_bits(
                    v_angle_b(other.x.bits, other.y.bits),
                    v_angle_b(self.x.bits, self.y.bits),
                ),
                POS_ZERO,
            ) {
                ONE_BITS
            } else {
                POS_ZERO
            }),
    {
        let angle_self = self.angle();
        let angle_other = other.angle();
        let angle_diff = angle_other.sub(angle_self);
        if angle_diff.lt(&Scalar::zero()) {
            Scalar::one()
        } else {
            Scalar::zero()
        }
    }

    /// The clockwise angle from the positive x axis, in degrees within
    /// [0, 360) for finite directions.
    pub fn angle_from_x_axis_positive(&self) -> (r: Scalar)
        ensures
            ({
                let a = mul_bits(
                    sub_bits(atan2_b(POS_ZERO, ONE_BITS), atan2_b(self.y.bits, self.x.bits)),
                    DEG_F32_BITS,
                );
                r.bits == (if float_lt(a, POS_ZERO) {
                    add_bits(a, THREE_SIXTY_BITS)
                } else {
                    a
                })
            }),
    {
        let base = Scalar::zero().atan2(&Scalar::one());
        let a = base.sub(self.y.atan2(&self.x)).mul(Scalar { bits: DEG_F32_BITS });
        if a.lt(&Scalar::zero()) {
            a.add(Scalar { bits: THREE_SIXTY_BITS })
        } else {
            a
        }
    }

    /// The counterclockwise companion: negative degrees within (-360, 0].
    pub fn angle_from_x_axis_negative(&self) -> (r: Scalar)
        ensures
            ({
                let a = mul_bits(
                    sub_bits(atan2_b(POS_ZERO, ONE_BITS), atan2_b(self.y.bits, self.x.bits)),
                    DEG_F32_BITS,
                );
                r.bits == (if float_gt(a, POS_ZERO) {
                    sub_bits(a, THREE_SIXTY_BITS)
                } else {
                    a
                })
            }),
    {
        let base = Scalar::zero().atan2(&Scalar::one());
        let a = base.sub(self.y.atan2(&self.x)).mul(Scalar { bits: DEG_F32_BITS });
        if a.gt(&Scalar::zero()) {
            a.sub(Scalar { bits: THREE_SIXTY_BITS })
        } else {
            a
        }
    }

    /// Linear interpolation clamped to the segment: at or below zero the
    /// receiver is returned, at or above one the other endpoint, and strictly
    /// between them the convex combination.
    pub fn lerp(&self, other: &Vector2d, t: Scalar) -> (r: Vector2d)
        ensures
            float_le(t.bits, POS_ZERO) ==> r == *self,
            !float_le(t.bits, POS_ZERO) && float_ge(t.bits, ONE_BITS) ==> r == *other,
            !float_le(t.bits, POS_ZERO) && !float_ge(t.bits, ONE_BITS) ==> {
                let u = sub_bits(ONE_BITS, t.bits);
                r.x.bits == add_bits(mul_bits(self.x.bits, u), mul_bits(other.x.bits, t.bits))
                    && r.y.bits == add_bits(
                    mul_bits(self.y.bits, u),
                    mul_bits(other.y.bits, t.bits),
                )
            },
    {
        if t.le(&Scalar::zero()) {
            *self
        } else if t.ge(&Scalar::one()) {
            *other
        } else {
            let u = Scalar::one().sub(t);
            Vector2d {
                x: self.x.mul(u).add(other.x.mul(t)),
                y: self.y.mul(u).add(other.y.mul(t)),
            }
        }
    }

    /// Rescaling to the cap only when the current length exceeds it; at or
    /// below the cap the vector is returned unchanged.
    pub fn clamp_magnitude(self, max_length: Scalar) -> (r: Vector2d)
        ensures
            !float_gt(v_len_b(self.x.bits, self.y.bits), max_length.bits) ==> r == self,
            float_gt(v_len_b(self.x.bits, self.y.bits), max_length.bits) ==> {
                let n = v_normalized_b(self.x.bits, self.y.bits);
                r.x.bits == mul_bits(n.0, max_length.bits) && r.y.bits == mul_bits(
                    n.1,
                    max_length.bits,
                )
            },
    {
        let len = self.length();
        if len.gt(&max_length) {
            let norm = self.normalized();
            Vector2d { x: norm.x.mul(max_length), y: norm.y.mul(max_length) }
        } else {
            self
        }
    }

    /// Componentwise clamping between the two bounds, NaN bounds ignored.
    pub fn clamp_components(&self, min: Scalar, max: Scalar) -> (r: Vector2d)
        ensures
            r.x.bits == min_b(max_b(self.x.bits, min.bits), max.bits),
            r.y.bits == min_b(max_b(self.y.bits, min.bits), max.bits),
    {
        Vector2d { x: self.x.max(min).min(max), y: self.y.max(min).min(max) }
    }

    /// Translation by an offset; a zero offset in both components leaves the
    /// vector untouched.
    pub fn translate(&mut self, dx: Scalar, dy: Scalar)
        ensures
            is_zero_b(dx.bits) && is_zero_b(dy.bits) ==> *final (self) == *old(self),
            !(is_zero_b(dx.bits) && is_zero_b(dy.bits)) ==> final (self).x.bits == add_bits(
                old(self).x.bits,
                dx.bits,
            ) && final (self).y.bits == add_bits(old(self).y.bits, dy.bits),
    {
        if dx.is_zero() && dy.is_zero() {
            return ;
        }
        self.x = self.x.add(dx);
        self.y = self.y.add(dy);
    }

    pub fn translate_x(&mut self, dx: Scalar)
        ensures
            is_zero_b(dx.bits) ==> *final (self) == *old(self),
            !is_zero_b(dx.bits) ==> final (self).x.bits == add_bits(old(self).x.bits, dx.bits)
                && final (self).y == old(self).y,
    {
        if dx.is_zero() {
            return ;
        }
        self.x = self.x.add(dx);
    }

    pub fn translate_y(&mut self, dy: Scalar)
        ensures
            is_zero_b(dy.bits) ==> *final (self) == *old(self),
            !is_zero_b(dy.bits) ==> final (self).y.bits == add_bits(old(self).y.bits, dy.bits)
                && final (self).x == old(self).x,
    {
        if dy.is_zero() {
            return ;
        }
        self.y = self.y.add(dy);
    }

    /// Scaling both components by a factor.
    pub fn scale(&self, factor: Scalar) -> (r: Vector2d)
        ensures
            r.x.bits == mul_bits(self.x.bits, factor.bits),
            r.y.bits == mul_bits(self.y.bits, factor.bits),
    {
        Vector2d { x: self.x.mul(factor), y: self.y.mul(factor) }
    }

    /// Rotation by the standard 2D rotation matrix, with no extra clamping.
    /// The sine and cosine reduce their argument exactly for magnitudes
    /// below 2^20 * pi/2; far beyond that the reduced quadrant loses
    /// accuracy.
    pub fn rotate(&self, angle: Scalar) -> (r: Vector2d)
        ensures
            ({
                let c = cos_b(angle.bits);
                let s = sin_b(angle.bits);
                r.x.bits == sub_bits(mul_bits(self.x.bits, c), mul_bits(self.y.bits, s))
                    && r.y.bits == add_bits(mul_bits(self.x.bits, s), mul_bits(self.y.bits, c))
            }),
    {
        let cos_angle = angle.cos();
        let sin_angle = angle.sin();
        Vector2d {
            x: self.x.mul(cos_angle).sub(self.y.mul(sin_angle)),
            y: self.x.mul(sin_angle).add(self.y.mul(cos_angle)),
        }
    }

    /// In-place translation by another vector.
    pub fn translate_vector(&mut self, vector: &Vector2d)
        ensures
            is_zero_b(vector.x.bits) && is_zero_b(vector.y.bits) ==> *final (self) == *old(self),
            !(is_zero_b(vector.x.bits) && is_zero_b(vector.y.bits)) ==> final (self).x.bits
                == add_bits(old(self).x.bits, vector.x.bits) && final (self).y.bits == add_bits(
                old(self).y.bits,
                vector.y.bits,
            ),
    {
        self.translate(vector.x, vector.y);
    }

    pub fn translate_vector2d(&mut self, vector: &Vector2d)
        ensures
            is_zero_b(vector.x.bits) && is_zero_b(vector.y.bits) ==> *final (self) == *old(self),
            !(is_zero_b(vector.x.bits) && is_zero_b(vector.y.bits)) ==> final (self).x.bits
                == add_bits(old(self).x.bits, vector.x.bits) && final (self).y.bits == add_bits(
                old(self).y.bits,
                vector.y.bits,
            ),
    {
        self.translate(vector.x, vector.y);
    }

    pub fn translate_vector2d_ref(&mut self, vector: &Vector2d)
        ensures
            is_zero_b(vector.x.bits) && is_zero_b(vector.y.bits) ==> *final (self) == *old(self),
            !(is_zero_b(vector.x.bits) && is_zero_b(vector.y.bits)) ==> final (self).x.bits
                == add_bits(old(self).x.bits, vector.x.bits) && final (self).y.bits == add_bits(
                old(self).y.bits,
                vector.y.bits,
            ),
    {
        self.translate(vector.x, vector.y);
    }

    pub fn translate_vector2d_ref_mut(&mut self, vector: &mut Vector2d)
        ensures
            *final (vector) == *old(vector),
            is_zero_b(old(vector).x.bits) && is_zero_b(old(vector).y.bits) ==> *final (self)
                == *old(self),
            !(is_zero_b(old(vector).x.bits) && is_zero_b(old(vector).y.bits)) ==> final (self).x.bits
                == add_bits(old(self).x.bits, old(vector).x.bits) && final (self).y.bits
                == add_bits(old(self).y.bits, old(vector).y.bits),
    {
        self.translate(vector.x, vector.y);
    }

    /// Reflection about a normal direction, guarded: a non-finite result
    /// component yields the null vector.
    pub fn reflect(&self, normal: &Vector2d) -> (r: Vector2d)
        ensures
            ({
                let d = v_dot_b(self.x.bits, self.y.bits, normal.x.bits, normal.y.bits);
                let rx = sub_bits(self.x.bits, mul_bits(mul_bits(TWO_BITS, d), normal.x.bits));
                let ry = sub_bits(self.y.bits, mul_bits(mul_bits(TWO_BITS, d), normal.y.bits));
                if is_finite_b(rx) && is_finite_b(ry) {
                    r.x.bits == rx && r.y.bits == ry
                } else {
                    r.x.bits == POS_ZERO && r.y.bits == POS_ZERO
                }
            }),
    {
        let two = Scalar::two();
        let dot_product = self.dot(normal);
        let rx = self.x.sub(two.mul(dot_product).mul(normal.x));
        let ry = self.y.sub(two.mul(dot_product).mul(normal.y));
        if rx.is_finite() && ry.is_finite() {
            Vector2d { x: rx, y: ry }
        } else {
            Vector2d::null()
        }
    }

    /// The scalar projection onto another vector, guarded: a non-finite
    /// quotient yields zero.
    pub fn projection_length(&self, other: &Vector2d) -> (r: Scalar)
        ensures
            ({
                let q = div_bits(
                    v_dot_b(self.x.bits, self.y.bits, other.x.bits, other.y.bits),
                    v_len_b(other.x.bits, other.y.bits),
                );
                if is_finite_b(q) {
                    r.bits == q
                } else {
                    r.bits == POS_ZERO
                }
            }),
    {
        let q = self.dot(other).div(other.length());
        if q.is_finite() {
            q
        } else {
            Scalar::zero()
        }
    }

    /// The vector projection onto another vector, guarded: a non-finite
    /// result component yields the null vector.
    pub fn project_onto(&self, other: &Vector2d) -> (r: Vector2d)
        ensures
            ({
                let d = v_dot_b(self.x.bits, self.y.bits, other.x.bits, other.y.bits);
                let l = v_lensq_b(other.x.bits, other.y.bits);
                let rx = div_bits(mul_bits(other.x.bits, d), l);
                let ry = div_bits(mul_bits(other.y.bits, d), l);
                if is_finite_b(rx) && is_finite_b(ry) {
                    r.x.bits == rx && r.y.bits == ry
                } else {
                    r.x.bits == POS_ZERO && r.y.bits == POS_ZERO
                }
            }),
    {
        let dot_product = self.dot(other);
        let length_squared = other.length_squared();
        let rx = other.x.mul(dot_product).div(length_squared);
        let ry = other.y.mul(dot_product).div(length_squared);
        if rx.is_finite() && ry.is_finite() {
            Vector2d { x: rx, y: ry }
        } else {
            Vector2d::null()
        }
    }

    /// Reflection across an axis through twice the projection, guarded: a
    /// non-finite result component yields the null vector.
    pub fn reflect_across(&self, axis: &Vector2d) -> (r: Vector2d)
        ensures
            ({
                let p = {
                    let d = v_dot_b(self.x.bits, self.y.bits, axis.x.bits, axis.y.bits);
                    let l = v_lensq_b(axis.x.bits, axis.y.bits);
                    let rx = div_bits(mul_bits(axis.x.bits, d), l);
                    let ry = div_bits(mul_bits(axis.y.bits, d), l);
                    if is_finite_b(rx) && is_finite_b(ry) {
                        (rx, ry)
                    } else {
                        (POS_ZERO, POS_ZERO)
                    }
                };
                let rx = sub_bits(mul_bits(p.0, TWO_BITS), self.x.bits);
                let ry = sub_bits(mul_bits(p.1, TWO_BITS), self.y.bits);
                if is_finite_b(rx) && is_finite_b(ry) {
                    r.x.bits == rx && r.y.bits == ry
                } else {
                    r.x.bits == POS_ZERO && r.y.bits == POS_ZERO
                }
            }),
    {
        let two = Scalar::two();
        let projection = self.project_onto(axis);
        let rx = projection.x.mul(two).sub(self.x);
        let ry = projection.y.mul(two).sub(self.y);
        if rx.is_finite() && ry.is_finite() {
            Vector2d { x: rx, y: ry }
        } else {
            Vector2d::null()
        }
    }

    /// The component perpendicular to another vector, guarded as the
    /// projection is.
    pub fn perpendicular_to(&self, other: &Vector2d) -> (r: Vector2d)
        ensures
            ({
                let d = v_dot_b(self.x.bits, self.y.bits, other.x.bits, other.y.bits);
                let l = v_lensq_b(other.x.bits, other.y.bits);
                let rx = div_bits(mul_bits(other.y.bits, d), l);
                let ry = div_bits(mul_bits(flip_sign(other.x.bits), d), l);
                if is_finite_b(rx) && is_finite_b(ry) {
                    r.x.bits == rx && r.y.bits == ry
                } else {
                    r.x.bits == POS_ZERO && r.y.bits == POS_ZERO
                }
            }),
    {
        let dot_product = self.dot(other);
        let length_squared = other.length_squared();
        let rx = other.y.mul(dot_product).div(length_squared);
        let ry = other.x.neg().mul(dot_product).div(length_squared);
        if rx.is_finite() && ry.is_finite() {
            Vector2d { x: rx, y: ry }
        } else {
            Vector2d::null()
        }
    }

    /// Exact negation of both components.
    pub fn set_neg(&self) -> (r: Vector2d)
        ensures
            r.x.bits == flip_sign(self.x.bits),
            r.y.bits == flip_sign(self.y.bits),
    {
        Vector2d { x: self.x.neg(), y: self.y.neg() }
    }

    /// Setting from polar form: x = radius*cos(angle), y = radius*sin(angle).
    /// The sine and cosine reduce their argument exactly for magnitudes
    /// below 2^20 * pi/2; far beyond that the reduced quadrant loses
    /// accuracy.
    pub fn set_polar(&mut self, radius: Scalar, angle: Scalar)
        ensures
            final (self).x.bits == mul_bits(radius.bits, cos_b(angle.bits)),
            final (self).y.bits == mul_bits(radius.bits, sin_b(angle.bits)),
    {
        self.x = radius.mul(angle.cos());
        self.y = radius.mul(angle.sin());
    }

    /// Setting from polar form with the angle in degrees, under the same
    /// argument-reduction limit as `set_polar`.
    pub fn set_polar_degrees(&mut self, radius: Scalar, angle: Scalar)
        ensures
            ({
                let rad = mul_bits(angle.bits, RAD_F32_BITS);
                final (self).x.bits == mul_bits(radius.bits, cos_b(rad)) && final (self).y.bits
                    == mul_bits(radius.bits, sin_b(rad))
            }),
    {
        let angle_rad = angle.mul(Scalar { bits: RAD_F32_BITS });
        self.x = radius.mul(angle_rad.cos());
        self.y = radius.mul(angle_rad.sin());
    }

    /// The polar form: the guarded length and the guarded angle.
    pub fn get_polar(&self) -> (r: (Scalar, Scalar))
        ensures
            r.0.bits == v_len_b(self.x.bits, self.y.bits),
            r.1.bits == v_angle_b(self.x.bits, self.y.bits),
    {
        (self.length(), self.angle())
    }

    /// The polar form in degrees: the guarded length and the clockwise
    /// degree angle from the positive x axis.
    pub fn get_polar_degrees(&self) -> (r: (Scalar, Scalar))
        ensures
            r.0.bits == v_len_b(self.x.bits, self.y.bits),
            ({
                let a = mul_bits(
                    sub_bits(atan2_b(POS_ZERO, ONE_BITS), atan2_b(self.y.bits, self.x.bits)),
                    DEG_F32_BITS,
                );
                r.1.bits == (if float_lt(a, POS_ZERO) {
                    add_bits(a, THREE_SIXTY_BITS)
                } else {
                    a
                })
            }),
    {
        (self.length(), self.angle_from_x_axis_positive())
    }

    /// The counterclockwise perpendicular.
    pub fn perpendicular(&self) -> (r: Vector2d)
        ensures
            r.x.bits == flip_sign(self.y.bits),
            r.y == self.x,
    {
        Vector2d { x: self.y.neg(), y: self.x }
    }

    /// The clockwise perpendicular.
    pub fn perpendicular_neg(&self) -> (r: Vector2d)
        ensures
            r.x == self.y,
            r.y.bits == flip_sign(self.x.bits),
    {
        Vector2d { x: self.y, y: self.x.neg() }
    }

    pub fn perpendicular_x(&self) -> (r: Vector2d)
        ensures
            r.x == self.y,
            r.y.bits == POS_ZERO,
    {
        Vector2d { x: self.y, y: Scalar::zero() }
    }

    pub fn perpendicular_y(&self) -> (r: Vector2d)
        ensures
            r.x.bits == POS_ZERO,
            r.y.bits == flip_sign(self.x.bits),
    {
        Vector2d { x: Scalar::zero(), y: self.x.neg() }
    }

    pub fn perpendicular_neg_x(&self) -> (r: Vector2d)
        ensures
            r.x.bits == flip_sign(self.y.bits),
            r.y.bits == POS_ZERO,
    {
        Vector2d { x: self.y.neg(), y: Scalar::zero() }
    }

    pub fn perpendicular_neg_y(&self) -> (r: Vector2d)
        ensures
            r.x.bits == POS_ZERO,
            r.y == self.x,
    {
        Vector2d { x: Scalar::zero(), y: self.x }
    }

    /// Exact negation of both components.
    pub fn negate(&self) -> (r: Vector2d)
        ensures
            r.x.bits == flip_sign(self.x.bits),
            r.y.bits == flip_sign(self.y.bits),
    {
        Vector2d { x: self.x.neg(), y: self.y.neg() }
    }

    pub fn negate_x(&self) -> (r: Vector2d)
        ensures
            r.x.bits == flip_sign(self.x.bits),
            r.y == self.y,
    {
        Vector2d { x: self.x.neg(), y: self.y }
    }

    pub fn negate_y(&self) -> (r: Vector2d)
        ensures
            r.x == self.x,
            r.y.bits == flip_sign(self.y.bits),
    {
        Vector2d { x: self.x, y: self.y.neg() }
    }

    pub fn negate_both(&self) -> (r: Vector2d)
        ensures
            r.x.bits == flip_sign(self.x.bits),
            r.y.bits == flip_sign(self.y.bits),
    {
        Vector2d { x: self.x.neg(), y: self.y.neg() }
    }
}

impl Default for Vector2d {
    /// The default vector is the null vector.
    fn default() -> (r: Vector2d)
        ensures
            r.x.bits == POS_ZERO && r.y.bits == POS_ZERO,
    {
        Vector2d::null()
    }
}

impl PartialOrd for Vector2d {
    /// Lexicographic comparison: the x components decide, and the y
    /// components are consulted only when the x components are equal.
    fn partial_cmp(&self, other: &Vector2d) -> (r: Option<Ordering>) {
        match self.x.partial_cmp(&other.x) {
            Some(Ordering::Equal) => self.y.partial_cmp(&other.y),
            ord => ord,
        }
    }
}

impl vstd::std_specs::cmp::PartialOrdSpecImpl for Vector2d {
    open spec fn obeys_partial_cmp_spec() -> bool {
        true
    }

    open spec fn partial_cmp_spec(&self, other: &Vector2d) -> Option<Ordering> {
        match vstd::std_specs::cmp::PartialOrdSpec::partial_cmp_spec(&self.x, &other.x) {
            Some(Ordering::Equal) => vstd::std_specs::cmp::PartialOrdSpec::partial_cmp_spec(
                &self.y,
                &other.y,
            ),
            ord => ord,
        }
    }
}

} // verus!
