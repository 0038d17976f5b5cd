//! The positional value type: a point wrapping one vector, with distances,
//! midpoints and reflections under the same robustness rules.

use vstd::prelude::*;
use core::cmp::Ordering;
use crate::scalar::{
    Scalar, mag_of, sign_of, is_nan_b, is_finite_b, float_eq, float_lt, float_gt,
    flip_sign, snap_b, guarded, add_bits, sub_bits, mul_bits, div_bits, POS_ZERO, ONE_BITS,
    TWO_BITS,
};
use crate::sqrt::sqrt_bits;
use crate::trig::{acos_b, sin_b, cos_b};
use crate::vector2d::{Vector2d, v_lensq_b, v_len_b, v_angle_b, v_dot_b, v_cross_b};

verus! {

/// Bit pattern of the machine epsilon used by the approximate predicates.
pub const MACH_EPS_BITS: u64 = 0x3CB0_0000_0000_0000;

/// A 2D point wrapping one vector by exclusive ownership.
#[derive(Clone, Copy, Debug, PartialEq, Hash)]
pub struct Point2d(pub Vector2d);

/// The guarded distance: the root of the squared component differences, with
/// NaN and infinities replaced by zero and near-zero results snapped.
pub open spec fn p_dist_b(x1: u64, y1: u64, x2: u64, y2: u64) -> u64 {
    guarded(sqrt_bits(v_lensq_b(sub_bits(x1, x2), sub_bits(y1, y2))))
}

impl Point2d {
    pub fn new(x: Scalar, y: Scalar) -> (r: Point2d)
        ensures
            r.0.x == x && r.0.y == y,
    {
        Point2d(Vector2d::new(x, y))
    }

    pub fn x(&self) -> (r: Scalar)
        ensures
            r == self.0.x,
    {
        self.0.x
    }

    pub fn set_x(&mut self, x: Scalar)
        ensures
            final (self).0.x == x && final (self).0.y == old(self).0.y,
    {
        self.0.x = x;
    }

    pub fn y(&self) -> (r: Scalar)
        ensures
            r == self.0.y,
    {
        self.0.y
    }

    pub fn set_y(&mut self, y: Scalar)
        ensures
            final (self).0.x == old(self).0.x && final (self).0.y == y,
    {
        self.0.y = y;
    }

    pub fn with_x_y(x: Scalar, y: Scalar) -> (r: Point2d)
        ensures
            r.0.x == x && r.0.y == y,
    {
        Point2d(Vector2d::new(x, y))
    }

    pub fn with_x(x: Scalar) -> (r: Point2d)
        ensures
            r.0.x == x && r.0.y.bits == POS_ZERO,
    {
        Point2d(Vector2d::new(x, Scalar::zero()))
    }

    pub fn with_y(y: Scalar) -> (r: Point2d)
        ensures
            r.0.x.bits == POS_ZERO && r.0.y == y,
    {
        Point2d(Vector2d::new(Scalar::zero(), y))
    }

    pub fn as_mut_vector(&mut self) -> (r: &mut Vector2d)
        ensures
            *r == old(self).0,
            *final (self) == Point2d(*final (r)),
    {
        &mut self.0
    }

    pub fn as_vector(&self) -> (r: &Vector2d)
        ensures
            *r == self.0,
    {
        &self.0
    }

    pub fn get(&self) -> (r: (Scalar, Scalar))
        ensures
            r.0 == self.0.x && r.1 == self.0.y,
    {
        (self.x(), self.y())
    }

    pub fn set(&mut self, x: Scalar, y: Scalar)
        ensures
            final (self).0.x == x && final (self).0.y == y,
    {
        self.0.x = x;
        self.0.y = y;
    }

    pub fn to_tuple(&self) -> (r: (Scalar, Scalar))
        ensures
            r.0 == self.0.x && r.1 == self.0.y,
    {
        (self.x(), self.y())
    }

    pub fn to_vector(&self) -> (r: Vector2d)
        ensures
            r == self.0,
    {
        self.0
    }

    pub fn from_vector(vector: Vector2d) -> (r: Point2d)
        ensures
            r.0 == vector,
    {
        Point2d(vector)
    }

    /// The guarded length of the position vector.
    pub fn length(&self) -> (r: Scalar)
        ensures
            r.bits == v_len_b(self.0.x.bits, self.0.y.bits),
            is_finite_b(r.bits) && !sign_of(r.bits),
    {
        self.0.length()
    }

    /// The squared length, unguarded.
    pub fn length_squared(&self) -> (r: Scalar)
        ensures
            r.bits == v_lensq_b(self.0.x.bits, self.0.y.bits),
    {
        self.0.length_squared()
    }

    /// The guarded direction angle.
    pub fn angle(&self) -> (r: Scalar)
        ensures
            r.bits == v_angle_b(self.0.x.bits, self.0.y.bits),
            is_finite_b(r.bits),
    {
        self.0.angle()
    }

    /// The angle between the position vectors through the arccosine of the
    /// normalized dot product, with non-finite cosines and arccosine domain
    /// errors absorbed to zero.
    pub fn angle_between(&self, other: &Point2d) -> (r: Scalar)
        ensures
            ({
                let c = div_bits(
                    v_dot_b(self.0.x.bits, self.0.y.bits, other.0.x.bits, other.0.y.bits),
                    mul_bits(
                        v_len_b(self.0.x.bits, self.0.y.bits),
                        v_len_b(other.0.x.bits, other.0.y.bits),
                    ),
                );
                if !is_finite_b(c) {
                    r.bits == POS_ZERO
                } else if is_nan_b(acos_b(c)) {
                    r.bits == POS_ZERO
                } else {
                    r.bits == acos_b(c)
                }
            }),
    {
        let dot_product = self.dot(other);
        let magnitude_self = self.length();
        let magnitude_other = other.length();
        let c = dot_product.div(magnitude_self.mul(magnitude_other));
        if c.is_nan() || c.is_infinite() {
            Scalar::zero()
        } else {
            let a = c.acos();
            if a.is_nan() {
                Scalar::zero()
            } else {
                a
            }
        }
    }

    /// The guarded Euclidean distance: never NaN, never infinite, never
    /// negative, and exact zero for coincident finite points.
    pub fn distance_to(&self, other: &Point2d) -> (r: Scalar)
        ensures
            r.bits == p_dist_b(self.0.x.bits, self.0.y.bits, other.0.x.bits, other.0.y.bits),
            is_finite_b(r.bits) && !sign_of(r.bits),
            is_finite_b(self.0.x.bits) && is_finite_b(self.0.y.bits) && is_finite_b(other.0.x.bits)
                && is_finite_b(other.0.y.bits) && float_eq(self.0.x.bits, other.0.x.bits)
                && float_eq(self.0.y.bits, other.0.y.bits) ==> r.bits == POS_ZERO,
    {
        let dx = self.x().sub(other.x());
        let dy = self.y().sub(other.y());
        dx.mul(dx).add(dy.mul(dy)).sqrt().guard()
    }

    /// The guarded squared distance.
    pub fn distance_squared_to(&self, other: &Point2d) -> (r: Scalar)
        ensures
            r.bits == guarded(
                v_lensq_b(
                    sub_bits(self.0.x.bits, other.0.x.bits),
                    sub_bits(self.0.y.bits, other.0.y.bits),
                ),
            ),
    {
        let dx = self.x().sub(other.x());
        let dy = self.y().sub(other.y());
        dx.mul(dx).add(dy.mul(dy)).guard()
    }

    /// The guarded Euclidean distance from the component differences.
    pub fn distance(&self, other: &Point2d) -> (r: Scalar)
        ensures
            r.bits == p_dist_b(self.0.x.bits, self.0.y.bits, other.0.x.bits, other.0.y.bits),
    {
        self.distance_to(other)
    }

    /// The dot product, unguarded; on NaN-free operands it is symmetric.
    pub fn dot(&self, other: &Point2d) -> (r: Scalar)
        ensures
            r.bits == v_dot_b(self.0.x.bits, self.0.y.bits, other.0.x.bits, other.0.y.bits),
            !is_nan_b(self.0.x.bits) && !is_nan_b(self.0.y.bits) && !is_nan_b(other.0.x.bits)
                && !is_nan_b(other.0.y.bits) ==> r.bits == v_dot_b(
                other.0.x.bits,
                other.0.y.bits,
                self.0.x.bits,
                self.0.y.bits,
            ),
    {
        self.0.x.mul(other.0.x).add(self.0.y.mul(other.0.y))
    }

    pub fn cross(&self, other: &Point2d) -> (r: Scalar)
        ensures
            r.bits == v_cross_b(self.0.x.bits, self.0.y.bits, other.0.x.bits, other.0.y.bits),
    {
        self.0.x.mul(other.0.y).sub(self.0.y.mul(other.0.x))
    }

    /// Normalization with identity fallback: a zero-length or invalid result
    /// leaves the point as it is, and near-zero unit components snap to zero.
    pub fn normalized(&self) -> (r: Point2d)
        ensures
            ({
                let len = v_len_b(self.0.x.bits, self.0.y.bits);
                if mag_of(len) == 0 {
                    r == *self
                } else {
                    let dx = div_bits(self.0.x.bits, len);
                    let dy = div_bits(self.0.y.bits, len);
                    if !is_finite_b(dx) || !is_finite_b(dy) {
                        r == *self
                    } else {
                        r.0.x.bits == snap_b(dx) && r.0.y.bits == snap_b(dy)
                    }
                }
            }),
    {
        let length = self.length();
        if length.is_zero() {
            *self
        } else {
            let dx = self.x().div(length);
            let dy = self.y().div(length);
            if dx.is_nan() || dx.is_infinite() || dy.is_nan() || dy.is_infinite() {
                *self
            } else {
                Point2d::new(dx.snap(), dy.snap())
            }
        }
    }

    /// The unit vector with the same identity fallback as `normalized`.
    pub fn unit_vector(&self) -> (r: Point2d)
        ensures
            ({
                let len = v_len_b(self.0.x.bits, self.0.y.bits);
                if mag_of(len) == 0 {
                    r == *self
                } else {
                    let dx = div_bits(self.0.x.bits, len);
                    let dy = div_bits(self.0.y.bits, len);
                    if !is_finite_b(dx) || !is_finite_b(dy) {
                        r == *self
                    } else {
                        r.0.x.bits == snap_b(dx) && r.0.y.bits == snap_b(dy)
                    }
                }
            }),
    {
        self.normalized()
    }

    /// Whether the length is within machine epsilon of one.
    pub fn is_unit_vector(&self) -> (r: bool)
        ensures
            r == float_lt(
                mag_of(sub_bits(v_len_b(self.0.x.bits, self.0.y.bits), ONE_BITS)),
                MACH_EPS_BITS,
            ),
    {
        self.length().sub(Scalar::one()).abs().lt(&Scalar { bits: MACH_EPS_BITS })
    }

    pub fn is_unit(&self) -> (r: bool)
        ensures
            r == float_lt(
                mag_of(sub_bits(v_len_b(self.0.x.bits, self.0.y.bits), ONE_BITS)),
                MACH_EPS_BITS,
            ),
    {
        self.is_unit_vector()
    }

    pub fn is_normalized(&self) -> (r: bool)
        ensures
            r == float_lt(
                mag_of(sub_bits(v_len_b(self.0.x.bits, self.0.y.bits), ONE_BITS)),
                MACH_EPS_BITS,
            ),
    {
        self.is_unit_vector()
    }

    pub fn is_equal(&self, other: &Point2d) -> (r: bool)
        ensures
            r == (float_eq(self.0.x.bits, other.0.x.bits) && float_eq(
                self.0.y.bits,
                other.0.y.bits,
            )),
    {
        self.0.x.eq_val(&other.0.x) && self.0.y.eq_val(&other.0.y)
    }

    /// Componentwise equality within machine epsilon.
    pub fn is_approx_equal(&self, other: &Point2d) -> (r: bool)
        ensures
            r == (float_lt(mag_of(sub_bits(self.0.x.bits, other.0.x.bits)), MACH_EPS_BITS)
                && float_lt(mag_of(sub_bits(self.0.y.bits, other.0.y.bits)), MACH_EPS_BITS)),
    {
        let eps = Scalar { bits: MACH_EPS_BITS };
        self.0.x.sub(other.0.x).abs().lt(&eps) && self.0.y.sub(other.0.y).abs().lt(&eps)
    }

    /// Collinearity as a near-zero cross product; parallel and collinear are
    /// deliberately the same test here.
    pub fn is_collinear(&self, other: &Point2d) -> (r: bool)
        ensures
            r == float_lt(
                mag_of(v_cross_b(self.0.x.bits, self.0.y.bits, other.0.x.bits, other.0.y.bits)),
                MACH_EPS_BITS,
            ),
    {
        self.cross(other).abs().lt(&Scalar { bits: MACH_EPS_BITS })
    }

    pub fn is_parallel(&self, other: &Point2d) -> (r: bool)
        ensures
            r == float_lt(
                mag_of(v_cross_b(self.0.x.bits, self.0.y.bits, other.0.x.bits, other.0.y.bits)),
                MACH_EPS_BITS,
            ),
    {
        self.cross(other).abs().lt(&Scalar { bits: MACH_EPS_BITS })
    }

    pub fn is_perpendicular(&self, other: &Point2d) -> (r: bool)
        ensures
            r == float_lt(
                mag_of(v_dot_b(self.0.x.bits, self.0.y.bits, other.0.x.bits, other.0.y.bits)),
                MACH_EPS_BITS,
            ),
    {
        self.dot(other).abs().lt(&Scalar { bits: MACH_EPS_BITS })
    }

    pub fn is_orthogonal(&self, other: &Point2d) -> (r: bool)
        ensures
            r == float_lt(
                mag_of(v_dot_b(self.0.x.bits, self.0.y.bits, other.0.x.bits, other.0.y.bits)),
                MACH_EPS_BITS,
            ),
    {
        self.dot(other).abs().lt(&Scalar { bits: MACH_EPS_BITS })
    }

    pub fn is_non_zero(&self) -> (r: bool)
        ensures
            r == (!float_eq(self.0.x.bits, POS_ZERO) || !float_eq(self.0.y.bits, POS_ZERO)),
    {
        !self.0.x.eq_val(&Scalar::zero()) || !self.0.y.eq_val(&Scalar::zero())
    }

    pub fn is_not_null(&self) -> (r: bool)
        ensures
            r == (!float_eq(self.0.x.bits, POS_ZERO) || !float_eq(self.0.y.bits, POS_ZERO)),
    {
        self.is_non_zero()
    }

    pub fn is_positive(&self) -> (r: bool)
        ensures
            r == (float_gt(self.0.x.bits, POS_ZERO) && float_gt(self.0.y.bits, POS_ZERO)),
    {
        self.0.x.gt(&Scalar::zero()) && self.0.y.gt(&Scalar::zero())
    }

    pub fn is_negative(&self) -> (r: bool)
        ensures
            r == (float_lt(self.0.x.bits, POS_ZERO) && float_lt(self.0.y.bits, POS_ZERO)),
    {
        self.0.x.lt(&Scalar::zero()) && self.0.y.lt(&Scalar::zero())
    }

    pub fn is_zero(&self) -> (r: bool)
        ensures
            r == (float_eq(self.0.x.bits, POS_ZERO) && float_eq(self.0.y.bits, POS_ZERO)),
    {
        self.0.x.eq_val(&Scalar::zero()) && self.0.y.eq_val(&Scalar::zero())
    }

    pub fn is_null(&self) -> (r: bool)
        ensures
            r == (float_eq(self.0.x.bits, POS_ZERO) && float_eq(self.0.y.bits, POS_ZERO)),
    {
        self.is_zero()
    }

    /// The exact arithmetic mean of the coordinates; on NaN-free operands it
    /// is symmetric.
    pub fn midpoint(&self, other: &Point2d) -> (r: Point2d)
        ensures
            r.0.x.bits == div_bits(add_bits(self.0.x.bits, other.0.x.bits), TWO_BITS),
            r.0.y.bits == div_bits(add_bits(self.0.y.bits, other.0.y.bits), TWO_BITS),
            !is_nan_b(self.0.x.bits) && !is_nan_b(self.0.y.bits) && !is_nan_b(other.0.x.bits)
                && !is_nan_b(other.0.y.bits) ==> r.0.x.bits == div_bits(
                add_bits(other.0.x.bits, self.0.x.bits),
                TWO_BITS,
            ) && r.0.y.bits == div_bits(add_bits(other.0.y.bits, self.0.y.bits), TWO_BITS),
    {
        let two = Scalar::two();
        Point2d::new(self.0.x.add(other.0.x).div(two), self.0.y.add(other.0.y).div(two))
    }

    /// Rotation by the standard 2D rotation matrix.  The sine and cosine
    /// reduce their argument exactly for magnitudes below 2^20 * pi/2; far
    /// beyond that the reduced quadrant loses accuracy.
    pub fn rotate(&self, angle: Scalar) -> (r: Point2d)
        ensures
            ({
                let c = cos_b(angle.bits);
                let s = sin_b(angle.bits);
                r.0.x.bits == sub_bits(mul_bits(self.0.x.bits, c), mul_bits(self.0.y.bits, s))
                    && r.0.y.bits == add_bits(
                    mul_bits(self.0.x.bits, s),
                    mul_bits(self.0.y.bits, c),
                )
            }),
    {
        let cos_theta = angle.cos();
        let sin_theta = angle.sin();
        Point2d::new(
            self.x().mul(cos_theta).sub(self.y().mul(sin_theta)),
            self.x().mul(sin_theta).add(self.y().mul(cos_theta)),
        )
    }

    /// Exact reflection across the x axis.
    pub fn reflect_x(&self) -> (r: Point2d)
        ensures
            r.0.x == self.0.x,
            r.0.y.bits == flip_sign(self.0.y.bits),
    {
        Point2d::new(self.0.x, self.0.y.neg())
    }

    /// Exact reflection across the y axis.
    pub fn reflect_y(&self) -> (r: Point2d)
        ensures
            r.0.x.bits == flip_sign(self.0.x.bits),
            r.0.y == self.0.y,
    {
        Point2d::new(self.0.x.neg(), self.0.y)
    }

    /// Exact reflection through the origin.
    pub fn reflect_origin(&self) -> (r: Point2d)
        ensures
            r.0.x.bits == flip_sign(self.0.x.bits),
            r.0.y.bits == flip_sign(self.0.y.bits),
    {
        Point2d::new(self.0.x.neg(), self.0.y.neg())
    }
}

impl core::ops::Add<Vector2d> for Point2d {
    type Output = Point2d;

    /// Translation of a point by a vector.
    fn add(self, rhs: Vector2d) -> (r: Point2d) {
        Point2d(Vector2d::new(self.0.x.add(rhs.x), self.0.y.add(rhs.y)))
    }
}

impl vstd::std_specs::ops::AddSpecImpl<Vector2d> for Point2d {
    open spec fn obeys_add_spec() -> bool {
        true
    }

    open spec fn add_req(self, rhs: Vector2d) -> bool {
        true
    }

    open spec fn add_spec(self, rhs: Vector2d) -> Point2d {
        Point2d(
            Vector2d {
                x: Scalar { bits: add_bits(self.0.x.bits, rhs.x.bits) },
                y: Scalar { bits: add_bits(self.0.y.bits, rhs.y.bits) },
            },
        )
    }
}

impl core::ops::Neg for Point2d {
    type Output = Point2d;

    /// Exact componentwise negation.
    fn neg(self) -> (r: Point2d) {
        Point2d(Vector2d::new(self.0.x.neg(), self.0.y.neg()))
    }
}

impl vstd::std_specs::ops::NegSpecImpl for Point2d {
    open spec fn obeys_neg_spec() -> bool {
        true
    }

    open spec fn neg_req(self) -> bool {
        true
    }

    open spec fn neg_spec(self) -> Point2d {
        Point2d(
            Vector2d {
                x: Scalar { bits: flip_sign(self.0.x.bits) },
                y: Scalar { bits: flip_sign(self.0.y.bits) },
            },
        )
    }
}

impl Default for Point2d {
    /// The default point is the origin.
    fn default() -> (r: Point2d)
        ensures
            r.0.x.bits == POS_ZERO && r.0.y.bits == POS_ZERO,
    {
        Point2d(Vector2d::null())
    }
}

impl PartialOrd for Point2d {
    /// Lexicographic comparison: the y components decide only when the x
    /// components are equal.
    fn partial_cmp(&self, other: &Point2d) -> (r: Option<Ordering>) {
        match self.x().partial_cmp(&other.x()) {
            Some(Ordering::Equal) => self.y().partial_cmp(&other.y()),
            ord => ord,
        }
    }
}

impl vstd::std_specs::cmp::PartialOrdSpecImpl for Point2d {
    open spec fn obeys_partial_cmp_spec() -> bool {
        true
    }

    open spec fn partial_cmp_spec(&self, other: &Point2d) -> Option<Ordering> {
        match vstd::std_specs::cmp::PartialOrdSpec::partial_cmp_spec(&self.0.x, &other.0.x) {
            Some(Ordering::Equal) => vstd::std_specs::cmp::PartialOrdSpec::partial_cmp_spec(
                &self.0.y,
                &other.0.y,
            ),
            ord => ord,
        }
    }
}

/// The sum of two counters.
pub fn add(left: u64, right: u64) -> (r: u64)
    requires
        left + right <= u64::MAX,
    ensures
        r == left + right,
{
    left + right
}

} // verus!
