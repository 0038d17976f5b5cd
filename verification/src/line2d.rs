//! The segment value type: two points, with length, angle, polar form, unit
//! direction, normals and pairwise relations, each under its documented
//! degenerate-case policy.

use vstd::prelude::*;
use crate::scalar::{
    Scalar, mag_of, sign_of, is_nan_b, is_inf_b, is_finite_b, is_zero_b, is_tiny_b, float_eq,
    float_lt, float_gt, flip_sign, snap_b, add_bits, sub_bits, mul_bits, div_bits, POS_ZERO,
    ONE_BITS, TWO_BITS, INF_MAG,
};
use crate::sqrt::sqrt_bits;
use crate::trig::{atan2_b, sin_b, cos_b, acos_b};
use crate::vector2d::{Vector2d, v_lensq_b};
use crate::point2d::{Point2d, p_dist_b};

verus! {

/// Bit pattern of two pi, the upper bound of the line angle range.
pub const TWO_PI_BITS: u64 = 0x401921FB54442D18;

/// Degrees per radian in full binary64 precision, the factor the degree
/// conversions scale by.
pub const DEG_F64_BITS: u64 = 0x404CA5DC1A63C1F8;

/// Radians per degree in full binary64 precision.
pub const RAD_F64_BITS: u64 = 0x3F91DF46A2529D39;

/// A line segment from `pt1` to `pt2`; the two may coincide, and every
/// derived quantity special-cases that degenerate line.
#[derive(Clone, Copy, Debug, PartialEq)]
pub struct Line2d {
    pub pt1: Point2d,
    pub pt2: Point2d,
}

/// The run: the difference of the x coordinates.
pub open spec fn l_dx_b(l: Line2d) -> u64 {
    sub_bits(l.pt2.0.x.bits, l.pt1.0.x.bits)
}

/// The rise: the difference of the y coordinates.
pub open spec fn l_dy_b(l: Line2d) -> u64 {
    sub_bits(l.pt2.0.y.bits, l.pt1.0.y.bits)
}

/// Degeneracy: the endpoints are equal in the scalar ordering.
pub open spec fn l_is_point_b(l: Line2d) -> bool {
    float_eq(l.pt1.0.x.bits, l.pt2.0.x.bits) && float_eq(l.pt1.0.y.bits, l.pt2.0.y.bits)
}

/// The guarded segment length: exact zero for a degenerate line, otherwise
/// the guarded distance between the endpoints, with an impossible negative
/// result defensively clamped to zero.
pub open spec fn l_length_b(l: Line2d) -> u64 {
    if l_is_point_b(l) {
        POS_ZERO
    } else {
        let d = p_dist_b(l.pt1.0.x.bits, l.pt1.0.y.bits, l.pt2.0.x.bits, l.pt2.0.y.bits);
        if float_lt(d, POS_ZERO) {
            POS_ZERO
        } else {
            d
        }
    }
}

/// The guarded line angle, normalized into [0, 2 pi): zero for a degenerate
/// line or non-finite differences, the raw arctangent guarded and snapped,
/// and a negative angle brought up by two pi, one at or above two pi brought
/// down by two pi.
pub open spec fn l_angle_b(l: Line2d) -> u64 {
    if l_is_point_b(l) {
        POS_ZERO
    } else if is_nan_b(l_dx_b(l)) || is_nan_b(l_dy_b(l)) {
        POS_ZERO
    } else if is_inf_b(l_dx_b(l)) || is_inf_b(l_dy_b(l)) {
        POS_ZERO
    } else {
        let raw = atan2_b(l_dy_b(l), l_dx_b(l));
        if is_nan_b(raw) || is_inf_b(raw) {
            POS_ZERO
        } else if is_tiny_b(raw) {
            POS_ZERO
        } else if float_lt(raw, POS_ZERO) {
            add_bits(raw, TWO_PI_BITS)
        } else if float_gt(raw, TWO_PI_BITS) {
            sub_bits(raw, TWO_PI_BITS)
        } else {
            raw
        }
    }
}

/// The unit-direction line, mirroring the executable fallback policy: any
/// guard failure returns the original line unchanged.
pub open spec fn l_unit_vector_b(l: Line2d) -> Line2d {
    let len = l_length_b(l);
    if is_nan_b(len) || is_inf_b(len) {
        l
    } else if mag_of(len) == 0 {
        l
    } else {
        let udx = div_bits(l_dx_b(l), len);
        let udy = div_bits(l_dy_b(l), len);
        if is_nan_b(udx) || is_nan_b(udy) {
            l
        } else if is_inf_b(udx) || is_inf_b(udy) {
            l
        } else {
            let sdx = snap_b(udx);
            let sdy = snap_b(udy);
            if mag_of(sdx) == 0 && mag_of(sdy) == 0 {
                l
            } else {
                Line2d {
                    pt1: l.pt1,
                    pt2: Point2d(
                        Vector2d {
                            x: Scalar { bits: add_bits(l.pt1.0.x.bits, sdx) },
                            y: Scalar { bits: add_bits(l.pt1.0.y.bits, sdy) },
                        },
                    ),
                }
            }
        }
    }
}

/// The polar form: length and angle of the displacement, with any guard
/// failure collapsing the whole pair to zero.
pub open spec fn l_get_polar_b(l: Line2d) -> (u64, u64) {
    let dx = l_dx_b(l);
    let dy = l_dy_b(l);
    let len = sqrt_bits(v_lensq_b(dx, dy));
    if is_nan_b(len) || is_inf_b(len) {
        (POS_ZERO, POS_ZERO)
    } else {
        let raw = atan2_b(dy, dx);
        if is_nan_b(raw) || is_inf_b(raw) {
            (POS_ZERO, POS_ZERO)
        } else if is_tiny_b(len) {
            (POS_ZERO, POS_ZERO)
        } else if is_tiny_b(raw) {
            (POS_ZERO, POS_ZERO)
        } else if float_lt(raw, POS_ZERO) {
            (len, add_bits(raw, TWO_PI_BITS))
        } else if float_gt(raw, TWO_PI_BITS) {
            (len, sub_bits(raw, TWO_PI_BITS))
        } else {
            (len, raw)
        }
    }
}

/// The dot product of the two direction vectors.
pub open spec fn l_dot_b(a: Line2d, b: Line2d) -> u64 {
    add_bits(mul_bits(l_dx_b(a), l_dx_b(b)), mul_bits(l_dy_b(a), l_dy_b(b)))
}

/// The cross product of the two direction vectors.
pub open spec fn l_cross_b(a: Line2d, b: Line2d) -> u64 {
    sub_bits(mul_bits(l_dx_b(a), l_dy_b(b)), mul_bits(l_dy_b(a), l_dx_b(b)))
}

impl Line2d {
    pub fn new(pt1: Point2d, pt2: Point2d) -> (r: Line2d)
        ensures
            r.pt1 == pt1 && r.pt2 == pt2,
    {
        Line2d { pt1, pt2 }
    }

    pub fn pt1(&self) -> (r: &Point2d)
        ensures
            *r == self.pt1,
    {
        &self.pt1
    }

    pub fn x1(&self) -> (r: Scalar)
        ensures
            r == self.pt1.0.x,
    {
        self.pt1.x()
    }

    pub fn set_x1(&mut self, x: Scalar)
        ensures
            final (self).pt1.0.x == x,
            final (self).pt1.0.y == old(self).pt1.0.y,
            final (self).pt2 == old(self).pt2,
    {
        self.pt1.set_x(x);
    }

    pub fn y1(&self) -> (r: Scalar)
        ensures
            r == self.pt1.0.y,
    {
        self.pt1.y()
    }

    pub fn pt2(&self) -> (r: &Point2d)
        ensures
            *r == self.pt2,
    {
        &self.pt2
    }

    pub fn x2(&self) -> (r: Scalar)
        ensures
            r == self.pt2.0.x,
    {
        self.pt2.x()
    }

    pub fn y2(&self) -> (r: Scalar)
        ensures
            r == self.pt2.0.y,
    {
        self.pt2.y()
    }

    pub fn set_pt1(&mut self, pt: Point2d)
        ensures
            final (self).pt1 == pt && final (self).pt2 == old(self).pt2,
    {
        self.pt1 = pt;
    }

    pub fn set_pt2(&mut self, pt: Point2d)
        ensures
            final (self).pt1 == old(self).pt1 && final (self).pt2 == pt,
    {
        self.pt2 = pt;
    }

    pub fn set_pt1_coordinates(&mut self, x: Scalar, y: Scalar)
        ensures
            final (self).pt1.0.x == x && final (self).pt1.0.y == y,
            final (self).pt2 == old(self).pt2,
    {
        self.pt1 = Point2d::new(x, y);
    }

    pub fn set_pt2_coordinates(&mut self, x: Scalar, y: Scalar)
        ensures
            final (self).pt1 == old(self).pt1,
            final (self).pt2.0.x == x && final (self).pt2.0.y == y,
    {
        self.pt2 = Point2d::new(x, y);
    }

    pub fn set_line_from_points(&mut self, pt1: Point2d, pt2: Point2d)
        ensures
            final (self).pt1 == pt1 && final (self).pt2 == pt2,
    {
        self.pt1 = pt1;
        self.pt2 = pt2;
    }

    pub fn set_line_from_coordinates(&mut self, x1: Scalar, y1: Scalar, x2: Scalar, y2: Scalar)
        ensures
            final (self).pt1.0.x == x1 && final (self).pt1.0.y == y1,
            final (self).pt2.0.x == x2 && final (self).pt2.0.y == y2,
    {
        self.pt1 = Point2d::new(x1, y1);
        self.pt2 = Point2d::new(x2, y2);
    }

    pub fn dx(&self) -> (r: Scalar)
        ensures
            r.bits == l_dx_b(*self),
    {
        self.pt2.x().sub(self.pt1.x())
    }

    pub fn dy(&self) -> (r: Scalar)
        ensures
            r.bits == l_dy_b(*self),
    {
        self.pt2.y().sub(self.pt1.y())
    }

    pub fn delta_xy(&self) -> (r: Point2d)
        ensures
            r.0.x.bits == l_dx_b(*self),
            r.0.y.bits == l_dy_b(*self),
    {
        Point2d::new(self.dx(), self.dy())
    }

    /// The slope: infinity for a vertical line, otherwise rise over run.
    pub fn slope(&self) -> (r: Scalar)
        ensures
            float_eq(l_dx_b(*self), POS_ZERO) ==> r.bits == INF_MAG,
            !float_eq(l_dx_b(*self), POS_ZERO) ==> r.bits == div_bits(l_dy_b(*self), l_dx_b(*self)),
    {
        let dx = self.dx();
        if dx.eq_val(&Scalar::zero()) {
            Scalar::infinity()
        } else {
            self.dy().div(dx)
        }
    }

    pub fn is_vertical(&self) -> (r: bool)
        ensures
            r == float_eq(l_dx_b(*self), POS_ZERO),
    {
        self.dx().eq_val(&Scalar::zero())
    }

    pub fn is_horizontal(&self) -> (r: bool)
        ensures
            r == float_eq(l_dy_b(*self), POS_ZERO),
    {
        self.dy().eq_val(&Scalar::zero())
    }

    pub fn is_point(&self) -> (r: bool)
        ensures
            r == l_is_point_b(*self),
    {
        self.pt1.is_equal(&self.pt2)
    }

    /// The segment length: exactly zero for a degenerate line, and never
    /// NaN, infinite or negative.  On lines with finite coordinates it
    /// coincides exactly with the distance between the endpoints.
    pub fn length(&self) -> (r: Scalar)
        ensures
            r.bits == l_length_b(*self),
            is_finite_b(r.bits) && !sign_of(r.bits),
            l_is_point_b(*self) ==> r.bits == POS_ZERO,
            is_finite_b(self.pt1.0.x.bits) && is_finite_b(self.pt1.0.y.bits) && is_finite_b(
                self.pt2.0.x.bits,
            ) && is_finite_b(self.pt2.0.y.bits) ==> r.bits == p_dist_b(
                self.pt1.0.x.bits,
                self.pt1.0.y.bits,
                self.pt2.0.x.bits,
                self.pt2.0.y.bits,
            ),
    {
        let d = self.pt1.distance_to(&self.pt2);
        if self.is_point() {
            return Scalar::zero();
        }
        if d.lt(&Scalar::zero()) {
            return Scalar::zero();
        }
        d
    }

    /// The line angle in radians, normalized into [0, 2 pi) by adding or
    /// subtracting two pi; zero for a degenerate line, non-finite
    /// differences, a non-finite raw angle, or a raw angle within the
    /// snapping tolerance of zero.
    pub fn angle(&self) -> (r: Scalar)
        ensures
            r.bits == l_angle_b(*self),
            l_is_point_b(*self) ==> r.bits == POS_ZERO,
    {
        if self.is_point() {
            return Scalar::zero();
        }
        let dx = self.dx();
        let dy = self.dy();
        if dx.is_nan() || dy.is_nan() {
            return Scalar::zero();
        }
        if dx.is_infinite() || dy.is_infinite() {
            return Scalar::zero();
        }
        let raw = dy.atan2(&dx);
        if raw.is_nan() || raw.is_infinite() {
            return Scalar::zero();
        }
        if raw.is_tiny() {
            return Scalar::zero();
        }
        let two_pi = Scalar { bits: TWO_PI_BITS };
        if raw.lt(&Scalar::zero()) {
            raw.add(two_pi)
        } else if raw.gt(&two_pi) {
            raw.sub(two_pi)
        } else {
            raw
        }
    }

    /// The line angle scaled to degrees, with the same policy and snapping.
    pub fn angle_degrees(&self) -> (r: Scalar)
        ensures
            ({
                let a = l_angle_b(*self);
                if is_nan_b(a) || is_inf_b(a) {
                    r.bits == POS_ZERO
                } else {
                    let deg = mul_bits(a, DEG_F64_BITS);
                    if is_nan_b(deg) || is_inf_b(deg) {
                        r.bits == POS_ZERO
                    } else if is_tiny_b(deg) {
                        r.bits == POS_ZERO
                    } else {
                        r.bits == deg
                    }
                }
            }),
    {
        let a = self.angle();
        if a.is_nan() || a.is_infinite() {
            return Scalar::zero();
        }
        let deg = a.mul(Scalar { bits: DEG_F64_BITS });
        if deg.is_nan() || deg.is_infinite() {
            return Scalar::zero();
        }
        if deg.is_tiny() {
            return Scalar::zero();
        }
        deg
    }

    /// Re-aims the end point from the start point using the current length
    /// and the given angle; a NaN or infinite angle, or an invalid current
    /// length, leaves the line unchanged.  The sine and cosine reduce their
    /// argument exactly for magnitudes below 2^20 * pi/2; far beyond that
    /// the reduced quadrant loses accuracy.
    pub fn set_angle(&mut self, angle: Scalar)
        ensures
            is_nan_b(angle.bits) || is_inf_b(angle.bits) ==> *final (self) == *old(self),
            !(is_nan_b(angle.bits) || is_inf_b(angle.bits)) ==> ({
                let len = l_length_b(*old(self));
                if is_nan_b(len) || is_inf_b(len) || float_lt(len, POS_ZERO) {
                    *final (self) == *old(self)
                } else {
                    final (self).pt1 == old(self).pt1 && final (self).pt2.0.x.bits == add_bits(
                        old(self).pt1.0.x.bits,
                        mul_bits(len, cos_b(angle.bits)),
                    ) && final (self).pt2.0.y.bits == add_bits(
                        old(self).pt1.0.y.bits,
                        mul_bits(len, sin_b(angle.bits)),
                    )
                }
            }),
    {
        if angle.is_nan() || angle.is_infinite() {
            return ;
        }
        let length = self.length();
        if length.is_nan() || length.is_infinite() || length.lt(&Scalar::zero()) {
            return ;
        }
        let dx = length.mul(angle.cos());
        let dy = length.mul(angle.sin());
        let nx = self.pt1.x().add(dx);
        let ny = self.pt1.y().add(dy);
        self.pt2.set_x(nx);
        self.pt2.set_y(ny);
    }

    /// As `set_angle`, with the angle given in degrees, under the same
    /// argument-reduction limit.
    pub fn set_angle_degrees(&mut self, angle_degrees: Scalar)
        ensures
            is_nan_b(angle_degrees.bits) || is_inf_b(angle_degrees.bits) ==> *final (self)
                == *old(self),
            !(is_nan_b(angle_degrees.bits) || is_inf_b(angle_degrees.bits)) ==> ({
                let a = mul_bits(angle_degrees.bits, RAD_F64_BITS);
                let len = l_length_b(*old(self));
                if is_nan_b(a) || is_inf_b(a) {
                    *final (self) == *old(self)
                } else if is_nan_b(len) || is_inf_b(len) || float_lt(len, POS_ZERO) {
                    *final (self) == *old(self)
                } else {
                    final (self).pt1 == old(self).pt1 && final (self).pt2.0.x.bits == add_bits(
                        old(self).pt1.0.x.bits,
                        mul_bits(len, cos_b(a)),
                    ) && final (self).pt2.0.y.bits == add_bits(
                        old(self).pt1.0.y.bits,
                        mul_bits(len, sin_b(a)),
                    )
                }
            }),
    {
        if angle_degrees.is_nan() || angle_degrees.is_infinite() {
            return ;
        }
        let angle = angle_degrees.mul(Scalar { bits: RAD_F64_BITS });
        self.set_angle(angle);
    }

    /// Re-scales the end point from the start point along the unit direction
    /// to the given length; a NaN, infinite or negative length leaves the
    /// line unchanged.
    pub fn set_length(&mut self, length: Scalar)
        ensures
            is_nan_b(length.bits) || is_inf_b(length.bits) || float_lt(length.bits, POS_ZERO)
                ==> *final (self) == *old(self),
            !(is_nan_b(length.bits) || is_inf_b(length.bits) || float_lt(length.bits, POS_ZERO))
                ==> ({
                let uv = l_unit_vector_b(*old(self));
                final (self).pt1 == old(self).pt1 && final (self).pt2.0.x.bits == add_bits(
                    old(self).pt1.0.x.bits,
                    mul_bits(l_dx_b(uv), length.bits),
                ) && final (self).pt2.0.y.bits == add_bits(
                    old(self).pt1.0.y.bits,
                    mul_bits(l_dy_b(uv), length.bits),
                )
            }),
    {
        if length.is_nan() || length.is_infinite() || length.lt(&Scalar::zero()) {
            return ;
        }
        let unit_vector = self.unit_vector();
        let dx = unit_vector.dx().mul(length);
        let dy = unit_vector.dy().mul(length);
        let nx = self.pt1.x().add(dx);
        let ny = self.pt1.y().add(dy);
        self.pt2 = Point2d::new(nx, ny);
    }

    /// The dot product of the two lines' direction vectors, unguarded; on
    /// NaN-free differences it is symmetric.
    pub fn dot(&self, other: &Line2d) -> (r: Scalar)
        ensures
            r.bits == l_dot_b(*self, *other),
            !is_nan_b(l_dx_b(*self)) && !is_nan_b(l_dy_b(*self)) && !is_nan_b(l_dx_b(*other))
                && !is_nan_b(l_dy_b(*other)) ==> r.bits == l_dot_b(*other, *self),
    {
        let dx1 = self.dx();
        let dy1 = self.dy();
        let dx2 = other.dx();
        let dy2 = other.dy();
        dx1.mul(dx2).add(dy1.mul(dy2))
    }

    /// The cross product of the two lines' direction vectors, unguarded.
    pub fn cross(&self, other: &Line2d) -> (r: Scalar)
        ensures
            r.bits == l_cross_b(*self, *other),
    {
        let dx1 = self.dx();
        let dy1 = self.dy();
        let dx2 = other.dx();
        let dy2 = other.dy();
        dx1.mul(dy2).sub(dy1.mul(dx2))
    }

    /// The polar form of the displacement, with the angle normalized into
    /// [0, 2 pi); any guard failure yields the zero pair.
    pub fn get_polar(&self) -> (r: (Scalar, Scalar))
        ensures
            (r.0.bits, r.1.bits) == l_get_polar_b(*self),
    {
        let dx = self.dx();
        let dy = self.dy();
        let len = dx.mul(dx).add(dy.mul(dy)).sqrt();
        if len.is_nan() || len.is_infinite() {
            return (Scalar::zero(), Scalar::zero());
        }
        let raw = dy.atan2(&dx);
        if raw.is_nan() || raw.is_infinite() {
            return (Scalar::zero(), Scalar::zero());
        }
        if len.is_tiny() {
            return (Scalar::zero(), Scalar::zero());
        }
        if raw.is_tiny() {
            return (Scalar::zero(), Scalar::zero());
        }
        let two_pi = Scalar { bits: TWO_PI_BITS };
        if raw.lt(&Scalar::zero()) {
            (len, raw.add(two_pi))
        } else if raw.gt(&two_pi) {
            (len, raw.sub(two_pi))
        } else {
            (len, raw)
        }
    }

    /// The candidate end point for the given polar form, as a pure value:
    /// the zero pair when the length is NaN, infinite or negative, or when a
    /// displacement component is NaN or infinite.  The sine and cosine
    /// reduce their argument exactly for magnitudes below 2^20 * pi/2; far
    /// beyond that the reduced quadrant loses accuracy.
    pub fn set_polar(&self, length: Scalar, angle: Scalar) -> (r: (Scalar, Scalar))
        ensures
            ({
                if is_nan_b(length.bits) || is_inf_b(length.bits) || float_lt(
                    length.bits,
                    POS_ZERO,
                ) {
                    r.0.bits == POS_ZERO && r.1.bits == POS_ZERO
                } else {
                    let dx = mul_bits(length.bits, cos_b(angle.bits));
                    let dy = mul_bits(length.bits, sin_b(angle.bits));
                    if is_nan_b(dx) || is_nan_b(dy) || is_inf_b(dx) || is_inf_b(dy) {
                        r.0.bits == POS_ZERO && r.1.bits == POS_ZERO
                    } else {
                        r.0.bits == add_bits(self.pt1.0.x.bits, dx) && r.1.bits == add_bits(
                            self.pt1.0.y.bits,
                            dy,
                        )
                    }
                }
            }),
    {
        if length.is_nan() || length.is_infinite() || length.lt(&Scalar::zero()) {
            return (Scalar::zero(), Scalar::zero());
        }
        let dx = length.mul(angle.cos());
        let dy = length.mul(angle.sin());
        if dx.is_nan() || dy.is_nan() {
            return (Scalar::zero(), Scalar::zero());
        }
        if dx.is_infinite() || dy.is_infinite() {
            return (Scalar::zero(), Scalar::zero());
        }
        (self.pt1.x().add(dx), self.pt1.y().add(dy))
    }

    /// Scales the displacement by a factor; a NaN, infinite or negative
    /// factor leaves the line unchanged, and a zero factor collapses the end
    /// point onto the start point.
    pub fn scale(&mut self, scale: Scalar)
        ensures
            is_nan_b(scale.bits) || is_inf_b(scale.bits) || float_lt(scale.bits, POS_ZERO)
                ==> *final (self) == *old(self),
            !(is_nan_b(scale.bits) || is_inf_b(scale.bits) || float_lt(scale.bits, POS_ZERO))
                && float_eq(scale.bits, POS_ZERO) ==> final (self).pt1 == old(self).pt1
                && final (self).pt2.0.x == old(self).pt1.0.x && final (self).pt2.0.y == old(
                self,
            ).pt1.0.y,
            !(is_nan_b(scale.bits) || is_inf_b(scale.bits) || float_lt(scale.bits, POS_ZERO))
                && !float_eq(scale.bits, POS_ZERO) ==> final (self).pt1 == old(self).pt1
                && final (self).pt2.0.x.bits == add_bits(
                old(self).pt1.0.x.bits,
                mul_bits(l_dx_b(*old(self)), scale.bits),
            ) && final (self).pt2.0.y.bits == add_bits(
                old(self).pt1.0.y.bits,
                mul_bits(l_dy_b(*old(self)), scale.bits),
            ),
    {
        if scale.is_nan() || scale.is_infinite() || scale.lt(&Scalar::zero()) {
            return ;
        }
        if scale.eq_val(&Scalar::zero()) {
            let x1 = self.pt1.x();
            let y1 = self.pt1.y();
            self.pt2.set_x(x1);
            self.pt2.set_y(y1);
            return ;
        }
        let dx = self.dx();
        let dy = self.dy();
        let nx = self.pt1.x().add(dx.mul(scale));
        let ny = self.pt1.y().add(dy.mul(scale));
        self.pt2.set_x(nx);
        self.pt2.set_y(ny);
    }

    /// The squared length of the displacement, unguarded.
    pub fn length_squared(&self) -> (r: Scalar)
        ensures
            r.bits == v_lensq_b(l_dx_b(*self), l_dy_b(*self)),
    {
        let dx = self.dx();
        let dy = self.dy();
        dx.mul(dx).add(dy.mul(dy))
    }

    /// The point at parameter t along the segment; outside [0, 1] the zero
    /// point is returned, deliberately not an endpoint and not an error.
    pub fn point_at(&self, t: Scalar) -> (r: Point2d)
        ensures
            float_lt(t.bits, POS_ZERO) || float_gt(t.bits, ONE_BITS) ==> r.0.x.bits == POS_ZERO
                && r.0.y.bits == POS_ZERO,
            !(float_lt(t.bits, POS_ZERO) || float_gt(t.bits, ONE_BITS)) ==> r.0.x.bits == add_bits(
                self.pt1.0.x.bits,
                mul_bits(l_dx_b(*self), t.bits),
            ) && r.0.y.bits == add_bits(self.pt1.0.y.bits, mul_bits(l_dy_b(*self), t.bits)),
            t.bits == POS_ZERO && is_finite_b(l_dx_b(*self)) && is_finite_b(l_dy_b(*self))
                && !is_nan_b(self.pt1.0.x.bits) && !is_nan_b(self.pt1.0.y.bits) ==> float_eq(
                r.0.x.bits,
                self.pt1.0.x.bits,
            ) && float_eq(r.0.y.bits, self.pt1.0.y.bits),
    {
        if t.lt(&Scalar::zero()) || t.gt(&Scalar::one()) {
            return Point2d::new(Scalar::zero(), Scalar::zero());
        }
        let x = self.pt1.x().add(self.dx().mul(t));
        let y = self.pt1.y().add(self.dy().mul(t));
        Point2d::new(x, y)
    }

    /// The exact arithmetic mean of the endpoints.
    pub fn midpoint(&self) -> (r: Point2d)
        ensures
            r.0.x.bits == div_bits(add_bits(self.pt1.0.x.bits, self.pt2.0.x.bits), TWO_BITS),
            r.0.y.bits == div_bits(add_bits(self.pt1.0.y.bits, self.pt2.0.y.bits), TWO_BITS),
    {
        let two = Scalar::two();
        Point2d::new(
            self.pt1.x().add(self.pt2.x()).div(two),
            self.pt1.y().add(self.pt2.y()).div(two),
        )
    }

    /// The line shifted by the perpendicular of its own displacement: an
    /// exact 90-degree construction with no guards.
    pub fn normal(&self) -> (r: Line2d)
        ensures
            r.pt1.0.x.bits == sub_bits(self.pt1.0.x.bits, l_dy_b(*self)),
            r.pt1.0.y.bits == add_bits(self.pt1.0.y.bits, l_dx_b(*self)),
            r.pt2.0.x.bits == sub_bits(self.pt2.0.x.bits, l_dy_b(*self)),
            r.pt2.0.y.bits == add_bits(self.pt2.0.y.bits, l_dx_b(*self)),
    {
        let dx = self.dx();
        let dy = self.dy();
        Line2d::new(
            Point2d::new(self.pt1.x().sub(dy), self.pt1.y().add(dx)),
            Point2d::new(self.pt2.x().sub(dy), self.pt2.y().add(dx)),
        )
    }

    /// The counterclockwise normal of the displacement.
    pub fn normal_vector(&self) -> (r: Vector2d)
        ensures
            r.x.bits == flip_sign(l_dy_b(*self)),
            r.y.bits == l_dx_b(*self),
    {
        Vector2d::new(self.dy().neg(), self.dx())
    }

    /// The displacement as a vector.
    pub fn to_vector(&self) -> (r: Vector2d)
        ensures
            r.x.bits == l_dx_b(*self),
            r.y.bits == l_dy_b(*self),
    {
        Vector2d::new(self.dx(), self.dy())
    }

    /// The line of unit length from the start point in this line's
    /// direction.  Any guard failure - zero length, NaN, infinities, or both
    /// unit components snapping to zero - returns the original line
    /// unchanged, so a degenerate line is returned identically.
    pub fn unit_vector(&self) -> (r: Line2d)
        ensures
            r == l_unit_vector_b(*self),
            l_is_point_b(*self) ==> r == *self,
    {
        let length = self.length();
        if length.is_nan() || length.is_infinite() {
            return Line2d::new(self.pt1, self.pt2);
        }
        if length.is_zero() {
            return Line2d::new(self.pt1, self.pt2);
        }
        let unit_dx = self.dx().div(length);
        let unit_dy = self.dy().div(length);
        if unit_dx.is_nan() || unit_dy.is_nan() {
            return Line2d::new(self.pt1, self.pt2);
        }
        if unit_dx.is_infinite() || unit_dy.is_infinite() {
            return Line2d::new(self.pt1, self.pt2);
        }
        let sdx = unit_dx.snap();
        let sdy = unit_dy.snap();
        if sdx.is_zero() && sdy.is_zero() {
            return Line2d::new(self.pt1, self.pt2);
        }
        Line2d::new(self.pt1, Point2d::new(self.pt1.x().add(sdx), self.pt1.y().add(sdy)))
    }

    /// The perpendicular bisector: from the midpoint along the normal, an
    /// exact construction with no guards.
    pub fn perpendicular_bisector(&self) -> (r: Line2d)
        ensures
            ({
                let mx = div_bits(add_bits(self.pt1.0.x.bits, self.pt2.0.x.bits), TWO_BITS);
                let my = div_bits(add_bits(self.pt1.0.y.bits, self.pt2.0.y.bits), TWO_BITS);
                r.pt1.0.x.bits == mx && r.pt1.0.y.bits == my && r.pt2.0.x.bits == add_bits(
                    mx,
                    flip_sign(l_dy_b(*self)),
                ) && r.pt2.0.y.bits == add_bits(my, l_dx_b(*self))
            }),
    {
        let midpoint = self.midpoint();
        let normal_vector = self.normal_vector();
        Line2d::new(
            midpoint,
            Point2d::new(midpoint.x().add(normal_vector.x), midpoint.y().add(normal_vector.y)),
        )
    }

    /// Collinearity as an exactly zero cross product; parallel and collinear
    /// are deliberately the same test.
    pub fn is_collinear(&self, other: &Line2d) -> (r: bool)
        ensures
            r == is_zero_b(l_cross_b(*self, *other)),
    {
        self.cross(other).is_zero()
    }

    pub fn is_parallel(&self, other: &Line2d) -> (r: bool)
        ensures
            r == is_zero_b(l_cross_b(*self, *other)),
    {
        self.cross(other).is_zero()
    }

    pub fn is_perpendicular(&self, other: &Line2d) -> (r: bool)
        ensures
            r == is_zero_b(l_dot_b(*self, *other)),
    {
        self.dot(other).is_zero()
    }

    pub fn is_orthogonal(&self, other: &Line2d) -> (r: bool)
        ensures
            r == is_zero_b(l_dot_b(*self, *other)),
    {
        self.dot(other).is_zero()
    }

    pub fn is_same_direction(&self, other: &Line2d) -> (r: bool)
        ensures
            r == float_gt(l_dot_b(*self, *other), POS_ZERO),
    {
        self.dot(other).gt(&Scalar::zero())
    }

    pub fn is_opposite_direction(&self, other: &Line2d) -> (r: bool)
        ensures
            r == float_lt(l_dot_b(*self, *other), POS_ZERO),
    {
        self.dot(other).lt(&Scalar::zero())
    }

    /// The angle between the lines through the arccosine of the normalized
    /// dot product: zero when either line is degenerate, and a non-finite
    /// cosine ratio or an arccosine domain error is absorbed to zero.
    pub fn angle_between_dot(&self, other: &Line2d) -> (r: Scalar)
        ensures
            ({
                let l1 = l_length_b(*self);
                let l2 = l_length_b(*other);
                if mag_of(l1) == 0 || mag_of(l2) == 0 {
                    r.bits == POS_ZERO
                } else {
                    let c = div_bits(l_dot_b(*self, *other), mul_bits(l1, l2));
                    if !is_finite_b(c) {
                        r.bits == POS_ZERO
                    } else if is_nan_b(acos_b(c)) {
                        r.bits == POS_ZERO
                    } else {
                        r.bits == acos_b(c)
                    }
                }
            }),
    {
        let dot_product = self.dot(other);
        let length_self = self.length();
        let length_other = other.length();
        if length_self.is_zero() || length_other.is_zero() {
            return Scalar::zero();
        }
        let cos_theta = dot_product.div(length_self.mul(length_other));
        if cos_theta.is_nan() || cos_theta.is_infinite() {
            return Scalar::zero();
        }
        let a = cos_theta.acos();
        if a.is_nan() {
            return Scalar::zero();
        }
        a
    }

    /// Whether the turn from this line to the other is clockwise: a strictly
    /// negative cross product; a NaN or infinite cross product is
    /// conservatively not clockwise.
    pub fn is_angle_clockwise(&self, other: &Line2d) -> (r: bool)
        ensures
            ({
                let c = l_cross_b(*self, *other);
                if is_nan_b(c) || is_inf_b(c) {
                    r == false
                } else {
                    r == float_lt(c, POS_ZERO)
                }
            }),
    {
        let cross_product = self.cross(other);
        if cross_product.is_nan() || cross_product.is_infinite() {
            return false;
        }
        cross_product.lt(&Scalar::zero())
    }

    /// The dot-product angle scaled to degrees, guarded and snapped.
    pub fn angle_between_deg(&self, other: &Line2d) -> (r: Scalar)
        ensures
            ({
                let l1 = l_length_b(*self);
                let l2 = l_length_b(*other);
                let a = if mag_of(l1) == 0 || mag_of(l2) == 0 {
                    POS_ZERO
                } else {
                    let c = div_bits(l_dot_b(*self, *other), mul_bits(l1, l2));
                    if !is_finite_b(c) {
                        POS_ZERO
                    } else if is_nan_b(acos_b(c)) {
                        POS_ZERO
                    } else {
                        acos_b(c)
                    }
                };
                if is_nan_b(a) || is_inf_b(a) {
                    r.bits == POS_ZERO
                } else {
                    let deg = mul_bits(a, DEG_F64_BITS);
                    if is_nan_b(deg) || is_inf_b(deg) {
                        r.bits == POS_ZERO
                    } else if is_tiny_b(deg) {
                        r.bits == POS_ZERO
                    } else {
                        r.bits == deg
                    }
                }
            }),
    {
        let angle = self.angle_between_dot(other);
        if angle.is_nan() || angle.is_infinite() {
            return Scalar::zero();
        }
        let deg = angle.mul(Scalar { bits: DEG_F64_BITS });
        if deg.is_nan() || deg.is_infinite() {
            return Scalar::zero();
        }
        if deg.is_tiny() {
            return Scalar::zero();
        }
        deg
    }

    /// The signed angle difference reduced to a magnitude and a direction
    /// flag: the flag is set exactly when the difference of the two line
    /// angles is strictly negative, matching the clockwise sign convention
    /// of the cross product; a NaN or infinite difference yields zero and a
    /// counterclockwise flag.
    pub fn angle_to_line(&self, other: &Line2d) -> (r: (Scalar, bool))
        ensures
            ({
                let diff = sub_bits(l_angle_b(*other), l_angle_b(*self));
                if is_nan_b(diff) || is_inf_b(diff) {
                    r.0.bits == POS_ZERO && r.1 == false
                } else {
                    r.0.bits == mag_of(diff) && r.1 == float_lt(diff, POS_ZERO)
                }
            }),
    {
        let angle_self = self.angle();
        let angle_other = other.angle();
        let angle_diff = angle_other.sub(angle_self);
        if angle_diff.is_nan() || angle_diff.is_infinite() {
            return (Scalar::zero(), false);
        }
        let is_clockwise: bool = angle_diff.lt(&Scalar::zero());
        (angle_diff.abs(), is_clockwise)
    }
}

/// The sum of two counters.
pub fn add(left: u64, right: u64) -> (r: u64)
    requires
        left + right <= u64::MAX,
    ensures
        r == left + right,
{
    left + right
}

} // verus!
