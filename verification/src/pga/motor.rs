//! Motors: the operators that rotate and translate.

use core::ops::{Add, BitOr, Div, Mul, Not, Sub};
use vstd::prelude::*;
use vstd::std_specs::cmp::PartialEqSpec;
use vstd::std_specs::ops::{AddSpec, BitOrSpec, DivSpec, MulSpec, NotSpec, SubSpec};

use crate::pga::elements::{BiVector2, BiVector3, Pseudo3, Scalar2, Scalar3};
use crate::pga::line::{Line2, Line3};
use crate::pga::plane::Plane3;
use crate::pga::point::{Point2, Point3};
use crate::scalar::Num;

verus! {

/// Motor is a 2D rotation and translation operator.
///
/// It is the sum of a scalar and a bivector. A motor of unit norm moves
/// a point or a line by the sandwich product `m * x * !m`; a motor whose
/// bivector has weight zero is a translation.
#[derive(Clone, Copy, Debug, PartialEq)]
pub struct Motor2<T> {
    /// The scalar part.
    pub scalar: Scalar2<T>,
    /// The bivector part.
    pub bivector: BiVector2<T>,
}

impl<T> Motor2<T> {
    /// Creates a new motor from the given scalar and bivector.
    pub fn new(scalar: Scalar2<T>, bivector: BiVector2<T>) -> (r: Self)
        ensures
            r == (Motor2 { scalar, bivector }),
    {
        Motor2 { scalar, bivector }
    }
}

impl<T: Num> Motor2<T> {
    /// Returns the scalar part of this motor.
    pub fn scalar(&self) -> (r: Scalar2<T>)
        ensures
            r == self.scalar,
    {
        self.scalar
    }

    /// Returns the bivector part of this motor.
    pub fn bivector(&self) -> (r: BiVector2<T>)
        ensures
            r == self.bivector,
    {
        self.bivector
    }

    /// The squared norm: the scalar part of the product of the motor
    /// with its reverse.
    pub open spec fn norm2_spec(self) -> T {
        self.scalar.mul_spec(self.scalar.not_spec()).add_spec(
            self.bivector.bitor_spec(self.bivector.not_spec()),
        ).0
    }

    /// The norm: the square root of the squared norm.
    pub open spec fn norm_spec(self) -> T {
        self.norm2_spec().sqrt_spec()
    }

    /// The motor divided by its norm. A motor whose squared norm compares
    /// equal to zero is left as it is.
    pub open spec fn normalized_spec(self) -> Self {
        if self.norm2_spec().eq_spec(&T::ZERO) {
            self
        } else {
            let norm = Scalar2(self.norm_spec());
            Motor2 { scalar: self.scalar.div_spec(norm), bivector: self.bivector.div_spec(norm) }
        }
    }

    /// The point that the motor moves `point` to: the bivector part of
    /// the sandwich product `m * p * !m`, normalized.
    pub open spec fn move_point_spec(self, point: Point2<T>) -> Point2<T> {
        let bv0 = self.scalar.mul_spec(point.0);
        let (s, bv1) = self.bivector.mul_spec(point.0);
        let bv = bv0.add_spec(bv1);
        let a = s.mul_spec(self.bivector.not_spec());
        let b = bv.mul_spec(self.scalar.not_spec());
        let (_s, c) = bv.mul_spec(self.bivector.not_spec());
        Point2(a.add_spec(b).add_spec(c).normalized_spec())
    }

    /// The line that the motor moves `line` to: the vector part of the
    /// sandwich product `m * l * !m`, normalized.
    pub open spec fn move_line_spec(self, line: Line2<T>) -> Line2<T> {
        let v0 = self.scalar.mul_spec(line.0);
        let (v1, p) = self.bivector.mul_spec(line.0);
        let v = v0.add_spec(v1);
        let a = v.mul_spec(self.scalar.not_spec());
        let (b, _p) = v.mul_spec(self.bivector.not_spec());
        let c = p.mul_spec(self.bivector.not_spec());
        Line2(a.add_spec(b).add_spec(c).normalized_spec())
    }

    /// Moves the given point by this motor.
    pub fn move_point(&self, point: Point2<T>) -> (r: Point2<T>)
        ensures
            r == self.move_point_spec(point),
    {
        let bv0 = self.scalar * point.bivector();
        let (s, bv1) = self.bivector * point.bivector();
        let bv = bv0 + bv1;
        let m_s_r = self.scalar.not();
        let m_bv_r = self.bivector.not();
        let a = s * m_bv_r;
        let b = bv * m_s_r;
        let (_zero, c) = bv * m_bv_r;
        Point2::from_bivector((a + b + c).normalized())
    }

    /// Moves the given line by this motor.
    pub fn move_line(&self, line: Line2<T>) -> (r: Line2<T>)
        ensures
            r == self.move_line_spec(line),
    {
        let v0 = self.scalar * line.vector();
        let (v1, p) = self.bivector * line.vector();
        let v = v0 + v1;
        let m_s_r = self.scalar.not();
        let m_bv_r = self.bivector.not();
        let a = v * m_s_r;
        let (b, _zero) = v * m_bv_r;
        let c = p * m_bv_r;
        Line2::from_vector((a + b + c).normalized())
    }

    /// Returns norm of the motor.
    pub fn norm(&self) -> (r: T)
        ensures
            r == self.norm_spec(),
    {
        self.norm2().sqrt()
    }

    /// Returns squared norm of the motor.
    pub fn norm2(&self) -> (r: T)
        ensures
            r == self.norm2_spec(),
    {
        let s0 = self.scalar * self.scalar.not();
        let s1 = self.bivector | self.bivector.not();
        (s0 + s1).0
    }

    /// Normalizes the motor.
    pub fn normalize(&mut self)
        ensures
            *final(self) == old(self).normalized_spec(),
    {
        proof {
            T::operators_are_total();
        }
        let norm2 = self.norm2();
        if norm2 != T::ZERO {
            let norm = Scalar2(norm2.sqrt());
            self.scalar = self.scalar / norm;
            self.bivector = self.bivector / norm;
        }
    }

    /// Returns a normalized motor.
    pub fn normalized(&self) -> (r: Self)
        ensures
            r == self.normalized_spec(),
    {
        proof {
            T::operators_are_total();
        }
        let norm2 = self.norm2();
        if norm2 != T::ZERO {
            let norm = Scalar2(norm2.sqrt());
            Motor2 { scalar: self.scalar / norm, bivector: self.bivector / norm }
        } else {
            *self
        }
    }
}

impl<T: Num> Motor2<T> {
    /// The composition of two motors: their geometric product, scalar
    /// and bivector parts, normalized.
    pub open spec fn compose_spec(self, rhs: Motor2<T>) -> Motor2<T> {
        let s0 = self.scalar.mul_spec(rhs.scalar);
        let bv0 = self.scalar.mul_spec(rhs.bivector);
        let bv1 = self.bivector.mul_spec(rhs.scalar);
        let (s1, bv2) = self.bivector.mul_spec(rhs.bivector);
        Motor2 {
            scalar: s0.add_spec(s1),
            bivector: bv0.add_spec(bv1).add_spec(bv2),
        }.normalized_spec()
    }

    /// The motor to the power `rhs`.
    ///
    /// Of a translation: the scalar one and the bivector's direction
    /// times its length times `rhs`. Of a rotation by the half angle
    /// `atan2(norm of the bivector, scalar)`: the cosine of `rhs` times
    /// that angle, and the normalized bivector times the sine of it.
    /// Either is normalized.
    pub open spec fn pow_spec(self, rhs: T) -> Motor2<T> {
        if self.bivector.e12.eq_spec(&T::ZERO) {
            let log = self.bivector;
            let distance = log.ideal_norm_spec();
            let direction = if distance.eq_spec(&T::ZERO) {
                log
            } else {
                log.div_spec(distance)
            };
            Motor2 {
                scalar: Scalar2(T::ONE),
                bivector: direction.mul_spec(distance.mul_spec(rhs)),
            }.normalized_spec()
        } else {
            let atan = self.bivector.norm_spec().atan2_spec(self.scalar.0);
            let log = self.bivector.normalized_spec().mul_spec(atan);
            let alpha = log.norm_spec().mul_spec(rhs);
            let p = log.normalized_spec();
            Motor2 {
                scalar: Scalar2(alpha.cos_spec()),
                bivector: p.mul_spec(alpha.sin_spec()),
            }.normalized_spec()
        }
    }
}

impl<T: Num> Mul<Motor2<T>> for Motor2<T> {
    type Output = Motor2<T>;

    /// Composes two motors: the product moves by `rhs` first and by
    /// `self` after. The product is normalized.
    fn mul(self, rhs: Motor2<T>) -> (r: Motor2<T>)
        ensures
            r == self.compose_spec(rhs),
    {
        let s0 = self.scalar * rhs.scalar;
        let bv0 = self.scalar * rhs.bivector;
        let bv1 = self.bivector * rhs.scalar;
        let (s1, bv2) = self.bivector * rhs.bivector;
        Motor2 { scalar: s0 + s1, bivector: bv0 + bv1 + bv2 }.normalized()
    }
}

impl<T: Num> vstd::std_specs::ops::MulSpecImpl<Motor2<T>> for Motor2<T> {
    open spec fn obeys_mul_spec() -> bool {
        true
    }

    open spec fn mul_req(self, rhs: Motor2<T>) -> bool {
        true
    }

    open spec fn mul_spec(self, rhs: Motor2<T>) -> Motor2<T> {
        self.compose_spec(rhs)
    }
}

impl<T: Num> Mul<T> for Motor2<T> {
    type Output = Motor2<T>;

    /// Raises the motor to the power `rhs`: takes the motor's logarithm,
    /// scales it by `rhs` and takes the exponential.
    ///
    /// A motor whose bivector has a weight that compares equal to zero is
    /// a translation: its distance is scaled. Any other motor is a
    /// rotation: its angle is scaled.
    fn mul(self, rhs: T) -> (r: Motor2<T>)
        ensures
            r == self.pow_spec(rhs),
    {
        proof {
            T::operators_are_total();
        }
        if self.bivector.e12 == T::ZERO {
            let log = self.bivector;
            let scalar = Scalar2(T::ONE);
            let distance = log.ideal_norm();
            let direction = if distance != T::ZERO {
                log / distance
            } else {
                log
            };
            let bivector = direction * (distance * rhs);
            Motor2 { scalar, bivector }.normalized()
        } else {
            let atan = self.bivector.norm().atan2(self.scalar.0);
            let log = self.bivector.normalized() * atan;
            let alpha = log.norm() * rhs;
            let p = log.normalized();
            let (sin, cos) = alpha.sin_cos();
            let scalar = Scalar2(cos);
            let bivector = p * sin;
            Motor2 { scalar, bivector }.normalized()
        }
    }
}

impl<T: Num> vstd::std_specs::ops::MulSpecImpl<T> for Motor2<T> {
    open spec fn obeys_mul_spec() -> bool {
        true
    }

    open spec fn mul_req(self, rhs: T) -> bool {
        true
    }

    open spec fn mul_spec(self, rhs: T) -> Motor2<T> {
        self.pow_spec(rhs)
    }
}

impl<T: Num> Motor2<T> {
    /// The motor that does half of what this one does: the motor to the
    /// power one half.
    pub open spec fn sqrt_spec(self) -> Self {
        self.pow_spec(T::ONE.div_spec(T::TWO))
    }

    /// The motor that moves the point `a` to the point `b`: the square
    /// root of the normalized product `b * !a`, which moves twice as far.
    pub open spec fn point_point_spec(a: Point2<T>, b: Point2<T>) -> Self {
        let (s, bv) = b.0.mul_spec(a.0.not_spec());
        Motor2 { scalar: s, bivector: bv }.normalized_spec().sqrt_spec()
    }

    /// The motor that moves the line `a` to the line `b`: the square root
    /// of the normalized product `!b * !a`.
    pub open spec fn line_line_spec(a: Line2<T>, b: Line2<T>) -> Self {
        let (s, bv) = b.0.not_spec().mul_spec(a.0.not_spec());
        Motor2 { scalar: s, bivector: bv }.normalized_spec().sqrt_spec()
    }

    /// The motor that moves `a0` to `b0` and the line through `a0` and
    /// `a1` to the line through `b0` and `b1`: a translation followed by
    /// a rotation about `b0`.
    pub open spec fn reconstruct_spec(
        a0: Point2<T>,
        a1: Point2<T>,
        b0: Point2<T>,
        b1: Point2<T>,
    ) -> Self {
        let v1 = Self::point_point_spec(a0, b0);
        let a1 = v1.move_point_spec(a1).normalized_spec();
        let al = b0.join_spec(b1);
        let al1 = b0.join_spec(a1).normalized_spec();
        let v2 = Self::line_line_spec(al1, al).normalized_spec();
        v2.compose_spec(v1)
    }

    /// Halves the motor.
    pub fn sqrt(&self) -> (r: Self)
        ensures
            r == self.sqrt_spec(),
    {
        proof {
            T::operators_are_total();
        }
        *self * (T::ONE / T::TWO)
    }

    /// Creates a new motor from the given points.
    ///
    /// The resulting motor moves by the distance between the two points.
    pub fn point_point(a: Point2<T>, b: Point2<T>) -> (r: Self)
        ensures
            r == Self::point_point_spec(a, b),
    {
        let (s, bv) = b.bivector() * a.bivector().not();
        let double = Motor2 { scalar: s, bivector: bv };
        double.normalized().sqrt()
    }

    /// Reconstructs a motor that brings points `a` to points `b`.
    ///
    /// The resulting motor will move a[0] to b[0] and a[1] to the line through b[0] and b[1].
    pub fn reconstruct(a: [Point2<T>; 2], b: [Point2<T>; 2]) -> (r: Self)
        ensures
            r == Self::reconstruct_spec(a[0], a[1], b[0], b[1]),
    {
        // Construct translation motor to move a[0] to b[0].
        let v1 = Self::point_point(a[0], b[0]);
        // Translate a[1].
        let a1 = v1.move_point(a[1]).normalized();
        // Construct rotation motor that rotates translated line through a[0] and a[1]
        // to line through b[0] and b[1] while preserving b[0].
        let al = b[0].join(b[1]);
        let al1 = b[0].join(a1).normalized();
        let v2 = Self::line_line(al1, al).normalized();
        v2 * v1
    }

    /// Creates a new motor from the given lines.
    ///
    /// The resulting motor translates by the distance between the two lines if they are parallel.
    /// If they are not parallel, the motor rotates around the intersection point of the two lines by the angle between them.
    pub fn line_line(a: Line2<T>, b: Line2<T>) -> (r: Self)
        ensures
            r == Self::line_line_spec(a, b),
    {
        let (s, bv) = b.vector().not() * a.vector().not();
        let double = Motor2 { scalar: s, bivector: bv };
        double.normalized().sqrt()
    }
}

/// Motor is a 3D rotation and translation operator.
///
/// It is the sum of a scalar, a bivector and a pseudoscalar. A motor of
/// unit norm moves a point or a line by the sandwich product
/// `m * x * !m`.
#[derive(Clone, Copy, Debug, PartialEq)]
pub struct Motor3<T> {
    /// The scalar part.
    pub scalar: Scalar3<T>,
    /// The bivector part.
    pub bivector: BiVector3<T>,
    /// The pseudoscalar part.
    pub pseudo: Pseudo3<T>,
}

impl<T> Motor3<T> {
    /// Creates a new motor from the given scalar, bivector and
    /// pseudoscalar.
    pub fn new(scalar: Scalar3<T>, bivector: BiVector3<T>, pseudo: Pseudo3<T>) -> (r: Self)
        ensures
            r == (Motor3 { scalar, bivector, pseudo }),
    {
        Motor3 { scalar, bivector, pseudo }
    }
}

impl<T: Num> Motor3<T> {
    /// Returns the scalar part of this motor.
    pub fn scalar(&self) -> (r: Scalar3<T>)
        ensures
            r == self.scalar,
    {
        self.scalar
    }

    /// Returns the bivector part of this motor.
    pub fn bivector(&self) -> (r: BiVector3<T>)
        ensures
            r == self.bivector,
    {
        self.bivector
    }

    /// Returns the pseudoscalar part of this motor.
    pub fn pseudo(&self) -> (r: Pseudo3<T>)
        ensures
            r == self.pseudo,
    {
        self.pseudo
    }

    /// The squared norm: the scalar part of the product of the motor
    /// with its reverse.
    pub open spec fn norm2_spec(self) -> T {
        self.scalar.mul_spec(self.scalar.not_spec()).add_spec(
            self.bivector.bitor_spec(self.bivector.not_spec()),
        ).0
    }

    /// The norm: the square root of the squared norm.
    pub open spec fn norm_spec(self) -> T {
        self.norm2_spec().sqrt_spec()
    }

    /// The motor divided by its norm. A motor whose squared norm compares
    /// equal to zero is left as it is.
    pub open spec fn normalized_spec(self) -> Self {
        if self.norm2_spec().eq_spec(&T::ZERO) {
            self
        } else {
            let norm = self.norm_spec();
            Motor3 {
                scalar: self.scalar.div_spec(norm),
                bivector: self.bivector.div_spec(norm),
                pseudo: self.pseudo.div_spec(norm),
            }
        }
    }

    /// The point that the motor moves `point` to: the trivector part of
    /// the sandwich product `m * p * !m`, normalized.
    pub open spec fn move_point_spec(self, point: Point3<T>) -> Point3<T> {
        let tv0 = self.scalar.mul_spec(point.0);
        let (v1, tv1) = self.bivector.mul_spec(point.0);
        let v2 = self.pseudo.mul_spec(point.0);
        let v = v1.add_spec(v2);
        let tv = tv0.add_spec(tv1);
        let (_v, a) = v.mul_spec(self.bivector.not_spec());
        let b = tv.mul_spec(self.scalar.not_spec());
        let (_w, c) = tv.mul_spec(self.bivector.not_spec());
        let d = v.mul_spec(self.pseudo.not_spec());
        Point3(a.add_spec(b).add_spec(c).add_spec(d).normalized_spec())
    }

    /// The line that the motor moves `line` to: the bivector part of the
    /// sandwich product `m * l * !m`, normalized.
    pub open spec fn move_line_spec(self, line: Line3<T>) -> Line3<T> {
        let bv0 = self.scalar.mul_spec(line.0);
        let (s, bv1, p) = self.bivector.mul_spec(line.0);
        let bv2 = self.pseudo.mul_spec(line.0);
        let bv = bv0.add_spec(bv1).add_spec(bv2);
        let a = s.mul_spec(self.bivector.not_spec());
        let b = bv.mul_spec(self.scalar.not_spec());
        let (_s, c, _p) = bv.mul_spec(self.bivector.not_spec());
        let d = p.mul_spec(self.bivector.not_spec());
        let e = bv.mul_spec(self.pseudo.not_spec());
        Line3(a.add_spec(b).add_spec(c).add_spec(d).add_spec(e).normalized_spec())
    }

    /// The composition of two motors: their geometric product, the sum
    /// of the products of their parts, normalized.
    pub open spec fn compose_spec(self, rhs: Motor3<T>) -> Motor3<T> {
        let s0 = self.scalar.mul_spec(rhs.scalar);
        let bv0 = self.scalar.mul_spec(rhs.bivector);
        let p0 = self.scalar.mul_spec(rhs.pseudo);
        let bv1 = self.bivector.mul_spec(rhs.scalar);
        let (s1, bv2, p1) = self.bivector.mul_spec(rhs.bivector);
        let bv3 = self.bivector.mul_spec(rhs.pseudo);
        let p2 = self.pseudo.mul_spec(rhs.scalar);
        let bv4 = self.pseudo.mul_spec(rhs.bivector);
        Motor3 {
            scalar: s0.add_spec(s1),
            bivector: bv0.add_spec(bv1).add_spec(bv2).add_spec(bv3).add_spec(bv4),
            pseudo: p0.add_spec(p1).add_spec(p2),
        }.normalized_spec()
    }

    /// Half of the pseudoscalar part of the product of the motor and its
    /// reverse: the product of the scalar and the pseudoscalar, less the
    /// inner product of the two parts of the bivector.
    pub open spec fn twist_spec(self) -> T {
        self.scalar.0.mul_spec(self.pseudo.e0123).sub_spec(
            self.bivector.e01.mul_spec(self.bivector.e23).add_spec(
                self.bivector.e02.mul_spec(self.bivector.e31),
            ).add_spec(self.bivector.e03.mul_spec(self.bivector.e12)),
        )
    }

    /// The motor without its twist: the motor whose product with its
    /// reverse has no pseudoscalar part, and which has the same scalar
    /// and the same direction. A motor without a twist, or with the
    /// squared norm zero, is left as it is.
    pub open spec fn untwisted_spec(self) -> Self {
        let twist = self.twist_spec();
        if twist.eq_spec(&T::ZERO) || self.norm2_spec().eq_spec(&T::ZERO) {
            self
        } else {
            let part = twist.div_spec(self.norm2_spec());
            Motor3 {
                scalar: self.scalar,
                bivector: BiVector3 {
                    e01: self.bivector.e01.add_spec(part.mul_spec(self.bivector.e23)),
                    e02: self.bivector.e02.add_spec(part.mul_spec(self.bivector.e31)),
                    e03: self.bivector.e03.add_spec(part.mul_spec(self.bivector.e12)),
                    e12: self.bivector.e12,
                    e31: self.bivector.e31,
                    e23: self.bivector.e23,
                },
                pseudo: Pseudo3 {
                    e0123: self.pseudo.e0123.sub_spec(part.mul_spec(self.scalar.0)),
                },
            }
        }
    }

    /// The motor that does half of what this one does: the sum of the
    /// motor and one, without its twist, normalized.
    pub open spec fn sqrt_spec(self) -> Self {
        Motor3 {
            scalar: self.scalar.add_spec(T::ONE),
            bivector: self.bivector,
            pseudo: self.pseudo,
        }.untwisted_spec().normalized_spec()
    }

    /// The motor that moves the point `a` to the point `b`: the square
    /// root of the normalized product `b * !a`, which moves twice as far.
    pub open spec fn point_point_spec(a: Point3<T>, b: Point3<T>) -> Self {
        let (s, bv) = b.0.mul_spec(a.0.not_spec());
        Motor3 {
            scalar: s,
            bivector: BiVector3 {
                e01: bv.e01,
                e02: bv.e02,
                e03: bv.e03,
                e12: T::ZERO,
                e31: T::ZERO,
                e23: T::ZERO,
            },
            pseudo: Pseudo3 { e0123: T::ZERO },
        }.normalized_spec().sqrt_spec()
    }

    /// The motor that moves the line `a` to the line `b`: the square root
    /// of the normalized product `b * !a`.
    pub open spec fn line_line_spec(a: Line3<T>, b: Line3<T>) -> Self {
        let (s, bv, p) = b.0.mul_spec(a.0.not_spec());
        Motor3 { scalar: s, bivector: bv, pseudo: p }.normalized_spec().sqrt_spec()
    }

    /// The motor that moves the plane `a` to the plane `b`: the square
    /// root of the normalized product `!b * !a`.
    pub open spec fn plane_plane_spec(a: Plane3<T>, b: Plane3<T>) -> Self {
        let (s, bv) = b.0.not_spec().mul_spec(a.0.not_spec());
        Motor3 {
            scalar: s,
            bivector: bv,
            pseudo: Pseudo3 { e0123: T::ZERO },
        }.normalized_spec().sqrt_spec()
    }

    /// The motor that moves `a0` to `b0`, the line through `a0` and `a1`
    /// to the line through `b0` and `b1`, and the plane through `a0`,
    /// `a1` and `a2` to the plane through `b0`, `b1` and `b2`: a
    /// translation, then a rotation about `b0`, then a rotation about the
    /// line through `b0` and `b1`.
    pub open spec fn reconstruct_spec(
        a0: Point3<T>,
        a1: Point3<T>,
        a2: Point3<T>,
        b0: Point3<T>,
        b1: Point3<T>,
        b2: Point3<T>,
    ) -> Self {
        let v1 = Self::point_point_spec(a0, b0);
        let a1t = v1.move_point_spec(a1).normalized_spec();
        let al = b0.join_spec(b1);
        let al1 = b0.join_spec(a1t).normalized_spec();
        let v2 = Self::line_line_spec(al1, al).normalized_spec();
        let v21 = v2.compose_spec(v1);
        let a1r = v21.move_point_spec(a1).normalized_spec();
        let a2r = v21.move_point_spec(a2).normalized_spec();
        let ap = b0.join3_spec(b1, b2);
        let ap1 = b0.join3_spec(a1r, a2r).normalized_spec();
        let v3 = Self::plane_plane_spec(ap1, ap).normalized_spec();
        v3.compose_spec(v21)
    }

    /// Moves the given point by this motor.
    pub fn move_point(&self, point: Point3<T>) -> (r: Point3<T>)
        ensures
            r == self.move_point_spec(point),
    {
        let tv0 = self.scalar * point.trivector();
        let (v1, tv1) = self.bivector * point.trivector();
        let v2 = self.pseudo * point.trivector();
        let v = v1 + v2;
        let tv = tv0 + tv1;
        let m_s_r = self.scalar.not();
        let m_bv_r = self.bivector.not();
        let m_p_r = self.pseudo.not();
        let (_zero, a) = v * m_bv_r;
        let b = tv * m_s_r;
        let (_zero, c) = tv * m_bv_r;
        let d = v * m_p_r;
        Point3::from_trivector((a + b + c + d).normalized())
    }

    /// Moves the given line by this motor.
    pub fn move_line(&self, line: Line3<T>) -> (r: Line3<T>)
        ensures
            r == self.move_line_spec(line),
    {
        let bv0 = self.scalar * line.bivector();
        let (s, bv1, p) = self.bivector * line.bivector();
        let bv2 = self.pseudo * line.bivector();
        let bv = bv0 + bv1 + bv2;
        let m_s_r = self.scalar.not();
        let m_bv_r = self.bivector.not();
        let m_p_r = self.pseudo.not();
        let a = s * m_bv_r;
        let b = bv * m_s_r;
        let (_zero, c, _none) = bv * m_bv_r;
        let d = p * m_bv_r;
        let e = bv * m_p_r;
        Line3::from_bivector((a + b + c + d + e).normalized())
    }

    /// Returns norm of the motor.
    pub fn norm(&self) -> (r: T)
        ensures
            r == self.norm_spec(),
    {
        self.norm2().sqrt()
    }

    /// Returns squared norm of the motor.
    pub fn norm2(&self) -> (r: T)
        ensures
            r == self.norm2_spec(),
    {
        let s0 = self.scalar * self.scalar.not();
        let s1 = self.bivector | self.bivector.not();
        (s0 + s1).0
    }

    /// Normalizes the motor.
    pub fn normalize(&mut self)
        ensures
            *final(self) == old(self).normalized_spec(),
    {
        proof {
            T::operators_are_total();
        }
        let norm2 = self.norm2();
        if norm2 != T::ZERO {
            let norm = norm2.sqrt();
            self.scalar = self.scalar / norm;
            self.bivector = self.bivector / norm;
            self.pseudo = self.pseudo / norm;
        }
    }

    /// Returns a normalized motor.
    pub fn normalized(&self) -> (r: Self)
        ensures
            r == self.normalized_spec(),
    {
        proof {
            T::operators_are_total();
        }
        let norm2 = self.norm2();
        if norm2 != T::ZERO {
            let norm = norm2.sqrt();
            Motor3 {
                scalar: self.scalar / norm,
                bivector: self.bivector / norm,
                pseudo: self.pseudo / norm,
            }
        } else {
            *self
        }
    }

    /// Takes the twist out of the motor: what the product of the motor
    /// and its reverse has of a pseudoscalar.
    pub fn untwisted(&self) -> (r: Self)
        ensures
            r == self.untwisted_spec(),
    {
        proof {
            T::operators_are_total();
        }
        let b = self.bivector;
        let twist = self.scalar.0 * self.pseudo.e0123 - (b.e01 * b.e23 + b.e02 * b.e31 + b.e03 * b.e12);
        let norm2 = self.norm2();
        if twist == T::ZERO || norm2 == T::ZERO {
            *self
        } else {
            let part = twist / norm2;
            Motor3 {
                scalar: self.scalar,
                bivector: BiVector3 {
                    e01: b.e01 + part * b.e23,
                    e02: b.e02 + part * b.e31,
                    e03: b.e03 + part * b.e12,
                    e12: b.e12,
                    e31: b.e31,
                    e23: b.e23,
                },
                pseudo: Pseudo3 { e0123: self.pseudo.e0123 - part * self.scalar.0 },
            }
        }
    }

    /// Halves the motor: gives the motor that, composed with itself, is this one.
    pub fn sqrt(&self) -> (r: Self)
        ensures
            r == self.sqrt_spec(),
    {
        Motor3 {
            scalar: self.scalar + T::ONE,
            bivector: self.bivector,
            pseudo: self.pseudo,
        }.untwisted().normalized()
    }
}

impl<T: Num> Mul<Motor3<T>> for Motor3<T> {
    type Output = Motor3<T>;

    /// Composes two motors: the product moves by `rhs` first and by
    /// `self` after. The product is normalized.
    fn mul(self, rhs: Motor3<T>) -> (r: Motor3<T>)
        ensures
            r == self.compose_spec(rhs),
    {
        let s0 = self.scalar * rhs.scalar;
        let bv0 = self.scalar * rhs.bivector;
        let p0 = self.scalar * rhs.pseudo;
        let bv1 = self.bivector * rhs.scalar;
        let (s1, bv2, p1) = self.bivector * rhs.bivector;
        let bv3 = self.bivector * rhs.pseudo;
        let p2 = self.pseudo * rhs.scalar;
        let bv4 = self.pseudo * rhs.bivector;
        Motor3 {
            scalar: s0 + s1,
            bivector: bv0 + bv1 + bv2 + bv3 + bv4,
            pseudo: p0 + p1 + p2,
        }.normalized()
    }
}

impl<T: Num> vstd::std_specs::ops::MulSpecImpl<Motor3<T>> for Motor3<T> {
    open spec fn obeys_mul_spec() -> bool {
        true
    }

    open spec fn mul_req(self, rhs: Motor3<T>) -> bool {
        true
    }

    open spec fn mul_spec(self, rhs: Motor3<T>) -> Motor3<T> {
        self.compose_spec(rhs)
    }
}

impl<T: Num> Motor3<T> {
    /// Creates a new motor from the given points.
    ///
    /// The resulting motor moves by the distance between the two points.
    pub fn point_point(a: Point3<T>, b: Point3<T>) -> (r: Self)
        ensures
            r == Self::point_point_spec(a, b),
    {
        let (s, bv) = b.trivector() * a.trivector().not();
        let double = Motor3 {
            scalar: s,
            bivector: BiVector3 {
                e01: bv.e01,
                e02: bv.e02,
                e03: bv.e03,
                e12: T::ZERO,
                e31: T::ZERO,
                e23: T::ZERO,
            },
            pseudo: Pseudo3::zero(),
        };
        double.normalized().sqrt()
    }

    /// Reconstructs a motor that brings points `a` to points `b`.
    ///
    /// The resulting motor will move a[0] to b[0], a[1] to the line through b[0] and b[1],
    /// and a[2] to the plane through b[0], b[1] and b[2].
    pub fn reconstruct(a: [Point3<T>; 3], b: [Point3<T>; 3]) -> (r: Self)
        ensures
            r == Self::reconstruct_spec(a[0], a[1], a[2], b[0], b[1], b[2]),
    {
        // Construct translation motor to move a[0] to b[0].
        let v1 = Self::point_point(a[0], b[0]);
        // Translate a[1].
        let a1 = v1.move_point(a[1]).normalized();
        // Construct rotation motor that rotates translated line through a[0] and a[1]
        // to line through b[0] and b[1] while preserving b[0].
        let al = b[0].join(b[1]);
        let al1 = b[0].join(a1).normalized();
        let v2 = Self::line_line(al1, al).normalized();
        let v21 = v2 * v1;
        // Move a[1] and a[2], and rotate the plane through the moved points
        // to the plane through b[0], b[1] and b[2] while preserving the line.
        let a1 = v21.move_point(a[1]).normalized();
        let a2 = v21.move_point(a[2]).normalized();
        let ap = b[0].join3(b[1], b[2]);
        let ap1 = b[0].join3(a1, a2).normalized();
        let v3 = Self::plane_plane(ap1, ap).normalized();
        v3 * v21
    }

    /// Creates a new motor from the given lines.
    ///
    /// The resulting motor translates by the distance between the two lines if they are parallel.
    /// If they meet in a point, the motor rotates around that point by the angle between them.
    /// If they are skew, it turns about the line that is perpendicular to both, and moves along it.
    /// The motor between a line and itself is the identity; between a line and its opposite
    /// there is none, and the result is zero.
    pub fn line_line(a: Line3<T>, b: Line3<T>) -> (r: Self)
        ensures
            r == Self::line_line_spec(a, b),
    {
        let (s, bv, p) = b.bivector() * a.bivector().not();
        let double = Motor3 { scalar: s, bivector: bv, pseudo: p };
        double.normalized().sqrt()
    }

    /// Creates a new motor from the given planes.
    ///
    /// The resulting motor translates by the distance between the two planes if they are parallel.
    /// If they are not parallel, the motor rotates around the line that the two planes share by the angle between them.
    pub fn plane_plane(a: Plane3<T>, b: Plane3<T>) -> (r: Self)
        ensures
            r == Self::plane_plane_spec(a, b),
    {
        let (s, bv) = b.vector().not() * a.vector().not();
        let double = Motor3 { scalar: s, bivector: bv, pseudo: Pseudo3::zero() };
        double.normalized().sqrt()
    }
}

} // verus!
