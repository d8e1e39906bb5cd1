//! Points of the plane and of space.

use core::ops::{Add, BitOr, BitXor, Div, Mul, Neg, Not};
use vstd::prelude::*;
use vstd::std_specs::cmp::PartialEqSpec;
use vstd::std_specs::ops::{AddSpec, BitOrSpec, BitXorSpec, DivSpec, MulSpec, NegSpec, NotSpec};

use crate::pga::elements::{
    regressive,
    regressive3,
    regressive3_spec,
    regressive_spec,
    BiVector2,
    BiVector3,
    Dual,
    TriVector3,
    Vector2,
    Vector3,
};
use crate::pga::line::{Line2, Line3};
use crate::pga::plane::Plane3;
use crate::scalar::Num;

verus! {

/// Two dimensional point.
///
/// A point is a bivector in homogeneous coordinates: the point `(x, y)`
/// with weight `w` has `e20 = w * x`, `e01 = w * y` and `e12 = w`. With
/// weight one the point is normalized; with weight zero it is ideal, a
/// direction.
#[derive(Clone, Copy, Debug, PartialEq)]
pub struct Point2<T>(pub BiVector2<T>);

impl<T: Num> Point2<T> {
    /// Returns the bivector that stands for the point.
    pub fn bivector(&self) -> (r: BiVector2<T>)
        ensures
            r == self.0,
    {
        self.0
    }

    /// Wraps a bivector as the point that it stands for.
    pub fn from_bivector(bivector: BiVector2<T>) -> (r: Self)
        ensures
            r == Point2(bivector),
    {
        Point2(bivector)
    }

    /// Origin point.
    pub fn origin() -> (r: Self)
        ensures
            r == Point2(BiVector2 { e01: T::ZERO, e20: T::ZERO, e12: T::ONE }),
    {
        Point2(BiVector2 { e01: T::ZERO, e20: T::ZERO, e12: T::ONE })
    }

    /// Creates a new point at the given coordinates.
    pub fn at(x: T, y: T) -> (r: Self)
        ensures
            r == Point2(BiVector2 { e01: y, e20: x, e12: T::ONE }),
            !r.is_ideal_spec(),
            r.normalized_spec() == r,
    {
        proof {
            T::zero_and_one();
        }
        Point2(BiVector2 { e01: y, e20: x, e12: T::ONE })
    }

    /// Returns a new ideal point.
    /// Also known as the point at infinity.
    /// The point at infinity is a point located at infinity in the direction of the line
    ///
    /// Thus it can be used to represent a direction in 2D space.
    pub fn ideal(x: T, y: T) -> (r: Self)
        ensures
            r == Point2(BiVector2 { e01: y, e20: x, e12: T::ZERO }),
            r.is_ideal_spec(),
            r.normalized_spec() == r,
    {
        proof {
            T::zero_and_one();
        }
        Point2(BiVector2 { e01: y, e20: x, e12: T::ZERO })
    }

    /// Creates a new point from projective vector elements.
    pub fn new(e01: T, e20: T, e12: T) -> (r: Self)
        ensures
            r == Point2(BiVector2 { e01, e20, e12 }),
    {
        Point2(BiVector2 { e01, e20, e12 })
    }

    /// Whether the weight compares equal to zero.
    pub open spec fn is_ideal_spec(self) -> bool {
        self.0.e12.eq_spec(&T::ZERO)
    }

    /// Returns true if this is a point at infinity.
    pub fn is_ideal(&self) -> (r: bool)
        ensures
            r == self.is_ideal_spec(),
    {
        proof {
            T::operators_are_total();
        }
        self.0.e12 == T::ZERO
    }

    /// Returns norm of the point: the absolute value of its weight.
    pub fn norm(&self) -> (r: T)
        ensures
            r == self.0.norm_spec(),
    {
        self.0.norm()
    }

    /// The point with every coefficient divided by the weight. A point
    /// whose weight compares equal to zero or to one is left as it is.
    pub open spec fn normalized_spec(self) -> Self {
        if self.0.e12.eq_spec(&T::ZERO) || self.0.e12.eq_spec(&T::ONE) {
            self
        } else {
            Point2(self.0.div_spec(self.0.e12))
        }
    }

    /// Normalizes the point.
    ///
    /// Does not affect points at infinity.
    pub fn normalize(&mut self)
        ensures
            *final(self) == old(self).normalized_spec(),
    {
        proof {
            T::operators_are_total();
        }
        let weight = self.0.e12;
        if weight != T::ZERO && weight != T::ONE {
            self.0 = self.0 / weight;
        }
    }

    /// Returns same point, but normalized.
    pub fn normalized(&self) -> (r: Self)
        ensures
            r == self.normalized_spec(),
    {
        let mut r = *self;
        r.normalize();
        r
    }

    /// Returns the coordinates of the point: `(e20, e01)`, as they are
    /// stored. They are the point's `x` and `y` once it is normalized.
    pub fn coords(&self) -> (r: (T, T))
        ensures
            r == (self.0.e20, self.0.e01),
    {
        (self.0.e20, self.0.e01)
    }

    /// The mirror image of a point in this point: the sandwich product
    /// `p * q * !p`, of which the bivector part is kept.
    pub open spec fn reflect_point_spec(self, point: Point2<T>) -> Point2<T> {
        let (s, bv) = self.0.mul_spec(point.0);
        let a = s.mul_spec(self.0.not_spec());
        let (_s, b) = bv.mul_spec(self.0.not_spec());
        Point2(a.add_spec(b))
    }

    /// Make this point act as a reflector.
    ///
    /// Reflects a point.
    pub fn reflect_point(&self, point: Point2<T>) -> (r: Point2<T>)
        ensures
            r == self.reflect_point_spec(point),
    {
        let (s, bv) = self.bivector() * point.bivector();
        let a = s * self.bivector().not();
        let (_zero, b) = bv * self.bivector().not();
        Point2::from_bivector(a + b)
    }

    /// The mirror image of a line in this point: the sandwich product
    /// `p * l * !p`, of which the vector part is kept.
    pub open spec fn reflect_line_spec(self, line: Line2<T>) -> Line2<T> {
        let (v, p) = self.0.mul_spec(line.0);
        let (a, _p) = v.mul_spec(self.0.not_spec());
        let b = p.mul_spec(self.0.not_spec());
        Line2(a.add_spec(b))
    }

    /// Make this point act as a reflector.
    ///
    /// Reflects a line.
    pub fn reflect_line(&self, line: Line2<T>) -> (r: Line2<T>)
        ensures
            r == self.reflect_line_spec(line),
    {
        let (v, p) = self.bivector() * line.vector();
        let (a, _zero) = v * self.bivector().not();
        let b = p * self.bivector().not();
        Line2::from_vector(a + b)
    }

    /// The line through two points: their regressive product.
    pub open spec fn join_spec(self, other: Point2<T>) -> Line2<T> {
        Line2(regressive_spec::<BiVector2<T>, BiVector2<T>, Vector2<T>>(self.0, other.0))
    }

    /// Find the line through two points.
    pub fn join(&self, other: Point2<T>) -> (r: Line2<T>)
        ensures
            r == self.join_spec(other),
    {
        Line2::from_vector(regressive(self.bivector(), other.bivector()))
    }

    /// The foot of the perpendicular from this point to `line`.
    pub open spec fn project_to_spec(self, line: Line2<T>) -> Point2<T> {
        Point2(line.0.not_spec().mul_spec(self.0.bitor_spec(line.0)).1)
    }

    /// Find orthogonal projection of this point to the line.
    pub fn project_to(&self, line: Line2<T>) -> (r: Point2<T>)
        ensures
            r == self.project_to_spec(line),
    {
        let (_zero, bv) = line.vector().not() * (self.bivector() | line.vector());
        Point2::from_bivector(bv)
    }
}

/// Three dimensional point.
///
/// A point is a trivector in homogeneous coordinates: the point
/// `(x, y, z)` with weight `w` has `e032 = w * x`, `e013 = w * y`,
/// `e021 = w * z` and `e123 = w`.
#[derive(Clone, Copy, Debug, PartialEq)]
pub struct Point3<T>(pub TriVector3<T>);

impl<T: Num> Point3<T> {
    /// Returns the trivector that stands for the point.
    pub fn trivector(&self) -> (r: TriVector3<T>)
        ensures
            r == self.0,
    {
        self.0
    }

    /// Wraps a trivector as the point that it stands for.
    pub fn from_trivector(trivector: TriVector3<T>) -> (r: Self)
        ensures
            r == Point3(trivector),
    {
        Point3(trivector)
    }

    /// Origin point.
    pub fn origin() -> (r: Self)
        ensures
            r == Point3(
                TriVector3 { e021: T::ZERO, e013: T::ZERO, e032: T::ZERO, e123: T::ONE },
            ),
    {
        Point3(TriVector3 { e021: T::ZERO, e013: T::ZERO, e032: T::ZERO, e123: T::ONE })
    }

    /// Creates a new point at the given coordinates.
    pub fn at(x: T, y: T, z: T) -> (r: Self)
        ensures
            r == Point3(TriVector3 { e021: z, e013: y, e032: x, e123: T::ONE }),
            !r.is_ideal_spec(),
            r.normalized_spec() == r,
    {
        proof {
            T::zero_and_one();
        }
        Point3(TriVector3 { e021: z, e013: y, e032: x, e123: T::ONE })
    }

    /// Returns a new ideal point.
    /// Also known as the point at infinity.
    /// The point at infinity is a point located at infinity in the direction of the line
    ///
    /// Thus it can be used to represent a direction in 3D space.
    pub fn ideal(x: T, y: T, z: T) -> (r: Self)
        ensures
            r == Point3(TriVector3 { e021: z, e013: y, e032: x, e123: T::ZERO }),
            r.is_ideal_spec(),
            r.normalized_spec() == r,
    {
        proof {
            T::zero_and_one();
        }
        Point3(TriVector3 { e021: z, e013: y, e032: x, e123: T::ZERO })
    }

    /// Creates a new point from projective vector elements.
    pub fn new(e123: T, e032: T, e013: T, e021: T) -> (r: Self)
        ensures
            r == Point3(TriVector3 { e021, e013, e032, e123 }),
    {
        Point3(TriVector3 { e021, e013, e032, e123 })
    }

    /// Whether the weight compares equal to zero.
    pub open spec fn is_ideal_spec(self) -> bool {
        self.0.e123.eq_spec(&T::ZERO)
    }

    /// Returns true if this is a point at infinity.
    pub fn is_ideal(&self) -> (r: bool)
        ensures
            r == self.is_ideal_spec(),
    {
        proof {
            T::operators_are_total();
        }
        self.0.e123 == T::ZERO
    }

    /// Returns norm of the point: the absolute value of its weight.
    pub fn norm(&self) -> (r: T)
        ensures
            r == self.0.norm_spec(),
    {
        self.0.norm()
    }

    /// The point with every coefficient divided by the weight. A point
    /// whose weight compares equal to zero or to one is left as it is.
    pub open spec fn normalized_spec(self) -> Self {
        if self.0.e123.eq_spec(&T::ZERO) || self.0.e123.eq_spec(&T::ONE) {
            self
        } else {
            Point3(self.0.div_spec(self.0.e123))
        }
    }

    /// Normalizes the point.
    ///
    /// Does not affect points at infinity.
    pub fn normalize(&mut self)
        ensures
            *final(self) == old(self).normalized_spec(),
    {
        proof {
            T::operators_are_total();
        }
        let weight = self.0.e123;
        if weight != T::ZERO && weight != T::ONE {
            self.0 = self.0 / weight;
        }
    }

    /// Returns same point, but normalized.
    pub fn normalized(&self) -> (r: Self)
        ensures
            r == self.normalized_spec(),
    {
        let mut r = *self;
        r.normalize();
        r
    }

    /// Returns the coordinates of the point: `(e032, e013, e021)`, as
    /// they are stored. They are the point's `x`, `y` and `z` once it is
    /// normalized.
    pub fn coords(&self) -> (r: (T, T, T))
        ensures
            r == (self.0.e032, self.0.e013, self.0.e021),
    {
        (self.0.e032, self.0.e013, self.0.e021)
    }

    /// The mirror image of a point in this point: the sandwich product
    /// `p * q * !p`, of which the trivector part is kept.
    pub open spec fn reflect_point_spec(self, point: Point3<T>) -> Point3<T> {
        let (s, bv) = self.0.mul_spec(point.0);
        let a = s.mul_spec(self.0.not_spec());
        let b = bv.mul_spec(self.0.not_spec());
        Point3(a.add_spec(b))
    }

    /// Make this point act as a reflector.
    ///
    /// Reflects a point.
    pub fn reflect_point(&self, point: Point3<T>) -> (r: Point3<T>)
        ensures
            r == self.reflect_point_spec(point),
    {
        let (s, bv) = self.trivector() * point.trivector();
        let a = s * self.trivector().not();
        let b = bv * self.trivector().not();
        Point3::from_trivector(a + b)
    }

    /// The mirror image of a line in this point: the sandwich product
    /// `p * l * !p`, of which the bivector part is kept.
    pub open spec fn reflect_line_spec(self, line: Line3<T>) -> Line3<T> {
        let (v, tv) = self.0.mul_spec(line.0);
        let (a, _p) = v.mul_spec(self.0.not_spec());
        let (_s, b) = tv.mul_spec(self.0.not_spec());
        Line3(a.add_spec(b))
    }

    /// Make this point act as a reflector.
    ///
    /// Reflects a line.
    pub fn reflect_line(&self, line: Line3<T>) -> (r: Line3<T>)
        ensures
            r == self.reflect_line_spec(line),
    {
        let (v, tv) = self.trivector() * line.bivector();
        let (a, _zero) = v * self.trivector().not();
        let (_zero, b) = tv * self.trivector().not();
        Line3::from_bivector(a + b)
    }

    /// The line through two points: their regressive product.
    pub open spec fn join_spec(self, other: Point3<T>) -> Line3<T> {
        Line3(regressive_spec::<TriVector3<T>, TriVector3<T>, BiVector3<T>>(self.0, other.0))
    }

    /// Find the line through two points.
    pub fn join(&self, other: Point3<T>) -> (r: Line3<T>)
        ensures
            r == self.join_spec(other),
    {
        Line3::from_bivector(regressive(self.trivector(), other.trivector()))
    }

    /// The plane through three points: their regressive product.
    pub open spec fn join3_spec(self, other: Point3<T>, another: Point3<T>) -> Plane3<T> {
        Plane3(
            regressive3_spec::<TriVector3<T>, TriVector3<T>, TriVector3<T>, Vector3<T>>(
                self.0,
                other.0,
                another.0,
            ),
        )
    }

    /// Find the plane through three points.
    pub fn join3(&self, other: Point3<T>, another: Point3<T>) -> (r: Plane3<T>)
        ensures
            r == self.join3_spec(other, another),
    {
        Plane3::from_vector(regressive3(self.trivector(), other.trivector(), another.trivector()))
    }

    /// The foot of the perpendicular from this point to `line`.
    pub open spec fn project_to_spec(self, line: Line3<T>) -> Point3<T> {
        Point3(line.0.not_spec().mul_spec(self.0.bitor_spec(line.0)).1)
    }

    /// Find orthogonal projection of this point to the line.
    pub fn project_to(&self, line: Line3<T>) -> (r: Point3<T>)
        ensures
            r == self.project_to_spec(line),
    {
        let (_zero, tv) = line.bivector().not() * (self.trivector() | line.bivector());
        Point3::from_trivector(tv)
    }
}

} // verus!
