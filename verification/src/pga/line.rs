//! Lines of the plane and of space.

use core::ops::{Add, BitOr, BitXor, Div, Mul, Neg, Not};
use vstd::prelude::*;
use vstd::std_specs::cmp::PartialEqSpec;
use vstd::std_specs::ops::{AddSpec, BitOrSpec, BitXorSpec, DivSpec, MulSpec, NegSpec, NotSpec};

use crate::pga::elements::{BiVector3, Vector2};
use crate::pga::point::Point2;
use crate::scalar::Num;

verus! {

/// Line is fundamental object in 2d projective geometric algebra.
/// All other objects are produced by combining lines.
///
/// A line is the vector `e0 + e1 * x + e2 * y`: the points `(x, y)` on
/// which it vanishes.
#[derive(Clone, Copy, Debug, PartialEq)]
pub struct Line2<T>(pub Vector2<T>);

impl<T: Num> Line2<T> {
    /// Returns the vector that stands for the line.
    pub fn vector(&self) -> (r: Vector2<T>)
        ensures
            r == self.0,
    {
        self.0
    }

    /// Wraps a vector as the line that it stands for.
    pub fn from_vector(vector: Vector2<T>) -> (r: Self)
        ensures
            r == Line2(vector),
    {
        Line2(vector)
    }

    /// Creates a new line from projective vector elements.
    pub fn new(e0: T, e1: T, e2: T) -> (r: Self)
        ensures
            r == Line2(Vector2 { e0, e1, e2 }),
    {
        Line2(Vector2 { e0, e1, e2 })
    }

    /// A vanishing line.
    /// Also known as the line at infinity.
    ///
    /// In 2D there's exactly one line at infinity.
    pub fn infinity() -> (r: Self)
        ensures
            r == Line2(Vector2 { e0: T::ONE, e1: T::ZERO, e2: T::ZERO }),
    {
        Line2(Vector2 { e0: T::ONE, e1: T::ZERO, e2: T::ZERO })
    }

    /// Whether both direction coefficients compare equal to zero.
    pub open spec fn is_ideal_spec(self) -> bool {
        self.0.e1.eq_spec(&T::ZERO) && self.0.e2.eq_spec(&T::ZERO)
    }

    /// Returns true if this is a line at infinity.
    pub fn is_ideal(&self) -> (r: bool)
        ensures
            r == self.is_ideal_spec(),
    {
        proof {
            T::operators_are_total();
        }
        self.0.e1 == T::ZERO && self.0.e2 == T::ZERO
    }

    /// Returns tangent of the line: `-e1 / e2`.
    ///
    /// The division is the field's: on a vertical or ideal line it
    /// divides by zero, and the result is whatever the field gives then.
    pub fn tangent(&self) -> (r: T)
        ensures
            r == self.0.e1.neg_spec().div_spec(self.0.e2),
    {
        proof {
            T::operators_are_total();
        }
        self.0.e1.neg() / self.0.e2
    }

    /// Returns y coordinate where it intersects the y axis: `-e0 / e2`.
    ///
    /// On a vertical or ideal line this divides by zero.
    pub fn y0(&self) -> (r: T)
        ensures
            r == self.0.e0.neg_spec().div_spec(self.0.e2),
    {
        proof {
            T::operators_are_total();
        }
        self.0.e0.neg() / self.0.e2
    }

    /// Returns x coordinate where it intersects the x axis: `-e0 / e1`.
    ///
    /// On a horizontal or ideal line this divides by zero.
    pub fn x0(&self) -> (r: T)
        ensures
            r == self.0.e0.neg_spec().div_spec(self.0.e1),
    {
        proof {
            T::operators_are_total();
        }
        self.0.e0.neg() / self.0.e1
    }

    /// Return the line as parameters of a linear equation ax + by + c = 0.
    pub fn abc(&self) -> (r: (T, T, T))
        ensures
            r == (self.0.e1, self.0.e2, self.0.e0),
    {
        (self.0.e1, self.0.e2, self.0.e0)
    }

    /// Return the line from parameters of a linear equation ax + by + c = 0.
    pub fn from_abc(a: T, b: T, c: T) -> (r: Self)
        ensures
            r == Line2(Vector2 { e0: c, e1: a, e2: b }),
            r.0.e1 == a && r.0.e2 == b && r.0.e0 == c,
    {
        Line2::new(c, a, b)
    }

    /// Returns norm of the line: the length of its normal `(e1, e2)`.
    pub fn norm(&self) -> (r: T)
        ensures
            r == self.0.norm_spec(),
    {
        self.0.norm()
    }

    /// Returns squared norm of the line.
    pub fn norm2(&self) -> (r: T)
        ensures
            r == self.0.norm2_spec(),
    {
        self.0.norm2()
    }

    /// The line divided by its norm. A line whose squared norm compares
    /// equal to zero is left as it is.
    pub open spec fn normalized_spec(self) -> Self {
        Line2(self.0.normalized_spec())
    }

    /// Normalizes the line.
    pub fn normalize(&mut self)
        ensures
            *final(self) == old(self).normalized_spec(),
    {
        self.0.normalize();
    }

    /// Returns a normalized line.
    pub fn normalized(&self) -> (r: Self)
        ensures
            r == self.normalized_spec(),
    {
        Line2(self.0.normalized())
    }

    /// The mirror image of a point in this line: the sandwich product
    /// `l * p * !l`, of which the bivector part is kept.
    pub open spec fn reflect_point_spec(self, point: Point2<T>) -> Point2<T> {
        let (v, p) = self.0.mul_spec(point.0);
        let (_s, a) = v.mul_spec(self.0.not_spec());
        let b = p.mul_spec(self.0.not_spec());
        Point2(a.add_spec(b))
    }

    /// Make this line act as a reflector.
    ///
    /// Reflects a point.
    pub fn reflect_point(&self, point: Point2<T>) -> (r: Point2<T>)
        ensures
            r == self.reflect_point_spec(point),
    {
        let (v, p) = self.vector() * point.bivector();
        let (_zero, a) = v * self.vector().not();
        let b = p * self.vector().not();
        Point2::from_bivector(a + b)
    }

    /// The mirror image of a line in this line: the sandwich product
    /// `l * m * l`, of which the vector part is kept.
    pub open spec fn reflect_line_spec(self, line: Line2<T>) -> Line2<T> {
        let (s, bv) = self.0.mul_spec(line.0);
        let a = self.0.mul_spec(s);
        let (b, _p) = bv.mul_spec(self.0);
        Line2(a.add_spec(b))
    }

    /// Make this line act as a reflector.
    ///
    /// Reflects a line.
    pub fn reflect_line(&self, line: Line2<T>) -> (r: Line2<T>)
        ensures
            r == self.reflect_line_spec(line),
    {
        let (s, bv) = self.vector() * line.vector();
        let a = self.vector() * s;
        let (b, _zero) = bv * self.vector();
        Line2::from_vector(a + b)
    }

    /// The point that two lines share: their outer product.
    pub open spec fn meet_spec(self, other: Line2<T>) -> Point2<T> {
        Point2(self.0.bitxor_spec(other.0))
    }

    /// Find the intersection point of two lines.
    pub fn meet(&self, other: Line2<T>) -> (r: Point2<T>)
        ensures
            r == self.meet_spec(other),
    {
        Point2::from_bivector(self.vector() ^ other.vector())
    }

    /// The line through `point` that is parallel to this one.
    pub open spec fn project_to_spec(self, point: Point2<T>) -> Line2<T> {
        Line2(self.0.bitor_spec(point.0).bitor_spec(point.0.not_spec()))
    }

    /// Find parallel line through the given point.
    pub fn project_to(&self, point: Point2<T>) -> (r: Line2<T>)
        ensures
            r == self.project_to_spec(point),
    {
        let v = (self.vector() | point.bivector()) | point.bivector().not();
        Line2::from_vector(v)
    }
}

/// Line in 3D is an intersection of two planes.
///
/// A line is a bivector: its Euclidean part `(e23, e31, e12)` is the
/// line's direction, its ideal part the moment about the origin.
#[derive(Clone, Copy, Debug, PartialEq)]
pub struct Line3<T>(pub BiVector3<T>);

impl<T: Num> Line3<T> {
    /// Returns the bivector that stands for the line.
    pub fn bivector(&self) -> (r: BiVector3<T>)
        ensures
            r == self.0,
    {
        self.0
    }

    /// Wraps a bivector as the line that it stands for.
    pub fn from_bivector(bivector: BiVector3<T>) -> (r: Self)
        ensures
            r == Line3(bivector),
    {
        Line3(bivector)
    }

    /// Creates a new line from projective vector elements.
    pub fn new(e01: T, e02: T, e03: T, e12: T, e31: T, e23: T) -> (r: Self)
        ensures
            r == Line3(BiVector3 { e01, e02, e03, e12, e31, e23 }),
    {
        Line3(BiVector3::new(e01, e02, e03, e12, e31, e23))
    }

    /// A vanishing horizontal line.
    ///
    /// This assumes Y is up and Z is forward.
    pub fn horizon() -> (r: Self)
        ensures
            r == Line3(
                BiVector3 {
                    e01: T::ZERO,
                    e02: T::ZERO,
                    e03: T::ZERO,
                    e12: T::ZERO,
                    e31: T::ONE,
                    e23: T::ZERO,
                },
            ),
    {
        Line3(BiVector3::new(T::ZERO, T::ZERO, T::ZERO, T::ZERO, T::ONE, T::ZERO))
    }

    /// Whether the three direction coefficients all compare equal to zero.
    pub open spec fn is_ideal_spec(self) -> bool {
        self.0.e12.eq_spec(&T::ZERO) && self.0.e31.eq_spec(&T::ZERO) && self.0.e23.eq_spec(
            &T::ZERO,
        )
    }

    /// Returns true if this is a line at infinity.
    pub fn is_ideal(&self) -> (r: bool)
        ensures
            r == self.is_ideal_spec(),
    {
        proof {
            T::operators_are_total();
        }
        self.0.e12 == T::ZERO && self.0.e31 == T::ZERO && self.0.e23 == T::ZERO
    }

    /// Returns norm of the line: the length of its direction.
    pub fn norm(&self) -> (r: T)
        ensures
            r == self.0.norm_spec(),
    {
        self.0.norm()
    }

    /// Returns squared norm of the line.
    pub fn norm2(&self) -> (r: T)
        ensures
            r == self.0.norm2_spec(),
    {
        self.0.norm2()
    }

    /// The line divided by its norm. A line whose squared norm compares
    /// equal to zero is left as it is.
    pub open spec fn normalized_spec(self) -> Self {
        Line3(self.0.normalized_spec())
    }

    /// Normalizes the line.
    pub fn normalize(&mut self)
        ensures
            *final(self) == old(self).normalized_spec(),
    {
        self.0.normalize();
    }

    /// Returns a normalized line.
    pub fn normalized(&self) -> (r: Self)
        ensures
            r == self.normalized_spec(),
    {
        Line3(self.0.normalized())
    }
}

} // verus!
