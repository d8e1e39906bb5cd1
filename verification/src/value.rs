//! Geometric objects of any kind, and the operations that apply to
//! pairs of them.

use vstd::prelude::*;

use crate::pga::line::{Line2, Line3};
use crate::pga::motor::Motor2;
use crate::pga::point::{Point2, Point3};
use crate::scalar::Num;

verus! {

/// The kind of a geometric object.
#[derive(Clone, Copy, Debug, PartialEq, Eq, Structural)]
pub enum Type {
    /// No object.
    Nil,
    /// A scalar.
    Scalar,
    /// A point of the plane.
    Point2,
    /// A line of the plane.
    Line2,
    /// A motor of the plane.
    Motor2,
    /// A point of space.
    Point3,
    /// A line of space.
    Line3,
}

impl Type {
    /// The name of the kind, as it is spelt in the enumeration.
    pub open spec fn name_spec(self) -> Seq<char> {
        match self {
            Type::Nil => "Nil"@,
            Type::Scalar => "Scalar"@,
            Type::Point2 => "Point2"@,
            Type::Line2 => "Line2"@,
            Type::Motor2 => "Motor2"@,
            Type::Point3 => "Point3"@,
            Type::Line3 => "Line3"@,
        }
    }

    /// Returns the name of the kind.
    pub fn name(&self) -> (r: &'static str)
        ensures
            r@ == self.name_spec(),
    {
        match self {
            Type::Nil => "Nil",
            Type::Scalar => "Scalar",
            Type::Point2 => "Point2",
            Type::Line2 => "Line2",
            Type::Motor2 => "Motor2",
            Type::Point3 => "Point3",
            Type::Line3 => "Line3",
        }
    }
}

/// Geometric object.
#[derive(Clone, Copy, Debug)]
pub enum Value<T> {
    /// No object: what an operation gives that is not defined on its
    /// operands.
    Nil,
    /// A scalar.
    Scalar(T),
    /// A point of the plane.
    Point2(Point2<T>),
    /// A line of the plane.
    Line2(Line2<T>),
    /// A motor of the plane.
    Motor2(Motor2<T>),
    /// A point of space.
    Point3(Point3<T>),
    /// A line of space.
    Line3(Line3<T>),
}

impl<T: Num> Value<T> {
    /// The kind of the object.
    pub open spec fn ty_spec(self) -> Type {
        match self {
            Value::Nil => Type::Nil,
            Value::Scalar(_) => Type::Scalar,
            Value::Point2(_) => Type::Point2,
            Value::Line2(_) => Type::Line2,
            Value::Motor2(_) => Type::Motor2,
            Value::Point3(_) => Type::Point3,
            Value::Line3(_) => Type::Line3,
        }
    }

    /// What this object, taken as a transformation, makes of `geom`: a
    /// line and a point reflect points and lines, a motor moves them.
    /// Any other pair gives nothing.
    pub open spec fn apply_spec(self, geom: Value<T>) -> Value<T> {
        match (self, geom) {
            (Value::Line2(transform), Value::Point2(point)) => Value::Point2(
                transform.reflect_point_spec(point),
            ),
            (Value::Line2(transform), Value::Line2(line)) => Value::Line2(
                transform.reflect_line_spec(line),
            ),
            (Value::Point2(transform), Value::Point2(point)) => Value::Point2(
                transform.reflect_point_spec(point),
            ),
            (Value::Point2(transform), Value::Line2(line)) => Value::Line2(
                transform.reflect_line_spec(line),
            ),
            (Value::Motor2(motor), Value::Point2(point)) => Value::Point2(
                motor.move_point_spec(point),
            ),
            (Value::Motor2(motor), Value::Line2(line)) => Value::Line2(motor.move_line_spec(line)),
            _ => Value::Nil,
        }
    }

    /// The point that two lines of the plane share; of any other pair,
    /// nothing.
    pub open spec fn meet_spec(self, geom: Value<T>) -> Value<T> {
        match (self, geom) {
            (Value::Line2(a), Value::Line2(b)) => Value::Point2(a.meet_spec(b)),
            _ => Value::Nil,
        }
    }

    /// The line through two points of the plane; of any other pair,
    /// nothing.
    pub open spec fn join_spec(self, geom: Value<T>) -> Value<T> {
        match (self, geom) {
            (Value::Point2(a), Value::Point2(b)) => Value::Line2(a.join_spec(b)),
            _ => Value::Nil,
        }
    }

    /// The projection of a point onto a line or of a line onto a point,
    /// in the plane; of any other pair, nothing.
    pub open spec fn project_spec(self, geom: Value<T>) -> Value<T> {
        match (self, geom) {
            (Value::Point2(a), Value::Line2(b)) => Value::Point2(a.project_to_spec(b)),
            (Value::Line2(a), Value::Point2(b)) => Value::Line2(a.project_to_spec(b)),
            _ => Value::Nil,
        }
    }

    /// Returns the kind of the object.
    pub fn ty(&self) -> (r: Type)
        ensures
            r == self.ty_spec(),
    {
        match self {
            Value::Nil => Type::Nil,
            Value::Scalar(_) => Type::Scalar,
            Value::Point2(_) => Type::Point2,
            Value::Line2(_) => Type::Line2,
            Value::Motor2(_) => Type::Motor2,
            Value::Point3(_) => Type::Point3,
            Value::Line3(_) => Type::Line3,
        }
    }

    /// Applies this object to `geom` as a transformation.
    pub fn apply(&self, geom: &Value<T>) -> (r: Value<T>)
        ensures
            r == self.apply_spec(*geom),
    {
        match (self, geom) {
            (Value::Line2(transform), Value::Point2(point)) => Value::Point2(
                transform.reflect_point(*point),
            ),
            (Value::Line2(transform), Value::Line2(line)) => Value::Line2(
                transform.reflect_line(*line),
            ),
            (Value::Point2(transform), Value::Point2(point)) => Value::Point2(
                transform.reflect_point(*point),
            ),
            (Value::Point2(transform), Value::Line2(line)) => Value::Line2(
                transform.reflect_line(*line),
            ),
            (Value::Motor2(motor), Value::Point2(point)) => Value::Point2(
                motor.move_point(*point),
            ),
            (Value::Motor2(motor), Value::Line2(line)) => Value::Line2(motor.move_line(*line)),
            _ => Value::Nil,
        }
    }

    /// Finds what the two objects share.
    pub fn meet(&self, geom: &Value<T>) -> (r: Value<T>)
        ensures
            r == self.meet_spec(*geom),
    {
        match (self, geom) {
            (Value::Line2(a), Value::Line2(b)) => Value::Point2(a.meet(*b)),
            _ => Value::Nil,
        }
    }

    /// Finds what spans the two objects.
    pub fn join(&self, geom: &Value<T>) -> (r: Value<T>)
        ensures
            r == self.join_spec(*geom),
    {
        match (self, geom) {
            (Value::Point2(a), Value::Point2(b)) => Value::Line2(a.join(*b)),
            _ => Value::Nil,
        }
    }

    /// Projects this object onto `geom`.
    pub fn project(&self, geom: &Value<T>) -> (r: Value<T>)
        ensures
            r == self.project_spec(*geom),
    {
        match (self, geom) {
            (Value::Point2(a), Value::Line2(b)) => Value::Point2(a.project_to(*b)),
            (Value::Line2(a), Value::Point2(b)) => Value::Line2(a.project_to(*b)),
            _ => Value::Nil,
        }
    }
}

} // verus!
