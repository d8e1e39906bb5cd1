//! The nodes of a graph that composes geometric objects: what each node
//! holds, what it takes and gives, and how it changes when an input
//! changes.
//!
//! Showing a graph and editing it is left to a program. The program
//! tells a node which of its inputs has changed; the node says what it
//! holds after the change.

use core::ops::Mul;
use vstd::prelude::*;
use vstd::std_specs::ops::MulSpec;

use crate::pga::line::Line2;
use crate::pga::motor::Motor2;
use crate::pga::point::{Point2, Point3};
use crate::scalar::Num;
use crate::value::{Type, Value};

verus! {

/// A node that makes an object from scalars and other objects.
#[derive(Clone, Copy, Debug)]
pub enum CtorNode<T> {
    /// A scalar, set by hand.
    Scalar {
        /// The scalar.
        scalar: T,
    },
    /// A point of the plane, made of its two coordinates.
    Point2 {
        /// The point.
        point: Point2<T>,
    },
    /// A line of the plane, made of the three coefficients of its
    /// equation.
    Line2 {
        /// The line, normalized.
        line: Line2<T>,
    },
    /// A power of the motor between two points.
    PointPointMotor2 {
        /// The exponent.
        mul: T,
        /// The point that the motor moves.
        a: Point2<T>,
        /// The point that the motor moves it to.
        b: Point2<T>,
        /// The motor.
        motor: Motor2<T>,
    },
    /// A power of the motor between two lines.
    LineLineMotor2 {
        /// The exponent.
        mul: T,
        /// The line that the motor moves.
        a: Line2<T>,
        /// The line that the motor moves it to.
        b: Line2<T>,
        /// The motor.
        motor: Motor2<T>,
    },
    /// A power of the motor that is reconstructed from two pairs of
    /// points.
    ReconstructMotor2 {
        /// The exponent.
        mul: T,
        /// The points that the motor moves.
        a: [Point2<T>; 2],
        /// The points that the motor moves them to.
        b: [Point2<T>; 2],
        /// The motor.
        motor: Motor2<T>,
    },
    /// A point of space, made of its three coordinates.
    Point3 {
        /// The point.
        point: Point3<T>,
    },
}

impl<T: Num> CtorNode<T> {
    /// The title of the node.
    pub open spec fn name_spec(self) -> Seq<char> {
        match self {
            CtorNode::Scalar { .. } => "Scalar"@,
            CtorNode::Point2 { .. } => "Point2"@,
            CtorNode::Line2 { .. } => "Line2"@,
            CtorNode::PointPointMotor2 { .. } => "Point to Point Motor2"@,
            CtorNode::LineLineMotor2 { .. } => "Line to Line Motor2"@,
            CtorNode::ReconstructMotor2 { .. } => "Reconstruct Motor2"@,
            CtorNode::Point3 { .. } => "Point3"@,
        }
    }

    /// The kinds of the inputs, in their order.
    pub open spec fn inputs_spec(self) -> Seq<Type> {
        match self {
            CtorNode::Scalar { .. } => seq![],
            CtorNode::Point2 { .. } => seq![Type::Scalar, Type::Scalar],
            CtorNode::Line2 { .. } => seq![Type::Scalar, Type::Scalar, Type::Scalar],
            CtorNode::PointPointMotor2 { .. } => seq![Type::Scalar, Type::Point2, Type::Point2],
            CtorNode::LineLineMotor2 { .. } => seq![Type::Scalar, Type::Line2, Type::Line2],
            CtorNode::ReconstructMotor2 { .. } => seq![
                Type::Scalar,
                Type::Point2,
                Type::Point2,
                Type::Point2,
                Type::Point2,
            ],
            CtorNode::Point3 { .. } => seq![Type::Scalar, Type::Scalar, Type::Scalar],
        }
    }

    /// The object that the node gives.
    pub open spec fn get_spec(self) -> Value<T> {
        match self {
            CtorNode::Scalar { scalar } => Value::Scalar(scalar),
            CtorNode::Point2 { point } => Value::Point2(point),
            CtorNode::Line2 { line } => Value::Line2(line),
            CtorNode::PointPointMotor2 { motor, .. } => Value::Motor2(motor),
            CtorNode::LineLineMotor2 { motor, .. } => Value::Motor2(motor),
            CtorNode::ReconstructMotor2 { motor, .. } => Value::Motor2(motor),
            CtorNode::Point3 { point } => Value::Point3(point),
        }
    }

    /// The point of the plane with the coordinates `x` and `y` that is as
    /// `point` is: ideal where `point` is ideal, of weight one where it is
    /// not.
    pub open spec fn point_like(point: Point2<T>, x: T, y: T) -> Point2<T> {
        if point.is_ideal_spec() {
            Point2(crate::pga::elements::BiVector2 { e01: y, e20: x, e12: T::ZERO })
        } else {
            Point2(crate::pga::elements::BiVector2 { e01: y, e20: x, e12: T::ONE })
        }
    }

    /// The point of space with the coordinates `x`, `y` and `z` that is
    /// as `point` is: ideal where `point` is ideal, of weight one where
    /// it is not.
    pub open spec fn point3_like(point: Point3<T>, x: T, y: T, z: T) -> Point3<T> {
        if point.is_ideal_spec() {
            Point3(crate::pga::elements::TriVector3 { e021: z, e013: y, e032: x, e123: T::ZERO })
        } else {
            Point3(crate::pga::elements::TriVector3 { e021: z, e013: y, e032: x, e123: T::ONE })
        }
    }

    /// Whether a motor node holds the motor that its inputs give: the
    /// motor between its points or lines, to the power of its exponent.
    /// The other nodes hold nothing that depends on anything else.
    pub open spec fn is_current(self) -> bool {
        match self {
            CtorNode::PointPointMotor2 { mul, a, b, motor } => motor == Motor2::point_point_spec(
                a,
                b,
            ).pow_spec(mul),
            CtorNode::LineLineMotor2 { mul, a, b, motor } => motor == Motor2::line_line_spec(
                a,
                b,
            ).pow_spec(mul),
            CtorNode::ReconstructMotor2 { mul, a, b, motor } => motor == Motor2::reconstruct_spec(
                a[0],
                a[1],
                b[0],
                b[1],
            ).pow_spec(mul),
            _ => true,
        }
    }

    /// The node after the scalar `scalar` has come in at the input
    /// `idx`: the coordinate or the coefficient with that index is
    /// replaced, or the exponent of a motor, and the object is made
    /// anew.
    pub open spec fn with_scalar_spec(self, idx: int, scalar: T) -> Self {
        match self {
            CtorNode::Scalar { .. } => self,
            CtorNode::Point2 { point } => {
                let x = if idx == 0 {
                    scalar
                } else {
                    point.0.e20
                };
                let y = if idx == 1 {
                    scalar
                } else {
                    point.0.e01
                };
                CtorNode::Point2 { point: Self::point_like(point, x, y) }
            },
            CtorNode::Line2 { line } => {
                let a = if idx == 0 {
                    scalar
                } else {
                    line.0.e1
                };
                let b = if idx == 1 {
                    scalar
                } else {
                    line.0.e2
                };
                let c = if idx == 2 {
                    scalar
                } else {
                    line.0.e0
                };
                CtorNode::Line2 {
                    line: Line2(crate::pga::elements::Vector2 { e0: c, e1: a, e2: b }).normalized_spec(),
                }
            },
            CtorNode::PointPointMotor2 { a, b, .. } => CtorNode::PointPointMotor2 {
                mul: scalar,
                a,
                b,
                motor: Motor2::point_point_spec(a, b).pow_spec(scalar),
            },
            CtorNode::LineLineMotor2 { a, b, .. } => CtorNode::LineLineMotor2 {
                mul: scalar,
                a,
                b,
                motor: Motor2::line_line_spec(a, b).pow_spec(scalar),
            },
            CtorNode::ReconstructMotor2 { a, b, .. } => CtorNode::ReconstructMotor2 {
                mul: scalar,
                a,
                b,
                motor: Motor2::reconstruct_spec(a[0], a[1], b[0], b[1]).pow_spec(scalar),
            },
            CtorNode::Point3 { point } => {
                let x = if idx == 0 {
                    scalar
                } else {
                    point.0.e032
                };
                let y = if idx == 1 {
                    scalar
                } else {
                    point.0.e013
                };
                let z = if idx == 2 {
                    scalar
                } else {
                    point.0.e021
                };
                CtorNode::Point3 { point: Self::point3_like(point, x, y, z) }
            },
        }
    }

    /// The node after the point `point` has come in at the input `idx`
    /// of a motor that is made of points: the point with that index is
    /// replaced and the motor is made anew.
    pub open spec fn with_point_spec(self, idx: int, point: Point2<T>) -> Self {
        match self {
            CtorNode::PointPointMotor2 { mul, a, b, .. } => {
                let a = if idx == 1 {
                    point
                } else {
                    a
                };
                let b = if idx == 2 {
                    point
                } else {
                    b
                };
                CtorNode::PointPointMotor2 {
                    mul,
                    a,
                    b,
                    motor: Motor2::point_point_spec(a, b).pow_spec(mul),
                }
            },
            CtorNode::ReconstructMotor2 { mul, a, b, .. } => {
                let a0 = if idx == 1 {
                    point
                } else {
                    a[0]
                };
                let a1 = if idx == 2 {
                    point
                } else {
                    a[1]
                };
                let b0 = if idx == 3 {
                    point
                } else {
                    b[0]
                };
                let b1 = if idx == 4 {
                    point
                } else {
                    b[1]
                };
                CtorNode::ReconstructMotor2 {
                    mul,
                    a: [a0, a1],
                    b: [b0, b1],
                    motor: Motor2::reconstruct_spec(a0, a1, b0, b1).pow_spec(mul),
                }
            },
            _ => self,
        }
    }

    /// The node after the line `line` has come in at the input `idx` of
    /// a motor that is made of lines.
    pub open spec fn with_line_spec(self, idx: int, line: Line2<T>) -> Self {
        match self {
            CtorNode::LineLineMotor2 { mul, a, b, .. } => {
                let a = if idx == 1 {
                    line
                } else {
                    a
                };
                let b = if idx == 2 {
                    line
                } else {
                    b
                };
                CtorNode::LineLineMotor2 {
                    mul,
                    a,
                    b,
                    motor: Motor2::line_line_spec(a, b).pow_spec(mul),
                }
            },
            _ => self,
        }
    }

    /// Returns the title of the node.
    pub fn name(&self) -> (r: &'static str)
        ensures
            r@ == self.name_spec(),
    {
        match self {
            CtorNode::Scalar { .. } => "Scalar",
            CtorNode::Point2 { .. } => "Point2",
            CtorNode::Line2 { .. } => "Line2",
            CtorNode::PointPointMotor2 { .. } => "Point to Point Motor2",
            CtorNode::LineLineMotor2 { .. } => "Line to Line Motor2",
            CtorNode::ReconstructMotor2 { .. } => "Reconstruct Motor2",
            CtorNode::Point3 { .. } => "Point3",
        }
    }

    /// Returns the kinds of the inputs of the node.
    pub fn inputs(&self) -> (r: Vec<Type>)
        ensures
            r@ == self.inputs_spec(),
    {
        match self {
            CtorNode::Scalar { .. } => vec![],
            CtorNode::Point2 { .. } => vec![Type::Scalar, Type::Scalar],
            CtorNode::Line2 { .. } => vec![Type::Scalar, Type::Scalar, Type::Scalar],
            CtorNode::PointPointMotor2 { .. } => vec![Type::Scalar, Type::Point2, Type::Point2],
            CtorNode::LineLineMotor2 { .. } => vec![Type::Scalar, Type::Line2, Type::Line2],
            CtorNode::ReconstructMotor2 { .. } => vec![
                Type::Scalar,
                Type::Point2,
                Type::Point2,
                Type::Point2,
                Type::Point2,
            ],
            CtorNode::Point3 { .. } => vec![Type::Scalar, Type::Scalar, Type::Scalar],
        }
    }

    /// Returns the kind of the object that the node gives.
    pub fn output(&self) -> (r: Type)
        ensures
            r == self.get_spec().ty_spec(),
    {
        match self {
            CtorNode::Scalar { .. } => Type::Scalar,
            CtorNode::Point2 { .. } => Type::Point2,
            CtorNode::Line2 { .. } => Type::Line2,
            CtorNode::PointPointMotor2 { .. } => Type::Motor2,
            CtorNode::LineLineMotor2 { .. } => Type::Motor2,
            CtorNode::ReconstructMotor2 { .. } => Type::Motor2,
            CtorNode::Point3 { .. } => Type::Point3,
        }
    }

    /// Returns the object that the node gives.
    pub fn get(&self) -> (r: Value<T>)
        ensures
            r == self.get_spec(),
    {
        match self {
            CtorNode::Scalar { scalar } => Value::Scalar(*scalar),
            CtorNode::Point2 { point } => Value::Point2(*point),
            CtorNode::Line2 { line } => Value::Line2(*line),
            CtorNode::PointPointMotor2 { motor, .. } => Value::Motor2(*motor),
            CtorNode::LineLineMotor2 { motor, .. } => Value::Motor2(*motor),
            CtorNode::ReconstructMotor2 { motor, .. } => Value::Motor2(*motor),
            CtorNode::Point3 { point } => Value::Point3(*point),
        }
    }

    /// Returns the scalar that the input `idx` stands at: a coordinate
    /// of a point, a coefficient of a line or the exponent of a motor.
    /// An input that takes no scalar, and an index out of range, give
    /// nothing.
    pub fn scalar_at(&self, idx: usize) -> (r: Option<T>)
        ensures
            r.is_some() <==> idx < self.inputs_spec().len() && self.inputs_spec()[idx as int]
                == Type::Scalar,
            match *self {
                CtorNode::Scalar { .. } => true,
                CtorNode::Point2 { point } => (idx == 0 ==> r == Some(point.0.e20)) && (idx == 1
                    ==> r == Some(point.0.e01)),
                CtorNode::Line2 { line } => (idx == 0 ==> r == Some(line.0.e1)) && (idx == 1 ==> r
                    == Some(line.0.e2)) && (idx == 2 ==> r == Some(line.0.e0)),
                CtorNode::PointPointMotor2 { mul, .. } => idx == 0 ==> r == Some(mul),
                CtorNode::LineLineMotor2 { mul, .. } => idx == 0 ==> r == Some(mul),
                CtorNode::ReconstructMotor2 { mul, .. } => idx == 0 ==> r == Some(mul),
                CtorNode::Point3 { point } => (idx == 0 ==> r == Some(point.0.e032)) && (idx == 1
                    ==> r == Some(point.0.e013)) && (idx == 2 ==> r == Some(point.0.e021)),
            },
    {
        match self {
            CtorNode::Scalar { .. } => None,
            CtorNode::Point2 { point } => {
                let (x, y) = point.coords();
                if idx == 0 {
                    Some(x)
                } else if idx == 1 {
                    Some(y)
                } else {
                    None
                }
            },
            CtorNode::Line2 { line } => {
                let (a, b, c) = line.abc();
                if idx == 0 {
                    Some(a)
                } else if idx == 1 {
                    Some(b)
                } else if idx == 2 {
                    Some(c)
                } else {
                    None
                }
            },
            CtorNode::PointPointMotor2 { mul, .. } => if idx == 0 {
                Some(*mul)
            } else {
                None
            },
            CtorNode::LineLineMotor2 { mul, .. } => if idx == 0 {
                Some(*mul)
            } else {
                None
            },
            CtorNode::ReconstructMotor2 { mul, .. } => if idx == 0 {
                Some(*mul)
            } else {
                None
            },
            CtorNode::Point3 { point } => {
                let (x, y, z) = point.coords();
                if idx == 0 {
                    Some(x)
                } else if idx == 1 {
                    Some(y)
                } else if idx == 2 {
                    Some(z)
                } else {
                    None
                }
            },
        }
    }

    /// Takes the scalar `scalar` in at the input `idx`, which takes a
    /// scalar.
    pub fn set_scalar(&mut self, idx: usize, scalar: T)
        requires
            idx < old(self).inputs_spec().len(),
            old(self).inputs_spec()[idx as int] == Type::Scalar,
        ensures
            *final(self) == old(self).with_scalar_spec(idx as int, scalar),
            final(self).is_current(),
    {
        match *self {
            CtorNode::Scalar { .. } => {},
            CtorNode::Point2 { point } => {
                let (mut x, mut y) = point.coords();
                if idx == 0 {
                    x = scalar;
                } else {
                    y = scalar;
                }
                let point = if point.is_ideal() {
                    Point2::ideal(x, y)
                } else {
                    Point2::at(x, y)
                };
                *self = CtorNode::Point2 { point };
            },
            CtorNode::Line2 { line } => {
                let (mut a, mut b, mut c) = line.abc();
                if idx == 0 {
                    a = scalar;
                } else if idx == 1 {
                    b = scalar;
                } else {
                    c = scalar;
                }
                *self = CtorNode::Line2 { line: Line2::from_abc(a, b, c).normalized() };
            },
            CtorNode::PointPointMotor2 { a, b, .. } => {
                *self = CtorNode::PointPointMotor2 {
                    mul: scalar,
                    a,
                    b,
                    motor: Motor2::point_point(a, b) * scalar,
                };
            },
            CtorNode::LineLineMotor2 { a, b, .. } => {
                *self = CtorNode::LineLineMotor2 {
                    mul: scalar,
                    a,
                    b,
                    motor: Motor2::line_line(a, b) * scalar,
                };
            },
            CtorNode::ReconstructMotor2 { a, b, .. } => {
                *self = CtorNode::ReconstructMotor2 {
                    mul: scalar,
                    a,
                    b,
                    motor: Motor2::reconstruct(a, b) * scalar,
                };
            },
            CtorNode::Point3 { point } => {
                let (mut x, mut y, mut z) = point.coords();
                if idx == 0 {
                    x = scalar;
                } else if idx == 1 {
                    y = scalar;
                } else {
                    z = scalar;
                }
                let point = if point.is_ideal() {
                    Point3::ideal(x, y, z)
                } else {
                    Point3::at(x, y, z)
                };
                *self = CtorNode::Point3 { point };
            },
        }
    }

    /// Takes the point `point` in at the input `idx`, which takes a
    /// point.
    pub fn set_point(&mut self, idx: usize, point: Point2<T>)
        requires
            idx < old(self).inputs_spec().len(),
            old(self).inputs_spec()[idx as int] == Type::Point2,
        ensures
            *final(self) == old(self).with_point_spec(idx as int, point),
            final(self).is_current(),
    {
        match *self {
            CtorNode::PointPointMotor2 { mul, a, b, .. } => {
                let (a, b) = if idx == 1 {
                    (point, b)
                } else {
                    (a, point)
                };
                *self = CtorNode::PointPointMotor2 {
                    mul,
                    a,
                    b,
                    motor: Motor2::point_point(a, b) * mul,
                };
            },
            CtorNode::ReconstructMotor2 { mul, a, b, .. } => {
                let mut a = a;
                let mut b = b;
                if idx == 1 {
                    a[0] = point;
                } else if idx == 2 {
                    a[1] = point;
                } else if idx == 3 {
                    b[0] = point;
                } else {
                    b[1] = point;
                }
                let motor = Motor2::reconstruct(a, b) * mul;
                assert(a =~= [a[0], a[1]]);
                assert(b =~= [b[0], b[1]]);
                *self = CtorNode::ReconstructMotor2 { mul, a, b, motor };
            },
            _ => {},
        }
    }

    /// Takes the line `line` in at the input `idx`, which takes a line.
    pub fn set_line(&mut self, idx: usize, line: Line2<T>)
        requires
            idx < old(self).inputs_spec().len(),
            old(self).inputs_spec()[idx as int] == Type::Line2,
        ensures
            *final(self) == old(self).with_line_spec(idx as int, line),
            final(self).is_current(),
    {
        match *self {
            CtorNode::LineLineMotor2 { mul, a, b, .. } => {
                let (a, b) = if idx == 1 {
                    (line, b)
                } else {
                    (a, line)
                };
                *self = CtorNode::LineLineMotor2 {
                    mul,
                    a,
                    b,
                    motor: Motor2::line_line(a, b) * mul,
                };
            },
            _ => {},
        }
    }
}

/// A node of the graph.
#[derive(Clone, Debug)]
pub enum Node<T> {
    /// The time, in seconds, as a scalar.
    Time,
    /// The remainder of a division.
    Modulo {
        /// The dividend.
        a: T,
        /// The divisor.
        b: T,
        /// The remainder.
        result: T,
    },
    /// A node that makes an object.
    CtorNode(CtorNode<T>),
    /// A transformation that is applied to any number of objects.
    Apply {
        /// The transformation.
        transform: Value<T>,
        /// What the transformation has made of each object.
        results: Vec<Value<T>>,
    },
    /// What two objects share.
    Meet {
        /// The first object.
        a: Value<T>,
        /// The second object.
        b: Value<T>,
        /// What they share.
        result: Value<T>,
    },
    /// What spans two objects.
    Join {
        /// The first object.
        a: Value<T>,
        /// The second object.
        b: Value<T>,
        /// What spans them.
        result: Value<T>,
    },
    /// The projection of an object onto another.
    Project {
        /// The object that is projected.
        a: Value<T>,
        /// The object that it is projected onto.
        b: Value<T>,
        /// The projection.
        result: Value<T>,
    },
    /// A sink that shows whatever is wired to it.
    Show {
        /// The size of what is shown.
        scale: T,
        /// The colour of what is shown: red, green, blue and opacity.
        color: [u8; 4],
    },
}

/// Whether an output that gives objects of the kind `from` may be wired
/// to an input that takes the kind `to`, or any kind where `to` is
/// nothing.
pub open spec fn fits_spec(from: Type, to: Option<Type>) -> bool {
    match to {
        None => true,
        Some(to) => from == to,
    }
}

/// Returns whether an output of the kind `from` may be wired to an input
/// that takes the kind `to`.
pub fn fits(from: Type, to: Option<Type>) -> (r: bool)
    ensures
        r == fits_spec(from, to),
{
    match to {
        None => true,
        Some(to) => from == to,
    }
}

impl<T: Num> Node<T> {
    /// Whether the node can be counted: an `Apply` node has two inputs
    /// more than it has results, and that number has to fit.
    pub open spec fn wf(self) -> bool {
        match self {
            Node::Apply { results, .. } => results.len() + 2 <= usize::MAX,
            _ => true,
        }
    }

    /// The title of the node.
    pub open spec fn name_spec(self) -> Seq<char> {
        match self {
            Node::Time => "Time"@,
            Node::Modulo { .. } => "Modulo"@,
            Node::CtorNode(ctor) => ctor.name_spec(),
            Node::Apply { .. } => "Apply"@,
            Node::Meet { .. } => "Meet"@,
            Node::Join { .. } => "Join"@,
            Node::Project { .. } => "Project"@,
            Node::Show { .. } => "Show"@,
        }
    }

    /// Returns the title of the node.
    pub fn name(&self) -> (r: &'static str)
        ensures
            r@ == self.name_spec(),
    {
        match self {
            Node::Time => "Time",
            Node::Modulo { .. } => "Modulo",
            Node::CtorNode(ctor) => ctor.name(),
            Node::Apply { .. } => "Apply",
            Node::Meet { .. } => "Meet",
            Node::Join { .. } => "Join",
            Node::Project { .. } => "Project",
            Node::Show { .. } => "Show",
        }
    }

    /// The number of inputs.
    pub open spec fn inputs_spec(self) -> nat {
        match self {
            Node::Time => 0,
            Node::Modulo { .. } => 2,
            Node::CtorNode(ctor) => ctor.inputs_spec().len(),
            Node::Apply { results, .. } => (results@.len() + 2) as nat,
            Node::Meet { .. } => 2,
            Node::Join { .. } => 2,
            Node::Project { .. } => 2,
            Node::Show { .. } => 1,
        }
    }

    /// The kind that the input `idx` takes, or nothing where it takes
    /// any kind.
    pub open spec fn input_type_spec(self, idx: int) -> Option<Type> {
        match self {
            Node::Modulo { .. } => Some(Type::Scalar),
            Node::CtorNode(ctor) => Some(ctor.inputs_spec()[idx]),
            _ => None,
        }
    }

    /// The number of outputs.
    pub open spec fn outputs_spec(self) -> nat {
        match self {
            Node::Time => 1,
            Node::Modulo { .. } => 1,
            Node::CtorNode(_) => 1,
            Node::Apply { results, .. } => results@.len(),
            Node::Meet { .. } => 1,
            Node::Join { .. } => 1,
            Node::Project { .. } => 1,
            Node::Show { .. } => 0,
        }
    }

    /// What the output `idx` gives at the time `time`.
    pub open spec fn get_spec(self, idx: int, time: T) -> Value<T> {
        match self {
            Node::Time => Value::Scalar(time),
            Node::Modulo { result, .. } => Value::Scalar(result),
            Node::CtorNode(ctor) => ctor.get_spec(),
            Node::Apply { results, .. } => results[idx],
            Node::Meet { result, .. } => result,
            Node::Join { result, .. } => result,
            Node::Project { result, .. } => result,
            Node::Show { .. } => Value::Nil,
        }
    }

    /// Returns the number of inputs of the node.
    pub fn inputs(&self) -> (r: usize)
        requires
            self.wf(),
        ensures
            r == self.inputs_spec(),
    {
        match self {
            Node::Time => 0,
            Node::Modulo { .. } => 2,
            Node::CtorNode(ctor) => ctor.inputs().len(),
            Node::Apply { results, .. } => results.len() + 2,
            Node::Meet { .. } => 2,
            Node::Join { .. } => 2,
            Node::Project { .. } => 2,
            Node::Show { .. } => 1,
        }
    }

    /// Returns the kind that the input `idx` takes, or nothing where it
    /// takes any kind.
    pub fn input_type(&self, idx: usize) -> (r: Option<Type>)
        requires
            idx < self.inputs_spec(),
        ensures
            r == self.input_type_spec(idx as int),
    {
        match self {
            Node::Modulo { .. } => Some(Type::Scalar),
            Node::CtorNode(ctor) => {
                let inputs = ctor.inputs();
                Some(inputs[idx])
            },
            _ => None,
        }
    }

    /// Returns the number of outputs of the node.
    pub fn outputs(&self) -> (r: usize)
        ensures
            r == self.outputs_spec(),
    {
        match self {
            Node::Time => 1,
            Node::Modulo { .. } => 1,
            Node::CtorNode(_) => 1,
            Node::Apply { results, .. } => results.len(),
            Node::Meet { .. } => 1,
            Node::Join { .. } => 1,
            Node::Project { .. } => 1,
            Node::Show { .. } => 0,
        }
    }

    /// Returns the kind of what the output `idx` gives.
    pub fn output_type(&self, idx: usize) -> (r: Type)
        requires
            idx < self.outputs_spec(),
        ensures
            forall|time: T| r == (#[trigger] self.get_spec(idx as int, time)).ty_spec(),
    {
        match self {
            Node::Time => Type::Scalar,
            Node::Modulo { .. } => Type::Scalar,
            Node::CtorNode(ctor) => ctor.output(),
            Node::Apply { results, .. } => results[idx].ty(),
            Node::Meet { result, .. } => result.ty(),
            Node::Join { result, .. } => result.ty(),
            Node::Project { result, .. } => result.ty(),
            Node::Show { .. } => Type::Nil,
        }
    }

    /// Returns what the output `idx` gives at the time `time`.
    pub fn get(&self, idx: usize, time: T) -> (r: Value<T>)
        requires
            idx < self.outputs_spec(),
        ensures
            r == self.get_spec(idx as int, time),
    {
        match self {
            Node::Time => Value::Scalar(time),
            Node::Modulo { result, .. } => Value::Scalar(*result),
            Node::CtorNode(ctor) => ctor.get(),
            Node::Apply { results, .. } => results[idx],
            Node::Meet { result, .. } => *result,
            Node::Join { result, .. } => *result,
            Node::Project { result, .. } => *result,
            Node::Show { .. } => Value::Nil,
        }
    }

    /// Whether the input `idx` takes objects of any kind, and changes
    /// the node when one comes in: the inputs of the `Apply`, `Meet`,
    /// `Join` and `Project` nodes do.
    pub open spec fn takes_values(self, idx: int) -> bool {
        match self {
            Node::Apply { results, .. } => 0 <= idx <= results.len() + 1,
            Node::Meet { .. } => idx == 0 || idx == 1,
            Node::Join { .. } => idx == 0 || idx == 1,
            Node::Project { .. } => idx == 0 || idx == 1,
            _ => false,
        }
    }

    /// The first operand of a node with two operands after the object
    /// `v` has come in at the input `idx`.
    pub open spec fn first_spec(a: Value<T>, idx: int, v: Value<T>) -> Value<T> {
        if idx == 0 {
            v
        } else {
            a
        }
    }

    /// The second operand of a node with two operands after the object
    /// `v` has come in at the input `idx`.
    pub open spec fn second_spec(b: Value<T>, idx: int, v: Value<T>) -> Value<T> {
        if idx == 1 {
            v
        } else {
            b
        }
    }

    /// Takes the object `v` in at the input `idx` and returns the node as
    /// it is then.
    ///
    /// The first input of an `Apply` node takes the transformation. Every
    /// other takes an object and gives, at the output before it, what the
    /// transformation makes of the object; the input after the last makes
    /// room for one more. A `Meet`, a `Join` and a `Project` node take
    /// their two operands and give the result anew.
    pub fn with_value(self, idx: usize, v: Value<T>) -> (r: Self)
        requires
            self.wf(),
            self.takes_values(idx as int),
            self matches Node::Apply { results, .. } ==> results.len() + 3 <= usize::MAX,
        ensures
            r.wf(),
            match self {
                Node::Apply { transform, results } => r matches Node::Apply {
                    transform: t,
                    results: made,
                } && (if idx == 0 {
                    t == v && made@ == results@
                } else {
                    t == transform && made@ == (if idx == results.len() + 1 {
                        results@.push(Value::Nil)
                    } else {
                        results@
                    }).update(idx - 1, transform.apply_spec(v))
                }),
                Node::Meet { a, b, .. } => r matches Node::Meet { a: x, b: y, result }
                    && x == Self::first_spec(a, idx as int, v) && y == Self::second_spec(
                    b,
                    idx as int,
                    v,
                ) && result == x.meet_spec(y),
                Node::Join { a, b, .. } => r matches Node::Join { a: x, b: y, result }
                    && x == Self::first_spec(a, idx as int, v) && y == Self::second_spec(
                    b,
                    idx as int,
                    v,
                ) && result == x.join_spec(y),
                Node::Project { a, b, .. } => r matches Node::Project { a: x, b: y, result }
                    && x == Self::first_spec(a, idx as int, v) && y == Self::second_spec(
                    b,
                    idx as int,
                    v,
                ) && result == x.project_spec(y),
                _ => true,
            },
    {
        match self {
            Node::Apply { transform, results } => {
                if idx == 0 {
                    Node::Apply { transform: v, results }
                } else {
                    let mut results = results;
                    if idx == results.len() + 1 {
                        results.push(Value::Nil);
                    }
                    let made = transform.apply(&v);
                    results.set(idx - 1, made);
                    Node::Apply { transform, results }
                }
            },
            Node::Meet { a, b, .. } => {
                let (a, b) = if idx == 0 {
                    (v, b)
                } else {
                    (a, v)
                };
                let result = a.meet(&b);
                Node::Meet { a, b, result }
            },
            Node::Join { a, b, .. } => {
                let (a, b) = if idx == 0 {
                    (v, b)
                } else {
                    (a, v)
                };
                let result = a.join(&b);
                Node::Join { a, b, result }
            },
            Node::Project { a, b, .. } => {
                let (a, b) = if idx == 0 {
                    (v, b)
                } else {
                    (a, v)
                };
                let result = a.project(&b);
                Node::Project { a, b, result }
            },
            other => other,
        }
    }
}

} // verus!
