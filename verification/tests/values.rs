use athena::pga::{Line2, Line3, Motor2, Point2, Point3};
use athena::value::{Type, Value};
use athena::Num;
use std::ops::{Add, Div, Mul, Neg, Sub};

#[derive(Clone, Copy, Debug, PartialEq, PartialOrd)]
struct F(f64);

impl Add for F {
    type Output = F;
    fn add(self, rhs: F) -> F {
        F(self.0 + rhs.0)
    }
}

impl Sub for F {
    type Output = F;
    fn sub(self, rhs: F) -> F {
        F(self.0 - rhs.0)
    }
}

impl Mul for F {
    type Output = F;
    fn mul(self, rhs: F) -> F {
        F(self.0 * rhs.0)
    }
}

impl Div for F {
    type Output = F;
    fn div(self, rhs: F) -> F {
        F(self.0 / rhs.0)
    }
}

impl Neg for F {
    type Output = F;
    fn neg(self) -> F {
        F(-self.0)
    }
}

impl Num for F {
    const ZERO: Self = F(0.0);
    const EPSILON: Self = F(f64::EPSILON);
    const ONE: Self = F(1.0);
    const TWO: Self = F(2.0);

    fn operators_are_total() {}

    fn zero_and_one() {}

    fn sqrt_spec(self) -> Self {
        self.sqrt()
    }

    fn abs_spec(self) -> Self {
        self.abs()
    }

    fn sin_spec(self) -> Self {
        self.sin()
    }

    fn cos_spec(self) -> Self {
        self.cos()
    }

    fn asin_spec(self) -> Self {
        self.asin()
    }

    fn acos_spec(self) -> Self {
        self.acos()
    }

    fn tan_spec(self) -> Self {
        self.tan()
    }

    fn atan_spec(self) -> Self {
        self.atan()
    }

    fn atan2_spec(self, rhs: Self) -> Self {
        self.atan2(rhs)
    }

    fn sqrt(self) -> Self {
        F(self.0.sqrt())
    }

    fn abs(self) -> Self {
        F(self.0.abs())
    }

    fn sin(self) -> Self {
        F(self.0.sin())
    }

    fn cos(self) -> Self {
        F(self.0.cos())
    }

    fn asin(self) -> Self {
        F(self.0.asin())
    }

    fn acos(self) -> Self {
        F(self.0.acos())
    }

    fn tan(self) -> Self {
        F(self.0.tan())
    }

    fn atan(self) -> Self {
        F(self.0.atan())
    }

    fn atan2(self, rhs: Self) -> Self {
        F(self.0.atan2(rhs.0))
    }
}

fn f(x: f64) -> F {
    F(x)
}

fn samples() -> Vec<Value<F>> {
    vec![
        Value::Nil,
        Value::Scalar(f(2.0)),
        Value::Point2(Point2::at(f(1.0), f(2.0))),
        Value::Line2(Line2::from_abc(f(1.0), f(0.0), f(-3.0))),
        Value::Motor2(Motor2::point_point(Point2::at(f(0.0), f(0.0)), Point2::at(f(2.0), f(0.0)))),
        Value::Point3(Point3::at(f(1.0), f(2.0), f(3.0))),
        Value::Line3(Line3::horizon()),
    ]
}

fn point(v: Value<F>) -> Option<Point2<F>> {
    match v {
        Value::Point2(p) => Some(p),
        _ => None,
    }
}

fn line(v: Value<F>) -> Option<Line2<F>> {
    match v {
        Value::Line2(l) => Some(l),
        _ => None,
    }
}

#[test]
fn kinds_have_their_names() {
    assert_eq!(Type::Nil.name(), "Nil");
    assert_eq!(Type::Scalar.name(), "Scalar");
    assert_eq!(Type::Point2.name(), "Point2");
    assert_eq!(Type::Line2.name(), "Line2");
    assert_eq!(Type::Motor2.name(), "Motor2");
    assert_eq!(Type::Point3.name(), "Point3");
    assert_eq!(Type::Line3.name(), "Line3");
}

#[test]
fn values_know_their_kind() {
    let kinds: Vec<Type> = samples().iter().map(|v| v.ty()).collect();
    assert_eq!(
        kinds,
        vec![Type::Nil, Type::Scalar, Type::Point2, Type::Line2, Type::Motor2, Type::Point3, Type::Line3]
    );
}

#[test]
fn apply_reflects_and_moves() {
    let p = Point2::at(f(1.0), f(2.0));
    let l = Line2::from_abc(f(1.0), f(0.0), f(-3.0));
    let m = Motor2::point_point(Point2::at(f(0.0), f(0.0)), Point2::at(f(2.0), f(0.0)));
    assert_eq!(point(Value::Line2(l).apply(&Value::Point2(p))), Some(l.reflect_point(p)));
    assert_eq!(line(Value::Line2(l).apply(&Value::Line2(l))), Some(l.reflect_line(l)));
    assert_eq!(point(Value::Point2(p).apply(&Value::Point2(p))), Some(p.reflect_point(p)));
    assert_eq!(line(Value::Point2(p).apply(&Value::Line2(l))), Some(p.reflect_line(l)));
    assert_eq!(point(Value::Motor2(m).apply(&Value::Point2(p))), Some(m.move_point(p)));
    assert_eq!(line(Value::Motor2(m).apply(&Value::Line2(l))), Some(m.move_line(l)));
    assert_eq!(point(Value::Motor2(m).apply(&Value::Point2(p))).unwrap().coords(), (f(3.0), f(2.0)));
}

#[test]
fn apply_gives_nothing_on_other_pairs() {
    let mut defined = 0;
    for a in samples() {
        for b in samples() {
            let is_transform = matches!(a.ty(), Type::Line2 | Type::Point2 | Type::Motor2);
            let is_object = matches!(b.ty(), Type::Line2 | Type::Point2);
            let r = a.apply(&b);
            if is_transform && is_object {
                assert_eq!(r.ty(), b.ty());
                defined += 1;
            } else {
                assert_eq!(r.ty(), Type::Nil);
            }
        }
    }
    assert_eq!(defined, 6);
}

#[test]
fn meet_join_and_project_dispatch_on_the_pair() {
    let p = Point2::at(f(1.0), f(2.0));
    let q = Point2::at(f(4.0), f(0.0));
    let l = Line2::from_abc(f(1.0), f(0.0), f(-3.0));
    let k = Line2::from_abc(f(0.0), f(1.0), f(-1.0));
    assert_eq!(point(Value::Line2(l).meet(&Value::Line2(k))), Some(l.meet(k)));
    assert_eq!(line(Value::Point2(p).join(&Value::Point2(q))), Some(p.join(q)));
    assert_eq!(point(Value::Point2(p).project(&Value::Line2(l))), Some(p.project_to(l)));
    assert_eq!(line(Value::Line2(l).project(&Value::Point2(p))), Some(l.project_to(p)));
    for a in samples() {
        for b in samples() {
            let pair = (a.ty(), b.ty());
            assert_eq!(a.meet(&b).ty() != Type::Nil, pair == (Type::Line2, Type::Line2));
            assert_eq!(a.join(&b).ty() != Type::Nil, pair == (Type::Point2, Type::Point2));
            assert_eq!(
                a.project(&b).ty() != Type::Nil,
                pair == (Type::Point2, Type::Line2) || pair == (Type::Line2, Type::Point2)
            );
        }
    }
}
