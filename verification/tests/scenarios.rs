use athena::pga::{Line2, Motor2, Point2};
use athena::Num;
use std::ops::{Add, Div, Mul, Neg, Sub};

#[derive(Clone, Copy, Debug, PartialEq, PartialOrd)]
struct F(f64);

impl Add for F {
    type Output = F;
    fn add(self, rhs: F) -> F {
        F(self.0 + rhs.0)
    }
}

impl Sub for F {
    type Output = F;
    fn sub(self, rhs: F) -> F {
        F(self.0 - rhs.0)
    }
}

impl Mul for F {
    type Output = F;
    fn mul(self, rhs: F) -> F {
        F(self.0 * rhs.0)
    }
}

impl Div for F {
    type Output = F;
    fn div(self, rhs: F) -> F {
        F(self.0 / rhs.0)
    }
}

impl Neg for F {
    type Output = F;
    fn neg(self) -> F {
        F(-self.0)
    }
}

impl Num for F {
    const ZERO: Self = F(0.0);
    const EPSILON: Self = F(f64::EPSILON);
    const ONE: Self = F(1.0);
    const TWO: Self = F(2.0);

    fn operators_are_total() {}

    fn zero_and_one() {}

    fn sqrt_spec(self) -> Self {
        self.sqrt()
    }

    fn abs_spec(self) -> Self {
        self.abs()
    }

    fn sin_spec(self) -> Self {
        self.sin()
    }

    fn cos_spec(self) -> Self {
        self.cos()
    }

    fn asin_spec(self) -> Self {
        self.asin()
    }

    fn acos_spec(self) -> Self {
        self.acos()
    }

    fn tan_spec(self) -> Self {
        self.tan()
    }

    fn atan_spec(self) -> Self {
        self.atan()
    }

    fn atan2_spec(self, rhs: Self) -> Self {
        self.atan2(rhs)
    }

    fn sqrt(self) -> Self {
        F(self.0.sqrt())
    }

    fn abs(self) -> Self {
        F(self.0.abs())
    }

    fn sin(self) -> Self {
        F(self.0.sin())
    }

    fn cos(self) -> Self {
        F(self.0.cos())
    }

    fn asin(self) -> Self {
        F(self.0.asin())
    }

    fn acos(self) -> Self {
        F(self.0.acos())
    }

    fn tan(self) -> Self {
        F(self.0.tan())
    }

    fn atan(self) -> Self {
        F(self.0.atan())
    }

    fn atan2(self, rhs: Self) -> Self {
        F(self.0.atan2(rhs.0))
    }
}

fn close(a: f64, b: f64, eps: f64) -> bool {
    (a - b).abs() < eps
}

#[test]
fn motor_moves_first_point_to_second() {
    let a = Point2::at(F(1.0), F(0.0));
    let b = Point2::at(F(0.0), F(1.0));
    let m = Motor2::point_point(a, b);
    let (x, y) = m.move_point(a).normalized().coords();
    assert!(close(x.0, 0.0, 1e-5), "x = {}", x.0);
    assert!(close(y.0, 1.0, 1e-5), "y = {}", y.0);
}

#[test]
fn axes_meet_at_the_origin() {
    let x_is_zero = Line2::from_abc(F(1.0), F(0.0), F(0.0));
    let y_is_zero = Line2::from_abc(F(0.0), F(1.0), F(0.0));
    let (x, y) = x_is_zero.meet(y_is_zero).normalized().coords();
    assert_eq!((x.0, y.0), (0.0, 0.0));
}

#[test]
fn join_of_origin_and_diagonal_point() {
    let line = Point2::<F>::origin().join(Point2::at(F(1.0), F(1.0))).normalized();
    let (a, b, c) = line.abc();
    let expected = Line2::from_abc(F(-1.0), F(1.0), F(0.0)).normalized();
    let (ea, eb, ec) = expected.abc();
    // the two lines agree up to one common factor
    assert!(close(a.0 * eb.0, b.0 * ea.0, 1e-12));
    assert!(close(a.0 * ec.0, c.0 * ea.0, 1e-12));
    assert!(close(b.0 * ec.0, c.0 * eb.0, 1e-12));
    assert!(close(c.0, 0.0, 1e-12));
    assert!(close(a.0.abs(), b.0.abs(), 1e-12));
    assert!(a.0 * b.0 < 0.0);
}

#[test]
fn ideal_point_is_its_own_normal_form() {
    let p = Point2::ideal(F(1.0), F(0.0));
    let n = p.normalized();
    assert_eq!(n, p);
    let (x, y) = n.coords();
    assert_eq!((x.0, y.0), (1.0, 0.0));
    assert!(n.is_ideal());
}
