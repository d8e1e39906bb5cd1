use athena::pga::elements::{BiVector2, BiVector3, TriVector3, Vector2, Vector3};
use athena::pga::{Line2, Line3, Plane3, Point2, Point3};
use athena::Num;
use std::ops::{Add, Div, Mul, Neg, Sub};

#[derive(Clone, Copy, Debug, PartialEq, PartialOrd)]
struct F(f64);

impl Add for F {
    type Output = F;
    fn add(self, rhs: F) -> F {
        F(self.0 + rhs.0)
    }
}

impl Sub for F {
    type Output = F;
    fn sub(self, rhs: F) -> F {
        F(self.0 - rhs.0)
    }
}

impl Mul for F {
    type Output = F;
    fn mul(self, rhs: F) -> F {
        F(self.0 * rhs.0)
    }
}

impl Div for F {
    type Output = F;
    fn div(self, rhs: F) -> F {
        F(self.0 / rhs.0)
    }
}

impl Neg for F {
    type Output = F;
    fn neg(self) -> F {
        F(-self.0)
    }
}

impl Num for F {
    const ZERO: Self = F(0.0);
    const EPSILON: Self = F(f64::EPSILON);
    const ONE: Self = F(1.0);
    const TWO: Self = F(2.0);

    fn operators_are_total() {}

    fn zero_and_one() {}

    fn sqrt_spec(self) -> Self {
        self.sqrt()
    }

    fn abs_spec(self) -> Self {
        self.abs()
    }

    fn sin_spec(self) -> Self {
        self.sin()
    }

    fn cos_spec(self) -> Self {
        self.cos()
    }

    fn asin_spec(self) -> Self {
        self.asin()
    }

    fn acos_spec(self) -> Self {
        self.acos()
    }

    fn tan_spec(self) -> Self {
        self.tan()
    }

    fn atan_spec(self) -> Self {
        self.atan()
    }

    fn atan2_spec(self, rhs: Self) -> Self {
        self.atan2(rhs)
    }

    fn sqrt(self) -> Self {
        F(self.0.sqrt())
    }

    fn abs(self) -> Self {
        F(self.0.abs())
    }

    fn sin(self) -> Self {
        F(self.0.sin())
    }

    fn cos(self) -> Self {
        F(self.0.cos())
    }

    fn asin(self) -> Self {
        F(self.0.asin())
    }

    fn acos(self) -> Self {
        F(self.0.acos())
    }

    fn tan(self) -> Self {
        F(self.0.tan())
    }

    fn atan(self) -> Self {
        F(self.0.atan())
    }

    fn atan2(self, rhs: Self) -> Self {
        F(self.0.atan2(rhs.0))
    }
}

fn f(x: f64) -> F {
    F(x)
}

fn close(a: f64, b: f64) -> bool {
    (a - b).abs() < 1e-12
}

#[test]
fn point_at_has_weight_one() {
    let p = Point2::at(f(3.0), f(4.0));
    assert_eq!(p.bivector(), BiVector2::new(f(4.0), f(3.0), f(1.0)));
    assert_eq!(p.coords(), (f(3.0), f(4.0)));
    assert!(!p.is_ideal());
    assert_eq!(p.norm().0, 1.0);
    assert_eq!(p.normalized(), p);
}

#[test]
fn ideal_point_has_weight_zero() {
    let p = Point2::ideal(f(3.0), f(4.0));
    assert_eq!(p.bivector(), BiVector2::new(f(4.0), f(3.0), f(0.0)));
    assert_eq!(p.coords(), (f(3.0), f(4.0)));
    assert!(p.is_ideal());
    assert_eq!(p.norm().0, 0.0);
    assert_eq!(p.normalized(), p);
    let mut q = p;
    q.normalize();
    assert_eq!(q, p);
}

#[test]
fn origin_is_the_point_at_zero() {
    assert_eq!(Point2::<F>::origin(), Point2::at(f(0.0), f(0.0)));
    assert_eq!(Point3::<F>::origin(), Point3::at(f(0.0), f(0.0), f(0.0)));
}

#[test]
fn point_new_takes_the_coefficients_in_their_order() {
    let p = Point2::new(f(1.0), f(2.0), f(3.0));
    assert_eq!(p.bivector(), BiVector2::new(f(1.0), f(2.0), f(3.0)));
    assert_eq!(Point2::from_bivector(p.bivector()), p);
    let q = Point3::new(f(1.0), f(2.0), f(3.0), f(4.0));
    let t = q.trivector();
    assert_eq!((t.e123.0, t.e032.0, t.e013.0, t.e021.0), (1.0, 2.0, 3.0, 4.0));
    assert_eq!(Point3::from_trivector(t), q);
}

#[test]
fn normalizing_a_point_divides_by_its_weight() {
    let p = Point2::new(f(6.0), f(4.0), f(2.0));
    assert_eq!(p.normalized(), Point2::at(f(2.0), f(3.0)));
    let q = Point2::new(f(6.0), f(4.0), f(-2.0));
    assert_eq!(q.normalized(), Point2::at(f(-2.0), f(-3.0)));
    assert_eq!(q.norm().0, 2.0);
    let mut r = q;
    r.normalize();
    assert_eq!(r, q.normalized());
    let s = Point3::new(f(-2.0), f(4.0), f(6.0), f(8.0));
    assert_eq!(s.normalized(), Point3::at(f(-2.0), f(-3.0), f(-4.0)));
    assert_eq!(s.norm().0, 2.0);
    let mut t = s;
    t.normalize();
    assert_eq!(t, s.normalized());
}

#[test]
fn point_of_space_keeps_its_coordinates() {
    let p = Point3::at(f(1.0), f(2.0), f(3.0));
    assert_eq!(p.coords(), (f(1.0), f(2.0), f(3.0)));
    assert_eq!(p.trivector(), TriVector3::new(f(3.0), f(2.0), f(1.0), f(1.0)));
    assert!(!p.is_ideal());
    assert_eq!(p.normalized(), p);
    let d = Point3::ideal(f(1.0), f(2.0), f(3.0));
    assert_eq!(d.coords(), (f(1.0), f(2.0), f(3.0)));
    assert!(d.is_ideal());
    assert_eq!(d.normalized(), d);
    assert_eq!(d.norm().0, 0.0);
}

#[test]
fn line_stores_the_offset_first() {
    let l = Line2::new(f(1.0), f(2.0), f(3.0));
    assert_eq!(l.vector(), Vector2::new(f(1.0), f(2.0), f(3.0)));
    assert_eq!(l.abc(), (f(2.0), f(3.0), f(1.0)));
    let m = Line2::from_abc(f(2.0), f(3.0), f(1.0));
    assert_eq!(m, l);
    assert_eq!(Line2::from_vector(l.vector()), l);
}

#[test]
fn line_at_infinity_is_ideal() {
    let l = Line2::<F>::infinity();
    assert_eq!(l.abc(), (f(0.0), f(0.0), f(1.0)));
    assert!(l.is_ideal());
    assert!(!Line2::from_abc(f(0.0), f(1.0), f(5.0)).is_ideal());
    assert!(!Line2::from_abc(f(1.0), f(0.0), f(5.0)).is_ideal());
    assert!(Line2::from_abc(f(0.0), f(0.0), f(0.0)).is_ideal());
    assert_eq!(l.normalized(), l);
}

#[test]
fn line_tangent_and_intercepts() {
    // 2 x - 4 y + 8 = 0, that is y = x / 2 + 2
    let l = Line2::from_abc(f(2.0), f(-4.0), f(8.0));
    assert_eq!(l.tangent().0, 0.5);
    assert_eq!(l.y0().0, 2.0);
    assert_eq!(l.x0().0, -4.0);
}

#[test]
fn tangent_of_a_vertical_line_is_infinite() {
    let l = Line2::from_abc(f(1.0), f(0.0), f(-3.0));
    assert!(l.tangent().0.is_infinite());
    assert!(l.y0().0.is_infinite());
    assert_eq!(l.x0().0, 3.0);
    assert!(Line2::<F>::infinity().x0().0.is_infinite());
}

#[test]
fn line_norm_is_the_length_of_its_normal() {
    let l = Line2::from_abc(f(3.0), f(4.0), f(10.0));
    assert_eq!(l.norm2().0, 25.0);
    assert_eq!(l.norm().0, 5.0);
    assert_eq!(l.normalized(), Line2::from_abc(f(0.6), f(0.8), f(2.0)));
    let mut m = l;
    m.normalize();
    assert_eq!(m, l.normalized());
    assert!(close(m.norm2().0, 1.0));
}

#[test]
fn lines_meet_in_their_common_point() {
    let l = Line2::from_abc(f(1.0), f(1.0), f(-3.0)); // x + y = 3
    let m = Line2::from_abc(f(1.0), f(-1.0), f(-1.0)); // x - y = 1
    assert_eq!(l.meet(m).normalized().coords(), (f(2.0), f(1.0)));
    assert_eq!(m.meet(l).normalized().coords(), (f(2.0), f(1.0)));
}

#[test]
fn parallel_lines_meet_at_infinity() {
    let l = Line2::from_abc(f(1.0), f(2.0), f(-3.0));
    let m = Line2::from_abc(f(1.0), f(2.0), f(5.0));
    let p = l.meet(m);
    assert!(p.is_ideal());
    // in the direction of the lines
    let (x, y) = p.coords();
    assert_eq!(x.0 * 1.0 + y.0 * 2.0, 0.0);
    assert!(x.0 != 0.0);
}

#[test]
fn points_join_to_the_line_through_them() {
    let p = Point2::at(f(1.0), f(2.0));
    let q = Point2::at(f(4.0), f(-1.0));
    let l = p.join(q);
    let (a, b, c) = l.abc();
    assert!(!l.is_ideal());
    assert_eq!(a.0 * 1.0 + b.0 * 2.0 + c.0, 0.0);
    assert_eq!(a.0 * 4.0 + b.0 * -1.0 + c.0, 0.0);
}

#[test]
fn point_projects_to_the_foot_of_the_perpendicular() {
    // onto the line y = 1
    let l = Line2::from_abc(f(0.0), f(1.0), f(-1.0));
    let q = Point2::at(f(3.0), f(5.0)).project_to(l).normalized();
    assert_eq!(q.coords(), (f(3.0), f(1.0)));
    // onto the line x + y = 0
    let m = Line2::from_abc(f(1.0), f(1.0), f(0.0));
    let (x, y) = Point2::at(f(3.0), f(1.0)).project_to(m).normalized().coords();
    assert!(close(x.0, 1.0) && close(y.0, -1.0), "{} {}", x.0, y.0);
}

#[test]
fn line_projects_to_the_parallel_through_the_point() {
    let l = Line2::from_abc(f(1.0), f(2.0), f(7.0));
    let p = Point2::at(f(3.0), f(-1.0));
    let m = l.project_to(p);
    let (a, b, c) = m.abc();
    // parallel to l
    assert_eq!(a.0 * 2.0, b.0 * 1.0);
    assert!(a.0 != 0.0);
    // and through p
    assert_eq!(a.0 * 3.0 + b.0 * -1.0 + c.0, 0.0);
}

#[test]
fn point_reflection_in_space() {
    let c = Point3::at(f(1.0), f(2.0), f(3.0));
    let r = c.reflect_point(Point3::at(f(4.0), f(0.0), f(-1.0))).normalized();
    assert_eq!(r.coords(), (f(-2.0), f(4.0), f(7.0)));
}

#[test]
fn point_reflection_of_a_line_in_space() {
    // the x axis, mirrored through (0, 1, 0), is the parallel through (0, 2, 0)
    let axis = Point3::at(f(0.0), f(0.0), f(0.0)).join(Point3::at(f(1.0), f(0.0), f(0.0)));
    let image = Point3::at(f(0.0), f(1.0), f(0.0)).reflect_line(axis);
    let expected = Point3::at(f(0.0), f(2.0), f(0.0)).join(Point3::at(f(1.0), f(2.0), f(0.0)));
    let (g, h) = (image.bivector(), expected.bivector());
    let d = [g.e01.0, g.e02.0, g.e03.0, g.e12.0, g.e31.0, g.e23.0];
    let e = [h.e01.0, h.e02.0, h.e03.0, h.e12.0, h.e31.0, h.e23.0];
    assert!(d.iter().any(|x| *x != 0.0));
    for i in 0..6 {
        for j in 0..6 {
            assert!(close(d[i] * e[j], d[j] * e[i]), "{:?} {:?}", d, e);
        }
    }
}

#[test]
fn points_of_space_join_to_lines_and_planes() {
    let o = Point3::at(f(0.0), f(0.0), f(0.0));
    let x = Point3::at(f(1.0), f(0.0), f(0.0));
    let y = Point3::at(f(0.0), f(1.0), f(0.0));
    let l = o.join(x).normalized();
    let b = l.bivector();
    // the x axis: direction along x, no moment
    assert_eq!((b.e01.0, b.e02.0, b.e03.0), (0.0, 0.0, 0.0));
    assert_eq!((b.e12.0, b.e31.0), (0.0, 0.0));
    assert_eq!(b.e23.0.abs(), 1.0);
    // the plane z = 0
    let p = o.join3(x, y).normalized().vector();
    assert_eq!((p.e0.0, p.e1.0, p.e2.0), (0.0, 0.0, 0.0));
    assert_eq!(p.e3.0.abs(), 1.0);
}

#[test]
fn point_of_space_projects_onto_a_line() {
    let o = Point3::at(f(0.0), f(0.0), f(0.0));
    let x = Point3::at(f(1.0), f(0.0), f(0.0));
    let axis = o.join(x);
    let q = Point3::at(f(3.0), f(4.0), f(5.0)).project_to(axis).normalized();
    assert_eq!(q.coords(), (f(3.0), f(0.0), f(0.0)));
}

#[test]
fn line_of_space_is_made_of_its_coefficients() {
    let l = Line3::new(f(1.0), f(2.0), f(3.0), f(2.0), f(3.0), f(6.0));
    assert_eq!(l.bivector(), BiVector3::new(f(1.0), f(2.0), f(3.0), f(2.0), f(3.0), f(6.0)));
    assert_eq!(Line3::from_bivector(l.bivector()), l);
    assert!(!l.is_ideal());
    assert_eq!(l.norm2().0, 49.0);
    assert_eq!(l.norm().0, 7.0);
    let n = l.normalized().bivector();
    assert_eq!((n.e01.0, n.e12.0, n.e23.0), (1.0 / 7.0, 2.0 / 7.0, 6.0 / 7.0));
    let mut m = l;
    m.normalize();
    assert_eq!(m, l.normalized());
    let h = Line3::<F>::horizon();
    assert_eq!(h.bivector(), BiVector3::new(f(0.0), f(0.0), f(0.0), f(0.0), f(1.0), f(0.0)));
    let i = Line3::new(f(1.0), f(2.0), f(3.0), f(0.0), f(0.0), f(0.0));
    assert!(i.is_ideal());
    assert_eq!(i.normalized(), i);
}

#[test]
fn planes_by_their_names() {
    assert_eq!(Plane3::<F>::infinity().vector(), Vector3::new(f(1.0), f(0.0), f(0.0), f(0.0)));
    assert_eq!(Plane3::<F>::xy().vector(), Vector3::new(f(0.0), f(0.0), f(0.0), f(1.0)));
    assert_eq!(Plane3::<F>::yz().vector(), Vector3::new(f(0.0), f(1.0), f(0.0), f(0.0)));
    assert_eq!(Plane3::<F>::xz().vector(), Vector3::new(f(0.0), f(0.0), f(1.0), f(0.0)));
    let p = Plane3::new(f(6.0), f(1.0), f(2.0), f(2.0));
    assert_eq!(Plane3::from_vector(p.vector()), p);
    assert_eq!(p.norm2().0, 9.0);
    assert_eq!(p.norm().0, 3.0);
    assert_eq!(p.normalized(), Plane3::new(f(2.0), f(1.0 / 3.0), f(2.0 / 3.0), f(2.0 / 3.0)));
    let mut q = p;
    q.normalize();
    assert_eq!(q, p.normalized());
    assert_eq!(Plane3::<F>::infinity().normalized(), Plane3::infinity());
}

#[test]
fn projection_in_space_is_the_foot_of_the_perpendicular() {
    // the line through (1, 2, 3) with the direction (1, 2, 1)
    let line = Point3::at(f(1.0), f(2.0), f(3.0)).join(Point3::at(f(2.0), f(4.0), f(4.0)));
    let point = Point3::at(f(3.0), f(4.0), f(5.0));
    let (x, y, z) = point.project_to(line).normalized().coords();
    assert!(close(x.0, 7.0 / 3.0) && close(y.0, 14.0 / 3.0) && close(z.0, 13.0 / 3.0), "{} {} {}", x.0, y.0, z.0);
    // the way from the point to the foot is perpendicular to the line
    assert!(close((x.0 - 3.0) * 1.0 + (y.0 - 4.0) * 2.0 + (z.0 - 5.0) * 1.0, 0.0));
    // a point of the line is its own foot
    let (x, y, z) = Point3::at(f(0.0), f(0.0), f(2.0)).project_to(line).normalized().coords();
    assert!(close(x.0, 0.0) && close(y.0, 0.0) && close(z.0, 2.0), "{} {} {}", x.0, y.0, z.0);
}

#[test]
fn point_reflection_in_space_twice_gives_the_point_and_the_line_back() {
    let c = Point3::at(f(1.0), f(-2.0), f(0.5));
    let p = Point3::at(f(4.0), f(0.0), f(-1.0));
    assert_eq!(c.reflect_point(c.reflect_point(p)).trivector(), p.trivector());
    let l = p.join(Point3::at(f(2.0), f(3.0), f(5.0)));
    let twice = c.reflect_line(c.reflect_line(l));
    assert_eq!(twice.bivector(), l.bivector());
    // through a centre of weight two, sixteen times the point
    let d = Point3::new(f(2.0), f(2.0), f(-4.0), f(1.0));
    let q = d.reflect_point(d.reflect_point(p));
    assert_eq!(q.trivector(), Point3::new(f(16.0), f(64.0), f(0.0), f(-16.0)).trivector());
}

#[test]
fn point_reflection_in_space_keeps_a_line_through_the_centre() {
    let c = Point3::at(f(1.0), f(-2.0), f(0.5));
    let l = c.join(Point3::at(f(2.0), f(3.0), f(5.0)));
    assert_eq!(c.reflect_line(l).bivector(), l.bivector());
    // and sends another to the parallel on the other side: 2 w (c x d) - w w m
    let k = Line3::new(f(0.0), f(2.0), f(3.0), f(0.0), f(0.0), f(1.0));
    let image = c.reflect_line(k).bivector();
    // c x d with d = (1, 0, 0): (0, 0.5, 2)
    assert_eq!((image.e23.0, image.e31.0, image.e12.0), (1.0, 0.0, 0.0));
    assert_eq!((image.e01.0, image.e02.0, image.e03.0), (0.0, -1.0, 1.0));
}

#[test]
fn line_reflected_in_a_line() {
    // twice the mirror, as often as the inner product, less the line
    let mirror = Line2::new(f(2.0), f(0.0), f(1.0));
    let line = Line2::new(f(5.0), f(3.0), f(4.0));
    let image = mirror.reflect_line(line);
    let v = image.vector();
    assert_eq!((v.e0.0, v.e1.0, v.e2.0), (11.0, -3.0, 4.0));
    let back = mirror.reflect_line(image).vector();
    assert_eq!((back.e0.0, back.e1.0, back.e2.0), (5.0, 3.0, 4.0));
    // the mirror is its own image, and through a mirror of norm two the line comes back sixteenfold
    let wide = Line2::new(f(1.0), f(2.0), f(0.0));
    let own = wide.reflect_line(wide).vector();
    assert_eq!((own.e0.0, own.e1.0, own.e2.0), (4.0, 8.0, 0.0));
    let twice = wide.reflect_line(wide.reflect_line(line)).vector();
    assert_eq!((twice.e0.0, twice.e1.0, twice.e2.0), (80.0, 48.0, 64.0));
}

#[test]
fn line_reflected_through_a_point() {
    // 3 x + 4 y + 5 = 0 through (1, 2): 3 x + 4 y - 27 = 0
    let centre = Point2::at(f(1.0), f(2.0));
    let line = Line2::new(f(5.0), f(3.0), f(4.0));
    let image = centre.reflect_line(line);
    let v = image.vector();
    assert_eq!((v.e0.0, v.e1.0, v.e2.0), (27.0, -3.0, -4.0));
    let back = centre.reflect_line(image).vector();
    assert_eq!((back.e0.0, back.e1.0, back.e2.0), (5.0, 3.0, 4.0));
    // a line through the centre is its own image
    let through = Line2::new(f(-11.0), f(3.0), f(4.0));
    let own = centre.reflect_line(through).vector();
    assert_eq!((own.e0.0, own.e1.0, own.e2.0), (11.0, -3.0, -4.0));
}
