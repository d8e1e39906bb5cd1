use athena::pga::elements::{BiVector2, BiVector3, Pseudo3, Scalar2, Scalar3};
use athena::pga::{Line2, Line3, Motor2, Motor3, Plane3, Point2, Point3};
use athena::Num;
use std::ops::{Add, Div, Mul, Neg, Sub};

#[derive(Clone, Copy, Debug, PartialEq, PartialOrd)]
struct F(f64);

impl Add for F {
    type Output = F;
    fn add(self, rhs: F) -> F {
        F(self.0 + rhs.0)
    }
}

impl Sub for F {
    type Output = F;
    fn sub(self, rhs: F) -> F {
        F(self.0 - rhs.0)
    }
}

impl Mul for F {
    type Output = F;
    fn mul(self, rhs: F) -> F {
        F(self.0 * rhs.0)
    }
}

impl Div for F {
    type Output = F;
    fn div(self, rhs: F) -> F {
        F(self.0 / rhs.0)
    }
}

impl Neg for F {
    type Output = F;
    fn neg(self) -> F {
        F(-self.0)
    }
}

impl Num for F {
    const ZERO: Self = F(0.0);
    const EPSILON: Self = F(f64::EPSILON);
    const ONE: Self = F(1.0);
    const TWO: Self = F(2.0);

    fn operators_are_total() {}

    fn zero_and_one() {}

    fn sqrt_spec(self) -> Self {
        self.sqrt()
    }

    fn abs_spec(self) -> Self {
        self.abs()
    }

    fn sin_spec(self) -> Self {
        self.sin()
    }

    fn cos_spec(self) -> Self {
        self.cos()
    }

    fn asin_spec(self) -> Self {
        self.asin()
    }

    fn acos_spec(self) -> Self {
        self.acos()
    }

    fn tan_spec(self) -> Self {
        self.tan()
    }

    fn atan_spec(self) -> Self {
        self.atan()
    }

    fn atan2_spec(self, rhs: Self) -> Self {
        self.atan2(rhs)
    }

    fn sqrt(self) -> Self {
        F(self.0.sqrt())
    }

    fn abs(self) -> Self {
        F(self.0.abs())
    }

    fn sin(self) -> Self {
        F(self.0.sin())
    }

    fn cos(self) -> Self {
        F(self.0.cos())
    }

    fn asin(self) -> Self {
        F(self.0.asin())
    }

    fn acos(self) -> Self {
        F(self.0.acos())
    }

    fn tan(self) -> Self {
        F(self.0.tan())
    }

    fn atan(self) -> Self {
        F(self.0.atan())
    }

    fn atan2(self, rhs: Self) -> Self {
        F(self.0.atan2(rhs.0))
    }
}

fn close(a: f64, b: f64) -> bool {
    (a - b).abs() < 1e-9
}

fn f(x: f64) -> F {
    F(x)
}

fn norm2_of(m: Motor2<F>) -> f64 {
    m.scalar().0 .0 * m.scalar().0 .0 + m.bivector().e12.0 * m.bivector().e12.0
}

fn norm2_of3(m: Motor3<F>) -> f64 {
    let b = m.bivector();
    m.scalar().0 .0 * m.scalar().0 .0 + b.e12.0 * b.e12.0 + b.e31.0 * b.e31.0 + b.e23.0 * b.e23.0
}

fn same_point(p: Point2<F>, q: Point2<F>) -> bool {
    let (px, py) = p.normalized().coords();
    let (qx, qy) = q.normalized().coords();
    close(px.0, qx.0) && close(py.0, qy.0)
}

fn same_point3(p: Point3<F>, q: Point3<F>) -> bool {
    let (px, py, pz) = p.normalized().coords();
    let (qx, qy, qz) = q.normalized().coords();
    close(px.0, qx.0) && close(py.0, qy.0) && close(pz.0, qz.0)
}

fn same_line(l: Line2<F>, m: Line2<F>) -> bool {
    let (a, b, c) = l.abc();
    let (d, e, g) = m.abc();
    close(a.0 * e.0, b.0 * d.0) && close(a.0 * g.0, c.0 * d.0) && close(b.0 * g.0, c.0 * e.0)
}

fn same_motor(m: Motor2<F>, n: Motor2<F>) -> bool {
    let (ms, mb) = (m.scalar().0 .0, m.bivector());
    let (ns, nb) = (n.scalar().0 .0, n.bivector());
    let plus = close(ms, ns) && close(mb.e01.0, nb.e01.0) && close(mb.e20.0, nb.e20.0) && close(mb.e12.0, nb.e12.0);
    let minus = close(ms, -ns) && close(mb.e01.0, -nb.e01.0) && close(mb.e20.0, -nb.e20.0) && close(mb.e12.0, -nb.e12.0);
    plus || minus
}

fn points() -> Vec<(f64, f64)> {
    vec![(0.0, 0.0), (1.0, 0.0), (0.0, 1.0), (3.0, -2.0), (-1.5, 4.25), (10.0, 7.0)]
}

fn rotation(angle: f64, cx: f64, cy: f64) -> Motor2<F> {
    // a rotation by `angle` about the point (cx, cy)
    let h = angle / 2.0;
    Motor2::new(
        Scalar2(f(h.cos())),
        BiVector2 { e01: f(cy * h.sin()), e20: f(cx * h.sin()), e12: f(h.sin()) },
    )
}

#[test]
fn point_point_moves_every_first_point_to_the_second() {
    for &(ax, ay) in points().iter() {
        for &(bx, by) in points().iter() {
            let a = Point2::at(f(ax), f(ay));
            let b = Point2::at(f(bx), f(by));
            let m = Motor2::point_point(a, b);
            assert!(same_point(m.move_point(a), b), "{:?} -> {:?}", (ax, ay), (bx, by));
        }
    }
}

#[test]
fn point_point_works_on_weighted_points() {
    let a = Point2::new(f(2.0), f(4.0), f(2.0)); // the point (2, 1)
    let b = Point2::new(f(-3.0), f(9.0), f(3.0)); // the point (3, -1)
    let m = Motor2::point_point(a, b);
    let (x, y) = m.move_point(a).normalized().coords();
    assert!(close(x.0, 3.0) && close(y.0, -1.0), "{} {}", x.0, y.0);
}

#[test]
fn point_point_is_a_translation_by_the_difference() {
    let a = Point2::at(f(1.0), f(2.0));
    let b = Point2::at(f(4.0), f(6.0));
    let m = Motor2::point_point(a, b);
    let (x, y) = m.move_point(Point2::at(f(-1.0), f(0.5))).normalized().coords();
    assert!(close(x.0, 2.0) && close(y.0, 4.5), "{} {}", x.0, y.0);
}

#[test]
fn constructors_and_compositions_give_unit_motors() {
    let a = Point2::at(f(1.0), f(2.0));
    let b = Point2::at(f(4.0), f(6.0));
    let l = Line2::from_abc(f(1.0), f(2.0), f(3.0)).normalized();
    let k = Line2::from_abc(f(-2.0), f(0.5), f(1.0)).normalized();
    let m = Motor2::point_point(a, b);
    let n = Motor2::line_line(l, k);
    let r = Motor2::reconstruct([a, b], [b, Point2::at(f(0.0), f(0.0))]);
    for (name, x) in [
        ("point_point", m),
        ("line_line", n),
        ("product", m * n),
        ("product", n * m),
        ("power", n * f(0.3)),
        ("power", m * f(2.5)),
        ("sqrt", n.sqrt()),
        ("sqrt", m.sqrt()),
        ("reconstruct", r),
        ("normalized", Motor2::new(Scalar2(f(3.0)), BiVector2 { e01: f(1.0), e20: f(2.0), e12: f(4.0) }).normalized()),
    ] {
        assert!((norm2_of(x) - 1.0).abs() < 1e-12, "{}: {}", name, norm2_of(x));
    }
}

#[test]
fn normalize_and_normalized_agree() {
    let m = Motor2::new(Scalar2(f(3.0)), BiVector2 { e01: f(1.0), e20: f(2.0), e12: f(4.0) });
    let mut n = m;
    n.normalize();
    assert_eq!(n, m.normalized());
    assert_eq!(n.scalar().0 .0, 3.0 / 5.0);
    assert_eq!(n.bivector().e12.0, 4.0 / 5.0);
    assert_eq!(n.bivector().e01.0, 1.0 / 5.0);
    assert_eq!(n.bivector().e20.0, 2.0 / 5.0);
    assert_eq!(m.norm2().0, 25.0);
    assert_eq!(m.norm().0, 5.0);
}

#[test]
fn motor_of_norm_zero_is_left_alone() {
    let m = Motor2::new(Scalar2(f(0.0)), BiVector2 { e01: f(1.0), e20: f(2.0), e12: f(0.0) });
    assert_eq!(m.normalized(), m);
    let mut n = m;
    n.normalize();
    assert_eq!(n, m);
}

#[test]
fn square_of_the_root_of_a_translation() {
    for &(dx, dy) in [(1.0, 0.0), (0.0, 1.0), (3.0, -4.0), (-0.25, 8.0)].iter() {
        let m = Motor2::point_point(Point2::at(f(0.0), f(0.0)), Point2::at(f(dx), f(dy)));
        let r = m.sqrt();
        assert!(same_motor(r * r, m), "{:?}", (dx, dy));
        // the root moves half as far
        let (x, y) = r.move_point(Point2::at(f(1.0), f(1.0))).normalized().coords();
        assert!(close(x.0, 1.0 + dx / 2.0) && close(y.0, 1.0 + dy / 2.0));
    }
}

#[test]
fn square_of_the_root_of_a_rotation() {
    for &angle in [0.1, 1.0, 2.0, 3.0, -0.7, -2.5].iter() {
        for &(cx, cy) in [(0.0, 0.0), (1.0, 2.0), (-3.0, 0.5)].iter() {
            let m = rotation(angle, cx, cy);
            let r = m.sqrt();
            assert!(same_motor(r * r, m), "angle {} about {:?}", angle, (cx, cy));
            let p = Point2::at(f(2.0), f(-1.0));
            assert!(same_point(r.move_point(r.move_point(p)), m.move_point(p)));
        }
    }
}

#[test]
fn root_takes_a_motor_with_the_least_weight_for_a_rotation() {
    // the weight is compared with zero exactly: with a weight that is
    // tiny, but not zero, the motor counts as a rotation
    let tiny = 1e-12;
    let m = Motor2::new(Scalar2(f(1.0)), BiVector2 { e01: f(0.0), e20: f(0.0), e12: f(tiny) }).normalized();
    let r = m.sqrt();
    assert!((norm2_of(r) - 1.0).abs() < 1e-12);
    assert!(same_motor(r * r, m));
    assert!(close(r.scalar().0 .0, 1.0));
    assert!((r.bivector().e12.0 - tiny / 2.0).abs() < 1e-20);
}

#[test]
fn root_of_a_translation_halves_the_bivector() {
    let m = Motor2::new(Scalar2(f(1.0)), BiVector2 { e01: f(3.0), e20: f(-4.0), e12: f(0.0) });
    let r = m.sqrt();
    assert_eq!(r.scalar().0 .0, 1.0);
    assert!(close(r.bivector().e01.0, 1.5));
    assert!(close(r.bivector().e20.0, -2.0));
    assert_eq!(r.bivector().e12.0, 0.0);
    let p = m * f(3.0);
    assert!(close(p.bivector().e01.0, 9.0));
    assert!(close(p.bivector().e20.0, -12.0));
}

#[test]
fn power_of_a_rotation_has_the_cosine_and_the_sine_of_the_scaled_angle() {
    // a rotation whose half angle is 0.4
    let m = rotation(0.8, 0.0, 0.0);
    let p = m * f(0.25);
    assert!(close(p.scalar().0 .0, (0.1f64).cos()));
    assert!(close(p.bivector().e12.0, (0.1f64).sin()));
    assert_eq!(p.bivector().e01.0, 0.0);
    assert_eq!(p.bivector().e20.0, 0.0);
}

#[test]
fn root_of_the_identity_is_the_identity() {
    let one = Motor2::new(Scalar2(f(1.0)), BiVector2 { e01: f(0.0), e20: f(0.0), e12: f(0.0) });
    assert_eq!(one.sqrt(), one);
}

#[test]
fn power_one_gives_the_motor_back() {
    let m = rotation(0.8, 1.0, -2.0);
    assert!(same_motor(m * f(1.0), m));
    let t = Motor2::point_point(Point2::at(f(0.0), f(0.0)), Point2::at(f(2.0), f(6.0)));
    assert!(same_motor(t * f(1.0), t));
}

#[test]
fn power_scales_the_angle_and_the_distance() {
    let m = rotation(0.9, 0.0, 0.0);
    let third = m * f(1.0 / 3.0);
    assert!(same_motor(third * third * third, m));
    let (x, y) = third.move_point(Point2::at(f(1.0), f(0.0))).normalized().coords();
    assert!(close(x.0, (0.3f64).cos()) && close(y.0.abs(), (0.3f64).sin()), "{} {}", x.0, y.0);
    let t = Motor2::point_point(Point2::at(f(0.0), f(0.0)), Point2::at(f(2.0), f(6.0)));
    let (x, y) = (t * f(2.5)).move_point(Point2::at(f(1.0), f(1.0))).normalized().coords();
    assert!(close(x.0, 6.0) && close(y.0, 16.0), "{} {}", x.0, y.0);
}

#[test]
fn rotation_turns_a_point_about_the_centre() {
    let m = rotation(std::f64::consts::FRAC_PI_2, 1.0, 1.0);
    let (x, y) = m.move_point(Point2::at(f(2.0), f(1.0))).normalized().coords();
    // a quarter turn about (1, 1) takes (2, 1) to (1, 2) or to (1, 0)
    assert!(close(x.0, 1.0) && (close(y.0, 2.0) || close(y.0, 0.0)), "{} {}", x.0, y.0);
    let (cx, cy) = m.move_point(Point2::at(f(1.0), f(1.0))).normalized().coords();
    assert!(close(cx.0, 1.0) && close(cy.0, 1.0));
}

#[test]
fn line_line_moves_the_first_line_to_the_second() {
    let lines = [(1.0, 0.0, 0.0), (0.0, 1.0, 0.0), (1.0, 1.0, -2.0), (3.0, -4.0, 5.0), (1.0, 0.0, -3.0)];
    for &(a, b, c) in lines.iter() {
        for &(d, e, g) in lines.iter() {
            let l = Line2::from_abc(f(a), f(b), f(c)).normalized();
            let k = Line2::from_abc(f(d), f(e), f(g)).normalized();
            let m = Motor2::line_line(l, k);
            assert!(same_line(m.move_line(l), k), "{:?} -> {:?}: {:?}", (a, b, c), (d, e, g), m.move_line(l));
        }
    }
}

#[test]
fn move_line_keeps_points_on_their_lines() {
    let m = rotation(0.6, 2.0, -1.0) * Motor2::point_point(Point2::at(f(0.0), f(0.0)), Point2::at(f(1.0), f(5.0)));
    let p = Point2::at(f(1.0), f(1.0));
    let q = Point2::at(f(4.0), f(-2.0));
    let l = p.join(q);
    assert!(same_line(m.move_line(l), m.move_point(p).join(m.move_point(q))));
}

#[test]
fn product_moves_by_the_right_motor_first() {
    let r = rotation(0.6, 2.0, -1.0);
    let t = Motor2::point_point(Point2::at(f(0.0), f(0.0)), Point2::at(f(1.0), f(5.0)));
    let p = Point2::at(f(-1.0), f(3.0));
    assert!(same_point((r * t).move_point(p), r.move_point(t.move_point(p))));
    assert!(same_point((t * r).move_point(p), t.move_point(r.move_point(p))));
}

#[test]
fn reconstruct_fixes_a_point_and_a_line() {
    let a = [Point2::at(f(1.0), f(1.0)), Point2::at(f(2.0), f(1.0))];
    let b = [Point2::at(f(-1.0), f(3.0)), Point2::at(f(-1.0), f(6.0))];
    let m = Motor2::reconstruct(a, b);
    assert!(same_point(m.move_point(a[0]), b[0]));
    // a[1] lands on the line through b[0] and b[1], one unit away from b[0]
    let (x, y) = m.move_point(a[1]).normalized().coords();
    assert!(close(x.0, -1.0), "{} {}", x.0, y.0);
    assert!(close((y.0 - 3.0).abs(), 1.0), "{} {}", x.0, y.0);
}

#[test]
fn line_reflection_twice_is_the_identity() {
    let lines = [(1.0, 0.0, 0.0), (0.0, 1.0, 0.0), (1.0, 1.0, -2.0), (3.0, -4.0, 5.0)];
    for &(a, b, c) in lines.iter() {
        for &(x, y) in points().iter() {
            let l = Line2::from_abc(f(a), f(b), f(c));
            let p = Point2::at(f(x), f(y));
            assert!(same_point(l.reflect_point(l.reflect_point(p)), p));
            let n = l.normalized();
            let twice = n.reflect_point(n.reflect_point(p));
            let (tx, ty) = twice.coords();
            assert!(close(tx.0, x) && close(ty.0, y) && close(twice.bivector().e12.0, 1.0));
        }
    }
}

#[test]
fn line_reflection_mirrors_a_point() {
    // the mirror image of (3, 5) in the line x = 1 is (-1, 5)
    let l = Line2::from_abc(f(1.0), f(0.0), f(-1.0));
    let (x, y) = l.reflect_point(Point2::at(f(3.0), f(5.0))).normalized().coords();
    assert!(close(x.0, -1.0) && close(y.0, 5.0), "{} {}", x.0, y.0);
    // and the mirror image of the line y = 2 x in the line y = 0 is y = -2 x
    let axis = Line2::from_abc(f(0.0), f(1.0), f(0.0));
    let image = axis.reflect_line(Line2::from_abc(f(2.0), f(-1.0), f(0.0)));
    assert!(same_line(image, Line2::from_abc(f(2.0), f(1.0), f(0.0))), "{:?}", image);
}

#[test]
fn point_reflection_mirrors_through_the_point() {
    let c = Point2::at(f(1.0), f(2.0));
    let (x, y) = c.reflect_point(Point2::at(f(4.0), f(-1.0))).normalized().coords();
    assert!(close(x.0, -2.0) && close(y.0, 5.0), "{} {}", x.0, y.0);
    let image = c.reflect_line(Line2::from_abc(f(1.0), f(0.0), f(0.0)));
    // the line x = 0 mirrored through (1, 2) is the line x = 2
    assert!(same_line(image, Line2::from_abc(f(1.0), f(0.0), f(-2.0))), "{:?}", image);
}

#[test]
fn point_point_in_space_moves_the_first_point_to_the_second() {
    let pts = [(0.0, 0.0, 0.0), (1.0, 0.0, 0.0), (0.0, 2.0, -1.0), (3.0, -2.0, 5.0)];
    for &(ax, ay, az) in pts.iter() {
        for &(bx, by, bz) in pts.iter() {
            let a = Point3::at(f(ax), f(ay), f(az));
            let b = Point3::at(f(bx), f(by), f(bz));
            let m = Motor3::point_point(a, b);
            assert!(same_point3(m.move_point(a), b), "{:?} -> {:?}: {:?}", (ax, ay, az), (bx, by, bz), m.move_point(a));
            assert!((norm2_of3(m) - 1.0).abs() < 1e-12);
        }
    }
}

#[test]
fn plane_plane_turns_about_the_shared_line() {
    let a = Plane3::new(f(0.0), f(1.0), f(0.0), f(0.0)); // x = 0
    let b = Plane3::new(f(0.0), f(0.0), f(1.0), f(0.0)); // y = 0
    let m = Motor3::plane_plane(a, b);
    assert!((norm2_of3(m) - 1.0).abs() < 1e-12);
    // the z axis, which the planes share, stays where it is
    assert!(same_point3(m.move_point(Point3::at(f(0.0), f(0.0), f(3.0))), Point3::at(f(0.0), f(0.0), f(3.0))));
    // a point of the plane y = 0 goes to the plane x = 0 or the other way round
    let (x, y, z) = m.move_point(Point3::at(f(0.0), f(2.0), f(1.0))).normalized().coords();
    assert!(close(y.0, 0.0) && close(x.0.abs(), 2.0) && close(z.0, 1.0), "{} {} {}", x.0, y.0, z.0);
}

#[test]
fn square_of_the_root_of_a_motor_of_space() {
    let t = Motor3::point_point(Point3::at(f(0.0), f(0.0), f(0.0)), Point3::at(f(2.0), f(-4.0), f(6.0)));
    let r = t.sqrt();
    let p = Point3::at(f(1.0), f(1.0), f(1.0));
    assert!(same_point3(r.move_point(r.move_point(p)), t.move_point(p)));
    assert!(same_point3(r.move_point(p), Point3::at(f(2.0), f(-1.0), f(4.0))));
    let q = Motor3::plane_plane(
        Plane3::new(f(0.0), f(1.0), f(0.0), f(0.0)),
        Plane3::new(f(0.0), f(1.0), f(1.0), f(0.0)).normalized(),
    );
    let h = q.sqrt();
    assert!(same_point3(h.move_point(h.move_point(p)), q.move_point(p)));
    assert!((norm2_of3(h) - 1.0).abs() < 1e-12);
    assert!((norm2_of3(h * h) - 1.0).abs() < 1e-12);
}

#[test]
fn motor_of_space_is_made_of_its_parts() {
    let s = Scalar3(f(1.0));
    let b = BiVector3::new(f(1.0), f(2.0), f(3.0), f(4.0), f(5.0), f(6.0));
    let p = Pseudo3::new(f(7.0));
    let m = Motor3::new(s, b, p);
    assert_eq!(m.scalar(), s);
    assert_eq!(m.bivector(), b);
    assert_eq!(m.pseudo(), p);
    let n = m.normalized();
    let d = (1.0f64 + 16.0 + 25.0 + 36.0).sqrt();
    assert_eq!(n.scalar().0 .0, 1.0 / d);
    assert_eq!(n.bivector().e01.0, 1.0 / d);
    assert_eq!(n.bivector().e23.0, 6.0 / d);
    assert_eq!(n.pseudo().e0123.0, 7.0 / d);
    let mut k = m;
    k.normalize();
    assert_eq!(k, n);
    assert_eq!(m.norm2().0, 78.0);
    assert_eq!(m.norm().0, d);
}

#[test]
fn move_line_in_space_keeps_points_on_their_lines() {
    let m = Motor3::point_point(Point3::at(f(0.0), f(0.0), f(0.0)), Point3::at(f(2.0), f(-4.0), f(6.0)));
    let p = Point3::at(f(1.0), f(1.0), f(0.0));
    let q = Point3::at(f(4.0), f(-2.0), f(3.0));
    let moved = m.move_line(p.join(q)).bivector();
    let joined = m.move_point(p).join(m.move_point(q)).normalized().bivector();
    let d = [moved.e01.0, moved.e02.0, moved.e03.0, moved.e12.0, moved.e31.0, moved.e23.0];
    let e = [joined.e01.0, joined.e02.0, joined.e03.0, joined.e12.0, joined.e31.0, joined.e23.0];
    for i in 0..6 {
        for j in 0..6 {
            assert!(close(d[i] * e[j], d[j] * e[i]), "{:?} {:?}", d, e);
        }
    }
}

fn same_line3(l: Line3<F>, k: Line3<F>) -> bool {
    let (g, h) = (l.normalized().bivector(), k.normalized().bivector());
    let d = [g.e01.0, g.e02.0, g.e03.0, g.e12.0, g.e31.0, g.e23.0];
    let e = [h.e01.0, h.e02.0, h.e03.0, h.e12.0, h.e31.0, h.e23.0];
    (0..6).all(|i| close(d[i], e[i]))
}

fn is_identity3(m: Motor3<F>) -> bool {
    let b = m.bivector();
    close(m.scalar().0 .0, 1.0)
        && [b.e01.0, b.e02.0, b.e03.0, b.e12.0, b.e31.0, b.e23.0, m.pseudo().e0123.0].iter().all(|x| close(*x, 0.0))
}

fn lies_on_line3(p: Point3<F>, l: Line3<F>) -> bool {
    let (a, b) = (l.normalized().bivector(), p.normalized().trivector());
    // direction d = (e23, e31, e12), moment m = (e01, e02, e03): the point x lies on the line
    // where x cross d equals the moment
    let (dx, dy, dz) = (a.e23.0, a.e31.0, a.e12.0);
    let (mx, my, mz) = (a.e01.0, a.e02.0, a.e03.0);
    let (x, y, z) = (b.e032.0, b.e013.0, b.e021.0);
    let c = [y * dz - z * dy, z * dx - x * dz, x * dy - y * dx];
    (close(c[0], mx) && close(c[1], my) && close(c[2], mz)) || (close(c[0], -mx) && close(c[1], -my) && close(c[2], -mz))
}

fn lies_on_plane3(p: Point3<F>, plane: Plane3<F>) -> bool {
    let v = plane.normalized().vector();
    let (x, y, z) = p.normalized().coords();
    close(v.e1.0 * x.0 + v.e2.0 * y.0 + v.e3.0 * z.0 + v.e0.0, 0.0)
}

fn check_reconstruct3(a: [Point3<F>; 3], b: [Point3<F>; 3]) {
    let m = Motor3::reconstruct(a, b);
    assert!((norm2_of3(m) - 1.0).abs() < 1e-9, "norm {}", norm2_of3(m));
    assert!(same_point3(m.move_point(a[0]), b[0]), "{:?}", m.move_point(a[0]));
    assert!(lies_on_line3(m.move_point(a[1]), b[0].join(b[1])), "{:?}", m.move_point(a[1]));
    assert!(lies_on_plane3(m.move_point(a[2]), b[0].join3(b[1], b[2])), "{:?}", m.move_point(a[2]));
    // on the side of b[1], and of b[2]
    let (x, y, z) = m.move_point(a[1]).normalized().coords();
    let (p, q, r) = b[0].coords();
    let (u, v, w) = b[1].coords();
    assert!((x.0 - p.0) * (u.0 - p.0) + (y.0 - q.0) * (v.0 - q.0) + (z.0 - r.0) * (w.0 - r.0) > 0.0);
}

#[test]
fn reconstruct_in_space_fixes_a_point_a_line_and_a_plane() {
    let a = [Point3::at(f(0.0), f(0.0), f(0.0)), Point3::at(f(1.0), f(0.0), f(0.0)), Point3::at(f(0.0), f(1.0), f(0.0))];
    let b = [Point3::at(f(1.0), f(2.0), f(3.0)), Point3::at(f(1.0), f(5.0), f(3.0)), Point3::at(f(1.0), f(2.0), f(7.0))];
    let m = Motor3::reconstruct(a, b);
    check_reconstruct3(a, b);
    let (x, y, z) = m.move_point(a[1]).normalized().coords();
    assert!(close(x.0, 1.0) && close(y.0, 3.0) && close(z.0, 3.0), "{} {} {}", x.0, y.0, z.0);
    let (x, y, z) = m.move_point(a[2]).normalized().coords();
    assert!(close(x.0, 1.0) && close(y.0, 2.0) && close(z.0.abs() - 3.0, 1.0), "{} {} {}", x.0, y.0, z.0);
}

#[test]
fn reconstruct_in_space_of_points_that_stay_is_the_identity() {
    let a = [Point3::at(f(0.0), f(0.0), f(0.0)), Point3::at(f(1.0), f(0.0), f(0.0)), Point3::at(f(0.0), f(1.0), f(0.0))];
    let m = Motor3::reconstruct(a, a);
    assert!(is_identity3(m), "{:?}", m);
    check_reconstruct3(a, a);
    let c = [Point3::at(f(1.0), f(2.0), f(3.0)), Point3::at(f(-1.0), f(0.5), f(3.0)), Point3::at(f(4.0), f(2.0), f(7.0))];
    assert!(is_identity3(Motor3::reconstruct(c, c)), "{:?}", Motor3::reconstruct(c, c));
}

#[test]
fn reconstruct_in_space_of_a_translated_triple_is_the_translation() {
    let a = [Point3::at(f(1.0), f(2.0), f(3.0)), Point3::at(f(-1.0), f(0.5), f(3.0)), Point3::at(f(4.0), f(2.0), f(7.0))];
    let b = [Point3::at(f(3.0), f(1.0), f(2.0)), Point3::at(f(1.0), f(-0.5), f(2.0)), Point3::at(f(6.0), f(1.0), f(6.0))];
    check_reconstruct3(a, b);
    let m = Motor3::reconstruct(a, b);
    for i in 0..3 {
        assert!(same_point3(m.move_point(a[i]), b[i]), "{}: {:?}", i, m.move_point(a[i]));
    }
    assert!(same_point3(m.move_point(Point3::at(f(0.0), f(0.0), f(0.0))), Point3::at(f(2.0), f(-1.0), f(-1.0))));
}

#[test]
fn reconstruct_in_space_of_a_turned_and_moved_triple() {
    let a = [Point3::at(f(1.0), f(0.0), f(0.0)), Point3::at(f(1.0), f(2.0), f(0.0)), Point3::at(f(1.0), f(0.0), f(3.0))];
    // a quarter turn about the z axis, then a move by (5, 6, 7)
    let b = [Point3::at(f(5.0), f(7.0), f(7.0)), Point3::at(f(3.0), f(7.0), f(7.0)), Point3::at(f(5.0), f(7.0), f(10.0))];
    check_reconstruct3(a, b);
    let m = Motor3::reconstruct(a, b);
    for i in 0..3 {
        assert!(same_point3(m.move_point(a[i]), b[i]), "{}: {:?}", i, m.move_point(a[i]));
    }
}

#[test]
fn line_line_in_space_gives_a_unit_motor() {
    let l = Line3::new(f(0.0), f(0.0), f(0.0), f(0.0), f(0.0), f(1.0));
    let k = Line3::new(f(0.0), f(0.0), f(0.0), f(0.0), f(1.0), f(0.0));
    let m = Motor3::line_line(l, k);
    assert!((norm2_of3(m) - 1.0).abs() < 1e-12);
    assert!(same_line3(m.move_line(l), k), "{:?}", m.move_line(l));
}

#[test]
fn motor_between_a_line_of_space_and_itself_is_the_identity() {
    let l = Line3::new(f(0.0), f(0.0), f(0.0), f(0.0), f(0.0), f(1.0));
    assert!(is_identity3(Motor3::line_line(l, l)), "{:?}", Motor3::line_line(l, l));
    let k = Point3::at(f(1.0), f(2.0), f(3.0)).join(Point3::at(f(-1.0), f(0.5), f(4.0)));
    assert!(is_identity3(Motor3::line_line(k, k)), "{:?}", Motor3::line_line(k, k));
    assert!(is_identity3(Motor3::line_line(k.normalized(), k)));
    assert!(is_identity3(Motor3::line_line(k, k.normalized())));
}

#[test]
fn motor_between_opposite_lines_of_space_is_zero() {
    let l = Line3::new(f(0.0), f(0.0), f(0.0), f(0.0), f(0.0), f(1.0));
    let k = Line3::new(f(0.0), f(0.0), f(0.0), f(0.0), f(0.0), f(-1.0));
    let m = Motor3::line_line(l, k);
    assert_eq!(norm2_of3(m), 0.0);
    assert_eq!(m.scalar().0 .0, 0.0);
}

#[test]
fn motor_between_parallel_lines_of_space_is_a_translation() {
    let o = Point3::at(f(0.0), f(0.0), f(0.0));
    let x = Point3::at(f(1.0), f(0.0), f(0.0));
    let p = Point3::at(f(0.0), f(2.0), f(4.0));
    let q = Point3::at(f(3.0), f(2.0), f(4.0));
    let (l, k) = (o.join(x).normalized(), p.join(q).normalized());
    let m = Motor3::line_line(l, k);
    assert!((norm2_of3(m) - 1.0).abs() < 1e-12, "{:?}", m);
    assert!(close(m.scalar().0 .0, 1.0));
    assert!(close(m.bivector().e12.0, 0.0) && close(m.bivector().e31.0, 0.0) && close(m.bivector().e23.0, 0.0));
    assert!(same_line3(m.move_line(l), k), "{:?}", m.move_line(l));
    assert!(same_point3(m.move_point(o), Point3::at(f(0.0), f(2.0), f(4.0))), "{:?}", m.move_point(o));
}

#[test]
fn motor_between_lines_of_space_that_meet_turns_about_their_point() {
    let c = Point3::at(f(1.0), f(2.0), f(3.0));
    let p = Point3::at(f(4.0), f(2.0), f(3.0));
    let q = Point3::at(f(1.0), f(2.0), f(8.0));
    let r = Point3::at(f(2.0), f(4.0), f(5.0));
    for (from, to) in [(p, q), (q, p), (p, r), (r, q)] {
        let (l, k) = (c.join(from).normalized(), c.join(to).normalized());
        let m = Motor3::line_line(l, k);
        assert!((norm2_of3(m) - 1.0).abs() < 1e-12, "{:?}", m);
        assert!(same_line3(m.move_line(l), k), "{:?} {:?}", m.move_line(l), k);
        assert!(same_point3(m.move_point(c), c), "{:?}", m.move_point(c));
    }
}

#[test]
fn motor_between_planes_moves_the_first_to_the_second() {
    let planes = [
        Plane3::new(f(0.0), f(1.0), f(0.0), f(0.0)),
        Plane3::new(f(-2.0), f(1.0), f(0.0), f(0.0)),
        Plane3::new(f(1.0), f(0.0), f(0.6), f(0.8)),
        Plane3::new(f(3.0), f(2.0 / 3.0), f(1.0 / 3.0), f(-2.0 / 3.0)),
    ];
    for a in planes {
        for b in planes {
            let m = Motor3::plane_plane(a, b);
            assert!((norm2_of3(m) - 1.0).abs() < 1e-12, "{:?}", m);
            if a == b {
                assert!(is_identity3(m), "{:?}", m);
            }
            // the feet of the perpendiculars from three points to the first plane
            let v = a.normalized().vector();
            for (x, y, z) in [(0.0, 0.0, 0.0), (1.0, -2.0, 3.0), (-4.0, 0.5, 2.0)] {
                let h = v.e1.0 * x + v.e2.0 * y + v.e3.0 * z + v.e0.0;
                let p = Point3::at(f(x - h * v.e1.0), f(y - h * v.e2.0), f(z - h * v.e3.0));
                assert!(lies_on_plane3(p, a), "{:?}", p);
                assert!(lies_on_plane3(m.move_point(p), b), "{:?} {:?}", m.move_point(p), b);
            }
        }
    }
}

#[test]
fn square_of_the_root_of_a_rotation_of_space_is_the_rotation() {
    let c = Point3::at(f(1.0), f(2.0), f(3.0));
    let p = Point3::at(f(4.0), f(2.0), f(3.0));
    let q = Point3::at(f(2.0), f(4.0), f(5.0));
    let m = Motor3::line_line(c.join(p).normalized(), c.join(q).normalized());
    assert!(close(m.pseudo().e0123.0, 0.0));
    let r = m.sqrt();
    let square = r * r;
    let (g, h) = (square.bivector(), m.bivector());
    assert!(close(square.scalar().0 .0, m.scalar().0 .0), "{:?} {:?}", square, m);
    assert!(close(g.e01.0, h.e01.0) && close(g.e02.0, h.e02.0) && close(g.e03.0, h.e03.0), "{:?} {:?}", square, m);
    assert!(close(g.e12.0, h.e12.0) && close(g.e31.0, h.e31.0) && close(g.e23.0, h.e23.0), "{:?} {:?}", square, m);
    assert!(close(square.pseudo().e0123.0, 0.0));
    // a quarter turn about the z axis: the root is an eighth of a turn
    let z = Motor3::plane_plane(Plane3::new(f(0.0), f(1.0), f(0.0), f(0.0)), Plane3::new(f(0.0), f(0.0), f(1.0), f(0.0)));
    let e = z.sqrt();
    assert!(close(e.scalar().0 .0, (std::f64::consts::PI / 8.0).cos()), "{:?}", e);
    assert!(close(e.bivector().e12.0.abs(), (std::f64::consts::PI / 8.0).sin()), "{:?}", e);
}

#[test]
fn motor_between_planes_composed_with_itself_is_their_product() {
    let a = Plane3::new(f(1.0), f(0.0), f(0.6), f(0.8));
    let b = Plane3::new(f(3.0), f(2.0 / 3.0), f(1.0 / 3.0), f(-2.0 / 3.0)).normalized();
    let m = Motor3::plane_plane(a, b);
    let square = m * m;
    let (s, bv) = b.vector() * a.vector();
    let (g, h) = (square.bivector(), bv);
    assert!(close(square.scalar().0 .0, s.0 .0), "{:?} {:?}", square, s);
    assert!(close(g.e01.0, h.e01.0) && close(g.e02.0, h.e02.0) && close(g.e03.0, h.e03.0), "{:?} {:?}", g, h);
    assert!(close(g.e12.0, h.e12.0) && close(g.e31.0, h.e31.0) && close(g.e23.0, h.e23.0), "{:?} {:?}", g, h);
    assert!(close(square.pseudo().e0123.0, 0.0));
    // the cosine of the angle between the planes
    assert!(close(s.0 .0, 0.6 / 3.0 - 1.6 / 3.0), "{:?}", s);
}

#[test]
fn motor_between_lines_composed_with_itself_is_their_product() {
    let c = Point3::at(f(1.0), f(2.0), f(3.0));
    let l = c.join(Point3::at(f(4.0), f(2.0), f(3.0))).normalized();
    let k = c.join(Point3::at(f(2.0), f(4.0), f(5.0))).normalized();
    let m = Motor3::line_line(l, k);
    let square = m * m;
    let (s, bv, p) = k.bivector() * !l.bivector();
    let (g, h) = (square.bivector(), bv);
    assert!(close(p.e0123.0, 0.0), "{:?}", p);
    assert!(close(square.scalar().0 .0, s.0 .0), "{:?} {:?}", square, s);
    assert!(close(g.e01.0, h.e01.0) && close(g.e02.0, h.e02.0) && close(g.e03.0, h.e03.0), "{:?} {:?}", g, h);
    assert!(close(g.e12.0, h.e12.0) && close(g.e31.0, h.e31.0) && close(g.e23.0, h.e23.0), "{:?} {:?}", g, h);
    assert!(close(square.pseudo().e0123.0, 0.0));
    // the cosine of the angle between the directions (1, 0, 0) and (1, 2, 2) / 3
    assert!(close(s.0 .0.abs(), 1.0 / 3.0), "{:?}", s);
}

#[test]
fn motor_between_planes_keeps_the_points_of_both() {
    // the planes x = 0 and y = 0 share the z axis
    let m = Motor3::plane_plane(Plane3::new(f(0.0), f(1.0), f(0.0), f(0.0)), Plane3::new(f(0.0), f(0.0), f(1.0), f(0.0)));
    for z in [-2.0, 0.0, 3.5] {
        let p = Point3::at(f(0.0), f(0.0), f(z));
        assert!(same_point3(m.move_point(p), p), "{:?}", m.move_point(p));
    }
    // 0.6 y + 0.8 z + 1 = 0 and (2 x + y - 2 z) / 3 + 3 = 0 share the point (-11/3, -5/3, 0)
    let a = Plane3::new(f(1.0), f(0.0), f(0.6), f(0.8));
    let b = Plane3::new(f(3.0), f(2.0 / 3.0), f(1.0 / 3.0), f(-2.0 / 3.0)).normalized();
    let p = Point3::at(f(-11.0 / 3.0), f(-5.0 / 3.0), f(0.0));
    assert!(lies_on_plane3(p, a) && lies_on_plane3(p, b));
    let m = Motor3::plane_plane(a, b);
    assert!(same_point3(m.move_point(p), p), "{:?}", m.move_point(p));
    // a point of the first plane only goes elsewhere, onto the second
    let q = Point3::at(f(2.0), f(-5.0 / 3.0), f(0.0));
    assert!(lies_on_plane3(q, a) && !lies_on_plane3(q, b));
    assert!(!same_point3(m.move_point(q), q));
    assert!(lies_on_plane3(m.move_point(q), b), "{:?}", m.move_point(q));
}

fn same_motor3(m: Motor3<F>, n: Motor3<F>) -> bool {
    let (g, h) = (m.bivector(), n.bivector());
    let d = [m.scalar().0 .0, g.e01.0, g.e02.0, g.e03.0, g.e12.0, g.e31.0, g.e23.0, m.pseudo().e0123.0];
    let e = [n.scalar().0 .0, h.e01.0, h.e02.0, h.e03.0, h.e12.0, h.e31.0, h.e23.0, n.pseudo().e0123.0];
    (0..8).all(|i| close(d[i], e[i]))
}

#[test]
fn square_of_the_root_of_a_screw_is_the_screw() {
    // a half turn about the z axis with a move along it
    let m = Motor3::new(
        Scalar3::new(f(0.0)),
        BiVector3::new(f(0.0), f(0.0), f(0.0), f(-1.0), f(0.0), f(0.0)),
        Pseudo3::new(f(1.0)),
    );
    let r = m.sqrt();
    assert!(same_motor3(r * r, m), "{:?}", r * r);
    assert!((norm2_of3(r) - 1.0).abs() < 1e-12);
    // a quarter turn about the z axis, then a move by (1, -2, 3)
    let turn = Motor3::plane_plane(Plane3::new(f(0.0), f(1.0), f(0.0), f(0.0)), Plane3::new(f(0.0), f(0.0), f(1.0), f(0.0)));
    let shift = Motor3::point_point(Point3::at(f(0.0), f(0.0), f(0.0)), Point3::at(f(1.0), f(-2.0), f(3.0)));
    let screw = shift * turn;
    assert!(!close(screw.pseudo().e0123.0, 0.0));
    let half = screw.sqrt();
    assert!(same_motor3(half * half, screw), "{:?} {:?}", half * half, screw);
    for p in [Point3::at(f(0.0), f(0.0), f(0.0)), Point3::at(f(2.0), f(1.0), f(-1.0))] {
        assert!(same_point3(half.move_point(half.move_point(p)), screw.move_point(p)));
    }
}

#[test]
fn motor_between_skew_lines_moves_the_first_to_the_second() {
    let l = Point3::at(f(0.0), f(0.0), f(0.0)).join(Point3::at(f(1.0), f(0.0), f(0.0))).normalized();
    let k = Point3::at(f(0.0), f(0.0), f(1.0)).join(Point3::at(f(0.0), f(1.0), f(1.0))).normalized();
    let m = Motor3::line_line(l, k);
    assert!((norm2_of3(m) - 1.0).abs() < 1e-12, "{:?}", m);
    assert!(same_line3(m.move_line(l), k), "{:?} {:?}", m.move_line(l), k);
    let a = Point3::at(f(1.0), f(2.0), f(3.0)).join(Point3::at(f(2.0), f(0.0), f(4.0))).normalized();
    let b = Point3::at(f(-1.0), f(0.5), f(0.0)).join(Point3::at(f(3.0), f(1.0), f(1.0))).normalized();
    let n = Motor3::line_line(a, b);
    assert!((norm2_of3(n) - 1.0).abs() < 1e-12, "{:?}", n);
    assert!(same_line3(n.move_line(a), b), "{:?} {:?}", n.move_line(a), b);
}

#[test]
fn untwisting_takes_the_pseudoscalar_out_of_the_norm() {
    let m = Motor3::new(
        Scalar3::new(f(1.0)),
        BiVector3::new(f(0.0), f(0.0), f(0.0), f(-1.0), f(0.0), f(0.0)),
        Pseudo3::new(f(1.0)),
    );
    let u = m.untwisted();
    let expected = Motor3::new(
        Scalar3::new(f(1.0)),
        BiVector3::new(f(0.0), f(0.0), f(-0.5), f(-1.0), f(0.0), f(0.0)),
        Pseudo3::new(f(0.5)),
    );
    assert!(same_motor3(u, expected), "{:?}", u);
    // the scalar times the pseudoscalar, less the inner product of the parts of the bivector
    let b = u.bivector();
    let twist = u.scalar().0 .0 * u.pseudo().e0123.0 - (b.e01.0 * b.e23.0 + b.e02.0 * b.e31.0 + b.e03.0 * b.e12.0);
    assert_eq!(twist, 0.0);
    // a motor without a twist stays as it is
    let turn = Motor3::plane_plane(Plane3::new(f(0.0), f(1.0), f(0.0), f(0.0)), Plane3::new(f(0.0), f(0.0), f(1.0), f(0.0)));
    assert!(same_motor3(turn.untwisted(), turn));
    assert!(same_motor3(u.untwisted(), u));
}
