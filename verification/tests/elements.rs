use athena::pga::elements::{
    geometric, inner, outer, regressive, regressive3, BiVector2, BiVector3, Dual, EBiVector3, Pseudo2, Pseudo3, Scalar2,
    Scalar3, TriVector3, Vector2, Vector3, XBiVector3,
};
use std::ops::{DivAssign, MulAssign, Not};
use athena::Num;
use std::ops::{Add, Div, Mul, Neg, Sub};

#[derive(Clone, Copy, Debug, PartialEq, PartialOrd)]
struct F(f64);

impl Add for F {
    type Output = F;
    fn add(self, rhs: F) -> F {
        F(self.0 + rhs.0)
    }
}

impl Sub for F {
    type Output = F;
    fn sub(self, rhs: F) -> F {
        F(self.0 - rhs.0)
    }
}

impl Mul for F {
    type Output = F;
    fn mul(self, rhs: F) -> F {
        F(self.0 * rhs.0)
    }
}

impl Div for F {
    type Output = F;
    fn div(self, rhs: F) -> F {
        F(self.0 / rhs.0)
    }
}

impl Neg for F {
    type Output = F;
    fn neg(self) -> F {
        F(-self.0)
    }
}

impl Num for F {
    const ZERO: Self = F(0.0);
    const EPSILON: Self = F(f64::EPSILON);
    const ONE: Self = F(1.0);
    const TWO: Self = F(2.0);

    fn operators_are_total() {}

    fn zero_and_one() {}

    fn sqrt_spec(self) -> Self {
        self.sqrt()
    }

    fn abs_spec(self) -> Self {
        self.abs()
    }

    fn sin_spec(self) -> Self {
        self.sin()
    }

    fn cos_spec(self) -> Self {
        self.cos()
    }

    fn asin_spec(self) -> Self {
        self.asin()
    }

    fn acos_spec(self) -> Self {
        self.acos()
    }

    fn tan_spec(self) -> Self {
        self.tan()
    }

    fn atan_spec(self) -> Self {
        self.atan()
    }

    fn atan2_spec(self, rhs: Self) -> Self {
        self.atan2(rhs)
    }

    fn sqrt(self) -> Self {
        F(self.0.sqrt())
    }

    fn abs(self) -> Self {
        F(self.0.abs())
    }

    fn sin(self) -> Self {
        F(self.0.sin())
    }

    fn cos(self) -> Self {
        F(self.0.cos())
    }

    fn asin(self) -> Self {
        F(self.0.asin())
    }

    fn acos(self) -> Self {
        F(self.0.acos())
    }

    fn tan(self) -> Self {
        F(self.0.tan())
    }

    fn atan(self) -> Self {
        F(self.0.atan())
    }

    fn atan2(self, rhs: Self) -> Self {
        F(self.0.atan2(rhs.0))
    }
}

fn f(x: f64) -> F {
    F(x)
}

fn v2(e0: f64, e1: f64, e2: f64) -> Vector2<F> {
    Vector2::new(f(e0), f(e1), f(e2))
}

fn b2(e01: f64, e20: f64, e12: f64) -> BiVector2<F> {
    BiVector2::new(f(e01), f(e20), f(e12))
}

fn v3(e0: f64, e1: f64, e2: f64, e3: f64) -> Vector3<F> {
    Vector3::new(f(e0), f(e1), f(e2), f(e3))
}

fn b3(e01: f64, e02: f64, e03: f64, e12: f64, e31: f64, e23: f64) -> BiVector3<F> {
    BiVector3::new(f(e01), f(e02), f(e03), f(e12), f(e31), f(e23))
}

fn t3(e021: f64, e013: f64, e032: f64, e123: f64) -> TriVector3<F> {
    TriVector3::new(f(e021), f(e013), f(e032), f(e123))
}

#[test]
fn constructors_keep_the_order_of_the_coefficients() {
    let v = v2(1.0, 2.0, 3.0);
    assert_eq!((v.e0.0, v.e1.0, v.e2.0), (1.0, 2.0, 3.0));
    let b = b2(1.0, 2.0, 3.0);
    assert_eq!((b.e01.0, b.e20.0, b.e12.0), (1.0, 2.0, 3.0));
    let v = v3(1.0, 2.0, 3.0, 4.0);
    assert_eq!((v.e0.0, v.e1.0, v.e2.0, v.e3.0), (1.0, 2.0, 3.0, 4.0));
    let x = XBiVector3::new(f(1.0), f(2.0), f(3.0));
    assert_eq!((x.e01.0, x.e02.0, x.e03.0), (1.0, 2.0, 3.0));
    let e = EBiVector3::new(f(1.0), f(2.0), f(3.0));
    assert_eq!((e.e12.0, e.e31.0, e.e23.0), (1.0, 2.0, 3.0));
    let b = b3(1.0, 2.0, 3.0, 4.0, 5.0, 6.0);
    assert_eq!((b.e01.0, b.e02.0, b.e03.0, b.e12.0, b.e31.0, b.e23.0), (1.0, 2.0, 3.0, 4.0, 5.0, 6.0));
    let t = t3(1.0, 2.0, 3.0, 4.0);
    assert_eq!((t.e021.0, t.e013.0, t.e032.0, t.e123.0), (1.0, 2.0, 3.0, 4.0));
    assert_eq!(Scalar2::new(f(5.0)).0 .0, 5.0);
    assert_eq!(Scalar3::new(f(5.0)).0 .0, 5.0);
    assert_eq!(Pseudo2::new(f(5.0)).e012.0, 5.0);
    assert_eq!(Pseudo3::new(f(5.0)).e0123.0, 5.0);
}

#[test]
fn zero_elements_are_zero() {
    assert_eq!(Vector2::<F>::zero(), v2(0.0, 0.0, 0.0));
    assert_eq!(BiVector2::<F>::zero(), b2(0.0, 0.0, 0.0));
    assert_eq!(Vector3::<F>::zero(), v3(0.0, 0.0, 0.0, 0.0));
    assert_eq!(BiVector3::<F>::zero(), b3(0.0, 0.0, 0.0, 0.0, 0.0, 0.0));
    assert_eq!(XBiVector3::<F>::zero(), XBiVector3::new(f(0.0), f(0.0), f(0.0)));
    assert_eq!(EBiVector3::<F>::zero(), EBiVector3::new(f(0.0), f(0.0), f(0.0)));
    assert_eq!(TriVector3::<F>::zero(), t3(0.0, 0.0, 0.0, 0.0));
    assert_eq!(Pseudo2::<F>::zero(), Pseudo2::new(f(0.0)));
    assert_eq!(Pseudo3::<F>::zero(), Pseudo3::new(f(0.0)));
}

#[test]
fn dual_of_a_vector_of_space_is_the_documented_trivector() {
    let t = v3(1.0, 2.0, 3.0, 4.0).dual();
    assert_eq!((t.e123.0, t.e032.0, t.e013.0, t.e021.0), (1.0, 2.0, 3.0, 4.0));
}

#[test]
fn dual_exchanges_the_grades() {
    assert_eq!(Scalar2(f(3.0)).dual(), Pseudo2::new(f(3.0)));
    assert_eq!(Pseudo2::new(f(3.0)).dual(), Scalar2(f(3.0)));
    assert_eq!(v2(1.0, 2.0, 3.0).dual(), b2(3.0, 2.0, 1.0));
    assert_eq!(b2(1.0, 2.0, 3.0).dual(), v2(3.0, 2.0, 1.0));
    assert_eq!(Scalar3(f(3.0)).dual(), Pseudo3::new(f(3.0)));
    assert_eq!(Pseudo3::new(f(3.0)).dual(), Scalar3(f(3.0)));
    assert_eq!(t3(1.0, 2.0, 3.0, 4.0).dual(), v3(4.0, 3.0, 2.0, 1.0));
    assert_eq!(XBiVector3::new(f(1.0), f(2.0), f(3.0)).dual(), EBiVector3::new(f(3.0), f(2.0), f(1.0)));
    assert_eq!(EBiVector3::new(f(1.0), f(2.0), f(3.0)).dual(), XBiVector3::new(f(3.0), f(2.0), f(1.0)));
    assert_eq!(b3(1.0, 2.0, 3.0, 4.0, 5.0, 6.0).dual(), b3(6.0, 5.0, 4.0, 3.0, 2.0, 1.0));
}

#[test]
fn dual_of_dual_is_the_element() {
    assert_eq!(Scalar2(f(3.0)).dual().dual(), Scalar2(f(3.0)));
    assert_eq!(Pseudo2::new(f(3.0)).dual().dual(), Pseudo2::new(f(3.0)));
    assert_eq!(v2(1.0, -2.0, 3.0).dual().dual(), v2(1.0, -2.0, 3.0));
    assert_eq!(b2(1.0, -2.0, 3.0).dual().dual(), b2(1.0, -2.0, 3.0));
    assert_eq!(Scalar3(f(3.0)).dual().dual(), Scalar3(f(3.0)));
    assert_eq!(Pseudo3::new(f(3.0)).dual().dual(), Pseudo3::new(f(3.0)));
    assert_eq!(v3(1.0, -2.0, 3.0, 4.5).dual().dual(), v3(1.0, -2.0, 3.0, 4.5));
    assert_eq!(t3(1.0, -2.0, 3.0, 4.5).dual().dual(), t3(1.0, -2.0, 3.0, 4.5));
    let x = XBiVector3::new(f(1.0), f(2.0), f(3.0));
    assert_eq!(x.dual().dual(), x);
    let e = EBiVector3::new(f(1.0), f(2.0), f(3.0));
    assert_eq!(e.dual().dual(), e);
    assert_eq!(b3(1.0, 2.0, 3.0, 4.0, 5.0, 6.0).dual().dual(), b3(1.0, 2.0, 3.0, 4.0, 5.0, 6.0));
}

#[test]
fn reverse_negates_the_grades_two_and_three() {
    assert_eq!(Scalar2(f(3.0)).not(), Scalar2(f(3.0)));
    assert_eq!(v2(1.0, 2.0, 3.0).not(), v2(1.0, 2.0, 3.0));
    assert_eq!(b2(1.0, 2.0, 3.0).not(), b2(-1.0, -2.0, -3.0));
    assert_eq!(Pseudo2::new(f(3.0)).not(), Pseudo2::new(f(-3.0)));
    assert_eq!(Scalar3(f(3.0)).not(), Scalar3(f(3.0)));
    assert_eq!(v3(1.0, 2.0, 3.0, 4.0).not(), v3(1.0, 2.0, 3.0, 4.0));
    assert_eq!(b3(1.0, 2.0, 3.0, 4.0, 5.0, 6.0).not(), b3(-1.0, -2.0, -3.0, -4.0, -5.0, -6.0));
    assert_eq!(t3(1.0, 2.0, 3.0, 4.0).not(), t3(-1.0, -2.0, -3.0, -4.0));
    assert_eq!(Pseudo3::new(f(3.0)).not(), Pseudo3::new(f(3.0)));
    assert_eq!(!b2(1.0, 2.0, 3.0), b2(-1.0, -2.0, -3.0));
}

#[test]
fn sums_and_differences_go_coefficient_by_coefficient() {
    assert_eq!(v2(1.0, 2.0, 3.0) + v2(10.0, 20.0, 30.0), v2(11.0, 22.0, 33.0));
    assert_eq!(v2(1.0, 2.0, 3.0) - v2(10.0, 20.0, 30.0), v2(-9.0, -18.0, -27.0));
    assert_eq!(b2(1.0, 2.0, 3.0) + b2(10.0, 20.0, 30.0), b2(11.0, 22.0, 33.0));
    assert_eq!(t3(1.0, 2.0, 3.0, 4.0) - t3(4.0, 3.0, 2.0, 1.0), t3(-3.0, -1.0, 1.0, 3.0));
    assert_eq!(-v3(1.0, -2.0, 3.0, 0.5), v3(-1.0, 2.0, -3.0, -0.5));
    assert_eq!(Scalar2(f(1.0)) + f(2.0), Scalar2(f(3.0)));
    assert_eq!(Scalar3(f(1.0)) - f(2.0), Scalar3(f(-1.0)));
    assert_eq!(Pseudo3::new(f(1.0)) + Pseudo3::new(f(2.0)), Pseudo3::new(f(3.0)));
}

#[test]
fn difference_of_bivectors_of_space_takes_every_coefficient_from_its_own_place() {
    let a = b3(10.0, 20.0, 30.0, 40.0, 50.0, 60.0);
    let b = b3(1.0, 2.0, 3.0, 4.0, 5.0, 6.0);
    assert_eq!(a - b, b3(9.0, 18.0, 27.0, 36.0, 45.0, 54.0));
}

#[test]
fn ideal_and_euclidean_parts_add_up_to_the_bivector() {
    let x = XBiVector3::new(f(1.0), f(2.0), f(3.0));
    let e = EBiVector3::new(f(4.0), f(5.0), f(6.0));
    assert_eq!(x + e, b3(1.0, 2.0, 3.0, 4.0, 5.0, 6.0));
    assert_eq!(e + x, b3(1.0, 2.0, 3.0, 4.0, 5.0, 6.0));
    assert_eq!(x - e, b3(1.0, 2.0, 3.0, -4.0, -5.0, -6.0));
    assert_eq!(e - x, b3(-1.0, -2.0, -3.0, 4.0, 5.0, 6.0));
    let b = b3(10.0, 20.0, 30.0, 40.0, 50.0, 60.0);
    assert_eq!(b + x, b3(11.0, 22.0, 33.0, 40.0, 50.0, 60.0));
    assert_eq!(b + e, b3(10.0, 20.0, 30.0, 44.0, 55.0, 66.0));
    assert_eq!(x + b, b3(11.0, 22.0, 33.0, 40.0, 50.0, 60.0));
    assert_eq!(e + b, b3(10.0, 20.0, 30.0, 44.0, 55.0, 66.0));
    assert_eq!(b - x, b3(9.0, 18.0, 27.0, 40.0, 50.0, 60.0));
    assert_eq!(b - e, b3(10.0, 20.0, 30.0, 36.0, 45.0, 54.0));
    assert_eq!(x - b, b3(-9.0, -18.0, -27.0, -40.0, -50.0, -60.0));
    assert_eq!(e - b, b3(-10.0, -20.0, -30.0, -36.0, -45.0, -54.0));
}

#[test]
fn scaling_multiplies_and_divides_every_coefficient() {
    assert_eq!(v2(1.0, 2.0, 3.0) * f(2.0), v2(2.0, 4.0, 6.0));
    assert_eq!(v2(1.0, 2.0, 3.0) / f(2.0), v2(0.5, 1.0, 1.5));
    assert_eq!(v2(1.0, 2.0, 3.0) * Scalar2(f(2.0)), v2(2.0, 4.0, 6.0));
    assert_eq!(v2(1.0, 2.0, 3.0) / Scalar2(f(2.0)), v2(0.5, 1.0, 1.5));
    assert_eq!(Scalar2(f(2.0)) * v2(1.0, 2.0, 3.0), v2(2.0, 4.0, 6.0));
    assert_eq!(b3(1.0, 2.0, 3.0, 4.0, 5.0, 6.0) * f(2.0), b3(2.0, 4.0, 6.0, 8.0, 10.0, 12.0));
    assert_eq!(b3(1.0, 2.0, 3.0, 4.0, 5.0, 6.0) / Scalar3(f(2.0)), b3(0.5, 1.0, 1.5, 2.0, 2.5, 3.0));
    assert_eq!(t3(1.0, 2.0, 3.0, 4.0) * Scalar3(f(-1.0)), t3(-1.0, -2.0, -3.0, -4.0));
    assert_eq!(Pseudo2::new(f(3.0)) / f(2.0), Pseudo2::new(f(1.5)));
    let mut v = v3(1.0, 2.0, 3.0, 4.0);
    v.mul_assign(f(3.0));
    assert_eq!(v, v3(3.0, 6.0, 9.0, 12.0));
    v.div_assign(Scalar3(f(3.0)));
    assert_eq!(v, v3(1.0, 2.0, 3.0, 4.0));
    let mut b = b2(1.0, 2.0, 3.0);
    b.mul_assign(Scalar2(f(2.0)));
    b.div_assign(f(4.0));
    assert_eq!(b, b2(0.5, 1.0, 1.5));
    let mut s = Scalar2(f(6.0));
    s.mul_assign(f(2.0));
    s.div_assign(Scalar2(f(3.0)));
    assert_eq!(s, Scalar2(f(4.0)));
}

#[test]
fn division_by_zero_is_what_the_field_makes_of_it() {
    let v = v2(1.0, -1.0, 0.0) / f(0.0);
    assert_eq!(v.e0.0, f64::INFINITY);
    assert_eq!(v.e1.0, f64::NEG_INFINITY);
    assert!(v.e2.0.is_nan());
}

#[test]
fn norms_of_the_elements() {
    let v = v2(7.0, 3.0, 4.0);
    assert_eq!(v.norm2().0, 25.0);
    assert_eq!(v.norm().0, 5.0);
    let v = v3(7.0, 1.0, 2.0, 2.0);
    assert_eq!(v.norm2().0, 9.0);
    assert_eq!(v.norm().0, 3.0);
    let b = b2(5.0, 6.0, -3.0);
    assert_eq!(b.norm2().0, 9.0);
    assert_eq!(b.norm().0, 3.0);
    assert_eq!(b.ideal_norm2().0, 61.0);
    assert_eq!(b2(3.0, 4.0, 9.0).ideal_norm().0, 5.0);
    let t = t3(5.0, 6.0, 7.0, -2.0);
    assert_eq!(t.norm2().0, 4.0);
    assert_eq!(t.norm().0, 2.0);
    let b = b3(9.0, 9.0, 9.0, 2.0, 3.0, 6.0);
    assert_eq!(b.norm2().0, 49.0);
    assert_eq!(b.norm().0, 7.0);
}

#[test]
fn normalizing_divides_by_the_norm() {
    assert_eq!(v2(10.0, 3.0, 4.0).normalized(), v2(2.0, 0.6, 0.8));
    assert_eq!(v3(9.0, 1.0, 2.0, 2.0).normalized(), v3(3.0, 1.0 / 3.0, 2.0 / 3.0, 2.0 / 3.0));
    assert_eq!(b2(4.0, 6.0, -2.0).normalized(), b2(2.0, 3.0, -1.0));
    assert_eq!(t3(4.0, 6.0, 8.0, -2.0).normalized(), t3(2.0, 3.0, 4.0, -1.0));
    assert_eq!(
        b3(7.0, 14.0, 21.0, 2.0, 3.0, 6.0).normalized(),
        b3(1.0, 2.0, 3.0, 2.0 / 7.0, 3.0 / 7.0, 6.0 / 7.0)
    );
    let mut v = v2(10.0, 3.0, 4.0);
    v.normalize();
    assert_eq!(v, v2(2.0, 0.6, 0.8));
    let mut b = b2(4.0, 6.0, -2.0);
    b.normalize();
    assert_eq!(b, b2(2.0, 3.0, -1.0));
}

#[test]
fn normalizing_leaves_an_element_of_norm_zero_alone() {
    assert_eq!(v2(5.0, 0.0, 0.0).normalized(), v2(5.0, 0.0, 0.0));
    assert_eq!(v3(5.0, 0.0, 0.0, 0.0).normalized(), v3(5.0, 0.0, 0.0, 0.0));
    assert_eq!(b2(5.0, 6.0, 0.0).normalized(), b2(5.0, 6.0, 0.0));
    assert_eq!(t3(5.0, 6.0, 7.0, 0.0).normalized(), t3(5.0, 6.0, 7.0, 0.0));
    assert_eq!(b3(1.0, 2.0, 3.0, 0.0, 0.0, 0.0).normalized(), b3(1.0, 2.0, 3.0, 0.0, 0.0, 0.0));
    let mut t = t3(5.0, 6.0, 7.0, 0.0);
    t.normalize();
    assert_eq!(t, t3(5.0, 6.0, 7.0, 0.0));
}

#[test]
fn outer_product_of_two_lines_is_their_point() {
    // x = 2 and y = 3 meet in (2, 3)
    let p = v2(-2.0, 1.0, 0.0) ^ v2(-3.0, 0.0, 1.0);
    assert_eq!(p, b2(3.0, 2.0, 1.0));
}

#[test]
fn inner_product_of_vectors_is_the_dot_product_of_their_normals() {
    assert_eq!(v2(9.0, 1.0, 2.0) | v2(8.0, 3.0, 4.0), Scalar2(f(11.0)));
    assert_eq!(v3(9.0, 1.0, 2.0, 3.0) | v3(8.0, 4.0, 5.0, 6.0), Scalar3(f(32.0)));
}

#[test]
fn geometric_product_is_the_pair_of_inner_and_outer_product() {
    let (a, b) = (v2(1.0, 2.0, 3.0), v2(4.0, 5.0, 6.0));
    assert_eq!(a * b, (a | b, a ^ b));
    let (a, b) = (v3(1.0, 2.0, 3.0, 4.0), b3(1.0, 2.0, 3.0, 4.0, 5.0, 6.0));
    assert_eq!(a * b, (a | b, a ^ b));
    assert_eq!(b * a, (b | a, b ^ a));
    let t = t3(1.0, 2.0, 3.0, 4.0);
    assert_eq!(a * t, (a | t, a ^ t));
    let (p, q) = (b3(1.0, 2.0, 3.0, 4.0, 5.0, 6.0), b3(6.0, 5.0, 4.0, 3.0, 2.0, 1.0));
    let (s, _commutator, i) = p * q;
    assert_eq!(s, p | q);
    assert_eq!(i, p ^ q);
}

#[test]
fn inner_product_of_a_plane_and_a_point_of_space() {
    // the plane 2 x + 3 y + 5 z = 0 and the origin: the line through the
    // origin along the plane's normal
    let line = v3(0.0, 2.0, 3.0, 5.0) | t3(0.0, 0.0, 0.0, 1.0);
    assert_eq!(line, b3(0.0, 0.0, 0.0, 5.0, 3.0, 2.0));
    let back = t3(0.0, 0.0, 0.0, 1.0) | v3(0.0, 2.0, 3.0, 5.0);
    assert_eq!(back, b3(0.0, 0.0, 0.0, 5.0, 3.0, 2.0));
}

#[test]
fn products_that_the_grades_allow_are_all_there() {
    assert_eq!(Pseudo2::new(f(3.0)) ^ Scalar2(f(2.0)), Pseudo2::new(f(6.0)));
    assert_eq!(Pseudo3::new(f(3.0)) ^ Scalar3(f(2.0)), Pseudo3::new(f(6.0)));
    assert_eq!(Pseudo3::new(f(3.0)) | Scalar3(f(2.0)), Pseudo3::new(f(6.0)));
    assert_eq!(Pseudo3::new(f(3.0)) | f(2.0), Pseudo3::new(f(6.0)));
    let x = XBiVector3::new(f(1.0), f(2.0), f(3.0));
    assert_eq!(x ^ Scalar3(f(2.0)), XBiVector3::new(f(2.0), f(4.0), f(6.0)));
    let b = b3(7.0, 8.0, 9.0, 4.0, 5.0, 6.0);
    let e = EBiVector3::new(f(4.0), f(5.0), f(6.0));
    assert_eq!(x * b, x * e);
}

#[test]
fn products_by_their_names() {
    let (a, b) = (v2(1.0, 2.0, 3.0), b2(4.0, 5.0, 6.0));
    assert_eq!(inner(a, b), a | b);
    assert_eq!(outer(a, b), a ^ b);
    assert_eq!(geometric(a, b), a * b);
    assert_eq!(geometric(a, b), (inner(a, b), outer(a, b)));
    let (p, q) = (t3(1.0, 2.0, 3.0, 4.0), b3(1.0, 2.0, 3.0, 4.0, 5.0, 6.0));
    assert_eq!(inner(p, q), p | q);
    assert_eq!(geometric(q, p), q * p);
    assert_eq!(outer(v3(1.0, 2.0, 3.0, 4.0), p), v3(1.0, 2.0, 3.0, 4.0) ^ p);
    assert_eq!(inner(v2(0.0, 3.0, 4.0), v2(0.0, 3.0, 4.0)), Scalar2(f(25.0)));
}

#[test]
fn regressive_product_joins() {
    // the line through (0, 0) and (1, 1)
    let line: Vector2<F> = regressive(b2(0.0, 0.0, 1.0), b2(1.0, 1.0, 1.0));
    assert_eq!(line, v2(0.0, -1.0, 1.0));
    let same: Vector2<F> = (b2(0.0, 0.0, 1.0).dual() ^ b2(1.0, 1.0, 1.0).dual()).dual();
    assert_eq!(line, same);
    // the plane through three points on the axes, one unit from the origin
    let plane: Vector3<F> = regressive3(
        t3(0.0, 0.0, 1.0, 1.0),
        t3(0.0, 1.0, 0.0, 1.0),
        t3(1.0, 0.0, 0.0, 1.0),
    );
    // x + y + z - 1 = 0, up to a factor
    assert!(plane.e1.0 != 0.0);
    assert_eq!(plane.e1.0, plane.e2.0);
    assert_eq!(plane.e2.0, plane.e3.0);
    assert_eq!(plane.e0.0, -plane.e1.0);
}
