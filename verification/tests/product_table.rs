use athena::pga::elements::{
    BiVector2, BiVector3, Dual, EBiVector3, Pseudo2, Pseudo3, Scalar2, Scalar3, TriVector3, Vector2,
    Vector3, XBiVector3,
};
use athena::Num;
use std::ops::{Add, Div, Mul, Neg, Sub};

#[derive(Clone, Copy, Debug, PartialEq, PartialOrd)]
struct F(f64);

impl Add for F {
    type Output = F;
    fn add(self, rhs: F) -> F {
        F(self.0 + rhs.0)
    }
}

impl Sub for F {
    type Output = F;
    fn sub(self, rhs: F) -> F {
        F(self.0 - rhs.0)
    }
}

impl Mul for F {
    type Output = F;
    fn mul(self, rhs: F) -> F {
        F(self.0 * rhs.0)
    }
}

impl Div for F {
    type Output = F;
    fn div(self, rhs: F) -> F {
        F(self.0 / rhs.0)
    }
}

impl Neg for F {
    type Output = F;
    fn neg(self) -> F {
        F(-self.0)
    }
}

impl Num for F {
    const ZERO: Self = F(0.0);
    const EPSILON: Self = F(f64::EPSILON);
    const ONE: Self = F(1.0);
    const TWO: Self = F(2.0);

    fn operators_are_total() {}

    fn zero_and_one() {}

    fn sqrt_spec(self) -> Self {
        self.sqrt()
    }

    fn abs_spec(self) -> Self {
        self.abs()
    }

    fn sin_spec(self) -> Self {
        self.sin()
    }

    fn cos_spec(self) -> Self {
        self.cos()
    }

    fn asin_spec(self) -> Self {
        self.asin()
    }

    fn acos_spec(self) -> Self {
        self.acos()
    }

    fn tan_spec(self) -> Self {
        self.tan()
    }

    fn atan_spec(self) -> Self {
        self.atan()
    }

    fn atan2_spec(self, rhs: Self) -> Self {
        self.atan2(rhs)
    }

    fn sqrt(self) -> Self {
        F(self.0.sqrt())
    }

    fn abs(self) -> Self {
        F(self.0.abs())
    }

    fn sin(self) -> Self {
        F(self.0.sin())
    }

    fn cos(self) -> Self {
        F(self.0.cos())
    }

    fn asin(self) -> Self {
        F(self.0.asin())
    }

    fn acos(self) -> Self {
        F(self.0.acos())
    }

    fn tan(self) -> Self {
        F(self.0.tan())
    }

    fn atan(self) -> Self {
        F(self.0.atan())
    }

    fn atan2(self, rhs: Self) -> Self {
        F(self.0.atan2(rhs.0))
    }
}


// The algebra by its definition: a multivector is a sum of blades, a blade
// is a product of distinct generators e0 < e1 < e2 < e3 in ascending
// order, e0 squares to zero and the others to one, and two different
// generators anticommute.

type Multi = [f64; 16];

fn grade(blade: usize) -> u32 {
    (blade as u32).count_ones()
}

/// The sign of the product of two blades, or zero where it vanishes.
fn sign(a: usize, b: usize) -> f64 {
    if a & b & 1 != 0 {
        return 0.0;
    }
    let mut swaps = 0;
    for i in 0..4 {
        if b >> i & 1 != 0 {
            swaps += (a >> (i + 1)).count_ones();
        }
    }
    if swaps % 2 == 0 {
        1.0
    } else {
        -1.0
    }
}

fn geometric(a: &Multi, b: &Multi) -> Multi {
    let mut r = [0.0; 16];
    for i in 0..16 {
        for j in 0..16 {
            r[i ^ j] += sign(i, j) * a[i] * b[j];
        }
    }
    r
}

fn part(m: &Multi, g: u32) -> Multi {
    let mut r = [0.0; 16];
    for i in 0..16 {
        if grade(i) == g {
            r[i] = m[i];
        }
    }
    r
}

fn sum(a: &Multi, b: &Multi) -> Multi {
    let mut r = [0.0; 16];
    for i in 0..16 {
        r[i] = a[i] + b[i];
    }
    r
}

// blades by their generators: bit 0 is e0, bit 1 is e1, and so on
const E0: usize = 1;
const E1: usize = 2;
const E2: usize = 4;
const E3: usize = 8;

trait Embed {
    fn embed(&self) -> Multi;
    fn grade_of() -> u32;
    fn samples() -> Vec<Self>
    where
        Self: Sized;
}

impl Embed for Scalar2<F> {
    fn embed(&self) -> Multi {
        let mut m = [0.0; 16];
        m[0] = self.0 .0;
        m
    }

    fn grade_of() -> u32 {
        0
    }

    fn samples() -> Vec<Self> {
        vec![
            Scalar2(F(1.0)),
            Scalar2(F(1.0)),
            Scalar2(F(-5.0)),
            Scalar2(F(3.0)),
        ]
    }
}

impl Embed for Vector2<F> {
    fn embed(&self) -> Multi {
        let mut m = [0.0; 16];
        m[E0] = self.e0.0;
        m[E1] = self.e1.0;
        m[E2] = self.e2.0;
        m
    }

    fn grade_of() -> u32 {
        1
    }

    fn samples() -> Vec<Self> {
        vec![
            Vector2 { e0: F(1.0), e1: F(0.0), e2: F(0.0) },
            Vector2 { e0: F(0.0), e1: F(1.0), e2: F(0.0) },
            Vector2 { e0: F(0.0), e1: F(0.0), e2: F(1.0) },
            Vector2 { e0: F(-8.0), e1: F(-7.0), e2: F(8.0) },
            Vector2 { e0: F(-6.0), e1: F(2.0), e2: F(9.0) },
            Vector2 { e0: F(-8.0), e1: F(7.0), e2: F(-3.0) },
        ]
    }
}

impl Embed for BiVector2<F> {
    fn embed(&self) -> Multi {
        let mut m = [0.0; 16];
        m[E0 | E1] = self.e01.0;
        m[E0 | E2] = -self.e20.0;
        m[E1 | E2] = self.e12.0;
        m
    }

    fn grade_of() -> u32 {
        2
    }

    fn samples() -> Vec<Self> {
        vec![
            BiVector2 { e01: F(1.0), e20: F(0.0), e12: F(0.0) },
            BiVector2 { e01: F(0.0), e20: F(1.0), e12: F(0.0) },
            BiVector2 { e01: F(0.0), e20: F(0.0), e12: F(1.0) },
            BiVector2 { e01: F(-8.0), e20: F(-7.0), e12: F(4.0) },
            BiVector2 { e01: F(4.0), e20: F(-7.0), e12: F(-2.0) },
            BiVector2 { e01: F(-7.0), e20: F(8.0), e12: F(4.0) },
        ]
    }
}

impl Embed for Pseudo2<F> {
    fn embed(&self) -> Multi {
        let mut m = [0.0; 16];
        m[E0 | E1 | E2] = self.e012.0;
        m
    }

    fn grade_of() -> u32 {
        3
    }

    fn samples() -> Vec<Self> {
        vec![
            Pseudo2 { e012: F(1.0) },
            Pseudo2 { e012: F(-8.0) },
            Pseudo2 { e012: F(9.0) },
            Pseudo2 { e012: F(-6.0) },
        ]
    }
}

impl Embed for Scalar3<F> {
    fn embed(&self) -> Multi {
        let mut m = [0.0; 16];
        m[0] = self.0 .0;
        m
    }

    fn grade_of() -> u32 {
        0
    }

    fn samples() -> Vec<Self> {
        vec![
            Scalar3(F(1.0)),
            Scalar3(F(-2.0)),
            Scalar3(F(9.0)),
            Scalar3(F(-8.0)),
        ]
    }
}

impl Embed for Vector3<F> {
    fn embed(&self) -> Multi {
        let mut m = [0.0; 16];
        m[E0] = self.e0.0;
        m[E1] = self.e1.0;
        m[E2] = self.e2.0;
        m[E3] = self.e3.0;
        m
    }

    fn grade_of() -> u32 {
        1
    }

    fn samples() -> Vec<Self> {
        vec![
            Vector3 { e0: F(1.0), e1: F(0.0), e2: F(0.0), e3: F(0.0) },
            Vector3 { e0: F(0.0), e1: F(1.0), e2: F(0.0), e3: F(0.0) },
            Vector3 { e0: F(0.0), e1: F(0.0), e2: F(1.0), e3: F(0.0) },
            Vector3 { e0: F(0.0), e1: F(0.0), e2: F(0.0), e3: F(1.0) },
            Vector3 { e0: F(9.0), e1: F(9.0), e2: F(3.0), e3: F(-8.0) },
            Vector3 { e0: F(-2.0), e1: F(-8.0), e2: F(8.0), e3: F(-5.0) },
            Vector3 { e0: F(0.0), e1: F(4.0), e2: F(-5.0), e3: F(8.0) },
        ]
    }
}

impl Embed for XBiVector3<F> {
    fn embed(&self) -> Multi {
        let mut m = [0.0; 16];
        m[E0 | E1] = self.e01.0;
        m[E0 | E2] = self.e02.0;
        m[E0 | E3] = self.e03.0;
        m
    }

    fn grade_of() -> u32 {
        2
    }

    fn samples() -> Vec<Self> {
        vec![
            XBiVector3 { e01: F(1.0), e02: F(0.0), e03: F(0.0) },
            XBiVector3 { e01: F(0.0), e02: F(1.0), e03: F(0.0) },
            XBiVector3 { e01: F(0.0), e02: F(0.0), e03: F(1.0) },
            XBiVector3 { e01: F(-6.0), e02: F(9.0), e03: F(0.0) },
            XBiVector3 { e01: F(8.0), e02: F(-4.0), e03: F(-6.0) },
            XBiVector3 { e01: F(9.0), e02: F(9.0), e03: F(-3.0) },
        ]
    }
}

impl Embed for EBiVector3<F> {
    fn embed(&self) -> Multi {
        let mut m = [0.0; 16];
        m[E1 | E2] = self.e12.0;
        m[E1 | E3] = -self.e31.0;
        m[E2 | E3] = self.e23.0;
        m
    }

    fn grade_of() -> u32 {
        2
    }

    fn samples() -> Vec<Self> {
        vec![
            EBiVector3 { e12: F(1.0), e31: F(0.0), e23: F(0.0) },
            EBiVector3 { e12: F(0.0), e31: F(1.0), e23: F(0.0) },
            EBiVector3 { e12: F(0.0), e31: F(0.0), e23: F(1.0) },
            EBiVector3 { e12: F(2.0), e31: F(-6.0), e23: F(8.0) },
            EBiVector3 { e12: F(-7.0), e31: F(9.0), e23: F(-8.0) },
            EBiVector3 { e12: F(-3.0), e31: F(6.0), e23: F(8.0) },
        ]
    }
}

impl Embed for BiVector3<F> {
    fn embed(&self) -> Multi {
        let mut m = [0.0; 16];
        m[E0 | E1] = self.e01.0;
        m[E0 | E2] = self.e02.0;
        m[E0 | E3] = self.e03.0;
        m[E1 | E2] = self.e12.0;
        m[E1 | E3] = -self.e31.0;
        m[E2 | E3] = self.e23.0;
        m
    }

    fn grade_of() -> u32 {
        2
    }

    fn samples() -> Vec<Self> {
        vec![
            BiVector3 { e01: F(1.0), e02: F(0.0), e03: F(0.0), e12: F(0.0), e31: F(0.0), e23: F(0.0) },
            BiVector3 { e01: F(0.0), e02: F(1.0), e03: F(0.0), e12: F(0.0), e31: F(0.0), e23: F(0.0) },
            BiVector3 { e01: F(0.0), e02: F(0.0), e03: F(1.0), e12: F(0.0), e31: F(0.0), e23: F(0.0) },
            BiVector3 { e01: F(0.0), e02: F(0.0), e03: F(0.0), e12: F(1.0), e31: F(0.0), e23: F(0.0) },
            BiVector3 { e01: F(0.0), e02: F(0.0), e03: F(0.0), e12: F(0.0), e31: F(1.0), e23: F(0.0) },
            BiVector3 { e01: F(0.0), e02: F(0.0), e03: F(0.0), e12: F(0.0), e31: F(0.0), e23: F(1.0) },
            BiVector3 { e01: F(4.0), e02: F(1.0), e03: F(5.0), e12: F(9.0), e31: F(5.0), e23: F(2.0) },
            BiVector3 { e01: F(0.0), e02: F(-2.0), e03: F(-4.0), e12: F(-2.0), e31: F(-7.0), e23: F(9.0) },
            BiVector3 { e01: F(0.0), e02: F(7.0), e03: F(6.0), e12: F(1.0), e31: F(5.0), e23: F(0.0) },
        ]
    }
}

impl Embed for TriVector3<F> {
    fn embed(&self) -> Multi {
        let mut m = [0.0; 16];
        m[E0 | E1 | E2] = -self.e021.0;
        m[E0 | E1 | E3] = self.e013.0;
        m[E0 | E2 | E3] = -self.e032.0;
        m[E1 | E2 | E3] = self.e123.0;
        m
    }

    fn grade_of() -> u32 {
        3
    }

    fn samples() -> Vec<Self> {
        vec![
            TriVector3 { e021: F(1.0), e013: F(0.0), e032: F(0.0), e123: F(0.0) },
            TriVector3 { e021: F(0.0), e013: F(1.0), e032: F(0.0), e123: F(0.0) },
            TriVector3 { e021: F(0.0), e013: F(0.0), e032: F(1.0), e123: F(0.0) },
            TriVector3 { e021: F(0.0), e013: F(0.0), e032: F(0.0), e123: F(1.0) },
            TriVector3 { e021: F(-7.0), e013: F(-6.0), e032: F(7.0), e123: F(4.0) },
            TriVector3 { e021: F(-4.0), e013: F(1.0), e032: F(-5.0), e123: F(6.0) },
            TriVector3 { e021: F(4.0), e013: F(-8.0), e032: F(-7.0), e123: F(8.0) },
        ]
    }
}

impl Embed for Pseudo3<F> {
    fn embed(&self) -> Multi {
        let mut m = [0.0; 16];
        m[E0 | E1 | E2 | E3] = self.e0123.0;
        m
    }

    fn grade_of() -> u32 {
        4
    }

    fn samples() -> Vec<Self> {
        vec![
            Pseudo3 { e0123: F(1.0) },
            Pseudo3 { e0123: F(9.0) },
            Pseudo3 { e0123: F(1.0) },
            Pseudo3 { e0123: F(1.0) },
        ]
    }
}

impl<A: Embed, B: Embed> Embed for (A, B) {
    fn embed(&self) -> Multi {
        sum(&self.0.embed(), &self.1.embed())
    }

    fn grade_of() -> u32 {
        unreachable!()
    }

    fn samples() -> Vec<Self> {
        unreachable!()
    }
}

impl<A: Embed, B: Embed, C: Embed> Embed for (A, B, C) {
    fn embed(&self) -> Multi {
        sum(&sum(&self.0.embed(), &self.1.embed()), &self.2.embed())
    }

    fn grade_of() -> u32 {
        unreachable!()
    }

    fn samples() -> Vec<Self> {
        unreachable!()
    }
}

/// Checks a product of the library against the product by definition, on
/// every pair of basis elements and on some pairs of others.
fn conforms<A, B, R>(name: &str, product: fn(A, B) -> R, want: fn(&Multi, u32, u32) -> Multi) -> usize
where
    A: Embed + Copy + std::fmt::Debug,
    B: Embed + Copy + std::fmt::Debug,
    R: Embed,
{
    let mut pairs = 0;
    for a in A::samples() {
        for b in B::samples() {
            let got = product(a, b).embed();
            let full = geometric(&a.embed(), &b.embed());
            let expected = want(&full, A::grade_of(), B::grade_of());
            assert_eq!(got, expected, "{}: {:?} and {:?}", name, a, b);
            pairs += 1;
        }
    }
    pairs
}

fn whole(full: &Multi, _r: u32, _s: u32) -> Multi {
    *full
}

fn lowest(full: &Multi, r: u32, s: u32) -> Multi {
    part(full, if r > s { r - s } else { s - r })
}

fn highest(full: &Multi, r: u32, s: u32) -> Multi {
    part(full, r + s)
}

#[test]
fn geometric_products_of_the_plane_conform_to_the_algebra() {
    let mut pairs = 0;
    pairs += conforms("Scalar2 * Scalar2", |a: Scalar2<F>, b: Scalar2<F>| a * b, whole);
    pairs += conforms("Scalar2 * Vector2", |a: Scalar2<F>, b: Vector2<F>| a * b, whole);
    pairs += conforms("Scalar2 * BiVector2", |a: Scalar2<F>, b: BiVector2<F>| a * b, whole);
    pairs += conforms("Scalar2 * Pseudo2", |a: Scalar2<F>, b: Pseudo2<F>| a * b, whole);
    pairs += conforms("Vector2 * Scalar2", |a: Vector2<F>, b: Scalar2<F>| a * b, whole);
    pairs += conforms("Vector2 * Vector2", |a: Vector2<F>, b: Vector2<F>| a * b, whole);
    pairs += conforms("Vector2 * BiVector2", |a: Vector2<F>, b: BiVector2<F>| a * b, whole);
    pairs += conforms("Vector2 * Pseudo2", |a: Vector2<F>, b: Pseudo2<F>| a * b, whole);
    pairs += conforms("BiVector2 * Scalar2", |a: BiVector2<F>, b: Scalar2<F>| a * b, whole);
    pairs += conforms("BiVector2 * Vector2", |a: BiVector2<F>, b: Vector2<F>| a * b, whole);
    pairs += conforms("BiVector2 * BiVector2", |a: BiVector2<F>, b: BiVector2<F>| a * b, whole);
    pairs += conforms("BiVector2 * Pseudo2", |a: BiVector2<F>, b: Pseudo2<F>| a * b, whole);
    pairs += conforms("Pseudo2 * Scalar2", |a: Pseudo2<F>, b: Scalar2<F>| a * b, whole);
    pairs += conforms("Pseudo2 * Vector2", |a: Pseudo2<F>, b: Vector2<F>| a * b, whole);
    pairs += conforms("Pseudo2 * BiVector2", |a: Pseudo2<F>, b: BiVector2<F>| a * b, whole);
    assert!(pairs > 0);
}

#[test]
fn inner_products_of_the_plane_conform_to_the_algebra() {
    let mut pairs = 0;
    pairs += conforms("Scalar2 | Scalar2", |a: Scalar2<F>, b: Scalar2<F>| a | b, lowest);
    pairs += conforms("Scalar2 | Vector2", |a: Scalar2<F>, b: Vector2<F>| a | b, lowest);
    pairs += conforms("Scalar2 | BiVector2", |a: Scalar2<F>, b: BiVector2<F>| a | b, lowest);
    pairs += conforms("Scalar2 | Pseudo2", |a: Scalar2<F>, b: Pseudo2<F>| a | b, lowest);
    pairs += conforms("Vector2 | Scalar2", |a: Vector2<F>, b: Scalar2<F>| a | b, lowest);
    pairs += conforms("Vector2 | Vector2", |a: Vector2<F>, b: Vector2<F>| a | b, lowest);
    pairs += conforms("Vector2 | BiVector2", |a: Vector2<F>, b: BiVector2<F>| a | b, lowest);
    pairs += conforms("Vector2 | Pseudo2", |a: Vector2<F>, b: Pseudo2<F>| a | b, lowest);
    pairs += conforms("BiVector2 | Scalar2", |a: BiVector2<F>, b: Scalar2<F>| a | b, lowest);
    pairs += conforms("BiVector2 | Vector2", |a: BiVector2<F>, b: Vector2<F>| a | b, lowest);
    pairs += conforms("BiVector2 | BiVector2", |a: BiVector2<F>, b: BiVector2<F>| a | b, lowest);
    pairs += conforms("BiVector2 | Pseudo2", |a: BiVector2<F>, b: Pseudo2<F>| a | b, lowest);
    pairs += conforms("Pseudo2 | Scalar2", |a: Pseudo2<F>, b: Scalar2<F>| a | b, lowest);
    pairs += conforms("Pseudo2 | Vector2", |a: Pseudo2<F>, b: Vector2<F>| a | b, lowest);
    pairs += conforms("Pseudo2 | BiVector2", |a: Pseudo2<F>, b: BiVector2<F>| a | b, lowest);
    assert!(pairs > 0);
}

#[test]
fn outer_products_of_the_plane_conform_to_the_algebra() {
    let mut pairs = 0;
    pairs += conforms("Scalar2 ^ Scalar2", |a: Scalar2<F>, b: Scalar2<F>| a ^ b, highest);
    pairs += conforms("Scalar2 ^ Vector2", |a: Scalar2<F>, b: Vector2<F>| a ^ b, highest);
    pairs += conforms("Scalar2 ^ BiVector2", |a: Scalar2<F>, b: BiVector2<F>| a ^ b, highest);
    pairs += conforms("Scalar2 ^ Pseudo2", |a: Scalar2<F>, b: Pseudo2<F>| a ^ b, highest);
    pairs += conforms("Vector2 ^ Scalar2", |a: Vector2<F>, b: Scalar2<F>| a ^ b, highest);
    pairs += conforms("Vector2 ^ Vector2", |a: Vector2<F>, b: Vector2<F>| a ^ b, highest);
    pairs += conforms("Vector2 ^ BiVector2", |a: Vector2<F>, b: BiVector2<F>| a ^ b, highest);
    pairs += conforms("BiVector2 ^ Scalar2", |a: BiVector2<F>, b: Scalar2<F>| a ^ b, highest);
    pairs += conforms("BiVector2 ^ Vector2", |a: BiVector2<F>, b: Vector2<F>| a ^ b, highest);
    pairs += conforms("Pseudo2 ^ Scalar2", |a: Pseudo2<F>, b: Scalar2<F>| a ^ b, highest);
    assert!(pairs > 0);
}

#[test]
fn geometric_products_of_the_space_conform_to_the_algebra() {
    let mut pairs = 0;
    pairs += conforms("Scalar3 * Scalar3", |a: Scalar3<F>, b: Scalar3<F>| a * b, whole);
    pairs += conforms("Scalar3 * Vector3", |a: Scalar3<F>, b: Vector3<F>| a * b, whole);
    pairs += conforms("Scalar3 * XBiVector3", |a: Scalar3<F>, b: XBiVector3<F>| a * b, whole);
    pairs += conforms("Scalar3 * EBiVector3", |a: Scalar3<F>, b: EBiVector3<F>| a * b, whole);
    pairs += conforms("Scalar3 * BiVector3", |a: Scalar3<F>, b: BiVector3<F>| a * b, whole);
    pairs += conforms("Scalar3 * TriVector3", |a: Scalar3<F>, b: TriVector3<F>| a * b, whole);
    pairs += conforms("Scalar3 * Pseudo3", |a: Scalar3<F>, b: Pseudo3<F>| a * b, whole);
    pairs += conforms("Vector3 * Scalar3", |a: Vector3<F>, b: Scalar3<F>| a * b, whole);
    pairs += conforms("Vector3 * Vector3", |a: Vector3<F>, b: Vector3<F>| a * b, whole);
    pairs += conforms("Vector3 * XBiVector3", |a: Vector3<F>, b: XBiVector3<F>| a * b, whole);
    pairs += conforms("Vector3 * EBiVector3", |a: Vector3<F>, b: EBiVector3<F>| a * b, whole);
    pairs += conforms("Vector3 * BiVector3", |a: Vector3<F>, b: BiVector3<F>| a * b, whole);
    pairs += conforms("Vector3 * TriVector3", |a: Vector3<F>, b: TriVector3<F>| a * b, whole);
    pairs += conforms("Vector3 * Pseudo3", |a: Vector3<F>, b: Pseudo3<F>| a * b, whole);
    pairs += conforms("XBiVector3 * Scalar3", |a: XBiVector3<F>, b: Scalar3<F>| a * b, whole);
    pairs += conforms("XBiVector3 * Vector3", |a: XBiVector3<F>, b: Vector3<F>| a * b, whole);
    pairs += conforms("XBiVector3 * EBiVector3", |a: XBiVector3<F>, b: EBiVector3<F>| a * b, whole);
    pairs += conforms("XBiVector3 * BiVector3", |a: XBiVector3<F>, b: BiVector3<F>| a * b, whole);
    pairs += conforms("XBiVector3 * TriVector3", |a: XBiVector3<F>, b: TriVector3<F>| a * b, whole);
    pairs += conforms("EBiVector3 * Scalar3", |a: EBiVector3<F>, b: Scalar3<F>| a * b, whole);
    pairs += conforms("EBiVector3 * Vector3", |a: EBiVector3<F>, b: Vector3<F>| a * b, whole);
    pairs += conforms("EBiVector3 * XBiVector3", |a: EBiVector3<F>, b: XBiVector3<F>| a * b, whole);
    pairs += conforms("EBiVector3 * EBiVector3", |a: EBiVector3<F>, b: EBiVector3<F>| a * b, whole);
    pairs += conforms("EBiVector3 * BiVector3", |a: EBiVector3<F>, b: BiVector3<F>| a * b, whole);
    pairs += conforms("EBiVector3 * TriVector3", |a: EBiVector3<F>, b: TriVector3<F>| a * b, whole);
    pairs += conforms("EBiVector3 * Pseudo3", |a: EBiVector3<F>, b: Pseudo3<F>| a * b, whole);
    pairs += conforms("BiVector3 * Scalar3", |a: BiVector3<F>, b: Scalar3<F>| a * b, whole);
    pairs += conforms("BiVector3 * Vector3", |a: BiVector3<F>, b: Vector3<F>| a * b, whole);
    pairs += conforms("BiVector3 * XBiVector3", |a: BiVector3<F>, b: XBiVector3<F>| a * b, whole);
    pairs += conforms("BiVector3 * EBiVector3", |a: BiVector3<F>, b: EBiVector3<F>| a * b, whole);
    pairs += conforms("BiVector3 * BiVector3", |a: BiVector3<F>, b: BiVector3<F>| a * b, whole);
    pairs += conforms("BiVector3 * TriVector3", |a: BiVector3<F>, b: TriVector3<F>| a * b, whole);
    pairs += conforms("BiVector3 * Pseudo3", |a: BiVector3<F>, b: Pseudo3<F>| a * b, whole);
    pairs += conforms("TriVector3 * Scalar3", |a: TriVector3<F>, b: Scalar3<F>| a * b, whole);
    pairs += conforms("TriVector3 * Vector3", |a: TriVector3<F>, b: Vector3<F>| a * b, whole);
    pairs += conforms("TriVector3 * XBiVector3", |a: TriVector3<F>, b: XBiVector3<F>| a * b, whole);
    pairs += conforms("TriVector3 * EBiVector3", |a: TriVector3<F>, b: EBiVector3<F>| a * b, whole);
    pairs += conforms("TriVector3 * BiVector3", |a: TriVector3<F>, b: BiVector3<F>| a * b, whole);
    pairs += conforms("TriVector3 * TriVector3", |a: TriVector3<F>, b: TriVector3<F>| a * b, whole);
    pairs += conforms("TriVector3 * Pseudo3", |a: TriVector3<F>, b: Pseudo3<F>| a * b, whole);
    pairs += conforms("Pseudo3 * Scalar3", |a: Pseudo3<F>, b: Scalar3<F>| a * b, whole);
    pairs += conforms("Pseudo3 * Vector3", |a: Pseudo3<F>, b: Vector3<F>| a * b, whole);
    pairs += conforms("Pseudo3 * EBiVector3", |a: Pseudo3<F>, b: EBiVector3<F>| a * b, whole);
    pairs += conforms("Pseudo3 * BiVector3", |a: Pseudo3<F>, b: BiVector3<F>| a * b, whole);
    pairs += conforms("Pseudo3 * TriVector3", |a: Pseudo3<F>, b: TriVector3<F>| a * b, whole);
    assert!(pairs > 0);
}

#[test]
fn inner_products_of_the_space_conform_to_the_algebra() {
    let mut pairs = 0;
    pairs += conforms("Scalar3 | Scalar3", |a: Scalar3<F>, b: Scalar3<F>| a | b, lowest);
    pairs += conforms("Scalar3 | Vector3", |a: Scalar3<F>, b: Vector3<F>| a | b, lowest);
    pairs += conforms("Scalar3 | XBiVector3", |a: Scalar3<F>, b: XBiVector3<F>| a | b, lowest);
    pairs += conforms("Scalar3 | EBiVector3", |a: Scalar3<F>, b: EBiVector3<F>| a | b, lowest);
    pairs += conforms("Scalar3 | BiVector3", |a: Scalar3<F>, b: BiVector3<F>| a | b, lowest);
    pairs += conforms("Scalar3 | TriVector3", |a: Scalar3<F>, b: TriVector3<F>| a | b, lowest);
    pairs += conforms("Scalar3 | Pseudo3", |a: Scalar3<F>, b: Pseudo3<F>| a | b, lowest);
    pairs += conforms("Vector3 | Scalar3", |a: Vector3<F>, b: Scalar3<F>| a | b, lowest);
    pairs += conforms("Vector3 | Vector3", |a: Vector3<F>, b: Vector3<F>| a | b, lowest);
    pairs += conforms("Vector3 | XBiVector3", |a: Vector3<F>, b: XBiVector3<F>| a | b, lowest);
    pairs += conforms("Vector3 | EBiVector3", |a: Vector3<F>, b: EBiVector3<F>| a | b, lowest);
    pairs += conforms("Vector3 | BiVector3", |a: Vector3<F>, b: BiVector3<F>| a | b, lowest);
    pairs += conforms("Vector3 | TriVector3", |a: Vector3<F>, b: TriVector3<F>| a | b, lowest);
    pairs += conforms("Vector3 | Pseudo3", |a: Vector3<F>, b: Pseudo3<F>| a | b, lowest);
    pairs += conforms("XBiVector3 | Scalar3", |a: XBiVector3<F>, b: Scalar3<F>| a | b, lowest);
    pairs += conforms("XBiVector3 | Vector3", |a: XBiVector3<F>, b: Vector3<F>| a | b, lowest);
    pairs += conforms("EBiVector3 | Scalar3", |a: EBiVector3<F>, b: Scalar3<F>| a | b, lowest);
    pairs += conforms("EBiVector3 | Vector3", |a: EBiVector3<F>, b: Vector3<F>| a | b, lowest);
    pairs += conforms("EBiVector3 | EBiVector3", |a: EBiVector3<F>, b: EBiVector3<F>| a | b, lowest);
    pairs += conforms("EBiVector3 | BiVector3", |a: EBiVector3<F>, b: BiVector3<F>| a | b, lowest);
    pairs += conforms("EBiVector3 | TriVector3", |a: EBiVector3<F>, b: TriVector3<F>| a | b, lowest);
    pairs += conforms("EBiVector3 | Pseudo3", |a: EBiVector3<F>, b: Pseudo3<F>| a | b, lowest);
    pairs += conforms("BiVector3 | Scalar3", |a: BiVector3<F>, b: Scalar3<F>| a | b, lowest);
    pairs += conforms("BiVector3 | Vector3", |a: BiVector3<F>, b: Vector3<F>| a | b, lowest);
    pairs += conforms("BiVector3 | EBiVector3", |a: BiVector3<F>, b: EBiVector3<F>| a | b, lowest);
    pairs += conforms("BiVector3 | BiVector3", |a: BiVector3<F>, b: BiVector3<F>| a | b, lowest);
    pairs += conforms("BiVector3 | TriVector3", |a: BiVector3<F>, b: TriVector3<F>| a | b, lowest);
    pairs += conforms("BiVector3 | Pseudo3", |a: BiVector3<F>, b: Pseudo3<F>| a | b, lowest);
    pairs += conforms("TriVector3 | Scalar3", |a: TriVector3<F>, b: Scalar3<F>| a | b, lowest);
    pairs += conforms("TriVector3 | Vector3", |a: TriVector3<F>, b: Vector3<F>| a | b, lowest);
    pairs += conforms("TriVector3 | EBiVector3", |a: TriVector3<F>, b: EBiVector3<F>| a | b, lowest);
    pairs += conforms("TriVector3 | BiVector3", |a: TriVector3<F>, b: BiVector3<F>| a | b, lowest);
    pairs += conforms("TriVector3 | TriVector3", |a: TriVector3<F>, b: TriVector3<F>| a | b, lowest);
    pairs += conforms("TriVector3 | Pseudo3", |a: TriVector3<F>, b: Pseudo3<F>| a | b, lowest);
    pairs += conforms("Pseudo3 | Scalar3", |a: Pseudo3<F>, b: Scalar3<F>| a | b, lowest);
    pairs += conforms("Pseudo3 | Vector3", |a: Pseudo3<F>, b: Vector3<F>| a | b, lowest);
    pairs += conforms("Pseudo3 | EBiVector3", |a: Pseudo3<F>, b: EBiVector3<F>| a | b, lowest);
    pairs += conforms("Pseudo3 | BiVector3", |a: Pseudo3<F>, b: BiVector3<F>| a | b, lowest);
    pairs += conforms("Pseudo3 | TriVector3", |a: Pseudo3<F>, b: TriVector3<F>| a | b, lowest);
    assert!(pairs > 0);
}

#[test]
fn outer_products_of_the_space_conform_to_the_algebra() {
    let mut pairs = 0;
    pairs += conforms("Scalar3 ^ Scalar3", |a: Scalar3<F>, b: Scalar3<F>| a ^ b, highest);
    pairs += conforms("Scalar3 ^ Vector3", |a: Scalar3<F>, b: Vector3<F>| a ^ b, highest);
    pairs += conforms("Scalar3 ^ XBiVector3", |a: Scalar3<F>, b: XBiVector3<F>| a ^ b, highest);
    pairs += conforms("Scalar3 ^ EBiVector3", |a: Scalar3<F>, b: EBiVector3<F>| a ^ b, highest);
    pairs += conforms("Scalar3 ^ BiVector3", |a: Scalar3<F>, b: BiVector3<F>| a ^ b, highest);
    pairs += conforms("Scalar3 ^ TriVector3", |a: Scalar3<F>, b: TriVector3<F>| a ^ b, highest);
    pairs += conforms("Scalar3 ^ Pseudo3", |a: Scalar3<F>, b: Pseudo3<F>| a ^ b, highest);
    pairs += conforms("Vector3 ^ Scalar3", |a: Vector3<F>, b: Scalar3<F>| a ^ b, highest);
    pairs += conforms("Vector3 ^ Vector3", |a: Vector3<F>, b: Vector3<F>| a ^ b, highest);
    pairs += conforms("Vector3 ^ XBiVector3", |a: Vector3<F>, b: XBiVector3<F>| a ^ b, highest);
    pairs += conforms("Vector3 ^ EBiVector3", |a: Vector3<F>, b: EBiVector3<F>| a ^ b, highest);
    pairs += conforms("Vector3 ^ BiVector3", |a: Vector3<F>, b: BiVector3<F>| a ^ b, highest);
    pairs += conforms("Vector3 ^ TriVector3", |a: Vector3<F>, b: TriVector3<F>| a ^ b, highest);
    pairs += conforms("XBiVector3 ^ Scalar3", |a: XBiVector3<F>, b: Scalar3<F>| a ^ b, highest);
    pairs += conforms("XBiVector3 ^ Vector3", |a: XBiVector3<F>, b: Vector3<F>| a ^ b, highest);
    pairs += conforms("XBiVector3 ^ EBiVector3", |a: XBiVector3<F>, b: EBiVector3<F>| a ^ b, highest);
    pairs += conforms("XBiVector3 ^ BiVector3", |a: XBiVector3<F>, b: BiVector3<F>| a ^ b, highest);
    pairs += conforms("EBiVector3 ^ Scalar3", |a: EBiVector3<F>, b: Scalar3<F>| a ^ b, highest);
    pairs += conforms("EBiVector3 ^ Vector3", |a: EBiVector3<F>, b: Vector3<F>| a ^ b, highest);
    pairs += conforms("EBiVector3 ^ XBiVector3", |a: EBiVector3<F>, b: XBiVector3<F>| a ^ b, highest);
    pairs += conforms("EBiVector3 ^ BiVector3", |a: EBiVector3<F>, b: BiVector3<F>| a ^ b, highest);
    pairs += conforms("BiVector3 ^ Scalar3", |a: BiVector3<F>, b: Scalar3<F>| a ^ b, highest);
    pairs += conforms("BiVector3 ^ Vector3", |a: BiVector3<F>, b: Vector3<F>| a ^ b, highest);
    pairs += conforms("BiVector3 ^ XBiVector3", |a: BiVector3<F>, b: XBiVector3<F>| a ^ b, highest);
    pairs += conforms("BiVector3 ^ EBiVector3", |a: BiVector3<F>, b: EBiVector3<F>| a ^ b, highest);
    pairs += conforms("BiVector3 ^ BiVector3", |a: BiVector3<F>, b: BiVector3<F>| a ^ b, highest);
    pairs += conforms("TriVector3 ^ Scalar3", |a: TriVector3<F>, b: Scalar3<F>| a ^ b, highest);
    pairs += conforms("TriVector3 ^ Vector3", |a: TriVector3<F>, b: Vector3<F>| a ^ b, highest);
    pairs += conforms("Pseudo3 ^ Scalar3", |a: Pseudo3<F>, b: Scalar3<F>| a ^ b, highest);
    assert!(pairs > 0);
}

/// Returns whether the part of the product by definition vanishes on all samples.
fn vanishes<A: Embed, B: Embed>(want: fn(&Multi, u32, u32) -> Multi) -> bool {
    for a in A::samples() {
        for b in B::samples() {
            let full = geometric(&a.embed(), &b.embed());
            if want(&full, A::grade_of(), B::grade_of()) != [0.0; 16] {
                return false;
            }
        }
    }
    true
}

#[test]
fn pairs_without_a_product_are_those_whose_product_vanishes() {
    assert!(vanishes::<Pseudo2<F>, Pseudo2<F>>(whole), "Pseudo2 * Pseudo2");
    assert!(vanishes::<Pseudo2<F>, Pseudo2<F>>(lowest), "Pseudo2 | Pseudo2");
    assert!(vanishes::<Vector2<F>, Pseudo2<F>>(highest), "Vector2 ^ Pseudo2");
    assert!(vanishes::<BiVector2<F>, BiVector2<F>>(highest), "BiVector2 ^ BiVector2");
    assert!(vanishes::<BiVector2<F>, Pseudo2<F>>(highest), "BiVector2 ^ Pseudo2");
    assert!(vanishes::<Pseudo2<F>, Vector2<F>>(highest), "Pseudo2 ^ Vector2");
    assert!(vanishes::<Pseudo2<F>, BiVector2<F>>(highest), "Pseudo2 ^ BiVector2");
    assert!(vanishes::<Pseudo2<F>, Pseudo2<F>>(highest), "Pseudo2 ^ Pseudo2");
    assert!(vanishes::<XBiVector3<F>, XBiVector3<F>>(whole), "XBiVector3 * XBiVector3");
    assert!(vanishes::<XBiVector3<F>, Pseudo3<F>>(whole), "XBiVector3 * Pseudo3");
    assert!(vanishes::<Pseudo3<F>, XBiVector3<F>>(whole), "Pseudo3 * XBiVector3");
    assert!(vanishes::<Pseudo3<F>, Pseudo3<F>>(whole), "Pseudo3 * Pseudo3");
    assert!(vanishes::<XBiVector3<F>, XBiVector3<F>>(lowest), "XBiVector3 | XBiVector3");
    assert!(vanishes::<XBiVector3<F>, EBiVector3<F>>(lowest), "XBiVector3 | EBiVector3");
    assert!(vanishes::<XBiVector3<F>, BiVector3<F>>(lowest), "XBiVector3 | BiVector3");
    assert!(vanishes::<XBiVector3<F>, TriVector3<F>>(lowest), "XBiVector3 | TriVector3");
    assert!(vanishes::<XBiVector3<F>, Pseudo3<F>>(lowest), "XBiVector3 | Pseudo3");
    assert!(vanishes::<EBiVector3<F>, XBiVector3<F>>(lowest), "EBiVector3 | XBiVector3");
    assert!(vanishes::<BiVector3<F>, XBiVector3<F>>(lowest), "BiVector3 | XBiVector3");
    assert!(vanishes::<TriVector3<F>, XBiVector3<F>>(lowest), "TriVector3 | XBiVector3");
    assert!(vanishes::<Pseudo3<F>, XBiVector3<F>>(lowest), "Pseudo3 | XBiVector3");
    assert!(vanishes::<Pseudo3<F>, Pseudo3<F>>(lowest), "Pseudo3 | Pseudo3");
    assert!(vanishes::<Vector3<F>, Pseudo3<F>>(highest), "Vector3 ^ Pseudo3");
    assert!(vanishes::<XBiVector3<F>, XBiVector3<F>>(highest), "XBiVector3 ^ XBiVector3");
    assert!(vanishes::<XBiVector3<F>, TriVector3<F>>(highest), "XBiVector3 ^ TriVector3");
    assert!(vanishes::<XBiVector3<F>, Pseudo3<F>>(highest), "XBiVector3 ^ Pseudo3");
    assert!(vanishes::<EBiVector3<F>, EBiVector3<F>>(highest), "EBiVector3 ^ EBiVector3");
    assert!(vanishes::<EBiVector3<F>, TriVector3<F>>(highest), "EBiVector3 ^ TriVector3");
    assert!(vanishes::<EBiVector3<F>, Pseudo3<F>>(highest), "EBiVector3 ^ Pseudo3");
    assert!(vanishes::<BiVector3<F>, TriVector3<F>>(highest), "BiVector3 ^ TriVector3");
    assert!(vanishes::<BiVector3<F>, Pseudo3<F>>(highest), "BiVector3 ^ Pseudo3");
    assert!(vanishes::<TriVector3<F>, XBiVector3<F>>(highest), "TriVector3 ^ XBiVector3");
    assert!(vanishes::<TriVector3<F>, EBiVector3<F>>(highest), "TriVector3 ^ EBiVector3");
    assert!(vanishes::<TriVector3<F>, BiVector3<F>>(highest), "TriVector3 ^ BiVector3");
    assert!(vanishes::<TriVector3<F>, TriVector3<F>>(highest), "TriVector3 ^ TriVector3");
    assert!(vanishes::<TriVector3<F>, Pseudo3<F>>(highest), "TriVector3 ^ Pseudo3");
    assert!(vanishes::<Pseudo3<F>, Vector3<F>>(highest), "Pseudo3 ^ Vector3");
    assert!(vanishes::<Pseudo3<F>, XBiVector3<F>>(highest), "Pseudo3 ^ XBiVector3");
    assert!(vanishes::<Pseudo3<F>, EBiVector3<F>>(highest), "Pseudo3 ^ EBiVector3");
    assert!(vanishes::<Pseudo3<F>, BiVector3<F>>(highest), "Pseudo3 ^ BiVector3");
    assert!(vanishes::<Pseudo3<F>, TriVector3<F>>(highest), "Pseudo3 ^ TriVector3");
    assert!(vanishes::<Pseudo3<F>, Pseudo3<F>>(highest), "Pseudo3 ^ Pseudo3");
}
