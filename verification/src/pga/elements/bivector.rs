//! Bivectors: the elements of grade 2, points of the plane and lines of space.

use core::ops::{Add, BitOr, BitXor, Div, DivAssign, Mul, MulAssign, Neg, Not, Sub};
use vstd::prelude::*;
use vstd::std_specs::cmp::PartialEqSpec;
use vstd::std_specs::ops::{AddSpec, BitOrSpec, BitXorSpec, DivSpec, MulSpec, NegSpec, NotSpec, SubSpec};

use crate::pga::elements::{Dual, Pseudo2, Pseudo3, Scalar2, Scalar3, TriVector3, Vector2, Vector3};
use crate::scalar::Num;

verus! {

/// A bivector of the plane's algebra: the element of grade 2.
///
/// It stands for a point. A bivector of weight zero is a point at infinity:
/// a direction.
#[derive(Clone, Copy, Debug, PartialEq)]
pub struct BiVector2<T> {
    /// The `y` coordinate, times the weight.
    pub e01: T,
    /// The `x` coordinate, times the weight.
    pub e20: T,
    /// The weight.
    pub e12: T,
}

impl<T> BiVector2<T> {
    /// Creates a bivector from its coefficients.
    pub fn new(e01: T, e20: T, e12: T) -> (r: Self)
        ensures
            r == (BiVector2 { e01, e20, e12 }),
    {
        BiVector2 { e01, e20, e12 }
    }
}

impl<T: Num> BiVector2<T> {
    /// The bivector whose coefficients are all zero.
    pub fn zero() -> (r: Self)
        ensures
            r == (BiVector2 { e01: T::ZERO, e20: T::ZERO, e12: T::ZERO }),
    {
        BiVector2 { e01: T::ZERO, e20: T::ZERO, e12: T::ZERO }
    }
}

impl<T: Num> Neg for BiVector2<T> {
    type Output = BiVector2<T>;

    /// Returns the negation, `self.neg_spec()`.
    fn neg(self) -> (r: BiVector2<T>) {
        proof {
            T::operators_are_total();
        }
        BiVector2 {
            e01: self.e01.neg(),
            e20: self.e20.neg(),
            e12: self.e12.neg(),
        }
    }
}

impl<T: Num> vstd::std_specs::ops::NegSpecImpl for BiVector2<T> {
    open spec fn obeys_neg_spec() -> bool {
        true
    }

    open spec fn neg_req(self) -> bool {
        true
    }

    /// Negates every coefficient.
    open spec fn neg_spec(self) -> BiVector2<T> {
        BiVector2 {
            e01: self.e01.neg_spec(),
            e20: self.e20.neg_spec(),
            e12: self.e12.neg_spec(),
        }
    }
}

impl<T: Num> Dual for BiVector2<T> {
    type Output = Vector2<T>;

    /// The dual of a bivector is the vector that carries the same coefficients
    /// on the complementary basis elements.
    open spec fn dual_spec(self) -> Vector2<T> {
        Vector2 {
            e0: self.e12,
            e1: self.e20,
            e2: self.e01,
        }
    }

    /// Returns the dual, `self.dual_spec()`.
    fn dual(self) -> (r: Vector2<T>) {
        Vector2 {
            e0: self.e12,
            e1: self.e20,
            e2: self.e01,
        }
    }
}

impl<T: Num> Not for BiVector2<T> {
    type Output = BiVector2<T>;

    /// Returns the reverse, `self.not_spec()`.
    fn not(self) -> (r: BiVector2<T>) {
        self.neg()
    }
}

impl<T: Num> vstd::std_specs::ops::NotSpecImpl for BiVector2<T> {
    open spec fn obeys_not_spec() -> bool {
        true
    }

    open spec fn not_req(self) -> bool {
        true
    }

    /// The reverse of a bivector is its negation.
    open spec fn not_spec(self) -> BiVector2<T> {
        self.neg_spec()
    }
}

impl<T: Num> Mul<T> for BiVector2<T> {
    type Output = BiVector2<T>;

    /// Returns the product, `self.mul_spec(other)`.
    fn mul(self, other: T) -> (r: BiVector2<T>) {
        proof {
            T::operators_are_total();
        }
        BiVector2 {
            e01: self.e01 * other,
            e20: self.e20 * other,
            e12: self.e12 * other,
        }
    }
}

impl<T: Num> vstd::std_specs::ops::MulSpecImpl<T> for BiVector2<T> {
    open spec fn obeys_mul_spec() -> bool {
        true
    }

    open spec fn mul_req(self, other: T) -> bool {
        true
    }

    /// Scales every coefficient by `other`.
    open spec fn mul_spec(self, other: T) -> BiVector2<T> {
        BiVector2 {
            e01: self.e01.mul_spec(other),
            e20: self.e20.mul_spec(other),
            e12: self.e12.mul_spec(other),
        }
    }
}

impl<T: Num> MulAssign<T> for BiVector2<T> {
    /// Scales every coefficient by `other`, in place.
    fn mul_assign(&mut self, other: T)
        ensures
            *final(self) == old(self).mul_spec(other),
    {
        proof {
            T::operators_are_total();
        }
        self.e01 = self.e01 * other;
        self.e20 = self.e20 * other;
        self.e12 = self.e12 * other;
    }
}

impl<T: Num> Div<T> for BiVector2<T> {
    type Output = BiVector2<T>;

    /// Returns the quotient, `self.div_spec(other)`.
    fn div(self, other: T) -> (r: BiVector2<T>) {
        proof {
            T::operators_are_total();
        }
        BiVector2 {
            e01: self.e01 / other,
            e20: self.e20 / other,
            e12: self.e12 / other,
        }
    }
}

impl<T: Num> vstd::std_specs::ops::DivSpecImpl<T> for BiVector2<T> {
    open spec fn obeys_div_spec() -> bool {
        true
    }

    open spec fn div_req(self, other: T) -> bool {
        true
    }

    /// Divides every coefficient by `other`.
    open spec fn div_spec(self, other: T) -> BiVector2<T> {
        BiVector2 {
            e01: self.e01.div_spec(other),
            e20: self.e20.div_spec(other),
            e12: self.e12.div_spec(other),
        }
    }
}

impl<T: Num> BiVector2<T> {
    /// The squared norm: the square of the weight `e12`.
    pub open spec fn norm2_spec(self) -> T {
        self.e12.mul_spec(self.e12)
    }

    /// The norm: the absolute value of the weight `e12`.
    pub open spec fn norm_spec(self) -> T {
        self.e12.abs_spec()
    }

    /// The bivector divided by its norm. One whose norm compares equal to zero
    /// is left as it is.
    pub open spec fn normalized_spec(self) -> Self {
        if self.norm_spec().eq_spec(&T::ZERO) {
            self
        } else {
            self.div_spec(self.norm_spec())
        }
    }

    /// Returns the squared norm of the bivector.
    pub fn norm2(&self) -> (r: T)
        ensures
            r == self.norm2_spec(),
    {
        proof {
            T::operators_are_total();
        }
        self.e12 * self.e12
    }

    /// Returns the norm of the bivector.
    pub fn norm(&self) -> (r: T)
        ensures
            r == self.norm_spec(),
    {
        self.e12.abs()
    }

    /// Divides the bivector by its norm, unless the norm vanishes.
    pub fn normalize(&mut self)
        ensures
            *final(self) == old(self).normalized_spec(),
    {
        proof {
            T::operators_are_total();
        }
        let norm = self.norm();
        if norm != T::ZERO {
            self.e01 = self.e01 / norm;
            self.e20 = self.e20 / norm;
            self.e12 = self.e12 / norm;
        }
    }

    /// Returns the bivector divided by its norm, or the bivector itself where
    /// the norm vanishes.
    pub fn normalized(&self) -> (r: Self)
        ensures
            r == self.normalized_spec(),
    {
        let mut r = *self;
        r.normalize();
        r
    }

    /// The squared norm of the ideal part: the sum of the squares of
    /// `e01` and `e20`.
    pub open spec fn ideal_norm2_spec(self) -> T {
        self.e01.mul_spec(self.e01).add_spec(self.e20.mul_spec(self.e20))
    }

    /// The norm of the ideal part. Of a bivector of weight zero, which
    /// stands for a translation, it is the length.
    pub open spec fn ideal_norm_spec(self) -> T {
        self.ideal_norm2_spec().sqrt_spec()
    }

    /// Returns the squared norm of the ideal part of the bivector.
    pub fn ideal_norm2(&self) -> (r: T)
        ensures
            r == self.ideal_norm2_spec(),
    {
        proof {
            T::operators_are_total();
        }
        self.e01 * self.e01 + self.e20 * self.e20
    }

    /// Returns the norm of the ideal part of the bivector.
    pub fn ideal_norm(&self) -> (r: T)
        ensures
            r == self.ideal_norm_spec(),
    {
        self.ideal_norm2().sqrt()
    }
}

impl<T: Num> DivAssign<T> for BiVector2<T> {
    /// Divides every coefficient by `other`, in place.
    fn div_assign(&mut self, other: T)
        ensures
            *final(self) == old(self).div_spec(other),
    {
        proof {
            T::operators_are_total();
        }
        self.e01 = self.e01 / other;
        self.e20 = self.e20 / other;
        self.e12 = self.e12 / other;
    }
}

impl<T: Num> Add<BiVector2<T>> for BiVector2<T> {
    type Output = BiVector2<T>;

    /// Returns the sum, `self.add_spec(other)`.
    fn add(self, other: BiVector2<T>) -> (r: BiVector2<T>) {
        proof {
            T::operators_are_total();
        }
        BiVector2 {
            e01: self.e01 + other.e01,
            e20: self.e20 + other.e20,
            e12: self.e12 + other.e12,
        }
    }
}

impl<T: Num> vstd::std_specs::ops::AddSpecImpl<BiVector2<T>> for BiVector2<T> {
    open spec fn obeys_add_spec() -> bool {
        true
    }

    open spec fn add_req(self, other: BiVector2<T>) -> bool {
        true
    }

    /// Adds coefficient by coefficient.
    open spec fn add_spec(self, other: BiVector2<T>) -> BiVector2<T> {
        BiVector2 {
            e01: self.e01.add_spec(other.e01),
            e20: self.e20.add_spec(other.e20),
            e12: self.e12.add_spec(other.e12),
        }
    }
}

impl<T: Num> Sub<BiVector2<T>> for BiVector2<T> {
    type Output = BiVector2<T>;

    /// Returns the difference, `self.sub_spec(other)`.
    fn sub(self, other: BiVector2<T>) -> (r: BiVector2<T>) {
        proof {
            T::operators_are_total();
        }
        BiVector2 {
            e01: self.e01 - other.e01,
            e20: self.e20 - other.e20,
            e12: self.e12 - other.e12,
        }
    }
}

impl<T: Num> vstd::std_specs::ops::SubSpecImpl<BiVector2<T>> for BiVector2<T> {
    open spec fn obeys_sub_spec() -> bool {
        true
    }

    open spec fn sub_req(self, other: BiVector2<T>) -> bool {
        true
    }

    /// Subtracts coefficient by coefficient.
    open spec fn sub_spec(self, other: BiVector2<T>) -> BiVector2<T> {
        BiVector2 {
            e01: self.e01.sub_spec(other.e01),
            e20: self.e20.sub_spec(other.e20),
            e12: self.e12.sub_spec(other.e12),
        }
    }
}

impl<T: Num> BitOr<Vector2<T>> for BiVector2<T> {
    type Output = Vector2<T>;

    /// Returns the inner product, `self.bitor_spec(other)`.
    fn bitor(self, other: Vector2<T>) -> (r: Vector2<T>) {
        proof {
            T::operators_are_total();
        }
        Vector2 {
            e0: self.e01 * other.e1 - self.e20 * other.e2,
            e1: self.e12 * other.e2,
            e2: (self.e12 * other.e1).neg(),
        }
    }
}

impl<T: Num> vstd::std_specs::ops::BitOrSpecImpl<Vector2<T>> for BiVector2<T> {
    open spec fn obeys_bitor_spec() -> bool {
        true
    }

    open spec fn bitor_req(self, other: Vector2<T>) -> bool {
        true
    }

    /// The inner product of a bivector and a vector, a vector.
    open spec fn bitor_spec(self, other: Vector2<T>) -> Vector2<T> {
        Vector2 {
            e0: self.e01.mul_spec(other.e1).sub_spec(self.e20.mul_spec(other.e2)),
            e1: self.e12.mul_spec(other.e2),
            e2: self.e12.mul_spec(other.e1).neg_spec(),
        }
    }
}

impl<T: Num> BitOr<BiVector2<T>> for BiVector2<T> {
    type Output = Scalar2<T>;

    /// Returns the inner product, `self.bitor_spec(other)`.
    fn bitor(self, other: BiVector2<T>) -> (r: Scalar2<T>) {
        proof {
            T::operators_are_total();
        }
        Scalar2((self.e12 * other.e12).neg())
    }
}

impl<T: Num> vstd::std_specs::ops::BitOrSpecImpl<BiVector2<T>> for BiVector2<T> {
    open spec fn obeys_bitor_spec() -> bool {
        true
    }

    open spec fn bitor_req(self, other: BiVector2<T>) -> bool {
        true
    }

    /// The inner product of a bivector and a bivector, a scalar.
    open spec fn bitor_spec(self, other: BiVector2<T>) -> Scalar2<T> {
        Scalar2(self.e12.mul_spec(other.e12).neg_spec())
    }
}

impl<T: Num> BitOr<Pseudo2<T>> for BiVector2<T> {
    type Output = Vector2<T>;

    /// Returns the inner product, `self.bitor_spec(other)`.
    fn bitor(self, other: Pseudo2<T>) -> (r: Vector2<T>) {
        proof {
            T::operators_are_total();
        }
        Vector2 {
            e0: (self.e12 * other.e012).neg(),
            e1: T::ZERO,
            e2: T::ZERO,
        }
    }
}

impl<T: Num> vstd::std_specs::ops::BitOrSpecImpl<Pseudo2<T>> for BiVector2<T> {
    open spec fn obeys_bitor_spec() -> bool {
        true
    }

    open spec fn bitor_req(self, other: Pseudo2<T>) -> bool {
        true
    }

    /// The inner product of a bivector and a pseudoscalar, a vector.
    open spec fn bitor_spec(self, other: Pseudo2<T>) -> Vector2<T> {
        Vector2 {
            e0: self.e12.mul_spec(other.e012).neg_spec(),
            e1: T::ZERO,
            e2: T::ZERO,
        }
    }
}

impl<T: Num> BitXor<Vector2<T>> for BiVector2<T> {
    type Output = Pseudo2<T>;

    /// Returns the outer product, `self.bitxor_spec(other)`.
    fn bitxor(self, other: Vector2<T>) -> (r: Pseudo2<T>) {
        proof {
            T::operators_are_total();
        }
        Pseudo2 {
            e012: self.e01 * other.e2 + self.e20 * other.e1 + self.e12 * other.e0,
        }
    }
}

impl<T: Num> vstd::std_specs::ops::BitXorSpecImpl<Vector2<T>> for BiVector2<T> {
    open spec fn obeys_bitxor_spec() -> bool {
        true
    }

    open spec fn bitxor_req(self, other: Vector2<T>) -> bool {
        true
    }

    /// The outer product of a bivector and a vector, a pseudoscalar.
    open spec fn bitxor_spec(self, other: Vector2<T>) -> Pseudo2<T> {
        Pseudo2 {
            e012: self.e01.mul_spec(other.e2)
                .add_spec(self.e20.mul_spec(other.e1))
                .add_spec(self.e12.mul_spec(other.e0)),
        }
    }
}

impl<T: Num> Mul<Scalar2<T>> for BiVector2<T> {
    type Output = BiVector2<T>;

    /// Returns the product, `self.mul_spec(other)`.
    fn mul(self, other: Scalar2<T>) -> (r: BiVector2<T>) {
        proof {
            T::operators_are_total();
        }
        BiVector2 {
            e01: self.e01 * other.0,
            e20: self.e20 * other.0,
            e12: self.e12 * other.0,
        }
    }
}

impl<T: Num> vstd::std_specs::ops::MulSpecImpl<Scalar2<T>> for BiVector2<T> {
    open spec fn obeys_mul_spec() -> bool {
        true
    }

    open spec fn mul_req(self, other: Scalar2<T>) -> bool {
        true
    }

    /// The geometric product of a bivector and a scalar, a bivector.
    open spec fn mul_spec(self, other: Scalar2<T>) -> BiVector2<T> {
        BiVector2 {
            e01: self.e01.mul_spec(other.0),
            e20: self.e20.mul_spec(other.0),
            e12: self.e12.mul_spec(other.0),
        }
    }
}

impl<T: Num> BitOr<Scalar2<T>> for BiVector2<T> {
    type Output = BiVector2<T>;

    /// Returns the inner product, `self.bitor_spec(other)`.
    fn bitor(self, other: Scalar2<T>) -> (r: BiVector2<T>) {
        self * other
    }
}

impl<T: Num> vstd::std_specs::ops::BitOrSpecImpl<Scalar2<T>> for BiVector2<T> {
    open spec fn obeys_bitor_spec() -> bool {
        true
    }

    open spec fn bitor_req(self, other: Scalar2<T>) -> bool {
        true
    }

    /// The inner product of a bivector and a scalar, a bivector.
    open spec fn bitor_spec(self, other: Scalar2<T>) -> BiVector2<T> {
        self.mul_spec(other)
    }
}

impl<T: Num> BitXor<Scalar2<T>> for BiVector2<T> {
    type Output = BiVector2<T>;

    /// Returns the outer product, `self.bitxor_spec(other)`.
    fn bitxor(self, other: Scalar2<T>) -> (r: BiVector2<T>) {
        self * other
    }
}

impl<T: Num> vstd::std_specs::ops::BitXorSpecImpl<Scalar2<T>> for BiVector2<T> {
    open spec fn obeys_bitxor_spec() -> bool {
        true
    }

    open spec fn bitxor_req(self, other: Scalar2<T>) -> bool {
        true
    }

    /// The outer product of a bivector and a scalar, a bivector.
    open spec fn bitxor_spec(self, other: Scalar2<T>) -> BiVector2<T> {
        self.mul_spec(other)
    }
}

impl<T: Num> MulAssign<Scalar2<T>> for BiVector2<T> {
    /// Scales every coefficient by a scalar, in place.
    fn mul_assign(&mut self, other: Scalar2<T>)
        ensures
            *final(self) == old(self).mul_spec(other),
    {
        proof {
            T::operators_are_total();
        }
        self.e01 = self.e01 * other.0;
        self.e20 = self.e20 * other.0;
        self.e12 = self.e12 * other.0;
    }
}

impl<T: Num> Mul<Vector2<T>> for BiVector2<T> {
    type Output = (Vector2<T>, Pseudo2<T>);

    /// Returns the geometric product, `self.mul_spec(other)`.
    fn mul(self, other: Vector2<T>) -> (r: (Vector2<T>, Pseudo2<T>)) {
        (self | other, self ^ other)
    }
}

impl<T: Num> vstd::std_specs::ops::MulSpecImpl<Vector2<T>> for BiVector2<T> {
    open spec fn obeys_mul_spec() -> bool {
        true
    }

    open spec fn mul_req(self, other: Vector2<T>) -> bool {
        true
    }

    /// The geometric product of a bivector and a vector: its vector and pseudoscalar parts.
    open spec fn mul_spec(self, other: Vector2<T>) -> (Vector2<T>, Pseudo2<T>) {
        (self.bitor_spec(other), self.bitxor_spec(other))
    }
}

impl<T: Num> Mul<BiVector2<T>> for BiVector2<T> {
    type Output = (Scalar2<T>, BiVector2<T>);

    /// Returns the geometric product, `self.mul_spec(other)`.
    fn mul(self, other: BiVector2<T>) -> (r: (Scalar2<T>, BiVector2<T>)) {
        proof {
            T::operators_are_total();
        }
        (
            self | other,
            BiVector2 {
                e01: self.e20 * other.e12 - self.e12 * other.e20,
                e20: self.e12 * other.e01 - self.e01 * other.e12,
                e12: T::ZERO,
            },
        )
    }
}

impl<T: Num> vstd::std_specs::ops::MulSpecImpl<BiVector2<T>> for BiVector2<T> {
    open spec fn obeys_mul_spec() -> bool {
        true
    }

    open spec fn mul_req(self, other: BiVector2<T>) -> bool {
        true
    }

    /// The geometric product of a bivector and a bivector: its scalar and bivector parts.
    open spec fn mul_spec(self, other: BiVector2<T>) -> (Scalar2<T>, BiVector2<T>) {
        (
            self.bitor_spec(other),
            BiVector2 {
                e01: self.e20.mul_spec(other.e12).sub_spec(self.e12.mul_spec(other.e20)),
                e20: self.e12.mul_spec(other.e01).sub_spec(self.e01.mul_spec(other.e12)),
                e12: T::ZERO,
            },
        )
    }
}

impl<T: Num> Mul<Pseudo2<T>> for BiVector2<T> {
    type Output = Vector2<T>;

    /// Returns the geometric product, `self.mul_spec(other)`.
    fn mul(self, other: Pseudo2<T>) -> (r: Vector2<T>) {
        self | other
    }
}

impl<T: Num> vstd::std_specs::ops::MulSpecImpl<Pseudo2<T>> for BiVector2<T> {
    open spec fn obeys_mul_spec() -> bool {
        true
    }

    open spec fn mul_req(self, other: Pseudo2<T>) -> bool {
        true
    }

    /// The geometric product of a bivector and a pseudoscalar, a vector.
    open spec fn mul_spec(self, other: Pseudo2<T>) -> Vector2<T> {
        self.bitor_spec(other)
    }
}

impl<T: Num> Div<Scalar2<T>> for BiVector2<T> {
    type Output = BiVector2<T>;

    /// Returns the quotient, `self.div_spec(other)`.
    fn div(self, other: Scalar2<T>) -> (r: BiVector2<T>) {
        proof {
            T::operators_are_total();
        }
        BiVector2 {
            e01: self.e01 / other.0,
            e20: self.e20 / other.0,
            e12: self.e12 / other.0,
        }
    }
}

impl<T: Num> vstd::std_specs::ops::DivSpecImpl<Scalar2<T>> for BiVector2<T> {
    open spec fn obeys_div_spec() -> bool {
        true
    }

    open spec fn div_req(self, other: Scalar2<T>) -> bool {
        true
    }

    /// Divides every coefficient by a scalar.
    open spec fn div_spec(self, other: Scalar2<T>) -> BiVector2<T> {
        BiVector2 {
            e01: self.e01.div_spec(other.0),
            e20: self.e20.div_spec(other.0),
            e12: self.e12.div_spec(other.0),
        }
    }
}

impl<T: Num> DivAssign<Scalar2<T>> for BiVector2<T> {
    /// Divides every coefficient by a scalar, in place.
    fn div_assign(&mut self, other: Scalar2<T>)
        ensures
            *final(self) == old(self).div_spec(other),
    {
        proof {
            T::operators_are_total();
        }
        self.e01 = self.e01 / other.0;
        self.e20 = self.e20 / other.0;
        self.e12 = self.e12 / other.0;
    }
}

/// The ideal part of a bivector of the space's algebra.
///
/// It holds the coefficients of the basis bivectors that contain `e0`: a
/// translation, or a line at infinity.
#[derive(Clone, Copy, Debug, PartialEq)]
pub struct XBiVector3<T> {
    /// The coefficient of `e01`.
    pub e01: T,
    /// The coefficient of `e02`.
    pub e02: T,
    /// The coefficient of `e03`.
    pub e03: T,
}

impl<T> XBiVector3<T> {
    /// Creates an ideal bivector from its coefficients.
    pub fn new(e01: T, e02: T, e03: T) -> (r: Self)
        ensures
            r == (XBiVector3 { e01, e02, e03 }),
    {
        XBiVector3 { e01, e02, e03 }
    }
}

impl<T: Num> XBiVector3<T> {
    /// The ideal bivector whose coefficients are all zero.
    pub fn zero() -> (r: Self)
        ensures
            r == (XBiVector3 { e01: T::ZERO, e02: T::ZERO, e03: T::ZERO }),
    {
        XBiVector3 { e01: T::ZERO, e02: T::ZERO, e03: T::ZERO }
    }
}

impl<T: Num> Neg for XBiVector3<T> {
    type Output = XBiVector3<T>;

    /// Returns the negation, `self.neg_spec()`.
    fn neg(self) -> (r: XBiVector3<T>) {
        proof {
            T::operators_are_total();
        }
        XBiVector3 {
            e01: self.e01.neg(),
            e02: self.e02.neg(),
            e03: self.e03.neg(),
        }
    }
}

impl<T: Num> vstd::std_specs::ops::NegSpecImpl for XBiVector3<T> {
    open spec fn obeys_neg_spec() -> bool {
        true
    }

    open spec fn neg_req(self) -> bool {
        true
    }

    /// Negates every coefficient.
    open spec fn neg_spec(self) -> XBiVector3<T> {
        XBiVector3 {
            e01: self.e01.neg_spec(),
            e02: self.e02.neg_spec(),
            e03: self.e03.neg_spec(),
        }
    }
}

impl<T: Num> Not for XBiVector3<T> {
    type Output = XBiVector3<T>;

    /// Returns the reverse, `self.not_spec()`.
    fn not(self) -> (r: XBiVector3<T>) {
        self.neg()
    }
}

impl<T: Num> vstd::std_specs::ops::NotSpecImpl for XBiVector3<T> {
    open spec fn obeys_not_spec() -> bool {
        true
    }

    open spec fn not_req(self) -> bool {
        true
    }

    /// The reverse of an ideal bivector is its negation.
    open spec fn not_spec(self) -> XBiVector3<T> {
        self.neg_spec()
    }
}

impl<T: Num> Dual for XBiVector3<T> {
    type Output = EBiVector3<T>;

    /// The dual of an ideal bivector is the Euclidean bivector that carries the same coefficients
    /// on the complementary basis elements.
    open spec fn dual_spec(self) -> EBiVector3<T> {
        EBiVector3 {
            e12: self.e03,
            e31: self.e02,
            e23: self.e01,
        }
    }

    /// Returns the dual, `self.dual_spec()`.
    fn dual(self) -> (r: EBiVector3<T>) {
        EBiVector3 {
            e12: self.e03,
            e31: self.e02,
            e23: self.e01,
        }
    }
}

impl<T: Num> Mul<T> for XBiVector3<T> {
    type Output = XBiVector3<T>;

    /// Returns the product, `self.mul_spec(other)`.
    fn mul(self, other: T) -> (r: XBiVector3<T>) {
        proof {
            T::operators_are_total();
        }
        XBiVector3 {
            e01: self.e01 * other,
            e02: self.e02 * other,
            e03: self.e03 * other,
        }
    }
}

impl<T: Num> vstd::std_specs::ops::MulSpecImpl<T> for XBiVector3<T> {
    open spec fn obeys_mul_spec() -> bool {
        true
    }

    open spec fn mul_req(self, other: T) -> bool {
        true
    }

    /// Scales every coefficient by `other`.
    open spec fn mul_spec(self, other: T) -> XBiVector3<T> {
        XBiVector3 {
            e01: self.e01.mul_spec(other),
            e02: self.e02.mul_spec(other),
            e03: self.e03.mul_spec(other),
        }
    }
}

impl<T: Num> MulAssign<T> for XBiVector3<T> {
    /// Scales every coefficient by `other`, in place.
    fn mul_assign(&mut self, other: T)
        ensures
            *final(self) == old(self).mul_spec(other),
    {
        proof {
            T::operators_are_total();
        }
        self.e01 = self.e01 * other;
        self.e02 = self.e02 * other;
        self.e03 = self.e03 * other;
    }
}

impl<T: Num> Div<T> for XBiVector3<T> {
    type Output = XBiVector3<T>;

    /// Returns the quotient, `self.div_spec(other)`.
    fn div(self, other: T) -> (r: XBiVector3<T>) {
        proof {
            T::operators_are_total();
        }
        XBiVector3 {
            e01: self.e01 / other,
            e02: self.e02 / other,
            e03: self.e03 / other,
        }
    }
}

impl<T: Num> vstd::std_specs::ops::DivSpecImpl<T> for XBiVector3<T> {
    open spec fn obeys_div_spec() -> bool {
        true
    }

    open spec fn div_req(self, other: T) -> bool {
        true
    }

    /// Divides every coefficient by `other`.
    open spec fn div_spec(self, other: T) -> XBiVector3<T> {
        XBiVector3 {
            e01: self.e01.div_spec(other),
            e02: self.e02.div_spec(other),
            e03: self.e03.div_spec(other),
        }
    }
}

impl<T: Num> DivAssign<T> for XBiVector3<T> {
    /// Divides every coefficient by `other`, in place.
    fn div_assign(&mut self, other: T)
        ensures
            *final(self) == old(self).div_spec(other),
    {
        proof {
            T::operators_are_total();
        }
        self.e01 = self.e01 / other;
        self.e02 = self.e02 / other;
        self.e03 = self.e03 / other;
    }
}

impl<T: Num> Add<XBiVector3<T>> for XBiVector3<T> {
    type Output = XBiVector3<T>;

    /// Returns the sum, `self.add_spec(other)`.
    fn add(self, other: XBiVector3<T>) -> (r: XBiVector3<T>) {
        proof {
            T::operators_are_total();
        }
        XBiVector3 {
            e01: self.e01 + other.e01,
            e02: self.e02 + other.e02,
            e03: self.e03 + other.e03,
        }
    }
}

impl<T: Num> vstd::std_specs::ops::AddSpecImpl<XBiVector3<T>> for XBiVector3<T> {
    open spec fn obeys_add_spec() -> bool {
        true
    }

    open spec fn add_req(self, other: XBiVector3<T>) -> bool {
        true
    }

    /// Adds coefficient by coefficient.
    open spec fn add_spec(self, other: XBiVector3<T>) -> XBiVector3<T> {
        XBiVector3 {
            e01: self.e01.add_spec(other.e01),
            e02: self.e02.add_spec(other.e02),
            e03: self.e03.add_spec(other.e03),
        }
    }
}

impl<T: Num> Add<EBiVector3<T>> for XBiVector3<T> {
    type Output = BiVector3<T>;

    /// Returns the sum, `self.add_spec(other)`.
    fn add(self, other: EBiVector3<T>) -> (r: BiVector3<T>) {
        BiVector3 {
            e01: self.e01,
            e02: self.e02,
            e03: self.e03,
            e12: other.e12,
            e31: other.e31,
            e23: other.e23,
        }
    }
}

impl<T: Num> vstd::std_specs::ops::AddSpecImpl<EBiVector3<T>> for XBiVector3<T> {
    open spec fn obeys_add_spec() -> bool {
        true
    }

    open spec fn add_req(self, other: EBiVector3<T>) -> bool {
        true
    }

    /// Adds an Euclidean bivector to an ideal bivector: the parts they share are added,
    /// the others are carried over.
    open spec fn add_spec(self, other: EBiVector3<T>) -> BiVector3<T> {
        BiVector3 {
            e01: self.e01,
            e02: self.e02,
            e03: self.e03,
            e12: other.e12,
            e31: other.e31,
            e23: other.e23,
        }
    }
}

impl<T: Num> Add<BiVector3<T>> for XBiVector3<T> {
    type Output = BiVector3<T>;

    /// Returns the sum, `self.add_spec(other)`.
    fn add(self, other: BiVector3<T>) -> (r: BiVector3<T>) {
        proof {
            T::operators_are_total();
        }
        BiVector3 {
            e01: self.e01 + other.e01,
            e02: self.e02 + other.e02,
            e03: self.e03 + other.e03,
            e12: other.e12,
            e31: other.e31,
            e23: other.e23,
        }
    }
}

impl<T: Num> vstd::std_specs::ops::AddSpecImpl<BiVector3<T>> for XBiVector3<T> {
    open spec fn obeys_add_spec() -> bool {
        true
    }

    open spec fn add_req(self, other: BiVector3<T>) -> bool {
        true
    }

    /// Adds a bivector to an ideal bivector: the parts they share are added,
    /// the others are carried over.
    open spec fn add_spec(self, other: BiVector3<T>) -> BiVector3<T> {
        BiVector3 {
            e01: self.e01.add_spec(other.e01),
            e02: self.e02.add_spec(other.e02),
            e03: self.e03.add_spec(other.e03),
            e12: other.e12,
            e31: other.e31,
            e23: other.e23,
        }
    }
}

impl<T: Num> Sub<XBiVector3<T>> for XBiVector3<T> {
    type Output = XBiVector3<T>;

    /// Returns the difference, `self.sub_spec(other)`.
    fn sub(self, other: XBiVector3<T>) -> (r: XBiVector3<T>) {
        proof {
            T::operators_are_total();
        }
        XBiVector3 {
            e01: self.e01 - other.e01,
            e02: self.e02 - other.e02,
            e03: self.e03 - other.e03,
        }
    }
}

impl<T: Num> vstd::std_specs::ops::SubSpecImpl<XBiVector3<T>> for XBiVector3<T> {
    open spec fn obeys_sub_spec() -> bool {
        true
    }

    open spec fn sub_req(self, other: XBiVector3<T>) -> bool {
        true
    }

    /// Subtracts coefficient by coefficient.
    open spec fn sub_spec(self, other: XBiVector3<T>) -> XBiVector3<T> {
        XBiVector3 {
            e01: self.e01.sub_spec(other.e01),
            e02: self.e02.sub_spec(other.e02),
            e03: self.e03.sub_spec(other.e03),
        }
    }
}

impl<T: Num> Sub<EBiVector3<T>> for XBiVector3<T> {
    type Output = BiVector3<T>;

    /// Returns the difference, `self.sub_spec(other)`.
    fn sub(self, other: EBiVector3<T>) -> (r: BiVector3<T>) {
        proof {
            T::operators_are_total();
        }
        BiVector3 {
            e01: self.e01,
            e02: self.e02,
            e03: self.e03,
            e12: other.e12.neg(),
            e31: other.e31.neg(),
            e23: other.e23.neg(),
        }
    }
}

impl<T: Num> vstd::std_specs::ops::SubSpecImpl<EBiVector3<T>> for XBiVector3<T> {
    open spec fn obeys_sub_spec() -> bool {
        true
    }

    open spec fn sub_req(self, other: EBiVector3<T>) -> bool {
        true
    }

    /// Subtracts an Euclidean bivector from an ideal bivector: the parts they share are subtracted,
    /// the others are carried over, those of the right operand negated.
    open spec fn sub_spec(self, other: EBiVector3<T>) -> BiVector3<T> {
        BiVector3 {
            e01: self.e01,
            e02: self.e02,
            e03: self.e03,
            e12: other.e12.neg_spec(),
            e31: other.e31.neg_spec(),
            e23: other.e23.neg_spec(),
        }
    }
}

impl<T: Num> Sub<BiVector3<T>> for XBiVector3<T> {
    type Output = BiVector3<T>;

    /// Returns the difference, `self.sub_spec(other)`.
    fn sub(self, other: BiVector3<T>) -> (r: BiVector3<T>) {
        proof {
            T::operators_are_total();
        }
        BiVector3 {
            e01: self.e01 - other.e01,
            e02: self.e02 - other.e02,
            e03: self.e03 - other.e03,
            e12: other.e12.neg(),
            e31: other.e31.neg(),
            e23: other.e23.neg(),
        }
    }
}

impl<T: Num> vstd::std_specs::ops::SubSpecImpl<BiVector3<T>> for XBiVector3<T> {
    open spec fn obeys_sub_spec() -> bool {
        true
    }

    open spec fn sub_req(self, other: BiVector3<T>) -> bool {
        true
    }

    /// Subtracts a bivector from an ideal bivector: the parts they share are subtracted,
    /// the others are carried over, those of the right operand negated.
    open spec fn sub_spec(self, other: BiVector3<T>) -> BiVector3<T> {
        BiVector3 {
            e01: self.e01.sub_spec(other.e01),
            e02: self.e02.sub_spec(other.e02),
            e03: self.e03.sub_spec(other.e03),
            e12: other.e12.neg_spec(),
            e31: other.e31.neg_spec(),
            e23: other.e23.neg_spec(),
        }
    }
}

impl<T: Num> BitOr<Vector3<T>> for XBiVector3<T> {
    type Output = Vector3<T>;

    /// Returns the inner product, `self.bitor_spec(other)`.
    fn bitor(self, other: Vector3<T>) -> (r: Vector3<T>) {
        proof {
            T::operators_are_total();
        }
        Vector3 {
            e0: self.e01 * other.e1 + self.e02 * other.e2 + self.e03 * other.e3,
            e1: T::ZERO,
            e2: T::ZERO,
            e3: T::ZERO,
        }
    }
}

impl<T: Num> vstd::std_specs::ops::BitOrSpecImpl<Vector3<T>> for XBiVector3<T> {
    open spec fn obeys_bitor_spec() -> bool {
        true
    }

    open spec fn bitor_req(self, other: Vector3<T>) -> bool {
        true
    }

    /// The inner product of an ideal bivector and a vector, a vector.
    open spec fn bitor_spec(self, other: Vector3<T>) -> Vector3<T> {
        Vector3 {
            e0: self.e01.mul_spec(other.e1)
                .add_spec(self.e02.mul_spec(other.e2))
                .add_spec(self.e03.mul_spec(other.e3)),
            e1: T::ZERO,
            e2: T::ZERO,
            e3: T::ZERO,
        }
    }
}

impl<T: Num> BitXor<Vector3<T>> for XBiVector3<T> {
    type Output = TriVector3<T>;

    /// Returns the outer product, `self.bitxor_spec(other)`.
    fn bitxor(self, other: Vector3<T>) -> (r: TriVector3<T>) {
        proof {
            T::operators_are_total();
        }
        TriVector3 {
            e021: self.e02 * other.e1 - self.e01 * other.e2,
            e013: self.e01 * other.e3 - self.e03 * other.e1,
            e032: self.e03 * other.e2 - self.e02 * other.e3,
            e123: T::ZERO,
        }
    }
}

impl<T: Num> vstd::std_specs::ops::BitXorSpecImpl<Vector3<T>> for XBiVector3<T> {
    open spec fn obeys_bitxor_spec() -> bool {
        true
    }

    open spec fn bitxor_req(self, other: Vector3<T>) -> bool {
        true
    }

    /// The outer product of an ideal bivector and a vector, a trivector.
    open spec fn bitxor_spec(self, other: Vector3<T>) -> TriVector3<T> {
        TriVector3 {
            e021: self.e02.mul_spec(other.e1).sub_spec(self.e01.mul_spec(other.e2)),
            e013: self.e01.mul_spec(other.e3).sub_spec(self.e03.mul_spec(other.e1)),
            e032: self.e03.mul_spec(other.e2).sub_spec(self.e02.mul_spec(other.e3)),
            e123: T::ZERO,
        }
    }
}

impl<T: Num> BitXor<EBiVector3<T>> for XBiVector3<T> {
    type Output = Pseudo3<T>;

    /// Returns the outer product, `self.bitxor_spec(other)`.
    fn bitxor(self, other: EBiVector3<T>) -> (r: Pseudo3<T>) {
        proof {
            T::operators_are_total();
        }
        Pseudo3 {
            e0123: self.e01 * other.e23 + self.e02 * other.e31 + self.e03 * other.e12,
        }
    }
}

impl<T: Num> vstd::std_specs::ops::BitXorSpecImpl<EBiVector3<T>> for XBiVector3<T> {
    open spec fn obeys_bitxor_spec() -> bool {
        true
    }

    open spec fn bitxor_req(self, other: EBiVector3<T>) -> bool {
        true
    }

    /// The outer product of an ideal bivector and an Euclidean bivector, a pseudoscalar.
    open spec fn bitxor_spec(self, other: EBiVector3<T>) -> Pseudo3<T> {
        Pseudo3 {
            e0123: self.e01.mul_spec(other.e23)
                .add_spec(self.e02.mul_spec(other.e31))
                .add_spec(self.e03.mul_spec(other.e12)),
        }
    }
}

impl<T: Num> BitXor<BiVector3<T>> for XBiVector3<T> {
    type Output = Pseudo3<T>;

    /// Returns the outer product, `self.bitxor_spec(other)`.
    fn bitxor(self, other: BiVector3<T>) -> (r: Pseudo3<T>) {
        proof {
            T::operators_are_total();
        }
        Pseudo3 {
            e0123: self.e01 * other.e23 + self.e02 * other.e31 + self.e03 * other.e12,
        }
    }
}

impl<T: Num> vstd::std_specs::ops::BitXorSpecImpl<BiVector3<T>> for XBiVector3<T> {
    open spec fn obeys_bitxor_spec() -> bool {
        true
    }

    open spec fn bitxor_req(self, other: BiVector3<T>) -> bool {
        true
    }

    /// The outer product of an ideal bivector and a bivector, a pseudoscalar.
    open spec fn bitxor_spec(self, other: BiVector3<T>) -> Pseudo3<T> {
        Pseudo3 {
            e0123: self.e01.mul_spec(other.e23)
                .add_spec(self.e02.mul_spec(other.e31))
                .add_spec(self.e03.mul_spec(other.e12)),
        }
    }
}

impl<T: Num> Mul<Scalar3<T>> for XBiVector3<T> {
    type Output = XBiVector3<T>;

    /// Returns the product, `self.mul_spec(other)`.
    fn mul(self, other: Scalar3<T>) -> (r: XBiVector3<T>) {
        proof {
            T::operators_are_total();
        }
        XBiVector3 {
            e01: self.e01 * other.0,
            e02: self.e02 * other.0,
            e03: self.e03 * other.0,
        }
    }
}

impl<T: Num> vstd::std_specs::ops::MulSpecImpl<Scalar3<T>> for XBiVector3<T> {
    open spec fn obeys_mul_spec() -> bool {
        true
    }

    open spec fn mul_req(self, other: Scalar3<T>) -> bool {
        true
    }

    /// The geometric product of an ideal bivector and a scalar, an ideal bivector.
    open spec fn mul_spec(self, other: Scalar3<T>) -> XBiVector3<T> {
        XBiVector3 {
            e01: self.e01.mul_spec(other.0),
            e02: self.e02.mul_spec(other.0),
            e03: self.e03.mul_spec(other.0),
        }
    }
}

impl<T: Num> BitOr<Scalar3<T>> for XBiVector3<T> {
    type Output = XBiVector3<T>;

    /// Returns the inner product, `self.bitor_spec(other)`.
    fn bitor(self, other: Scalar3<T>) -> (r: XBiVector3<T>) {
        self * other
    }
}

impl<T: Num> vstd::std_specs::ops::BitOrSpecImpl<Scalar3<T>> for XBiVector3<T> {
    open spec fn obeys_bitor_spec() -> bool {
        true
    }

    open spec fn bitor_req(self, other: Scalar3<T>) -> bool {
        true
    }

    /// The inner product of an ideal bivector and a scalar, an ideal bivector.
    open spec fn bitor_spec(self, other: Scalar3<T>) -> XBiVector3<T> {
        self.mul_spec(other)
    }
}

impl<T: Num> BitXor<Scalar3<T>> for XBiVector3<T> {
    type Output = XBiVector3<T>;

    /// Returns the outer product, `self.bitxor_spec(other)`.
    fn bitxor(self, other: Scalar3<T>) -> (r: XBiVector3<T>) {
        self * other
    }
}

impl<T: Num> vstd::std_specs::ops::BitXorSpecImpl<Scalar3<T>> for XBiVector3<T> {
    open spec fn obeys_bitxor_spec() -> bool {
        true
    }

    open spec fn bitxor_req(self, other: Scalar3<T>) -> bool {
        true
    }

    /// The outer product of an ideal bivector and a scalar, an ideal bivector.
    open spec fn bitxor_spec(self, other: Scalar3<T>) -> XBiVector3<T> {
        self.mul_spec(other)
    }
}

impl<T: Num> MulAssign<Scalar3<T>> for XBiVector3<T> {
    /// Scales every coefficient by a scalar, in place.
    fn mul_assign(&mut self, other: Scalar3<T>)
        ensures
            *final(self) == old(self).mul_spec(other),
    {
        proof {
            T::operators_are_total();
        }
        self.e01 = self.e01 * other.0;
        self.e02 = self.e02 * other.0;
        self.e03 = self.e03 * other.0;
    }
}

impl<T: Num> Mul<Vector3<T>> for XBiVector3<T> {
    type Output = (Vector3<T>, TriVector3<T>);

    /// Returns the geometric product, `self.mul_spec(other)`.
    fn mul(self, other: Vector3<T>) -> (r: (Vector3<T>, TriVector3<T>)) {
        (self | other, self ^ other)
    }
}

impl<T: Num> vstd::std_specs::ops::MulSpecImpl<Vector3<T>> for XBiVector3<T> {
    open spec fn obeys_mul_spec() -> bool {
        true
    }

    open spec fn mul_req(self, other: Vector3<T>) -> bool {
        true
    }

    /// The geometric product of an ideal bivector and a vector: its vector and trivector parts.
    open spec fn mul_spec(self, other: Vector3<T>) -> (Vector3<T>, TriVector3<T>) {
        (self.bitor_spec(other), self.bitxor_spec(other))
    }
}

impl<T: Num> Mul<EBiVector3<T>> for XBiVector3<T> {
    type Output = (XBiVector3<T>, Pseudo3<T>);

    /// Returns the geometric product, `self.mul_spec(other)`.
    fn mul(self, other: EBiVector3<T>) -> (r: (XBiVector3<T>, Pseudo3<T>)) {
        proof {
            T::operators_are_total();
        }
        (
            XBiVector3 {
                e01: self.e03 * other.e31 - self.e02 * other.e12,
                e02: self.e01 * other.e12 - self.e03 * other.e23,
                e03: self.e02 * other.e23 - self.e01 * other.e31,
            },
            self ^ other,
        )
    }
}

impl<T: Num> vstd::std_specs::ops::MulSpecImpl<EBiVector3<T>> for XBiVector3<T> {
    open spec fn obeys_mul_spec() -> bool {
        true
    }

    open spec fn mul_req(self, other: EBiVector3<T>) -> bool {
        true
    }

    /// The geometric product of an ideal bivector and an Euclidean bivector: its ideal bivector and pseudoscalar parts.
    open spec fn mul_spec(self, other: EBiVector3<T>) -> (XBiVector3<T>, Pseudo3<T>) {
        (
            XBiVector3 {
                e01: self.e03.mul_spec(other.e31).sub_spec(self.e02.mul_spec(other.e12)),
                e02: self.e01.mul_spec(other.e12).sub_spec(self.e03.mul_spec(other.e23)),
                e03: self.e02.mul_spec(other.e23).sub_spec(self.e01.mul_spec(other.e31)),
            },
            self.bitxor_spec(other),
        )
    }
}

impl<T: Num> Mul<TriVector3<T>> for XBiVector3<T> {
    type Output = TriVector3<T>;

    /// Returns the geometric product, `self.mul_spec(other)`.
    fn mul(self, other: TriVector3<T>) -> (r: TriVector3<T>) {
        proof {
            T::operators_are_total();
        }
        TriVector3 {
            e021: (self.e03 * other.e123).neg(),
            e013: (self.e02 * other.e123).neg(),
            e032: (self.e01 * other.e123).neg(),
            e123: T::ZERO,
        }
    }
}

impl<T: Num> vstd::std_specs::ops::MulSpecImpl<TriVector3<T>> for XBiVector3<T> {
    open spec fn obeys_mul_spec() -> bool {
        true
    }

    open spec fn mul_req(self, other: TriVector3<T>) -> bool {
        true
    }

    /// The geometric product of an ideal bivector and a trivector, a trivector.
    open spec fn mul_spec(self, other: TriVector3<T>) -> TriVector3<T> {
        TriVector3 {
            e021: self.e03.mul_spec(other.e123).neg_spec(),
            e013: self.e02.mul_spec(other.e123).neg_spec(),
            e032: self.e01.mul_spec(other.e123).neg_spec(),
            e123: T::ZERO,
        }
    }
}

impl<T: Num> Mul<BiVector3<T>> for XBiVector3<T> {
    type Output = (XBiVector3<T>, Pseudo3<T>);

    /// Returns the geometric product, `self.mul_spec(other)`.
    fn mul(self, other: BiVector3<T>) -> (r: (XBiVector3<T>, Pseudo3<T>)) {
        proof {
            T::operators_are_total();
        }
        (
            XBiVector3 {
                e01: self.e03 * other.e31 - self.e02 * other.e12,
                e02: self.e01 * other.e12 - self.e03 * other.e23,
                e03: self.e02 * other.e23 - self.e01 * other.e31,
            },
            self ^ other,
        )
    }
}

impl<T: Num> vstd::std_specs::ops::MulSpecImpl<BiVector3<T>> for XBiVector3<T> {
    open spec fn obeys_mul_spec() -> bool {
        true
    }

    open spec fn mul_req(self, other: BiVector3<T>) -> bool {
        true
    }

    /// The geometric product of an ideal bivector and a bivector: its ideal bivector and pseudoscalar parts.
    open spec fn mul_spec(self, other: BiVector3<T>) -> (XBiVector3<T>, Pseudo3<T>) {
        (
            XBiVector3 {
                e01: self.e03.mul_spec(other.e31).sub_spec(self.e02.mul_spec(other.e12)),
                e02: self.e01.mul_spec(other.e12).sub_spec(self.e03.mul_spec(other.e23)),
                e03: self.e02.mul_spec(other.e23).sub_spec(self.e01.mul_spec(other.e31)),
            },
            self.bitxor_spec(other),
        )
    }
}

impl<T: Num> Div<Scalar3<T>> for XBiVector3<T> {
    type Output = XBiVector3<T>;

    /// Returns the quotient, `self.div_spec(other)`.
    fn div(self, other: Scalar3<T>) -> (r: XBiVector3<T>) {
        proof {
            T::operators_are_total();
        }
        XBiVector3 {
            e01: self.e01 / other.0,
            e02: self.e02 / other.0,
            e03: self.e03 / other.0,
        }
    }
}

impl<T: Num> vstd::std_specs::ops::DivSpecImpl<Scalar3<T>> for XBiVector3<T> {
    open spec fn obeys_div_spec() -> bool {
        true
    }

    open spec fn div_req(self, other: Scalar3<T>) -> bool {
        true
    }

    /// Divides every coefficient by a scalar.
    open spec fn div_spec(self, other: Scalar3<T>) -> XBiVector3<T> {
        XBiVector3 {
            e01: self.e01.div_spec(other.0),
            e02: self.e02.div_spec(other.0),
            e03: self.e03.div_spec(other.0),
        }
    }
}

impl<T: Num> DivAssign<Scalar3<T>> for XBiVector3<T> {
    /// Divides every coefficient by a scalar, in place.
    fn div_assign(&mut self, other: Scalar3<T>)
        ensures
            *final(self) == old(self).div_spec(other),
    {
        proof {
            T::operators_are_total();
        }
        self.e01 = self.e01 / other.0;
        self.e02 = self.e02 / other.0;
        self.e03 = self.e03 / other.0;
    }
}

/// The Euclidean part of a bivector of the space's algebra.
///
/// It holds the coefficients of the basis bivectors without `e0`: a
/// rotation, or a line through the origin.
#[derive(Clone, Copy, Debug, PartialEq)]
pub struct EBiVector3<T> {
    /// The coefficient of `e12`.
    pub e12: T,
    /// The coefficient of `e31`.
    pub e31: T,
    /// The coefficient of `e23`.
    pub e23: T,
}

impl<T> EBiVector3<T> {
    /// Creates an Euclidean bivector from its coefficients.
    pub fn new(e12: T, e31: T, e23: T) -> (r: Self)
        ensures
            r == (EBiVector3 { e12, e31, e23 }),
    {
        EBiVector3 { e12, e31, e23 }
    }
}

impl<T: Num> EBiVector3<T> {
    /// The Euclidean bivector whose coefficients are all zero.
    pub fn zero() -> (r: Self)
        ensures
            r == (EBiVector3 { e12: T::ZERO, e31: T::ZERO, e23: T::ZERO }),
    {
        EBiVector3 { e12: T::ZERO, e31: T::ZERO, e23: T::ZERO }
    }
}

impl<T: Num> Neg for EBiVector3<T> {
    type Output = EBiVector3<T>;

    /// Returns the negation, `self.neg_spec()`.
    fn neg(self) -> (r: EBiVector3<T>) {
        proof {
            T::operators_are_total();
        }
        EBiVector3 {
            e12: self.e12.neg(),
            e31: self.e31.neg(),
            e23: self.e23.neg(),
        }
    }
}

impl<T: Num> vstd::std_specs::ops::NegSpecImpl for EBiVector3<T> {
    open spec fn obeys_neg_spec() -> bool {
        true
    }

    open spec fn neg_req(self) -> bool {
        true
    }

    /// Negates every coefficient.
    open spec fn neg_spec(self) -> EBiVector3<T> {
        EBiVector3 {
            e12: self.e12.neg_spec(),
            e31: self.e31.neg_spec(),
            e23: self.e23.neg_spec(),
        }
    }
}

impl<T: Num> Not for EBiVector3<T> {
    type Output = EBiVector3<T>;

    /// Returns the reverse, `self.not_spec()`.
    fn not(self) -> (r: EBiVector3<T>) {
        self.neg()
    }
}

impl<T: Num> vstd::std_specs::ops::NotSpecImpl for EBiVector3<T> {
    open spec fn obeys_not_spec() -> bool {
        true
    }

    open spec fn not_req(self) -> bool {
        true
    }

    /// The reverse of an Euclidean bivector is its negation.
    open spec fn not_spec(self) -> EBiVector3<T> {
        self.neg_spec()
    }
}

impl<T: Num> Dual for EBiVector3<T> {
    type Output = XBiVector3<T>;

    /// The dual of an Euclidean bivector is the ideal bivector that carries the same coefficients
    /// on the complementary basis elements.
    open spec fn dual_spec(self) -> XBiVector3<T> {
        XBiVector3 {
            e01: self.e23,
            e02: self.e31,
            e03: self.e12,
        }
    }

    /// Returns the dual, `self.dual_spec()`.
    fn dual(self) -> (r: XBiVector3<T>) {
        XBiVector3 {
            e01: self.e23,
            e02: self.e31,
            e03: self.e12,
        }
    }
}

impl<T: Num> Mul<T> for EBiVector3<T> {
    type Output = EBiVector3<T>;

    /// Returns the product, `self.mul_spec(other)`.
    fn mul(self, other: T) -> (r: EBiVector3<T>) {
        proof {
            T::operators_are_total();
        }
        EBiVector3 {
            e12: self.e12 * other,
            e31: self.e31 * other,
            e23: self.e23 * other,
        }
    }
}

impl<T: Num> vstd::std_specs::ops::MulSpecImpl<T> for EBiVector3<T> {
    open spec fn obeys_mul_spec() -> bool {
        true
    }

    open spec fn mul_req(self, other: T) -> bool {
        true
    }

    /// Scales every coefficient by `other`.
    open spec fn mul_spec(self, other: T) -> EBiVector3<T> {
        EBiVector3 {
            e12: self.e12.mul_spec(other),
            e31: self.e31.mul_spec(other),
            e23: self.e23.mul_spec(other),
        }
    }
}

impl<T: Num> MulAssign<T> for EBiVector3<T> {
    /// Scales every coefficient by `other`, in place.
    fn mul_assign(&mut self, other: T)
        ensures
            *final(self) == old(self).mul_spec(other),
    {
        proof {
            T::operators_are_total();
        }
        self.e12 = self.e12 * other;
        self.e31 = self.e31 * other;
        self.e23 = self.e23 * other;
    }
}

impl<T: Num> Div<T> for EBiVector3<T> {
    type Output = EBiVector3<T>;

    /// Returns the quotient, `self.div_spec(other)`.
    fn div(self, other: T) -> (r: EBiVector3<T>) {
        proof {
            T::operators_are_total();
        }
        EBiVector3 {
            e12: self.e12 / other,
            e31: self.e31 / other,
            e23: self.e23 / other,
        }
    }
}

impl<T: Num> vstd::std_specs::ops::DivSpecImpl<T> for EBiVector3<T> {
    open spec fn obeys_div_spec() -> bool {
        true
    }

    open spec fn div_req(self, other: T) -> bool {
        true
    }

    /// Divides every coefficient by `other`.
    open spec fn div_spec(self, other: T) -> EBiVector3<T> {
        EBiVector3 {
            e12: self.e12.div_spec(other),
            e31: self.e31.div_spec(other),
            e23: self.e23.div_spec(other),
        }
    }
}

impl<T: Num> DivAssign<T> for EBiVector3<T> {
    /// Divides every coefficient by `other`, in place.
    fn div_assign(&mut self, other: T)
        ensures
            *final(self) == old(self).div_spec(other),
    {
        proof {
            T::operators_are_total();
        }
        self.e12 = self.e12 / other;
        self.e31 = self.e31 / other;
        self.e23 = self.e23 / other;
    }
}

impl<T: Num> Add<XBiVector3<T>> for EBiVector3<T> {
    type Output = BiVector3<T>;

    /// Returns the sum, `self.add_spec(other)`.
    fn add(self, other: XBiVector3<T>) -> (r: BiVector3<T>) {
        BiVector3 {
            e01: other.e01,
            e02: other.e02,
            e03: other.e03,
            e12: self.e12,
            e31: self.e31,
            e23: self.e23,
        }
    }
}

impl<T: Num> vstd::std_specs::ops::AddSpecImpl<XBiVector3<T>> for EBiVector3<T> {
    open spec fn obeys_add_spec() -> bool {
        true
    }

    open spec fn add_req(self, other: XBiVector3<T>) -> bool {
        true
    }

    /// Adds an ideal bivector to an Euclidean bivector: the parts they share are added,
    /// the others are carried over.
    open spec fn add_spec(self, other: XBiVector3<T>) -> BiVector3<T> {
        BiVector3 {
            e01: other.e01,
            e02: other.e02,
            e03: other.e03,
            e12: self.e12,
            e31: self.e31,
            e23: self.e23,
        }
    }
}

impl<T: Num> Add<EBiVector3<T>> for EBiVector3<T> {
    type Output = EBiVector3<T>;

    /// Returns the sum, `self.add_spec(other)`.
    fn add(self, other: EBiVector3<T>) -> (r: EBiVector3<T>) {
        proof {
            T::operators_are_total();
        }
        EBiVector3 {
            e12: self.e12 + other.e12,
            e31: self.e31 + other.e31,
            e23: self.e23 + other.e23,
        }
    }
}

impl<T: Num> vstd::std_specs::ops::AddSpecImpl<EBiVector3<T>> for EBiVector3<T> {
    open spec fn obeys_add_spec() -> bool {
        true
    }

    open spec fn add_req(self, other: EBiVector3<T>) -> bool {
        true
    }

    /// Adds coefficient by coefficient.
    open spec fn add_spec(self, other: EBiVector3<T>) -> EBiVector3<T> {
        EBiVector3 {
            e12: self.e12.add_spec(other.e12),
            e31: self.e31.add_spec(other.e31),
            e23: self.e23.add_spec(other.e23),
        }
    }
}

impl<T: Num> Add<BiVector3<T>> for EBiVector3<T> {
    type Output = BiVector3<T>;

    /// Returns the sum, `self.add_spec(other)`.
    fn add(self, other: BiVector3<T>) -> (r: BiVector3<T>) {
        proof {
            T::operators_are_total();
        }
        BiVector3 {
            e01: other.e01,
            e02: other.e02,
            e03: other.e03,
            e12: self.e12 + other.e12,
            e31: self.e31 + other.e31,
            e23: self.e23 + other.e23,
        }
    }
}

impl<T: Num> vstd::std_specs::ops::AddSpecImpl<BiVector3<T>> for EBiVector3<T> {
    open spec fn obeys_add_spec() -> bool {
        true
    }

    open spec fn add_req(self, other: BiVector3<T>) -> bool {
        true
    }

    /// Adds a bivector to an Euclidean bivector: the parts they share are added,
    /// the others are carried over.
    open spec fn add_spec(self, other: BiVector3<T>) -> BiVector3<T> {
        BiVector3 {
            e01: other.e01,
            e02: other.e02,
            e03: other.e03,
            e12: self.e12.add_spec(other.e12),
            e31: self.e31.add_spec(other.e31),
            e23: self.e23.add_spec(other.e23),
        }
    }
}

impl<T: Num> Sub<XBiVector3<T>> for EBiVector3<T> {
    type Output = BiVector3<T>;

    /// Returns the difference, `self.sub_spec(other)`.
    fn sub(self, other: XBiVector3<T>) -> (r: BiVector3<T>) {
        proof {
            T::operators_are_total();
        }
        BiVector3 {
            e01: other.e01.neg(),
            e02: other.e02.neg(),
            e03: other.e03.neg(),
            e12: self.e12,
            e31: self.e31,
            e23: self.e23,
        }
    }
}

impl<T: Num> vstd::std_specs::ops::SubSpecImpl<XBiVector3<T>> for EBiVector3<T> {
    open spec fn obeys_sub_spec() -> bool {
        true
    }

    open spec fn sub_req(self, other: XBiVector3<T>) -> bool {
        true
    }

    /// Subtracts an ideal bivector from an Euclidean bivector: the parts they share are subtracted,
    /// the others are carried over, those of the right operand negated.
    open spec fn sub_spec(self, other: XBiVector3<T>) -> BiVector3<T> {
        BiVector3 {
            e01: other.e01.neg_spec(),
            e02: other.e02.neg_spec(),
            e03: other.e03.neg_spec(),
            e12: self.e12,
            e31: self.e31,
            e23: self.e23,
        }
    }
}

impl<T: Num> Sub<EBiVector3<T>> for EBiVector3<T> {
    type Output = EBiVector3<T>;

    /// Returns the difference, `self.sub_spec(other)`.
    fn sub(self, other: EBiVector3<T>) -> (r: EBiVector3<T>) {
        proof {
            T::operators_are_total();
        }
        EBiVector3 {
            e12: self.e12 - other.e12,
            e31: self.e31 - other.e31,
            e23: self.e23 - other.e23,
        }
    }
}

impl<T: Num> vstd::std_specs::ops::SubSpecImpl<EBiVector3<T>> for EBiVector3<T> {
    open spec fn obeys_sub_spec() -> bool {
        true
    }

    open spec fn sub_req(self, other: EBiVector3<T>) -> bool {
        true
    }

    /// Subtracts coefficient by coefficient.
    open spec fn sub_spec(self, other: EBiVector3<T>) -> EBiVector3<T> {
        EBiVector3 {
            e12: self.e12.sub_spec(other.e12),
            e31: self.e31.sub_spec(other.e31),
            e23: self.e23.sub_spec(other.e23),
        }
    }
}

impl<T: Num> Sub<BiVector3<T>> for EBiVector3<T> {
    type Output = BiVector3<T>;

    /// Returns the difference, `self.sub_spec(other)`.
    fn sub(self, other: BiVector3<T>) -> (r: BiVector3<T>) {
        proof {
            T::operators_are_total();
        }
        BiVector3 {
            e01: other.e01.neg(),
            e02: other.e02.neg(),
            e03: other.e03.neg(),
            e12: self.e12 - other.e12,
            e31: self.e31 - other.e31,
            e23: self.e23 - other.e23,
        }
    }
}

impl<T: Num> vstd::std_specs::ops::SubSpecImpl<BiVector3<T>> for EBiVector3<T> {
    open spec fn obeys_sub_spec() -> bool {
        true
    }

    open spec fn sub_req(self, other: BiVector3<T>) -> bool {
        true
    }

    /// Subtracts a bivector from an Euclidean bivector: the parts they share are subtracted,
    /// the others are carried over, those of the right operand negated.
    open spec fn sub_spec(self, other: BiVector3<T>) -> BiVector3<T> {
        BiVector3 {
            e01: other.e01.neg_spec(),
            e02: other.e02.neg_spec(),
            e03: other.e03.neg_spec(),
            e12: self.e12.sub_spec(other.e12),
            e31: self.e31.sub_spec(other.e31),
            e23: self.e23.sub_spec(other.e23),
        }
    }
}

impl<T: Num> BitOr<Vector3<T>> for EBiVector3<T> {
    type Output = Vector3<T>;

    /// Returns the inner product, `self.bitor_spec(other)`.
    fn bitor(self, other: Vector3<T>) -> (r: Vector3<T>) {
        proof {
            T::operators_are_total();
        }
        Vector3 {
            e0: T::ZERO,
            e1: self.e12 * other.e2 - self.e31 * other.e3,
            e2: self.e23 * other.e3 - self.e12 * other.e1,
            e3: self.e31 * other.e1 - self.e23 * other.e2,
        }
    }
}

impl<T: Num> vstd::std_specs::ops::BitOrSpecImpl<Vector3<T>> for EBiVector3<T> {
    open spec fn obeys_bitor_spec() -> bool {
        true
    }

    open spec fn bitor_req(self, other: Vector3<T>) -> bool {
        true
    }

    /// The inner product of an Euclidean bivector and a vector, a vector.
    open spec fn bitor_spec(self, other: Vector3<T>) -> Vector3<T> {
        Vector3 {
            e0: T::ZERO,
            e1: self.e12.mul_spec(other.e2).sub_spec(self.e31.mul_spec(other.e3)),
            e2: self.e23.mul_spec(other.e3).sub_spec(self.e12.mul_spec(other.e1)),
            e3: self.e31.mul_spec(other.e1).sub_spec(self.e23.mul_spec(other.e2)),
        }
    }
}

impl<T: Num> BitOr<EBiVector3<T>> for EBiVector3<T> {
    type Output = Scalar3<T>;

    /// Returns the inner product, `self.bitor_spec(other)`.
    fn bitor(self, other: EBiVector3<T>) -> (r: Scalar3<T>) {
        proof {
            T::operators_are_total();
        }
        Scalar3((self.e12 * other.e12 + self.e31 * other.e31 + self.e23 * other.e23).neg())
    }
}

impl<T: Num> vstd::std_specs::ops::BitOrSpecImpl<EBiVector3<T>> for EBiVector3<T> {
    open spec fn obeys_bitor_spec() -> bool {
        true
    }

    open spec fn bitor_req(self, other: EBiVector3<T>) -> bool {
        true
    }

    /// The inner product of an Euclidean bivector and an Euclidean bivector, a scalar.
    open spec fn bitor_spec(self, other: EBiVector3<T>) -> Scalar3<T> {
        Scalar3(self.e12.mul_spec(other.e12).add_spec(self.e31.mul_spec(other.e31)).add_spec(self.e23.mul_spec(other.e23)).neg_spec())
    }
}

impl<T: Num> BitOr<BiVector3<T>> for EBiVector3<T> {
    type Output = Scalar3<T>;

    /// Returns the inner product, `self.bitor_spec(other)`.
    fn bitor(self, other: BiVector3<T>) -> (r: Scalar3<T>) {
        proof {
            T::operators_are_total();
        }
        Scalar3((self.e12 * other.e12 + self.e31 * other.e31 + self.e23 * other.e23).neg())
    }
}

impl<T: Num> vstd::std_specs::ops::BitOrSpecImpl<BiVector3<T>> for EBiVector3<T> {
    open spec fn obeys_bitor_spec() -> bool {
        true
    }

    open spec fn bitor_req(self, other: BiVector3<T>) -> bool {
        true
    }

    /// The inner product of an Euclidean bivector and a bivector, a scalar.
    open spec fn bitor_spec(self, other: BiVector3<T>) -> Scalar3<T> {
        Scalar3(self.e12.mul_spec(other.e12).add_spec(self.e31.mul_spec(other.e31)).add_spec(self.e23.mul_spec(other.e23)).neg_spec())
    }
}

impl<T: Num> BitOr<TriVector3<T>> for EBiVector3<T> {
    type Output = Vector3<T>;

    /// Returns the inner product, `self.bitor_spec(other)`.
    fn bitor(self, other: TriVector3<T>) -> (r: Vector3<T>) {
        proof {
            T::operators_are_total();
        }
        Vector3 {
            e0: self.e12 * other.e021 + self.e31 * other.e013 + self.e23 * other.e032,
            e1: (self.e23 * other.e123).neg(),
            e2: (self.e31 * other.e123).neg(),
            e3: (self.e12 * other.e123).neg(),
        }
    }
}

impl<T: Num> vstd::std_specs::ops::BitOrSpecImpl<TriVector3<T>> for EBiVector3<T> {
    open spec fn obeys_bitor_spec() -> bool {
        true
    }

    open spec fn bitor_req(self, other: TriVector3<T>) -> bool {
        true
    }

    /// The inner product of an Euclidean bivector and a trivector, a vector.
    open spec fn bitor_spec(self, other: TriVector3<T>) -> Vector3<T> {
        Vector3 {
            e0: self.e12.mul_spec(other.e021)
                .add_spec(self.e31.mul_spec(other.e013))
                .add_spec(self.e23.mul_spec(other.e032)),
            e1: self.e23.mul_spec(other.e123).neg_spec(),
            e2: self.e31.mul_spec(other.e123).neg_spec(),
            e3: self.e12.mul_spec(other.e123).neg_spec(),
        }
    }
}

impl<T: Num> BitOr<Pseudo3<T>> for EBiVector3<T> {
    type Output = XBiVector3<T>;

    /// Returns the inner product, `self.bitor_spec(other)`.
    fn bitor(self, other: Pseudo3<T>) -> (r: XBiVector3<T>) {
        proof {
            T::operators_are_total();
        }
        XBiVector3 {
            e01: (self.e23 * other.e0123).neg(),
            e02: (self.e31 * other.e0123).neg(),
            e03: (self.e12 * other.e0123).neg(),
        }
    }
}

impl<T: Num> vstd::std_specs::ops::BitOrSpecImpl<Pseudo3<T>> for EBiVector3<T> {
    open spec fn obeys_bitor_spec() -> bool {
        true
    }

    open spec fn bitor_req(self, other: Pseudo3<T>) -> bool {
        true
    }

    /// The inner product of an Euclidean bivector and a pseudoscalar, an ideal bivector.
    open spec fn bitor_spec(self, other: Pseudo3<T>) -> XBiVector3<T> {
        XBiVector3 {
            e01: self.e23.mul_spec(other.e0123).neg_spec(),
            e02: self.e31.mul_spec(other.e0123).neg_spec(),
            e03: self.e12.mul_spec(other.e0123).neg_spec(),
        }
    }
}

impl<T: Num> BitXor<Vector3<T>> for EBiVector3<T> {
    type Output = TriVector3<T>;

    /// Returns the outer product, `self.bitxor_spec(other)`.
    fn bitxor(self, other: Vector3<T>) -> (r: TriVector3<T>) {
        proof {
            T::operators_are_total();
        }
        TriVector3 {
            e021: (self.e12 * other.e0).neg(),
            e013: (self.e31 * other.e0).neg(),
            e032: (self.e23 * other.e0).neg(),
            e123: self.e12 * other.e3 + self.e31 * other.e2 + self.e23 * other.e1,
        }
    }
}

impl<T: Num> vstd::std_specs::ops::BitXorSpecImpl<Vector3<T>> for EBiVector3<T> {
    open spec fn obeys_bitxor_spec() -> bool {
        true
    }

    open spec fn bitxor_req(self, other: Vector3<T>) -> bool {
        true
    }

    /// The outer product of an Euclidean bivector and a vector, a trivector.
    open spec fn bitxor_spec(self, other: Vector3<T>) -> TriVector3<T> {
        TriVector3 {
            e021: self.e12.mul_spec(other.e0).neg_spec(),
            e013: self.e31.mul_spec(other.e0).neg_spec(),
            e032: self.e23.mul_spec(other.e0).neg_spec(),
            e123: self.e12.mul_spec(other.e3)
                .add_spec(self.e31.mul_spec(other.e2))
                .add_spec(self.e23.mul_spec(other.e1)),
        }
    }
}

impl<T: Num> BitXor<XBiVector3<T>> for EBiVector3<T> {
    type Output = Pseudo3<T>;

    /// Returns the outer product, `self.bitxor_spec(other)`.
    fn bitxor(self, other: XBiVector3<T>) -> (r: Pseudo3<T>) {
        proof {
            T::operators_are_total();
        }
        Pseudo3 {
            e0123: self.e12 * other.e03 + self.e31 * other.e02 + self.e23 * other.e01,
        }
    }
}

impl<T: Num> vstd::std_specs::ops::BitXorSpecImpl<XBiVector3<T>> for EBiVector3<T> {
    open spec fn obeys_bitxor_spec() -> bool {
        true
    }

    open spec fn bitxor_req(self, other: XBiVector3<T>) -> bool {
        true
    }

    /// The outer product of an Euclidean bivector and an ideal bivector, a pseudoscalar.
    open spec fn bitxor_spec(self, other: XBiVector3<T>) -> Pseudo3<T> {
        Pseudo3 {
            e0123: self.e12.mul_spec(other.e03)
                .add_spec(self.e31.mul_spec(other.e02))
                .add_spec(self.e23.mul_spec(other.e01)),
        }
    }
}

impl<T: Num> BitXor<BiVector3<T>> for EBiVector3<T> {
    type Output = Pseudo3<T>;

    /// Returns the outer product, `self.bitxor_spec(other)`.
    fn bitxor(self, other: BiVector3<T>) -> (r: Pseudo3<T>) {
        proof {
            T::operators_are_total();
        }
        Pseudo3 {
            e0123: self.e12 * other.e03 + self.e31 * other.e02 + self.e23 * other.e01,
        }
    }
}

impl<T: Num> vstd::std_specs::ops::BitXorSpecImpl<BiVector3<T>> for EBiVector3<T> {
    open spec fn obeys_bitxor_spec() -> bool {
        true
    }

    open spec fn bitxor_req(self, other: BiVector3<T>) -> bool {
        true
    }

    /// The outer product of an Euclidean bivector and a bivector, a pseudoscalar.
    open spec fn bitxor_spec(self, other: BiVector3<T>) -> Pseudo3<T> {
        Pseudo3 {
            e0123: self.e12.mul_spec(other.e03)
                .add_spec(self.e31.mul_spec(other.e02))
                .add_spec(self.e23.mul_spec(other.e01)),
        }
    }
}

impl<T: Num> Mul<Scalar3<T>> for EBiVector3<T> {
    type Output = EBiVector3<T>;

    /// Returns the product, `self.mul_spec(other)`.
    fn mul(self, other: Scalar3<T>) -> (r: EBiVector3<T>) {
        proof {
            T::operators_are_total();
        }
        EBiVector3 {
            e12: self.e12 * other.0,
            e31: self.e31 * other.0,
            e23: self.e23 * other.0,
        }
    }
}

impl<T: Num> vstd::std_specs::ops::MulSpecImpl<Scalar3<T>> for EBiVector3<T> {
    open spec fn obeys_mul_spec() -> bool {
        true
    }

    open spec fn mul_req(self, other: Scalar3<T>) -> bool {
        true
    }

    /// The geometric product of an Euclidean bivector and a scalar, an Euclidean bivector.
    open spec fn mul_spec(self, other: Scalar3<T>) -> EBiVector3<T> {
        EBiVector3 {
            e12: self.e12.mul_spec(other.0),
            e31: self.e31.mul_spec(other.0),
            e23: self.e23.mul_spec(other.0),
        }
    }
}

impl<T: Num> BitOr<Scalar3<T>> for EBiVector3<T> {
    type Output = EBiVector3<T>;

    /// Returns the inner product, `self.bitor_spec(other)`.
    fn bitor(self, other: Scalar3<T>) -> (r: EBiVector3<T>) {
        self * other
    }
}

impl<T: Num> vstd::std_specs::ops::BitOrSpecImpl<Scalar3<T>> for EBiVector3<T> {
    open spec fn obeys_bitor_spec() -> bool {
        true
    }

    open spec fn bitor_req(self, other: Scalar3<T>) -> bool {
        true
    }

    /// The inner product of an Euclidean bivector and a scalar, an Euclidean bivector.
    open spec fn bitor_spec(self, other: Scalar3<T>) -> EBiVector3<T> {
        self.mul_spec(other)
    }
}

impl<T: Num> BitXor<Scalar3<T>> for EBiVector3<T> {
    type Output = EBiVector3<T>;

    /// Returns the outer product, `self.bitxor_spec(other)`.
    fn bitxor(self, other: Scalar3<T>) -> (r: EBiVector3<T>) {
        self * other
    }
}

impl<T: Num> vstd::std_specs::ops::BitXorSpecImpl<Scalar3<T>> for EBiVector3<T> {
    open spec fn obeys_bitxor_spec() -> bool {
        true
    }

    open spec fn bitxor_req(self, other: Scalar3<T>) -> bool {
        true
    }

    /// The outer product of an Euclidean bivector and a scalar, an Euclidean bivector.
    open spec fn bitxor_spec(self, other: Scalar3<T>) -> EBiVector3<T> {
        self.mul_spec(other)
    }
}

impl<T: Num> MulAssign<Scalar3<T>> for EBiVector3<T> {
    /// Scales every coefficient by a scalar, in place.
    fn mul_assign(&mut self, other: Scalar3<T>)
        ensures
            *final(self) == old(self).mul_spec(other),
    {
        proof {
            T::operators_are_total();
        }
        self.e12 = self.e12 * other.0;
        self.e31 = self.e31 * other.0;
        self.e23 = self.e23 * other.0;
    }
}

impl<T: Num> Mul<Vector3<T>> for EBiVector3<T> {
    type Output = (Vector3<T>, TriVector3<T>);

    /// Returns the geometric product, `self.mul_spec(other)`.
    fn mul(self, other: Vector3<T>) -> (r: (Vector3<T>, TriVector3<T>)) {
        (self | other, self ^ other)
    }
}

impl<T: Num> vstd::std_specs::ops::MulSpecImpl<Vector3<T>> for EBiVector3<T> {
    open spec fn obeys_mul_spec() -> bool {
        true
    }

    open spec fn mul_req(self, other: Vector3<T>) -> bool {
        true
    }

    /// The geometric product of an Euclidean bivector and a vector: its vector and trivector parts.
    open spec fn mul_spec(self, other: Vector3<T>) -> (Vector3<T>, TriVector3<T>) {
        (self.bitor_spec(other), self.bitxor_spec(other))
    }
}

impl<T: Num> Mul<XBiVector3<T>> for EBiVector3<T> {
    type Output = (XBiVector3<T>, Pseudo3<T>);

    /// Returns the geometric product, `self.mul_spec(other)`.
    fn mul(self, other: XBiVector3<T>) -> (r: (XBiVector3<T>, Pseudo3<T>)) {
        proof {
            T::operators_are_total();
        }
        (
            XBiVector3 {
                e01: self.e12 * other.e02 - self.e31 * other.e03,
                e02: self.e23 * other.e03 - self.e12 * other.e01,
                e03: self.e31 * other.e01 - self.e23 * other.e02,
            },
            self ^ other,
        )
    }
}

impl<T: Num> vstd::std_specs::ops::MulSpecImpl<XBiVector3<T>> for EBiVector3<T> {
    open spec fn obeys_mul_spec() -> bool {
        true
    }

    open spec fn mul_req(self, other: XBiVector3<T>) -> bool {
        true
    }

    /// The geometric product of an Euclidean bivector and an ideal bivector: its ideal bivector and pseudoscalar parts.
    open spec fn mul_spec(self, other: XBiVector3<T>) -> (XBiVector3<T>, Pseudo3<T>) {
        (
            XBiVector3 {
                e01: self.e12.mul_spec(other.e02).sub_spec(self.e31.mul_spec(other.e03)),
                e02: self.e23.mul_spec(other.e03).sub_spec(self.e12.mul_spec(other.e01)),
                e03: self.e31.mul_spec(other.e01).sub_spec(self.e23.mul_spec(other.e02)),
            },
            self.bitxor_spec(other),
        )
    }
}

impl<T: Num> Mul<EBiVector3<T>> for EBiVector3<T> {
    type Output = (Scalar3<T>, EBiVector3<T>);

    /// Returns the geometric product, `self.mul_spec(other)`.
    fn mul(self, other: EBiVector3<T>) -> (r: (Scalar3<T>, EBiVector3<T>)) {
        proof {
            T::operators_are_total();
        }
        (
            self | other,
            EBiVector3 {
                e12: self.e31 * other.e23 - self.e23 * other.e31,
                e31: self.e23 * other.e12 - self.e12 * other.e23,
                e23: self.e12 * other.e31 - self.e31 * other.e12,
            },
        )
    }
}

impl<T: Num> vstd::std_specs::ops::MulSpecImpl<EBiVector3<T>> for EBiVector3<T> {
    open spec fn obeys_mul_spec() -> bool {
        true
    }

    open spec fn mul_req(self, other: EBiVector3<T>) -> bool {
        true
    }

    /// The geometric product of an Euclidean bivector and an Euclidean bivector: its scalar and Euclidean bivector parts.
    open spec fn mul_spec(self, other: EBiVector3<T>) -> (Scalar3<T>, EBiVector3<T>) {
        (
            self.bitor_spec(other),
            EBiVector3 {
                e12: self.e31.mul_spec(other.e23).sub_spec(self.e23.mul_spec(other.e31)),
                e31: self.e23.mul_spec(other.e12).sub_spec(self.e12.mul_spec(other.e23)),
                e23: self.e12.mul_spec(other.e31).sub_spec(self.e31.mul_spec(other.e12)),
            },
        )
    }
}

impl<T: Num> Mul<BiVector3<T>> for EBiVector3<T> {
    type Output = (Scalar3<T>, BiVector3<T>, Pseudo3<T>);

    /// Returns the geometric product, `self.mul_spec(other)`.
    fn mul(self, other: BiVector3<T>) -> (r: (Scalar3<T>, BiVector3<T>, Pseudo3<T>)) {
        proof {
            T::operators_are_total();
        }
        (
            self | other,
            BiVector3 {
                e01: self.e12 * other.e02 - self.e31 * other.e03,
                e02: self.e23 * other.e03 - self.e12 * other.e01,
                e03: self.e31 * other.e01 - self.e23 * other.e02,
                e12: self.e31 * other.e23 - self.e23 * other.e31,
                e31: self.e23 * other.e12 - self.e12 * other.e23,
                e23: self.e12 * other.e31 - self.e31 * other.e12,
            },
            self ^ other,
        )
    }
}

impl<T: Num> vstd::std_specs::ops::MulSpecImpl<BiVector3<T>> for EBiVector3<T> {
    open spec fn obeys_mul_spec() -> bool {
        true
    }

    open spec fn mul_req(self, other: BiVector3<T>) -> bool {
        true
    }

    /// The geometric product of an Euclidean bivector and a bivector: its scalar, bivector and pseudoscalar parts.
    open spec fn mul_spec(self, other: BiVector3<T>) -> (Scalar3<T>, BiVector3<T>, Pseudo3<T>) {
        (
            self.bitor_spec(other),
            BiVector3 {
                e01: self.e12.mul_spec(other.e02).sub_spec(self.e31.mul_spec(other.e03)),
                e02: self.e23.mul_spec(other.e03).sub_spec(self.e12.mul_spec(other.e01)),
                e03: self.e31.mul_spec(other.e01).sub_spec(self.e23.mul_spec(other.e02)),
                e12: self.e31.mul_spec(other.e23).sub_spec(self.e23.mul_spec(other.e31)),
                e31: self.e23.mul_spec(other.e12).sub_spec(self.e12.mul_spec(other.e23)),
                e23: self.e12.mul_spec(other.e31).sub_spec(self.e31.mul_spec(other.e12)),
            },
            self.bitxor_spec(other),
        )
    }
}

impl<T: Num> Mul<TriVector3<T>> for EBiVector3<T> {
    type Output = (Vector3<T>, TriVector3<T>);

    /// Returns the geometric product, `self.mul_spec(other)`.
    fn mul(self, other: TriVector3<T>) -> (r: (Vector3<T>, TriVector3<T>)) {
        proof {
            T::operators_are_total();
        }
        (
            self | other,
            TriVector3 {
                e021: self.e31 * other.e032 - self.e23 * other.e013,
                e013: self.e23 * other.e021 - self.e12 * other.e032,
                e032: self.e12 * other.e013 - self.e31 * other.e021,
                e123: T::ZERO,
            },
        )
    }
}

impl<T: Num> vstd::std_specs::ops::MulSpecImpl<TriVector3<T>> for EBiVector3<T> {
    open spec fn obeys_mul_spec() -> bool {
        true
    }

    open spec fn mul_req(self, other: TriVector3<T>) -> bool {
        true
    }

    /// The geometric product of an Euclidean bivector and a trivector: its vector and trivector parts.
    open spec fn mul_spec(self, other: TriVector3<T>) -> (Vector3<T>, TriVector3<T>) {
        (
            self.bitor_spec(other),
            TriVector3 {
                e021: self.e31.mul_spec(other.e032).sub_spec(self.e23.mul_spec(other.e013)),
                e013: self.e23.mul_spec(other.e021).sub_spec(self.e12.mul_spec(other.e032)),
                e032: self.e12.mul_spec(other.e013).sub_spec(self.e31.mul_spec(other.e021)),
                e123: T::ZERO,
            },
        )
    }
}

impl<T: Num> Mul<Pseudo3<T>> for EBiVector3<T> {
    type Output = XBiVector3<T>;

    /// Returns the geometric product, `self.mul_spec(other)`.
    fn mul(self, other: Pseudo3<T>) -> (r: XBiVector3<T>) {
        self | other
    }
}

impl<T: Num> vstd::std_specs::ops::MulSpecImpl<Pseudo3<T>> for EBiVector3<T> {
    open spec fn obeys_mul_spec() -> bool {
        true
    }

    open spec fn mul_req(self, other: Pseudo3<T>) -> bool {
        true
    }

    /// The geometric product of an Euclidean bivector and a pseudoscalar, an ideal bivector.
    open spec fn mul_spec(self, other: Pseudo3<T>) -> XBiVector3<T> {
        self.bitor_spec(other)
    }
}

impl<T: Num> Div<Scalar3<T>> for EBiVector3<T> {
    type Output = EBiVector3<T>;

    /// Returns the quotient, `self.div_spec(other)`.
    fn div(self, other: Scalar3<T>) -> (r: EBiVector3<T>) {
        proof {
            T::operators_are_total();
        }
        EBiVector3 {
            e12: self.e12 / other.0,
            e31: self.e31 / other.0,
            e23: self.e23 / other.0,
        }
    }
}

impl<T: Num> vstd::std_specs::ops::DivSpecImpl<Scalar3<T>> for EBiVector3<T> {
    open spec fn obeys_div_spec() -> bool {
        true
    }

    open spec fn div_req(self, other: Scalar3<T>) -> bool {
        true
    }

    /// Divides every coefficient by a scalar.
    open spec fn div_spec(self, other: Scalar3<T>) -> EBiVector3<T> {
        EBiVector3 {
            e12: self.e12.div_spec(other.0),
            e31: self.e31.div_spec(other.0),
            e23: self.e23.div_spec(other.0),
        }
    }
}

impl<T: Num> DivAssign<Scalar3<T>> for EBiVector3<T> {
    /// Divides every coefficient by a scalar, in place.
    fn div_assign(&mut self, other: Scalar3<T>)
        ensures
            *final(self) == old(self).div_spec(other),
    {
        proof {
            T::operators_are_total();
        }
        self.e12 = self.e12 / other.0;
        self.e31 = self.e31 / other.0;
        self.e23 = self.e23 / other.0;
    }
}

/// A bivector of the space's algebra: the element of grade 2, the sum of
/// an ideal and a Euclidean part.
///
/// It stands for a line.
#[derive(Clone, Copy, Debug, PartialEq)]
pub struct BiVector3<T> {
    /// The coefficient of `e01`.
    pub e01: T,
    /// The coefficient of `e02`.
    pub e02: T,
    /// The coefficient of `e03`.
    pub e03: T,
    /// The coefficient of `e12`.
    pub e12: T,
    /// The coefficient of `e31`.
    pub e31: T,
    /// The coefficient of `e23`.
    pub e23: T,
}

impl<T> BiVector3<T> {
    /// Creates a bivector from its coefficients.
    pub fn new(e01: T, e02: T, e03: T, e12: T, e31: T, e23: T) -> (r: Self)
        ensures
            r == (BiVector3 { e01, e02, e03, e12, e31, e23 }),
    {
        BiVector3 { e01, e02, e03, e12, e31, e23 }
    }
}

impl<T: Num> BiVector3<T> {
    /// The bivector whose coefficients are all zero.
    pub fn zero() -> (r: Self)
        ensures
            r == (BiVector3 {
                e01: T::ZERO,
                e02: T::ZERO,
                e03: T::ZERO,
                e12: T::ZERO,
                e31: T::ZERO,
                e23: T::ZERO,
            }),
    {
        BiVector3 {
            e01: T::ZERO,
            e02: T::ZERO,
            e03: T::ZERO,
            e12: T::ZERO,
            e31: T::ZERO,
            e23: T::ZERO,
        }
    }
}

impl<T: Num> Neg for BiVector3<T> {
    type Output = BiVector3<T>;

    /// Returns the negation, `self.neg_spec()`.
    fn neg(self) -> (r: BiVector3<T>) {
        proof {
            T::operators_are_total();
        }
        BiVector3 {
            e01: self.e01.neg(),
            e02: self.e02.neg(),
            e03: self.e03.neg(),
            e12: self.e12.neg(),
            e31: self.e31.neg(),
            e23: self.e23.neg(),
        }
    }
}

impl<T: Num> vstd::std_specs::ops::NegSpecImpl for BiVector3<T> {
    open spec fn obeys_neg_spec() -> bool {
        true
    }

    open spec fn neg_req(self) -> bool {
        true
    }

    /// Negates every coefficient.
    open spec fn neg_spec(self) -> BiVector3<T> {
        BiVector3 {
            e01: self.e01.neg_spec(),
            e02: self.e02.neg_spec(),
            e03: self.e03.neg_spec(),
            e12: self.e12.neg_spec(),
            e31: self.e31.neg_spec(),
            e23: self.e23.neg_spec(),
        }
    }
}

impl<T: Num> Not for BiVector3<T> {
    type Output = BiVector3<T>;

    /// Returns the reverse, `self.not_spec()`.
    fn not(self) -> (r: BiVector3<T>) {
        self.neg()
    }
}

impl<T: Num> vstd::std_specs::ops::NotSpecImpl for BiVector3<T> {
    open spec fn obeys_not_spec() -> bool {
        true
    }

    open spec fn not_req(self) -> bool {
        true
    }

    /// The reverse of a bivector is its negation.
    open spec fn not_spec(self) -> BiVector3<T> {
        self.neg_spec()
    }
}

impl<T: Num> Dual for BiVector3<T> {
    type Output = BiVector3<T>;

    /// The dual of a bivector is the bivector that carries the same coefficients
    /// on the complementary basis elements.
    open spec fn dual_spec(self) -> BiVector3<T> {
        BiVector3 {
            e01: self.e23,
            e02: self.e31,
            e03: self.e12,
            e12: self.e03,
            e31: self.e02,
            e23: self.e01,
        }
    }

    /// Returns the dual, `self.dual_spec()`.
    fn dual(self) -> (r: BiVector3<T>) {
        BiVector3 {
            e01: self.e23,
            e02: self.e31,
            e03: self.e12,
            e12: self.e03,
            e31: self.e02,
            e23: self.e01,
        }
    }
}

impl<T: Num> Mul<T> for BiVector3<T> {
    type Output = BiVector3<T>;

    /// Returns the product, `self.mul_spec(other)`.
    fn mul(self, other: T) -> (r: BiVector3<T>) {
        proof {
            T::operators_are_total();
        }
        BiVector3 {
            e01: self.e01 * other,
            e02: self.e02 * other,
            e03: self.e03 * other,
            e12: self.e12 * other,
            e31: self.e31 * other,
            e23: self.e23 * other,
        }
    }
}

impl<T: Num> vstd::std_specs::ops::MulSpecImpl<T> for BiVector3<T> {
    open spec fn obeys_mul_spec() -> bool {
        true
    }

    open spec fn mul_req(self, other: T) -> bool {
        true
    }

    /// Scales every coefficient by `other`.
    open spec fn mul_spec(self, other: T) -> BiVector3<T> {
        BiVector3 {
            e01: self.e01.mul_spec(other),
            e02: self.e02.mul_spec(other),
            e03: self.e03.mul_spec(other),
            e12: self.e12.mul_spec(other),
            e31: self.e31.mul_spec(other),
            e23: self.e23.mul_spec(other),
        }
    }
}

impl<T: Num> MulAssign<T> for BiVector3<T> {
    /// Scales every coefficient by `other`, in place.
    fn mul_assign(&mut self, other: T)
        ensures
            *final(self) == old(self).mul_spec(other),
    {
        proof {
            T::operators_are_total();
        }
        self.e01 = self.e01 * other;
        self.e02 = self.e02 * other;
        self.e03 = self.e03 * other;
        self.e12 = self.e12 * other;
        self.e31 = self.e31 * other;
        self.e23 = self.e23 * other;
    }
}

impl<T: Num> Div<T> for BiVector3<T> {
    type Output = BiVector3<T>;

    /// Returns the quotient, `self.div_spec(other)`.
    fn div(self, other: T) -> (r: BiVector3<T>) {
        proof {
            T::operators_are_total();
        }
        BiVector3 {
            e01: self.e01 / other,
            e02: self.e02 / other,
            e03: self.e03 / other,
            e12: self.e12 / other,
            e31: self.e31 / other,
            e23: self.e23 / other,
        }
    }
}

impl<T: Num> vstd::std_specs::ops::DivSpecImpl<T> for BiVector3<T> {
    open spec fn obeys_div_spec() -> bool {
        true
    }

    open spec fn div_req(self, other: T) -> bool {
        true
    }

    /// Divides every coefficient by `other`.
    open spec fn div_spec(self, other: T) -> BiVector3<T> {
        BiVector3 {
            e01: self.e01.div_spec(other),
            e02: self.e02.div_spec(other),
            e03: self.e03.div_spec(other),
            e12: self.e12.div_spec(other),
            e31: self.e31.div_spec(other),
            e23: self.e23.div_spec(other),
        }
    }
}

impl<T: Num> BiVector3<T> {
    /// The squared norm: the sum of the squares of the Euclidean coefficients.
    pub open spec fn norm2_spec(self) -> T {
        self.e12.mul_spec(self.e12).add_spec(self.e31.mul_spec(self.e31)).add_spec(self.e23.mul_spec(self.e23))
    }

    /// The norm: the square root of the squared norm.
    pub open spec fn norm_spec(self) -> T {
        self.norm2_spec().sqrt_spec()
    }

    /// The bivector divided by its norm. One whose squared norm compares equal to zero
    /// is left as it is.
    pub open spec fn normalized_spec(self) -> Self {
        if self.norm2_spec().eq_spec(&T::ZERO) {
            self
        } else {
            self.div_spec(self.norm_spec())
        }
    }

    /// Returns the squared norm of the bivector.
    pub fn norm2(&self) -> (r: T)
        ensures
            r == self.norm2_spec(),
    {
        proof {
            T::operators_are_total();
        }
        self.e12 * self.e12 + self.e31 * self.e31 + self.e23 * self.e23
    }

    /// Returns the norm of the bivector.
    pub fn norm(&self) -> (r: T)
        ensures
            r == self.norm_spec(),
    {
        self.norm2().sqrt()
    }

    /// Divides the bivector by its norm, unless the norm vanishes.
    pub fn normalize(&mut self)
        ensures
            *final(self) == old(self).normalized_spec(),
    {
        proof {
            T::operators_are_total();
        }
        let norm2 = self.norm2();
        if norm2 != T::ZERO {
            let norm = norm2.sqrt();
            self.e01 = self.e01 / norm;
            self.e02 = self.e02 / norm;
            self.e03 = self.e03 / norm;
            self.e12 = self.e12 / norm;
            self.e31 = self.e31 / norm;
            self.e23 = self.e23 / norm;
        }
    }

    /// Returns the bivector divided by its norm, or the bivector itself where
    /// the norm vanishes.
    pub fn normalized(&self) -> (r: Self)
        ensures
            r == self.normalized_spec(),
    {
        let mut r = *self;
        r.normalize();
        r
    }
}

impl<T: Num> DivAssign<T> for BiVector3<T> {
    /// Divides every coefficient by `other`, in place.
    fn div_assign(&mut self, other: T)
        ensures
            *final(self) == old(self).div_spec(other),
    {
        proof {
            T::operators_are_total();
        }
        self.e01 = self.e01 / other;
        self.e02 = self.e02 / other;
        self.e03 = self.e03 / other;
        self.e12 = self.e12 / other;
        self.e31 = self.e31 / other;
        self.e23 = self.e23 / other;
    }
}

impl<T: Num> Add<XBiVector3<T>> for BiVector3<T> {
    type Output = BiVector3<T>;

    /// Returns the sum, `self.add_spec(other)`.
    fn add(self, other: XBiVector3<T>) -> (r: BiVector3<T>) {
        proof {
            T::operators_are_total();
        }
        BiVector3 {
            e01: self.e01 + other.e01,
            e02: self.e02 + other.e02,
            e03: self.e03 + other.e03,
            e12: self.e12,
            e31: self.e31,
            e23: self.e23,
        }
    }
}

impl<T: Num> vstd::std_specs::ops::AddSpecImpl<XBiVector3<T>> for BiVector3<T> {
    open spec fn obeys_add_spec() -> bool {
        true
    }

    open spec fn add_req(self, other: XBiVector3<T>) -> bool {
        true
    }

    /// Adds an ideal bivector to a bivector: the parts they share are added,
    /// the others are carried over.
    open spec fn add_spec(self, other: XBiVector3<T>) -> BiVector3<T> {
        BiVector3 {
            e01: self.e01.add_spec(other.e01),
            e02: self.e02.add_spec(other.e02),
            e03: self.e03.add_spec(other.e03),
            e12: self.e12,
            e31: self.e31,
            e23: self.e23,
        }
    }
}

impl<T: Num> Add<EBiVector3<T>> for BiVector3<T> {
    type Output = BiVector3<T>;

    /// Returns the sum, `self.add_spec(other)`.
    fn add(self, other: EBiVector3<T>) -> (r: BiVector3<T>) {
        proof {
            T::operators_are_total();
        }
        BiVector3 {
            e01: self.e01,
            e02: self.e02,
            e03: self.e03,
            e12: self.e12 + other.e12,
            e31: self.e31 + other.e31,
            e23: self.e23 + other.e23,
        }
    }
}

impl<T: Num> vstd::std_specs::ops::AddSpecImpl<EBiVector3<T>> for BiVector3<T> {
    open spec fn obeys_add_spec() -> bool {
        true
    }

    open spec fn add_req(self, other: EBiVector3<T>) -> bool {
        true
    }

    /// Adds an Euclidean bivector to a bivector: the parts they share are added,
    /// the others are carried over.
    open spec fn add_spec(self, other: EBiVector3<T>) -> BiVector3<T> {
        BiVector3 {
            e01: self.e01,
            e02: self.e02,
            e03: self.e03,
            e12: self.e12.add_spec(other.e12),
            e31: self.e31.add_spec(other.e31),
            e23: self.e23.add_spec(other.e23),
        }
    }
}

impl<T: Num> Add<BiVector3<T>> for BiVector3<T> {
    type Output = BiVector3<T>;

    /// Returns the sum, `self.add_spec(other)`.
    fn add(self, other: BiVector3<T>) -> (r: BiVector3<T>) {
        proof {
            T::operators_are_total();
        }
        BiVector3 {
            e01: self.e01 + other.e01,
            e02: self.e02 + other.e02,
            e03: self.e03 + other.e03,
            e12: self.e12 + other.e12,
            e31: self.e31 + other.e31,
            e23: self.e23 + other.e23,
        }
    }
}

impl<T: Num> vstd::std_specs::ops::AddSpecImpl<BiVector3<T>> for BiVector3<T> {
    open spec fn obeys_add_spec() -> bool {
        true
    }

    open spec fn add_req(self, other: BiVector3<T>) -> bool {
        true
    }

    /// Adds coefficient by coefficient.
    open spec fn add_spec(self, other: BiVector3<T>) -> BiVector3<T> {
        BiVector3 {
            e01: self.e01.add_spec(other.e01),
            e02: self.e02.add_spec(other.e02),
            e03: self.e03.add_spec(other.e03),
            e12: self.e12.add_spec(other.e12),
            e31: self.e31.add_spec(other.e31),
            e23: self.e23.add_spec(other.e23),
        }
    }
}

impl<T: Num> Sub<XBiVector3<T>> for BiVector3<T> {
    type Output = BiVector3<T>;

    /// Returns the difference, `self.sub_spec(other)`.
    fn sub(self, other: XBiVector3<T>) -> (r: BiVector3<T>) {
        proof {
            T::operators_are_total();
        }
        BiVector3 {
            e01: self.e01 - other.e01,
            e02: self.e02 - other.e02,
            e03: self.e03 - other.e03,
            e12: self.e12,
            e31: self.e31,
            e23: self.e23,
        }
    }
}

impl<T: Num> vstd::std_specs::ops::SubSpecImpl<XBiVector3<T>> for BiVector3<T> {
    open spec fn obeys_sub_spec() -> bool {
        true
    }

    open spec fn sub_req(self, other: XBiVector3<T>) -> bool {
        true
    }

    /// Subtracts an ideal bivector from a bivector: the parts they share are subtracted,
    /// the others are carried over, those of the right operand negated.
    open spec fn sub_spec(self, other: XBiVector3<T>) -> BiVector3<T> {
        BiVector3 {
            e01: self.e01.sub_spec(other.e01),
            e02: self.e02.sub_spec(other.e02),
            e03: self.e03.sub_spec(other.e03),
            e12: self.e12,
            e31: self.e31,
            e23: self.e23,
        }
    }
}

impl<T: Num> Sub<EBiVector3<T>> for BiVector3<T> {
    type Output = BiVector3<T>;

    /// Returns the difference, `self.sub_spec(other)`.
    fn sub(self, other: EBiVector3<T>) -> (r: BiVector3<T>) {
        proof {
            T::operators_are_total();
        }
        BiVector3 {
            e01: self.e01,
            e02: self.e02,
            e03: self.e03,
            e12: self.e12 - other.e12,
            e31: self.e31 - other.e31,
            e23: self.e23 - other.e23,
        }
    }
}

impl<T: Num> vstd::std_specs::ops::SubSpecImpl<EBiVector3<T>> for BiVector3<T> {
    open spec fn obeys_sub_spec() -> bool {
        true
    }

    open spec fn sub_req(self, other: EBiVector3<T>) -> bool {
        true
    }

    /// Subtracts an Euclidean bivector from a bivector: the parts they share are subtracted,
    /// the others are carried over, those of the right operand negated.
    open spec fn sub_spec(self, other: EBiVector3<T>) -> BiVector3<T> {
        BiVector3 {
            e01: self.e01,
            e02: self.e02,
            e03: self.e03,
            e12: self.e12.sub_spec(other.e12),
            e31: self.e31.sub_spec(other.e31),
            e23: self.e23.sub_spec(other.e23),
        }
    }
}

impl<T: Num> Sub<BiVector3<T>> for BiVector3<T> {
    type Output = BiVector3<T>;

    /// Returns the difference, `self.sub_spec(other)`.
    fn sub(self, other: BiVector3<T>) -> (r: BiVector3<T>) {
        proof {
            T::operators_are_total();
        }
        BiVector3 {
            e01: self.e01 - other.e01,
            e02: self.e02 - other.e02,
            e03: self.e03 - other.e03,
            e12: self.e12 - other.e12,
            e31: self.e31 - other.e31,
            e23: self.e23 - other.e23,
        }
    }
}

impl<T: Num> vstd::std_specs::ops::SubSpecImpl<BiVector3<T>> for BiVector3<T> {
    open spec fn obeys_sub_spec() -> bool {
        true
    }

    open spec fn sub_req(self, other: BiVector3<T>) -> bool {
        true
    }

    /// Subtracts coefficient by coefficient.
    open spec fn sub_spec(self, other: BiVector3<T>) -> BiVector3<T> {
        BiVector3 {
            e01: self.e01.sub_spec(other.e01),
            e02: self.e02.sub_spec(other.e02),
            e03: self.e03.sub_spec(other.e03),
            e12: self.e12.sub_spec(other.e12),
            e31: self.e31.sub_spec(other.e31),
            e23: self.e23.sub_spec(other.e23),
        }
    }
}

impl<T: Num> BitOr<Vector3<T>> for BiVector3<T> {
    type Output = Vector3<T>;

    /// Returns the inner product, `self.bitor_spec(other)`.
    fn bitor(self, other: Vector3<T>) -> (r: Vector3<T>) {
        proof {
            T::operators_are_total();
        }
        Vector3 {
            e0: self.e01 * other.e1 + self.e02 * other.e2 + self.e03 * other.e3,
            e1: self.e12 * other.e2 - self.e31 * other.e3,
            e2: self.e23 * other.e3 - self.e12 * other.e1,
            e3: self.e31 * other.e1 - self.e23 * other.e2,
        }
    }
}

impl<T: Num> vstd::std_specs::ops::BitOrSpecImpl<Vector3<T>> for BiVector3<T> {
    open spec fn obeys_bitor_spec() -> bool {
        true
    }

    open spec fn bitor_req(self, other: Vector3<T>) -> bool {
        true
    }

    /// The inner product of a bivector and a vector, a vector.
    open spec fn bitor_spec(self, other: Vector3<T>) -> Vector3<T> {
        Vector3 {
            e0: self.e01.mul_spec(other.e1)
                .add_spec(self.e02.mul_spec(other.e2))
                .add_spec(self.e03.mul_spec(other.e3)),
            e1: self.e12.mul_spec(other.e2).sub_spec(self.e31.mul_spec(other.e3)),
            e2: self.e23.mul_spec(other.e3).sub_spec(self.e12.mul_spec(other.e1)),
            e3: self.e31.mul_spec(other.e1).sub_spec(self.e23.mul_spec(other.e2)),
        }
    }
}

impl<T: Num> BitOr<EBiVector3<T>> for BiVector3<T> {
    type Output = Scalar3<T>;

    /// Returns the inner product, `self.bitor_spec(other)`.
    fn bitor(self, other: EBiVector3<T>) -> (r: Scalar3<T>) {
        proof {
            T::operators_are_total();
        }
        Scalar3((self.e12 * other.e12 + self.e31 * other.e31 + self.e23 * other.e23).neg())
    }
}

impl<T: Num> vstd::std_specs::ops::BitOrSpecImpl<EBiVector3<T>> for BiVector3<T> {
    open spec fn obeys_bitor_spec() -> bool {
        true
    }

    open spec fn bitor_req(self, other: EBiVector3<T>) -> bool {
        true
    }

    /// The inner product of a bivector and an Euclidean bivector, a scalar.
    open spec fn bitor_spec(self, other: EBiVector3<T>) -> Scalar3<T> {
        Scalar3(self.e12.mul_spec(other.e12).add_spec(self.e31.mul_spec(other.e31)).add_spec(self.e23.mul_spec(other.e23)).neg_spec())
    }
}

impl<T: Num> BitOr<BiVector3<T>> for BiVector3<T> {
    type Output = Scalar3<T>;

    /// Returns the inner product, `self.bitor_spec(other)`.
    fn bitor(self, other: BiVector3<T>) -> (r: Scalar3<T>) {
        proof {
            T::operators_are_total();
        }
        Scalar3((self.e12 * other.e12 + self.e31 * other.e31 + self.e23 * other.e23).neg())
    }
}

impl<T: Num> vstd::std_specs::ops::BitOrSpecImpl<BiVector3<T>> for BiVector3<T> {
    open spec fn obeys_bitor_spec() -> bool {
        true
    }

    open spec fn bitor_req(self, other: BiVector3<T>) -> bool {
        true
    }

    /// The inner product of a bivector and a bivector, a scalar.
    open spec fn bitor_spec(self, other: BiVector3<T>) -> Scalar3<T> {
        Scalar3(self.e12.mul_spec(other.e12).add_spec(self.e31.mul_spec(other.e31)).add_spec(self.e23.mul_spec(other.e23)).neg_spec())
    }
}

impl<T: Num> BitOr<TriVector3<T>> for BiVector3<T> {
    type Output = Vector3<T>;

    /// Returns the inner product, `self.bitor_spec(other)`.
    fn bitor(self, other: TriVector3<T>) -> (r: Vector3<T>) {
        proof {
            T::operators_are_total();
        }
        Vector3 {
            e0: self.e12 * other.e021 + self.e31 * other.e013 + self.e23 * other.e032,
            e1: (self.e23 * other.e123).neg(),
            e2: (self.e31 * other.e123).neg(),
            e3: (self.e12 * other.e123).neg(),
        }
    }
}

impl<T: Num> vstd::std_specs::ops::BitOrSpecImpl<TriVector3<T>> for BiVector3<T> {
    open spec fn obeys_bitor_spec() -> bool {
        true
    }

    open spec fn bitor_req(self, other: TriVector3<T>) -> bool {
        true
    }

    /// The inner product of a bivector and a trivector, a vector.
    open spec fn bitor_spec(self, other: TriVector3<T>) -> Vector3<T> {
        Vector3 {
            e0: self.e12.mul_spec(other.e021)
                .add_spec(self.e31.mul_spec(other.e013))
                .add_spec(self.e23.mul_spec(other.e032)),
            e1: self.e23.mul_spec(other.e123).neg_spec(),
            e2: self.e31.mul_spec(other.e123).neg_spec(),
            e3: self.e12.mul_spec(other.e123).neg_spec(),
        }
    }
}

impl<T: Num> BitOr<Pseudo3<T>> for BiVector3<T> {
    type Output = XBiVector3<T>;

    /// Returns the inner product, `self.bitor_spec(other)`.
    fn bitor(self, other: Pseudo3<T>) -> (r: XBiVector3<T>) {
        proof {
            T::operators_are_total();
        }
        XBiVector3 {
            e01: (self.e23 * other.e0123).neg(),
            e02: (self.e31 * other.e0123).neg(),
            e03: (self.e12 * other.e0123).neg(),
        }
    }
}

impl<T: Num> vstd::std_specs::ops::BitOrSpecImpl<Pseudo3<T>> for BiVector3<T> {
    open spec fn obeys_bitor_spec() -> bool {
        true
    }

    open spec fn bitor_req(self, other: Pseudo3<T>) -> bool {
        true
    }

    /// The inner product of a bivector and a pseudoscalar, an ideal bivector.
    open spec fn bitor_spec(self, other: Pseudo3<T>) -> XBiVector3<T> {
        XBiVector3 {
            e01: self.e23.mul_spec(other.e0123).neg_spec(),
            e02: self.e31.mul_spec(other.e0123).neg_spec(),
            e03: self.e12.mul_spec(other.e0123).neg_spec(),
        }
    }
}

impl<T: Num> BitXor<Vector3<T>> for BiVector3<T> {
    type Output = TriVector3<T>;

    /// Returns the outer product, `self.bitxor_spec(other)`.
    fn bitxor(self, other: Vector3<T>) -> (r: TriVector3<T>) {
        proof {
            T::operators_are_total();
        }
        TriVector3 {
            e021: self.e02 * other.e1 - self.e01 * other.e2 - self.e12 * other.e0,
            e013: self.e01 * other.e3 - self.e03 * other.e1 - self.e31 * other.e0,
            e032: self.e03 * other.e2 - self.e02 * other.e3 - self.e23 * other.e0,
            e123: self.e12 * other.e3 + self.e31 * other.e2 + self.e23 * other.e1,
        }
    }
}

impl<T: Num> vstd::std_specs::ops::BitXorSpecImpl<Vector3<T>> for BiVector3<T> {
    open spec fn obeys_bitxor_spec() -> bool {
        true
    }

    open spec fn bitxor_req(self, other: Vector3<T>) -> bool {
        true
    }

    /// The outer product of a bivector and a vector, a trivector.
    open spec fn bitxor_spec(self, other: Vector3<T>) -> TriVector3<T> {
        TriVector3 {
            e021: self.e02.mul_spec(other.e1)
                .sub_spec(self.e01.mul_spec(other.e2))
                .sub_spec(self.e12.mul_spec(other.e0)),
            e013: self.e01.mul_spec(other.e3)
                .sub_spec(self.e03.mul_spec(other.e1))
                .sub_spec(self.e31.mul_spec(other.e0)),
            e032: self.e03.mul_spec(other.e2)
                .sub_spec(self.e02.mul_spec(other.e3))
                .sub_spec(self.e23.mul_spec(other.e0)),
            e123: self.e12.mul_spec(other.e3)
                .add_spec(self.e31.mul_spec(other.e2))
                .add_spec(self.e23.mul_spec(other.e1)),
        }
    }
}

impl<T: Num> BitXor<XBiVector3<T>> for BiVector3<T> {
    type Output = Pseudo3<T>;

    /// Returns the outer product, `self.bitxor_spec(other)`.
    fn bitxor(self, other: XBiVector3<T>) -> (r: Pseudo3<T>) {
        proof {
            T::operators_are_total();
        }
        Pseudo3 {
            e0123: self.e12 * other.e03 + self.e31 * other.e02 + self.e23 * other.e01,
        }
    }
}

impl<T: Num> vstd::std_specs::ops::BitXorSpecImpl<XBiVector3<T>> for BiVector3<T> {
    open spec fn obeys_bitxor_spec() -> bool {
        true
    }

    open spec fn bitxor_req(self, other: XBiVector3<T>) -> bool {
        true
    }

    /// The outer product of a bivector and an ideal bivector, a pseudoscalar.
    open spec fn bitxor_spec(self, other: XBiVector3<T>) -> Pseudo3<T> {
        Pseudo3 {
            e0123: self.e12.mul_spec(other.e03)
                .add_spec(self.e31.mul_spec(other.e02))
                .add_spec(self.e23.mul_spec(other.e01)),
        }
    }
}

impl<T: Num> BitXor<EBiVector3<T>> for BiVector3<T> {
    type Output = Pseudo3<T>;

    /// Returns the outer product, `self.bitxor_spec(other)`.
    fn bitxor(self, other: EBiVector3<T>) -> (r: Pseudo3<T>) {
        proof {
            T::operators_are_total();
        }
        Pseudo3 {
            e0123: self.e01 * other.e23 + self.e02 * other.e31 + self.e03 * other.e12,
        }
    }
}

impl<T: Num> vstd::std_specs::ops::BitXorSpecImpl<EBiVector3<T>> for BiVector3<T> {
    open spec fn obeys_bitxor_spec() -> bool {
        true
    }

    open spec fn bitxor_req(self, other: EBiVector3<T>) -> bool {
        true
    }

    /// The outer product of a bivector and an Euclidean bivector, a pseudoscalar.
    open spec fn bitxor_spec(self, other: EBiVector3<T>) -> Pseudo3<T> {
        Pseudo3 {
            e0123: self.e01.mul_spec(other.e23)
                .add_spec(self.e02.mul_spec(other.e31))
                .add_spec(self.e03.mul_spec(other.e12)),
        }
    }
}

impl<T: Num> BitXor<BiVector3<T>> for BiVector3<T> {
    type Output = Pseudo3<T>;

    /// Returns the outer product, `self.bitxor_spec(other)`.
    fn bitxor(self, other: BiVector3<T>) -> (r: Pseudo3<T>) {
        proof {
            T::operators_are_total();
        }
        Pseudo3 {
            e0123: self.e12 * other.e03
                + self.e31 * other.e02
                + self.e23 * other.e01
                + self.e01 * other.e23
                + self.e02 * other.e31
                + self.e03 * other.e12,
        }
    }
}

impl<T: Num> vstd::std_specs::ops::BitXorSpecImpl<BiVector3<T>> for BiVector3<T> {
    open spec fn obeys_bitxor_spec() -> bool {
        true
    }

    open spec fn bitxor_req(self, other: BiVector3<T>) -> bool {
        true
    }

    /// The outer product of a bivector and a bivector, a pseudoscalar.
    open spec fn bitxor_spec(self, other: BiVector3<T>) -> Pseudo3<T> {
        Pseudo3 {
            e0123: self.e12.mul_spec(other.e03)
                .add_spec(self.e31.mul_spec(other.e02))
                .add_spec(self.e23.mul_spec(other.e01))
                .add_spec(self.e01.mul_spec(other.e23))
                .add_spec(self.e02.mul_spec(other.e31))
                .add_spec(self.e03.mul_spec(other.e12)),
        }
    }
}

impl<T: Num> Mul<Scalar3<T>> for BiVector3<T> {
    type Output = BiVector3<T>;

    /// Returns the product, `self.mul_spec(other)`.
    fn mul(self, other: Scalar3<T>) -> (r: BiVector3<T>) {
        proof {
            T::operators_are_total();
        }
        BiVector3 {
            e01: self.e01 * other.0,
            e02: self.e02 * other.0,
            e03: self.e03 * other.0,
            e12: self.e12 * other.0,
            e31: self.e31 * other.0,
            e23: self.e23 * other.0,
        }
    }
}

impl<T: Num> vstd::std_specs::ops::MulSpecImpl<Scalar3<T>> for BiVector3<T> {
    open spec fn obeys_mul_spec() -> bool {
        true
    }

    open spec fn mul_req(self, other: Scalar3<T>) -> bool {
        true
    }

    /// The geometric product of a bivector and a scalar, a bivector.
    open spec fn mul_spec(self, other: Scalar3<T>) -> BiVector3<T> {
        BiVector3 {
            e01: self.e01.mul_spec(other.0),
            e02: self.e02.mul_spec(other.0),
            e03: self.e03.mul_spec(other.0),
            e12: self.e12.mul_spec(other.0),
            e31: self.e31.mul_spec(other.0),
            e23: self.e23.mul_spec(other.0),
        }
    }
}

impl<T: Num> BitOr<Scalar3<T>> for BiVector3<T> {
    type Output = BiVector3<T>;

    /// Returns the inner product, `self.bitor_spec(other)`.
    fn bitor(self, other: Scalar3<T>) -> (r: BiVector3<T>) {
        self * other
    }
}

impl<T: Num> vstd::std_specs::ops::BitOrSpecImpl<Scalar3<T>> for BiVector3<T> {
    open spec fn obeys_bitor_spec() -> bool {
        true
    }

    open spec fn bitor_req(self, other: Scalar3<T>) -> bool {
        true
    }

    /// The inner product of a bivector and a scalar, a bivector.
    open spec fn bitor_spec(self, other: Scalar3<T>) -> BiVector3<T> {
        self.mul_spec(other)
    }
}

impl<T: Num> BitXor<Scalar3<T>> for BiVector3<T> {
    type Output = BiVector3<T>;

    /// Returns the outer product, `self.bitxor_spec(other)`.
    fn bitxor(self, other: Scalar3<T>) -> (r: BiVector3<T>) {
        self * other
    }
}

impl<T: Num> vstd::std_specs::ops::BitXorSpecImpl<Scalar3<T>> for BiVector3<T> {
    open spec fn obeys_bitxor_spec() -> bool {
        true
    }

    open spec fn bitxor_req(self, other: Scalar3<T>) -> bool {
        true
    }

    /// The outer product of a bivector and a scalar, a bivector.
    open spec fn bitxor_spec(self, other: Scalar3<T>) -> BiVector3<T> {
        self.mul_spec(other)
    }
}

impl<T: Num> MulAssign<Scalar3<T>> for BiVector3<T> {
    /// Scales every coefficient by a scalar, in place.
    fn mul_assign(&mut self, other: Scalar3<T>)
        ensures
            *final(self) == old(self).mul_spec(other),
    {
        proof {
            T::operators_are_total();
        }
        self.e01 = self.e01 * other.0;
        self.e02 = self.e02 * other.0;
        self.e03 = self.e03 * other.0;
        self.e12 = self.e12 * other.0;
        self.e31 = self.e31 * other.0;
        self.e23 = self.e23 * other.0;
    }
}

impl<T: Num> Mul<Vector3<T>> for BiVector3<T> {
    type Output = (Vector3<T>, TriVector3<T>);

    /// Returns the geometric product, `self.mul_spec(other)`.
    fn mul(self, other: Vector3<T>) -> (r: (Vector3<T>, TriVector3<T>)) {
        (self | other, self ^ other)
    }
}

impl<T: Num> vstd::std_specs::ops::MulSpecImpl<Vector3<T>> for BiVector3<T> {
    open spec fn obeys_mul_spec() -> bool {
        true
    }

    open spec fn mul_req(self, other: Vector3<T>) -> bool {
        true
    }

    /// The geometric product of a bivector and a vector: its vector and trivector parts.
    open spec fn mul_spec(self, other: Vector3<T>) -> (Vector3<T>, TriVector3<T>) {
        (self.bitor_spec(other), self.bitxor_spec(other))
    }
}

impl<T: Num> Mul<XBiVector3<T>> for BiVector3<T> {
    type Output = (XBiVector3<T>, Pseudo3<T>);

    /// Returns the geometric product, `self.mul_spec(other)`.
    fn mul(self, other: XBiVector3<T>) -> (r: (XBiVector3<T>, Pseudo3<T>)) {
        proof {
            T::operators_are_total();
        }
        (
            XBiVector3 {
                e01: self.e12 * other.e02 - self.e31 * other.e03,
                e02: self.e23 * other.e03 - self.e12 * other.e01,
                e03: self.e31 * other.e01 - self.e23 * other.e02,
            },
            self ^ other,
        )
    }
}

impl<T: Num> vstd::std_specs::ops::MulSpecImpl<XBiVector3<T>> for BiVector3<T> {
    open spec fn obeys_mul_spec() -> bool {
        true
    }

    open spec fn mul_req(self, other: XBiVector3<T>) -> bool {
        true
    }

    /// The geometric product of a bivector and an ideal bivector: its ideal bivector and pseudoscalar parts.
    open spec fn mul_spec(self, other: XBiVector3<T>) -> (XBiVector3<T>, Pseudo3<T>) {
        (
            XBiVector3 {
                e01: self.e12.mul_spec(other.e02).sub_spec(self.e31.mul_spec(other.e03)),
                e02: self.e23.mul_spec(other.e03).sub_spec(self.e12.mul_spec(other.e01)),
                e03: self.e31.mul_spec(other.e01).sub_spec(self.e23.mul_spec(other.e02)),
            },
            self.bitxor_spec(other),
        )
    }
}

impl<T: Num> Mul<EBiVector3<T>> for BiVector3<T> {
    type Output = (Scalar3<T>, BiVector3<T>, Pseudo3<T>);

    /// Returns the geometric product, `self.mul_spec(other)`.
    fn mul(self, other: EBiVector3<T>) -> (r: (Scalar3<T>, BiVector3<T>, Pseudo3<T>)) {
        proof {
            T::operators_are_total();
        }
        (
            self | other,
            BiVector3 {
                e01: self.e03 * other.e31 - self.e02 * other.e12,
                e02: self.e01 * other.e12 - self.e03 * other.e23,
                e03: self.e02 * other.e23 - self.e01 * other.e31,
                e12: self.e31 * other.e23 - self.e23 * other.e31,
                e31: self.e23 * other.e12 - self.e12 * other.e23,
                e23: self.e12 * other.e31 - self.e31 * other.e12,
            },
            self ^ other,
        )
    }
}

impl<T: Num> vstd::std_specs::ops::MulSpecImpl<EBiVector3<T>> for BiVector3<T> {
    open spec fn obeys_mul_spec() -> bool {
        true
    }

    open spec fn mul_req(self, other: EBiVector3<T>) -> bool {
        true
    }

    /// The geometric product of a bivector and an Euclidean bivector: its scalar, bivector and pseudoscalar parts.
    open spec fn mul_spec(self, other: EBiVector3<T>) -> (Scalar3<T>, BiVector3<T>, Pseudo3<T>) {
        (
            self.bitor_spec(other),
            BiVector3 {
                e01: self.e03.mul_spec(other.e31).sub_spec(self.e02.mul_spec(other.e12)),
                e02: self.e01.mul_spec(other.e12).sub_spec(self.e03.mul_spec(other.e23)),
                e03: self.e02.mul_spec(other.e23).sub_spec(self.e01.mul_spec(other.e31)),
                e12: self.e31.mul_spec(other.e23).sub_spec(self.e23.mul_spec(other.e31)),
                e31: self.e23.mul_spec(other.e12).sub_spec(self.e12.mul_spec(other.e23)),
                e23: self.e12.mul_spec(other.e31).sub_spec(self.e31.mul_spec(other.e12)),
            },
            self.bitxor_spec(other),
        )
    }
}

impl<T: Num> Mul<BiVector3<T>> for BiVector3<T> {
    type Output = (Scalar3<T>, BiVector3<T>, Pseudo3<T>);

    /// Returns the geometric product, `self.mul_spec(other)`.
    fn mul(self, other: BiVector3<T>) -> (r: (Scalar3<T>, BiVector3<T>, Pseudo3<T>)) {
        proof {
            T::operators_are_total();
        }
        (
            self | other,
            BiVector3 {
                e01: self.e03 * other.e31
                    - self.e02 * other.e12
                    + self.e12 * other.e02
                    - self.e31 * other.e03,
                e02: self.e01 * other.e12
                    - self.e03 * other.e23
                    + self.e23 * other.e03
                    - self.e12 * other.e01,
                e03: self.e02 * other.e23
                    - self.e01 * other.e31
                    + self.e31 * other.e01
                    - self.e23 * other.e02,
                e12: self.e31 * other.e23 - self.e23 * other.e31,
                e31: self.e23 * other.e12 - self.e12 * other.e23,
                e23: self.e12 * other.e31 - self.e31 * other.e12,
            },
            self ^ other,
        )
    }
}

impl<T: Num> vstd::std_specs::ops::MulSpecImpl<BiVector3<T>> for BiVector3<T> {
    open spec fn obeys_mul_spec() -> bool {
        true
    }

    open spec fn mul_req(self, other: BiVector3<T>) -> bool {
        true
    }

    /// The geometric product of a bivector and a bivector: its scalar, bivector and pseudoscalar parts.
    open spec fn mul_spec(self, other: BiVector3<T>) -> (Scalar3<T>, BiVector3<T>, Pseudo3<T>) {
        (
            self.bitor_spec(other),
            BiVector3 {
                e01: self.e03.mul_spec(other.e31)
                    .sub_spec(self.e02.mul_spec(other.e12))
                    .add_spec(self.e12.mul_spec(other.e02))
                    .sub_spec(self.e31.mul_spec(other.e03)),
                e02: self.e01.mul_spec(other.e12)
                    .sub_spec(self.e03.mul_spec(other.e23))
                    .add_spec(self.e23.mul_spec(other.e03))
                    .sub_spec(self.e12.mul_spec(other.e01)),
                e03: self.e02.mul_spec(other.e23)
                    .sub_spec(self.e01.mul_spec(other.e31))
                    .add_spec(self.e31.mul_spec(other.e01))
                    .sub_spec(self.e23.mul_spec(other.e02)),
                e12: self.e31.mul_spec(other.e23).sub_spec(self.e23.mul_spec(other.e31)),
                e31: self.e23.mul_spec(other.e12).sub_spec(self.e12.mul_spec(other.e23)),
                e23: self.e12.mul_spec(other.e31).sub_spec(self.e31.mul_spec(other.e12)),
            },
            self.bitxor_spec(other),
        )
    }
}

impl<T: Num> Mul<TriVector3<T>> for BiVector3<T> {
    type Output = (Vector3<T>, TriVector3<T>);

    /// Returns the geometric product, `self.mul_spec(other)`.
    fn mul(self, other: TriVector3<T>) -> (r: (Vector3<T>, TriVector3<T>)) {
        proof {
            T::operators_are_total();
        }
        (
            self | other,
            TriVector3 {
                e021: self.e31 * other.e032 - self.e23 * other.e013 - self.e03 * other.e123,
                e013: self.e23 * other.e021 - self.e12 * other.e032 - self.e02 * other.e123,
                e032: self.e12 * other.e013 - self.e31 * other.e021 - self.e01 * other.e123,
                e123: T::ZERO,
            },
        )
    }
}

impl<T: Num> vstd::std_specs::ops::MulSpecImpl<TriVector3<T>> for BiVector3<T> {
    open spec fn obeys_mul_spec() -> bool {
        true
    }

    open spec fn mul_req(self, other: TriVector3<T>) -> bool {
        true
    }

    /// The geometric product of a bivector and a trivector: its vector and trivector parts.
    open spec fn mul_spec(self, other: TriVector3<T>) -> (Vector3<T>, TriVector3<T>) {
        (
            self.bitor_spec(other),
            TriVector3 {
                e021: self.e31.mul_spec(other.e032)
                    .sub_spec(self.e23.mul_spec(other.e013))
                    .sub_spec(self.e03.mul_spec(other.e123)),
                e013: self.e23.mul_spec(other.e021)
                    .sub_spec(self.e12.mul_spec(other.e032))
                    .sub_spec(self.e02.mul_spec(other.e123)),
                e032: self.e12.mul_spec(other.e013)
                    .sub_spec(self.e31.mul_spec(other.e021))
                    .sub_spec(self.e01.mul_spec(other.e123)),
                e123: T::ZERO,
            },
        )
    }
}

impl<T: Num> Mul<Pseudo3<T>> for BiVector3<T> {
    type Output = XBiVector3<T>;

    /// Returns the geometric product, `self.mul_spec(other)`.
    fn mul(self, other: Pseudo3<T>) -> (r: XBiVector3<T>) {
        self | other
    }
}

impl<T: Num> vstd::std_specs::ops::MulSpecImpl<Pseudo3<T>> for BiVector3<T> {
    open spec fn obeys_mul_spec() -> bool {
        true
    }

    open spec fn mul_req(self, other: Pseudo3<T>) -> bool {
        true
    }

    /// The geometric product of a bivector and a pseudoscalar, an ideal bivector.
    open spec fn mul_spec(self, other: Pseudo3<T>) -> XBiVector3<T> {
        self.bitor_spec(other)
    }
}

impl<T: Num> Div<Scalar3<T>> for BiVector3<T> {
    type Output = BiVector3<T>;

    /// Returns the quotient, `self.div_spec(other)`.
    fn div(self, other: Scalar3<T>) -> (r: BiVector3<T>) {
        proof {
            T::operators_are_total();
        }
        BiVector3 {
            e01: self.e01 / other.0,
            e02: self.e02 / other.0,
            e03: self.e03 / other.0,
            e12: self.e12 / other.0,
            e31: self.e31 / other.0,
            e23: self.e23 / other.0,
        }
    }
}

impl<T: Num> vstd::std_specs::ops::DivSpecImpl<Scalar3<T>> for BiVector3<T> {
    open spec fn obeys_div_spec() -> bool {
        true
    }

    open spec fn div_req(self, other: Scalar3<T>) -> bool {
        true
    }

    /// Divides every coefficient by a scalar.
    open spec fn div_spec(self, other: Scalar3<T>) -> BiVector3<T> {
        BiVector3 {
            e01: self.e01.div_spec(other.0),
            e02: self.e02.div_spec(other.0),
            e03: self.e03.div_spec(other.0),
            e12: self.e12.div_spec(other.0),
            e31: self.e31.div_spec(other.0),
            e23: self.e23.div_spec(other.0),
        }
    }
}

impl<T: Num> DivAssign<Scalar3<T>> for BiVector3<T> {
    /// Divides every coefficient by a scalar, in place.
    fn div_assign(&mut self, other: Scalar3<T>)
        ensures
            *final(self) == old(self).div_spec(other),
    {
        proof {
            T::operators_are_total();
        }
        self.e01 = self.e01 / other.0;
        self.e02 = self.e02 / other.0;
        self.e03 = self.e03 / other.0;
        self.e12 = self.e12 / other.0;
        self.e31 = self.e31 / other.0;
        self.e23 = self.e23 / other.0;
    }
}

} // verus!
