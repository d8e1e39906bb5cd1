//! Trivectors: the elements of grade 3, points of space.

use core::ops::{Add, BitOr, BitXor, Div, DivAssign, Mul, MulAssign, Neg, Not, Sub};
use vstd::prelude::*;
use vstd::std_specs::cmp::PartialEqSpec;
use vstd::std_specs::ops::{AddSpec, BitOrSpec, BitXorSpec, DivSpec, MulSpec, NegSpec, NotSpec, SubSpec};

use crate::pga::elements::{BiVector3, Dual, EBiVector3, Pseudo3, Scalar3, Vector3, XBiVector3};
use crate::scalar::Num;

verus! {

/// A trivector of the space's algebra: the element of grade 3.
///
/// It stands for a point. A trivector of weight zero is a point at
/// infinity: a direction.
#[derive(Clone, Copy, Debug, PartialEq)]
pub struct TriVector3<T> {
    /// The `z` coordinate, times the weight.
    pub e021: T,
    /// The `y` coordinate, times the weight.
    pub e013: T,
    /// The `x` coordinate, times the weight.
    pub e032: T,
    /// The weight.
    pub e123: T,
}

impl<T> TriVector3<T> {
    /// Creates a trivector from its coefficients.
    pub fn new(e021: T, e013: T, e032: T, e123: T) -> (r: Self)
        ensures
            r == (TriVector3 { e021, e013, e032, e123 }),
    {
        TriVector3 { e021, e013, e032, e123 }
    }
}

impl<T: Num> TriVector3<T> {
    /// The trivector whose coefficients are all zero.
    pub fn zero() -> (r: Self)
        ensures
            r == (TriVector3 {
                e021: T::ZERO,
                e013: T::ZERO,
                e032: T::ZERO,
                e123: T::ZERO,
            }),
    {
        TriVector3 {
            e021: T::ZERO,
            e013: T::ZERO,
            e032: T::ZERO,
            e123: T::ZERO,
        }
    }
}

impl<T: Num> Neg for TriVector3<T> {
    type Output = TriVector3<T>;

    /// Returns the negation, `self.neg_spec()`.
    fn neg(self) -> (r: TriVector3<T>) {
        proof {
            T::operators_are_total();
        }
        TriVector3 {
            e021: self.e021.neg(),
            e013: self.e013.neg(),
            e032: self.e032.neg(),
            e123: self.e123.neg(),
        }
    }
}

impl<T: Num> vstd::std_specs::ops::NegSpecImpl for TriVector3<T> {
    open spec fn obeys_neg_spec() -> bool {
        true
    }

    open spec fn neg_req(self) -> bool {
        true
    }

    /// Negates every coefficient.
    open spec fn neg_spec(self) -> TriVector3<T> {
        TriVector3 {
            e021: self.e021.neg_spec(),
            e013: self.e013.neg_spec(),
            e032: self.e032.neg_spec(),
            e123: self.e123.neg_spec(),
        }
    }
}

impl<T: Num> Not for TriVector3<T> {
    type Output = TriVector3<T>;

    /// Returns the reverse, `self.not_spec()`.
    fn not(self) -> (r: TriVector3<T>) {
        self.neg()
    }
}

impl<T: Num> vstd::std_specs::ops::NotSpecImpl for TriVector3<T> {
    open spec fn obeys_not_spec() -> bool {
        true
    }

    open spec fn not_req(self) -> bool {
        true
    }

    /// The reverse of a trivector is its negation.
    open spec fn not_spec(self) -> TriVector3<T> {
        self.neg_spec()
    }
}

impl<T: Num> Dual for TriVector3<T> {
    type Output = Vector3<T>;

    /// The dual of a trivector is the vector that carries the same coefficients
    /// on the complementary basis elements.
    open spec fn dual_spec(self) -> Vector3<T> {
        Vector3 {
            e0: self.e123,
            e1: self.e032,
            e2: self.e013,
            e3: self.e021,
        }
    }

    /// Returns the dual, `self.dual_spec()`.
    fn dual(self) -> (r: Vector3<T>) {
        Vector3 {
            e0: self.e123,
            e1: self.e032,
            e2: self.e013,
            e3: self.e021,
        }
    }
}

impl<T: Num> Mul<T> for TriVector3<T> {
    type Output = TriVector3<T>;

    /// Returns the product, `self.mul_spec(rhs)`.
    fn mul(self, rhs: T) -> (r: TriVector3<T>) {
        proof {
            T::operators_are_total();
        }
        TriVector3 {
            e021: self.e021 * rhs,
            e013: self.e013 * rhs,
            e032: self.e032 * rhs,
            e123: self.e123 * rhs,
        }
    }
}

impl<T: Num> vstd::std_specs::ops::MulSpecImpl<T> for TriVector3<T> {
    open spec fn obeys_mul_spec() -> bool {
        true
    }

    open spec fn mul_req(self, rhs: T) -> bool {
        true
    }

    /// Scales every coefficient by `rhs`.
    open spec fn mul_spec(self, rhs: T) -> TriVector3<T> {
        TriVector3 {
            e021: self.e021.mul_spec(rhs),
            e013: self.e013.mul_spec(rhs),
            e032: self.e032.mul_spec(rhs),
            e123: self.e123.mul_spec(rhs),
        }
    }
}

impl<T: Num> MulAssign<T> for TriVector3<T> {
    /// Scales every coefficient by `rhs`, in place.
    fn mul_assign(&mut self, rhs: T)
        ensures
            *final(self) == old(self).mul_spec(rhs),
    {
        proof {
            T::operators_are_total();
        }
        self.e021 = self.e021 * rhs;
        self.e013 = self.e013 * rhs;
        self.e032 = self.e032 * rhs;
        self.e123 = self.e123 * rhs;
    }
}

impl<T: Num> Div<T> for TriVector3<T> {
    type Output = TriVector3<T>;

    /// Returns the quotient, `self.div_spec(rhs)`.
    fn div(self, rhs: T) -> (r: TriVector3<T>) {
        proof {
            T::operators_are_total();
        }
        TriVector3 {
            e021: self.e021 / rhs,
            e013: self.e013 / rhs,
            e032: self.e032 / rhs,
            e123: self.e123 / rhs,
        }
    }
}

impl<T: Num> vstd::std_specs::ops::DivSpecImpl<T> for TriVector3<T> {
    open spec fn obeys_div_spec() -> bool {
        true
    }

    open spec fn div_req(self, rhs: T) -> bool {
        true
    }

    /// Divides every coefficient by `rhs`.
    open spec fn div_spec(self, rhs: T) -> TriVector3<T> {
        TriVector3 {
            e021: self.e021.div_spec(rhs),
            e013: self.e013.div_spec(rhs),
            e032: self.e032.div_spec(rhs),
            e123: self.e123.div_spec(rhs),
        }
    }
}

impl<T: Num> TriVector3<T> {
    /// The squared norm: the square of the weight `e123`.
    pub open spec fn norm2_spec(self) -> T {
        self.e123.mul_spec(self.e123)
    }

    /// The norm: the absolute value of the weight `e123`.
    pub open spec fn norm_spec(self) -> T {
        self.e123.abs_spec()
    }

    /// The trivector divided by its norm. One whose norm compares equal to zero
    /// is left as it is.
    pub open spec fn normalized_spec(self) -> Self {
        if self.norm_spec().eq_spec(&T::ZERO) {
            self
        } else {
            self.div_spec(self.norm_spec())
        }
    }

    /// Returns the squared norm of the trivector.
    pub fn norm2(&self) -> (r: T)
        ensures
            r == self.norm2_spec(),
    {
        proof {
            T::operators_are_total();
        }
        self.e123 * self.e123
    }

    /// Returns the norm of the trivector.
    pub fn norm(&self) -> (r: T)
        ensures
            r == self.norm_spec(),
    {
        self.e123.abs()
    }

    /// Divides the trivector by its norm, unless the norm vanishes.
    pub fn normalize(&mut self)
        ensures
            *final(self) == old(self).normalized_spec(),
    {
        proof {
            T::operators_are_total();
        }
        let norm = self.norm();
        if norm != T::ZERO {
            self.e021 = self.e021 / norm;
            self.e013 = self.e013 / norm;
            self.e032 = self.e032 / norm;
            self.e123 = self.e123 / norm;
        }
    }

    /// Returns the trivector divided by its norm, or the trivector itself where
    /// the norm vanishes.
    pub fn normalized(&self) -> (r: Self)
        ensures
            r == self.normalized_spec(),
    {
        let mut r = *self;
        r.normalize();
        r
    }
}

impl<T: Num> DivAssign<T> for TriVector3<T> {
    /// Divides every coefficient by `rhs`, in place.
    fn div_assign(&mut self, rhs: T)
        ensures
            *final(self) == old(self).div_spec(rhs),
    {
        proof {
            T::operators_are_total();
        }
        self.e021 = self.e021 / rhs;
        self.e013 = self.e013 / rhs;
        self.e032 = self.e032 / rhs;
        self.e123 = self.e123 / rhs;
    }
}

impl<T: Num> Add<TriVector3<T>> for TriVector3<T> {
    type Output = TriVector3<T>;

    /// Returns the sum, `self.add_spec(rhs)`.
    fn add(self, rhs: TriVector3<T>) -> (r: TriVector3<T>) {
        proof {
            T::operators_are_total();
        }
        TriVector3 {
            e021: self.e021 + rhs.e021,
            e013: self.e013 + rhs.e013,
            e032: self.e032 + rhs.e032,
            e123: self.e123 + rhs.e123,
        }
    }
}

impl<T: Num> vstd::std_specs::ops::AddSpecImpl<TriVector3<T>> for TriVector3<T> {
    open spec fn obeys_add_spec() -> bool {
        true
    }

    open spec fn add_req(self, rhs: TriVector3<T>) -> bool {
        true
    }

    /// Adds coefficient by coefficient.
    open spec fn add_spec(self, rhs: TriVector3<T>) -> TriVector3<T> {
        TriVector3 {
            e021: self.e021.add_spec(rhs.e021),
            e013: self.e013.add_spec(rhs.e013),
            e032: self.e032.add_spec(rhs.e032),
            e123: self.e123.add_spec(rhs.e123),
        }
    }
}

impl<T: Num> Sub<TriVector3<T>> for TriVector3<T> {
    type Output = TriVector3<T>;

    /// Returns the difference, `self.sub_spec(rhs)`.
    fn sub(self, rhs: TriVector3<T>) -> (r: TriVector3<T>) {
        proof {
            T::operators_are_total();
        }
        TriVector3 {
            e021: self.e021 - rhs.e021,
            e013: self.e013 - rhs.e013,
            e032: self.e032 - rhs.e032,
            e123: self.e123 - rhs.e123,
        }
    }
}

impl<T: Num> vstd::std_specs::ops::SubSpecImpl<TriVector3<T>> for TriVector3<T> {
    open spec fn obeys_sub_spec() -> bool {
        true
    }

    open spec fn sub_req(self, rhs: TriVector3<T>) -> bool {
        true
    }

    /// Subtracts coefficient by coefficient.
    open spec fn sub_spec(self, rhs: TriVector3<T>) -> TriVector3<T> {
        TriVector3 {
            e021: self.e021.sub_spec(rhs.e021),
            e013: self.e013.sub_spec(rhs.e013),
            e032: self.e032.sub_spec(rhs.e032),
            e123: self.e123.sub_spec(rhs.e123),
        }
    }
}

impl<T: Num> BitOr<Vector3<T>> for TriVector3<T> {
    type Output = BiVector3<T>;

    /// Returns the inner product, `self.bitor_spec(other)`.
    fn bitor(self, other: Vector3<T>) -> (r: BiVector3<T>) {
        proof {
            T::operators_are_total();
        }
        BiVector3 {
            e01: self.e013 * other.e3 - self.e021 * other.e2,
            e02: self.e021 * other.e1 - self.e032 * other.e3,
            e03: self.e032 * other.e2 - self.e013 * other.e1,
            e12: self.e123 * other.e3,
            e31: self.e123 * other.e2,
            e23: self.e123 * other.e1,
        }
    }
}

impl<T: Num> vstd::std_specs::ops::BitOrSpecImpl<Vector3<T>> for TriVector3<T> {
    open spec fn obeys_bitor_spec() -> bool {
        true
    }

    open spec fn bitor_req(self, other: Vector3<T>) -> bool {
        true
    }

    /// The inner product of a trivector and a vector, a bivector.
    open spec fn bitor_spec(self, other: Vector3<T>) -> BiVector3<T> {
        BiVector3 {
            e01: self.e013.mul_spec(other.e3).sub_spec(self.e021.mul_spec(other.e2)),
            e02: self.e021.mul_spec(other.e1).sub_spec(self.e032.mul_spec(other.e3)),
            e03: self.e032.mul_spec(other.e2).sub_spec(self.e013.mul_spec(other.e1)),
            e12: self.e123.mul_spec(other.e3),
            e31: self.e123.mul_spec(other.e2),
            e23: self.e123.mul_spec(other.e1),
        }
    }
}

impl<T: Num> BitOr<EBiVector3<T>> for TriVector3<T> {
    type Output = Vector3<T>;

    /// Returns the inner product, `self.bitor_spec(other)`.
    fn bitor(self, other: EBiVector3<T>) -> (r: Vector3<T>) {
        proof {
            T::operators_are_total();
        }
        Vector3 {
            e0: self.e021 * other.e12 + self.e013 * other.e31 + self.e032 * other.e23,
            e1: (self.e123 * other.e23).neg(),
            e2: (self.e123 * other.e31).neg(),
            e3: (self.e123 * other.e12).neg(),
        }
    }
}

impl<T: Num> vstd::std_specs::ops::BitOrSpecImpl<EBiVector3<T>> for TriVector3<T> {
    open spec fn obeys_bitor_spec() -> bool {
        true
    }

    open spec fn bitor_req(self, other: EBiVector3<T>) -> bool {
        true
    }

    /// The inner product of a trivector and an Euclidean bivector, a vector.
    open spec fn bitor_spec(self, other: EBiVector3<T>) -> Vector3<T> {
        Vector3 {
            e0: self.e021.mul_spec(other.e12)
                .add_spec(self.e013.mul_spec(other.e31))
                .add_spec(self.e032.mul_spec(other.e23)),
            e1: self.e123.mul_spec(other.e23).neg_spec(),
            e2: self.e123.mul_spec(other.e31).neg_spec(),
            e3: self.e123.mul_spec(other.e12).neg_spec(),
        }
    }
}

impl<T: Num> BitOr<BiVector3<T>> for TriVector3<T> {
    type Output = Vector3<T>;

    /// Returns the inner product, `self.bitor_spec(other)`.
    fn bitor(self, other: BiVector3<T>) -> (r: Vector3<T>) {
        proof {
            T::operators_are_total();
        }
        Vector3 {
            e0: self.e021 * other.e12 + self.e013 * other.e31 + self.e032 * other.e23,
            e1: (self.e123 * other.e23).neg(),
            e2: (self.e123 * other.e31).neg(),
            e3: (self.e123 * other.e12).neg(),
        }
    }
}

impl<T: Num> vstd::std_specs::ops::BitOrSpecImpl<BiVector3<T>> for TriVector3<T> {
    open spec fn obeys_bitor_spec() -> bool {
        true
    }

    open spec fn bitor_req(self, other: BiVector3<T>) -> bool {
        true
    }

    /// The inner product of a trivector and a bivector, a vector.
    open spec fn bitor_spec(self, other: BiVector3<T>) -> Vector3<T> {
        Vector3 {
            e0: self.e021.mul_spec(other.e12)
                .add_spec(self.e013.mul_spec(other.e31))
                .add_spec(self.e032.mul_spec(other.e23)),
            e1: self.e123.mul_spec(other.e23).neg_spec(),
            e2: self.e123.mul_spec(other.e31).neg_spec(),
            e3: self.e123.mul_spec(other.e12).neg_spec(),
        }
    }
}

impl<T: Num> BitOr<TriVector3<T>> for TriVector3<T> {
    type Output = Scalar3<T>;

    /// Returns the inner product, `self.bitor_spec(other)`.
    fn bitor(self, other: TriVector3<T>) -> (r: Scalar3<T>) {
        proof {
            T::operators_are_total();
        }
        Scalar3((self.e123 * other.e123).neg())
    }
}

impl<T: Num> vstd::std_specs::ops::BitOrSpecImpl<TriVector3<T>> for TriVector3<T> {
    open spec fn obeys_bitor_spec() -> bool {
        true
    }

    open spec fn bitor_req(self, other: TriVector3<T>) -> bool {
        true
    }

    /// The inner product of a trivector and a trivector, a scalar.
    open spec fn bitor_spec(self, other: TriVector3<T>) -> Scalar3<T> {
        Scalar3(self.e123.mul_spec(other.e123).neg_spec())
    }
}

impl<T: Num> BitOr<Pseudo3<T>> for TriVector3<T> {
    type Output = Vector3<T>;

    /// Returns the inner product, `self.bitor_spec(other)`.
    fn bitor(self, other: Pseudo3<T>) -> (r: Vector3<T>) {
        proof {
            T::operators_are_total();
        }
        Vector3 {
            e0: self.e123 * other.e0123,
            e1: T::ZERO,
            e2: T::ZERO,
            e3: T::ZERO,
        }
    }
}

impl<T: Num> vstd::std_specs::ops::BitOrSpecImpl<Pseudo3<T>> for TriVector3<T> {
    open spec fn obeys_bitor_spec() -> bool {
        true
    }

    open spec fn bitor_req(self, other: Pseudo3<T>) -> bool {
        true
    }

    /// The inner product of a trivector and a pseudoscalar, a vector.
    open spec fn bitor_spec(self, other: Pseudo3<T>) -> Vector3<T> {
        Vector3 {
            e0: self.e123.mul_spec(other.e0123),
            e1: T::ZERO,
            e2: T::ZERO,
            e3: T::ZERO,
        }
    }
}

impl<T: Num> BitXor<Vector3<T>> for TriVector3<T> {
    type Output = Pseudo3<T>;

    /// Returns the outer product, `self.bitxor_spec(other)`.
    fn bitxor(self, other: Vector3<T>) -> (r: Pseudo3<T>) {
        proof {
            T::operators_are_total();
        }
        Pseudo3 {
            e0123: (self.e021 * other.e3 + self.e013 * other.e2 + self.e032 * other.e1 + self.e123 * other.e0).neg(),
        }
    }
}

impl<T: Num> vstd::std_specs::ops::BitXorSpecImpl<Vector3<T>> for TriVector3<T> {
    open spec fn obeys_bitxor_spec() -> bool {
        true
    }

    open spec fn bitxor_req(self, other: Vector3<T>) -> bool {
        true
    }

    /// The outer product of a trivector and a vector, a pseudoscalar.
    open spec fn bitxor_spec(self, other: Vector3<T>) -> Pseudo3<T> {
        Pseudo3 {
            e0123: self.e021.mul_spec(other.e3)
                .add_spec(self.e013.mul_spec(other.e2))
                .add_spec(self.e032.mul_spec(other.e1))
                .add_spec(self.e123.mul_spec(other.e0)).neg_spec(),
        }
    }
}

impl<T: Num> Mul<Scalar3<T>> for TriVector3<T> {
    type Output = TriVector3<T>;

    /// Returns the product, `self.mul_spec(other)`.
    fn mul(self, other: Scalar3<T>) -> (r: TriVector3<T>) {
        proof {
            T::operators_are_total();
        }
        TriVector3 {
            e021: self.e021 * other.0,
            e013: self.e013 * other.0,
            e032: self.e032 * other.0,
            e123: self.e123 * other.0,
        }
    }
}

impl<T: Num> vstd::std_specs::ops::MulSpecImpl<Scalar3<T>> for TriVector3<T> {
    open spec fn obeys_mul_spec() -> bool {
        true
    }

    open spec fn mul_req(self, other: Scalar3<T>) -> bool {
        true
    }

    /// The geometric product of a trivector and a scalar, a trivector.
    open spec fn mul_spec(self, other: Scalar3<T>) -> TriVector3<T> {
        TriVector3 {
            e021: self.e021.mul_spec(other.0),
            e013: self.e013.mul_spec(other.0),
            e032: self.e032.mul_spec(other.0),
            e123: self.e123.mul_spec(other.0),
        }
    }
}

impl<T: Num> BitOr<Scalar3<T>> for TriVector3<T> {
    type Output = TriVector3<T>;

    /// Returns the inner product, `self.bitor_spec(other)`.
    fn bitor(self, other: Scalar3<T>) -> (r: TriVector3<T>) {
        self * other
    }
}

impl<T: Num> vstd::std_specs::ops::BitOrSpecImpl<Scalar3<T>> for TriVector3<T> {
    open spec fn obeys_bitor_spec() -> bool {
        true
    }

    open spec fn bitor_req(self, other: Scalar3<T>) -> bool {
        true
    }

    /// The inner product of a trivector and a scalar, a trivector.
    open spec fn bitor_spec(self, other: Scalar3<T>) -> TriVector3<T> {
        self.mul_spec(other)
    }
}

impl<T: Num> BitXor<Scalar3<T>> for TriVector3<T> {
    type Output = TriVector3<T>;

    /// Returns the outer product, `self.bitxor_spec(other)`.
    fn bitxor(self, other: Scalar3<T>) -> (r: TriVector3<T>) {
        self * other
    }
}

impl<T: Num> vstd::std_specs::ops::BitXorSpecImpl<Scalar3<T>> for TriVector3<T> {
    open spec fn obeys_bitxor_spec() -> bool {
        true
    }

    open spec fn bitxor_req(self, other: Scalar3<T>) -> bool {
        true
    }

    /// The outer product of a trivector and a scalar, a trivector.
    open spec fn bitxor_spec(self, other: Scalar3<T>) -> TriVector3<T> {
        self.mul_spec(other)
    }
}

impl<T: Num> MulAssign<Scalar3<T>> for TriVector3<T> {
    /// Scales every coefficient by a scalar, in place.
    fn mul_assign(&mut self, other: Scalar3<T>)
        ensures
            *final(self) == old(self).mul_spec(other),
    {
        proof {
            T::operators_are_total();
        }
        self.e021 = self.e021 * other.0;
        self.e013 = self.e013 * other.0;
        self.e032 = self.e032 * other.0;
        self.e123 = self.e123 * other.0;
    }
}

impl<T: Num> Mul<Vector3<T>> for TriVector3<T> {
    type Output = (BiVector3<T>, Pseudo3<T>);

    /// Returns the geometric product, `self.mul_spec(other)`.
    fn mul(self, other: Vector3<T>) -> (r: (BiVector3<T>, Pseudo3<T>)) {
        (self | other, self ^ other)
    }
}

impl<T: Num> vstd::std_specs::ops::MulSpecImpl<Vector3<T>> for TriVector3<T> {
    open spec fn obeys_mul_spec() -> bool {
        true
    }

    open spec fn mul_req(self, other: Vector3<T>) -> bool {
        true
    }

    /// The geometric product of a trivector and a vector: its bivector and pseudoscalar parts.
    open spec fn mul_spec(self, other: Vector3<T>) -> (BiVector3<T>, Pseudo3<T>) {
        (self.bitor_spec(other), self.bitxor_spec(other))
    }
}

impl<T: Num> Mul<XBiVector3<T>> for TriVector3<T> {
    type Output = TriVector3<T>;

    /// Returns the geometric product, `self.mul_spec(other)`.
    fn mul(self, other: XBiVector3<T>) -> (r: TriVector3<T>) {
        proof {
            T::operators_are_total();
        }
        TriVector3 {
            e021: self.e123 * other.e03,
            e013: self.e123 * other.e02,
            e032: self.e123 * other.e01,
            e123: T::ZERO,
        }
    }
}

impl<T: Num> vstd::std_specs::ops::MulSpecImpl<XBiVector3<T>> for TriVector3<T> {
    open spec fn obeys_mul_spec() -> bool {
        true
    }

    open spec fn mul_req(self, other: XBiVector3<T>) -> bool {
        true
    }

    /// The geometric product of a trivector and an ideal bivector, a trivector.
    open spec fn mul_spec(self, other: XBiVector3<T>) -> TriVector3<T> {
        TriVector3 {
            e021: self.e123.mul_spec(other.e03),
            e013: self.e123.mul_spec(other.e02),
            e032: self.e123.mul_spec(other.e01),
            e123: T::ZERO,
        }
    }
}

impl<T: Num> Mul<EBiVector3<T>> for TriVector3<T> {
    type Output = (Vector3<T>, TriVector3<T>);

    /// Returns the geometric product, `self.mul_spec(other)`.
    fn mul(self, other: EBiVector3<T>) -> (r: (Vector3<T>, TriVector3<T>)) {
        proof {
            T::operators_are_total();
        }
        (
            self | other,
            TriVector3 {
                e021: self.e013 * other.e23 - self.e032 * other.e31,
                e013: self.e032 * other.e12 - self.e021 * other.e23,
                e032: self.e021 * other.e31 - self.e013 * other.e12,
                e123: T::ZERO,
            },
        )
    }
}

impl<T: Num> vstd::std_specs::ops::MulSpecImpl<EBiVector3<T>> for TriVector3<T> {
    open spec fn obeys_mul_spec() -> bool {
        true
    }

    open spec fn mul_req(self, other: EBiVector3<T>) -> bool {
        true
    }

    /// The geometric product of a trivector and an Euclidean bivector: its vector and trivector parts.
    open spec fn mul_spec(self, other: EBiVector3<T>) -> (Vector3<T>, TriVector3<T>) {
        (
            self.bitor_spec(other),
            TriVector3 {
                e021: self.e013.mul_spec(other.e23).sub_spec(self.e032.mul_spec(other.e31)),
                e013: self.e032.mul_spec(other.e12).sub_spec(self.e021.mul_spec(other.e23)),
                e032: self.e021.mul_spec(other.e31).sub_spec(self.e013.mul_spec(other.e12)),
                e123: T::ZERO,
            },
        )
    }
}

impl<T: Num> Mul<BiVector3<T>> for TriVector3<T> {
    type Output = (Vector3<T>, TriVector3<T>);

    /// Returns the geometric product, `self.mul_spec(other)`.
    fn mul(self, other: BiVector3<T>) -> (r: (Vector3<T>, TriVector3<T>)) {
        proof {
            T::operators_are_total();
        }
        (
            self | other,
            TriVector3 {
                e021: self.e013 * other.e23 - self.e032 * other.e31 + self.e123 * other.e03,
                e013: self.e032 * other.e12 - self.e021 * other.e23 + self.e123 * other.e02,
                e032: self.e021 * other.e31 - self.e013 * other.e12 + self.e123 * other.e01,
                e123: T::ZERO,
            },
        )
    }
}

impl<T: Num> vstd::std_specs::ops::MulSpecImpl<BiVector3<T>> for TriVector3<T> {
    open spec fn obeys_mul_spec() -> bool {
        true
    }

    open spec fn mul_req(self, other: BiVector3<T>) -> bool {
        true
    }

    /// The geometric product of a trivector and a bivector: its vector and trivector parts.
    open spec fn mul_spec(self, other: BiVector3<T>) -> (Vector3<T>, TriVector3<T>) {
        (
            self.bitor_spec(other),
            TriVector3 {
                e021: self.e013.mul_spec(other.e23)
                    .sub_spec(self.e032.mul_spec(other.e31))
                    .add_spec(self.e123.mul_spec(other.e03)),
                e013: self.e032.mul_spec(other.e12)
                    .sub_spec(self.e021.mul_spec(other.e23))
                    .add_spec(self.e123.mul_spec(other.e02)),
                e032: self.e021.mul_spec(other.e31)
                    .sub_spec(self.e013.mul_spec(other.e12))
                    .add_spec(self.e123.mul_spec(other.e01)),
                e123: T::ZERO,
            },
        )
    }
}

impl<T: Num> Mul<TriVector3<T>> for TriVector3<T> {
    type Output = (Scalar3<T>, XBiVector3<T>);

    /// Returns the geometric product, `self.mul_spec(other)`.
    fn mul(self, other: TriVector3<T>) -> (r: (Scalar3<T>, XBiVector3<T>)) {
        proof {
            T::operators_are_total();
        }
        (
            self | other,
            XBiVector3 {
                e01: self.e032 * other.e123 - self.e123 * other.e032,
                e02: self.e013 * other.e123 - self.e123 * other.e013,
                e03: self.e021 * other.e123 - self.e123 * other.e021,
            },
        )
    }
}

impl<T: Num> vstd::std_specs::ops::MulSpecImpl<TriVector3<T>> for TriVector3<T> {
    open spec fn obeys_mul_spec() -> bool {
        true
    }

    open spec fn mul_req(self, other: TriVector3<T>) -> bool {
        true
    }

    /// The geometric product of a trivector and a trivector: its scalar and ideal bivector parts.
    open spec fn mul_spec(self, other: TriVector3<T>) -> (Scalar3<T>, XBiVector3<T>) {
        (
            self.bitor_spec(other),
            XBiVector3 {
                e01: self.e032.mul_spec(other.e123).sub_spec(self.e123.mul_spec(other.e032)),
                e02: self.e013.mul_spec(other.e123).sub_spec(self.e123.mul_spec(other.e013)),
                e03: self.e021.mul_spec(other.e123).sub_spec(self.e123.mul_spec(other.e021)),
            },
        )
    }
}

impl<T: Num> Mul<Pseudo3<T>> for TriVector3<T> {
    type Output = Vector3<T>;

    /// Returns the geometric product, `self.mul_spec(other)`.
    fn mul(self, other: Pseudo3<T>) -> (r: Vector3<T>) {
        self | other
    }
}

impl<T: Num> vstd::std_specs::ops::MulSpecImpl<Pseudo3<T>> for TriVector3<T> {
    open spec fn obeys_mul_spec() -> bool {
        true
    }

    open spec fn mul_req(self, other: Pseudo3<T>) -> bool {
        true
    }

    /// The geometric product of a trivector and a pseudoscalar, a vector.
    open spec fn mul_spec(self, other: Pseudo3<T>) -> Vector3<T> {
        self.bitor_spec(other)
    }
}

impl<T: Num> Div<Scalar3<T>> for TriVector3<T> {
    type Output = TriVector3<T>;

    /// Returns the quotient, `self.div_spec(other)`.
    fn div(self, other: Scalar3<T>) -> (r: TriVector3<T>) {
        proof {
            T::operators_are_total();
        }
        TriVector3 {
            e021: self.e021 / other.0,
            e013: self.e013 / other.0,
            e032: self.e032 / other.0,
            e123: self.e123 / other.0,
        }
    }
}

impl<T: Num> vstd::std_specs::ops::DivSpecImpl<Scalar3<T>> for TriVector3<T> {
    open spec fn obeys_div_spec() -> bool {
        true
    }

    open spec fn div_req(self, other: Scalar3<T>) -> bool {
        true
    }

    /// Divides every coefficient by a scalar.
    open spec fn div_spec(self, other: Scalar3<T>) -> TriVector3<T> {
        TriVector3 {
            e021: self.e021.div_spec(other.0),
            e013: self.e013.div_spec(other.0),
            e032: self.e032.div_spec(other.0),
            e123: self.e123.div_spec(other.0),
        }
    }
}

impl<T: Num> DivAssign<Scalar3<T>> for TriVector3<T> {
    /// Divides every coefficient by a scalar, in place.
    fn div_assign(&mut self, other: Scalar3<T>)
        ensures
            *final(self) == old(self).div_spec(other),
    {
        proof {
            T::operators_are_total();
        }
        self.e021 = self.e021 / other.0;
        self.e013 = self.e013 / other.0;
        self.e032 = self.e032 / other.0;
        self.e123 = self.e123 / other.0;
    }
}

} // verus!
