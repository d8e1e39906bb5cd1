//! Pseudoscalars: the elements of the highest grade.

use core::ops::{Add, BitOr, BitXor, Div, DivAssign, Mul, MulAssign, Neg, Not, Sub};
use vstd::prelude::*;
use vstd::std_specs::ops::{AddSpec, BitOrSpec, BitXorSpec, DivSpec, MulSpec, NegSpec, NotSpec, SubSpec};

use crate::pga::elements::{BiVector2, BiVector3, Dual, EBiVector3, Scalar2, Scalar3, TriVector3, Vector2, Vector3, XBiVector3};
use crate::scalar::Num;

verus! {

/// The pseudoscalar of the plane's algebra: the element of grade 3.
///
/// Its dual is the scalar.
#[derive(Clone, Copy, Debug, PartialEq)]
pub struct Pseudo2<T> {
    /// The coefficient of `e012`.
    pub e012: T,
}

impl<T> Pseudo2<T> {
    /// Creates a pseudoscalar from its coefficients.
    pub fn new(e012: T) -> (r: Self)
        ensures
            r == (Pseudo2 { e012 }),
    {
        Pseudo2 { e012 }
    }
}

impl<T: Num> Pseudo2<T> {
    /// The pseudoscalar whose coefficients are all zero.
    pub fn zero() -> (r: Self)
        ensures
            r == (Pseudo2 { e012: T::ZERO }),
    {
        Pseudo2 { e012: T::ZERO }
    }
}

impl<T: Num> Neg for Pseudo2<T> {
    type Output = Pseudo2<T>;

    /// Returns the negation, `self.neg_spec()`.
    fn neg(self) -> (r: Pseudo2<T>) {
        proof {
            T::operators_are_total();
        }
        Pseudo2 {
            e012: self.e012.neg(),
        }
    }
}

impl<T: Num> vstd::std_specs::ops::NegSpecImpl for Pseudo2<T> {
    open spec fn obeys_neg_spec() -> bool {
        true
    }

    open spec fn neg_req(self) -> bool {
        true
    }

    /// Negates every coefficient.
    open spec fn neg_spec(self) -> Pseudo2<T> {
        Pseudo2 {
            e012: self.e012.neg_spec(),
        }
    }
}

impl<T: Num> Not for Pseudo2<T> {
    type Output = Pseudo2<T>;

    /// Returns the reverse, `self.not_spec()`.
    fn not(self) -> (r: Pseudo2<T>) {
        self.neg()
    }
}

impl<T: Num> vstd::std_specs::ops::NotSpecImpl for Pseudo2<T> {
    open spec fn obeys_not_spec() -> bool {
        true
    }

    open spec fn not_req(self) -> bool {
        true
    }

    /// The reverse of a pseudoscalar is its negation.
    open spec fn not_spec(self) -> Pseudo2<T> {
        self.neg_spec()
    }
}

impl<T: Num> Dual for Pseudo2<T> {
    type Output = Scalar2<T>;

    /// The dual of a pseudoscalar is the scalar that carries the same coefficients
    /// on the complementary basis elements.
    open spec fn dual_spec(self) -> Scalar2<T> {
        Scalar2(self.e012)
    }

    /// Returns the dual, `self.dual_spec()`.
    fn dual(self) -> (r: Scalar2<T>) {
        Scalar2(self.e012)
    }
}

impl<T: Num> Mul<T> for Pseudo2<T> {
    type Output = Pseudo2<T>;

    /// Returns the product, `self.mul_spec(rhs)`.
    fn mul(self, rhs: T) -> (r: Pseudo2<T>) {
        proof {
            T::operators_are_total();
        }
        Pseudo2 {
            e012: self.e012 * rhs,
        }
    }
}

impl<T: Num> vstd::std_specs::ops::MulSpecImpl<T> for Pseudo2<T> {
    open spec fn obeys_mul_spec() -> bool {
        true
    }

    open spec fn mul_req(self, rhs: T) -> bool {
        true
    }

    /// Scales every coefficient by `rhs`.
    open spec fn mul_spec(self, rhs: T) -> Pseudo2<T> {
        Pseudo2 {
            e012: self.e012.mul_spec(rhs),
        }
    }
}

impl<T: Num> MulAssign<T> for Pseudo2<T> {
    /// Scales every coefficient by `rhs`, in place.
    fn mul_assign(&mut self, rhs: T)
        ensures
            *final(self) == old(self).mul_spec(rhs),
    {
        proof {
            T::operators_are_total();
        }
        self.e012 = self.e012 * rhs;
    }
}

impl<T: Num> Div<T> for Pseudo2<T> {
    type Output = Pseudo2<T>;

    /// Returns the quotient, `self.div_spec(rhs)`.
    fn div(self, rhs: T) -> (r: Pseudo2<T>) {
        proof {
            T::operators_are_total();
        }
        Pseudo2 {
            e012: self.e012 / rhs,
        }
    }
}

impl<T: Num> vstd::std_specs::ops::DivSpecImpl<T> for Pseudo2<T> {
    open spec fn obeys_div_spec() -> bool {
        true
    }

    open spec fn div_req(self, rhs: T) -> bool {
        true
    }

    /// Divides every coefficient by `rhs`.
    open spec fn div_spec(self, rhs: T) -> Pseudo2<T> {
        Pseudo2 {
            e012: self.e012.div_spec(rhs),
        }
    }
}

impl<T: Num> DivAssign<T> for Pseudo2<T> {
    /// Divides every coefficient by `rhs`, in place.
    fn div_assign(&mut self, rhs: T)
        ensures
            *final(self) == old(self).div_spec(rhs),
    {
        proof {
            T::operators_are_total();
        }
        self.e012 = self.e012 / rhs;
    }
}

impl<T: Num> Add<Pseudo2<T>> for Pseudo2<T> {
    type Output = Pseudo2<T>;

    /// Returns the sum, `self.add_spec(rhs)`.
    fn add(self, rhs: Pseudo2<T>) -> (r: Pseudo2<T>) {
        proof {
            T::operators_are_total();
        }
        Pseudo2 {
            e012: self.e012 + rhs.e012,
        }
    }
}

impl<T: Num> vstd::std_specs::ops::AddSpecImpl<Pseudo2<T>> for Pseudo2<T> {
    open spec fn obeys_add_spec() -> bool {
        true
    }

    open spec fn add_req(self, rhs: Pseudo2<T>) -> bool {
        true
    }

    /// Adds coefficient by coefficient.
    open spec fn add_spec(self, rhs: Pseudo2<T>) -> Pseudo2<T> {
        Pseudo2 {
            e012: self.e012.add_spec(rhs.e012),
        }
    }
}

impl<T: Num> Sub<Pseudo2<T>> for Pseudo2<T> {
    type Output = Pseudo2<T>;

    /// Returns the difference, `self.sub_spec(rhs)`.
    fn sub(self, rhs: Pseudo2<T>) -> (r: Pseudo2<T>) {
        proof {
            T::operators_are_total();
        }
        Pseudo2 {
            e012: self.e012 - rhs.e012,
        }
    }
}

impl<T: Num> vstd::std_specs::ops::SubSpecImpl<Pseudo2<T>> for Pseudo2<T> {
    open spec fn obeys_sub_spec() -> bool {
        true
    }

    open spec fn sub_req(self, rhs: Pseudo2<T>) -> bool {
        true
    }

    /// Subtracts coefficient by coefficient.
    open spec fn sub_spec(self, rhs: Pseudo2<T>) -> Pseudo2<T> {
        Pseudo2 {
            e012: self.e012.sub_spec(rhs.e012),
        }
    }
}

impl<T: Num> BitOr<Scalar2<T>> for Pseudo2<T> {
    type Output = Pseudo2<T>;

    /// Returns the inner product, `self.bitor_spec(other)`.
    fn bitor(self, other: Scalar2<T>) -> (r: Pseudo2<T>) {
        proof {
            T::operators_are_total();
        }
        Pseudo2 {
            e012: self.e012 * other.0,
        }
    }
}

impl<T: Num> vstd::std_specs::ops::BitOrSpecImpl<Scalar2<T>> for Pseudo2<T> {
    open spec fn obeys_bitor_spec() -> bool {
        true
    }

    open spec fn bitor_req(self, other: Scalar2<T>) -> bool {
        true
    }

    /// The inner product of a pseudoscalar and a scalar, a pseudoscalar.
    open spec fn bitor_spec(self, other: Scalar2<T>) -> Pseudo2<T> {
        Pseudo2 {
            e012: self.e012.mul_spec(other.0),
        }
    }
}

impl<T: Num> BitOr<Vector2<T>> for Pseudo2<T> {
    type Output = BiVector2<T>;

    /// Returns the inner product, `self.bitor_spec(other)`.
    fn bitor(self, other: Vector2<T>) -> (r: BiVector2<T>) {
        proof {
            T::operators_are_total();
        }
        BiVector2 {
            e01: self.e012 * other.e2,
            e20: self.e012 * other.e1,
            e12: T::ZERO,
        }
    }
}

impl<T: Num> vstd::std_specs::ops::BitOrSpecImpl<Vector2<T>> for Pseudo2<T> {
    open spec fn obeys_bitor_spec() -> bool {
        true
    }

    open spec fn bitor_req(self, other: Vector2<T>) -> bool {
        true
    }

    /// The inner product of a pseudoscalar and a vector, a bivector.
    open spec fn bitor_spec(self, other: Vector2<T>) -> BiVector2<T> {
        BiVector2 {
            e01: self.e012.mul_spec(other.e2),
            e20: self.e012.mul_spec(other.e1),
            e12: T::ZERO,
        }
    }
}

impl<T: Num> BitOr<BiVector2<T>> for Pseudo2<T> {
    type Output = Vector2<T>;

    /// Returns the inner product, `self.bitor_spec(other)`.
    fn bitor(self, other: BiVector2<T>) -> (r: Vector2<T>) {
        proof {
            T::operators_are_total();
        }
        Vector2 {
            e0: (self.e012 * other.e12).neg(),
            e1: T::ZERO,
            e2: T::ZERO,
        }
    }
}

impl<T: Num> vstd::std_specs::ops::BitOrSpecImpl<BiVector2<T>> for Pseudo2<T> {
    open spec fn obeys_bitor_spec() -> bool {
        true
    }

    open spec fn bitor_req(self, other: BiVector2<T>) -> bool {
        true
    }

    /// The inner product of a pseudoscalar and a bivector, a vector.
    open spec fn bitor_spec(self, other: BiVector2<T>) -> Vector2<T> {
        Vector2 {
            e0: self.e012.mul_spec(other.e12).neg_spec(),
            e1: T::ZERO,
            e2: T::ZERO,
        }
    }
}

impl<T: Num> BitXor<Scalar2<T>> for Pseudo2<T> {
    type Output = Pseudo2<T>;

    /// Returns the outer product, `self.bitxor_spec(other)`.
    fn bitxor(self, other: Scalar2<T>) -> (r: Pseudo2<T>) {
        proof {
            T::operators_are_total();
        }
        Pseudo2 {
            e012: self.e012 * other.0,
        }
    }
}

impl<T: Num> vstd::std_specs::ops::BitXorSpecImpl<Scalar2<T>> for Pseudo2<T> {
    open spec fn obeys_bitxor_spec() -> bool {
        true
    }

    open spec fn bitxor_req(self, other: Scalar2<T>) -> bool {
        true
    }

    /// The outer product of a pseudoscalar and a scalar, a pseudoscalar.
    open spec fn bitxor_spec(self, other: Scalar2<T>) -> Pseudo2<T> {
        Pseudo2 {
            e012: self.e012.mul_spec(other.0),
        }
    }
}

impl<T: Num> Mul<Scalar2<T>> for Pseudo2<T> {
    type Output = Pseudo2<T>;

    /// Returns the product, `self.mul_spec(other)`.
    fn mul(self, other: Scalar2<T>) -> (r: Pseudo2<T>) {
        proof {
            T::operators_are_total();
        }
        Pseudo2 {
            e012: self.e012 * other.0,
        }
    }
}

impl<T: Num> vstd::std_specs::ops::MulSpecImpl<Scalar2<T>> for Pseudo2<T> {
    open spec fn obeys_mul_spec() -> bool {
        true
    }

    open spec fn mul_req(self, other: Scalar2<T>) -> bool {
        true
    }

    /// The geometric product of a pseudoscalar and a scalar, a pseudoscalar.
    open spec fn mul_spec(self, other: Scalar2<T>) -> Pseudo2<T> {
        Pseudo2 {
            e012: self.e012.mul_spec(other.0),
        }
    }
}

impl<T: Num> MulAssign<Scalar2<T>> for Pseudo2<T> {
    /// Scales every coefficient by a scalar, in place.
    fn mul_assign(&mut self, other: Scalar2<T>)
        ensures
            *final(self) == old(self).mul_spec(other),
    {
        proof {
            T::operators_are_total();
        }
        self.e012 = self.e012 * other.0;
    }
}

impl<T: Num> Mul<Vector2<T>> for Pseudo2<T> {
    type Output = BiVector2<T>;

    /// Returns the geometric product, `self.mul_spec(other)`.
    fn mul(self, other: Vector2<T>) -> (r: BiVector2<T>) {
        proof {
            T::operators_are_total();
        }
        BiVector2 {
            e01: self.e012 * other.e2,
            e20: self.e012 * other.e1,
            e12: T::ZERO,
        }
    }
}

impl<T: Num> vstd::std_specs::ops::MulSpecImpl<Vector2<T>> for Pseudo2<T> {
    open spec fn obeys_mul_spec() -> bool {
        true
    }

    open spec fn mul_req(self, other: Vector2<T>) -> bool {
        true
    }

    /// The geometric product of a pseudoscalar and a vector, a bivector.
    open spec fn mul_spec(self, other: Vector2<T>) -> BiVector2<T> {
        BiVector2 {
            e01: self.e012.mul_spec(other.e2),
            e20: self.e012.mul_spec(other.e1),
            e12: T::ZERO,
        }
    }
}

impl<T: Num> Mul<BiVector2<T>> for Pseudo2<T> {
    type Output = Vector2<T>;

    /// Returns the geometric product, `self.mul_spec(other)`.
    fn mul(self, other: BiVector2<T>) -> (r: Vector2<T>) {
        proof {
            T::operators_are_total();
        }
        Vector2 {
            e0: (self.e012 * other.e12).neg(),
            e1: T::ZERO,
            e2: T::ZERO,
        }
    }
}

impl<T: Num> vstd::std_specs::ops::MulSpecImpl<BiVector2<T>> for Pseudo2<T> {
    open spec fn obeys_mul_spec() -> bool {
        true
    }

    open spec fn mul_req(self, other: BiVector2<T>) -> bool {
        true
    }

    /// The geometric product of a pseudoscalar and a bivector, a vector.
    open spec fn mul_spec(self, other: BiVector2<T>) -> Vector2<T> {
        Vector2 {
            e0: self.e012.mul_spec(other.e12).neg_spec(),
            e1: T::ZERO,
            e2: T::ZERO,
        }
    }
}

impl<T: Num> Div<Scalar2<T>> for Pseudo2<T> {
    type Output = Pseudo2<T>;

    /// Returns the quotient, `self.div_spec(other)`.
    fn div(self, other: Scalar2<T>) -> (r: Pseudo2<T>) {
        proof {
            T::operators_are_total();
        }
        Pseudo2 {
            e012: self.e012 / other.0,
        }
    }
}

impl<T: Num> vstd::std_specs::ops::DivSpecImpl<Scalar2<T>> for Pseudo2<T> {
    open spec fn obeys_div_spec() -> bool {
        true
    }

    open spec fn div_req(self, other: Scalar2<T>) -> bool {
        true
    }

    /// Divides every coefficient by a scalar.
    open spec fn div_spec(self, other: Scalar2<T>) -> Pseudo2<T> {
        Pseudo2 {
            e012: self.e012.div_spec(other.0),
        }
    }
}

impl<T: Num> DivAssign<Scalar2<T>> for Pseudo2<T> {
    /// Divides every coefficient by a scalar, in place.
    fn div_assign(&mut self, other: Scalar2<T>)
        ensures
            *final(self) == old(self).div_spec(other),
    {
        proof {
            T::operators_are_total();
        }
        self.e012 = self.e012 / other.0;
    }
}

/// The pseudoscalar of the space's algebra: the element of grade 4.
///
/// Its dual is the scalar.
#[derive(Clone, Copy, Debug, PartialEq)]
pub struct Pseudo3<T> {
    /// The coefficient of `e0123`.
    pub e0123: T,
}

impl<T> Pseudo3<T> {
    /// Creates a pseudoscalar from its coefficients.
    pub fn new(e0123: T) -> (r: Self)
        ensures
            r == (Pseudo3 { e0123 }),
    {
        Pseudo3 { e0123 }
    }
}

impl<T: Num> Pseudo3<T> {
    /// The pseudoscalar whose coefficients are all zero.
    pub fn zero() -> (r: Self)
        ensures
            r == (Pseudo3 { e0123: T::ZERO }),
    {
        Pseudo3 { e0123: T::ZERO }
    }
}

impl<T: Num> Neg for Pseudo3<T> {
    type Output = Pseudo3<T>;

    /// Returns the negation, `self.neg_spec()`.
    fn neg(self) -> (r: Pseudo3<T>) {
        proof {
            T::operators_are_total();
        }
        Pseudo3 {
            e0123: self.e0123.neg(),
        }
    }
}

impl<T: Num> vstd::std_specs::ops::NegSpecImpl for Pseudo3<T> {
    open spec fn obeys_neg_spec() -> bool {
        true
    }

    open spec fn neg_req(self) -> bool {
        true
    }

    /// Negates every coefficient.
    open spec fn neg_spec(self) -> Pseudo3<T> {
        Pseudo3 {
            e0123: self.e0123.neg_spec(),
        }
    }
}

impl<T: Num> Not for Pseudo3<T> {
    type Output = Pseudo3<T>;

    /// Returns the reverse, `self.not_spec()`.
    fn not(self) -> (r: Pseudo3<T>) {
        self
    }
}

impl<T: Num> vstd::std_specs::ops::NotSpecImpl for Pseudo3<T> {
    open spec fn obeys_not_spec() -> bool {
        true
    }

    open spec fn not_req(self) -> bool {
        true
    }

    /// The reverse of a pseudoscalar is the pseudoscalar itself.
    open spec fn not_spec(self) -> Pseudo3<T> {
        self
    }
}

impl<T: Num> Dual for Pseudo3<T> {
    type Output = Scalar3<T>;

    /// The dual of a pseudoscalar is the scalar that carries the same coefficients
    /// on the complementary basis elements.
    open spec fn dual_spec(self) -> Scalar3<T> {
        Scalar3(self.e0123)
    }

    /// Returns the dual, `self.dual_spec()`.
    fn dual(self) -> (r: Scalar3<T>) {
        Scalar3(self.e0123)
    }
}

impl<T: Num> Mul<T> for Pseudo3<T> {
    type Output = Pseudo3<T>;

    /// Returns the product, `self.mul_spec(rhs)`.
    fn mul(self, rhs: T) -> (r: Pseudo3<T>) {
        proof {
            T::operators_are_total();
        }
        Pseudo3 {
            e0123: self.e0123 * rhs,
        }
    }
}

impl<T: Num> vstd::std_specs::ops::MulSpecImpl<T> for Pseudo3<T> {
    open spec fn obeys_mul_spec() -> bool {
        true
    }

    open spec fn mul_req(self, rhs: T) -> bool {
        true
    }

    /// Scales every coefficient by `rhs`.
    open spec fn mul_spec(self, rhs: T) -> Pseudo3<T> {
        Pseudo3 {
            e0123: self.e0123.mul_spec(rhs),
        }
    }
}

impl<T: Num> MulAssign<T> for Pseudo3<T> {
    /// Scales every coefficient by `rhs`, in place.
    fn mul_assign(&mut self, rhs: T)
        ensures
            *final(self) == old(self).mul_spec(rhs),
    {
        proof {
            T::operators_are_total();
        }
        self.e0123 = self.e0123 * rhs;
    }
}

impl<T: Num> Div<T> for Pseudo3<T> {
    type Output = Pseudo3<T>;

    /// Returns the quotient, `self.div_spec(rhs)`.
    fn div(self, rhs: T) -> (r: Pseudo3<T>) {
        proof {
            T::operators_are_total();
        }
        Pseudo3 {
            e0123: self.e0123 / rhs,
        }
    }
}

impl<T: Num> vstd::std_specs::ops::DivSpecImpl<T> for Pseudo3<T> {
    open spec fn obeys_div_spec() -> bool {
        true
    }

    open spec fn div_req(self, rhs: T) -> bool {
        true
    }

    /// Divides every coefficient by `rhs`.
    open spec fn div_spec(self, rhs: T) -> Pseudo3<T> {
        Pseudo3 {
            e0123: self.e0123.div_spec(rhs),
        }
    }
}

impl<T: Num> DivAssign<T> for Pseudo3<T> {
    /// Divides every coefficient by `rhs`, in place.
    fn div_assign(&mut self, rhs: T)
        ensures
            *final(self) == old(self).div_spec(rhs),
    {
        proof {
            T::operators_are_total();
        }
        self.e0123 = self.e0123 / rhs;
    }
}

impl<T: Num> Add<Pseudo3<T>> for Pseudo3<T> {
    type Output = Pseudo3<T>;

    /// Returns the sum, `self.add_spec(rhs)`.
    fn add(self, rhs: Pseudo3<T>) -> (r: Pseudo3<T>) {
        proof {
            T::operators_are_total();
        }
        Pseudo3 {
            e0123: self.e0123 + rhs.e0123,
        }
    }
}

impl<T: Num> vstd::std_specs::ops::AddSpecImpl<Pseudo3<T>> for Pseudo3<T> {
    open spec fn obeys_add_spec() -> bool {
        true
    }

    open spec fn add_req(self, rhs: Pseudo3<T>) -> bool {
        true
    }

    /// Adds coefficient by coefficient.
    open spec fn add_spec(self, rhs: Pseudo3<T>) -> Pseudo3<T> {
        Pseudo3 {
            e0123: self.e0123.add_spec(rhs.e0123),
        }
    }
}

impl<T: Num> Sub<Pseudo3<T>> for Pseudo3<T> {
    type Output = Pseudo3<T>;

    /// Returns the difference, `self.sub_spec(rhs)`.
    fn sub(self, rhs: Pseudo3<T>) -> (r: Pseudo3<T>) {
        proof {
            T::operators_are_total();
        }
        Pseudo3 {
            e0123: self.e0123 - rhs.e0123,
        }
    }
}

impl<T: Num> vstd::std_specs::ops::SubSpecImpl<Pseudo3<T>> for Pseudo3<T> {
    open spec fn obeys_sub_spec() -> bool {
        true
    }

    open spec fn sub_req(self, rhs: Pseudo3<T>) -> bool {
        true
    }

    /// Subtracts coefficient by coefficient.
    open spec fn sub_spec(self, rhs: Pseudo3<T>) -> Pseudo3<T> {
        Pseudo3 {
            e0123: self.e0123.sub_spec(rhs.e0123),
        }
    }
}

impl<T: Num> BitOr<Vector3<T>> for Pseudo3<T> {
    type Output = TriVector3<T>;

    /// Returns the inner product, `self.bitor_spec(other)`.
    fn bitor(self, other: Vector3<T>) -> (r: TriVector3<T>) {
        proof {
            T::operators_are_total();
        }
        TriVector3 {
            e021: (self.e0123 * other.e3).neg(),
            e013: (self.e0123 * other.e2).neg(),
            e032: (self.e0123 * other.e1).neg(),
            e123: T::ZERO,
        }
    }
}

impl<T: Num> vstd::std_specs::ops::BitOrSpecImpl<Vector3<T>> for Pseudo3<T> {
    open spec fn obeys_bitor_spec() -> bool {
        true
    }

    open spec fn bitor_req(self, other: Vector3<T>) -> bool {
        true
    }

    /// The inner product of a pseudoscalar and a vector, a trivector.
    open spec fn bitor_spec(self, other: Vector3<T>) -> TriVector3<T> {
        TriVector3 {
            e021: self.e0123.mul_spec(other.e3).neg_spec(),
            e013: self.e0123.mul_spec(other.e2).neg_spec(),
            e032: self.e0123.mul_spec(other.e1).neg_spec(),
            e123: T::ZERO,
        }
    }
}

impl<T: Num> BitOr<EBiVector3<T>> for Pseudo3<T> {
    type Output = XBiVector3<T>;

    /// Returns the inner product, `self.bitor_spec(other)`.
    fn bitor(self, other: EBiVector3<T>) -> (r: XBiVector3<T>) {
        proof {
            T::operators_are_total();
        }
        XBiVector3 {
            e01: (self.e0123 * other.e23).neg(),
            e02: (self.e0123 * other.e31).neg(),
            e03: (self.e0123 * other.e12).neg(),
        }
    }
}

impl<T: Num> vstd::std_specs::ops::BitOrSpecImpl<EBiVector3<T>> for Pseudo3<T> {
    open spec fn obeys_bitor_spec() -> bool {
        true
    }

    open spec fn bitor_req(self, other: EBiVector3<T>) -> bool {
        true
    }

    /// The inner product of a pseudoscalar and an Euclidean bivector, an ideal bivector.
    open spec fn bitor_spec(self, other: EBiVector3<T>) -> XBiVector3<T> {
        XBiVector3 {
            e01: self.e0123.mul_spec(other.e23).neg_spec(),
            e02: self.e0123.mul_spec(other.e31).neg_spec(),
            e03: self.e0123.mul_spec(other.e12).neg_spec(),
        }
    }
}

impl<T: Num> BitOr<BiVector3<T>> for Pseudo3<T> {
    type Output = XBiVector3<T>;

    /// Returns the inner product, `self.bitor_spec(other)`.
    fn bitor(self, other: BiVector3<T>) -> (r: XBiVector3<T>) {
        proof {
            T::operators_are_total();
        }
        XBiVector3 {
            e01: (self.e0123 * other.e23).neg(),
            e02: (self.e0123 * other.e31).neg(),
            e03: (self.e0123 * other.e12).neg(),
        }
    }
}

impl<T: Num> vstd::std_specs::ops::BitOrSpecImpl<BiVector3<T>> for Pseudo3<T> {
    open spec fn obeys_bitor_spec() -> bool {
        true
    }

    open spec fn bitor_req(self, other: BiVector3<T>) -> bool {
        true
    }

    /// The inner product of a pseudoscalar and a bivector, an ideal bivector.
    open spec fn bitor_spec(self, other: BiVector3<T>) -> XBiVector3<T> {
        XBiVector3 {
            e01: self.e0123.mul_spec(other.e23).neg_spec(),
            e02: self.e0123.mul_spec(other.e31).neg_spec(),
            e03: self.e0123.mul_spec(other.e12).neg_spec(),
        }
    }
}

impl<T: Num> BitOr<TriVector3<T>> for Pseudo3<T> {
    type Output = Vector3<T>;

    /// Returns the inner product, `self.bitor_spec(other)`.
    fn bitor(self, other: TriVector3<T>) -> (r: Vector3<T>) {
        proof {
            T::operators_are_total();
        }
        Vector3 {
            e0: (self.e0123 * other.e123).neg(),
            e1: T::ZERO,
            e2: T::ZERO,
            e3: T::ZERO,
        }
    }
}

impl<T: Num> vstd::std_specs::ops::BitOrSpecImpl<TriVector3<T>> for Pseudo3<T> {
    open spec fn obeys_bitor_spec() -> bool {
        true
    }

    open spec fn bitor_req(self, other: TriVector3<T>) -> bool {
        true
    }

    /// The inner product of a pseudoscalar and a trivector, a vector.
    open spec fn bitor_spec(self, other: TriVector3<T>) -> Vector3<T> {
        Vector3 {
            e0: self.e0123.mul_spec(other.e123).neg_spec(),
            e1: T::ZERO,
            e2: T::ZERO,
            e3: T::ZERO,
        }
    }
}

impl<T: Num> BitOr<T> for Pseudo3<T> {
    type Output = Pseudo3<T>;

    /// Returns the inner product, `self.bitor_spec(other)`.
    fn bitor(self, other: T) -> (r: Pseudo3<T>) {
        proof {
            T::operators_are_total();
        }
        Pseudo3 {
            e0123: self.e0123 * other,
        }
    }
}

impl<T: Num> vstd::std_specs::ops::BitOrSpecImpl<T> for Pseudo3<T> {
    open spec fn obeys_bitor_spec() -> bool {
        true
    }

    open spec fn bitor_req(self, other: T) -> bool {
        true
    }

    /// The inner product of a pseudoscalar and a coefficient, a
    /// pseudoscalar: the coefficient taken as a scalar.
    open spec fn bitor_spec(self, other: T) -> Pseudo3<T> {
        Pseudo3 {
            e0123: self.e0123.mul_spec(other),
        }
    }
}

impl<T: Num> BitOr<Scalar3<T>> for Pseudo3<T> {
    type Output = Pseudo3<T>;

    /// Returns the inner product, `self.bitor_spec(other)`.
    fn bitor(self, other: Scalar3<T>) -> (r: Pseudo3<T>) {
        proof {
            T::operators_are_total();
        }
        Pseudo3 {
            e0123: self.e0123 * other.0,
        }
    }
}

impl<T: Num> vstd::std_specs::ops::BitOrSpecImpl<Scalar3<T>> for Pseudo3<T> {
    open spec fn obeys_bitor_spec() -> bool {
        true
    }

    open spec fn bitor_req(self, other: Scalar3<T>) -> bool {
        true
    }

    /// The inner product of a pseudoscalar and a scalar, a pseudoscalar.
    open spec fn bitor_spec(self, other: Scalar3<T>) -> Pseudo3<T> {
        Pseudo3 {
            e0123: self.e0123.mul_spec(other.0),
        }
    }
}

impl<T: Num> BitXor<Scalar3<T>> for Pseudo3<T> {
    type Output = Pseudo3<T>;

    /// Returns the outer product, `self.bitxor_spec(other)`.
    fn bitxor(self, other: Scalar3<T>) -> (r: Pseudo3<T>) {
        proof {
            T::operators_are_total();
        }
        Pseudo3 {
            e0123: self.e0123 * other.0,
        }
    }
}

impl<T: Num> vstd::std_specs::ops::BitXorSpecImpl<Scalar3<T>> for Pseudo3<T> {
    open spec fn obeys_bitxor_spec() -> bool {
        true
    }

    open spec fn bitxor_req(self, other: Scalar3<T>) -> bool {
        true
    }

    /// The outer product of a pseudoscalar and a scalar, a pseudoscalar.
    open spec fn bitxor_spec(self, other: Scalar3<T>) -> Pseudo3<T> {
        Pseudo3 {
            e0123: self.e0123.mul_spec(other.0),
        }
    }
}

impl<T: Num> Mul<Scalar3<T>> for Pseudo3<T> {
    type Output = Pseudo3<T>;

    /// Returns the product, `self.mul_spec(other)`.
    fn mul(self, other: Scalar3<T>) -> (r: Pseudo3<T>) {
        proof {
            T::operators_are_total();
        }
        Pseudo3 {
            e0123: self.e0123 * other.0,
        }
    }
}

impl<T: Num> vstd::std_specs::ops::MulSpecImpl<Scalar3<T>> for Pseudo3<T> {
    open spec fn obeys_mul_spec() -> bool {
        true
    }

    open spec fn mul_req(self, other: Scalar3<T>) -> bool {
        true
    }

    /// The geometric product of a pseudoscalar and a scalar, a pseudoscalar.
    open spec fn mul_spec(self, other: Scalar3<T>) -> Pseudo3<T> {
        Pseudo3 {
            e0123: self.e0123.mul_spec(other.0),
        }
    }
}

impl<T: Num> MulAssign<Scalar3<T>> for Pseudo3<T> {
    /// Scales every coefficient by a scalar, in place.
    fn mul_assign(&mut self, other: Scalar3<T>)
        ensures
            *final(self) == old(self).mul_spec(other),
    {
        proof {
            T::operators_are_total();
        }
        self.e0123 = self.e0123 * other.0;
    }
}

impl<T: Num> Mul<Vector3<T>> for Pseudo3<T> {
    type Output = TriVector3<T>;

    /// Returns the geometric product, `self.mul_spec(other)`.
    fn mul(self, other: Vector3<T>) -> (r: TriVector3<T>) {
        proof {
            T::operators_are_total();
        }
        TriVector3 {
            e021: (self.e0123 * other.e3).neg(),
            e013: (self.e0123 * other.e2).neg(),
            e032: (self.e0123 * other.e1).neg(),
            e123: T::ZERO,
        }
    }
}

impl<T: Num> vstd::std_specs::ops::MulSpecImpl<Vector3<T>> for Pseudo3<T> {
    open spec fn obeys_mul_spec() -> bool {
        true
    }

    open spec fn mul_req(self, other: Vector3<T>) -> bool {
        true
    }

    /// The geometric product of a pseudoscalar and a vector, a trivector.
    open spec fn mul_spec(self, other: Vector3<T>) -> TriVector3<T> {
        TriVector3 {
            e021: self.e0123.mul_spec(other.e3).neg_spec(),
            e013: self.e0123.mul_spec(other.e2).neg_spec(),
            e032: self.e0123.mul_spec(other.e1).neg_spec(),
            e123: T::ZERO,
        }
    }
}

impl<T: Num> Mul<EBiVector3<T>> for Pseudo3<T> {
    type Output = XBiVector3<T>;

    /// Returns the geometric product, `self.mul_spec(other)`.
    fn mul(self, other: EBiVector3<T>) -> (r: XBiVector3<T>) {
        proof {
            T::operators_are_total();
        }
        XBiVector3 {
            e01: (self.e0123 * other.e23).neg(),
            e02: (self.e0123 * other.e31).neg(),
            e03: (self.e0123 * other.e12).neg(),
        }
    }
}

impl<T: Num> vstd::std_specs::ops::MulSpecImpl<EBiVector3<T>> for Pseudo3<T> {
    open spec fn obeys_mul_spec() -> bool {
        true
    }

    open spec fn mul_req(self, other: EBiVector3<T>) -> bool {
        true
    }

    /// The geometric product of a pseudoscalar and an Euclidean bivector, an ideal bivector.
    open spec fn mul_spec(self, other: EBiVector3<T>) -> XBiVector3<T> {
        XBiVector3 {
            e01: self.e0123.mul_spec(other.e23).neg_spec(),
            e02: self.e0123.mul_spec(other.e31).neg_spec(),
            e03: self.e0123.mul_spec(other.e12).neg_spec(),
        }
    }
}

impl<T: Num> Mul<BiVector3<T>> for Pseudo3<T> {
    type Output = XBiVector3<T>;

    /// Returns the geometric product, `self.mul_spec(other)`.
    fn mul(self, other: BiVector3<T>) -> (r: XBiVector3<T>) {
        proof {
            T::operators_are_total();
        }
        XBiVector3 {
            e01: (self.e0123 * other.e23).neg(),
            e02: (self.e0123 * other.e31).neg(),
            e03: (self.e0123 * other.e12).neg(),
        }
    }
}

impl<T: Num> vstd::std_specs::ops::MulSpecImpl<BiVector3<T>> for Pseudo3<T> {
    open spec fn obeys_mul_spec() -> bool {
        true
    }

    open spec fn mul_req(self, other: BiVector3<T>) -> bool {
        true
    }

    /// The geometric product of a pseudoscalar and a bivector, an ideal bivector.
    open spec fn mul_spec(self, other: BiVector3<T>) -> XBiVector3<T> {
        XBiVector3 {
            e01: self.e0123.mul_spec(other.e23).neg_spec(),
            e02: self.e0123.mul_spec(other.e31).neg_spec(),
            e03: self.e0123.mul_spec(other.e12).neg_spec(),
        }
    }
}

impl<T: Num> Mul<TriVector3<T>> for Pseudo3<T> {
    type Output = Vector3<T>;

    /// Returns the geometric product, `self.mul_spec(other)`.
    fn mul(self, other: TriVector3<T>) -> (r: Vector3<T>) {
        proof {
            T::operators_are_total();
        }
        Vector3 {
            e0: (self.e0123 * other.e123).neg(),
            e1: T::ZERO,
            e2: T::ZERO,
            e3: T::ZERO,
        }
    }
}

impl<T: Num> vstd::std_specs::ops::MulSpecImpl<TriVector3<T>> for Pseudo3<T> {
    open spec fn obeys_mul_spec() -> bool {
        true
    }

    open spec fn mul_req(self, other: TriVector3<T>) -> bool {
        true
    }

    /// The geometric product of a pseudoscalar and a trivector, a vector.
    open spec fn mul_spec(self, other: TriVector3<T>) -> Vector3<T> {
        Vector3 {
            e0: self.e0123.mul_spec(other.e123).neg_spec(),
            e1: T::ZERO,
            e2: T::ZERO,
            e3: T::ZERO,
        }
    }
}

impl<T: Num> Div<Scalar3<T>> for Pseudo3<T> {
    type Output = Pseudo3<T>;

    /// Returns the quotient, `self.div_spec(other)`.
    fn div(self, other: Scalar3<T>) -> (r: Pseudo3<T>) {
        proof {
            T::operators_are_total();
        }
        Pseudo3 {
            e0123: self.e0123 / other.0,
        }
    }
}

impl<T: Num> vstd::std_specs::ops::DivSpecImpl<Scalar3<T>> for Pseudo3<T> {
    open spec fn obeys_div_spec() -> bool {
        true
    }

    open spec fn div_req(self, other: Scalar3<T>) -> bool {
        true
    }

    /// Divides every coefficient by a scalar.
    open spec fn div_spec(self, other: Scalar3<T>) -> Pseudo3<T> {
        Pseudo3 {
            e0123: self.e0123.div_spec(other.0),
        }
    }
}

impl<T: Num> DivAssign<Scalar3<T>> for Pseudo3<T> {
    /// Divides every coefficient by a scalar, in place.
    fn div_assign(&mut self, other: Scalar3<T>)
        ensures
            *final(self) == old(self).div_spec(other),
    {
        proof {
            T::operators_are_total();
        }
        self.e0123 = self.e0123 / other.0;
    }
}

} // verus!
