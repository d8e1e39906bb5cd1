//! Scalars: the elements of grade 0.

use core::ops::{Add, BitOr, BitXor, Div, DivAssign, Mul, MulAssign, Neg, Not, Sub};
use vstd::prelude::*;
use vstd::std_specs::ops::{AddSpec, BitOrSpec, BitXorSpec, DivSpec, MulSpec, NegSpec, NotSpec, SubSpec};

use crate::pga::elements::{BiVector2, BiVector3, Dual, EBiVector3, Pseudo2, Pseudo3, TriVector3, Vector2, Vector3, XBiVector3};
use crate::scalar::Num;

verus! {

/// A scalar of the plane's algebra: the element of grade 0.
///
/// Its dual is the pseudoscalar.
#[derive(Clone, Copy, Debug, PartialEq)]
pub struct Scalar2<T>(pub T);

impl<T> Scalar2<T> {
    /// Creates a scalar from its value.
    pub fn new(s: T) -> (r: Self)
        ensures
            r == Scalar2(s),
    {
        Scalar2(s)
    }
}

impl<T: Num> Neg for Scalar2<T> {
    type Output = Scalar2<T>;

    /// Returns the negation, `self.neg_spec()`.
    fn neg(self) -> (r: Scalar2<T>) {
        proof {
            T::operators_are_total();
        }
        Scalar2(self.0.neg())
    }
}

impl<T: Num> vstd::std_specs::ops::NegSpecImpl for Scalar2<T> {
    open spec fn obeys_neg_spec() -> bool {
        true
    }

    open spec fn neg_req(self) -> bool {
        true
    }

    /// Negates every coefficient.
    open spec fn neg_spec(self) -> Scalar2<T> {
        Scalar2(self.0.neg_spec())
    }
}

impl<T: Num> Not for Scalar2<T> {
    type Output = Scalar2<T>;

    /// Returns the reverse, `self.not_spec()`.
    fn not(self) -> (r: Scalar2<T>) {
        self
    }
}

impl<T: Num> vstd::std_specs::ops::NotSpecImpl for Scalar2<T> {
    open spec fn obeys_not_spec() -> bool {
        true
    }

    open spec fn not_req(self) -> bool {
        true
    }

    /// The reverse of a scalar is the scalar itself.
    open spec fn not_spec(self) -> Scalar2<T> {
        self
    }
}

impl<T: Num> Dual for Scalar2<T> {
    type Output = Pseudo2<T>;

    /// The dual of a scalar is the pseudoscalar that carries the same coefficients
    /// on the complementary basis elements.
    open spec fn dual_spec(self) -> Pseudo2<T> {
        Pseudo2 {
            e012: self.0,
        }
    }

    /// Returns the dual, `self.dual_spec()`.
    fn dual(self) -> (r: Pseudo2<T>) {
        Pseudo2 {
            e012: self.0,
        }
    }
}

impl<T: Num> Add<T> for Scalar2<T> {
    type Output = Scalar2<T>;

    /// Returns the sum, `self.add_spec(rhs)`.
    fn add(self, rhs: T) -> (r: Scalar2<T>) {
        proof {
            T::operators_are_total();
        }
        Scalar2(self.0 + rhs)
    }
}

impl<T: Num> vstd::std_specs::ops::AddSpecImpl<T> for Scalar2<T> {
    open spec fn obeys_add_spec() -> bool {
        true
    }

    open spec fn add_req(self, rhs: T) -> bool {
        true
    }

    /// Adds `rhs` to the scalar.
    open spec fn add_spec(self, rhs: T) -> Scalar2<T> {
        Scalar2(self.0.add_spec(rhs))
    }
}

impl<T: Num> Sub<T> for Scalar2<T> {
    type Output = Scalar2<T>;

    /// Returns the difference, `self.sub_spec(rhs)`.
    fn sub(self, rhs: T) -> (r: Scalar2<T>) {
        proof {
            T::operators_are_total();
        }
        Scalar2(self.0 - rhs)
    }
}

impl<T: Num> vstd::std_specs::ops::SubSpecImpl<T> for Scalar2<T> {
    open spec fn obeys_sub_spec() -> bool {
        true
    }

    open spec fn sub_req(self, rhs: T) -> bool {
        true
    }

    /// Subtracts `rhs` from the scalar.
    open spec fn sub_spec(self, rhs: T) -> Scalar2<T> {
        Scalar2(self.0.sub_spec(rhs))
    }
}

impl<T: Num> Mul<T> for Scalar2<T> {
    type Output = Scalar2<T>;

    /// Returns the product, `self.mul_spec(rhs)`.
    fn mul(self, rhs: T) -> (r: Scalar2<T>) {
        proof {
            T::operators_are_total();
        }
        Scalar2(self.0 * rhs)
    }
}

impl<T: Num> vstd::std_specs::ops::MulSpecImpl<T> for Scalar2<T> {
    open spec fn obeys_mul_spec() -> bool {
        true
    }

    open spec fn mul_req(self, rhs: T) -> bool {
        true
    }

    /// Scales every coefficient by `rhs`.
    open spec fn mul_spec(self, rhs: T) -> Scalar2<T> {
        Scalar2(self.0.mul_spec(rhs))
    }
}

impl<T: Num> MulAssign<T> for Scalar2<T> {
    /// Scales every coefficient by `rhs`, in place.
    fn mul_assign(&mut self, rhs: T)
        ensures
            *final(self) == old(self).mul_spec(rhs),
    {
        proof {
            T::operators_are_total();
        }
        self.0 = self.0 * rhs;
    }
}

impl<T: Num> Div<T> for Scalar2<T> {
    type Output = Scalar2<T>;

    /// Returns the quotient, `self.div_spec(rhs)`.
    fn div(self, rhs: T) -> (r: Scalar2<T>) {
        proof {
            T::operators_are_total();
        }
        Scalar2(self.0 / rhs)
    }
}

impl<T: Num> vstd::std_specs::ops::DivSpecImpl<T> for Scalar2<T> {
    open spec fn obeys_div_spec() -> bool {
        true
    }

    open spec fn div_req(self, rhs: T) -> bool {
        true
    }

    /// Divides every coefficient by `rhs`.
    open spec fn div_spec(self, rhs: T) -> Scalar2<T> {
        Scalar2(self.0.div_spec(rhs))
    }
}

impl<T: Num> DivAssign<T> for Scalar2<T> {
    /// Divides every coefficient by `rhs`, in place.
    fn div_assign(&mut self, rhs: T)
        ensures
            *final(self) == old(self).div_spec(rhs),
    {
        proof {
            T::operators_are_total();
        }
        self.0 = self.0 / rhs;
    }
}

impl<T: Num> Add<Scalar2<T>> for Scalar2<T> {
    type Output = Scalar2<T>;

    /// Returns the sum, `self.add_spec(rhs)`.
    fn add(self, rhs: Scalar2<T>) -> (r: Scalar2<T>) {
        proof {
            T::operators_are_total();
        }
        Scalar2(self.0 + rhs.0)
    }
}

impl<T: Num> vstd::std_specs::ops::AddSpecImpl<Scalar2<T>> for Scalar2<T> {
    open spec fn obeys_add_spec() -> bool {
        true
    }

    open spec fn add_req(self, rhs: Scalar2<T>) -> bool {
        true
    }

    /// Adds coefficient by coefficient.
    open spec fn add_spec(self, rhs: Scalar2<T>) -> Scalar2<T> {
        Scalar2(self.0.add_spec(rhs.0))
    }
}

impl<T: Num> Sub<Scalar2<T>> for Scalar2<T> {
    type Output = Scalar2<T>;

    /// Returns the difference, `self.sub_spec(rhs)`.
    fn sub(self, rhs: Scalar2<T>) -> (r: Scalar2<T>) {
        proof {
            T::operators_are_total();
        }
        Scalar2(self.0 - rhs.0)
    }
}

impl<T: Num> vstd::std_specs::ops::SubSpecImpl<Scalar2<T>> for Scalar2<T> {
    open spec fn obeys_sub_spec() -> bool {
        true
    }

    open spec fn sub_req(self, rhs: Scalar2<T>) -> bool {
        true
    }

    /// Subtracts coefficient by coefficient.
    open spec fn sub_spec(self, rhs: Scalar2<T>) -> Scalar2<T> {
        Scalar2(self.0.sub_spec(rhs.0))
    }
}

impl<T: Num> Mul<Scalar2<T>> for Scalar2<T> {
    type Output = Scalar2<T>;

    /// Returns the product, `self.mul_spec(other)`.
    fn mul(self, other: Scalar2<T>) -> (r: Scalar2<T>) {
        proof {
            T::operators_are_total();
        }
        Scalar2(self.0 * other.0)
    }
}

impl<T: Num> vstd::std_specs::ops::MulSpecImpl<Scalar2<T>> for Scalar2<T> {
    open spec fn obeys_mul_spec() -> bool {
        true
    }

    open spec fn mul_req(self, other: Scalar2<T>) -> bool {
        true
    }

    /// The geometric product of a scalar and a scalar, a scalar.
    open spec fn mul_spec(self, other: Scalar2<T>) -> Scalar2<T> {
        Scalar2(self.0.mul_spec(other.0))
    }
}

impl<T: Num> BitOr<Scalar2<T>> for Scalar2<T> {
    type Output = Scalar2<T>;

    /// Returns the inner product, `self.bitor_spec(other)`.
    fn bitor(self, other: Scalar2<T>) -> (r: Scalar2<T>) {
        self * other
    }
}

impl<T: Num> vstd::std_specs::ops::BitOrSpecImpl<Scalar2<T>> for Scalar2<T> {
    open spec fn obeys_bitor_spec() -> bool {
        true
    }

    open spec fn bitor_req(self, other: Scalar2<T>) -> bool {
        true
    }

    /// The inner product of a scalar and a scalar, a scalar.
    open spec fn bitor_spec(self, other: Scalar2<T>) -> Scalar2<T> {
        self.mul_spec(other)
    }
}

impl<T: Num> BitXor<Scalar2<T>> for Scalar2<T> {
    type Output = Scalar2<T>;

    /// Returns the outer product, `self.bitxor_spec(other)`.
    fn bitxor(self, other: Scalar2<T>) -> (r: Scalar2<T>) {
        self * other
    }
}

impl<T: Num> vstd::std_specs::ops::BitXorSpecImpl<Scalar2<T>> for Scalar2<T> {
    open spec fn obeys_bitxor_spec() -> bool {
        true
    }

    open spec fn bitxor_req(self, other: Scalar2<T>) -> bool {
        true
    }

    /// The outer product of a scalar and a scalar, a scalar.
    open spec fn bitxor_spec(self, other: Scalar2<T>) -> Scalar2<T> {
        self.mul_spec(other)
    }
}

impl<T: Num> MulAssign<Scalar2<T>> for Scalar2<T> {
    /// Scales every coefficient by a scalar, in place.
    fn mul_assign(&mut self, rhs: Scalar2<T>)
        ensures
            *final(self) == old(self).mul_spec(rhs),
    {
        proof {
            T::operators_are_total();
        }
        self.0 = self.0 * rhs.0;
    }
}

impl<T: Num> Mul<Vector2<T>> for Scalar2<T> {
    type Output = Vector2<T>;

    /// Returns the geometric product, `self.mul_spec(other)`.
    fn mul(self, other: Vector2<T>) -> (r: Vector2<T>) {
        proof {
            T::operators_are_total();
        }
        Vector2 {
            e0: self.0 * other.e0,
            e1: self.0 * other.e1,
            e2: self.0 * other.e2,
        }
    }
}

impl<T: Num> vstd::std_specs::ops::MulSpecImpl<Vector2<T>> for Scalar2<T> {
    open spec fn obeys_mul_spec() -> bool {
        true
    }

    open spec fn mul_req(self, other: Vector2<T>) -> bool {
        true
    }

    /// The geometric product of a scalar and a vector, a vector.
    open spec fn mul_spec(self, other: Vector2<T>) -> Vector2<T> {
        Vector2 {
            e0: self.0.mul_spec(other.e0),
            e1: self.0.mul_spec(other.e1),
            e2: self.0.mul_spec(other.e2),
        }
    }
}

impl<T: Num> BitOr<Vector2<T>> for Scalar2<T> {
    type Output = Vector2<T>;

    /// Returns the inner product, `self.bitor_spec(other)`.
    fn bitor(self, other: Vector2<T>) -> (r: Vector2<T>) {
        self * other
    }
}

impl<T: Num> vstd::std_specs::ops::BitOrSpecImpl<Vector2<T>> for Scalar2<T> {
    open spec fn obeys_bitor_spec() -> bool {
        true
    }

    open spec fn bitor_req(self, other: Vector2<T>) -> bool {
        true
    }

    /// The inner product of a scalar and a vector, a vector.
    open spec fn bitor_spec(self, other: Vector2<T>) -> Vector2<T> {
        self.mul_spec(other)
    }
}

impl<T: Num> BitXor<Vector2<T>> for Scalar2<T> {
    type Output = Vector2<T>;

    /// Returns the outer product, `self.bitxor_spec(other)`.
    fn bitxor(self, other: Vector2<T>) -> (r: Vector2<T>) {
        self * other
    }
}

impl<T: Num> vstd::std_specs::ops::BitXorSpecImpl<Vector2<T>> for Scalar2<T> {
    open spec fn obeys_bitxor_spec() -> bool {
        true
    }

    open spec fn bitxor_req(self, other: Vector2<T>) -> bool {
        true
    }

    /// The outer product of a scalar and a vector, a vector.
    open spec fn bitxor_spec(self, other: Vector2<T>) -> Vector2<T> {
        self.mul_spec(other)
    }
}

impl<T: Num> Mul<BiVector2<T>> for Scalar2<T> {
    type Output = BiVector2<T>;

    /// Returns the geometric product, `self.mul_spec(other)`.
    fn mul(self, other: BiVector2<T>) -> (r: BiVector2<T>) {
        proof {
            T::operators_are_total();
        }
        BiVector2 {
            e01: self.0 * other.e01,
            e20: self.0 * other.e20,
            e12: self.0 * other.e12,
        }
    }
}

impl<T: Num> vstd::std_specs::ops::MulSpecImpl<BiVector2<T>> for Scalar2<T> {
    open spec fn obeys_mul_spec() -> bool {
        true
    }

    open spec fn mul_req(self, other: BiVector2<T>) -> bool {
        true
    }

    /// The geometric product of a scalar and a bivector, a bivector.
    open spec fn mul_spec(self, other: BiVector2<T>) -> BiVector2<T> {
        BiVector2 {
            e01: self.0.mul_spec(other.e01),
            e20: self.0.mul_spec(other.e20),
            e12: self.0.mul_spec(other.e12),
        }
    }
}

impl<T: Num> BitOr<BiVector2<T>> for Scalar2<T> {
    type Output = BiVector2<T>;

    /// Returns the inner product, `self.bitor_spec(other)`.
    fn bitor(self, other: BiVector2<T>) -> (r: BiVector2<T>) {
        self * other
    }
}

impl<T: Num> vstd::std_specs::ops::BitOrSpecImpl<BiVector2<T>> for Scalar2<T> {
    open spec fn obeys_bitor_spec() -> bool {
        true
    }

    open spec fn bitor_req(self, other: BiVector2<T>) -> bool {
        true
    }

    /// The inner product of a scalar and a bivector, a bivector.
    open spec fn bitor_spec(self, other: BiVector2<T>) -> BiVector2<T> {
        self.mul_spec(other)
    }
}

impl<T: Num> BitXor<BiVector2<T>> for Scalar2<T> {
    type Output = BiVector2<T>;

    /// Returns the outer product, `self.bitxor_spec(other)`.
    fn bitxor(self, other: BiVector2<T>) -> (r: BiVector2<T>) {
        self * other
    }
}

impl<T: Num> vstd::std_specs::ops::BitXorSpecImpl<BiVector2<T>> for Scalar2<T> {
    open spec fn obeys_bitxor_spec() -> bool {
        true
    }

    open spec fn bitxor_req(self, other: BiVector2<T>) -> bool {
        true
    }

    /// The outer product of a scalar and a bivector, a bivector.
    open spec fn bitxor_spec(self, other: BiVector2<T>) -> BiVector2<T> {
        self.mul_spec(other)
    }
}

impl<T: Num> Mul<Pseudo2<T>> for Scalar2<T> {
    type Output = Pseudo2<T>;

    /// Returns the geometric product, `self.mul_spec(other)`.
    fn mul(self, other: Pseudo2<T>) -> (r: Pseudo2<T>) {
        proof {
            T::operators_are_total();
        }
        Pseudo2 {
            e012: self.0 * other.e012,
        }
    }
}

impl<T: Num> vstd::std_specs::ops::MulSpecImpl<Pseudo2<T>> for Scalar2<T> {
    open spec fn obeys_mul_spec() -> bool {
        true
    }

    open spec fn mul_req(self, other: Pseudo2<T>) -> bool {
        true
    }

    /// The geometric product of a scalar and a pseudoscalar, a pseudoscalar.
    open spec fn mul_spec(self, other: Pseudo2<T>) -> Pseudo2<T> {
        Pseudo2 {
            e012: self.0.mul_spec(other.e012),
        }
    }
}

impl<T: Num> BitOr<Pseudo2<T>> for Scalar2<T> {
    type Output = Pseudo2<T>;

    /// Returns the inner product, `self.bitor_spec(other)`.
    fn bitor(self, other: Pseudo2<T>) -> (r: Pseudo2<T>) {
        self * other
    }
}

impl<T: Num> vstd::std_specs::ops::BitOrSpecImpl<Pseudo2<T>> for Scalar2<T> {
    open spec fn obeys_bitor_spec() -> bool {
        true
    }

    open spec fn bitor_req(self, other: Pseudo2<T>) -> bool {
        true
    }

    /// The inner product of a scalar and a pseudoscalar, a pseudoscalar.
    open spec fn bitor_spec(self, other: Pseudo2<T>) -> Pseudo2<T> {
        self.mul_spec(other)
    }
}

impl<T: Num> BitXor<Pseudo2<T>> for Scalar2<T> {
    type Output = Pseudo2<T>;

    /// Returns the outer product, `self.bitxor_spec(other)`.
    fn bitxor(self, other: Pseudo2<T>) -> (r: Pseudo2<T>) {
        self * other
    }
}

impl<T: Num> vstd::std_specs::ops::BitXorSpecImpl<Pseudo2<T>> for Scalar2<T> {
    open spec fn obeys_bitxor_spec() -> bool {
        true
    }

    open spec fn bitxor_req(self, other: Pseudo2<T>) -> bool {
        true
    }

    /// The outer product of a scalar and a pseudoscalar, a pseudoscalar.
    open spec fn bitxor_spec(self, other: Pseudo2<T>) -> Pseudo2<T> {
        self.mul_spec(other)
    }
}

impl<T: Num> Div<Scalar2<T>> for Scalar2<T> {
    type Output = Scalar2<T>;

    /// Returns the quotient, `self.div_spec(other)`.
    fn div(self, other: Scalar2<T>) -> (r: Scalar2<T>) {
        proof {
            T::operators_are_total();
        }
        Scalar2(self.0 / other.0)
    }
}

impl<T: Num> vstd::std_specs::ops::DivSpecImpl<Scalar2<T>> for Scalar2<T> {
    open spec fn obeys_div_spec() -> bool {
        true
    }

    open spec fn div_req(self, other: Scalar2<T>) -> bool {
        true
    }

    /// Divides every coefficient by a scalar.
    open spec fn div_spec(self, other: Scalar2<T>) -> Scalar2<T> {
        Scalar2(self.0.div_spec(other.0))
    }
}

impl<T: Num> DivAssign<Scalar2<T>> for Scalar2<T> {
    /// Divides every coefficient by a scalar, in place.
    fn div_assign(&mut self, rhs: Scalar2<T>)
        ensures
            *final(self) == old(self).div_spec(rhs),
    {
        proof {
            T::operators_are_total();
        }
        self.0 = self.0 / rhs.0;
    }
}

/// A scalar of the space's algebra: the element of grade 0.
///
/// Its dual is the pseudoscalar.
#[derive(Clone, Copy, Debug, PartialEq)]
pub struct Scalar3<T>(pub T);

impl<T> Scalar3<T> {
    /// Creates a scalar from its value.
    pub fn new(s: T) -> (r: Self)
        ensures
            r == Scalar3(s),
    {
        Scalar3(s)
    }
}

impl<T: Num> Neg for Scalar3<T> {
    type Output = Scalar3<T>;

    /// Returns the negation, `self.neg_spec()`.
    fn neg(self) -> (r: Scalar3<T>) {
        proof {
            T::operators_are_total();
        }
        Scalar3(self.0.neg())
    }
}

impl<T: Num> vstd::std_specs::ops::NegSpecImpl for Scalar3<T> {
    open spec fn obeys_neg_spec() -> bool {
        true
    }

    open spec fn neg_req(self) -> bool {
        true
    }

    /// Negates every coefficient.
    open spec fn neg_spec(self) -> Scalar3<T> {
        Scalar3(self.0.neg_spec())
    }
}

impl<T: Num> Not for Scalar3<T> {
    type Output = Scalar3<T>;

    /// Returns the reverse, `self.not_spec()`.
    fn not(self) -> (r: Scalar3<T>) {
        self
    }
}

impl<T: Num> vstd::std_specs::ops::NotSpecImpl for Scalar3<T> {
    open spec fn obeys_not_spec() -> bool {
        true
    }

    open spec fn not_req(self) -> bool {
        true
    }

    /// The reverse of a scalar is the scalar itself.
    open spec fn not_spec(self) -> Scalar3<T> {
        self
    }
}

impl<T: Num> Dual for Scalar3<T> {
    type Output = Pseudo3<T>;

    /// The dual of a scalar is the pseudoscalar that carries the same coefficients
    /// on the complementary basis elements.
    open spec fn dual_spec(self) -> Pseudo3<T> {
        Pseudo3 {
            e0123: self.0,
        }
    }

    /// Returns the dual, `self.dual_spec()`.
    fn dual(self) -> (r: Pseudo3<T>) {
        Pseudo3 {
            e0123: self.0,
        }
    }
}

impl<T: Num> Add<T> for Scalar3<T> {
    type Output = Scalar3<T>;

    /// Returns the sum, `self.add_spec(rhs)`.
    fn add(self, rhs: T) -> (r: Scalar3<T>) {
        proof {
            T::operators_are_total();
        }
        Scalar3(self.0 + rhs)
    }
}

impl<T: Num> vstd::std_specs::ops::AddSpecImpl<T> for Scalar3<T> {
    open spec fn obeys_add_spec() -> bool {
        true
    }

    open spec fn add_req(self, rhs: T) -> bool {
        true
    }

    /// Adds `rhs` to the scalar.
    open spec fn add_spec(self, rhs: T) -> Scalar3<T> {
        Scalar3(self.0.add_spec(rhs))
    }
}

impl<T: Num> Sub<T> for Scalar3<T> {
    type Output = Scalar3<T>;

    /// Returns the difference, `self.sub_spec(rhs)`.
    fn sub(self, rhs: T) -> (r: Scalar3<T>) {
        proof {
            T::operators_are_total();
        }
        Scalar3(self.0 - rhs)
    }
}

impl<T: Num> vstd::std_specs::ops::SubSpecImpl<T> for Scalar3<T> {
    open spec fn obeys_sub_spec() -> bool {
        true
    }

    open spec fn sub_req(self, rhs: T) -> bool {
        true
    }

    /// Subtracts `rhs` from the scalar.
    open spec fn sub_spec(self, rhs: T) -> Scalar3<T> {
        Scalar3(self.0.sub_spec(rhs))
    }
}

impl<T: Num> Mul<T> for Scalar3<T> {
    type Output = Scalar3<T>;

    /// Returns the product, `self.mul_spec(rhs)`.
    fn mul(self, rhs: T) -> (r: Scalar3<T>) {
        proof {
            T::operators_are_total();
        }
        Scalar3(self.0 * rhs)
    }
}

impl<T: Num> vstd::std_specs::ops::MulSpecImpl<T> for Scalar3<T> {
    open spec fn obeys_mul_spec() -> bool {
        true
    }

    open spec fn mul_req(self, rhs: T) -> bool {
        true
    }

    /// Scales every coefficient by `rhs`.
    open spec fn mul_spec(self, rhs: T) -> Scalar3<T> {
        Scalar3(self.0.mul_spec(rhs))
    }
}

impl<T: Num> MulAssign<T> for Scalar3<T> {
    /// Scales every coefficient by `rhs`, in place.
    fn mul_assign(&mut self, rhs: T)
        ensures
            *final(self) == old(self).mul_spec(rhs),
    {
        proof {
            T::operators_are_total();
        }
        self.0 = self.0 * rhs;
    }
}

impl<T: Num> Div<T> for Scalar3<T> {
    type Output = Scalar3<T>;

    /// Returns the quotient, `self.div_spec(rhs)`.
    fn div(self, rhs: T) -> (r: Scalar3<T>) {
        proof {
            T::operators_are_total();
        }
        Scalar3(self.0 / rhs)
    }
}

impl<T: Num> vstd::std_specs::ops::DivSpecImpl<T> for Scalar3<T> {
    open spec fn obeys_div_spec() -> bool {
        true
    }

    open spec fn div_req(self, rhs: T) -> bool {
        true
    }

    /// Divides every coefficient by `rhs`.
    open spec fn div_spec(self, rhs: T) -> Scalar3<T> {
        Scalar3(self.0.div_spec(rhs))
    }
}

impl<T: Num> DivAssign<T> for Scalar3<T> {
    /// Divides every coefficient by `rhs`, in place.
    fn div_assign(&mut self, rhs: T)
        ensures
            *final(self) == old(self).div_spec(rhs),
    {
        proof {
            T::operators_are_total();
        }
        self.0 = self.0 / rhs;
    }
}

impl<T: Num> Add<Scalar3<T>> for Scalar3<T> {
    type Output = Scalar3<T>;

    /// Returns the sum, `self.add_spec(rhs)`.
    fn add(self, rhs: Scalar3<T>) -> (r: Scalar3<T>) {
        proof {
            T::operators_are_total();
        }
        Scalar3(self.0 + rhs.0)
    }
}

impl<T: Num> vstd::std_specs::ops::AddSpecImpl<Scalar3<T>> for Scalar3<T> {
    open spec fn obeys_add_spec() -> bool {
        true
    }

    open spec fn add_req(self, rhs: Scalar3<T>) -> bool {
        true
    }

    /// Adds coefficient by coefficient.
    open spec fn add_spec(self, rhs: Scalar3<T>) -> Scalar3<T> {
        Scalar3(self.0.add_spec(rhs.0))
    }
}

impl<T: Num> Sub<Scalar3<T>> for Scalar3<T> {
    type Output = Scalar3<T>;

    /// Returns the difference, `self.sub_spec(rhs)`.
    fn sub(self, rhs: Scalar3<T>) -> (r: Scalar3<T>) {
        proof {
            T::operators_are_total();
        }
        Scalar3(self.0 - rhs.0)
    }
}

impl<T: Num> vstd::std_specs::ops::SubSpecImpl<Scalar3<T>> for Scalar3<T> {
    open spec fn obeys_sub_spec() -> bool {
        true
    }

    open spec fn sub_req(self, rhs: Scalar3<T>) -> bool {
        true
    }

    /// Subtracts coefficient by coefficient.
    open spec fn sub_spec(self, rhs: Scalar3<T>) -> Scalar3<T> {
        Scalar3(self.0.sub_spec(rhs.0))
    }
}

impl<T: Num> Mul<Scalar3<T>> for Scalar3<T> {
    type Output = Scalar3<T>;

    /// Returns the product, `self.mul_spec(other)`.
    fn mul(self, other: Scalar3<T>) -> (r: Scalar3<T>) {
        proof {
            T::operators_are_total();
        }
        Scalar3(self.0 * other.0)
    }
}

impl<T: Num> vstd::std_specs::ops::MulSpecImpl<Scalar3<T>> for Scalar3<T> {
    open spec fn obeys_mul_spec() -> bool {
        true
    }

    open spec fn mul_req(self, other: Scalar3<T>) -> bool {
        true
    }

    /// The geometric product of a scalar and a scalar, a scalar.
    open spec fn mul_spec(self, other: Scalar3<T>) -> Scalar3<T> {
        Scalar3(self.0.mul_spec(other.0))
    }
}

impl<T: Num> BitOr<Scalar3<T>> for Scalar3<T> {
    type Output = Scalar3<T>;

    /// Returns the inner product, `self.bitor_spec(other)`.
    fn bitor(self, other: Scalar3<T>) -> (r: Scalar3<T>) {
        self * other
    }
}

impl<T: Num> vstd::std_specs::ops::BitOrSpecImpl<Scalar3<T>> for Scalar3<T> {
    open spec fn obeys_bitor_spec() -> bool {
        true
    }

    open spec fn bitor_req(self, other: Scalar3<T>) -> bool {
        true
    }

    /// The inner product of a scalar and a scalar, a scalar.
    open spec fn bitor_spec(self, other: Scalar3<T>) -> Scalar3<T> {
        self.mul_spec(other)
    }
}

impl<T: Num> BitXor<Scalar3<T>> for Scalar3<T> {
    type Output = Scalar3<T>;

    /// Returns the outer product, `self.bitxor_spec(other)`.
    fn bitxor(self, other: Scalar3<T>) -> (r: Scalar3<T>) {
        self * other
    }
}

impl<T: Num> vstd::std_specs::ops::BitXorSpecImpl<Scalar3<T>> for Scalar3<T> {
    open spec fn obeys_bitxor_spec() -> bool {
        true
    }

    open spec fn bitxor_req(self, other: Scalar3<T>) -> bool {
        true
    }

    /// The outer product of a scalar and a scalar, a scalar.
    open spec fn bitxor_spec(self, other: Scalar3<T>) -> Scalar3<T> {
        self.mul_spec(other)
    }
}

impl<T: Num> MulAssign<Scalar3<T>> for Scalar3<T> {
    /// Scales every coefficient by a scalar, in place.
    fn mul_assign(&mut self, rhs: Scalar3<T>)
        ensures
            *final(self) == old(self).mul_spec(rhs),
    {
        proof {
            T::operators_are_total();
        }
        self.0 = self.0 * rhs.0;
    }
}

impl<T: Num> Mul<Vector3<T>> for Scalar3<T> {
    type Output = Vector3<T>;

    /// Returns the geometric product, `self.mul_spec(other)`.
    fn mul(self, other: Vector3<T>) -> (r: Vector3<T>) {
        proof {
            T::operators_are_total();
        }
        Vector3 {
            e0: self.0 * other.e0,
            e1: self.0 * other.e1,
            e2: self.0 * other.e2,
            e3: self.0 * other.e3,
        }
    }
}

impl<T: Num> vstd::std_specs::ops::MulSpecImpl<Vector3<T>> for Scalar3<T> {
    open spec fn obeys_mul_spec() -> bool {
        true
    }

    open spec fn mul_req(self, other: Vector3<T>) -> bool {
        true
    }

    /// The geometric product of a scalar and a vector, a vector.
    open spec fn mul_spec(self, other: Vector3<T>) -> Vector3<T> {
        Vector3 {
            e0: self.0.mul_spec(other.e0),
            e1: self.0.mul_spec(other.e1),
            e2: self.0.mul_spec(other.e2),
            e3: self.0.mul_spec(other.e3),
        }
    }
}

impl<T: Num> BitOr<Vector3<T>> for Scalar3<T> {
    type Output = Vector3<T>;

    /// Returns the inner product, `self.bitor_spec(other)`.
    fn bitor(self, other: Vector3<T>) -> (r: Vector3<T>) {
        self * other
    }
}

impl<T: Num> vstd::std_specs::ops::BitOrSpecImpl<Vector3<T>> for Scalar3<T> {
    open spec fn obeys_bitor_spec() -> bool {
        true
    }

    open spec fn bitor_req(self, other: Vector3<T>) -> bool {
        true
    }

    /// The inner product of a scalar and a vector, a vector.
    open spec fn bitor_spec(self, other: Vector3<T>) -> Vector3<T> {
        self.mul_spec(other)
    }
}

impl<T: Num> BitXor<Vector3<T>> for Scalar3<T> {
    type Output = Vector3<T>;

    /// Returns the outer product, `self.bitxor_spec(other)`.
    fn bitxor(self, other: Vector3<T>) -> (r: Vector3<T>) {
        self * other
    }
}

impl<T: Num> vstd::std_specs::ops::BitXorSpecImpl<Vector3<T>> for Scalar3<T> {
    open spec fn obeys_bitxor_spec() -> bool {
        true
    }

    open spec fn bitxor_req(self, other: Vector3<T>) -> bool {
        true
    }

    /// The outer product of a scalar and a vector, a vector.
    open spec fn bitxor_spec(self, other: Vector3<T>) -> Vector3<T> {
        self.mul_spec(other)
    }
}

impl<T: Num> Mul<XBiVector3<T>> for Scalar3<T> {
    type Output = XBiVector3<T>;

    /// Returns the geometric product, `self.mul_spec(other)`.
    fn mul(self, other: XBiVector3<T>) -> (r: XBiVector3<T>) {
        proof {
            T::operators_are_total();
        }
        XBiVector3 {
            e01: self.0 * other.e01,
            e02: self.0 * other.e02,
            e03: self.0 * other.e03,
        }
    }
}

impl<T: Num> vstd::std_specs::ops::MulSpecImpl<XBiVector3<T>> for Scalar3<T> {
    open spec fn obeys_mul_spec() -> bool {
        true
    }

    open spec fn mul_req(self, other: XBiVector3<T>) -> bool {
        true
    }

    /// The geometric product of a scalar and an ideal bivector, an ideal bivector.
    open spec fn mul_spec(self, other: XBiVector3<T>) -> XBiVector3<T> {
        XBiVector3 {
            e01: self.0.mul_spec(other.e01),
            e02: self.0.mul_spec(other.e02),
            e03: self.0.mul_spec(other.e03),
        }
    }
}

impl<T: Num> BitOr<XBiVector3<T>> for Scalar3<T> {
    type Output = XBiVector3<T>;

    /// Returns the inner product, `self.bitor_spec(other)`.
    fn bitor(self, other: XBiVector3<T>) -> (r: XBiVector3<T>) {
        self * other
    }
}

impl<T: Num> vstd::std_specs::ops::BitOrSpecImpl<XBiVector3<T>> for Scalar3<T> {
    open spec fn obeys_bitor_spec() -> bool {
        true
    }

    open spec fn bitor_req(self, other: XBiVector3<T>) -> bool {
        true
    }

    /// The inner product of a scalar and an ideal bivector, an ideal bivector.
    open spec fn bitor_spec(self, other: XBiVector3<T>) -> XBiVector3<T> {
        self.mul_spec(other)
    }
}

impl<T: Num> BitXor<XBiVector3<T>> for Scalar3<T> {
    type Output = XBiVector3<T>;

    /// Returns the outer product, `self.bitxor_spec(other)`.
    fn bitxor(self, other: XBiVector3<T>) -> (r: XBiVector3<T>) {
        self * other
    }
}

impl<T: Num> vstd::std_specs::ops::BitXorSpecImpl<XBiVector3<T>> for Scalar3<T> {
    open spec fn obeys_bitxor_spec() -> bool {
        true
    }

    open spec fn bitxor_req(self, other: XBiVector3<T>) -> bool {
        true
    }

    /// The outer product of a scalar and an ideal bivector, an ideal bivector.
    open spec fn bitxor_spec(self, other: XBiVector3<T>) -> XBiVector3<T> {
        self.mul_spec(other)
    }
}

impl<T: Num> Mul<EBiVector3<T>> for Scalar3<T> {
    type Output = EBiVector3<T>;

    /// Returns the geometric product, `self.mul_spec(other)`.
    fn mul(self, other: EBiVector3<T>) -> (r: EBiVector3<T>) {
        proof {
            T::operators_are_total();
        }
        EBiVector3 {
            e12: self.0 * other.e12,
            e31: self.0 * other.e31,
            e23: self.0 * other.e23,
        }
    }
}

impl<T: Num> vstd::std_specs::ops::MulSpecImpl<EBiVector3<T>> for Scalar3<T> {
    open spec fn obeys_mul_spec() -> bool {
        true
    }

    open spec fn mul_req(self, other: EBiVector3<T>) -> bool {
        true
    }

    /// The geometric product of a scalar and an Euclidean bivector, an Euclidean bivector.
    open spec fn mul_spec(self, other: EBiVector3<T>) -> EBiVector3<T> {
        EBiVector3 {
            e12: self.0.mul_spec(other.e12),
            e31: self.0.mul_spec(other.e31),
            e23: self.0.mul_spec(other.e23),
        }
    }
}

impl<T: Num> BitOr<EBiVector3<T>> for Scalar3<T> {
    type Output = EBiVector3<T>;

    /// Returns the inner product, `self.bitor_spec(other)`.
    fn bitor(self, other: EBiVector3<T>) -> (r: EBiVector3<T>) {
        self * other
    }
}

impl<T: Num> vstd::std_specs::ops::BitOrSpecImpl<EBiVector3<T>> for Scalar3<T> {
    open spec fn obeys_bitor_spec() -> bool {
        true
    }

    open spec fn bitor_req(self, other: EBiVector3<T>) -> bool {
        true
    }

    /// The inner product of a scalar and an Euclidean bivector, an Euclidean bivector.
    open spec fn bitor_spec(self, other: EBiVector3<T>) -> EBiVector3<T> {
        self.mul_spec(other)
    }
}

impl<T: Num> BitXor<EBiVector3<T>> for Scalar3<T> {
    type Output = EBiVector3<T>;

    /// Returns the outer product, `self.bitxor_spec(other)`.
    fn bitxor(self, other: EBiVector3<T>) -> (r: EBiVector3<T>) {
        self * other
    }
}

impl<T: Num> vstd::std_specs::ops::BitXorSpecImpl<EBiVector3<T>> for Scalar3<T> {
    open spec fn obeys_bitxor_spec() -> bool {
        true
    }

    open spec fn bitxor_req(self, other: EBiVector3<T>) -> bool {
        true
    }

    /// The outer product of a scalar and an Euclidean bivector, an Euclidean bivector.
    open spec fn bitxor_spec(self, other: EBiVector3<T>) -> EBiVector3<T> {
        self.mul_spec(other)
    }
}

impl<T: Num> Mul<BiVector3<T>> for Scalar3<T> {
    type Output = BiVector3<T>;

    /// Returns the geometric product, `self.mul_spec(other)`.
    fn mul(self, other: BiVector3<T>) -> (r: BiVector3<T>) {
        proof {
            T::operators_are_total();
        }
        BiVector3 {
            e01: self.0 * other.e01,
            e02: self.0 * other.e02,
            e03: self.0 * other.e03,
            e12: self.0 * other.e12,
            e31: self.0 * other.e31,
            e23: self.0 * other.e23,
        }
    }
}

impl<T: Num> vstd::std_specs::ops::MulSpecImpl<BiVector3<T>> for Scalar3<T> {
    open spec fn obeys_mul_spec() -> bool {
        true
    }

    open spec fn mul_req(self, other: BiVector3<T>) -> bool {
        true
    }

    /// The geometric product of a scalar and a bivector, a bivector.
    open spec fn mul_spec(self, other: BiVector3<T>) -> BiVector3<T> {
        BiVector3 {
            e01: self.0.mul_spec(other.e01),
            e02: self.0.mul_spec(other.e02),
            e03: self.0.mul_spec(other.e03),
            e12: self.0.mul_spec(other.e12),
            e31: self.0.mul_spec(other.e31),
            e23: self.0.mul_spec(other.e23),
        }
    }
}

impl<T: Num> BitOr<BiVector3<T>> for Scalar3<T> {
    type Output = BiVector3<T>;

    /// Returns the inner product, `self.bitor_spec(other)`.
    fn bitor(self, other: BiVector3<T>) -> (r: BiVector3<T>) {
        self * other
    }
}

impl<T: Num> vstd::std_specs::ops::BitOrSpecImpl<BiVector3<T>> for Scalar3<T> {
    open spec fn obeys_bitor_spec() -> bool {
        true
    }

    open spec fn bitor_req(self, other: BiVector3<T>) -> bool {
        true
    }

    /// The inner product of a scalar and a bivector, a bivector.
    open spec fn bitor_spec(self, other: BiVector3<T>) -> BiVector3<T> {
        self.mul_spec(other)
    }
}

impl<T: Num> BitXor<BiVector3<T>> for Scalar3<T> {
    type Output = BiVector3<T>;

    /// Returns the outer product, `self.bitxor_spec(other)`.
    fn bitxor(self, other: BiVector3<T>) -> (r: BiVector3<T>) {
        self * other
    }
}

impl<T: Num> vstd::std_specs::ops::BitXorSpecImpl<BiVector3<T>> for Scalar3<T> {
    open spec fn obeys_bitxor_spec() -> bool {
        true
    }

    open spec fn bitxor_req(self, other: BiVector3<T>) -> bool {
        true
    }

    /// The outer product of a scalar and a bivector, a bivector.
    open spec fn bitxor_spec(self, other: BiVector3<T>) -> BiVector3<T> {
        self.mul_spec(other)
    }
}

impl<T: Num> Mul<TriVector3<T>> for Scalar3<T> {
    type Output = TriVector3<T>;

    /// Returns the geometric product, `self.mul_spec(other)`.
    fn mul(self, other: TriVector3<T>) -> (r: TriVector3<T>) {
        proof {
            T::operators_are_total();
        }
        TriVector3 {
            e021: self.0 * other.e021,
            e013: self.0 * other.e013,
            e032: self.0 * other.e032,
            e123: self.0 * other.e123,
        }
    }
}

impl<T: Num> vstd::std_specs::ops::MulSpecImpl<TriVector3<T>> for Scalar3<T> {
    open spec fn obeys_mul_spec() -> bool {
        true
    }

    open spec fn mul_req(self, other: TriVector3<T>) -> bool {
        true
    }

    /// The geometric product of a scalar and a trivector, a trivector.
    open spec fn mul_spec(self, other: TriVector3<T>) -> TriVector3<T> {
        TriVector3 {
            e021: self.0.mul_spec(other.e021),
            e013: self.0.mul_spec(other.e013),
            e032: self.0.mul_spec(other.e032),
            e123: self.0.mul_spec(other.e123),
        }
    }
}

impl<T: Num> BitOr<TriVector3<T>> for Scalar3<T> {
    type Output = TriVector3<T>;

    /// Returns the inner product, `self.bitor_spec(other)`.
    fn bitor(self, other: TriVector3<T>) -> (r: TriVector3<T>) {
        self * other
    }
}

impl<T: Num> vstd::std_specs::ops::BitOrSpecImpl<TriVector3<T>> for Scalar3<T> {
    open spec fn obeys_bitor_spec() -> bool {
        true
    }

    open spec fn bitor_req(self, other: TriVector3<T>) -> bool {
        true
    }

    /// The inner product of a scalar and a trivector, a trivector.
    open spec fn bitor_spec(self, other: TriVector3<T>) -> TriVector3<T> {
        self.mul_spec(other)
    }
}

impl<T: Num> BitXor<TriVector3<T>> for Scalar3<T> {
    type Output = TriVector3<T>;

    /// Returns the outer product, `self.bitxor_spec(other)`.
    fn bitxor(self, other: TriVector3<T>) -> (r: TriVector3<T>) {
        self * other
    }
}

impl<T: Num> vstd::std_specs::ops::BitXorSpecImpl<TriVector3<T>> for Scalar3<T> {
    open spec fn obeys_bitxor_spec() -> bool {
        true
    }

    open spec fn bitxor_req(self, other: TriVector3<T>) -> bool {
        true
    }

    /// The outer product of a scalar and a trivector, a trivector.
    open spec fn bitxor_spec(self, other: TriVector3<T>) -> TriVector3<T> {
        self.mul_spec(other)
    }
}

impl<T: Num> Mul<Pseudo3<T>> for Scalar3<T> {
    type Output = Pseudo3<T>;

    /// Returns the geometric product, `self.mul_spec(other)`.
    fn mul(self, other: Pseudo3<T>) -> (r: Pseudo3<T>) {
        proof {
            T::operators_are_total();
        }
        Pseudo3 {
            e0123: self.0 * other.e0123,
        }
    }
}

impl<T: Num> vstd::std_specs::ops::MulSpecImpl<Pseudo3<T>> for Scalar3<T> {
    open spec fn obeys_mul_spec() -> bool {
        true
    }

    open spec fn mul_req(self, other: Pseudo3<T>) -> bool {
        true
    }

    /// The geometric product of a scalar and a pseudoscalar, a pseudoscalar.
    open spec fn mul_spec(self, other: Pseudo3<T>) -> Pseudo3<T> {
        Pseudo3 {
            e0123: self.0.mul_spec(other.e0123),
        }
    }
}

impl<T: Num> BitOr<Pseudo3<T>> for Scalar3<T> {
    type Output = Pseudo3<T>;

    /// Returns the inner product, `self.bitor_spec(other)`.
    fn bitor(self, other: Pseudo3<T>) -> (r: Pseudo3<T>) {
        self * other
    }
}

impl<T: Num> vstd::std_specs::ops::BitOrSpecImpl<Pseudo3<T>> for Scalar3<T> {
    open spec fn obeys_bitor_spec() -> bool {
        true
    }

    open spec fn bitor_req(self, other: Pseudo3<T>) -> bool {
        true
    }

    /// The inner product of a scalar and a pseudoscalar, a pseudoscalar.
    open spec fn bitor_spec(self, other: Pseudo3<T>) -> Pseudo3<T> {
        self.mul_spec(other)
    }
}

impl<T: Num> BitXor<Pseudo3<T>> for Scalar3<T> {
    type Output = Pseudo3<T>;

    /// Returns the outer product, `self.bitxor_spec(other)`.
    fn bitxor(self, other: Pseudo3<T>) -> (r: Pseudo3<T>) {
        self * other
    }
}

impl<T: Num> vstd::std_specs::ops::BitXorSpecImpl<Pseudo3<T>> for Scalar3<T> {
    open spec fn obeys_bitxor_spec() -> bool {
        true
    }

    open spec fn bitxor_req(self, other: Pseudo3<T>) -> bool {
        true
    }

    /// The outer product of a scalar and a pseudoscalar, a pseudoscalar.
    open spec fn bitxor_spec(self, other: Pseudo3<T>) -> Pseudo3<T> {
        self.mul_spec(other)
    }
}

impl<T: Num> Div<Scalar3<T>> for Scalar3<T> {
    type Output = Scalar3<T>;

    /// Returns the quotient, `self.div_spec(other)`.
    fn div(self, other: Scalar3<T>) -> (r: Scalar3<T>) {
        proof {
            T::operators_are_total();
        }
        Scalar3(self.0 / other.0)
    }
}

impl<T: Num> vstd::std_specs::ops::DivSpecImpl<Scalar3<T>> for Scalar3<T> {
    open spec fn obeys_div_spec() -> bool {
        true
    }

    open spec fn div_req(self, other: Scalar3<T>) -> bool {
        true
    }

    /// Divides every coefficient by a scalar.
    open spec fn div_spec(self, other: Scalar3<T>) -> Scalar3<T> {
        Scalar3(self.0.div_spec(other.0))
    }
}

impl<T: Num> DivAssign<Scalar3<T>> for Scalar3<T> {
    /// Divides every coefficient by a scalar, in place.
    fn div_assign(&mut self, rhs: Scalar3<T>)
        ensures
            *final(self) == old(self).div_spec(rhs),
    {
        proof {
            T::operators_are_total();
        }
        self.0 = self.0 / rhs.0;
    }
}

} // verus!
