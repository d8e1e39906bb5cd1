//! Vectors: the elements of grade 1, lines of the plane and planes of space.

use core::ops::{Add, BitOr, BitXor, Div, DivAssign, Mul, MulAssign, Neg, Not, Sub};
use vstd::prelude::*;
use vstd::std_specs::cmp::PartialEqSpec;
use vstd::std_specs::ops::{AddSpec, BitOrSpec, BitXorSpec, DivSpec, MulSpec, NegSpec, NotSpec, SubSpec};

use crate::pga::elements::{BiVector2, BiVector3, Dual, EBiVector3, Pseudo2, Pseudo3, Scalar2, Scalar3, TriVector3, XBiVector3};
use crate::scalar::Num;

verus! {

/// A vector of the plane's algebra: the element of grade 1.
///
/// It stands for the line `e1 * x + e2 * y + e0 = 0`.
#[derive(Clone, Copy, Debug, PartialEq)]
pub struct Vector2<T> {
    /// The ideal coefficient: the line's offset from the origin.
    pub e0: T,
    /// The coefficient of `x`.
    pub e1: T,
    /// The coefficient of `y`.
    pub e2: T,
}

impl<T> Vector2<T> {
    /// Creates a vector from its coefficients.
    pub fn new(e0: T, e1: T, e2: T) -> (r: Self)
        ensures
            r == (Vector2 { e0, e1, e2 }),
    {
        Vector2 { e0, e1, e2 }
    }
}

impl<T: Num> Vector2<T> {
    /// The vector whose coefficients are all zero.
    pub fn zero() -> (r: Self)
        ensures
            r == (Vector2 { e0: T::ZERO, e1: T::ZERO, e2: T::ZERO }),
    {
        Vector2 { e0: T::ZERO, e1: T::ZERO, e2: T::ZERO }
    }
}

impl<T: Num> Neg for Vector2<T> {
    type Output = Vector2<T>;

    /// Returns the negation, `self.neg_spec()`.
    fn neg(self) -> (r: Vector2<T>) {
        proof {
            T::operators_are_total();
        }
        Vector2 {
            e0: self.e0.neg(),
            e1: self.e1.neg(),
            e2: self.e2.neg(),
        }
    }
}

impl<T: Num> vstd::std_specs::ops::NegSpecImpl for Vector2<T> {
    open spec fn obeys_neg_spec() -> bool {
        true
    }

    open spec fn neg_req(self) -> bool {
        true
    }

    /// Negates every coefficient.
    open spec fn neg_spec(self) -> Vector2<T> {
        Vector2 {
            e0: self.e0.neg_spec(),
            e1: self.e1.neg_spec(),
            e2: self.e2.neg_spec(),
        }
    }
}

impl<T: Num> Not for Vector2<T> {
    type Output = Vector2<T>;

    /// Returns the reverse, `self.not_spec()`.
    fn not(self) -> (r: Vector2<T>) {
        self
    }
}

impl<T: Num> vstd::std_specs::ops::NotSpecImpl for Vector2<T> {
    open spec fn obeys_not_spec() -> bool {
        true
    }

    open spec fn not_req(self) -> bool {
        true
    }

    /// The reverse of a vector is the vector itself.
    open spec fn not_spec(self) -> Vector2<T> {
        self
    }
}

impl<T: Num> Dual for Vector2<T> {
    type Output = BiVector2<T>;

    /// The dual of a vector is the bivector that carries the same coefficients
    /// on the complementary basis elements.
    open spec fn dual_spec(self) -> BiVector2<T> {
        BiVector2 {
            e01: self.e2,
            e20: self.e1,
            e12: self.e0,
        }
    }

    /// Returns the dual, `self.dual_spec()`.
    fn dual(self) -> (r: BiVector2<T>) {
        BiVector2 {
            e01: self.e2,
            e20: self.e1,
            e12: self.e0,
        }
    }
}

impl<T: Num> Mul<T> for Vector2<T> {
    type Output = Vector2<T>;

    /// Returns the product, `self.mul_spec(rhs)`.
    fn mul(self, rhs: T) -> (r: Vector2<T>) {
        proof {
            T::operators_are_total();
        }
        Vector2 {
            e0: self.e0 * rhs,
            e1: self.e1 * rhs,
            e2: self.e2 * rhs,
        }
    }
}

impl<T: Num> vstd::std_specs::ops::MulSpecImpl<T> for Vector2<T> {
    open spec fn obeys_mul_spec() -> bool {
        true
    }

    open spec fn mul_req(self, rhs: T) -> bool {
        true
    }

    /// Scales every coefficient by `rhs`.
    open spec fn mul_spec(self, rhs: T) -> Vector2<T> {
        Vector2 {
            e0: self.e0.mul_spec(rhs),
            e1: self.e1.mul_spec(rhs),
            e2: self.e2.mul_spec(rhs),
        }
    }
}

impl<T: Num> MulAssign<T> for Vector2<T> {
    /// Scales every coefficient by `rhs`, in place.
    fn mul_assign(&mut self, rhs: T)
        ensures
            *final(self) == old(self).mul_spec(rhs),
    {
        proof {
            T::operators_are_total();
        }
        self.e0 = self.e0 * rhs;
        self.e1 = self.e1 * rhs;
        self.e2 = self.e2 * rhs;
    }
}

impl<T: Num> Div<T> for Vector2<T> {
    type Output = Vector2<T>;

    /// Returns the quotient, `self.div_spec(rhs)`.
    fn div(self, rhs: T) -> (r: Vector2<T>) {
        proof {
            T::operators_are_total();
        }
        Vector2 {
            e0: self.e0 / rhs,
            e1: self.e1 / rhs,
            e2: self.e2 / rhs,
        }
    }
}

impl<T: Num> vstd::std_specs::ops::DivSpecImpl<T> for Vector2<T> {
    open spec fn obeys_div_spec() -> bool {
        true
    }

    open spec fn div_req(self, rhs: T) -> bool {
        true
    }

    /// Divides every coefficient by `rhs`.
    open spec fn div_spec(self, rhs: T) -> Vector2<T> {
        Vector2 {
            e0: self.e0.div_spec(rhs),
            e1: self.e1.div_spec(rhs),
            e2: self.e2.div_spec(rhs),
        }
    }
}

impl<T: Num> Vector2<T> {
    /// The squared norm: the sum of the squares of `e1` and `e2`.
    pub open spec fn norm2_spec(self) -> T {
        self.e1.mul_spec(self.e1).add_spec(self.e2.mul_spec(self.e2))
    }

    /// The norm: the square root of the squared norm.
    pub open spec fn norm_spec(self) -> T {
        self.norm2_spec().sqrt_spec()
    }

    /// The vector divided by its norm. One whose squared norm compares equal to zero
    /// is left as it is.
    pub open spec fn normalized_spec(self) -> Self {
        if self.norm2_spec().eq_spec(&T::ZERO) {
            self
        } else {
            self.div_spec(self.norm_spec())
        }
    }

    /// Returns the squared norm of the vector.
    pub fn norm2(&self) -> (r: T)
        ensures
            r == self.norm2_spec(),
    {
        proof {
            T::operators_are_total();
        }
        self.e1 * self.e1 + self.e2 * self.e2
    }

    /// Returns the norm of the vector.
    pub fn norm(&self) -> (r: T)
        ensures
            r == self.norm_spec(),
    {
        self.norm2().sqrt()
    }

    /// Divides the vector by its norm, unless the norm vanishes.
    pub fn normalize(&mut self)
        ensures
            *final(self) == old(self).normalized_spec(),
    {
        proof {
            T::operators_are_total();
        }
        let norm2 = self.norm2();
        if norm2 != T::ZERO {
            let norm = norm2.sqrt();
            self.e0 = self.e0 / norm;
            self.e1 = self.e1 / norm;
            self.e2 = self.e2 / norm;
        }
    }

    /// Returns the vector divided by its norm, or the vector itself where
    /// the norm vanishes.
    pub fn normalized(&self) -> (r: Self)
        ensures
            r == self.normalized_spec(),
    {
        let mut r = *self;
        r.normalize();
        r
    }
}

impl<T: Num> DivAssign<T> for Vector2<T> {
    /// Divides every coefficient by `rhs`, in place.
    fn div_assign(&mut self, rhs: T)
        ensures
            *final(self) == old(self).div_spec(rhs),
    {
        proof {
            T::operators_are_total();
        }
        self.e0 = self.e0 / rhs;
        self.e1 = self.e1 / rhs;
        self.e2 = self.e2 / rhs;
    }
}

impl<T: Num> Add<Vector2<T>> for Vector2<T> {
    type Output = Vector2<T>;

    /// Returns the sum, `self.add_spec(other)`.
    fn add(self, other: Vector2<T>) -> (r: Vector2<T>) {
        proof {
            T::operators_are_total();
        }
        Vector2 {
            e0: self.e0 + other.e0,
            e1: self.e1 + other.e1,
            e2: self.e2 + other.e2,
        }
    }
}

impl<T: Num> vstd::std_specs::ops::AddSpecImpl<Vector2<T>> for Vector2<T> {
    open spec fn obeys_add_spec() -> bool {
        true
    }

    open spec fn add_req(self, other: Vector2<T>) -> bool {
        true
    }

    /// Adds coefficient by coefficient.
    open spec fn add_spec(self, other: Vector2<T>) -> Vector2<T> {
        Vector2 {
            e0: self.e0.add_spec(other.e0),
            e1: self.e1.add_spec(other.e1),
            e2: self.e2.add_spec(other.e2),
        }
    }
}

impl<T: Num> Sub<Vector2<T>> for Vector2<T> {
    type Output = Vector2<T>;

    /// Returns the difference, `self.sub_spec(other)`.
    fn sub(self, other: Vector2<T>) -> (r: Vector2<T>) {
        proof {
            T::operators_are_total();
        }
        Vector2 {
            e0: self.e0 - other.e0,
            e1: self.e1 - other.e1,
            e2: self.e2 - other.e2,
        }
    }
}

impl<T: Num> vstd::std_specs::ops::SubSpecImpl<Vector2<T>> for Vector2<T> {
    open spec fn obeys_sub_spec() -> bool {
        true
    }

    open spec fn sub_req(self, other: Vector2<T>) -> bool {
        true
    }

    /// Subtracts coefficient by coefficient.
    open spec fn sub_spec(self, other: Vector2<T>) -> Vector2<T> {
        Vector2 {
            e0: self.e0.sub_spec(other.e0),
            e1: self.e1.sub_spec(other.e1),
            e2: self.e2.sub_spec(other.e2),
        }
    }
}

impl<T: Num> BitOr<Vector2<T>> for Vector2<T> {
    type Output = Scalar2<T>;

    /// Returns the inner product, `self.bitor_spec(other)`.
    fn bitor(self, other: Vector2<T>) -> (r: Scalar2<T>) {
        proof {
            T::operators_are_total();
        }
        Scalar2(self.e1 * other.e1 + self.e2 * other.e2)
    }
}

impl<T: Num> vstd::std_specs::ops::BitOrSpecImpl<Vector2<T>> for Vector2<T> {
    open spec fn obeys_bitor_spec() -> bool {
        true
    }

    open spec fn bitor_req(self, other: Vector2<T>) -> bool {
        true
    }

    /// The inner product of a vector and a vector, a scalar.
    open spec fn bitor_spec(self, other: Vector2<T>) -> Scalar2<T> {
        Scalar2(self.e1.mul_spec(other.e1).add_spec(self.e2.mul_spec(other.e2)))
    }
}

impl<T: Num> BitOr<BiVector2<T>> for Vector2<T> {
    type Output = Vector2<T>;

    /// Returns the inner product, `self.bitor_spec(other)`.
    fn bitor(self, other: BiVector2<T>) -> (r: Vector2<T>) {
        proof {
            T::operators_are_total();
        }
        Vector2 {
            e0: self.e2 * other.e20 - self.e1 * other.e01,
            e1: (self.e2 * other.e12).neg(),
            e2: self.e1 * other.e12,
        }
    }
}

impl<T: Num> vstd::std_specs::ops::BitOrSpecImpl<BiVector2<T>> for Vector2<T> {
    open spec fn obeys_bitor_spec() -> bool {
        true
    }

    open spec fn bitor_req(self, other: BiVector2<T>) -> bool {
        true
    }

    /// The inner product of a vector and a bivector, a vector.
    open spec fn bitor_spec(self, other: BiVector2<T>) -> Vector2<T> {
        Vector2 {
            e0: self.e2.mul_spec(other.e20).sub_spec(self.e1.mul_spec(other.e01)),
            e1: self.e2.mul_spec(other.e12).neg_spec(),
            e2: self.e1.mul_spec(other.e12),
        }
    }
}

impl<T: Num> BitOr<Pseudo2<T>> for Vector2<T> {
    type Output = BiVector2<T>;

    /// Returns the inner product, `self.bitor_spec(other)`.
    fn bitor(self, other: Pseudo2<T>) -> (r: BiVector2<T>) {
        proof {
            T::operators_are_total();
        }
        BiVector2 {
            e01: self.e2 * other.e012,
            e20: self.e1 * other.e012,
            e12: T::ZERO,
        }
    }
}

impl<T: Num> vstd::std_specs::ops::BitOrSpecImpl<Pseudo2<T>> for Vector2<T> {
    open spec fn obeys_bitor_spec() -> bool {
        true
    }

    open spec fn bitor_req(self, other: Pseudo2<T>) -> bool {
        true
    }

    /// The inner product of a vector and a pseudoscalar, a bivector.
    open spec fn bitor_spec(self, other: Pseudo2<T>) -> BiVector2<T> {
        BiVector2 {
            e01: self.e2.mul_spec(other.e012),
            e20: self.e1.mul_spec(other.e012),
            e12: T::ZERO,
        }
    }
}

impl<T: Num> BitXor<Vector2<T>> for Vector2<T> {
    type Output = BiVector2<T>;

    /// Returns the outer product, `self.bitxor_spec(other)`.
    fn bitxor(self, other: Vector2<T>) -> (r: BiVector2<T>) {
        proof {
            T::operators_are_total();
        }
        BiVector2 {
            e01: self.e0 * other.e1 - self.e1 * other.e0,
            e20: self.e2 * other.e0 - self.e0 * other.e2,
            e12: self.e1 * other.e2 - self.e2 * other.e1,
        }
    }
}

impl<T: Num> vstd::std_specs::ops::BitXorSpecImpl<Vector2<T>> for Vector2<T> {
    open spec fn obeys_bitxor_spec() -> bool {
        true
    }

    open spec fn bitxor_req(self, other: Vector2<T>) -> bool {
        true
    }

    /// The outer product of a vector and a vector, a bivector.
    open spec fn bitxor_spec(self, other: Vector2<T>) -> BiVector2<T> {
        BiVector2 {
            e01: self.e0.mul_spec(other.e1).sub_spec(self.e1.mul_spec(other.e0)),
            e20: self.e2.mul_spec(other.e0).sub_spec(self.e0.mul_spec(other.e2)),
            e12: self.e1.mul_spec(other.e2).sub_spec(self.e2.mul_spec(other.e1)),
        }
    }
}

impl<T: Num> BitXor<BiVector2<T>> for Vector2<T> {
    type Output = Pseudo2<T>;

    /// Returns the outer product, `self.bitxor_spec(other)`.
    fn bitxor(self, other: BiVector2<T>) -> (r: Pseudo2<T>) {
        proof {
            T::operators_are_total();
        }
        Pseudo2 {
            e012: self.e0 * other.e12 + self.e1 * other.e20 + self.e2 * other.e01,
        }
    }
}

impl<T: Num> vstd::std_specs::ops::BitXorSpecImpl<BiVector2<T>> for Vector2<T> {
    open spec fn obeys_bitxor_spec() -> bool {
        true
    }

    open spec fn bitxor_req(self, other: BiVector2<T>) -> bool {
        true
    }

    /// The outer product of a vector and a bivector, a pseudoscalar.
    open spec fn bitxor_spec(self, other: BiVector2<T>) -> Pseudo2<T> {
        Pseudo2 {
            e012: self.e0.mul_spec(other.e12)
                .add_spec(self.e1.mul_spec(other.e20))
                .add_spec(self.e2.mul_spec(other.e01)),
        }
    }
}

impl<T: Num> Mul<Scalar2<T>> for Vector2<T> {
    type Output = Vector2<T>;

    /// Returns the product, `self.mul_spec(other)`.
    fn mul(self, other: Scalar2<T>) -> (r: Vector2<T>) {
        proof {
            T::operators_are_total();
        }
        Vector2 {
            e0: self.e0 * other.0,
            e1: self.e1 * other.0,
            e2: self.e2 * other.0,
        }
    }
}

impl<T: Num> vstd::std_specs::ops::MulSpecImpl<Scalar2<T>> for Vector2<T> {
    open spec fn obeys_mul_spec() -> bool {
        true
    }

    open spec fn mul_req(self, other: Scalar2<T>) -> bool {
        true
    }

    /// The geometric product of a vector and a scalar, a vector.
    open spec fn mul_spec(self, other: Scalar2<T>) -> Vector2<T> {
        Vector2 {
            e0: self.e0.mul_spec(other.0),
            e1: self.e1.mul_spec(other.0),
            e2: self.e2.mul_spec(other.0),
        }
    }
}

impl<T: Num> BitOr<Scalar2<T>> for Vector2<T> {
    type Output = Vector2<T>;

    /// Returns the inner product, `self.bitor_spec(other)`.
    fn bitor(self, other: Scalar2<T>) -> (r: Vector2<T>) {
        self * other
    }
}

impl<T: Num> vstd::std_specs::ops::BitOrSpecImpl<Scalar2<T>> for Vector2<T> {
    open spec fn obeys_bitor_spec() -> bool {
        true
    }

    open spec fn bitor_req(self, other: Scalar2<T>) -> bool {
        true
    }

    /// The inner product of a vector and a scalar, a vector.
    open spec fn bitor_spec(self, other: Scalar2<T>) -> Vector2<T> {
        self.mul_spec(other)
    }
}

impl<T: Num> BitXor<Scalar2<T>> for Vector2<T> {
    type Output = Vector2<T>;

    /// Returns the outer product, `self.bitxor_spec(other)`.
    fn bitxor(self, other: Scalar2<T>) -> (r: Vector2<T>) {
        self * other
    }
}

impl<T: Num> vstd::std_specs::ops::BitXorSpecImpl<Scalar2<T>> for Vector2<T> {
    open spec fn obeys_bitxor_spec() -> bool {
        true
    }

    open spec fn bitxor_req(self, other: Scalar2<T>) -> bool {
        true
    }

    /// The outer product of a vector and a scalar, a vector.
    open spec fn bitxor_spec(self, other: Scalar2<T>) -> Vector2<T> {
        self.mul_spec(other)
    }
}

impl<T: Num> MulAssign<Scalar2<T>> for Vector2<T> {
    /// Scales every coefficient by a scalar, in place.
    fn mul_assign(&mut self, other: Scalar2<T>)
        ensures
            *final(self) == old(self).mul_spec(other),
    {
        proof {
            T::operators_are_total();
        }
        self.e0 = self.e0 * other.0;
        self.e1 = self.e1 * other.0;
        self.e2 = self.e2 * other.0;
    }
}

impl<T: Num> Mul<Vector2<T>> for Vector2<T> {
    type Output = (Scalar2<T>, BiVector2<T>);

    /// Returns the geometric product, `self.mul_spec(other)`.
    fn mul(self, other: Vector2<T>) -> (r: (Scalar2<T>, BiVector2<T>)) {
        (self | other, self ^ other)
    }
}

impl<T: Num> vstd::std_specs::ops::MulSpecImpl<Vector2<T>> for Vector2<T> {
    open spec fn obeys_mul_spec() -> bool {
        true
    }

    open spec fn mul_req(self, other: Vector2<T>) -> bool {
        true
    }

    /// The geometric product of a vector and a vector: its scalar and bivector parts.
    open spec fn mul_spec(self, other: Vector2<T>) -> (Scalar2<T>, BiVector2<T>) {
        (self.bitor_spec(other), self.bitxor_spec(other))
    }
}

impl<T: Num> Mul<BiVector2<T>> for Vector2<T> {
    type Output = (Vector2<T>, Pseudo2<T>);

    /// Returns the geometric product, `self.mul_spec(other)`.
    fn mul(self, other: BiVector2<T>) -> (r: (Vector2<T>, Pseudo2<T>)) {
        (self | other, self ^ other)
    }
}

impl<T: Num> vstd::std_specs::ops::MulSpecImpl<BiVector2<T>> for Vector2<T> {
    open spec fn obeys_mul_spec() -> bool {
        true
    }

    open spec fn mul_req(self, other: BiVector2<T>) -> bool {
        true
    }

    /// The geometric product of a vector and a bivector: its vector and pseudoscalar parts.
    open spec fn mul_spec(self, other: BiVector2<T>) -> (Vector2<T>, Pseudo2<T>) {
        (self.bitor_spec(other), self.bitxor_spec(other))
    }
}

impl<T: Num> Mul<Pseudo2<T>> for Vector2<T> {
    type Output = BiVector2<T>;

    /// Returns the geometric product, `self.mul_spec(other)`.
    fn mul(self, other: Pseudo2<T>) -> (r: BiVector2<T>) {
        self | other
    }
}

impl<T: Num> vstd::std_specs::ops::MulSpecImpl<Pseudo2<T>> for Vector2<T> {
    open spec fn obeys_mul_spec() -> bool {
        true
    }

    open spec fn mul_req(self, other: Pseudo2<T>) -> bool {
        true
    }

    /// The geometric product of a vector and a pseudoscalar, a bivector.
    open spec fn mul_spec(self, other: Pseudo2<T>) -> BiVector2<T> {
        self.bitor_spec(other)
    }
}

impl<T: Num> Div<Scalar2<T>> for Vector2<T> {
    type Output = Vector2<T>;

    /// Returns the quotient, `self.div_spec(other)`.
    fn div(self, other: Scalar2<T>) -> (r: Vector2<T>) {
        proof {
            T::operators_are_total();
        }
        Vector2 {
            e0: self.e0 / other.0,
            e1: self.e1 / other.0,
            e2: self.e2 / other.0,
        }
    }
}

impl<T: Num> vstd::std_specs::ops::DivSpecImpl<Scalar2<T>> for Vector2<T> {
    open spec fn obeys_div_spec() -> bool {
        true
    }

    open spec fn div_req(self, other: Scalar2<T>) -> bool {
        true
    }

    /// Divides every coefficient by a scalar.
    open spec fn div_spec(self, other: Scalar2<T>) -> Vector2<T> {
        Vector2 {
            e0: self.e0.div_spec(other.0),
            e1: self.e1.div_spec(other.0),
            e2: self.e2.div_spec(other.0),
        }
    }
}

impl<T: Num> DivAssign<Scalar2<T>> for Vector2<T> {
    /// Divides every coefficient by a scalar, in place.
    fn div_assign(&mut self, other: Scalar2<T>)
        ensures
            *final(self) == old(self).div_spec(other),
    {
        proof {
            T::operators_are_total();
        }
        self.e0 = self.e0 / other.0;
        self.e1 = self.e1 / other.0;
        self.e2 = self.e2 / other.0;
    }
}

/// A vector of the space's algebra: the element of grade 1.
///
/// It stands for the plane `e1 * x + e2 * y + e3 * z + e0 = 0`.
#[derive(Clone, Copy, Debug, PartialEq)]
pub struct Vector3<T> {
    /// The ideal coefficient: the plane's offset from the origin.
    pub e0: T,
    /// The coefficient of `x`.
    pub e1: T,
    /// The coefficient of `y`.
    pub e2: T,
    /// The coefficient of `z`.
    pub e3: T,
}

impl<T> Vector3<T> {
    /// Creates a vector from its coefficients.
    pub fn new(e0: T, e1: T, e2: T, e3: T) -> (r: Self)
        ensures
            r == (Vector3 { e0, e1, e2, e3 }),
    {
        Vector3 { e0, e1, e2, e3 }
    }
}

impl<T: Num> Vector3<T> {
    /// The vector whose coefficients are all zero.
    pub fn zero() -> (r: Self)
        ensures
            r == (Vector3 { e0: T::ZERO, e1: T::ZERO, e2: T::ZERO, e3: T::ZERO }),
    {
        Vector3 { e0: T::ZERO, e1: T::ZERO, e2: T::ZERO, e3: T::ZERO }
    }
}

impl<T: Num> Neg for Vector3<T> {
    type Output = Vector3<T>;

    /// Returns the negation, `self.neg_spec()`.
    fn neg(self) -> (r: Vector3<T>) {
        proof {
            T::operators_are_total();
        }
        Vector3 {
            e0: self.e0.neg(),
            e1: self.e1.neg(),
            e2: self.e2.neg(),
            e3: self.e3.neg(),
        }
    }
}

impl<T: Num> vstd::std_specs::ops::NegSpecImpl for Vector3<T> {
    open spec fn obeys_neg_spec() -> bool {
        true
    }

    open spec fn neg_req(self) -> bool {
        true
    }

    /// Negates every coefficient.
    open spec fn neg_spec(self) -> Vector3<T> {
        Vector3 {
            e0: self.e0.neg_spec(),
            e1: self.e1.neg_spec(),
            e2: self.e2.neg_spec(),
            e3: self.e3.neg_spec(),
        }
    }
}

impl<T: Num> Not for Vector3<T> {
    type Output = Vector3<T>;

    /// Returns the reverse, `self.not_spec()`.
    fn not(self) -> (r: Vector3<T>) {
        self
    }
}

impl<T: Num> vstd::std_specs::ops::NotSpecImpl for Vector3<T> {
    open spec fn obeys_not_spec() -> bool {
        true
    }

    open spec fn not_req(self) -> bool {
        true
    }

    /// The reverse of a vector is the vector itself.
    open spec fn not_spec(self) -> Vector3<T> {
        self
    }
}

impl<T: Num> Dual for Vector3<T> {
    type Output = TriVector3<T>;

    /// The dual of a vector is the trivector that carries the same coefficients
    /// on the complementary basis elements.
    open spec fn dual_spec(self) -> TriVector3<T> {
        TriVector3 {
            e021: self.e3,
            e013: self.e2,
            e032: self.e1,
            e123: self.e0,
        }
    }

    /// Returns the dual, `self.dual_spec()`.
    fn dual(self) -> (r: TriVector3<T>) {
        TriVector3 {
            e021: self.e3,
            e013: self.e2,
            e032: self.e1,
            e123: self.e0,
        }
    }
}

impl<T: Num> Mul<T> for Vector3<T> {
    type Output = Vector3<T>;

    /// Returns the product, `self.mul_spec(rhs)`.
    fn mul(self, rhs: T) -> (r: Vector3<T>) {
        proof {
            T::operators_are_total();
        }
        Vector3 {
            e0: self.e0 * rhs,
            e1: self.e1 * rhs,
            e2: self.e2 * rhs,
            e3: self.e3 * rhs,
        }
    }
}

impl<T: Num> vstd::std_specs::ops::MulSpecImpl<T> for Vector3<T> {
    open spec fn obeys_mul_spec() -> bool {
        true
    }

    open spec fn mul_req(self, rhs: T) -> bool {
        true
    }

    /// Scales every coefficient by `rhs`.
    open spec fn mul_spec(self, rhs: T) -> Vector3<T> {
        Vector3 {
            e0: self.e0.mul_spec(rhs),
            e1: self.e1.mul_spec(rhs),
            e2: self.e2.mul_spec(rhs),
            e3: self.e3.mul_spec(rhs),
        }
    }
}

impl<T: Num> MulAssign<T> for Vector3<T> {
    /// Scales every coefficient by `rhs`, in place.
    fn mul_assign(&mut self, rhs: T)
        ensures
            *final(self) == old(self).mul_spec(rhs),
    {
        proof {
            T::operators_are_total();
        }
        self.e0 = self.e0 * rhs;
        self.e1 = self.e1 * rhs;
        self.e2 = self.e2 * rhs;
        self.e3 = self.e3 * rhs;
    }
}

impl<T: Num> Div<T> for Vector3<T> {
    type Output = Vector3<T>;

    /// Returns the quotient, `self.div_spec(rhs)`.
    fn div(self, rhs: T) -> (r: Vector3<T>) {
        proof {
            T::operators_are_total();
        }
        Vector3 {
            e0: self.e0 / rhs,
            e1: self.e1 / rhs,
            e2: self.e2 / rhs,
            e3: self.e3 / rhs,
        }
    }
}

impl<T: Num> vstd::std_specs::ops::DivSpecImpl<T> for Vector3<T> {
    open spec fn obeys_div_spec() -> bool {
        true
    }

    open spec fn div_req(self, rhs: T) -> bool {
        true
    }

    /// Divides every coefficient by `rhs`.
    open spec fn div_spec(self, rhs: T) -> Vector3<T> {
        Vector3 {
            e0: self.e0.div_spec(rhs),
            e1: self.e1.div_spec(rhs),
            e2: self.e2.div_spec(rhs),
            e3: self.e3.div_spec(rhs),
        }
    }
}

impl<T: Num> Vector3<T> {
    /// The squared norm: the sum of the squares of `e1`, `e2` and `e3`.
    pub open spec fn norm2_spec(self) -> T {
        self.e1.mul_spec(self.e1).add_spec(self.e2.mul_spec(self.e2)).add_spec(self.e3.mul_spec(self.e3))
    }

    /// The norm: the square root of the squared norm.
    pub open spec fn norm_spec(self) -> T {
        self.norm2_spec().sqrt_spec()
    }

    /// The vector divided by its norm. One whose squared norm compares equal to zero
    /// is left as it is.
    pub open spec fn normalized_spec(self) -> Self {
        if self.norm2_spec().eq_spec(&T::ZERO) {
            self
        } else {
            self.div_spec(self.norm_spec())
        }
    }

    /// Returns the squared norm of the vector.
    pub fn norm2(&self) -> (r: T)
        ensures
            r == self.norm2_spec(),
    {
        proof {
            T::operators_are_total();
        }
        self.e1 * self.e1 + self.e2 * self.e2 + self.e3 * self.e3
    }

    /// Returns the norm of the vector.
    pub fn norm(&self) -> (r: T)
        ensures
            r == self.norm_spec(),
    {
        self.norm2().sqrt()
    }

    /// Divides the vector by its norm, unless the norm vanishes.
    pub fn normalize(&mut self)
        ensures
            *final(self) == old(self).normalized_spec(),
    {
        proof {
            T::operators_are_total();
        }
        let norm2 = self.norm2();
        if norm2 != T::ZERO {
            let norm = norm2.sqrt();
            self.e0 = self.e0 / norm;
            self.e1 = self.e1 / norm;
            self.e2 = self.e2 / norm;
            self.e3 = self.e3 / norm;
        }
    }

    /// Returns the vector divided by its norm, or the vector itself where
    /// the norm vanishes.
    pub fn normalized(&self) -> (r: Self)
        ensures
            r == self.normalized_spec(),
    {
        let mut r = *self;
        r.normalize();
        r
    }
}

impl<T: Num> DivAssign<T> for Vector3<T> {
    /// Divides every coefficient by `rhs`, in place.
    fn div_assign(&mut self, rhs: T)
        ensures
            *final(self) == old(self).div_spec(rhs),
    {
        proof {
            T::operators_are_total();
        }
        self.e0 = self.e0 / rhs;
        self.e1 = self.e1 / rhs;
        self.e2 = self.e2 / rhs;
        self.e3 = self.e3 / rhs;
    }
}

impl<T: Num> Add<Vector3<T>> for Vector3<T> {
    type Output = Vector3<T>;

    /// Returns the sum, `self.add_spec(other)`.
    fn add(self, other: Vector3<T>) -> (r: Vector3<T>) {
        proof {
            T::operators_are_total();
        }
        Vector3 {
            e0: self.e0 + other.e0,
            e1: self.e1 + other.e1,
            e2: self.e2 + other.e2,
            e3: self.e3 + other.e3,
        }
    }
}

impl<T: Num> vstd::std_specs::ops::AddSpecImpl<Vector3<T>> for Vector3<T> {
    open spec fn obeys_add_spec() -> bool {
        true
    }

    open spec fn add_req(self, other: Vector3<T>) -> bool {
        true
    }

    /// Adds coefficient by coefficient.
    open spec fn add_spec(self, other: Vector3<T>) -> Vector3<T> {
        Vector3 {
            e0: self.e0.add_spec(other.e0),
            e1: self.e1.add_spec(other.e1),
            e2: self.e2.add_spec(other.e2),
            e3: self.e3.add_spec(other.e3),
        }
    }
}

impl<T: Num> Sub<Vector3<T>> for Vector3<T> {
    type Output = Vector3<T>;

    /// Returns the difference, `self.sub_spec(other)`.
    fn sub(self, other: Vector3<T>) -> (r: Vector3<T>) {
        proof {
            T::operators_are_total();
        }
        Vector3 {
            e0: self.e0 - other.e0,
            e1: self.e1 - other.e1,
            e2: self.e2 - other.e2,
            e3: self.e3 - other.e3,
        }
    }
}

impl<T: Num> vstd::std_specs::ops::SubSpecImpl<Vector3<T>> for Vector3<T> {
    open spec fn obeys_sub_spec() -> bool {
        true
    }

    open spec fn sub_req(self, other: Vector3<T>) -> bool {
        true
    }

    /// Subtracts coefficient by coefficient.
    open spec fn sub_spec(self, other: Vector3<T>) -> Vector3<T> {
        Vector3 {
            e0: self.e0.sub_spec(other.e0),
            e1: self.e1.sub_spec(other.e1),
            e2: self.e2.sub_spec(other.e2),
            e3: self.e3.sub_spec(other.e3),
        }
    }
}

impl<T: Num> BitOr<Vector3<T>> for Vector3<T> {
    type Output = Scalar3<T>;

    /// Returns the inner product, `self.bitor_spec(other)`.
    fn bitor(self, other: Vector3<T>) -> (r: Scalar3<T>) {
        proof {
            T::operators_are_total();
        }
        Scalar3(self.e1 * other.e1 + self.e2 * other.e2 + self.e3 * other.e3)
    }
}

impl<T: Num> vstd::std_specs::ops::BitOrSpecImpl<Vector3<T>> for Vector3<T> {
    open spec fn obeys_bitor_spec() -> bool {
        true
    }

    open spec fn bitor_req(self, other: Vector3<T>) -> bool {
        true
    }

    /// The inner product of a vector and a vector, a scalar.
    open spec fn bitor_spec(self, other: Vector3<T>) -> Scalar3<T> {
        Scalar3(self.e1.mul_spec(other.e1).add_spec(self.e2.mul_spec(other.e2)).add_spec(self.e3.mul_spec(other.e3)))
    }
}

impl<T: Num> BitOr<XBiVector3<T>> for Vector3<T> {
    type Output = Vector3<T>;

    /// Returns the inner product, `self.bitor_spec(other)`.
    fn bitor(self, other: XBiVector3<T>) -> (r: Vector3<T>) {
        proof {
            T::operators_are_total();
        }
        Vector3 {
            e0: (self.e1 * other.e01 + self.e2 * other.e02 + self.e3 * other.e03).neg(),
            e1: T::ZERO,
            e2: T::ZERO,
            e3: T::ZERO,
        }
    }
}

impl<T: Num> vstd::std_specs::ops::BitOrSpecImpl<XBiVector3<T>> for Vector3<T> {
    open spec fn obeys_bitor_spec() -> bool {
        true
    }

    open spec fn bitor_req(self, other: XBiVector3<T>) -> bool {
        true
    }

    /// The inner product of a vector and an ideal bivector, a vector.
    open spec fn bitor_spec(self, other: XBiVector3<T>) -> Vector3<T> {
        Vector3 {
            e0: self.e1.mul_spec(other.e01)
                .add_spec(self.e2.mul_spec(other.e02))
                .add_spec(self.e3.mul_spec(other.e03)).neg_spec(),
            e1: T::ZERO,
            e2: T::ZERO,
            e3: T::ZERO,
        }
    }
}

impl<T: Num> BitOr<EBiVector3<T>> for Vector3<T> {
    type Output = Vector3<T>;

    /// Returns the inner product, `self.bitor_spec(other)`.
    fn bitor(self, other: EBiVector3<T>) -> (r: Vector3<T>) {
        proof {
            T::operators_are_total();
        }
        Vector3 {
            e0: T::ZERO,
            e1: self.e3 * other.e31 - self.e2 * other.e12,
            e2: self.e1 * other.e12 - self.e3 * other.e23,
            e3: self.e2 * other.e23 - self.e1 * other.e31,
        }
    }
}

impl<T: Num> vstd::std_specs::ops::BitOrSpecImpl<EBiVector3<T>> for Vector3<T> {
    open spec fn obeys_bitor_spec() -> bool {
        true
    }

    open spec fn bitor_req(self, other: EBiVector3<T>) -> bool {
        true
    }

    /// The inner product of a vector and an Euclidean bivector, a vector.
    open spec fn bitor_spec(self, other: EBiVector3<T>) -> Vector3<T> {
        Vector3 {
            e0: T::ZERO,
            e1: self.e3.mul_spec(other.e31).sub_spec(self.e2.mul_spec(other.e12)),
            e2: self.e1.mul_spec(other.e12).sub_spec(self.e3.mul_spec(other.e23)),
            e3: self.e2.mul_spec(other.e23).sub_spec(self.e1.mul_spec(other.e31)),
        }
    }
}

impl<T: Num> BitOr<BiVector3<T>> for Vector3<T> {
    type Output = Vector3<T>;

    /// Returns the inner product, `self.bitor_spec(other)`.
    fn bitor(self, other: BiVector3<T>) -> (r: Vector3<T>) {
        proof {
            T::operators_are_total();
        }
        Vector3 {
            e0: (self.e1 * other.e01 + self.e2 * other.e02 + self.e3 * other.e03).neg(),
            e1: self.e3 * other.e31 - self.e2 * other.e12,
            e2: self.e1 * other.e12 - self.e3 * other.e23,
            e3: self.e2 * other.e23 - self.e1 * other.e31,
        }
    }
}

impl<T: Num> vstd::std_specs::ops::BitOrSpecImpl<BiVector3<T>> for Vector3<T> {
    open spec fn obeys_bitor_spec() -> bool {
        true
    }

    open spec fn bitor_req(self, other: BiVector3<T>) -> bool {
        true
    }

    /// The inner product of a vector and a bivector, a vector.
    open spec fn bitor_spec(self, other: BiVector3<T>) -> Vector3<T> {
        Vector3 {
            e0: self.e1.mul_spec(other.e01)
                .add_spec(self.e2.mul_spec(other.e02))
                .add_spec(self.e3.mul_spec(other.e03)).neg_spec(),
            e1: self.e3.mul_spec(other.e31).sub_spec(self.e2.mul_spec(other.e12)),
            e2: self.e1.mul_spec(other.e12).sub_spec(self.e3.mul_spec(other.e23)),
            e3: self.e2.mul_spec(other.e23).sub_spec(self.e1.mul_spec(other.e31)),
        }
    }
}

impl<T: Num> BitOr<TriVector3<T>> for Vector3<T> {
    type Output = BiVector3<T>;

    /// Returns the inner product, `self.bitor_spec(other)`.
    fn bitor(self, other: TriVector3<T>) -> (r: BiVector3<T>) {
        proof {
            T::operators_are_total();
        }
        BiVector3 {
            e01: self.e3 * other.e013 - self.e2 * other.e021,
            e02: self.e1 * other.e021 - self.e3 * other.e032,
            e03: self.e2 * other.e032 - self.e1 * other.e013,
            e12: self.e3 * other.e123,
            e31: self.e2 * other.e123,
            e23: self.e1 * other.e123,
        }
    }
}

impl<T: Num> vstd::std_specs::ops::BitOrSpecImpl<TriVector3<T>> for Vector3<T> {
    open spec fn obeys_bitor_spec() -> bool {
        true
    }

    open spec fn bitor_req(self, other: TriVector3<T>) -> bool {
        true
    }

    /// The inner product of a vector and a trivector, a bivector.
    open spec fn bitor_spec(self, other: TriVector3<T>) -> BiVector3<T> {
        BiVector3 {
            e01: self.e3.mul_spec(other.e013).sub_spec(self.e2.mul_spec(other.e021)),
            e02: self.e1.mul_spec(other.e021).sub_spec(self.e3.mul_spec(other.e032)),
            e03: self.e2.mul_spec(other.e032).sub_spec(self.e1.mul_spec(other.e013)),
            e12: self.e3.mul_spec(other.e123),
            e31: self.e2.mul_spec(other.e123),
            e23: self.e1.mul_spec(other.e123),
        }
    }
}

impl<T: Num> BitOr<Pseudo3<T>> for Vector3<T> {
    type Output = TriVector3<T>;

    /// Returns the inner product, `self.bitor_spec(other)`.
    fn bitor(self, other: Pseudo3<T>) -> (r: TriVector3<T>) {
        proof {
            T::operators_are_total();
        }
        TriVector3 {
            e021: self.e3 * other.e0123,
            e013: self.e2 * other.e0123,
            e032: self.e1 * other.e0123,
            e123: T::ZERO,
        }
    }
}

impl<T: Num> vstd::std_specs::ops::BitOrSpecImpl<Pseudo3<T>> for Vector3<T> {
    open spec fn obeys_bitor_spec() -> bool {
        true
    }

    open spec fn bitor_req(self, other: Pseudo3<T>) -> bool {
        true
    }

    /// The inner product of a vector and a pseudoscalar, a trivector.
    open spec fn bitor_spec(self, other: Pseudo3<T>) -> TriVector3<T> {
        TriVector3 {
            e021: self.e3.mul_spec(other.e0123),
            e013: self.e2.mul_spec(other.e0123),
            e032: self.e1.mul_spec(other.e0123),
            e123: T::ZERO,
        }
    }
}

impl<T: Num> BitXor<Vector3<T>> for Vector3<T> {
    type Output = BiVector3<T>;

    /// Returns the outer product, `self.bitxor_spec(other)`.
    fn bitxor(self, other: Vector3<T>) -> (r: BiVector3<T>) {
        proof {
            T::operators_are_total();
        }
        BiVector3 {
            e01: self.e0 * other.e1 - self.e1 * other.e0,
            e02: self.e0 * other.e2 - self.e2 * other.e0,
            e03: self.e0 * other.e3 - self.e3 * other.e0,
            e12: self.e1 * other.e2 - self.e2 * other.e1,
            e31: self.e3 * other.e1 - self.e1 * other.e3,
            e23: self.e2 * other.e3 - self.e3 * other.e2,
        }
    }
}

impl<T: Num> vstd::std_specs::ops::BitXorSpecImpl<Vector3<T>> for Vector3<T> {
    open spec fn obeys_bitxor_spec() -> bool {
        true
    }

    open spec fn bitxor_req(self, other: Vector3<T>) -> bool {
        true
    }

    /// The outer product of a vector and a vector, a bivector.
    open spec fn bitxor_spec(self, other: Vector3<T>) -> BiVector3<T> {
        BiVector3 {
            e01: self.e0.mul_spec(other.e1).sub_spec(self.e1.mul_spec(other.e0)),
            e02: self.e0.mul_spec(other.e2).sub_spec(self.e2.mul_spec(other.e0)),
            e03: self.e0.mul_spec(other.e3).sub_spec(self.e3.mul_spec(other.e0)),
            e12: self.e1.mul_spec(other.e2).sub_spec(self.e2.mul_spec(other.e1)),
            e31: self.e3.mul_spec(other.e1).sub_spec(self.e1.mul_spec(other.e3)),
            e23: self.e2.mul_spec(other.e3).sub_spec(self.e3.mul_spec(other.e2)),
        }
    }
}

impl<T: Num> BitXor<XBiVector3<T>> for Vector3<T> {
    type Output = TriVector3<T>;

    /// Returns the outer product, `self.bitxor_spec(other)`.
    fn bitxor(self, other: XBiVector3<T>) -> (r: TriVector3<T>) {
        proof {
            T::operators_are_total();
        }
        TriVector3 {
            e021: self.e1 * other.e02 - self.e2 * other.e01,
            e013: self.e3 * other.e01 - self.e1 * other.e03,
            e032: self.e2 * other.e03 - self.e3 * other.e02,
            e123: T::ZERO,
        }
    }
}

impl<T: Num> vstd::std_specs::ops::BitXorSpecImpl<XBiVector3<T>> for Vector3<T> {
    open spec fn obeys_bitxor_spec() -> bool {
        true
    }

    open spec fn bitxor_req(self, other: XBiVector3<T>) -> bool {
        true
    }

    /// The outer product of a vector and an ideal bivector, a trivector.
    open spec fn bitxor_spec(self, other: XBiVector3<T>) -> TriVector3<T> {
        TriVector3 {
            e021: self.e1.mul_spec(other.e02).sub_spec(self.e2.mul_spec(other.e01)),
            e013: self.e3.mul_spec(other.e01).sub_spec(self.e1.mul_spec(other.e03)),
            e032: self.e2.mul_spec(other.e03).sub_spec(self.e3.mul_spec(other.e02)),
            e123: T::ZERO,
        }
    }
}

impl<T: Num> BitXor<EBiVector3<T>> for Vector3<T> {
    type Output = TriVector3<T>;

    /// Returns the outer product, `self.bitxor_spec(other)`.
    fn bitxor(self, other: EBiVector3<T>) -> (r: TriVector3<T>) {
        proof {
            T::operators_are_total();
        }
        TriVector3 {
            e021: (self.e0 * other.e12).neg(),
            e013: (self.e0 * other.e31).neg(),
            e032: (self.e0 * other.e23).neg(),
            e123: self.e1 * other.e23 + self.e2 * other.e31 + self.e3 * other.e12,
        }
    }
}

impl<T: Num> vstd::std_specs::ops::BitXorSpecImpl<EBiVector3<T>> for Vector3<T> {
    open spec fn obeys_bitxor_spec() -> bool {
        true
    }

    open spec fn bitxor_req(self, other: EBiVector3<T>) -> bool {
        true
    }

    /// The outer product of a vector and an Euclidean bivector, a trivector.
    open spec fn bitxor_spec(self, other: EBiVector3<T>) -> TriVector3<T> {
        TriVector3 {
            e021: self.e0.mul_spec(other.e12).neg_spec(),
            e013: self.e0.mul_spec(other.e31).neg_spec(),
            e032: self.e0.mul_spec(other.e23).neg_spec(),
            e123: self.e1.mul_spec(other.e23)
                .add_spec(self.e2.mul_spec(other.e31))
                .add_spec(self.e3.mul_spec(other.e12)),
        }
    }
}

impl<T: Num> BitXor<BiVector3<T>> for Vector3<T> {
    type Output = TriVector3<T>;

    /// Returns the outer product, `self.bitxor_spec(other)`.
    fn bitxor(self, other: BiVector3<T>) -> (r: TriVector3<T>) {
        proof {
            T::operators_are_total();
        }
        TriVector3 {
            e021: self.e1 * other.e02 - self.e2 * other.e01 - self.e0 * other.e12,
            e013: self.e3 * other.e01 - self.e1 * other.e03 - self.e0 * other.e31,
            e032: self.e2 * other.e03 - self.e3 * other.e02 - self.e0 * other.e23,
            e123: self.e1 * other.e23 + self.e2 * other.e31 + self.e3 * other.e12,
        }
    }
}

impl<T: Num> vstd::std_specs::ops::BitXorSpecImpl<BiVector3<T>> for Vector3<T> {
    open spec fn obeys_bitxor_spec() -> bool {
        true
    }

    open spec fn bitxor_req(self, other: BiVector3<T>) -> bool {
        true
    }

    /// The outer product of a vector and a bivector, a trivector.
    open spec fn bitxor_spec(self, other: BiVector3<T>) -> TriVector3<T> {
        TriVector3 {
            e021: self.e1.mul_spec(other.e02)
                .sub_spec(self.e2.mul_spec(other.e01))
                .sub_spec(self.e0.mul_spec(other.e12)),
            e013: self.e3.mul_spec(other.e01)
                .sub_spec(self.e1.mul_spec(other.e03))
                .sub_spec(self.e0.mul_spec(other.e31)),
            e032: self.e2.mul_spec(other.e03)
                .sub_spec(self.e3.mul_spec(other.e02))
                .sub_spec(self.e0.mul_spec(other.e23)),
            e123: self.e1.mul_spec(other.e23)
                .add_spec(self.e2.mul_spec(other.e31))
                .add_spec(self.e3.mul_spec(other.e12)),
        }
    }
}

impl<T: Num> BitXor<TriVector3<T>> for Vector3<T> {
    type Output = Pseudo3<T>;

    /// Returns the outer product, `self.bitxor_spec(other)`.
    fn bitxor(self, other: TriVector3<T>) -> (r: Pseudo3<T>) {
        proof {
            T::operators_are_total();
        }
        Pseudo3 {
            e0123: self.e0 * other.e123
                + self.e1 * other.e032
                + self.e2 * other.e013
                + self.e3 * other.e021,
        }
    }
}

impl<T: Num> vstd::std_specs::ops::BitXorSpecImpl<TriVector3<T>> for Vector3<T> {
    open spec fn obeys_bitxor_spec() -> bool {
        true
    }

    open spec fn bitxor_req(self, other: TriVector3<T>) -> bool {
        true
    }

    /// The outer product of a vector and a trivector, a pseudoscalar.
    open spec fn bitxor_spec(self, other: TriVector3<T>) -> Pseudo3<T> {
        Pseudo3 {
            e0123: self.e0.mul_spec(other.e123)
                .add_spec(self.e1.mul_spec(other.e032))
                .add_spec(self.e2.mul_spec(other.e013))
                .add_spec(self.e3.mul_spec(other.e021)),
        }
    }
}

impl<T: Num> Mul<Scalar3<T>> for Vector3<T> {
    type Output = Vector3<T>;

    /// Returns the product, `self.mul_spec(other)`.
    fn mul(self, other: Scalar3<T>) -> (r: Vector3<T>) {
        proof {
            T::operators_are_total();
        }
        Vector3 {
            e0: self.e0 * other.0,
            e1: self.e1 * other.0,
            e2: self.e2 * other.0,
            e3: self.e3 * other.0,
        }
    }
}

impl<T: Num> vstd::std_specs::ops::MulSpecImpl<Scalar3<T>> for Vector3<T> {
    open spec fn obeys_mul_spec() -> bool {
        true
    }

    open spec fn mul_req(self, other: Scalar3<T>) -> bool {
        true
    }

    /// The geometric product of a vector and a scalar, a vector.
    open spec fn mul_spec(self, other: Scalar3<T>) -> Vector3<T> {
        Vector3 {
            e0: self.e0.mul_spec(other.0),
            e1: self.e1.mul_spec(other.0),
            e2: self.e2.mul_spec(other.0),
            e3: self.e3.mul_spec(other.0),
        }
    }
}

impl<T: Num> BitOr<Scalar3<T>> for Vector3<T> {
    type Output = Vector3<T>;

    /// Returns the inner product, `self.bitor_spec(other)`.
    fn bitor(self, other: Scalar3<T>) -> (r: Vector3<T>) {
        self * other
    }
}

impl<T: Num> vstd::std_specs::ops::BitOrSpecImpl<Scalar3<T>> for Vector3<T> {
    open spec fn obeys_bitor_spec() -> bool {
        true
    }

    open spec fn bitor_req(self, other: Scalar3<T>) -> bool {
        true
    }

    /// The inner product of a vector and a scalar, a vector.
    open spec fn bitor_spec(self, other: Scalar3<T>) -> Vector3<T> {
        self.mul_spec(other)
    }
}

impl<T: Num> BitXor<Scalar3<T>> for Vector3<T> {
    type Output = Vector3<T>;

    /// Returns the outer product, `self.bitxor_spec(other)`.
    fn bitxor(self, other: Scalar3<T>) -> (r: Vector3<T>) {
        self * other
    }
}

impl<T: Num> vstd::std_specs::ops::BitXorSpecImpl<Scalar3<T>> for Vector3<T> {
    open spec fn obeys_bitxor_spec() -> bool {
        true
    }

    open spec fn bitxor_req(self, other: Scalar3<T>) -> bool {
        true
    }

    /// The outer product of a vector and a scalar, a vector.
    open spec fn bitxor_spec(self, other: Scalar3<T>) -> Vector3<T> {
        self.mul_spec(other)
    }
}

impl<T: Num> Mul<Vector3<T>> for Vector3<T> {
    type Output = (Scalar3<T>, BiVector3<T>);

    /// Returns the geometric product, `self.mul_spec(other)`.
    fn mul(self, other: Vector3<T>) -> (r: (Scalar3<T>, BiVector3<T>)) {
        (self | other, self ^ other)
    }
}

impl<T: Num> vstd::std_specs::ops::MulSpecImpl<Vector3<T>> for Vector3<T> {
    open spec fn obeys_mul_spec() -> bool {
        true
    }

    open spec fn mul_req(self, other: Vector3<T>) -> bool {
        true
    }

    /// The geometric product of a vector and a vector: its scalar and bivector parts.
    open spec fn mul_spec(self, other: Vector3<T>) -> (Scalar3<T>, BiVector3<T>) {
        (self.bitor_spec(other), self.bitxor_spec(other))
    }
}

impl<T: Num> Mul<XBiVector3<T>> for Vector3<T> {
    type Output = (Vector3<T>, TriVector3<T>);

    /// Returns the geometric product, `self.mul_spec(other)`.
    fn mul(self, other: XBiVector3<T>) -> (r: (Vector3<T>, TriVector3<T>)) {
        (self | other, self ^ other)
    }
}

impl<T: Num> vstd::std_specs::ops::MulSpecImpl<XBiVector3<T>> for Vector3<T> {
    open spec fn obeys_mul_spec() -> bool {
        true
    }

    open spec fn mul_req(self, other: XBiVector3<T>) -> bool {
        true
    }

    /// The geometric product of a vector and an ideal bivector: its vector and trivector parts.
    open spec fn mul_spec(self, other: XBiVector3<T>) -> (Vector3<T>, TriVector3<T>) {
        (self.bitor_spec(other), self.bitxor_spec(other))
    }
}

impl<T: Num> Mul<EBiVector3<T>> for Vector3<T> {
    type Output = (Vector3<T>, TriVector3<T>);

    /// Returns the geometric product, `self.mul_spec(other)`.
    fn mul(self, other: EBiVector3<T>) -> (r: (Vector3<T>, TriVector3<T>)) {
        (self | other, self ^ other)
    }
}

impl<T: Num> vstd::std_specs::ops::MulSpecImpl<EBiVector3<T>> for Vector3<T> {
    open spec fn obeys_mul_spec() -> bool {
        true
    }

    open spec fn mul_req(self, other: EBiVector3<T>) -> bool {
        true
    }

    /// The geometric product of a vector and an Euclidean bivector: its vector and trivector parts.
    open spec fn mul_spec(self, other: EBiVector3<T>) -> (Vector3<T>, TriVector3<T>) {
        (self.bitor_spec(other), self.bitxor_spec(other))
    }
}

impl<T: Num> Mul<BiVector3<T>> for Vector3<T> {
    type Output = (Vector3<T>, TriVector3<T>);

    /// Returns the geometric product, `self.mul_spec(other)`.
    fn mul(self, other: BiVector3<T>) -> (r: (Vector3<T>, TriVector3<T>)) {
        (self | other, self ^ other)
    }
}

impl<T: Num> vstd::std_specs::ops::MulSpecImpl<BiVector3<T>> for Vector3<T> {
    open spec fn obeys_mul_spec() -> bool {
        true
    }

    open spec fn mul_req(self, other: BiVector3<T>) -> bool {
        true
    }

    /// The geometric product of a vector and a bivector: its vector and trivector parts.
    open spec fn mul_spec(self, other: BiVector3<T>) -> (Vector3<T>, TriVector3<T>) {
        (self.bitor_spec(other), self.bitxor_spec(other))
    }
}

impl<T: Num> Mul<TriVector3<T>> for Vector3<T> {
    type Output = (BiVector3<T>, Pseudo3<T>);

    /// Returns the geometric product, `self.mul_spec(other)`.
    fn mul(self, other: TriVector3<T>) -> (r: (BiVector3<T>, Pseudo3<T>)) {
        (self | other, self ^ other)
    }
}

impl<T: Num> vstd::std_specs::ops::MulSpecImpl<TriVector3<T>> for Vector3<T> {
    open spec fn obeys_mul_spec() -> bool {
        true
    }

    open spec fn mul_req(self, other: TriVector3<T>) -> bool {
        true
    }

    /// The geometric product of a vector and a trivector: its bivector and pseudoscalar parts.
    open spec fn mul_spec(self, other: TriVector3<T>) -> (BiVector3<T>, Pseudo3<T>) {
        (self.bitor_spec(other), self.bitxor_spec(other))
    }
}

impl<T: Num> Mul<Pseudo3<T>> for Vector3<T> {
    type Output = TriVector3<T>;

    /// Returns the geometric product, `self.mul_spec(other)`.
    fn mul(self, other: Pseudo3<T>) -> (r: TriVector3<T>) {
        self | other
    }
}

impl<T: Num> vstd::std_specs::ops::MulSpecImpl<Pseudo3<T>> for Vector3<T> {
    open spec fn obeys_mul_spec() -> bool {
        true
    }

    open spec fn mul_req(self, other: Pseudo3<T>) -> bool {
        true
    }

    /// The geometric product of a vector and a pseudoscalar, a trivector.
    open spec fn mul_spec(self, other: Pseudo3<T>) -> TriVector3<T> {
        self.bitor_spec(other)
    }
}

impl<T: Num> Div<Scalar3<T>> for Vector3<T> {
    type Output = Vector3<T>;

    /// Returns the quotient, `self.div_spec(other)`.
    fn div(self, other: Scalar3<T>) -> (r: Vector3<T>) {
        proof {
            T::operators_are_total();
        }
        Vector3 {
            e0: self.e0 / other.0,
            e1: self.e1 / other.0,
            e2: self.e2 / other.0,
            e3: self.e3 / other.0,
        }
    }
}

impl<T: Num> vstd::std_specs::ops::DivSpecImpl<Scalar3<T>> for Vector3<T> {
    open spec fn obeys_div_spec() -> bool {
        true
    }

    open spec fn div_req(self, other: Scalar3<T>) -> bool {
        true
    }

    /// Divides every coefficient by a scalar.
    open spec fn div_spec(self, other: Scalar3<T>) -> Vector3<T> {
        Vector3 {
            e0: self.e0.div_spec(other.0),
            e1: self.e1.div_spec(other.0),
            e2: self.e2.div_spec(other.0),
            e3: self.e3.div_spec(other.0),
        }
    }
}

impl<T: Num> DivAssign<Scalar3<T>> for Vector3<T> {
    /// Divides every coefficient by a scalar, in place.
    fn div_assign(&mut self, other: Scalar3<T>)
        ensures
            *final(self) == old(self).div_spec(other),
    {
        proof {
            T::operators_are_total();
        }
        self.e0 = self.e0 / other.0;
        self.e1 = self.e1 / other.0;
        self.e2 = self.e2 / other.0;
        self.e3 = self.e3 / other.0;
    }
}

} // verus!
