//! The graded elements of the algebra and the duality between them.

use core::ops::{BitOr, BitXor, Mul};
use vstd::prelude::*;
use vstd::std_specs::ops::{BitOrSpec, BitXorSpec, MulSpec};

pub mod bivector;
pub mod pseudo;
pub mod scalar;
pub mod trivector;
pub mod vector;

pub use bivector::{BiVector2, BiVector3, EBiVector3, XBiVector3};
pub use pseudo::{Pseudo2, Pseudo3};
pub use scalar::{Scalar2, Scalar3};
pub use trivector::TriVector3;
pub use vector::{Vector2, Vector3};

verus! {

/// A trait for duality operations.
pub trait Dual: Sized {
    /// Dual type of the element.
    type Output;

    /// The dual of the element.
    spec fn dual_spec(self) -> Self::Output;

    /// Returns the dual of the element.
    fn dual(self) -> (r: Self::Output)
        ensures
            r == self.dual_spec(),
    ;
}

/// Returns the inner product of two elements, `a | b`: the part of their
/// geometric product whose grade is the difference of the two grades.
///
/// The product has to be defined on these operands, as it is for every
/// pair of elements of this algebra whose inner product does not vanish.
pub fn inner<A, B>(a: A, b: B) -> (r: A::Output) where A: BitOr<B>
    requires
        <A as BitOrSpec<B>>::obeys_bitor_spec(),
        a.bitor_req(b),
    ensures
        r == a.bitor_spec(b),
{
    a | b
}

/// Returns the outer product of two elements, `a ^ b`: the part of their
/// geometric product whose grade is the sum of the two grades.
///
/// The product has to be defined on these operands, as it is for every
/// pair of elements of this algebra whose outer product does not vanish.
pub fn outer<A, B>(a: A, b: B) -> (r: A::Output) where A: BitXor<B>
    requires
        <A as BitXorSpec<B>>::obeys_bitxor_spec(),
        a.bitxor_req(b),
    ensures
        r == a.bitxor_spec(b),
{
    a ^ b
}

/// Returns the geometric product of two elements, `a * b`. Where the
/// product has parts of more than one grade, it is the tuple of the
/// parts, in the order of their grades.
///
/// The product has to be defined on these operands, as it is for every
/// pair of elements of this algebra whose product does not vanish.
pub fn geometric<A, B>(a: A, b: B) -> (r: A::Output) where A: Mul<B>
    requires
        <A as MulSpec<B>>::obeys_mul_spec(),
        a.mul_req(b),
    ensures
        r == a.mul_spec(b),
{
    a * b
}

/// The regressive product of two elements: the dual of the outer product
/// of their duals.
pub open spec fn regressive_spec<T, U, R>(lhs: T, rhs: U) -> R where
    T: Dual,
    U: Dual,
    T::Output: BitXor<U::Output>,
    <T::Output as BitXor<U::Output>>::Output: Dual<Output = R>,
 {
    lhs.dual_spec().bitxor_spec(rhs.dual_spec()).dual_spec()
}

/// Joins two elements: computes their regressive product.
///
/// The outer product of the duals has to be defined on these operands,
/// as it is for every pair of elements of this algebra.
pub fn regressive<T, U, R>(lhs: T, rhs: U) -> (r: R) where
    T: Dual,
    U: Dual,
    T::Output: BitXor<U::Output>,
    <T::Output as BitXor<U::Output>>::Output: Dual<Output = R>,

    requires
        <T::Output as BitXorSpec<U::Output>>::obeys_bitxor_spec(),
        lhs.dual_spec().bitxor_req(rhs.dual_spec()),
    ensures
        r == regressive_spec::<T, U, R>(lhs, rhs),
{
    (lhs.dual() ^ rhs.dual()).dual()
}

/// The regressive product of three elements: the dual of the outer
/// product of their duals.
pub open spec fn regressive3_spec<T, U, Y, R>(a: T, b: U, c: Y) -> R where
    T: Dual,
    U: Dual,
    Y: Dual,
    T::Output: BitXor<U::Output>,
    <T::Output as BitXor<U::Output>>::Output: BitXor<Y::Output>,
    <<T::Output as BitXor<U::Output>>::Output as BitXor<Y::Output>>::Output: Dual<Output = R>,
 {
    a.dual_spec().bitxor_spec(b.dual_spec()).bitxor_spec(c.dual_spec()).dual_spec()
}

/// Joins three elements: computes their regressive product.
///
/// Both outer products have to be defined on their operands, as they are
/// for the elements of this algebra.
pub fn regressive3<T, U, Y, R>(a: T, b: U, c: Y) -> (r: R) where
    T: Dual,
    U: Dual,
    Y: Dual,
    T::Output: BitXor<U::Output>,
    <T::Output as BitXor<U::Output>>::Output: BitXor<Y::Output>,
    <<T::Output as BitXor<U::Output>>::Output as BitXor<Y::Output>>::Output: Dual<Output = R>,

    requires
        <T::Output as BitXorSpec<U::Output>>::obeys_bitxor_spec(),
        <<T::Output as BitXor<U::Output>>::Output as BitXorSpec<Y::Output>>::obeys_bitxor_spec(),
        a.dual_spec().bitxor_req(b.dual_spec()),
        a.dual_spec().bitxor_spec(b.dual_spec()).bitxor_req(c.dual_spec()),
    ensures
        r == regressive3_spec::<T, U, Y, R>(a, b, c),
{
    (a.dual() ^ b.dual() ^ c.dual()).dual()
}

} // verus!
