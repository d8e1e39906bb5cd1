//! How the geometric product is made of the inner and the outer product.
//!
//! The product of an element of grade `r` and one of grade `s` has parts
//! of the grades between `|r - s|` and `r + s`. The part of the lowest
//! grade is the inner product, the part of the highest grade the outer
//! product. Where two elements of grade 2 or 3 are multiplied there is a
//! part in between, which is neither.

use core::ops::{BitOr, BitXor, Mul};
use vstd::prelude::*;
use vstd::std_specs::ops::{BitOrSpec, BitXorSpec, MulSpec};

use crate::pga::elements::{
    BiVector2,
    BiVector3,
    EBiVector3,
    Pseudo2,
    Pseudo3,
    Scalar2,
    Scalar3,
    TriVector3,
    Vector2,
    Vector3,
    XBiVector3,
};
use crate::scalar::Num;

verus! {

/// The geometric product of a scalar of the plane's algebra with each
/// element: its part of the lowest grade is the inner product, its part
/// of the highest grade the outer product.
pub proof fn products_of_scalar2<T: Num>(
    a: Scalar2<T>,
    s: Scalar2<T>,
    v: Vector2<T>,
    b: BiVector2<T>,
    p: Pseudo2<T>,
)
    ensures
        a.mul_spec(s) == a.bitor_spec(s),
        a.mul_spec(s) == a.bitxor_spec(s),
        a.mul_spec(v) == a.bitor_spec(v),
        a.mul_spec(v) == a.bitxor_spec(v),
        a.mul_spec(b) == a.bitor_spec(b),
        a.mul_spec(b) == a.bitxor_spec(b),
        a.mul_spec(p) == a.bitor_spec(p),
        a.mul_spec(p) == a.bitxor_spec(p),
{
}

/// The geometric product of a vector of the plane's algebra with each
/// element: its part of the lowest grade is the inner product, its part
/// of the highest grade the outer product.
pub proof fn products_of_vector2<T: Num>(
    a: Vector2<T>,
    s: Scalar2<T>,
    v: Vector2<T>,
    b: BiVector2<T>,
    p: Pseudo2<T>,
)
    ensures
        a.mul_spec(s) == a.bitor_spec(s),
        a.mul_spec(s) == a.bitxor_spec(s),
        a.mul_spec(v).0 == a.bitor_spec(v),
        a.mul_spec(v).1 == a.bitxor_spec(v),
        a.mul_spec(b).0 == a.bitor_spec(b),
        a.mul_spec(b).1 == a.bitxor_spec(b),
        a.mul_spec(p) == a.bitor_spec(p),
{
}

/// The geometric product of a bivector of the plane's algebra with each
/// element: its part of the lowest grade is the inner product, its part
/// of the highest grade the outer product.
pub proof fn products_of_bivector2<T: Num>(
    a: BiVector2<T>,
    s: Scalar2<T>,
    v: Vector2<T>,
    b: BiVector2<T>,
    p: Pseudo2<T>,
)
    ensures
        a.mul_spec(s) == a.bitor_spec(s),
        a.mul_spec(s) == a.bitxor_spec(s),
        a.mul_spec(v).0 == a.bitor_spec(v),
        a.mul_spec(v).1 == a.bitxor_spec(v),
        a.mul_spec(b).0 == a.bitor_spec(b),
        a.mul_spec(p) == a.bitor_spec(p),
{
}

/// The geometric product of a pseudoscalar of the plane's algebra with each
/// element: its part of the lowest grade is the inner product, its part
/// of the highest grade the outer product.
pub proof fn products_of_pseudo2<T: Num>(
    a: Pseudo2<T>,
    s: Scalar2<T>,
    v: Vector2<T>,
    b: BiVector2<T>,
)
    ensures
        a.mul_spec(s) == a.bitor_spec(s),
        a.mul_spec(s) == a.bitxor_spec(s),
        a.mul_spec(v) == a.bitor_spec(v),
        a.mul_spec(b) == a.bitor_spec(b),
{
}

/// The geometric product of a scalar of the space's algebra with each
/// element: its part of the lowest grade is the inner product, its part
/// of the highest grade the outer product.
pub proof fn products_of_scalar3<T: Num>(
    a: Scalar3<T>,
    s: Scalar3<T>,
    v: Vector3<T>,
    x: XBiVector3<T>,
    e: EBiVector3<T>,
    b: BiVector3<T>,
    t: TriVector3<T>,
    p: Pseudo3<T>,
)
    ensures
        a.mul_spec(s) == a.bitor_spec(s),
        a.mul_spec(s) == a.bitxor_spec(s),
        a.mul_spec(v) == a.bitor_spec(v),
        a.mul_spec(v) == a.bitxor_spec(v),
        a.mul_spec(x) == a.bitor_spec(x),
        a.mul_spec(x) == a.bitxor_spec(x),
        a.mul_spec(e) == a.bitor_spec(e),
        a.mul_spec(e) == a.bitxor_spec(e),
        a.mul_spec(b) == a.bitor_spec(b),
        a.mul_spec(b) == a.bitxor_spec(b),
        a.mul_spec(t) == a.bitor_spec(t),
        a.mul_spec(t) == a.bitxor_spec(t),
        a.mul_spec(p) == a.bitor_spec(p),
        a.mul_spec(p) == a.bitxor_spec(p),
{
}

/// The geometric product of a vector of the space's algebra with each
/// element: its part of the lowest grade is the inner product, its part
/// of the highest grade the outer product.
pub proof fn products_of_vector3<T: Num>(
    a: Vector3<T>,
    s: Scalar3<T>,
    v: Vector3<T>,
    x: XBiVector3<T>,
    e: EBiVector3<T>,
    b: BiVector3<T>,
    t: TriVector3<T>,
    p: Pseudo3<T>,
)
    ensures
        a.mul_spec(s) == a.bitor_spec(s),
        a.mul_spec(s) == a.bitxor_spec(s),
        a.mul_spec(v).0 == a.bitor_spec(v),
        a.mul_spec(v).1 == a.bitxor_spec(v),
        a.mul_spec(x).0 == a.bitor_spec(x),
        a.mul_spec(x).1 == a.bitxor_spec(x),
        a.mul_spec(e).0 == a.bitor_spec(e),
        a.mul_spec(e).1 == a.bitxor_spec(e),
        a.mul_spec(b).0 == a.bitor_spec(b),
        a.mul_spec(b).1 == a.bitxor_spec(b),
        a.mul_spec(t).0 == a.bitor_spec(t),
        a.mul_spec(t).1 == a.bitxor_spec(t),
        a.mul_spec(p) == a.bitor_spec(p),
{
}

/// The geometric product of an ideal bivector of the space's algebra with each
/// element: its part of the lowest grade is the inner product, its part
/// of the highest grade the outer product.
pub proof fn products_of_ideal_bivector3<T: Num>(
    a: XBiVector3<T>,
    s: Scalar3<T>,
    v: Vector3<T>,
    e: EBiVector3<T>,
    t: TriVector3<T>,
    b: BiVector3<T>,
)
    ensures
        a.mul_spec(s) == a.bitor_spec(s),
        a.mul_spec(s) == a.bitxor_spec(s),
        a.mul_spec(v).0 == a.bitor_spec(v),
        a.mul_spec(v).1 == a.bitxor_spec(v),
        a.mul_spec(e).1 == a.bitxor_spec(e),
        a.mul_spec(b).1 == a.bitxor_spec(b),
{
}

/// The geometric product of an Euclidean bivector of the space's algebra with each
/// element: its part of the lowest grade is the inner product, its part
/// of the highest grade the outer product.
pub proof fn products_of_euclidean_bivector3<T: Num>(
    a: EBiVector3<T>,
    s: Scalar3<T>,
    v: Vector3<T>,
    x: XBiVector3<T>,
    e: EBiVector3<T>,
    b: BiVector3<T>,
    t: TriVector3<T>,
    p: Pseudo3<T>,
)
    ensures
        a.mul_spec(s) == a.bitor_spec(s),
        a.mul_spec(s) == a.bitxor_spec(s),
        a.mul_spec(v).0 == a.bitor_spec(v),
        a.mul_spec(v).1 == a.bitxor_spec(v),
        a.mul_spec(x).1 == a.bitxor_spec(x),
        a.mul_spec(e).0 == a.bitor_spec(e),
        a.mul_spec(b).0 == a.bitor_spec(b),
        a.mul_spec(b).2 == a.bitxor_spec(b),
        a.mul_spec(t).0 == a.bitor_spec(t),
        a.mul_spec(p) == a.bitor_spec(p),
{
}

/// The geometric product of a bivector of the space's algebra with each
/// element: its part of the lowest grade is the inner product, its part
/// of the highest grade the outer product.
pub proof fn products_of_bivector3<T: Num>(
    a: BiVector3<T>,
    s: Scalar3<T>,
    v: Vector3<T>,
    x: XBiVector3<T>,
    e: EBiVector3<T>,
    b: BiVector3<T>,
    t: TriVector3<T>,
    p: Pseudo3<T>,
)
    ensures
        a.mul_spec(s) == a.bitor_spec(s),
        a.mul_spec(s) == a.bitxor_spec(s),
        a.mul_spec(v).0 == a.bitor_spec(v),
        a.mul_spec(v).1 == a.bitxor_spec(v),
        a.mul_spec(x).1 == a.bitxor_spec(x),
        a.mul_spec(e).0 == a.bitor_spec(e),
        a.mul_spec(e).2 == a.bitxor_spec(e),
        a.mul_spec(b).0 == a.bitor_spec(b),
        a.mul_spec(b).2 == a.bitxor_spec(b),
        a.mul_spec(t).0 == a.bitor_spec(t),
        a.mul_spec(p) == a.bitor_spec(p),
{
}

/// The geometric product of a trivector of the space's algebra with each
/// element: its part of the lowest grade is the inner product, its part
/// of the highest grade the outer product.
pub proof fn products_of_trivector3<T: Num>(
    a: TriVector3<T>,
    s: Scalar3<T>,
    v: Vector3<T>,
    x: XBiVector3<T>,
    e: EBiVector3<T>,
    b: BiVector3<T>,
    t: TriVector3<T>,
    p: Pseudo3<T>,
)
    ensures
        a.mul_spec(s) == a.bitor_spec(s),
        a.mul_spec(s) == a.bitxor_spec(s),
        a.mul_spec(v).0 == a.bitor_spec(v),
        a.mul_spec(v).1 == a.bitxor_spec(v),
        a.mul_spec(e).0 == a.bitor_spec(e),
        a.mul_spec(b).0 == a.bitor_spec(b),
        a.mul_spec(t).0 == a.bitor_spec(t),
        a.mul_spec(p) == a.bitor_spec(p),
{
}

/// The geometric product of a pseudoscalar of the space's algebra with each
/// element: its part of the lowest grade is the inner product, its part
/// of the highest grade the outer product.
pub proof fn products_of_pseudo3<T: Num>(
    a: Pseudo3<T>,
    s: Scalar3<T>,
    v: Vector3<T>,
    e: EBiVector3<T>,
    b: BiVector3<T>,
    t: TriVector3<T>,
)
    ensures
        a.mul_spec(s) == a.bitor_spec(s),
        a.mul_spec(s) == a.bitxor_spec(s),
        a.mul_spec(v) == a.bitor_spec(v),
        a.mul_spec(e) == a.bitor_spec(e),
        a.mul_spec(b) == a.bitor_spec(b),
        a.mul_spec(t) == a.bitor_spec(t),
{
}

} // verus!
