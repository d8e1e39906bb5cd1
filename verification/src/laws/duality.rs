//! Duality is an involution.

use vstd::prelude::*;

use crate::pga::elements::{
    BiVector2,
    BiVector3,
    Dual,
    EBiVector3,
    Pseudo2,
    Pseudo3,
    Scalar2,
    Scalar3,
    TriVector3,
    Vector2,
    Vector3,
    XBiVector3,
};
use crate::scalar::Num;

verus! {

/// The dual of the dual of an element of the plane's algebra is the
/// element itself.
pub proof fn dual_of_dual_2<T: Num>(s: Scalar2<T>, v: Vector2<T>, b: BiVector2<T>, p: Pseudo2<T>)
    ensures
        s.dual_spec().dual_spec() == s,
        v.dual_spec().dual_spec() == v,
        b.dual_spec().dual_spec() == b,
        p.dual_spec().dual_spec() == p,
{
}

/// The dual of the dual of an element of the space's algebra is the
/// element itself.
pub proof fn dual_of_dual_3<T: Num>(
    s: Scalar3<T>,
    v: Vector3<T>,
    x: XBiVector3<T>,
    e: EBiVector3<T>,
    b: BiVector3<T>,
    t: TriVector3<T>,
    p: Pseudo3<T>,
)
    ensures
        s.dual_spec().dual_spec() == s,
        v.dual_spec().dual_spec() == v,
        x.dual_spec().dual_spec() == x,
        e.dual_spec().dual_spec() == e,
        b.dual_spec().dual_spec() == b,
        t.dual_spec().dual_spec() == t,
        p.dual_spec().dual_spec() == p,
{
}

/// Duality maps the grade `k` to the grade that complements it: scalars
/// to pseudoscalars, vectors to the elements of the grade below the
/// pseudoscalar, and back. The ideal and the Euclidean part of a
/// bivector of space are each other's duals.
pub proof fn dual_exchanges_parts<T: Num>(x: XBiVector3<T>, e: EBiVector3<T>)
    ensures
        x.dual_spec() == (EBiVector3 { e12: x.e03, e31: x.e02, e23: x.e01 }),
        e.dual_spec() == (XBiVector3 { e01: e.e23, e02: e.e31, e03: e.e12 }),
        (BiVector3 {
            e01: x.e01,
            e02: x.e02,
            e03: x.e03,
            e12: e.e12,
            e31: e.e31,
            e23: e.e23,
        }).dual_spec() == (BiVector3 {
            e01: e.dual_spec().e01,
            e02: e.dual_spec().e02,
            e03: e.dual_spec().e03,
            e12: x.dual_spec().e12,
            e31: x.dual_spec().e31,
            e23: x.dual_spec().e23,
        }),
{
}

} // verus!
