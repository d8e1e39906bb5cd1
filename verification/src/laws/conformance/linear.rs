//! The reverse, the negation, the sums and the differences of the
//! library stand for those of the multivectors.

use core::ops::{Add, Neg, Not, Sub};
use vstd::prelude::*;
use vstd::std_specs::ops::{AddSpec, NegSpec, NotSpec, SubSpec};

use crate::laws::exact::exact;
use crate::laws::table::{
    nothing,
    of_bivector2,
    of_bivector3,
    of_euclidean_bivector3,
    of_ideal_bivector3,
    of_pseudo2,
    of_pseudo3,
    of_scalar2,
    of_scalar3,
    of_trivector3,
    of_vector2,
    of_vector3,
    plus,
    reverse,
};
use crate::pga::elements::{
    BiVector2,
    BiVector3,
    EBiVector3,
    Pseudo2,
    Pseudo3,
    Scalar2,
    Scalar3,
    TriVector3,
    Vector2,
    Vector3,
    XBiVector3,
};
use crate::scalar::Num;

verus! {

/// The reverse of an element of the plane's algebra stands for the reverse of
/// the multivector that the element stands for.
pub proof fn reverse_in_the_plane<T: Num>(
    val: spec_fn(T) -> real,
    s: Scalar2<T>,
    v: Vector2<T>,
    b: BiVector2<T>,
    p: Pseudo2<T>,
)
    requires
        exact(val),
    ensures
        of_scalar2(val, s.not_spec()) == reverse(of_scalar2(val, s)),
        of_vector2(val, v.not_spec()) == reverse(of_vector2(val, v)),
        of_bivector2(val, b.not_spec()) == reverse(of_bivector2(val, b)),
        of_pseudo2(val, p.not_spec()) == reverse(of_pseudo2(val, p)),
{
}

/// The negation of an element of the plane's algebra stands for the negation
/// of the multivector, which, added to the multivector, gives zero.
pub proof fn negation_in_the_plane<T: Num>(
    val: spec_fn(T) -> real,
    s: Scalar2<T>,
    v: Vector2<T>,
    b: BiVector2<T>,
    p: Pseudo2<T>,
)
    requires
        exact(val),
    ensures
        plus(of_scalar2(val, s.neg_spec()), of_scalar2(val, s)) == nothing(),
        plus(of_vector2(val, v.neg_spec()), of_vector2(val, v)) == nothing(),
        plus(of_bivector2(val, b.neg_spec()), of_bivector2(val, b)) == nothing(),
        plus(of_pseudo2(val, p.neg_spec()), of_pseudo2(val, p)) == nothing(),
{
}

/// The reverse of an element of the space's algebra stands for the reverse of
/// the multivector that the element stands for.
pub proof fn reverse_in_the_space<T: Num>(
    val: spec_fn(T) -> real,
    s: Scalar3<T>,
    v: Vector3<T>,
    x: XBiVector3<T>,
    e: EBiVector3<T>,
    b: BiVector3<T>,
    t: TriVector3<T>,
    p: Pseudo3<T>,
)
    requires
        exact(val),
    ensures
        of_scalar3(val, s.not_spec()) == reverse(of_scalar3(val, s)),
        of_vector3(val, v.not_spec()) == reverse(of_vector3(val, v)),
        of_ideal_bivector3(val, x.not_spec()) == reverse(of_ideal_bivector3(val, x)),
        of_euclidean_bivector3(val, e.not_spec()) == reverse(of_euclidean_bivector3(val, e)),
        of_bivector3(val, b.not_spec()) == reverse(of_bivector3(val, b)),
        of_trivector3(val, t.not_spec()) == reverse(of_trivector3(val, t)),
        of_pseudo3(val, p.not_spec()) == reverse(of_pseudo3(val, p)),
{
}

/// The negation of an element of the space's algebra stands for the negation
/// of the multivector, which, added to the multivector, gives zero.
pub proof fn negation_in_the_space<T: Num>(
    val: spec_fn(T) -> real,
    s: Scalar3<T>,
    v: Vector3<T>,
    x: XBiVector3<T>,
    e: EBiVector3<T>,
    b: BiVector3<T>,
    t: TriVector3<T>,
    p: Pseudo3<T>,
)
    requires
        exact(val),
    ensures
        plus(of_scalar3(val, s.neg_spec()), of_scalar3(val, s)) == nothing(),
        plus(of_vector3(val, v.neg_spec()), of_vector3(val, v)) == nothing(),
        plus(of_ideal_bivector3(val, x.neg_spec()), of_ideal_bivector3(val, x)) == nothing(),
        plus(of_euclidean_bivector3(val, e.neg_spec()), of_euclidean_bivector3(val, e)) == nothing(),
        plus(of_bivector3(val, b.neg_spec()), of_bivector3(val, b)) == nothing(),
        plus(of_trivector3(val, t.neg_spec()), of_trivector3(val, t)) == nothing(),
        plus(of_pseudo3(val, p.neg_spec()), of_pseudo3(val, p)) == nothing(),
{
}

/// The sum of two elements stands for the sum of the multivectors that
/// the two stand for, and their difference, added to the second, for the
/// first.
pub proof fn sums_and_differences<T: Num>(
    val: spec_fn(T) -> real,
    s2: Scalar2<T>,
    s2_: Scalar2<T>,
    v2: Vector2<T>,
    v2_: Vector2<T>,
    b2: BiVector2<T>,
    b2_: BiVector2<T>,
    p2: Pseudo2<T>,
    p2_: Pseudo2<T>,
    s3: Scalar3<T>,
    s3_: Scalar3<T>,
    v3: Vector3<T>,
    v3_: Vector3<T>,
    x3: XBiVector3<T>,
    x3_: XBiVector3<T>,
    e3: EBiVector3<T>,
    e3_: EBiVector3<T>,
    b3: BiVector3<T>,
    b3_: BiVector3<T>,
    t3: TriVector3<T>,
    t3_: TriVector3<T>,
    p3: Pseudo3<T>,
    p3_: Pseudo3<T>,
)
    requires
        exact(val),
    ensures
        of_scalar2(val, s2.add_spec(s2_)) == plus(
            of_scalar2(val, s2),
            of_scalar2(val, s2_),
        ),
        plus(of_scalar2(val, s2.sub_spec(s2_)), of_scalar2(val, s2_))
            == of_scalar2(val, s2),
        of_vector2(val, v2.add_spec(v2_)) == plus(
            of_vector2(val, v2),
            of_vector2(val, v2_),
        ),
        plus(of_vector2(val, v2.sub_spec(v2_)), of_vector2(val, v2_))
            == of_vector2(val, v2),
        of_bivector2(val, b2.add_spec(b2_)) == plus(
            of_bivector2(val, b2),
            of_bivector2(val, b2_),
        ),
        plus(of_bivector2(val, b2.sub_spec(b2_)), of_bivector2(val, b2_))
            == of_bivector2(val, b2),
        of_pseudo2(val, p2.add_spec(p2_)) == plus(
            of_pseudo2(val, p2),
            of_pseudo2(val, p2_),
        ),
        plus(of_pseudo2(val, p2.sub_spec(p2_)), of_pseudo2(val, p2_))
            == of_pseudo2(val, p2),
        of_scalar3(val, s3.add_spec(s3_)) == plus(
            of_scalar3(val, s3),
            of_scalar3(val, s3_),
        ),
        plus(of_scalar3(val, s3.sub_spec(s3_)), of_scalar3(val, s3_))
            == of_scalar3(val, s3),
        of_vector3(val, v3.add_spec(v3_)) == plus(
            of_vector3(val, v3),
            of_vector3(val, v3_),
        ),
        plus(of_vector3(val, v3.sub_spec(v3_)), of_vector3(val, v3_))
            == of_vector3(val, v3),
        of_ideal_bivector3(val, x3.add_spec(x3_)) == plus(
            of_ideal_bivector3(val, x3),
            of_ideal_bivector3(val, x3_),
        ),
        plus(of_ideal_bivector3(val, x3.sub_spec(x3_)), of_ideal_bivector3(val, x3_))
            == of_ideal_bivector3(val, x3),
        of_bivector3(val, x3.add_spec(e3_)) == plus(
            of_ideal_bivector3(val, x3),
            of_euclidean_bivector3(val, e3_),
        ),
        plus(of_bivector3(val, x3.sub_spec(e3_)), of_euclidean_bivector3(val, e3_))
            == of_ideal_bivector3(val, x3),
        of_bivector3(val, x3.add_spec(b3_)) == plus(
            of_ideal_bivector3(val, x3),
            of_bivector3(val, b3_),
        ),
        plus(of_bivector3(val, x3.sub_spec(b3_)), of_bivector3(val, b3_))
            == of_ideal_bivector3(val, x3),
        of_bivector3(val, e3.add_spec(x3_)) == plus(
            of_euclidean_bivector3(val, e3),
            of_ideal_bivector3(val, x3_),
        ),
        plus(of_bivector3(val, e3.sub_spec(x3_)), of_ideal_bivector3(val, x3_))
            == of_euclidean_bivector3(val, e3),
        of_euclidean_bivector3(val, e3.add_spec(e3_)) == plus(
            of_euclidean_bivector3(val, e3),
            of_euclidean_bivector3(val, e3_),
        ),
        plus(of_euclidean_bivector3(val, e3.sub_spec(e3_)), of_euclidean_bivector3(val, e3_))
            == of_euclidean_bivector3(val, e3),
        of_bivector3(val, e3.add_spec(b3_)) == plus(
            of_euclidean_bivector3(val, e3),
            of_bivector3(val, b3_),
        ),
        plus(of_bivector3(val, e3.sub_spec(b3_)), of_bivector3(val, b3_))
            == of_euclidean_bivector3(val, e3),
        of_bivector3(val, b3.add_spec(x3_)) == plus(
            of_bivector3(val, b3),
            of_ideal_bivector3(val, x3_),
        ),
        plus(of_bivector3(val, b3.sub_spec(x3_)), of_ideal_bivector3(val, x3_))
            == of_bivector3(val, b3),
        of_bivector3(val, b3.add_spec(e3_)) == plus(
            of_bivector3(val, b3),
            of_euclidean_bivector3(val, e3_),
        ),
        plus(of_bivector3(val, b3.sub_spec(e3_)), of_euclidean_bivector3(val, e3_))
            == of_bivector3(val, b3),
        of_bivector3(val, b3.add_spec(b3_)) == plus(
            of_bivector3(val, b3),
            of_bivector3(val, b3_),
        ),
        plus(of_bivector3(val, b3.sub_spec(b3_)), of_bivector3(val, b3_))
            == of_bivector3(val, b3),
        of_trivector3(val, t3.add_spec(t3_)) == plus(
            of_trivector3(val, t3),
            of_trivector3(val, t3_),
        ),
        plus(of_trivector3(val, t3.sub_spec(t3_)), of_trivector3(val, t3_))
            == of_trivector3(val, t3),
        of_pseudo3(val, p3.add_spec(p3_)) == plus(
            of_pseudo3(val, p3),
            of_pseudo3(val, p3_),
        ),
        plus(of_pseudo3(val, p3.sub_spec(p3_)), of_pseudo3(val, p3_))
            == of_pseudo3(val, p3),
{
}

} // verus!
