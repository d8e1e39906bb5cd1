//! The geometric products of the space's algebra conform to the multiplication table.

use core::ops::{Mul};
use vstd::prelude::*;
use vstd::std_specs::ops::{MulSpec};

use crate::laws::exact::exact;
use crate::laws::reals::{sign, zero};
use crate::laws::table::{
    geometric,
    of_bivector3,
    of_euclidean_bivector3,
    of_ideal_bivector3,
    of_pseudo3,
    of_scalar3,
    of_trivector3,
    of_vector3,
    part,
    plus,
};
use crate::pga::elements::{BiVector3, EBiVector3, Pseudo3, Scalar3, TriVector3, Vector3, XBiVector3};
use crate::scalar::Num;

verus! {

/// The geometric product of a scalar and a scalar stands for the
/// product of the multivectors that the two stand for.
pub proof fn geometric_scalar_scalar<T: Num>(val: spec_fn(T) -> real, a: Scalar3<T>, b: Scalar3<T>)
    requires
        exact(val),
    ensures
        ({
            let product = geometric(of_scalar3(val, a), of_scalar3(val, b));
            of_scalar3(val, a.mul_spec(b)) == product
        }),
{
    zero(val(a.0));
    zero(val(b.0));
}

/// The geometric product of a scalar and a vector stands for the
/// product of the multivectors that the two stand for.
pub proof fn geometric_scalar_vector<T: Num>(val: spec_fn(T) -> real, a: Scalar3<T>, b: Vector3<T>)
    requires
        exact(val),
    ensures
        ({
            let product = geometric(of_scalar3(val, a), of_vector3(val, b));
            of_vector3(val, a.mul_spec(b)) == product
        }),
{
    zero(val(a.0));
    zero(val(b.e0));
    zero(val(b.e1));
    zero(val(b.e2));
    zero(val(b.e3));
}

/// The geometric product of a scalar and an ideal bivector stands for the
/// product of the multivectors that the two stand for.
pub proof fn geometric_scalar_ideal_bivector<T: Num>(val: spec_fn(T) -> real, a: Scalar3<T>, b: XBiVector3<T>)
    requires
        exact(val),
    ensures
        ({
            let product = geometric(of_scalar3(val, a), of_ideal_bivector3(val, b));
            of_ideal_bivector3(val, a.mul_spec(b)) == product
        }),
{
    zero(val(a.0));
    zero(val(b.e01));
    zero(val(b.e02));
    zero(val(b.e03));
}

/// The geometric product of a scalar and an Euclidean bivector stands for the
/// product of the multivectors that the two stand for.
pub proof fn geometric_scalar_euclidean_bivector<T: Num>(val: spec_fn(T) -> real, a: Scalar3<T>, b: EBiVector3<T>)
    requires
        exact(val),
    ensures
        ({
            let product = geometric(of_scalar3(val, a), of_euclidean_bivector3(val, b));
            of_euclidean_bivector3(val, a.mul_spec(b)) == product
        }),
{
    zero(val(a.0));
    zero(val(b.e12));
    zero(-val(b.e31));
    zero(val(b.e23));
    sign(val(a.0), val(b.e31));
}

/// The geometric product of a scalar and a bivector stands for the
/// product of the multivectors that the two stand for.
pub proof fn geometric_scalar_bivector<T: Num>(val: spec_fn(T) -> real, a: Scalar3<T>, b: BiVector3<T>)
    requires
        exact(val),
    ensures
        ({
            let product = geometric(of_scalar3(val, a), of_bivector3(val, b));
            of_bivector3(val, a.mul_spec(b)) == product
        }),
{
    zero(val(a.0));
    zero(val(b.e01));
    zero(val(b.e02));
    zero(val(b.e03));
    zero(val(b.e12));
    zero(-val(b.e31));
    zero(val(b.e23));
    sign(val(a.0), val(b.e31));
}

/// The geometric product of a scalar and a trivector stands for the
/// product of the multivectors that the two stand for.
pub proof fn geometric_scalar_trivector<T: Num>(val: spec_fn(T) -> real, a: Scalar3<T>, b: TriVector3<T>)
    requires
        exact(val),
    ensures
        ({
            let product = geometric(of_scalar3(val, a), of_trivector3(val, b));
            of_trivector3(val, a.mul_spec(b)) == product
        }),
{
    zero(val(a.0));
    zero(-val(b.e021));
    zero(val(b.e013));
    zero(-val(b.e032));
    zero(val(b.e123));
    sign(val(a.0), val(b.e021));
    sign(val(a.0), val(b.e032));
}

/// The geometric product of a scalar and a pseudoscalar stands for the
/// product of the multivectors that the two stand for.
pub proof fn geometric_scalar_pseudo<T: Num>(val: spec_fn(T) -> real, a: Scalar3<T>, b: Pseudo3<T>)
    requires
        exact(val),
    ensures
        ({
            let product = geometric(of_scalar3(val, a), of_pseudo3(val, b));
            of_pseudo3(val, a.mul_spec(b)) == product
        }),
{
    zero(val(a.0));
    zero(val(b.e0123));
}

/// The geometric product of a vector and a scalar stands for the
/// product of the multivectors that the two stand for.
pub proof fn geometric_vector_scalar<T: Num>(val: spec_fn(T) -> real, a: Vector3<T>, b: Scalar3<T>)
    requires
        exact(val),
    ensures
        ({
            let product = geometric(of_vector3(val, a), of_scalar3(val, b));
            of_vector3(val, a.mul_spec(b)) == product
        }),
{
    zero(val(a.e0));
    zero(val(a.e1));
    zero(val(a.e2));
    zero(val(a.e3));
    zero(val(b.0));
}

/// The geometric product of a vector and a vector stands for the
/// product of the multivectors that the two stand for.
pub proof fn geometric_vector_vector<T: Num>(val: spec_fn(T) -> real, a: Vector3<T>, b: Vector3<T>)
    requires
        exact(val),
    ensures
        ({
            let product = geometric(of_vector3(val, a), of_vector3(val, b));
            let r = a.mul_spec(b);
            plus(of_scalar3(val, r.0), of_bivector3(val, r.1)) == product
        }),
{
    zero(val(a.e0));
    zero(val(a.e1));
    zero(val(a.e2));
    zero(val(a.e3));
    zero(val(b.e0));
    zero(val(b.e1));
    zero(val(b.e2));
    zero(val(b.e3));
}

/// The geometric product of a vector and an ideal bivector stands for the
/// product of the multivectors that the two stand for.
pub proof fn geometric_vector_ideal_bivector<T: Num>(val: spec_fn(T) -> real, a: Vector3<T>, b: XBiVector3<T>)
    requires
        exact(val),
    ensures
        ({
            let product = geometric(of_vector3(val, a), of_ideal_bivector3(val, b));
            let r = a.mul_spec(b);
            plus(of_vector3(val, r.0), of_trivector3(val, r.1)) == product
        }),
{
    zero(val(a.e0));
    zero(val(a.e1));
    zero(val(a.e2));
    zero(val(a.e3));
    zero(val(b.e01));
    zero(val(b.e02));
    zero(val(b.e03));
}

/// The geometric product of a vector and an Euclidean bivector stands for the
/// product of the multivectors that the two stand for.
pub proof fn geometric_vector_euclidean_bivector<T: Num>(val: spec_fn(T) -> real, a: Vector3<T>, b: EBiVector3<T>)
    requires
        exact(val),
    ensures
        ({
            let product = geometric(of_vector3(val, a), of_euclidean_bivector3(val, b));
            let r = a.mul_spec(b);
            plus(of_vector3(val, r.0), of_trivector3(val, r.1)) == product
        }),
{
    zero(val(a.e0));
    zero(val(a.e1));
    zero(val(a.e2));
    zero(val(a.e3));
    zero(val(b.e12));
    zero(-val(b.e31));
    zero(val(b.e23));
    sign(val(a.e0), val(b.e31));
    sign(val(a.e1), val(b.e31));
    sign(val(a.e2), val(b.e31));
    sign(val(a.e3), val(b.e31));
}

/// The geometric product of a vector and a bivector stands for the
/// product of the multivectors that the two stand for.
pub proof fn geometric_vector_bivector<T: Num>(val: spec_fn(T) -> real, a: Vector3<T>, b: BiVector3<T>)
    requires
        exact(val),
    ensures
        ({
            let product = geometric(of_vector3(val, a), of_bivector3(val, b));
            let r = a.mul_spec(b);
            plus(of_vector3(val, r.0), of_trivector3(val, r.1)) == product
        }),
{
    zero(val(a.e0));
    zero(val(a.e1));
    zero(val(a.e2));
    zero(val(a.e3));
    zero(val(b.e01));
    zero(val(b.e02));
    zero(val(b.e03));
    zero(val(b.e12));
    zero(-val(b.e31));
    zero(val(b.e23));
    sign(val(a.e0), val(b.e31));
    sign(val(a.e1), val(b.e31));
    sign(val(a.e2), val(b.e31));
    sign(val(a.e3), val(b.e31));
}

/// The geometric product of a vector and a trivector stands for the
/// product of the multivectors that the two stand for.
pub proof fn geometric_vector_trivector<T: Num>(val: spec_fn(T) -> real, a: Vector3<T>, b: TriVector3<T>)
    requires
        exact(val),
    ensures
        ({
            let product = geometric(of_vector3(val, a), of_trivector3(val, b));
            let r = a.mul_spec(b);
            plus(of_bivector3(val, r.0), of_pseudo3(val, r.1)) == product
        }),
{
    zero(val(a.e0));
    zero(val(a.e1));
    zero(val(a.e2));
    zero(val(a.e3));
    zero(-val(b.e021));
    zero(val(b.e013));
    zero(-val(b.e032));
    zero(val(b.e123));
    sign(val(a.e1), val(b.e021));
    sign(val(a.e1), val(b.e032));
    sign(val(a.e2), val(b.e021));
    sign(val(a.e2), val(b.e032));
    sign(val(a.e3), val(b.e021));
    sign(val(a.e3), val(b.e032));
}

/// The geometric product of a vector and a pseudoscalar stands for the
/// product of the multivectors that the two stand for.
pub proof fn geometric_vector_pseudo<T: Num>(val: spec_fn(T) -> real, a: Vector3<T>, b: Pseudo3<T>)
    requires
        exact(val),
    ensures
        ({
            let product = geometric(of_vector3(val, a), of_pseudo3(val, b));
            of_trivector3(val, a.mul_spec(b)) == product
        }),
{
    zero(val(a.e0));
    zero(val(a.e1));
    zero(val(a.e2));
    zero(val(a.e3));
    zero(val(b.e0123));
}

/// The geometric product of an ideal bivector and a scalar stands for the
/// product of the multivectors that the two stand for.
pub proof fn geometric_ideal_bivector_scalar<T: Num>(val: spec_fn(T) -> real, a: XBiVector3<T>, b: Scalar3<T>)
    requires
        exact(val),
    ensures
        ({
            let product = geometric(of_ideal_bivector3(val, a), of_scalar3(val, b));
            of_ideal_bivector3(val, a.mul_spec(b)) == product
        }),
{
    zero(val(a.e01));
    zero(val(a.e02));
    zero(val(a.e03));
    zero(val(b.0));
}

/// The geometric product of an ideal bivector and a vector stands for the
/// product of the multivectors that the two stand for.
pub proof fn geometric_ideal_bivector_vector<T: Num>(val: spec_fn(T) -> real, a: XBiVector3<T>, b: Vector3<T>)
    requires
        exact(val),
    ensures
        ({
            let product = geometric(of_ideal_bivector3(val, a), of_vector3(val, b));
            let r = a.mul_spec(b);
            plus(of_vector3(val, r.0), of_trivector3(val, r.1)) == product
        }),
{
    zero(val(a.e01));
    zero(val(a.e02));
    zero(val(a.e03));
    zero(val(b.e0));
    zero(val(b.e1));
    zero(val(b.e2));
    zero(val(b.e3));
}

/// The geometric product of an ideal bivector and an Euclidean bivector stands for the
/// product of the multivectors that the two stand for.
pub proof fn geometric_ideal_bivector_euclidean_bivector<T: Num>(val: spec_fn(T) -> real, a: XBiVector3<T>, b: EBiVector3<T>)
    requires
        exact(val),
    ensures
        ({
            let product = geometric(of_ideal_bivector3(val, a), of_euclidean_bivector3(val, b));
            let r = a.mul_spec(b);
            plus(of_ideal_bivector3(val, r.0), of_pseudo3(val, r.1)) == product
        }),
{
    zero(val(a.e01));
    zero(val(a.e02));
    zero(val(a.e03));
    zero(val(b.e12));
    zero(-val(b.e31));
    zero(val(b.e23));
    sign(val(a.e01), val(b.e31));
    sign(val(a.e02), val(b.e31));
    sign(val(a.e03), val(b.e31));
}

/// The geometric product of an ideal bivector and a bivector stands for the
/// product of the multivectors that the two stand for.
pub proof fn geometric_ideal_bivector_bivector<T: Num>(val: spec_fn(T) -> real, a: XBiVector3<T>, b: BiVector3<T>)
    requires
        exact(val),
    ensures
        ({
            let product = geometric(of_ideal_bivector3(val, a), of_bivector3(val, b));
            let r = a.mul_spec(b);
            plus(of_ideal_bivector3(val, r.0), of_pseudo3(val, r.1)) == product
        }),
{
    zero(val(a.e01));
    zero(val(a.e02));
    zero(val(a.e03));
    zero(val(b.e01));
    zero(val(b.e02));
    zero(val(b.e03));
    zero(val(b.e12));
    zero(-val(b.e31));
    zero(val(b.e23));
    sign(val(a.e01), val(b.e31));
    sign(val(a.e02), val(b.e31));
    sign(val(a.e03), val(b.e31));
}

/// The geometric product of an ideal bivector and a trivector stands for the
/// product of the multivectors that the two stand for.
pub proof fn geometric_ideal_bivector_trivector<T: Num>(val: spec_fn(T) -> real, a: XBiVector3<T>, b: TriVector3<T>)
    requires
        exact(val),
    ensures
        ({
            let product = geometric(of_ideal_bivector3(val, a), of_trivector3(val, b));
            of_trivector3(val, a.mul_spec(b)) == product
        }),
{
    zero(val(a.e01));
    zero(val(a.e02));
    zero(val(a.e03));
    zero(-val(b.e021));
    zero(val(b.e013));
    zero(-val(b.e032));
    zero(val(b.e123));
}

/// The geometric product of an Euclidean bivector and a scalar stands for the
/// product of the multivectors that the two stand for.
pub proof fn geometric_euclidean_bivector_scalar<T: Num>(val: spec_fn(T) -> real, a: EBiVector3<T>, b: Scalar3<T>)
    requires
        exact(val),
    ensures
        ({
            let product = geometric(of_euclidean_bivector3(val, a), of_scalar3(val, b));
            of_euclidean_bivector3(val, a.mul_spec(b)) == product
        }),
{
    zero(val(a.e12));
    zero(-val(a.e31));
    zero(val(a.e23));
    zero(val(b.0));
    sign(val(a.e31), val(b.0));
}

/// The geometric product of an Euclidean bivector and a vector stands for the
/// product of the multivectors that the two stand for.
pub proof fn geometric_euclidean_bivector_vector<T: Num>(val: spec_fn(T) -> real, a: EBiVector3<T>, b: Vector3<T>)
    requires
        exact(val),
    ensures
        ({
            let product = geometric(of_euclidean_bivector3(val, a), of_vector3(val, b));
            let r = a.mul_spec(b);
            plus(of_vector3(val, r.0), of_trivector3(val, r.1)) == product
        }),
{
    zero(val(a.e12));
    zero(-val(a.e31));
    zero(val(a.e23));
    zero(val(b.e0));
    zero(val(b.e1));
    zero(val(b.e2));
    zero(val(b.e3));
    sign(val(a.e31), val(b.e0));
    sign(val(a.e31), val(b.e1));
    sign(val(a.e31), val(b.e2));
    sign(val(a.e31), val(b.e3));
}

/// The geometric product of an Euclidean bivector and an ideal bivector stands for the
/// product of the multivectors that the two stand for.
pub proof fn geometric_euclidean_bivector_ideal_bivector<T: Num>(val: spec_fn(T) -> real, a: EBiVector3<T>, b: XBiVector3<T>)
    requires
        exact(val),
    ensures
        ({
            let product = geometric(of_euclidean_bivector3(val, a), of_ideal_bivector3(val, b));
            let r = a.mul_spec(b);
            plus(of_ideal_bivector3(val, r.0), of_pseudo3(val, r.1)) == product
        }),
{
    zero(val(a.e12));
    zero(-val(a.e31));
    zero(val(a.e23));
    zero(val(b.e01));
    zero(val(b.e02));
    zero(val(b.e03));
    sign(val(a.e31), val(b.e01));
    sign(val(a.e31), val(b.e02));
    sign(val(a.e31), val(b.e03));
}

/// The geometric product of an Euclidean bivector and an Euclidean bivector stands for the
/// product of the multivectors that the two stand for.
pub proof fn geometric_euclidean_bivector_euclidean_bivector<T: Num>(val: spec_fn(T) -> real, a: EBiVector3<T>, b: EBiVector3<T>)
    requires
        exact(val),
    ensures
        ({
            let product = geometric(of_euclidean_bivector3(val, a), of_euclidean_bivector3(val, b));
            let r = a.mul_spec(b);
            plus(of_scalar3(val, r.0), of_euclidean_bivector3(val, r.1)) == product
        }),
{
    zero(val(a.e12));
    zero(-val(a.e31));
    zero(val(a.e23));
    zero(val(b.e12));
    zero(-val(b.e31));
    zero(val(b.e23));
    sign(val(a.e12), val(b.e31));
    sign(val(a.e31), val(b.e12));
    sign(val(a.e31), val(b.e31));
    sign(val(a.e31), val(b.e23));
    sign(val(a.e23), val(b.e31));
}

/// The geometric product of an Euclidean bivector and a bivector stands for the
/// product of the multivectors that the two stand for.
pub proof fn geometric_euclidean_bivector_bivector<T: Num>(val: spec_fn(T) -> real, a: EBiVector3<T>, b: BiVector3<T>)
    requires
        exact(val),
    ensures
        ({
            let product = geometric(of_euclidean_bivector3(val, a), of_bivector3(val, b));
            let r = a.mul_spec(b);
            plus(plus(of_scalar3(val, r.0), of_bivector3(val, r.1)), of_pseudo3(val, r.2))
                == product
        }),
{
    zero(val(a.e12));
    zero(-val(a.e31));
    zero(val(a.e23));
    zero(val(b.e01));
    zero(val(b.e02));
    zero(val(b.e03));
    zero(val(b.e12));
    zero(-val(b.e31));
    zero(val(b.e23));
    sign(val(a.e12), val(b.e31));
    sign(val(a.e31), val(b.e01));
    sign(val(a.e31), val(b.e02));
    sign(val(a.e31), val(b.e03));
    sign(val(a.e31), val(b.e12));
    sign(val(a.e31), val(b.e31));
    sign(val(a.e31), val(b.e23));
    sign(val(a.e23), val(b.e31));
}

/// The geometric product of an Euclidean bivector and a trivector stands for the
/// product of the multivectors that the two stand for.
pub proof fn geometric_euclidean_bivector_trivector<T: Num>(val: spec_fn(T) -> real, a: EBiVector3<T>, b: TriVector3<T>)
    requires
        exact(val),
    ensures
        ({
            let product = geometric(of_euclidean_bivector3(val, a), of_trivector3(val, b));
            let r = a.mul_spec(b);
            plus(of_vector3(val, r.0), of_trivector3(val, r.1)) == product
        }),
{
    zero(val(a.e12));
    zero(-val(a.e31));
    zero(val(a.e23));
    zero(-val(b.e021));
    zero(val(b.e013));
    zero(-val(b.e032));
    zero(val(b.e123));
    sign(val(a.e12), val(b.e021));
    sign(val(a.e12), val(b.e032));
    sign(val(a.e31), val(b.e021));
    sign(val(a.e31), val(b.e013));
    sign(val(a.e31), val(b.e032));
    sign(val(a.e31), val(b.e123));
    sign(val(a.e23), val(b.e021));
    sign(val(a.e23), val(b.e032));
}

/// The geometric product of an Euclidean bivector and a pseudoscalar stands for the
/// product of the multivectors that the two stand for.
pub proof fn geometric_euclidean_bivector_pseudo<T: Num>(val: spec_fn(T) -> real, a: EBiVector3<T>, b: Pseudo3<T>)
    requires
        exact(val),
    ensures
        ({
            let product = geometric(of_euclidean_bivector3(val, a), of_pseudo3(val, b));
            of_ideal_bivector3(val, a.mul_spec(b)) == product
        }),
{
    zero(val(a.e12));
    zero(-val(a.e31));
    zero(val(a.e23));
    zero(val(b.e0123));
    sign(val(a.e31), val(b.e0123));
}

/// The geometric product of a bivector and a scalar stands for the
/// product of the multivectors that the two stand for.
pub proof fn geometric_bivector_scalar<T: Num>(val: spec_fn(T) -> real, a: BiVector3<T>, b: Scalar3<T>)
    requires
        exact(val),
    ensures
        ({
            let product = geometric(of_bivector3(val, a), of_scalar3(val, b));
            of_bivector3(val, a.mul_spec(b)) == product
        }),
{
    zero(val(a.e01));
    zero(val(a.e02));
    zero(val(a.e03));
    zero(val(a.e12));
    zero(-val(a.e31));
    zero(val(a.e23));
    zero(val(b.0));
    sign(val(a.e31), val(b.0));
}

/// The geometric product of a bivector and a vector stands for the
/// product of the multivectors that the two stand for.
pub proof fn geometric_bivector_vector<T: Num>(val: spec_fn(T) -> real, a: BiVector3<T>, b: Vector3<T>)
    requires
        exact(val),
    ensures
        ({
            let product = geometric(of_bivector3(val, a), of_vector3(val, b));
            let r = a.mul_spec(b);
            plus(of_vector3(val, r.0), of_trivector3(val, r.1)) == product
        }),
{
    zero(val(a.e01));
    zero(val(a.e02));
    zero(val(a.e03));
    zero(val(a.e12));
    zero(-val(a.e31));
    zero(val(a.e23));
    zero(val(b.e0));
    zero(val(b.e1));
    zero(val(b.e2));
    zero(val(b.e3));
    sign(val(a.e31), val(b.e0));
    sign(val(a.e31), val(b.e1));
    sign(val(a.e31), val(b.e2));
    sign(val(a.e31), val(b.e3));
}

/// The geometric product of a bivector and an ideal bivector stands for the
/// product of the multivectors that the two stand for.
pub proof fn geometric_bivector_ideal_bivector<T: Num>(val: spec_fn(T) -> real, a: BiVector3<T>, b: XBiVector3<T>)
    requires
        exact(val),
    ensures
        ({
            let product = geometric(of_bivector3(val, a), of_ideal_bivector3(val, b));
            let r = a.mul_spec(b);
            plus(of_ideal_bivector3(val, r.0), of_pseudo3(val, r.1)) == product
        }),
{
    zero(val(a.e01));
    zero(val(a.e02));
    zero(val(a.e03));
    zero(val(a.e12));
    zero(-val(a.e31));
    zero(val(a.e23));
    zero(val(b.e01));
    zero(val(b.e02));
    zero(val(b.e03));
    sign(val(a.e31), val(b.e01));
    sign(val(a.e31), val(b.e02));
    sign(val(a.e31), val(b.e03));
}

/// The geometric product of a bivector and an Euclidean bivector stands for the
/// product of the multivectors that the two stand for.
pub proof fn geometric_bivector_euclidean_bivector<T: Num>(val: spec_fn(T) -> real, a: BiVector3<T>, b: EBiVector3<T>)
    requires
        exact(val),
    ensures
        ({
            let product = geometric(of_bivector3(val, a), of_euclidean_bivector3(val, b));
            let r = a.mul_spec(b);
            plus(plus(of_scalar3(val, r.0), of_bivector3(val, r.1)), of_pseudo3(val, r.2))
                == product
        }),
{
    zero(val(a.e01));
    zero(val(a.e02));
    zero(val(a.e03));
    zero(val(a.e12));
    zero(-val(a.e31));
    zero(val(a.e23));
    zero(val(b.e12));
    zero(-val(b.e31));
    zero(val(b.e23));
    sign(val(a.e01), val(b.e31));
    sign(val(a.e02), val(b.e31));
    sign(val(a.e03), val(b.e31));
    sign(val(a.e12), val(b.e31));
    sign(val(a.e31), val(b.e12));
    sign(val(a.e31), val(b.e31));
    sign(val(a.e31), val(b.e23));
    sign(val(a.e23), val(b.e31));
}

/// The geometric product of a bivector and a bivector stands for the
/// product of the multivectors that the two stand for.
pub proof fn geometric_bivector_bivector<T: Num>(val: spec_fn(T) -> real, a: BiVector3<T>, b: BiVector3<T>)
    requires
        exact(val),
    ensures
        ({
            let product = geometric(of_bivector3(val, a), of_bivector3(val, b));
            let r = a.mul_spec(b);
            plus(plus(of_scalar3(val, r.0), of_bivector3(val, r.1)), of_pseudo3(val, r.2))
                == product
        }),
{
    zero(val(a.e01));
    zero(val(a.e02));
    zero(val(a.e03));
    zero(val(a.e12));
    zero(-val(a.e31));
    zero(val(a.e23));
    zero(val(b.e01));
    zero(val(b.e02));
    zero(val(b.e03));
    zero(val(b.e12));
    zero(-val(b.e31));
    zero(val(b.e23));
    sign(val(a.e01), val(b.e31));
    sign(val(a.e02), val(b.e31));
    sign(val(a.e03), val(b.e31));
    sign(val(a.e12), val(b.e31));
    sign(val(a.e31), val(b.e01));
    sign(val(a.e31), val(b.e02));
    sign(val(a.e31), val(b.e03));
    sign(val(a.e31), val(b.e12));
    sign(val(a.e31), val(b.e31));
    sign(val(a.e31), val(b.e23));
    sign(val(a.e23), val(b.e31));
}

/// The geometric product of a bivector and a trivector stands for the
/// product of the multivectors that the two stand for.
pub proof fn geometric_bivector_trivector<T: Num>(val: spec_fn(T) -> real, a: BiVector3<T>, b: TriVector3<T>)
    requires
        exact(val),
    ensures
        ({
            let product = geometric(of_bivector3(val, a), of_trivector3(val, b));
            let r = a.mul_spec(b);
            plus(of_vector3(val, r.0), of_trivector3(val, r.1)) == product
        }),
{
    zero(val(a.e01));
    zero(val(a.e02));
    zero(val(a.e03));
    zero(val(a.e12));
    zero(-val(a.e31));
    zero(val(a.e23));
    zero(-val(b.e021));
    zero(val(b.e013));
    zero(-val(b.e032));
    zero(val(b.e123));
    sign(val(a.e12), val(b.e021));
    sign(val(a.e12), val(b.e032));
    sign(val(a.e31), val(b.e021));
    sign(val(a.e31), val(b.e013));
    sign(val(a.e31), val(b.e032));
    sign(val(a.e31), val(b.e123));
    sign(val(a.e23), val(b.e021));
    sign(val(a.e23), val(b.e032));
}

/// The geometric product of a bivector and a pseudoscalar stands for the
/// product of the multivectors that the two stand for.
pub proof fn geometric_bivector_pseudo<T: Num>(val: spec_fn(T) -> real, a: BiVector3<T>, b: Pseudo3<T>)
    requires
        exact(val),
    ensures
        ({
            let product = geometric(of_bivector3(val, a), of_pseudo3(val, b));
            of_ideal_bivector3(val, a.mul_spec(b)) == product
        }),
{
    zero(val(a.e01));
    zero(val(a.e02));
    zero(val(a.e03));
    zero(val(a.e12));
    zero(-val(a.e31));
    zero(val(a.e23));
    zero(val(b.e0123));
    sign(val(a.e31), val(b.e0123));
}

/// The geometric product of a trivector and a scalar stands for the
/// product of the multivectors that the two stand for.
pub proof fn geometric_trivector_scalar<T: Num>(val: spec_fn(T) -> real, a: TriVector3<T>, b: Scalar3<T>)
    requires
        exact(val),
    ensures
        ({
            let product = geometric(of_trivector3(val, a), of_scalar3(val, b));
            of_trivector3(val, a.mul_spec(b)) == product
        }),
{
    zero(-val(a.e021));
    zero(val(a.e013));
    zero(-val(a.e032));
    zero(val(a.e123));
    zero(val(b.0));
    sign(val(a.e021), val(b.0));
    sign(val(a.e032), val(b.0));
}

/// The geometric product of a trivector and a vector stands for the
/// product of the multivectors that the two stand for.
pub proof fn geometric_trivector_vector<T: Num>(val: spec_fn(T) -> real, a: TriVector3<T>, b: Vector3<T>)
    requires
        exact(val),
    ensures
        ({
            let product = geometric(of_trivector3(val, a), of_vector3(val, b));
            let r = a.mul_spec(b);
            plus(of_bivector3(val, r.0), of_pseudo3(val, r.1)) == product
        }),
{
    zero(-val(a.e021));
    zero(val(a.e013));
    zero(-val(a.e032));
    zero(val(a.e123));
    zero(val(b.e0));
    zero(val(b.e1));
    zero(val(b.e2));
    zero(val(b.e3));
    sign(val(a.e021), val(b.e1));
    sign(val(a.e021), val(b.e2));
    sign(val(a.e021), val(b.e3));
    sign(val(a.e032), val(b.e1));
    sign(val(a.e032), val(b.e2));
    sign(val(a.e032), val(b.e3));
}

/// The geometric product of a trivector and an ideal bivector stands for the
/// product of the multivectors that the two stand for.
pub proof fn geometric_trivector_ideal_bivector<T: Num>(val: spec_fn(T) -> real, a: TriVector3<T>, b: XBiVector3<T>)
    requires
        exact(val),
    ensures
        ({
            let product = geometric(of_trivector3(val, a), of_ideal_bivector3(val, b));
            of_trivector3(val, a.mul_spec(b)) == product
        }),
{
    zero(-val(a.e021));
    zero(val(a.e013));
    zero(-val(a.e032));
    zero(val(a.e123));
    zero(val(b.e01));
    zero(val(b.e02));
    zero(val(b.e03));
}

/// The geometric product of a trivector and an Euclidean bivector stands for the
/// product of the multivectors that the two stand for.
pub proof fn geometric_trivector_euclidean_bivector<T: Num>(val: spec_fn(T) -> real, a: TriVector3<T>, b: EBiVector3<T>)
    requires
        exact(val),
    ensures
        ({
            let product = geometric(of_trivector3(val, a), of_euclidean_bivector3(val, b));
            let r = a.mul_spec(b);
            plus(of_vector3(val, r.0), of_trivector3(val, r.1)) == product
        }),
{
    zero(-val(a.e021));
    zero(val(a.e013));
    zero(-val(a.e032));
    zero(val(a.e123));
    zero(val(b.e12));
    zero(-val(b.e31));
    zero(val(b.e23));
    sign(val(a.e021), val(b.e12));
    sign(val(a.e021), val(b.e31));
    sign(val(a.e021), val(b.e23));
    sign(val(a.e013), val(b.e31));
    sign(val(a.e032), val(b.e12));
    sign(val(a.e032), val(b.e31));
    sign(val(a.e032), val(b.e23));
    sign(val(a.e123), val(b.e31));
}

/// The geometric product of a trivector and a bivector stands for the
/// product of the multivectors that the two stand for.
pub proof fn geometric_trivector_bivector<T: Num>(val: spec_fn(T) -> real, a: TriVector3<T>, b: BiVector3<T>)
    requires
        exact(val),
    ensures
        ({
            let product = geometric(of_trivector3(val, a), of_bivector3(val, b));
            let r = a.mul_spec(b);
            plus(of_vector3(val, r.0), of_trivector3(val, r.1)) == product
        }),
{
    zero(-val(a.e021));
    zero(val(a.e013));
    zero(-val(a.e032));
    zero(val(a.e123));
    zero(val(b.e01));
    zero(val(b.e02));
    zero(val(b.e03));
    zero(val(b.e12));
    zero(-val(b.e31));
    zero(val(b.e23));
    sign(val(a.e021), val(b.e12));
    sign(val(a.e021), val(b.e31));
    sign(val(a.e021), val(b.e23));
    sign(val(a.e013), val(b.e31));
    sign(val(a.e032), val(b.e12));
    sign(val(a.e032), val(b.e31));
    sign(val(a.e032), val(b.e23));
    sign(val(a.e123), val(b.e31));
}

/// The geometric product of a trivector and a trivector stands for the
/// product of the multivectors that the two stand for.
pub proof fn geometric_trivector_trivector<T: Num>(val: spec_fn(T) -> real, a: TriVector3<T>, b: TriVector3<T>)
    requires
        exact(val),
    ensures
        ({
            let product = geometric(of_trivector3(val, a), of_trivector3(val, b));
            let r = a.mul_spec(b);
            plus(of_scalar3(val, r.0), of_ideal_bivector3(val, r.1)) == product
        }),
{
    zero(-val(a.e021));
    zero(val(a.e013));
    zero(-val(a.e032));
    zero(val(a.e123));
    zero(-val(b.e021));
    zero(val(b.e013));
    zero(-val(b.e032));
    zero(val(b.e123));
    sign(val(a.e021), val(b.e123));
    sign(val(a.e032), val(b.e123));
    sign(val(a.e123), val(b.e021));
    sign(val(a.e123), val(b.e032));
}

/// The geometric product of a trivector and a pseudoscalar stands for the
/// product of the multivectors that the two stand for.
pub proof fn geometric_trivector_pseudo<T: Num>(val: spec_fn(T) -> real, a: TriVector3<T>, b: Pseudo3<T>)
    requires
        exact(val),
    ensures
        ({
            let product = geometric(of_trivector3(val, a), of_pseudo3(val, b));
            of_vector3(val, a.mul_spec(b)) == product
        }),
{
    zero(-val(a.e021));
    zero(val(a.e013));
    zero(-val(a.e032));
    zero(val(a.e123));
    zero(val(b.e0123));
}

/// The geometric product of a pseudoscalar and a scalar stands for the
/// product of the multivectors that the two stand for.
pub proof fn geometric_pseudo_scalar<T: Num>(val: spec_fn(T) -> real, a: Pseudo3<T>, b: Scalar3<T>)
    requires
        exact(val),
    ensures
        ({
            let product = geometric(of_pseudo3(val, a), of_scalar3(val, b));
            of_pseudo3(val, a.mul_spec(b)) == product
        }),
{
    zero(val(a.e0123));
    zero(val(b.0));
}

/// The geometric product of a pseudoscalar and a vector stands for the
/// product of the multivectors that the two stand for.
pub proof fn geometric_pseudo_vector<T: Num>(val: spec_fn(T) -> real, a: Pseudo3<T>, b: Vector3<T>)
    requires
        exact(val),
    ensures
        ({
            let product = geometric(of_pseudo3(val, a), of_vector3(val, b));
            of_trivector3(val, a.mul_spec(b)) == product
        }),
{
    zero(val(a.e0123));
    zero(val(b.e0));
    zero(val(b.e1));
    zero(val(b.e2));
    zero(val(b.e3));
}

/// The geometric product of a pseudoscalar and an Euclidean bivector stands for the
/// product of the multivectors that the two stand for.
pub proof fn geometric_pseudo_euclidean_bivector<T: Num>(val: spec_fn(T) -> real, a: Pseudo3<T>, b: EBiVector3<T>)
    requires
        exact(val),
    ensures
        ({
            let product = geometric(of_pseudo3(val, a), of_euclidean_bivector3(val, b));
            of_ideal_bivector3(val, a.mul_spec(b)) == product
        }),
{
    zero(val(a.e0123));
    zero(val(b.e12));
    zero(-val(b.e31));
    zero(val(b.e23));
    sign(val(a.e0123), val(b.e31));
}

/// The geometric product of a pseudoscalar and a bivector stands for the
/// product of the multivectors that the two stand for.
pub proof fn geometric_pseudo_bivector<T: Num>(val: spec_fn(T) -> real, a: Pseudo3<T>, b: BiVector3<T>)
    requires
        exact(val),
    ensures
        ({
            let product = geometric(of_pseudo3(val, a), of_bivector3(val, b));
            of_ideal_bivector3(val, a.mul_spec(b)) == product
        }),
{
    zero(val(a.e0123));
    zero(val(b.e01));
    zero(val(b.e02));
    zero(val(b.e03));
    zero(val(b.e12));
    zero(-val(b.e31));
    zero(val(b.e23));
    sign(val(a.e0123), val(b.e31));
}

/// The geometric product of a pseudoscalar and a trivector stands for the
/// product of the multivectors that the two stand for.
pub proof fn geometric_pseudo_trivector<T: Num>(val: spec_fn(T) -> real, a: Pseudo3<T>, b: TriVector3<T>)
    requires
        exact(val),
    ensures
        ({
            let product = geometric(of_pseudo3(val, a), of_trivector3(val, b));
            of_vector3(val, a.mul_spec(b)) == product
        }),
{
    zero(val(a.e0123));
    zero(-val(b.e021));
    zero(val(b.e013));
    zero(-val(b.e032));
    zero(val(b.e123));
}

} // verus!
