//! The products of the plane's algebra conform to the multiplication table.

use core::ops::{BitOr, BitXor, Mul};
use vstd::prelude::*;
use vstd::std_specs::ops::{BitOrSpec, BitXorSpec, MulSpec};

use crate::laws::exact::exact;
use crate::laws::reals::{sign, zero};
use crate::laws::table::{
    geometric,
    of_bivector2,
    of_pseudo2,
    of_scalar2,
    of_vector2,
    part,
    plus,
};
use crate::pga::elements::{BiVector2, Pseudo2, Scalar2, Vector2};
use crate::scalar::Num;

verus! {

/// The geometric product of a scalar and a scalar stands for the
/// product of the multivectors that the two stand for.
pub proof fn geometric_scalar_scalar<T: Num>(val: spec_fn(T) -> real, a: Scalar2<T>, b: Scalar2<T>)
    requires
        exact(val),
    ensures
        ({
            let product = geometric(of_scalar2(val, a), of_scalar2(val, b));
            of_scalar2(val, a.mul_spec(b)) == product
        }),
{
    zero(val(a.0));
    zero(val(b.0));
}

/// The geometric product of a scalar and a vector stands for the
/// product of the multivectors that the two stand for.
pub proof fn geometric_scalar_vector<T: Num>(val: spec_fn(T) -> real, a: Scalar2<T>, b: Vector2<T>)
    requires
        exact(val),
    ensures
        ({
            let product = geometric(of_scalar2(val, a), of_vector2(val, b));
            of_vector2(val, a.mul_spec(b)) == product
        }),
{
    zero(val(a.0));
    zero(val(b.e0));
    zero(val(b.e1));
    zero(val(b.e2));
}

/// The geometric product of a scalar and a bivector stands for the
/// product of the multivectors that the two stand for.
pub proof fn geometric_scalar_bivector<T: Num>(val: spec_fn(T) -> real, a: Scalar2<T>, b: BiVector2<T>)
    requires
        exact(val),
    ensures
        ({
            let product = geometric(of_scalar2(val, a), of_bivector2(val, b));
            of_bivector2(val, a.mul_spec(b)) == product
        }),
{
    zero(val(a.0));
    zero(val(b.e01));
    zero(-val(b.e20));
    zero(val(b.e12));
    sign(val(a.0), val(b.e20));
}

/// The geometric product of a scalar and a pseudoscalar stands for the
/// product of the multivectors that the two stand for.
pub proof fn geometric_scalar_pseudo<T: Num>(val: spec_fn(T) -> real, a: Scalar2<T>, b: Pseudo2<T>)
    requires
        exact(val),
    ensures
        ({
            let product = geometric(of_scalar2(val, a), of_pseudo2(val, b));
            of_pseudo2(val, a.mul_spec(b)) == product
        }),
{
    zero(val(a.0));
    zero(val(b.e012));
}

/// The geometric product of a vector and a scalar stands for the
/// product of the multivectors that the two stand for.
pub proof fn geometric_vector_scalar<T: Num>(val: spec_fn(T) -> real, a: Vector2<T>, b: Scalar2<T>)
    requires
        exact(val),
    ensures
        ({
            let product = geometric(of_vector2(val, a), of_scalar2(val, b));
            of_vector2(val, a.mul_spec(b)) == product
        }),
{
    zero(val(a.e0));
    zero(val(a.e1));
    zero(val(a.e2));
    zero(val(b.0));
}

/// The geometric product of a vector and a vector stands for the
/// product of the multivectors that the two stand for.
pub proof fn geometric_vector_vector<T: Num>(val: spec_fn(T) -> real, a: Vector2<T>, b: Vector2<T>)
    requires
        exact(val),
    ensures
        ({
            let product = geometric(of_vector2(val, a), of_vector2(val, b));
            let r = a.mul_spec(b);
            plus(of_scalar2(val, r.0), of_bivector2(val, r.1)) == product
        }),
{
    zero(val(a.e0));
    zero(val(a.e1));
    zero(val(a.e2));
    zero(val(b.e0));
    zero(val(b.e1));
    zero(val(b.e2));
}

/// The geometric product of a vector and a bivector stands for the
/// product of the multivectors that the two stand for.
pub proof fn geometric_vector_bivector<T: Num>(val: spec_fn(T) -> real, a: Vector2<T>, b: BiVector2<T>)
    requires
        exact(val),
    ensures
        ({
            let product = geometric(of_vector2(val, a), of_bivector2(val, b));
            let r = a.mul_spec(b);
            plus(of_vector2(val, r.0), of_pseudo2(val, r.1)) == product
        }),
{
    zero(val(a.e0));
    zero(val(a.e1));
    zero(val(a.e2));
    zero(val(b.e01));
    zero(-val(b.e20));
    zero(val(b.e12));
    sign(val(a.e1), val(b.e20));
    sign(val(a.e2), val(b.e20));
}

/// The geometric product of a vector and a pseudoscalar stands for the
/// product of the multivectors that the two stand for.
pub proof fn geometric_vector_pseudo<T: Num>(val: spec_fn(T) -> real, a: Vector2<T>, b: Pseudo2<T>)
    requires
        exact(val),
    ensures
        ({
            let product = geometric(of_vector2(val, a), of_pseudo2(val, b));
            of_bivector2(val, a.mul_spec(b)) == product
        }),
{
    zero(val(a.e0));
    zero(val(a.e1));
    zero(val(a.e2));
    zero(val(b.e012));
}

/// The geometric product of a bivector and a scalar stands for the
/// product of the multivectors that the two stand for.
pub proof fn geometric_bivector_scalar<T: Num>(val: spec_fn(T) -> real, a: BiVector2<T>, b: Scalar2<T>)
    requires
        exact(val),
    ensures
        ({
            let product = geometric(of_bivector2(val, a), of_scalar2(val, b));
            of_bivector2(val, a.mul_spec(b)) == product
        }),
{
    zero(val(a.e01));
    zero(-val(a.e20));
    zero(val(a.e12));
    zero(val(b.0));
    sign(val(a.e20), val(b.0));
}

/// The geometric product of a bivector and a vector stands for the
/// product of the multivectors that the two stand for.
pub proof fn geometric_bivector_vector<T: Num>(val: spec_fn(T) -> real, a: BiVector2<T>, b: Vector2<T>)
    requires
        exact(val),
    ensures
        ({
            let product = geometric(of_bivector2(val, a), of_vector2(val, b));
            let r = a.mul_spec(b);
            plus(of_vector2(val, r.0), of_pseudo2(val, r.1)) == product
        }),
{
    zero(val(a.e01));
    zero(-val(a.e20));
    zero(val(a.e12));
    zero(val(b.e0));
    zero(val(b.e1));
    zero(val(b.e2));
    sign(val(a.e20), val(b.e1));
    sign(val(a.e20), val(b.e2));
}

/// The geometric product of a bivector and a bivector stands for the
/// product of the multivectors that the two stand for.
pub proof fn geometric_bivector_bivector<T: Num>(val: spec_fn(T) -> real, a: BiVector2<T>, b: BiVector2<T>)
    requires
        exact(val),
    ensures
        ({
            let product = geometric(of_bivector2(val, a), of_bivector2(val, b));
            let r = a.mul_spec(b);
            plus(of_scalar2(val, r.0), of_bivector2(val, r.1)) == product
        }),
{
    zero(val(a.e01));
    zero(-val(a.e20));
    zero(val(a.e12));
    zero(val(b.e01));
    zero(-val(b.e20));
    zero(val(b.e12));
    sign(val(a.e20), val(b.e12));
    sign(val(a.e12), val(b.e20));
}

/// The geometric product of a bivector and a pseudoscalar stands for the
/// product of the multivectors that the two stand for.
pub proof fn geometric_bivector_pseudo<T: Num>(val: spec_fn(T) -> real, a: BiVector2<T>, b: Pseudo2<T>)
    requires
        exact(val),
    ensures
        ({
            let product = geometric(of_bivector2(val, a), of_pseudo2(val, b));
            of_vector2(val, a.mul_spec(b)) == product
        }),
{
    zero(val(a.e01));
    zero(-val(a.e20));
    zero(val(a.e12));
    zero(val(b.e012));
}

/// The geometric product of a pseudoscalar and a scalar stands for the
/// product of the multivectors that the two stand for.
pub proof fn geometric_pseudo_scalar<T: Num>(val: spec_fn(T) -> real, a: Pseudo2<T>, b: Scalar2<T>)
    requires
        exact(val),
    ensures
        ({
            let product = geometric(of_pseudo2(val, a), of_scalar2(val, b));
            of_pseudo2(val, a.mul_spec(b)) == product
        }),
{
    zero(val(a.e012));
    zero(val(b.0));
}

/// The geometric product of a pseudoscalar and a vector stands for the
/// product of the multivectors that the two stand for.
pub proof fn geometric_pseudo_vector<T: Num>(val: spec_fn(T) -> real, a: Pseudo2<T>, b: Vector2<T>)
    requires
        exact(val),
    ensures
        ({
            let product = geometric(of_pseudo2(val, a), of_vector2(val, b));
            of_bivector2(val, a.mul_spec(b)) == product
        }),
{
    zero(val(a.e012));
    zero(val(b.e0));
    zero(val(b.e1));
    zero(val(b.e2));
}

/// The geometric product of a pseudoscalar and a bivector stands for the
/// product of the multivectors that the two stand for.
pub proof fn geometric_pseudo_bivector<T: Num>(val: spec_fn(T) -> real, a: Pseudo2<T>, b: BiVector2<T>)
    requires
        exact(val),
    ensures
        ({
            let product = geometric(of_pseudo2(val, a), of_bivector2(val, b));
            of_vector2(val, a.mul_spec(b)) == product
        }),
{
    zero(val(a.e012));
    zero(val(b.e01));
    zero(-val(b.e20));
    zero(val(b.e12));
}

/// The inner product of a scalar and a scalar stands for the part
/// of grade 0 of the product of the multivectors that the two stand for.
pub proof fn inner_scalar_scalar<T: Num>(val: spec_fn(T) -> real, a: Scalar2<T>, b: Scalar2<T>)
    requires
        exact(val),
    ensures
        ({
            let product = geometric(of_scalar2(val, a), of_scalar2(val, b));
            of_scalar2(val, a.bitor_spec(b)) == part(product, 0)
        }),
{
    zero(val(a.0));
    zero(val(b.0));
}

/// The inner product of a scalar and a vector stands for the part
/// of grade 1 of the product of the multivectors that the two stand for.
pub proof fn inner_scalar_vector<T: Num>(val: spec_fn(T) -> real, a: Scalar2<T>, b: Vector2<T>)
    requires
        exact(val),
    ensures
        ({
            let product = geometric(of_scalar2(val, a), of_vector2(val, b));
            of_vector2(val, a.bitor_spec(b)) == part(product, 1)
        }),
{
    zero(val(a.0));
    zero(val(b.e0));
    zero(val(b.e1));
    zero(val(b.e2));
}

/// The inner product of a scalar and a bivector stands for the part
/// of grade 2 of the product of the multivectors that the two stand for.
pub proof fn inner_scalar_bivector<T: Num>(val: spec_fn(T) -> real, a: Scalar2<T>, b: BiVector2<T>)
    requires
        exact(val),
    ensures
        ({
            let product = geometric(of_scalar2(val, a), of_bivector2(val, b));
            of_bivector2(val, a.bitor_spec(b)) == part(product, 2)
        }),
{
    zero(val(a.0));
    zero(val(b.e01));
    zero(-val(b.e20));
    zero(val(b.e12));
    sign(val(a.0), val(b.e20));
}

/// The inner product of a scalar and a pseudoscalar stands for the part
/// of grade 3 of the product of the multivectors that the two stand for.
pub proof fn inner_scalar_pseudo<T: Num>(val: spec_fn(T) -> real, a: Scalar2<T>, b: Pseudo2<T>)
    requires
        exact(val),
    ensures
        ({
            let product = geometric(of_scalar2(val, a), of_pseudo2(val, b));
            of_pseudo2(val, a.bitor_spec(b)) == part(product, 3)
        }),
{
    zero(val(a.0));
    zero(val(b.e012));
}

/// The inner product of a vector and a scalar stands for the part
/// of grade 1 of the product of the multivectors that the two stand for.
pub proof fn inner_vector_scalar<T: Num>(val: spec_fn(T) -> real, a: Vector2<T>, b: Scalar2<T>)
    requires
        exact(val),
    ensures
        ({
            let product = geometric(of_vector2(val, a), of_scalar2(val, b));
            of_vector2(val, a.bitor_spec(b)) == part(product, 1)
        }),
{
    zero(val(a.e0));
    zero(val(a.e1));
    zero(val(a.e2));
    zero(val(b.0));
}

/// The inner product of a vector and a vector stands for the part
/// of grade 0 of the product of the multivectors that the two stand for.
pub proof fn inner_vector_vector<T: Num>(val: spec_fn(T) -> real, a: Vector2<T>, b: Vector2<T>)
    requires
        exact(val),
    ensures
        ({
            let product = geometric(of_vector2(val, a), of_vector2(val, b));
            of_scalar2(val, a.bitor_spec(b)) == part(product, 0)
        }),
{
    zero(val(a.e0));
    zero(val(a.e1));
    zero(val(a.e2));
    zero(val(b.e0));
    zero(val(b.e1));
    zero(val(b.e2));
}

/// The inner product of a vector and a bivector stands for the part
/// of grade 1 of the product of the multivectors that the two stand for.
pub proof fn inner_vector_bivector<T: Num>(val: spec_fn(T) -> real, a: Vector2<T>, b: BiVector2<T>)
    requires
        exact(val),
    ensures
        ({
            let product = geometric(of_vector2(val, a), of_bivector2(val, b));
            of_vector2(val, a.bitor_spec(b)) == part(product, 1)
        }),
{
    zero(val(a.e0));
    zero(val(a.e1));
    zero(val(a.e2));
    zero(val(b.e01));
    zero(-val(b.e20));
    zero(val(b.e12));
    sign(val(a.e1), val(b.e20));
    sign(val(a.e2), val(b.e20));
}

/// The inner product of a vector and a pseudoscalar stands for the part
/// of grade 2 of the product of the multivectors that the two stand for.
pub proof fn inner_vector_pseudo<T: Num>(val: spec_fn(T) -> real, a: Vector2<T>, b: Pseudo2<T>)
    requires
        exact(val),
    ensures
        ({
            let product = geometric(of_vector2(val, a), of_pseudo2(val, b));
            of_bivector2(val, a.bitor_spec(b)) == part(product, 2)
        }),
{
    zero(val(a.e0));
    zero(val(a.e1));
    zero(val(a.e2));
    zero(val(b.e012));
}

/// The inner product of a bivector and a scalar stands for the part
/// of grade 2 of the product of the multivectors that the two stand for.
pub proof fn inner_bivector_scalar<T: Num>(val: spec_fn(T) -> real, a: BiVector2<T>, b: Scalar2<T>)
    requires
        exact(val),
    ensures
        ({
            let product = geometric(of_bivector2(val, a), of_scalar2(val, b));
            of_bivector2(val, a.bitor_spec(b)) == part(product, 2)
        }),
{
    zero(val(a.e01));
    zero(-val(a.e20));
    zero(val(a.e12));
    zero(val(b.0));
    sign(val(a.e20), val(b.0));
}

/// The inner product of a bivector and a vector stands for the part
/// of grade 1 of the product of the multivectors that the two stand for.
pub proof fn inner_bivector_vector<T: Num>(val: spec_fn(T) -> real, a: BiVector2<T>, b: Vector2<T>)
    requires
        exact(val),
    ensures
        ({
            let product = geometric(of_bivector2(val, a), of_vector2(val, b));
            of_vector2(val, a.bitor_spec(b)) == part(product, 1)
        }),
{
    zero(val(a.e01));
    zero(-val(a.e20));
    zero(val(a.e12));
    zero(val(b.e0));
    zero(val(b.e1));
    zero(val(b.e2));
    sign(val(a.e20), val(b.e1));
    sign(val(a.e20), val(b.e2));
}

/// The inner product of a bivector and a bivector stands for the part
/// of grade 0 of the product of the multivectors that the two stand for.
pub proof fn inner_bivector_bivector<T: Num>(val: spec_fn(T) -> real, a: BiVector2<T>, b: BiVector2<T>)
    requires
        exact(val),
    ensures
        ({
            let product = geometric(of_bivector2(val, a), of_bivector2(val, b));
            of_scalar2(val, a.bitor_spec(b)) == part(product, 0)
        }),
{
    zero(val(a.e01));
    zero(-val(a.e20));
    zero(val(a.e12));
    zero(val(b.e01));
    zero(-val(b.e20));
    zero(val(b.e12));
    sign(val(a.e20), val(b.e12));
    sign(val(a.e12), val(b.e20));
}

/// The inner product of a bivector and a pseudoscalar stands for the part
/// of grade 1 of the product of the multivectors that the two stand for.
pub proof fn inner_bivector_pseudo<T: Num>(val: spec_fn(T) -> real, a: BiVector2<T>, b: Pseudo2<T>)
    requires
        exact(val),
    ensures
        ({
            let product = geometric(of_bivector2(val, a), of_pseudo2(val, b));
            of_vector2(val, a.bitor_spec(b)) == part(product, 1)
        }),
{
    zero(val(a.e01));
    zero(-val(a.e20));
    zero(val(a.e12));
    zero(val(b.e012));
}

/// The inner product of a pseudoscalar and a scalar stands for the part
/// of grade 3 of the product of the multivectors that the two stand for.
pub proof fn inner_pseudo_scalar<T: Num>(val: spec_fn(T) -> real, a: Pseudo2<T>, b: Scalar2<T>)
    requires
        exact(val),
    ensures
        ({
            let product = geometric(of_pseudo2(val, a), of_scalar2(val, b));
            of_pseudo2(val, a.bitor_spec(b)) == part(product, 3)
        }),
{
    zero(val(a.e012));
    zero(val(b.0));
}

/// The inner product of a pseudoscalar and a vector stands for the part
/// of grade 2 of the product of the multivectors that the two stand for.
pub proof fn inner_pseudo_vector<T: Num>(val: spec_fn(T) -> real, a: Pseudo2<T>, b: Vector2<T>)
    requires
        exact(val),
    ensures
        ({
            let product = geometric(of_pseudo2(val, a), of_vector2(val, b));
            of_bivector2(val, a.bitor_spec(b)) == part(product, 2)
        }),
{
    zero(val(a.e012));
    zero(val(b.e0));
    zero(val(b.e1));
    zero(val(b.e2));
}

/// The inner product of a pseudoscalar and a bivector stands for the part
/// of grade 1 of the product of the multivectors that the two stand for.
pub proof fn inner_pseudo_bivector<T: Num>(val: spec_fn(T) -> real, a: Pseudo2<T>, b: BiVector2<T>)
    requires
        exact(val),
    ensures
        ({
            let product = geometric(of_pseudo2(val, a), of_bivector2(val, b));
            of_vector2(val, a.bitor_spec(b)) == part(product, 1)
        }),
{
    zero(val(a.e012));
    zero(val(b.e01));
    zero(-val(b.e20));
    zero(val(b.e12));
}

/// The outer product of a scalar and a scalar stands for the part
/// of grade 0 of the product of the multivectors that the two stand for.
pub proof fn outer_scalar_scalar<T: Num>(val: spec_fn(T) -> real, a: Scalar2<T>, b: Scalar2<T>)
    requires
        exact(val),
    ensures
        ({
            let product = geometric(of_scalar2(val, a), of_scalar2(val, b));
            of_scalar2(val, a.bitxor_spec(b)) == part(product, 0)
        }),
{
    zero(val(a.0));
    zero(val(b.0));
}

/// The outer product of a scalar and a vector stands for the part
/// of grade 1 of the product of the multivectors that the two stand for.
pub proof fn outer_scalar_vector<T: Num>(val: spec_fn(T) -> real, a: Scalar2<T>, b: Vector2<T>)
    requires
        exact(val),
    ensures
        ({
            let product = geometric(of_scalar2(val, a), of_vector2(val, b));
            of_vector2(val, a.bitxor_spec(b)) == part(product, 1)
        }),
{
    zero(val(a.0));
    zero(val(b.e0));
    zero(val(b.e1));
    zero(val(b.e2));
}

/// The outer product of a scalar and a bivector stands for the part
/// of grade 2 of the product of the multivectors that the two stand for.
pub proof fn outer_scalar_bivector<T: Num>(val: spec_fn(T) -> real, a: Scalar2<T>, b: BiVector2<T>)
    requires
        exact(val),
    ensures
        ({
            let product = geometric(of_scalar2(val, a), of_bivector2(val, b));
            of_bivector2(val, a.bitxor_spec(b)) == part(product, 2)
        }),
{
    zero(val(a.0));
    zero(val(b.e01));
    zero(-val(b.e20));
    zero(val(b.e12));
    sign(val(a.0), val(b.e20));
}

/// The outer product of a scalar and a pseudoscalar stands for the part
/// of grade 3 of the product of the multivectors that the two stand for.
pub proof fn outer_scalar_pseudo<T: Num>(val: spec_fn(T) -> real, a: Scalar2<T>, b: Pseudo2<T>)
    requires
        exact(val),
    ensures
        ({
            let product = geometric(of_scalar2(val, a), of_pseudo2(val, b));
            of_pseudo2(val, a.bitxor_spec(b)) == part(product, 3)
        }),
{
    zero(val(a.0));
    zero(val(b.e012));
}

/// The outer product of a vector and a scalar stands for the part
/// of grade 1 of the product of the multivectors that the two stand for.
pub proof fn outer_vector_scalar<T: Num>(val: spec_fn(T) -> real, a: Vector2<T>, b: Scalar2<T>)
    requires
        exact(val),
    ensures
        ({
            let product = geometric(of_vector2(val, a), of_scalar2(val, b));
            of_vector2(val, a.bitxor_spec(b)) == part(product, 1)
        }),
{
    zero(val(a.e0));
    zero(val(a.e1));
    zero(val(a.e2));
    zero(val(b.0));
}

/// The outer product of a vector and a vector stands for the part
/// of grade 2 of the product of the multivectors that the two stand for.
pub proof fn outer_vector_vector<T: Num>(val: spec_fn(T) -> real, a: Vector2<T>, b: Vector2<T>)
    requires
        exact(val),
    ensures
        ({
            let product = geometric(of_vector2(val, a), of_vector2(val, b));
            of_bivector2(val, a.bitxor_spec(b)) == part(product, 2)
        }),
{
    zero(val(a.e0));
    zero(val(a.e1));
    zero(val(a.e2));
    zero(val(b.e0));
    zero(val(b.e1));
    zero(val(b.e2));
}

/// The outer product of a vector and a bivector stands for the part
/// of grade 3 of the product of the multivectors that the two stand for.
pub proof fn outer_vector_bivector<T: Num>(val: spec_fn(T) -> real, a: Vector2<T>, b: BiVector2<T>)
    requires
        exact(val),
    ensures
        ({
            let product = geometric(of_vector2(val, a), of_bivector2(val, b));
            of_pseudo2(val, a.bitxor_spec(b)) == part(product, 3)
        }),
{
    zero(val(a.e0));
    zero(val(a.e1));
    zero(val(a.e2));
    zero(val(b.e01));
    zero(-val(b.e20));
    zero(val(b.e12));
    sign(val(a.e1), val(b.e20));
    sign(val(a.e2), val(b.e20));
}

/// The outer product of a bivector and a scalar stands for the part
/// of grade 2 of the product of the multivectors that the two stand for.
pub proof fn outer_bivector_scalar<T: Num>(val: spec_fn(T) -> real, a: BiVector2<T>, b: Scalar2<T>)
    requires
        exact(val),
    ensures
        ({
            let product = geometric(of_bivector2(val, a), of_scalar2(val, b));
            of_bivector2(val, a.bitxor_spec(b)) == part(product, 2)
        }),
{
    zero(val(a.e01));
    zero(-val(a.e20));
    zero(val(a.e12));
    zero(val(b.0));
    sign(val(a.e20), val(b.0));
}

/// The outer product of a bivector and a vector stands for the part
/// of grade 3 of the product of the multivectors that the two stand for.
pub proof fn outer_bivector_vector<T: Num>(val: spec_fn(T) -> real, a: BiVector2<T>, b: Vector2<T>)
    requires
        exact(val),
    ensures
        ({
            let product = geometric(of_bivector2(val, a), of_vector2(val, b));
            of_pseudo2(val, a.bitxor_spec(b)) == part(product, 3)
        }),
{
    zero(val(a.e01));
    zero(-val(a.e20));
    zero(val(a.e12));
    zero(val(b.e0));
    zero(val(b.e1));
    zero(val(b.e2));
    sign(val(a.e20), val(b.e1));
    sign(val(a.e20), val(b.e2));
}

/// The outer product of a pseudoscalar and a scalar stands for the part
/// of grade 3 of the product of the multivectors that the two stand for.
pub proof fn outer_pseudo_scalar<T: Num>(val: spec_fn(T) -> real, a: Pseudo2<T>, b: Scalar2<T>)
    requires
        exact(val),
    ensures
        ({
            let product = geometric(of_pseudo2(val, a), of_scalar2(val, b));
            of_pseudo2(val, a.bitxor_spec(b)) == part(product, 3)
        }),
{
    zero(val(a.e012));
    zero(val(b.0));
}

} // verus!
