//! The motor between two planes is the root of their product: composed
//! with itself it is the product, which turns about the line that the
//! planes share by twice the angle between them.

use core::ops::{Add, BitOr, BitXor, Div, Mul, Neg, Not, Sub};
use vstd::prelude::*;
use vstd::std_specs::cmp::PartialEqSpec;
use vstd::std_specs::ops::{
    AddSpec,
    BitOrSpec,
    BitXorSpec,
    DivSpec,
    MulSpec,
    NegSpec,
    NotSpec,
    SubSpec,
};

use crate::laws::exact::exact;
use crate::laws::incidence::determinant_with_equal_rows;
use crate::laws::motors3::norm2_of_motor3;
use crate::laws::quaternions::lagrange;
use crate::laws::reals::{distribute, distribute3, regroup, root_of_square, sign, zero};
use crate::laws::rotations3::{
    is_rotation,
    root_of_rotation_of_space,
    square_of_root_of_rotation_of_space,
};
use crate::laws::turns::product_of_planes;
use crate::pga::motor::Motor3;
use crate::pga::plane::Plane3;
use crate::scalar::Num;

verus! {

/// The cosine of the angle between two normalized planes, in the
/// reading `val`: the inner product of their normals.
pub open spec fn cosine_of_planes<T: Num>(val: spec_fn(T) -> real, a: Plane3<T>, b: Plane3<T>) -> real {
    val(b.0.e1) * val(a.0.e1) + val(b.0.e2) * val(a.0.e2) + val(b.0.e3) * val(a.0.e3)
}

/// The two parts of the bivector of a product of two planes are
/// perpendicular.
proof fn product_of_planes_is_a_line(
    a0: real,
    a1: real,
    a2: real,
    a3: real,
    b0: real,
    b1: real,
    b2: real,
    b3: real,
)
    ensures
        (b0 * a1 - b1 * a0) * (b2 * a3 - b3 * a2) + (b0 * a2 - b2 * a0) * (b3 * a1 - b1 * a3) + (b0
            * a3 - b3 * a0) * (b1 * a2 - b2 * a1) == 0real,
{
    let (e1, e2, e3) = (b2 * a3 - b3 * a2, b3 * a1 - b1 * a3, b1 * a2 - b2 * a1);
    distribute(b0 * a1, b1 * a0, e1);
    distribute(b0 * a2, b2 * a0, e2);
    distribute(b0 * a3, b3 * a0, e3);
    regroup(b0, a1, e1);
    regroup(b0, a2, e2);
    regroup(b0, a3, e3);
    assert((b1 * a0) * e1 == a0 * (b1 * e1)) by (nonlinear_arith);
    assert((b2 * a0) * e2 == a0 * (b2 * e2)) by (nonlinear_arith);
    assert((b3 * a0) * e3 == a0 * (b3 * e3)) by (nonlinear_arith);
    distribute3(a1 * e1, a2 * e2, a3 * e3, b0);
    distribute3(b1 * e1, b2 * e2, b3 * e3, a0);
    // each normal is perpendicular to the cross product of the two
    determinant_with_equal_rows(b1, b2, b3, a1, a2, a3);
    determinant_with_equal_rows(a1, a2, a3, b1, b2, b3);
    assert(a2 * b3 == b3 * a2 && a3 * b2 == b2 * a3 && a3 * b1 == b1 * a3 && a1 * b3 == b3 * a1
        && a1 * b2 == b2 * a1 && a2 * b1 == b1 * a2);
    sign(a1, a2 * b3 - a3 * b2);
    sign(a2, a3 * b1 - a1 * b3);
    sign(a3, a1 * b2 - a2 * b1);
    assert(a1 * e1 + a2 * e2 + a3 * e3 == 0real);
    assert(b1 * e1 + b2 * e2 + b3 * e3 == 0real);
    zero(b0);
    zero(a0);
}

/// The product of two normalized planes.
///
/// In an exact field its scalar is the cosine of the angle between the
/// planes, the direction of its bivector is the cross product of the
/// normals, and it has no pseudoscalar and the norm one, so that
/// normalizing it changes nothing. Where the planes are not opposite it
/// is a rotation about a line, or a translation.
pub proof fn product_of_normalized_planes<T: Num>(val: spec_fn(T) -> real, a: Plane3<T>, b: Plane3<T>)
    requires
        exact(val),
        val(a.0.norm2_spec()) == 1real,
        val(b.0.norm2_spec()) == 1real,
    ensures
        ({
            let (a0, a1, a2, a3) = (val(a.0.e0), val(a.0.e1), val(a.0.e2), val(a.0.e3));
            let (b0, b1, b2, b3) = (val(b.0.e0), val(b.0.e1), val(b.0.e2), val(b.0.e3));
            let u = product_of_planes(a, b).normalized_spec();
            let p = product_of_planes(a, b);
            &&& val(u.scalar.0) == cosine_of_planes(val, a, b)
            &&& val(u.bivector.e01) == b0 * a1 - b1 * a0
            &&& val(u.bivector.e02) == b0 * a2 - b2 * a0
            &&& val(u.bivector.e03) == b0 * a3 - b3 * a0
            &&& val(u.bivector.e12) == b1 * a2 - b2 * a1
            &&& val(u.bivector.e31) == b3 * a1 - b1 * a3
            &&& val(u.bivector.e23) == b2 * a3 - b3 * a2
            &&& val(u.pseudo.e0123) == 0real
            &&& val(u.norm2_spec()) == 1real
            &&& val(p.scalar.0) == val(u.scalar.0)
            &&& val(p.bivector.e01) == val(u.bivector.e01)
            &&& val(p.bivector.e02) == val(u.bivector.e02)
            &&& val(p.bivector.e03) == val(u.bivector.e03)
            &&& val(p.bivector.e12) == val(u.bivector.e12)
            &&& val(p.bivector.e31) == val(u.bivector.e31)
            &&& val(p.bivector.e23) == val(u.bivector.e23)
            &&& val(p.pseudo.e0123) == 0real
            &&& cosine_of_planes(val, a, b) != -1real ==> is_rotation(val, u)
        }),
{
    let (a0, a1, a2, a3) = (val(a.0.e0), val(a.0.e1), val(a.0.e2), val(a.0.e3));
    let (b0, b1, b2, b3) = (val(b.0.e0), val(b.0.e1), val(b.0.e2), val(b.0.e3));
    product_of_planes_is_a_line(a0, a1, a2, a3, b0, b1, b2, b3);
    let p = product_of_planes(a, b);
    assert(val(p.scalar.0) == b1 * a1 + b2 * a2 + b3 * a3);
    assert(val(p.bivector.e01) == b0 * a1 - b1 * a0);
    assert(val(p.bivector.e02) == b0 * a2 - b2 * a0);
    assert(val(p.bivector.e03) == b0 * a3 - b3 * a0);
    assert(val(p.bivector.e12) == b1 * a2 - b2 * a1);
    assert(val(p.bivector.e31) == b3 * a1 - b1 * a3);
    assert(val(p.bivector.e23) == b2 * a3 - b3 * a2);
    assert(val(p.pseudo.e0123) == 0real);
    // the product has the norm one
    norm2_of_motor3(val, p);
    lagrange(b1, b2, b3, a1, a2, a3);
    assert(val(p.norm2_spec()) == (b1 * b1 + b2 * b2 + b3 * b3) * (a1 * a1 + a2 * a2 + a3 * a3));
    assert(val(p.norm2_spec()) == 1real * 1real);
    let n = val(p.norm_spec());
    root_of_square(n, 1real);
    let u = p.normalized_spec();
    assert(val(u.scalar.0) * 1real == val(p.scalar.0));
    assert(val(u.bivector.e01) * 1real == val(p.bivector.e01));
    assert(val(u.bivector.e02) * 1real == val(p.bivector.e02));
    assert(val(u.bivector.e03) * 1real == val(p.bivector.e03));
    assert(val(u.bivector.e12) * 1real == val(p.bivector.e12));
    assert(val(u.bivector.e31) * 1real == val(p.bivector.e31));
    assert(val(u.bivector.e23) * 1real == val(p.bivector.e23));
    assert(val(u.pseudo.e0123) * 1real == 0real);
    norm2_of_motor3(val, u);
}

/// The motor between two planes, composed with itself, is the product
/// of the planes.
///
/// In an exact field, where the two planes are normalized and not
/// opposite, the motor between them is a rotation about a line, or a
/// translation; and the motor composed with itself has the
/// coefficients of the product of the second plane and the first.
pub proof fn motor_between_planes_is_the_root_of_their_product<T: Num>(
    val: spec_fn(T) -> real,
    a: Plane3<T>,
    b: Plane3<T>,
)
    requires
        exact(val),
        val(a.0.norm2_spec()) == 1real,
        val(b.0.norm2_spec()) == 1real,
        cosine_of_planes(val, a, b) != -1real,
    ensures
        ({
            let motor = Motor3::plane_plane_spec(a, b);
            let square = motor.compose_spec(motor);
            let product = product_of_planes(a, b);
            &&& is_rotation(val, motor)
            &&& val(square.scalar.0) == val(product.scalar.0)
            &&& val(square.bivector.e01) == val(product.bivector.e01)
            &&& val(square.bivector.e02) == val(product.bivector.e02)
            &&& val(square.bivector.e03) == val(product.bivector.e03)
            &&& val(square.bivector.e12) == val(product.bivector.e12)
            &&& val(square.bivector.e31) == val(product.bivector.e31)
            &&& val(square.bivector.e23) == val(product.bivector.e23)
            &&& val(square.pseudo.e0123) == val(product.pseudo.e0123)
        }),
{
    let (a0, a1, a2, a3) = (val(a.0.e0), val(a.0.e1), val(a.0.e2), val(a.0.e3));
    let (b0, b1, b2, b3) = (val(b.0.e0), val(b.0.e1), val(b.0.e2), val(b.0.e3));
    let u = product_of_planes(a, b).normalized_spec();
    product_of_normalized_planes(val, a, b);
    assert(is_rotation(val, u));
    assert(Motor3::plane_plane_spec(a, b) == u.sqrt_spec());
    root_of_rotation_of_space(val, u);
    square_of_root_of_rotation_of_space(val, u);
}

} // verus!
