//! The root of a translation of space is half the translation.

use core::ops::{Add, BitOr, BitXor, Div, Mul, Neg, Not, Sub};
use vstd::prelude::*;
use vstd::std_specs::cmp::PartialEqSpec;
use vstd::std_specs::ops::{
    AddSpec,
    BitOrSpec,
    BitXorSpec,
    DivSpec,
    MulSpec,
    NegSpec,
    NotSpec,
    SubSpec,
};

use crate::laws::exact::exact;
use crate::laws::motors3::norm2_of_motor3;
use crate::laws::reals::{root_of_square, zero};
use crate::pga::motor::Motor3;
use crate::scalar::Num;

verus! {

/// Whether, in the reading `val`, the motor is a translation: its scalar
/// is one, and the Euclidean part of its bivector and its pseudoscalar
/// are zero.
pub open spec fn is_translation<T: Num>(val: spec_fn(T) -> real, m: Motor3<T>) -> bool {
    &&& val(m.scalar.0) == 1real
    &&& val(m.bivector.e12) == 0real
    &&& val(m.bivector.e31) == 0real
    &&& val(m.bivector.e23) == 0real
    &&& val(m.pseudo.e0123) == 0real
}

/// In an exact field the root of a translation of space is the
/// translation by half as far: a translation with half the bivector.
pub proof fn root_of_translation_of_space<T: Num>(val: spec_fn(T) -> real, m: Motor3<T>)
    requires
        exact(val),
        is_translation(val, m),
    ensures
        is_translation(val, m.sqrt_spec()),
        val(m.sqrt_spec().bivector.e01) * 2real == val(m.bivector.e01),
        val(m.sqrt_spec().bivector.e02) * 2real == val(m.bivector.e02),
        val(m.sqrt_spec().bivector.e03) * 2real == val(m.bivector.e03),
{
    let sum = Motor3 {
        scalar: m.scalar.add_spec(T::ONE),
        bivector: m.bivector,
        pseudo: m.pseudo,
    };
    assert(m.sqrt_spec() == sum.normalized_spec());
    assert(val(sum.scalar.0) == 1real + 1real);
    norm2_of_motor3(val, sum);
    assert(val(sum.norm2_spec()) == 2real * 2real + (0real * 0real + 0real * 0real + 0real
        * 0real));
    let n = val(sum.norm_spec());
    root_of_square(n, 2real);
    let r = m.sqrt_spec();
    assert(val(r.scalar.0) * 2real == 2real);
    assert(val(r.bivector.e12) * 2real == 0real);
    assert(val(r.bivector.e31) * 2real == 0real);
    assert(val(r.bivector.e23) * 2real == 0real);
    assert(val(r.pseudo.e0123) * 2real == 0real);
}

/// The root of a translation of space, composed with itself, is the
/// translation.
pub proof fn square_of_root_of_translation_of_space<T: Num>(val: spec_fn(T) -> real, m: Motor3<T>)
    requires
        exact(val),
        is_translation(val, m),
    ensures
        ({
            let square = m.sqrt_spec().compose_spec(m.sqrt_spec());
            &&& is_translation(val, square)
            &&& val(square.bivector.e01) == val(m.bivector.e01)
            &&& val(square.bivector.e02) == val(m.bivector.e02)
            &&& val(square.bivector.e03) == val(m.bivector.e03)
        }),
{
    let r = m.sqrt_spec();
    root_of_translation_of_space(val, m);
    let (r1, r2, r3) = (val(r.bivector.e01), val(r.bivector.e02), val(r.bivector.e03));
    zero(r1);
    zero(r2);
    zero(r3);
    let s0 = r.scalar.mul_spec(r.scalar);
    let bv0 = r.scalar.mul_spec(r.bivector);
    let p0 = r.scalar.mul_spec(r.pseudo);
    let bv1 = r.bivector.mul_spec(r.scalar);
    let (s1, bv2, p1) = r.bivector.mul_spec(r.bivector);
    let bv3 = r.bivector.mul_spec(r.pseudo);
    let p2 = r.pseudo.mul_spec(r.scalar);
    let bv4 = r.pseudo.mul_spec(r.bivector);
    let product = Motor3 {
        scalar: s0.add_spec(s1),
        bivector: bv0.add_spec(bv1).add_spec(bv2).add_spec(bv3).add_spec(bv4),
        pseudo: p0.add_spec(p1).add_spec(p2),
    };
    assert(r.compose_spec(r) == product.normalized_spec());
    // the parts of the product
    assert(val(s0.0) == 1real * 1real);
    assert(val(s1.0) == -(0real * 0real + 0real * 0real + 0real * 0real));
    assert(val(bv0.e01) == 1real * r1 && val(bv0.e02) == 1real * r2 && val(bv0.e03) == 1real * r3);
    assert(val(bv0.e12) == 1real * 0real && val(bv0.e31) == 1real * 0real && val(bv0.e23) == 1real
        * 0real);
    assert(val(bv1.e01) == r1 * 1real && val(bv1.e02) == r2 * 1real && val(bv1.e03) == r3 * 1real);
    assert(val(bv1.e12) == 0real * 1real && val(bv1.e31) == 0real * 1real && val(bv1.e23) == 0real
        * 1real);
    assert(val(bv2.e01) == r3 * 0real - r2 * 0real + 0real * r2 - 0real * r3);
    assert(val(bv2.e02) == r1 * 0real - r3 * 0real + 0real * r3 - 0real * r1);
    assert(val(bv2.e03) == r2 * 0real - r1 * 0real + 0real * r1 - 0real * r2);
    assert(val(bv2.e12) == 0real * 0real - 0real * 0real);
    assert(val(bv2.e31) == 0real * 0real - 0real * 0real);
    assert(val(bv2.e23) == 0real * 0real - 0real * 0real);
    assert(val(bv3.e01) == -(0real * 0real) && val(bv3.e02) == -(0real * 0real) && val(bv3.e03)
        == -(0real * 0real));
    assert(val(bv4.e01) == -(0real * 0real) && val(bv4.e02) == -(0real * 0real) && val(bv4.e03)
        == -(0real * 0real));
    assert(val(p0.e0123) == 1real * 0real);
    assert(val(p1.e0123) == 0real * r3 + 0real * r2 + 0real * r1 + r1 * 0real + r2 * 0real + r3
        * 0real);
    assert(val(p2.e0123) == 0real * 1real);
    assert(is_translation(val, product));
    assert(val(product.bivector.e01) == r1 + r1);
    assert(val(product.bivector.e02) == r2 + r2);
    assert(val(product.bivector.e03) == r3 + r3);
    // it has the norm one, so that normalizing changes nothing
    norm2_of_motor3(val, product);
    assert(val(product.norm2_spec()) == 1real * 1real + (0real * 0real + 0real * 0real + 0real
        * 0real));
    let n = val(product.norm_spec());
    root_of_square(n, 1real);
    let square = product.normalized_spec();
    assert(val(square.scalar.0) * 1real == 1real);
    assert(val(square.bivector.e01) * 1real == r1 + r1);
    assert(val(square.bivector.e02) * 1real == r2 + r2);
    assert(val(square.bivector.e03) * 1real == r3 + r3);
    assert(val(square.bivector.e12) * 1real == 0real);
    assert(val(square.bivector.e31) * 1real == 0real);
    assert(val(square.bivector.e23) * 1real == 0real);
    assert(val(square.pseudo.e0123) * 1real == 0real);
}

} // verus!
