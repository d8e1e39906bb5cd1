//! The motors of space that are constructed have the norm one, and the
//! motor between a line or a plane and itself is the identity.

use core::ops::{Add, BitOr, BitXor, Div, Mul, Neg, Not, Sub};
use vstd::prelude::*;
use vstd::std_specs::cmp::PartialEqSpec;
use vstd::std_specs::ops::{
    AddSpec,
    BitOrSpec,
    BitXorSpec,
    DivSpec,
    MulSpec,
    NegSpec,
    NotSpec,
    SubSpec,
};

use crate::laws::exact::exact;
use crate::laws::motors3::{norm2_of_motor3, normalized_motor3_is_unit, untwisted_keeps_the_norm};
use crate::laws::reals::{cancel, distribute3, root_of_square, zero};
use crate::pga::elements::Pseudo3;
use crate::pga::line::Line3;
use crate::pga::motor::Motor3;
use crate::pga::plane::Plane3;
use crate::scalar::Num;

verus! {

/// Whether, in the reading `val`, the motor has a root: whether the
/// Euclidean part of its bivector is other than zero, or its scalar is
/// positive. The motors without a root are zero and the half turns
/// that are negative scalars: the products of opposite lines or planes.
pub open spec fn has_a_root<T: Num>(val: spec_fn(T) -> real, d: Motor3<T>) -> bool {
    ||| val(d.bivector.e12) != 0real
    ||| val(d.bivector.e31) != 0real
    ||| val(d.bivector.e23) != 0real
    ||| val(d.scalar.0) > 0real
}

/// The product of two lines that the motor between them is the root of.
pub open spec fn product_of_lines<T: Num>(a: Line3<T>, b: Line3<T>) -> Motor3<T> {
    let (s, bv, p) = b.0.mul_spec(a.0.not_spec());
    Motor3 { scalar: s, bivector: bv, pseudo: p }
}

/// The product of two planes that the motor between them is the root of.
pub open spec fn product_of_planes<T: Num>(a: Plane3<T>, b: Plane3<T>) -> Motor3<T> {
    let (s, bv) = b.0.not_spec().mul_spec(a.0.not_spec());
    Motor3 { scalar: s, bivector: bv, pseudo: Pseudo3 { e0123: T::ZERO } }
}

/// A sum of three squares is zero only where each of the three is zero.
proof fn squares(x: real, y: real, z: real)
    ensures
        x * x >= 0real,
        y * y >= 0real,
        z * z >= 0real,
        x * x + y * y + z * z == 0real ==> x == 0real && y == 0real && z == 0real,
{
    assert(x * x >= 0real && (x != 0real ==> x * x > 0real)) by (nonlinear_arith);
    assert(y * y >= 0real && (y != 0real ==> y * y > 0real)) by (nonlinear_arith);
    assert(z * z >= 0real && (z != 0real ==> z * z > 0real)) by (nonlinear_arith);
}

/// In an exact field the root of a normalized motor has the norm one,
/// where the motor has a root.
pub proof fn root_of_normalized_is_unit<T: Num>(val: spec_fn(T) -> real, d: Motor3<T>)
    requires
        exact(val),
        has_a_root(val, d),
    ensures
        val(d.normalized_spec().norm2_spec()) == 1real,
        val(d.normalized_spec().scalar.0) != -1real,
        val(d.normalized_spec().sqrt_spec().norm2_spec()) == 1real,
{
    let s = val(d.scalar.0);
    let (x, y, z) = (val(d.bivector.e12), val(d.bivector.e31), val(d.bivector.e23));
    norm2_of_motor3(val, d);
    squares(x, y, z);
    assert(s * s >= 0real && (s > 0real ==> s * s > 0real)) by (nonlinear_arith);
    assert(val(d.norm2_spec()) != 0real);
    normalized_motor3_is_unit(val, d);
    let n = val(d.norm_spec());
    assert(n * n == val(d.norm2_spec()) && n >= 0real);
    assert(n > 0real) by {
        if n == 0real {
            assert(0real * 0real == 0real);
        }
    }
    let u = d.normalized_spec();
    let us = val(u.scalar.0);
    let (ux, uy, uz) = (val(u.bivector.e12), val(u.bivector.e31), val(u.bivector.e23));
    assert(us * n == s && ux * n == x && uy * n == y && uz * n == z);
    norm2_of_motor3(val, u);
    squares(ux, uy, uz);
    assert(us * us + (ux * ux + uy * uy + uz * uz) == 1real);
    // a motor that has a root is no negative scalar
    assert(us != -1real) by {
        if us == -1real {
            assert((-1real) * (-1real) == 1real);
            assert(ux == 0real && uy == 0real && uz == 0real);
            zero(n);
            assert(x == 0real && y == 0real && z == 0real);
            assert((-1real) * n == -n) by (nonlinear_arith);
            assert(s == (-1real) * n);
            assert(s < 0real);
        }
    }
    // so that the sum with one is not zero
    let sum = Motor3 { scalar: u.scalar.add_spec(T::ONE), bivector: u.bivector, pseudo: u.pseudo };
    let plain = sum.untwisted_spec();
    assert(u.sqrt_spec() == plain.normalized_spec());
    untwisted_keeps_the_norm(sum);
    norm2_of_motor3(val, sum);
    assert(val(sum.scalar.0) == us + 1real);
    assert((us + 1real) * (us + 1real) == us * us + 2real * us + 1real) by (nonlinear_arith);
    assert(val(plain.norm2_spec()) == 2real * us + 2real);
    normalized_motor3_is_unit(val, plain);
}

/// In an exact field the motor between two lines and the motor between
/// two planes have the norm one, where the product of the two has a
/// root: where the two are not opposite and their product is not zero.
pub proof fn constructed_motor_of_space_is_unit<T: Num>(
    val: spec_fn(T) -> real,
    k: Line3<T>,
    l: Line3<T>,
    p: Plane3<T>,
    q: Plane3<T>,
)
    requires
        exact(val),
    ensures
        has_a_root(val, product_of_lines(k, l)) ==> val(Motor3::line_line_spec(k, l).norm2_spec())
            == 1real,
        has_a_root(val, product_of_planes(p, q)) ==> val(
            Motor3::plane_plane_spec(p, q).norm2_spec(),
        ) == 1real,
{
    if has_a_root(val, product_of_lines(k, l)) {
        root_of_normalized_is_unit(val, product_of_lines(k, l));
    }
    if has_a_root(val, product_of_planes(p, q)) {
        root_of_normalized_is_unit(val, product_of_planes(p, q));
    }
}

/// Whether, in the reading `val`, the motor is the identity: its scalar
/// is one and everything else is zero.
pub open spec fn is_identity<T: Num>(val: spec_fn(T) -> real, m: Motor3<T>) -> bool {
    &&& val(m.scalar.0) == 1real
    &&& val(m.bivector.e01) == 0real
    &&& val(m.bivector.e02) == 0real
    &&& val(m.bivector.e03) == 0real
    &&& val(m.bivector.e12) == 0real
    &&& val(m.bivector.e31) == 0real
    &&& val(m.bivector.e23) == 0real
    &&& val(m.pseudo.e0123) == 0real
}

/// Whether, in the reading `val`, the line `b` is the line `a` times the
/// number `k`.
pub open spec fn is_multiple_of_line<T: Num>(
    val: spec_fn(T) -> real,
    b: Line3<T>,
    k: real,
    a: Line3<T>,
) -> bool {
    &&& val(b.0.e01) == k * val(a.0.e01)
    &&& val(b.0.e02) == k * val(a.0.e02)
    &&& val(b.0.e03) == k * val(a.0.e03)
    &&& val(b.0.e12) == k * val(a.0.e12)
    &&& val(b.0.e31) == k * val(a.0.e31)
    &&& val(b.0.e23) == k * val(a.0.e23)
}

/// Whether, in the reading `val`, the plane `b` is the plane `a` times
/// the number `k`.
pub open spec fn is_multiple_of_plane<T: Num>(
    val: spec_fn(T) -> real,
    b: Plane3<T>,
    k: real,
    a: Plane3<T>,
) -> bool {
    &&& val(b.0.e0) == k * val(a.0.e0)
    &&& val(b.0.e1) == k * val(a.0.e1)
    &&& val(b.0.e2) == k * val(a.0.e2)
    &&& val(b.0.e3) == k * val(a.0.e3)
}

/// Whether, in the reading `val`, the bivector is a line: whether its
/// direction is other than zero and perpendicular to its moment.
pub open spec fn is_a_line<T: Num>(val: spec_fn(T) -> real, a: Line3<T>) -> bool {
    &&& val(a.0.e12) != 0real || val(a.0.e31) != 0real || val(a.0.e23) != 0real
    &&& val(a.0.e01) * val(a.0.e23) + val(a.0.e02) * val(a.0.e31) + val(a.0.e03) * val(a.0.e12)
        == 0real
}

/// A product of a multiple with a negative.
proof fn scaled(k: real, x: real, y: real)
    ensures
        (k * x) * (-y) == -(k * (x * y)),
        (k * x) * y == k * (x * y),
        x * y == y * x,
{
    assert((k * x) * (-y) == -(k * (x * y))) by (nonlinear_arith);
    assert((k * x) * y == k * (x * y)) by (nonlinear_arith);
    assert(x * y == y * x) by (nonlinear_arith);
}

/// A motor that is a positive scalar has the identity for the root of
/// its normal form.
proof fn root_of_positive_scalar<T: Num>(val: spec_fn(T) -> real, d: Motor3<T>)
    requires
        exact(val),
        val(d.scalar.0) > 0real,
        val(d.bivector.e01) == 0real,
        val(d.bivector.e02) == 0real,
        val(d.bivector.e03) == 0real,
        val(d.bivector.e12) == 0real,
        val(d.bivector.e31) == 0real,
        val(d.bivector.e23) == 0real,
        val(d.pseudo.e0123) == 0real,
    ensures
        is_identity(val, d.normalized_spec()),
        is_identity(val, d.normalized_spec().sqrt_spec()),
{
    let s = val(d.scalar.0);
    norm2_of_motor3(val, d);
    assert(val(d.norm2_spec()) == s * s + (0real * 0real + 0real * 0real + 0real * 0real));
    let n = val(d.norm_spec());
    root_of_square(n, s);
    let u = d.normalized_spec();
    assert(val(u.scalar.0) * s == s);
    assert(1real * s == s);
    assert(0real * s == 0real);
    cancel(val(u.scalar.0), 1real, s);
    cancel(val(u.bivector.e01), 0real, s);
    cancel(val(u.bivector.e02), 0real, s);
    cancel(val(u.bivector.e03), 0real, s);
    cancel(val(u.bivector.e12), 0real, s);
    cancel(val(u.bivector.e31), 0real, s);
    cancel(val(u.bivector.e23), 0real, s);
    cancel(val(u.pseudo.e0123), 0real, s);
    let sum = Motor3 { scalar: u.scalar.add_spec(T::ONE), bivector: u.bivector, pseudo: u.pseudo };
    assert(u.sqrt_spec() == sum.normalized_spec());
    assert(val(sum.scalar.0) == 1real + 1real);
    norm2_of_motor3(val, sum);
    assert(val(sum.norm2_spec()) == 2real * 2real + (0real * 0real + 0real * 0real + 0real
        * 0real));
    let k = val(sum.norm_spec());
    root_of_square(k, 2real);
    let r = sum.normalized_spec();
    assert(val(r.scalar.0) * 2real == 2real);
    assert(val(r.bivector.e01) * 2real == 0real);
    assert(val(r.bivector.e02) * 2real == 0real);
    assert(val(r.bivector.e03) * 2real == 0real);
    assert(val(r.bivector.e12) * 2real == 0real);
    assert(val(r.bivector.e31) * 2real == 0real);
    assert(val(r.bivector.e23) * 2real == 0real);
    assert(val(r.pseudo.e0123) * 2real == 0real);
}

/// The motor between a line and a positive multiple of it is the
/// identity.
pub proof fn motor_between_multiples_of_a_line<T: Num>(
    val: spec_fn(T) -> real,
    a: Line3<T>,
    b: Line3<T>,
    k: real,
)
    requires
        exact(val),
        is_a_line(val, a),
        is_multiple_of_line(val, b, k, a),
        k > 0real,
    ensures
        is_identity(val, Motor3::line_line_spec(a, b)),
{
    let (x1, x2, x3) = (val(a.0.e01), val(a.0.e02), val(a.0.e03));
    let (e1, e2, e3) = (val(a.0.e12), val(a.0.e31), val(a.0.e23));
    let d = product_of_lines(a, b);
    assert(Motor3::line_line_spec(a, b) == d.normalized_spec().sqrt_spec());
    // every product of two coefficients, once for each order
    scaled(k, e1, e1);
    scaled(k, e2, e2);
    scaled(k, e3, e3);
    scaled(k, x3, e2);
    scaled(k, x2, e1);
    scaled(k, e1, x2);
    scaled(k, e2, x3);
    scaled(k, x1, e1);
    scaled(k, x3, e3);
    scaled(k, e3, x3);
    scaled(k, e1, x1);
    scaled(k, x2, e3);
    scaled(k, x1, e2);
    scaled(k, e2, x1);
    scaled(k, e3, x2);
    scaled(k, e2, e3);
    scaled(k, e3, e2);
    scaled(k, e3, e1);
    scaled(k, e1, e3);
    scaled(k, e1, e2);
    scaled(k, e2, e1);
    scaled(k, e1, x3);
    scaled(k, e2, x2);
    scaled(k, e3, x1);
    scaled(k, x1, e3);
    scaled(k, x2, e2);
    scaled(k, x3, e1);
    let size = e1 * e1 + e2 * e2 + e3 * e3;
    assert(val(d.scalar.0) == k * (e1 * e1) + k * (e2 * e2) + k * (e3 * e3));
    squares(e1, e2, e3);
    assert(size > 0real);
    distribute3(e1 * e1, e2 * e2, e3 * e3, k);
    assert(k * size > 0real) by (nonlinear_arith)
        requires
            k > 0real,
            size > 0real,
    ;
    assert(val(d.bivector.e01) == 0real);
    assert(val(d.bivector.e02) == 0real);
    assert(val(d.bivector.e03) == 0real);
    assert(val(d.bivector.e12) == 0real);
    assert(val(d.bivector.e31) == 0real);
    assert(val(d.bivector.e23) == 0real);
    let moment = x1 * e3 + x2 * e2 + x3 * e1;
    distribute3(x1 * e3, x2 * e2, x3 * e1, k);
    zero(k);
    assert(val(d.pseudo.e0123) == -(k * moment) - k * moment);
    root_of_positive_scalar(val, d);
}

/// The motor between a plane and a positive multiple of it is the
/// identity.
pub proof fn motor_between_multiples_of_a_plane<T: Num>(
    val: spec_fn(T) -> real,
    a: Plane3<T>,
    b: Plane3<T>,
    k: real,
)
    requires
        exact(val),
        val(a.0.e1) != 0real || val(a.0.e2) != 0real || val(a.0.e3) != 0real,
        is_multiple_of_plane(val, b, k, a),
        k > 0real,
    ensures
        is_identity(val, Motor3::plane_plane_spec(a, b)),
{
    let (a0, a1, a2, a3) = (val(a.0.e0), val(a.0.e1), val(a.0.e2), val(a.0.e3));
    let d = product_of_planes(a, b);
    assert(Motor3::plane_plane_spec(a, b) == d.normalized_spec().sqrt_spec());
    scaled(k, a1, a1);
    scaled(k, a2, a2);
    scaled(k, a3, a3);
    scaled(k, a0, a1);
    scaled(k, a1, a0);
    scaled(k, a0, a2);
    scaled(k, a2, a0);
    scaled(k, a0, a3);
    scaled(k, a3, a0);
    scaled(k, a1, a2);
    scaled(k, a2, a1);
    scaled(k, a3, a1);
    scaled(k, a1, a3);
    scaled(k, a2, a3);
    scaled(k, a3, a2);
    let size = a1 * a1 + a2 * a2 + a3 * a3;
    assert(val(d.scalar.0) == k * (a1 * a1) + k * (a2 * a2) + k * (a3 * a3));
    squares(a1, a2, a3);
    assert(size > 0real);
    distribute3(a1 * a1, a2 * a2, a3 * a3, k);
    assert(k * size > 0real) by (nonlinear_arith)
        requires
            k > 0real,
            size > 0real,
    ;
    assert(val(d.bivector.e01) == 0real);
    assert(val(d.bivector.e02) == 0real);
    assert(val(d.bivector.e03) == 0real);
    assert(val(d.bivector.e12) == 0real);
    assert(val(d.bivector.e31) == 0real);
    assert(val(d.bivector.e23) == 0real);
    root_of_positive_scalar(val, d);
}

/// The motor between a line and itself, and the motor between a plane
/// and itself, is the identity.
pub proof fn motor_between_a_line_and_itself<T: Num>(
    val: spec_fn(T) -> real,
    line: Line3<T>,
    plane: Plane3<T>,
)
    requires
        exact(val),
    ensures
        is_a_line(val, line) ==> is_identity(val, Motor3::line_line_spec(line, line)),
        val(plane.0.e1) != 0real || val(plane.0.e2) != 0real || val(plane.0.e3) != 0real
            ==> is_identity(val, Motor3::plane_plane_spec(plane, plane)),
{
    if is_a_line(val, line) {
        motor_between_multiples_of_a_line(val, line, line, 1real);
    }
    if val(plane.0.e1) != 0real || val(plane.0.e2) != 0real || val(plane.0.e3) != 0real {
        motor_between_multiples_of_a_plane(val, plane, plane, 1real);
    }
}

} // verus!
