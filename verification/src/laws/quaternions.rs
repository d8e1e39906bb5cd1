//! The norm of the motors of space is multiplicative.

use core::ops::{Add, BitOr, BitXor, Div, Mul, Neg, Not, Sub};
use vstd::prelude::*;
use vstd::std_specs::cmp::PartialEqSpec;
use vstd::std_specs::ops::{
    AddSpec,
    BitOrSpec,
    BitXorSpec,
    DivSpec,
    MulSpec,
    NegSpec,
    NotSpec,
    SubSpec,
};

use crate::laws::exact::exact;
use crate::laws::motors3::{norm2_of_motor3, normalized_motor3_is_unit};
use crate::laws::reals::{distribute, distribute3, regroup, zero};
use crate::pga::motor::Motor3;
use crate::scalar::Num;

verus! {

/// The square of a sum of three.
proof fn square_of_sum(a: real, b: real, c: real)
    ensures
        (a + b + c) * (a + b + c) == a * a + b * b + c * c + 2real * (a * b) + 2real * (a * c)
            + 2real * (b * c),
{
    distribute3(a, b, c, a + b + c);
    distribute3(a, b, c, a);
    distribute3(a, b, c, b);
    distribute3(a, b, c, c);
    assert(b * a == a * b && c * a == a * c && c * b == b * c);
}

/// The square of a difference.
proof fn square_of_difference(a: real, b: real)
    ensures
        (a - b) * (a - b) == a * a + b * b - 2real * (a * b),
{
    distribute(a, b, a - b);
    distribute(a, b, a);
    distribute(a, b, b);
    assert(b * a == a * b);
}

/// The identity of Lagrange: the squares of the three coordinates of a
/// cross product and the square of the inner product add up to the
/// product of the squared lengths.
pub proof fn lagrange(x: real, y: real, z: real, u: real, v: real, w: real)
    ensures
        (y * w - z * v) * (y * w - z * v) + (z * u - x * w) * (z * u - x * w) + (x * v - y * u) * (x
            * v - y * u) + (x * u + y * v + z * w) * (x * u + y * v + z * w) == (x * x + y * y + z
            * z) * (u * u + v * v + w * w),
{
    square_of_difference(y * w, z * v);
    square_of_difference(z * u, x * w);
    square_of_difference(x * v, y * u);
    square_of_sum(x * u, y * v, z * w);
    // the mixed products cancel
    assert((y * w) * (z * v) == (y * v) * (z * w)) by (nonlinear_arith);
    assert((z * u) * (x * w) == (x * u) * (z * w)) by (nonlinear_arith);
    assert((x * v) * (y * u) == (x * u) * (y * v)) by (nonlinear_arith);
    // the squares are the products of the squares
    assert((y * w) * (y * w) == (y * y) * (w * w)) by (nonlinear_arith);
    assert((z * v) * (z * v) == (z * z) * (v * v)) by (nonlinear_arith);
    assert((z * u) * (z * u) == (z * z) * (u * u)) by (nonlinear_arith);
    assert((x * w) * (x * w) == (x * x) * (w * w)) by (nonlinear_arith);
    assert((x * v) * (x * v) == (x * x) * (v * v)) by (nonlinear_arith);
    assert((y * u) * (y * u) == (y * y) * (u * u)) by (nonlinear_arith);
    assert((x * u) * (x * u) == (x * x) * (u * u)) by (nonlinear_arith);
    assert((y * v) * (y * v) == (y * y) * (v * v)) by (nonlinear_arith);
    assert((z * w) * (z * w) == (z * z) * (w * w)) by (nonlinear_arith);
    distribute3(x * x, y * y, z * z, u * u + v * v + w * w);
    distribute3(u * u, v * v, w * w, x * x);
    distribute3(u * u, v * v, w * w, y * y);
    distribute3(u * u, v * v, w * w, z * z);
}

/// A cross product is perpendicular to its factors, so that the mixed
/// terms of the squares vanish.
proof fn mixed_terms(
    s: real,
    t: real,
    x: real,
    y: real,
    z: real,
    u: real,
    v: real,
    w: real,
)
    ensures
        ({
            let (c1, c2, c3) = (y * w - z * v, z * u - x * w, x * v - y * u);
            &&& (s * u) * c1 + (s * v) * c2 + (s * w) * c3 == 0real
            &&& (x * t) * c1 + (y * t) * c2 + (z * t) * c3 == 0real
        }),
{
    let (c1, c2, c3) = (y * w - z * v, z * u - x * w, x * v - y * u);
    // u c1 + v c2 + w c3 = 0 and x c1 + y c2 + z c3 = 0
    distribute(y * w, z * v, u);
    distribute(z * u, x * w, v);
    distribute(x * v, y * u, w);
    distribute(y * w, z * v, x);
    distribute(z * u, x * w, y);
    distribute(x * v, y * u, z);
    assert(u * (y * w) == w * (y * u)) by (nonlinear_arith);
    assert(u * (z * v) == v * (z * u)) by (nonlinear_arith);
    assert(v * (x * w) == w * (x * v)) by (nonlinear_arith);
    assert(x * (y * w) == y * (x * w)) by (nonlinear_arith);
    assert(x * (z * v) == z * (x * v)) by (nonlinear_arith);
    assert(y * (z * u) == z * (y * u)) by (nonlinear_arith);
    assert(u * c1 + v * c2 + w * c3 == 0real);
    assert(x * c1 + y * c2 + z * c3 == 0real);
    regroup(s, u, c1);
    regroup(s, v, c2);
    regroup(s, w, c3);
    distribute3(u * c1, v * c2, w * c3, s);
    zero(s);
    assert((x * t) * c1 == t * (x * c1)) by (nonlinear_arith);
    assert((y * t) * c2 == t * (y * c2)) by (nonlinear_arith);
    assert((z * t) * c3 == t * (z * c3)) by (nonlinear_arith);
    distribute3(x * c1, y * c2, z * c3, t);
    zero(t);
}

/// The four squares of a product of two quaternions add up to the
/// product of the sums of their four squares.
proof fn four_squares(s: real, x: real, y: real, z: real, t: real, u: real, v: real, w: real)
    ensures
        ({
            let p0 = s * t + (-(x * u + y * v + z * w));
            let p1 = s * u + x * t + (y * w - z * v);
            let p2 = s * v + y * t + (z * u - x * w);
            let p3 = s * w + z * t + (x * v - y * u);
            p0 * p0 + (p1 * p1 + p2 * p2 + p3 * p3) == (s * s + (x * x + y * y + z * z)) * (t * t + (
            u * u + v * v + w * w))
        }),
{
    let d = x * u + y * v + z * w;
    let (c1, c2, c3) = (y * w - z * v, z * u - x * w, x * v - y * u);
    let p0 = s * t + (-d);
    let p1 = s * u + x * t + c1;
    let p2 = s * v + y * t + c2;
    let p3 = s * w + z * t + c3;
    assert(p0 == s * t - d);
    square_of_difference(s * t, d);
    square_of_sum(s * u, x * t, c1);
    square_of_sum(s * v, y * t, c2);
    square_of_sum(s * w, z * t, c3);
    lagrange(x, y, z, u, v, w);
    mixed_terms(s, t, x, y, z, u, v, w);
    // the products of the scalars with the vectors
    assert((s * t) * (s * t) == (s * s) * (t * t)) by (nonlinear_arith);
    assert((s * u) * (s * u) == (s * s) * (u * u)) by (nonlinear_arith);
    assert((s * v) * (s * v) == (s * s) * (v * v)) by (nonlinear_arith);
    assert((s * w) * (s * w) == (s * s) * (w * w)) by (nonlinear_arith);
    assert((x * t) * (x * t) == (x * x) * (t * t)) by (nonlinear_arith);
    assert((y * t) * (y * t) == (y * y) * (t * t)) by (nonlinear_arith);
    assert((z * t) * (z * t) == (z * z) * (t * t)) by (nonlinear_arith);
    assert((s * u) * (x * t) == (s * t) * (x * u)) by (nonlinear_arith);
    assert((s * v) * (y * t) == (s * t) * (y * v)) by (nonlinear_arith);
    assert((s * w) * (z * t) == (s * t) * (z * w)) by (nonlinear_arith);
    distribute3(x * u, y * v, z * w, s * t);
    // the product of the sums
    distribute(s * s, x * x + y * y + z * z, t * t + (u * u + v * v + w * w));
    distribute(t * t, u * u + v * v + w * w, s * s);
    distribute(t * t, u * u + v * v + w * w, x * x + y * y + z * z);
    distribute3(u * u, v * v, w * w, s * s);
    distribute3(x * x, y * y, z * z, t * t);
    let squares = (s * s) * (t * t) + (s * s) * (u * u) + (s * s) * (v * v) + (s * s) * (w * w) + (x
        * x) * (t * t) + (y * y) * (t * t) + (z * z) * (t * t);
    let cross = c1 * c1 + c2 * c2 + c3 * c3 + d * d;
    assert(p0 * p0 + (p1 * p1 + p2 * p2 + p3 * p3) == squares + cross);
}

/// In an exact field the norm is multiplicative: the product of two
/// motors of space of norm one has the norm one.
pub proof fn product_of_unit_motors_of_space_is_unit<T: Num>(
    val: spec_fn(T) -> real,
    a: Motor3<T>,
    b: Motor3<T>,
)
    requires
        exact(val),
        val(a.norm2_spec()) == 1real,
        val(b.norm2_spec()) == 1real,
    ensures
        val(a.compose_spec(b).norm2_spec()) == 1real,
{
    let s0 = a.scalar.mul_spec(b.scalar);
    let bv0 = a.scalar.mul_spec(b.bivector);
    let p0 = a.scalar.mul_spec(b.pseudo);
    let bv1 = a.bivector.mul_spec(b.scalar);
    let (s1, bv2, p1) = a.bivector.mul_spec(b.bivector);
    let bv3 = a.bivector.mul_spec(b.pseudo);
    let p2 = a.pseudo.mul_spec(b.scalar);
    let bv4 = a.pseudo.mul_spec(b.bivector);
    let product = Motor3 {
        scalar: s0.add_spec(s1),
        bivector: bv0.add_spec(bv1).add_spec(bv2).add_spec(bv3).add_spec(bv4),
        pseudo: p0.add_spec(p1).add_spec(p2),
    };
    assert(a.compose_spec(b) == product.normalized_spec());
    norm2_of_motor3(val, a);
    norm2_of_motor3(val, b);
    norm2_of_motor3(val, product);
    let (s, x, y, z) = (
        val(a.scalar.0),
        val(a.bivector.e12),
        val(a.bivector.e31),
        val(a.bivector.e23),
    );
    let (t, u, v, w) = (
        val(b.scalar.0),
        val(b.bivector.e12),
        val(b.bivector.e31),
        val(b.bivector.e23),
    );
    assert(val(product.scalar.0) == s * t + (-(x * u + y * v + z * w)));
    assert(val(product.bivector.e12) == s * u + x * t + (y * w - z * v));
    assert(val(product.bivector.e31) == s * v + y * t + (z * u - x * w));
    assert(val(product.bivector.e23) == s * w + z * t + (x * v - y * u));
    four_squares(s, x, y, z, t, u, v, w);
    assert(val(product.norm2_spec()) == 1real * 1real);
    normalized_motor3_is_unit(val, product);
}

} // verus!
