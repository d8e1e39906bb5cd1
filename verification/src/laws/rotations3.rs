//! The root of a motor of space, composed with itself, is the motor:
//! of a rotation about a line, of a translation, and of a screw.

use core::ops::{Add, BitOr, BitXor, Div, Mul, Neg, Not, Sub};
use vstd::prelude::*;
use vstd::std_specs::cmp::PartialEqSpec;
use vstd::std_specs::ops::{
    AddSpec,
    BitOrSpec,
    BitXorSpec,
    DivSpec,
    MulSpec,
    NegSpec,
    NotSpec,
    SubSpec,
};

use crate::laws::exact::exact;
use crate::laws::motors3::{
    norm2_of_motor3,
    normalized_motor3_is_unit,
    untwisted_keeps_the_norm,
    without_twist,
};
use crate::laws::reals::{cancel, distribute, distribute3, regroup, root_of_square, zero};
use crate::pga::motor::Motor3;
use crate::scalar::Num;

verus! {

/// Whether, in the reading `val`, the motor is a rotation about a line
/// of space, or a translation: it has the norm one and no pseudoscalar,
/// the two parts of its bivector are perpendicular, and it is not the
/// half turn whose scalar is minus one, which has no root.
pub open spec fn is_rotation<T: Num>(val: spec_fn(T) -> real, m: Motor3<T>) -> bool {
    &&& val(m.norm2_spec()) == 1real
    &&& val(m.scalar.0) != -1real
    &&& val(m.pseudo.e0123) == 0real
    &&& val(m.bivector.e01) * val(m.bivector.e23) + val(m.bivector.e02) * val(m.bivector.e31)
        + val(m.bivector.e03) * val(m.bivector.e12) == 0real
}

/// The sum of a motor and one, of which the root is the normalized form.
pub open spec fn raised<T: Num>(m: Motor3<T>) -> Motor3<T> {
    Motor3 { scalar: m.scalar.add_spec(T::ONE), bivector: m.bivector, pseudo: m.pseudo }
}

/// Twice the product of the scalar and a coefficient of the root is the
/// coefficient.
proof fn twice_half(s: real, k: real, n: real, rs: real, rk: real)
    requires
        n * n == 2real + 2real * s,
        rs * n == s + 1real,
        rk * n == k,
        n != 0real,
    ensures
        rs * rk + rk * rs == k,
{
    assert(n * n != 0real) by (nonlinear_arith)
        requires
            n != 0real,
    ;
    assert((rs * rk) * (n * n) == (rs * n) * (rk * n)) by (nonlinear_arith);
    assert((rs * n) * (rk * n) == (s + 1real) * k);
    distribute(rs * rk, rk * rs, n * n);
    assert(rk * rs == rs * rk);
    distribute(s, 1real, k);
    distribute(2real, 2real * s, k);
    assert(k * (2real * s) == 2real * (s * k)) by (nonlinear_arith);
    assert(k * 2real == 2real * k && 1real * k == k);
    assert((rs * rk + rk * rs) * (n * n) == k * (n * n));
    cancel(rs * rk + rk * rs, k, n * n);
}

/// The scalar of the square of the root is the scalar.
proof fn half_scalar(s: real, e: real, n: real, rs: real, re: real)
    requires
        s * s + e == 1real,
        n * n == 2real + 2real * s,
        rs * n == s + 1real,
        re * (n * n) == e,
        n != 0real,
    ensures
        rs * rs - re == s,
{
    assert(n * n != 0real) by (nonlinear_arith)
        requires
            n != 0real,
    ;
    assert((rs * rs) * (n * n) == (rs * n) * (rs * n)) by (nonlinear_arith);
    assert((rs * n) * (rs * n) == (s + 1real) * (s + 1real));
    assert((s + 1real) * (s + 1real) == s * s + 2real * s + 1real) by (nonlinear_arith);
    distribute(rs * rs, re, n * n);
    distribute(2real, 2real * s, s);
    assert(s * (2real * s) == 2real * (s * s)) by (nonlinear_arith);
    assert(s * 2real == 2real * s);
    assert((rs * rs - re) * (n * n) == s * (n * n));
    cancel(rs * rs - re, s, n * n);
}

/// The square of a coefficient of the root, times the squared norm of
/// the raised motor, is the square of the coefficient of the motor.
proof fn square_of_quotient(rk: real, n: real, k: real)
    requires
        rk * n == k,
    ensures
        (rk * rk) * (n * n) == k * k,
{
    assert((rk * rk) * (n * n) == (rk * n) * (rk * n)) by (nonlinear_arith);
}

/// The product of two coefficients of the root, times the squared norm
/// of the raised motor, is the product of the coefficients of the motor.
proof fn product_of_quotients(ra: real, rb: real, n: real, a: real, b: real)
    requires
        ra * n == a,
        rb * n == b,
    ensures
        (ra * rb) * (n * n) == a * b,
{
    assert((ra * rb) * (n * n) == (ra * n) * (rb * n)) by (nonlinear_arith);
}

/// The root of a rotation of space is the sum of the rotation and one,
/// divided by a positive number whose square is twice the sum of the
/// scalar and one; it has the norm one and a positive scalar.
pub proof fn root_of_unit_motor_of_space<T: Num>(val: spec_fn(T) -> real, m: Motor3<T>)
    requires
        exact(val),
        is_rotation(val, m),
    ensures
        ({
            let n = val(raised(m).norm_spec());
            let r = m.sqrt_spec();
            &&& n > 0real
            &&& n * n == 2real + 2real * val(m.scalar.0)
            &&& val(r.scalar.0) * n == val(m.scalar.0) + 1real
            &&& val(r.bivector.e01) * n == val(m.bivector.e01)
            &&& val(r.bivector.e02) * n == val(m.bivector.e02)
            &&& val(r.bivector.e03) * n == val(m.bivector.e03)
            &&& val(r.bivector.e12) * n == val(m.bivector.e12)
            &&& val(r.bivector.e31) * n == val(m.bivector.e31)
            &&& val(r.bivector.e23) * n == val(m.bivector.e23)
            &&& val(r.pseudo.e0123) * n == val(m.pseudo.e0123)
            &&& val(r.scalar.0) > 0real
            &&& val(r.norm2_spec()) == 1real
        }),
{
    let s = val(m.scalar.0);
    let (k1, k2, k3) = (val(m.bivector.e23), val(m.bivector.e31), val(m.bivector.e12));
    let e = k3 * k3 + k2 * k2 + k1 * k1;
    norm2_of_motor3(val, m);
    assert(s * s + e == 1real);
    assert(k3 * k3 >= 0real && k2 * k2 >= 0real && k1 * k1 >= 0real) by (nonlinear_arith);
    assert(s > -1real) by (nonlinear_arith)
        requires
            s * s <= 1real,
            s != -1real,
    ;
    let h = raised(m);
    norm2_of_motor3(val, h);
    assert(val(h.scalar.0) == s + 1real);
    assert((s + 1real) * (s + 1real) == s * s + 2real * s + 1real) by (nonlinear_arith);
    assert(val(h.norm2_spec()) == 2real + 2real * s);
    let n = val(h.norm_spec());
    assert(n * n == val(h.norm2_spec()) && n >= 0real);
    assert(n > 0real) by {
        if n == 0real {
            assert(0real * 0real == 0real);
        }
    }
    normalized_motor3_is_unit(val, h);
    without_twist(val, h);
    let r = m.sqrt_spec();
    assert(r == h.normalized_spec());
    let rs = val(r.scalar.0);
    assert(rs * n == s + 1real);
    assert(val(r.bivector.e01) * n == val(m.bivector.e01));
    assert(val(r.bivector.e02) * n == val(m.bivector.e02));
    assert(val(r.bivector.e03) * n == val(m.bivector.e03));
    assert(val(r.bivector.e12) * n == k3);
    assert(val(r.bivector.e31) * n == k2);
    assert(val(r.bivector.e23) * n == k1);
    assert(val(r.pseudo.e0123) * n == val(m.pseudo.e0123));
    assert(rs > 0real) by (nonlinear_arith)
        requires
            rs * n > 0real,
            n > 0real,
    ;
}

/// The root of a rotation of space is the sum of the rotation and one,
/// divided by a positive number whose square is twice the sum of the
/// scalar and one; and it is a rotation.
pub proof fn root_of_rotation_of_space<T: Num>(val: spec_fn(T) -> real, m: Motor3<T>)
    requires
        exact(val),
        is_rotation(val, m),
    ensures
        ({
            let n = val(raised(m).norm_spec());
            let r = m.sqrt_spec();
            &&& n > 0real
            &&& n * n == 2real + 2real * val(m.scalar.0)
            &&& val(r.scalar.0) * n == val(m.scalar.0) + 1real
            &&& val(r.bivector.e01) * n == val(m.bivector.e01)
            &&& val(r.bivector.e02) * n == val(m.bivector.e02)
            &&& val(r.bivector.e03) * n == val(m.bivector.e03)
            &&& val(r.bivector.e12) * n == val(m.bivector.e12)
            &&& val(r.bivector.e31) * n == val(m.bivector.e31)
            &&& val(r.bivector.e23) * n == val(m.bivector.e23)
            &&& is_rotation(val, r)
        }),
{
    let (x1, x2, x3) = (val(m.bivector.e01), val(m.bivector.e02), val(m.bivector.e03));
    let (k1, k2, k3) = (val(m.bivector.e23), val(m.bivector.e31), val(m.bivector.e12));
    root_of_unit_motor_of_space(val, m);
    let n = val(raised(m).norm_spec());
    let r = m.sqrt_spec();
    let (y1, y2, y3) = (val(r.bivector.e01), val(r.bivector.e02), val(r.bivector.e03));
    let (j1, j2, j3) = (val(r.bivector.e23), val(r.bivector.e31), val(r.bivector.e12));
    zero(n);
    cancel(val(r.pseudo.e0123), 0real, n);
    // the parts of its bivector are perpendicular
    assert(n * n != 0real) by (nonlinear_arith)
        requires
            n > 0real,
    ;
    product_of_quotients(y1, j1, n, x1, k1);
    product_of_quotients(y2, j2, n, x2, k2);
    product_of_quotients(y3, j3, n, x3, k3);
    distribute3(y1 * j1, y2 * j2, y3 * j3, n * n);
    zero(n * n);
    cancel(y1 * j1 + y2 * j2 + y3 * j3, 0real, n * n);
}

/// The root of a rotation of space, composed with itself, is the
/// rotation.
///
/// This holds in every exact field, of every rotation about a line of
/// space and of every translation.
pub proof fn square_of_root_of_rotation_of_space<T: Num>(val: spec_fn(T) -> real, m: Motor3<T>)
    requires
        exact(val),
        is_rotation(val, m),
    ensures
        ({
            let square = m.sqrt_spec().compose_spec(m.sqrt_spec());
            &&& val(square.scalar.0) == val(m.scalar.0)
            &&& val(square.bivector.e01) == val(m.bivector.e01)
            &&& val(square.bivector.e02) == val(m.bivector.e02)
            &&& val(square.bivector.e03) == val(m.bivector.e03)
            &&& val(square.bivector.e12) == val(m.bivector.e12)
            &&& val(square.bivector.e31) == val(m.bivector.e31)
            &&& val(square.bivector.e23) == val(m.bivector.e23)
            &&& val(square.pseudo.e0123) == val(m.pseudo.e0123)
        }),
{
    let s = val(m.scalar.0);
    let (x1, x2, x3) = (val(m.bivector.e01), val(m.bivector.e02), val(m.bivector.e03));
    let (k1, k2, k3) = (val(m.bivector.e23), val(m.bivector.e31), val(m.bivector.e12));
    let n = val(raised(m).norm_spec());
    let r = m.sqrt_spec();
    root_of_rotation_of_space(val, m);
    norm2_of_motor3(val, m);
    let rs = val(r.scalar.0);
    let (y1, y2, y3) = (val(r.bivector.e01), val(r.bivector.e02), val(r.bivector.e03));
    let (j1, j2, j3) = (val(r.bivector.e23), val(r.bivector.e31), val(r.bivector.e12));
    assert(val(r.pseudo.e0123) == 0real);
    let s0 = r.scalar.mul_spec(r.scalar);
    let bv0 = r.scalar.mul_spec(r.bivector);
    let p0 = r.scalar.mul_spec(r.pseudo);
    let bv1 = r.bivector.mul_spec(r.scalar);
    let (s1, bv2, p1) = r.bivector.mul_spec(r.bivector);
    let bv3 = r.bivector.mul_spec(r.pseudo);
    let p2 = r.pseudo.mul_spec(r.scalar);
    let bv4 = r.pseudo.mul_spec(r.bivector);
    let product = Motor3 {
        scalar: s0.add_spec(s1),
        bivector: bv0.add_spec(bv1).add_spec(bv2).add_spec(bv3).add_spec(bv4),
        pseudo: p0.add_spec(p1).add_spec(p2),
    };
    assert(r.compose_spec(r) == product.normalized_spec());
    // the parts of the product
    zero(rs);
    zero(j1);
    zero(j2);
    zero(j3);
    assert(val(s0.0) == rs * rs);
    assert(val(s1.0) == -(j3 * j3 + j2 * j2 + j1 * j1));
    assert(val(bv0.e01) == rs * y1 && val(bv0.e02) == rs * y2 && val(bv0.e03) == rs * y3);
    assert(val(bv0.e12) == rs * j3 && val(bv0.e31) == rs * j2 && val(bv0.e23) == rs * j1);
    assert(val(bv1.e01) == y1 * rs && val(bv1.e02) == y2 * rs && val(bv1.e03) == y3 * rs);
    assert(val(bv1.e12) == j3 * rs && val(bv1.e31) == j2 * rs && val(bv1.e23) == j1 * rs);
    assert(val(bv2.e01) == y3 * j2 - y2 * j3 + j3 * y2 - j2 * y3);
    assert(val(bv2.e02) == y1 * j3 - y3 * j1 + j1 * y3 - j3 * y1);
    assert(val(bv2.e03) == y2 * j1 - y1 * j2 + j2 * y1 - j1 * y2);
    assert(val(bv2.e12) == j2 * j1 - j1 * j2);
    assert(val(bv2.e31) == j1 * j3 - j3 * j1);
    assert(val(bv2.e23) == j3 * j2 - j2 * j3);
    assert(val(bv3.e01) == -(j1 * 0real) && val(bv3.e02) == -(j2 * 0real) && val(bv3.e03) == -(j3
        * 0real));
    assert(val(bv4.e01) == -(0real * j1) && val(bv4.e02) == -(0real * j2) && val(bv4.e03) == -(
    0real * j3));
    assert(val(p0.e0123) == rs * 0real);
    assert(val(p1.e0123) == j3 * y3 + j2 * y2 + j1 * y1 + y1 * j1 + y2 * j2 + y3 * j3);
    assert(val(p2.e0123) == 0real * rs);
    assert(y3 * j2 == j2 * y3 && y2 * j3 == j3 * y2 && y1 * j3 == j3 * y1 && y3 * j1 == j1 * y3
        && y2 * j1 == j1 * y2 && y1 * j2 == j2 * y1 && j2 * j1 == j1 * j2 && j1 * j3 == j3 * j1
        && j3 * j2 == j2 * j3 && j3 * y3 == y3 * j3 && j2 * y2 == y2 * j2 && j1 * y1 == y1 * j1);
    assert(val(product.pseudo.e0123) == 0real);
    // twice the scalar of the root, times a coefficient of its bivector
    twice_half(s, x1, n, rs, y1);
    twice_half(s, x2, n, rs, y2);
    twice_half(s, x3, n, rs, y3);
    twice_half(s, k1, n, rs, j1);
    twice_half(s, k2, n, rs, j2);
    twice_half(s, k3, n, rs, j3);
    assert(val(product.bivector.e01) == x1);
    assert(val(product.bivector.e02) == x2);
    assert(val(product.bivector.e03) == x3);
    assert(val(product.bivector.e12) == k3);
    assert(val(product.bivector.e31) == k2);
    assert(val(product.bivector.e23) == k1);
    // the square of its scalar, less the square of the rest
    let e = k3 * k3 + k2 * k2 + k1 * k1;
    let re = j3 * j3 + j2 * j2 + j1 * j1;
    square_of_quotient(j3, n, k3);
    square_of_quotient(j2, n, k2);
    square_of_quotient(j1, n, k1);
    distribute3(j3 * j3, j2 * j2, j1 * j1, n * n);
    half_scalar(s, e, n, rs, re);
    assert(val(product.scalar.0) == s);
    // the product has the norm one, so that normalizing changes nothing
    norm2_of_motor3(val, product);
    assert(val(product.norm2_spec()) == 1real * 1real);
    let d = val(product.norm_spec());
    root_of_square(d, 1real);
    let square = product.normalized_spec();
    assert(val(square.scalar.0) * 1real == s);
    assert(val(square.bivector.e01) * 1real == x1);
    assert(val(square.bivector.e02) * 1real == x2);
    assert(val(square.bivector.e03) * 1real == x3);
    assert(val(square.bivector.e12) * 1real == k3);
    assert(val(square.bivector.e31) * 1real == k2);
    assert(val(square.bivector.e23) * 1real == k1);
    assert(val(square.pseudo.e0123) * 1real == 0real);
}

/// Whether, in the reading `val`, the motor is a motion of space that
/// has a root: it has the norm one, its product with its reverse has no
/// pseudoscalar part, and it is not the half turn whose scalar is minus
/// one. Such are the rotations, the translations and the screws.
pub open spec fn is_motion<T: Num>(val: spec_fn(T) -> real, m: Motor3<T>) -> bool {
    &&& val(m.norm2_spec()) == 1real
    &&& val(m.scalar.0) != -1real
    &&& val(m.scalar.0) * val(m.pseudo.e0123) - (val(m.bivector.e01) * val(m.bivector.e23) + val(
        m.bivector.e02,
    ) * val(m.bivector.e31) + val(m.bivector.e03) * val(m.bivector.e12)) == 0real
}

/// Twice the product of the scalar of the root and a coefficient of its
/// moment, less twice the product of its pseudoscalar and the
/// coefficient of its direction, is the coefficient of the motor.
proof fn twisted_half(
    s: real,
    q: real,
    x: real,
    k: real,
    n: real,
    rs: real,
    y: real,
    rp: real,
    j: real,
)
    requires
        n * n == 2real + 2real * s,
        n != 0real,
        rs * n == s + 1real,
        j * n == k,
        (y * n) * (2real + 2real * s) == x * (2real + 2real * s) + q * k,
        (rp * n) * 2real == q,
    ensures
        rs * y + y * rs - j * rp - rp * j == x,
{
    let nn = n * n;
    let t = rs * y + y * rs - j * rp - rp * j;
    let big = y * n;
    let r = rp * n;
    assert(nn != 0real) by (nonlinear_arith)
        requires
            nn == n * n,
            n != 0real,
    ;
    assert((rs * y) * (n * n) == (rs * n) * (y * n)) by (nonlinear_arith);
    assert((rp * j) * (n * n) == (rp * n) * (j * n)) by (nonlinear_arith);
    regroup(rs, y, 1real);
    regroup(rp, j, 1real);
    distribute(rs * y + y * rs - j * rp, rp * j, nn);
    distribute(rs * y + y * rs, j * rp, nn);
    distribute(rs * y, y * rs, nn);
    assert(t * nn == 2real * ((s + 1real) * big) - 2real * (r * k));
    assert(2real * ((s + 1real) * big) == big * (2real + 2real * s)) by (nonlinear_arith);
    assert(2real * (r * k) == (r * 2real) * k) by (nonlinear_arith);
    assert(t * nn == big * nn - q * k);
    distribute(big * nn, q * k, nn);
    distribute(x * nn, q * k, nn);
    regroup(big, nn, 1real);
    assert((t * nn) * nn == (x * nn) * nn);
    cancel(t * nn, x * nn, nn);
    cancel(t, x, nn);
}

/// Twice the product of the scalar and the pseudoscalar of the root,
/// and twice the inner product of the two parts of its bivector, add up
/// to the pseudoscalar of the motor.
proof fn twisted_pseudoscalar(
    s: real,
    q: real,
    x1: real,
    x2: real,
    x3: real,
    k1: real,
    k2: real,
    k3: real,
    n: real,
    rs: real,
    rp: real,
    y1: real,
    y2: real,
    y3: real,
    j1: real,
    j2: real,
    j3: real,
)
    requires
        s * s + (k3 * k3 + k2 * k2 + k1 * k1) == 1real,
        s * q - (x1 * k1 + x2 * k2 + x3 * k3) == 0real,
        n * n == 2real + 2real * s,
        n != 0real,
        rs * n == s + 1real,
        j1 * n == k1,
        j2 * n == k2,
        j3 * n == k3,
        (y1 * n) * (2real + 2real * s) == x1 * (2real + 2real * s) + q * k1,
        (y2 * n) * (2real + 2real * s) == x2 * (2real + 2real * s) + q * k2,
        (y3 * n) * (2real + 2real * s) == x3 * (2real + 2real * s) + q * k3,
        (rp * n) * 2real == q,
    ensures
        rs * rp + (j3 * y3 + j2 * y2 + j1 * y1 + y1 * j1 + y2 * j2 + y3 * j3) + rp * rs == q,
{
    let nn = n * n;
    let t = rs * rp + (j3 * y3 + j2 * y2 + j1 * y1 + y1 * j1 + y2 * j2 + y3 * j3) + rp * rs;
    let (b1, b2, b3) = (y1 * n, y2 * n, y3 * n);
    let r = rp * n;
    assert(nn != 0real) by (nonlinear_arith)
        requires
            nn == n * n,
            n != 0real,
    ;
    // as often as the squared number
    assert((rs * rp) * (n * n) == (rs * n) * (rp * n)) by (nonlinear_arith);
    assert((y1 * j1) * (n * n) == (y1 * n) * (j1 * n)) by (nonlinear_arith);
    assert((y2 * j2) * (n * n) == (y2 * n) * (j2 * n)) by (nonlinear_arith);
    assert((y3 * j3) * (n * n) == (y3 * n) * (j3 * n)) by (nonlinear_arith);
    regroup(rs, rp, 1real);
    regroup(j1, y1, 1real);
    regroup(j2, y2, 1real);
    regroup(j3, y3, 1real);
    let inner = y1 * j1 + y2 * j2 + y3 * j3;
    assert(t == 2real * (rs * rp) + 2real * inner);
    distribute3(y1 * j1, y2 * j2, y3 * j3, nn);
    distribute(2real * (rs * rp), 2real * inner, nn);
    assert((2real * (rs * rp)) * nn == 2real * ((rs * rp) * nn)) by (nonlinear_arith);
    assert((2real * inner) * nn == 2real * (inner * nn)) by (nonlinear_arith);
    assert(2real * ((s + 1real) * r) == (s + 1real) * (r * 2real)) by (nonlinear_arith);
    let blown = b1 * k1 + b2 * k2 + b3 * k3;
    assert(t * nn == (s + 1real) * q + 2real * blown);
    // and as often again
    distribute3(b1 * k1, b2 * k2, b3 * k3, nn);
    regroup(b1, k1, nn);
    regroup(b2, k2, nn);
    regroup(b3, k3, nn);
    distribute(x1 * nn, q * k1, k1);
    distribute(x2 * nn, q * k2, k2);
    distribute(x3 * nn, q * k3, k3);
    regroup(x1, nn, k1);
    regroup(x2, nn, k2);
    regroup(x3, nn, k3);
    regroup(q, k1, k1);
    regroup(q, k2, k2);
    regroup(q, k3, k3);
    let xk = x1 * k1 + x2 * k2 + x3 * k3;
    let kk = k1 * k1 + k2 * k2 + k3 * k3;
    distribute3(x1 * k1, x2 * k2, x3 * k3, nn);
    distribute3(k1 * k1, k2 * k2, k3 * k3, q);
    assert(blown * nn == xk * nn + q * kk);
    assert(xk == s * q && kk == 1real - s * s);
    distribute((s + 1real) * q, 2real * blown, nn);
    assert((2real * blown) * nn == 2real * (blown * nn)) by (nonlinear_arith);
    assert(q * (1real - s * s) == q - q * (s * s)) by (nonlinear_arith);
    assert(((s + 1real) * q) * nn == (s * q) * nn + q * nn) by (nonlinear_arith);
    assert(nn == 2real + 2real * s);
    assert(q * nn == 2real * q + 2real * (q * s)) by (nonlinear_arith)
        requires
            nn == 2real + 2real * s,
    ;
    assert((s * q) * nn == 2real * (q * s) + 2real * (q * (s * s))) by (nonlinear_arith)
        requires
            nn == 2real + 2real * s,
    ;
    assert((q * nn) * nn == 2real * (q * nn) + 2real * ((q * nn) * s)) by (nonlinear_arith)
        requires
            nn == 2real + 2real * s,
    ;
    assert((q * nn) * s == (s * q) * nn) by (nonlinear_arith);
    assert((t * nn) * nn == (q * nn) * nn);
    cancel(t * nn, q * nn, nn);
    cancel(t, q, nn);
}

/// The root of a motion of space is the sum of the motion and one,
/// without its twist, divided by a positive number whose square is
/// twice the sum of the scalar and one. It has the norm one and half of
/// the pseudoscalar of the sum.
pub proof fn root_of_motion_of_space<T: Num>(val: spec_fn(T) -> real, m: Motor3<T>)
    requires
        exact(val),
        is_motion(val, m),
    ensures
        ({
            let n = val(raised(m).norm_spec());
            let r = m.sqrt_spec();
            let nn = 2real + 2real * val(m.scalar.0);
            let q = val(m.pseudo.e0123);
            &&& n > 0real
            &&& n * n == nn
            &&& val(r.scalar.0) * n == val(m.scalar.0) + 1real
            &&& val(r.bivector.e12) * n == val(m.bivector.e12)
            &&& val(r.bivector.e31) * n == val(m.bivector.e31)
            &&& val(r.bivector.e23) * n == val(m.bivector.e23)
            &&& (val(r.bivector.e01) * n) * nn == val(m.bivector.e01) * nn + q * val(m.bivector.e23)
            &&& (val(r.bivector.e02) * n) * nn == val(m.bivector.e02) * nn + q * val(m.bivector.e31)
            &&& (val(r.bivector.e03) * n) * nn == val(m.bivector.e03) * nn + q * val(m.bivector.e12)
            &&& (val(r.pseudo.e0123) * n) * 2real == q
            &&& val(r.norm2_spec()) == 1real
        }),
{
    let s = val(m.scalar.0);
    let q = val(m.pseudo.e0123);
    let (x1, x2, x3) = (val(m.bivector.e01), val(m.bivector.e02), val(m.bivector.e03));
    let (k1, k2, k3) = (val(m.bivector.e23), val(m.bivector.e31), val(m.bivector.e12));
    let e = k3 * k3 + k2 * k2 + k1 * k1;
    norm2_of_motor3(val, m);
    assert(s * s + e == 1real);
    assert(k3 * k3 >= 0real && k2 * k2 >= 0real && k1 * k1 >= 0real) by (nonlinear_arith);
    assert(s > -1real) by (nonlinear_arith)
        requires
            s * s <= 1real,
            s != -1real,
    ;
    let h = raised(m);
    norm2_of_motor3(val, h);
    assert(val(h.scalar.0) == s + 1real);
    assert((s + 1real) * (s + 1real) == s * s + 2real * s + 1real) by (nonlinear_arith);
    let nn = 2real + 2real * s;
    assert(val(h.norm2_spec()) == nn);
    let n = val(h.norm_spec());
    assert(n * n == val(h.norm2_spec()) && n >= 0real);
    assert(n > 0real) by {
        if n == 0real {
            assert(0real * 0real == 0real);
        }
    }
    // the twist of the sum is the pseudoscalar
    let twist = val(h.twist_spec());
    distribute(s, 1real, q);
    assert(twist == (s + 1real) * q - (x1 * k1 + x2 * k2 + x3 * k3));
    assert(twist == q);
    let plain = h.untwisted_spec();
    untwisted_keeps_the_norm(h);
    normalized_motor3_is_unit(val, plain);
    let r = m.sqrt_spec();
    assert(r == plain.normalized_spec());
    assert(val(plain.norm_spec()) == n);
    assert(val(r.scalar.0) * n == s + 1real);
    assert(val(r.bivector.e12) * n == k3);
    assert(val(r.bivector.e31) * n == k2);
    assert(val(r.bivector.e23) * n == k1);
    let (b1, b2, b3) = (val(r.bivector.e01) * n, val(r.bivector.e02) * n, val(r.bivector.e03) * n);
    let rq = val(r.pseudo.e0123) * n;
    if q == 0real {
        assert(plain == h);
        assert(b1 == x1 && b2 == x2 && b3 == x3 && rq == 0real);
        zero(k1);
        zero(k2);
        zero(k3);
    } else {
        let part = val(h.twist_spec().div_spec(h.norm2_spec()));
        assert(part * nn == q);
        assert(b1 == x1 + part * k1 && b2 == x2 + part * k2 && b3 == x3 + part * k3);
        assert(rq == q - part * (s + 1real));
        distribute(x1, part * k1, nn);
        distribute(x2, part * k2, nn);
        distribute(x3, part * k3, nn);
        regroup(part, k1, nn);
        regroup(part, k2, nn);
        regroup(part, k3, nn);
        distribute(q, part * (s + 1real), 2real);
        assert((part * (s + 1real)) * 2real == part * (2real + 2real * s)) by (nonlinear_arith);
    }
}

/// The root of a motion of space is a motion that has a root.
pub proof fn root_of_motion_is_a_motion<T: Num>(val: spec_fn(T) -> real, m: Motor3<T>)
    requires
        exact(val),
        is_motion(val, m),
    ensures
        is_motion(val, m.sqrt_spec()),
{
    let s = val(m.scalar.0);
    let q = val(m.pseudo.e0123);
    let (x1, x2, x3) = (val(m.bivector.e01), val(m.bivector.e02), val(m.bivector.e03));
    let (k1, k2, k3) = (val(m.bivector.e23), val(m.bivector.e31), val(m.bivector.e12));
    let n = val(raised(m).norm_spec());
    let nn = 2real + 2real * s;
    let r = m.sqrt_spec();
    root_of_motion_of_space(val, m);
    norm2_of_motor3(val, m);
    let rs = val(r.scalar.0);
    let rp = val(r.pseudo.e0123);
    let (y1, y2, y3) = (val(r.bivector.e01), val(r.bivector.e02), val(r.bivector.e03));
    let (j1, j2, j3) = (val(r.bivector.e23), val(r.bivector.e31), val(r.bivector.e12));
    assert(nn != 0real) by (nonlinear_arith)
        requires
            n * n == nn,
            n > 0real,
    ;
    // the scalar of the root is positive
    assert(s + 1real > 0real) by (nonlinear_arith)
        requires
            n * n == 2real + 2real * s,
            n > 0real,
    ;
    assert(rs > 0real) by (nonlinear_arith)
        requires
            rs * n > 0real,
            n > 0real,
    ;
    // its twist, as often as the fourth power of the number that the root divides by
    let twist = rs * rp - (y1 * j1 + y2 * j2 + y3 * j3);
    let (b1, b2, b3) = (y1 * n, y2 * n, y3 * n);
    let rn = rp * n;
    assert((rs * rp) * (n * n) == (rs * n) * (rp * n)) by (nonlinear_arith);
    assert((y1 * j1) * (n * n) == (y1 * n) * (j1 * n)) by (nonlinear_arith);
    assert((y2 * j2) * (n * n) == (y2 * n) * (j2 * n)) by (nonlinear_arith);
    assert((y3 * j3) * (n * n) == (y3 * n) * (j3 * n)) by (nonlinear_arith);
    distribute(rs * rp, y1 * j1 + y2 * j2 + y3 * j3, nn);
    distribute3(y1 * j1, y2 * j2, y3 * j3, nn);
    let blown = b1 * k1 + b2 * k2 + b3 * k3;
    assert(twist * nn == (s + 1real) * rn - blown);
    distribute((s + 1real) * rn, blown, nn);
    distribute3(b1 * k1, b2 * k2, b3 * k3, nn);
    regroup(b1, k1, nn);
    regroup(b2, k2, nn);
    regroup(b3, k3, nn);
    distribute(x1 * nn, q * k1, k1);
    distribute(x2 * nn, q * k2, k2);
    distribute(x3 * nn, q * k3, k3);
    regroup(x1, nn, k1);
    regroup(x2, nn, k2);
    regroup(x3, nn, k3);
    regroup(q, k1, k1);
    regroup(q, k2, k2);
    regroup(q, k3, k3);
    let xk = x1 * k1 + x2 * k2 + x3 * k3;
    let kk = k1 * k1 + k2 * k2 + k3 * k3;
    distribute3(x1 * k1, x2 * k2, x3 * k3, nn);
    distribute3(k1 * k1, k2 * k2, k3 * k3, q);
    assert(blown * nn == xk * nn + q * kk);
    assert(xk == s * q && kk == 1real - s * s);
    assert(((s + 1real) * rn) * nn == ((s + 1real) * (s + 1real)) * (rn * 2real))
        by (nonlinear_arith)
        requires
            nn == 2real + 2real * s,
    ;
    assert((s + 1real) * (s + 1real) == s * s + 2real * s + 1real) by (nonlinear_arith);
    assert((s * s + 2real * s + 1real) * q == q * (s * s) + 2real * (q * s) + q)
        by (nonlinear_arith);
    assert((s * q) * nn == 2real * (q * s) + 2real * (q * (s * s))) by (nonlinear_arith)
        requires
            nn == 2real + 2real * s,
    ;
    assert(q * (1real - s * s) == q - q * (s * s)) by (nonlinear_arith);
    assert((twist * nn) * nn == 0real);
    zero(nn);
    cancel(twist * nn, 0real, nn);
    cancel(twist, 0real, nn);
}

/// The root of a motion of space, composed with itself, is the motion.
///
/// This holds in every exact field, of every rotation about a line, of
/// every translation and of every screw: of every motor of the norm
/// one whose product with its reverse has no pseudoscalar part, but
/// for the half turns whose scalar is minus one.
pub proof fn square_of_root_of_motion_of_space<T: Num>(val: spec_fn(T) -> real, m: Motor3<T>)
    requires
        exact(val),
        is_motion(val, m),
    ensures
        ({
            let square = m.sqrt_spec().compose_spec(m.sqrt_spec());
            &&& val(square.scalar.0) == val(m.scalar.0)
            &&& val(square.bivector.e01) == val(m.bivector.e01)
            &&& val(square.bivector.e02) == val(m.bivector.e02)
            &&& val(square.bivector.e03) == val(m.bivector.e03)
            &&& val(square.bivector.e12) == val(m.bivector.e12)
            &&& val(square.bivector.e31) == val(m.bivector.e31)
            &&& val(square.bivector.e23) == val(m.bivector.e23)
            &&& val(square.pseudo.e0123) == val(m.pseudo.e0123)
        }),
{
    let s = val(m.scalar.0);
    let q = val(m.pseudo.e0123);
    let (x1, x2, x3) = (val(m.bivector.e01), val(m.bivector.e02), val(m.bivector.e03));
    let (k1, k2, k3) = (val(m.bivector.e23), val(m.bivector.e31), val(m.bivector.e12));
    let n = val(raised(m).norm_spec());
    let r = m.sqrt_spec();
    root_of_motion_of_space(val, m);
    norm2_of_motor3(val, m);
    let rs = val(r.scalar.0);
    let rp = val(r.pseudo.e0123);
    let (y1, y2, y3) = (val(r.bivector.e01), val(r.bivector.e02), val(r.bivector.e03));
    let (j1, j2, j3) = (val(r.bivector.e23), val(r.bivector.e31), val(r.bivector.e12));
    let s0 = r.scalar.mul_spec(r.scalar);
    let bv0 = r.scalar.mul_spec(r.bivector);
    let p0 = r.scalar.mul_spec(r.pseudo);
    let bv1 = r.bivector.mul_spec(r.scalar);
    let (s1, bv2, p1) = r.bivector.mul_spec(r.bivector);
    let bv3 = r.bivector.mul_spec(r.pseudo);
    let p2 = r.pseudo.mul_spec(r.scalar);
    let bv4 = r.pseudo.mul_spec(r.bivector);
    let product = Motor3 {
        scalar: s0.add_spec(s1),
        bivector: bv0.add_spec(bv1).add_spec(bv2).add_spec(bv3).add_spec(bv4),
        pseudo: p0.add_spec(p1).add_spec(p2),
    };
    assert(r.compose_spec(r) == product.normalized_spec());
    // the parts of the product
    assert(val(s0.0) == rs * rs);
    assert(val(s1.0) == -(j3 * j3 + j2 * j2 + j1 * j1));
    assert(val(bv0.e01) == rs * y1 && val(bv0.e02) == rs * y2 && val(bv0.e03) == rs * y3);
    assert(val(bv0.e12) == rs * j3 && val(bv0.e31) == rs * j2 && val(bv0.e23) == rs * j1);
    assert(val(bv1.e01) == y1 * rs && val(bv1.e02) == y2 * rs && val(bv1.e03) == y3 * rs);
    assert(val(bv1.e12) == j3 * rs && val(bv1.e31) == j2 * rs && val(bv1.e23) == j1 * rs);
    assert(val(bv2.e01) == y3 * j2 - y2 * j3 + j3 * y2 - j2 * y3);
    assert(val(bv2.e02) == y1 * j3 - y3 * j1 + j1 * y3 - j3 * y1);
    assert(val(bv2.e03) == y2 * j1 - y1 * j2 + j2 * y1 - j1 * y2);
    assert(val(bv2.e12) == j2 * j1 - j1 * j2);
    assert(val(bv2.e31) == j1 * j3 - j3 * j1);
    assert(val(bv2.e23) == j3 * j2 - j2 * j3);
    assert(val(bv3.e01) == -(j1 * rp) && val(bv3.e02) == -(j2 * rp) && val(bv3.e03) == -(j3 * rp));
    assert(val(bv4.e01) == -(rp * j1) && val(bv4.e02) == -(rp * j2) && val(bv4.e03) == -(rp * j3));
    assert(val(p0.e0123) == rs * rp);
    assert(val(p1.e0123) == j3 * y3 + j2 * y2 + j1 * y1 + y1 * j1 + y2 * j2 + y3 * j3);
    assert(val(p2.e0123) == rp * rs);
    regroup(y3, j2, 1real);
    regroup(y2, j3, 1real);
    regroup(y1, j3, 1real);
    regroup(y3, j1, 1real);
    regroup(y2, j1, 1real);
    regroup(y1, j2, 1real);
    regroup(j2, j1, 1real);
    regroup(j1, j3, 1real);
    regroup(j3, j2, 1real);
    // the pseudoscalar and the moment
    twisted_pseudoscalar(s, q, x1, x2, x3, k1, k2, k3, n, rs, rp, y1, y2, y3, j1, j2, j3);
    assert(val(product.pseudo.e0123) == q);
    twisted_half(s, q, x1, k1, n, rs, y1, rp, j1);
    twisted_half(s, q, x2, k2, n, rs, y2, rp, j2);
    twisted_half(s, q, x3, k3, n, rs, y3, rp, j3);
    assert(val(product.bivector.e01) == x1);
    assert(val(product.bivector.e02) == x2);
    assert(val(product.bivector.e03) == x3);
    // the direction and the scalar
    twice_half(s, k1, n, rs, j1);
    twice_half(s, k2, n, rs, j2);
    twice_half(s, k3, n, rs, j3);
    assert(val(product.bivector.e12) == k3);
    assert(val(product.bivector.e31) == k2);
    assert(val(product.bivector.e23) == k1);
    let e = k3 * k3 + k2 * k2 + k1 * k1;
    let re = j3 * j3 + j2 * j2 + j1 * j1;
    square_of_quotient(j3, n, k3);
    square_of_quotient(j2, n, k2);
    square_of_quotient(j1, n, k1);
    distribute3(j3 * j3, j2 * j2, j1 * j1, n * n);
    half_scalar(s, e, n, rs, re);
    assert(val(product.scalar.0) == s);
    // the product has the norm one, so that normalizing changes nothing
    norm2_of_motor3(val, product);
    assert(val(product.norm2_spec()) == 1real * 1real);
    let d = val(product.norm_spec());
    root_of_square(d, 1real);
    let square = product.normalized_spec();
    assert(val(square.scalar.0) * 1real == s);
    assert(val(square.bivector.e01) * 1real == x1);
    assert(val(square.bivector.e02) * 1real == x2);
    assert(val(square.bivector.e03) * 1real == x3);
    assert(val(square.bivector.e12) * 1real == k3);
    assert(val(square.bivector.e31) * 1real == k2);
    assert(val(square.bivector.e23) * 1real == k1);
    assert(val(square.pseudo.e0123) * 1real == q);
}

} // verus!
