//! The motor between two planes moves the points of the first plane to
//! points of the second, and keeps the points of both.

use core::ops::{Add, BitOr, BitXor, Div, Mul, Neg, Not, Sub};
use vstd::prelude::*;
use vstd::std_specs::cmp::PartialEqSpec;
use vstd::std_specs::ops::{
    AddSpec,
    BitOrSpec,
    BitXorSpec,
    DivSpec,
    MulSpec,
    NegSpec,
    NotSpec,
    SubSpec,
};

use crate::laws::exact::exact;
use crate::laws::incidence::determinant_with_equal_rows;
use crate::laws::incidence3::lies_on_plane;
use crate::laws::moved_points3::{
    root_keeps_the_points_of_the_axis,
    root_moves_point,
    sandwich_of_point,
};
use crate::laws::plane_motors3::{cosine_of_planes, product_of_normalized_planes};
use crate::laws::quaternions::lagrange;
use crate::laws::reals::{cancel, distribute, distribute3, regroup, sign, zero};
use crate::laws::turns::product_of_planes;
use crate::laws::vectors::{inner_product_of_a_sum, swap_in_mixed_product, triple_product};
use crate::pga::motor::Motor3;
use crate::pga::plane::Plane3;
use crate::pga::point::Point3;
use crate::scalar::Num;

verus! {

/// The product of a motor between two planes and a point of the first
/// plane, in its first coordinate: as often the point as the sum of the
/// cosine and one, less the normal of the first plane, as often as the
/// point is away from the second.
///
/// The planes have the normals `a` and `b` and the offsets `a0` and
/// `b0`; the point has the coordinates `p` and the weight `w`; `c`,
/// `e` and `x` are the scalar and the two parts of the bivector of the
/// product of the planes.
proof fn motor_times_point(
    a0: real,
    a1: real,
    a2: real,
    a3: real,
    b0: real,
    b1: real,
    b2: real,
    b3: real,
    p1: real,
    p2: real,
    p3: real,
    w: real,
    c: real,
    e2: real,
    e3: real,
    x1: real,
    beta: real,
)
    requires
        a0 * w + a1 * p1 + a2 * p2 + a3 * p3 == 0real,
        beta == b0 * w + b1 * p1 + b2 * p2 + b3 * p3,
        e2 == b3 * a1 - b1 * a3,
        e3 == b1 * a2 - b2 * a1,
        x1 == b0 * a1 - b1 * a0,
    ensures
        (c + 1real) * p1 + (e3 * p2 - e2 * p3 - x1 * w) == (c + 1real) * p1 - beta * a1,
{
    let pa = p1 * a1 + p2 * a2 + p3 * a3;
    let pb = p1 * b1 + p2 * b2 + p3 * b3;
    triple_product(p1, p2, p3, b1, b2, b3, a1, a2, a3);
    assert(e3 * p2 == p2 * e3 && e2 * p3 == p3 * e2);
    assert(e3 * p2 - e2 * p3 == b1 * pa - a1 * pb);
    distribute(b0 * a1, b1 * a0, w);
    assert(pa == -(a0 * w));
    sign(b1, a0 * w);
    assert(b1 * (a0 * w) == (b1 * a0) * w) by (nonlinear_arith);
    assert(pb == beta - b0 * w);
    distribute(beta, b0 * w, a1);
    assert(a1 * (b0 * w) == (b0 * a1) * w) by (nonlinear_arith);
    assert(a1 * beta == beta * a1);
}

/// A sum of three coordinates, each weighted and made of five terms, is
/// the sum of the five weighted sums.
proof fn weighted_sum(
    b1: real,
    b2: real,
    b3: real,
    g1: real,
    g2: real,
    g3: real,
    e1: real,
    e2: real,
    e3: real,
    t1: real,
    t2: real,
    t3: real,
    r1: real,
    r2: real,
    r3: real,
    x1: real,
    x2: real,
    x3: real,
    w: real,
    v: real,
    k: real,
    u: real,
)
    ensures
        b1 * (w * g1 + v * e1 + t1 * k + r1 - u * x1) + b2 * (w * g2 + v * e2 + t2 * k + r2 - u * x2)
            + b3 * (w * g3 + v * e3 + t3 * k + r3 - u * x3) == w * (b1 * g1 + b2 * g2 + b3 * g3) + v
            * (b1 * e1 + b2 * e2 + b3 * e3) + k * (b1 * t1 + b2 * t2 + b3 * t3) + (b1 * r1 + b2 * r2
            + b3 * r3) - u * (b1 * x1 + b2 * x2 + b3 * x3),
{
    weighted(b1, g1, e1, t1, r1, x1, w, v, k, u);
    weighted(b2, g2, e2, t2, r2, x2, w, v, k, u);
    weighted(b3, g3, e3, t3, r3, x3, w, v, k, u);
    distribute3(b1 * g1, b2 * g2, b3 * g3, w);
    distribute3(b1 * e1, b2 * e2, b3 * e3, v);
    distribute3(b1 * t1, b2 * t2, b3 * t3, k);
    distribute3(b1 * x1, b2 * x2, b3 * x3, u);
}

/// One coordinate of five terms, weighted.
proof fn weighted(
    b: real,
    g: real,
    e: real,
    t: real,
    r: real,
    x: real,
    w: real,
    v: real,
    k: real,
    u: real,
)
    ensures
        b * (w * g + v * e + t * k + r - u * x) == w * (b * g) + v * (b * e) + k * (b * t) + b * r
            - u * (b * x),
{
    distribute(w * g + v * e + t * k + r, u * x, b);
    distribute(w * g + v * e + t * k, r, b);
    distribute(w * g + v * e, t * k, b);
    distribute(w * g, v * e, b);
    assert(b * (w * g) == w * (b * g)) by (nonlinear_arith);
    assert(b * (v * e) == v * (b * e)) by (nonlinear_arith);
    assert(b * (t * k) == k * (b * t)) by (nonlinear_arith);
    assert(b * (u * x) == u * (b * x)) by (nonlinear_arith);
}

/// What is left when the parts of a moved point are weighed against the
/// second plane: nothing.
proof fn settled(b0: real, w: real, c: real, beta: real, a0: real)
    ensures
        b0 * (w * (1real - c * c) + ((c + 1real) * w) * (c + 1real)) + w * (b0 * (c * c) - b0) + (c
            + 1real) * ((c + 1real) * (beta - b0 * w) - beta * c) + (((c + 1real) * (-(a0 * w))
            - beta) - c * ((c + 1real) * (beta - b0 * w) - beta * c)) - ((c + 1real) * w) * (b0 * c
            - a0) == 0real,
{
    let k = c + 1real;
    let bw = b0 * w;
    let aw = a0 * w;
    let cc = c * c;
    // the sums of k in products
    distribute(c, 1real, beta);
    distribute(c, 1real, bw);
    distribute(c, 1real, bw * c);
    distribute(c, 1real, aw);
    assert(c * (bw * c) == bw * (c * c)) by (nonlinear_arith)
        requires
            bw == b0 * w,
    ;
    assert(k * k == cc + 2real * c + 1real) by (nonlinear_arith)
        requires
            k == c + 1real,
            cc == c * c,
    ;
    // the first part
    distribute(w * (1real - cc), (k * w) * k, b0);
    regroup(b0, w, 1real - cc);
    distribute(1real, cc, bw);
    assert(b0 * ((k * w) * k) == (b0 * w) * (k * k)) by (nonlinear_arith);
    distribute(cc + 2real * c, 1real, bw);
    distribute(cc, 2real * c, bw);
    assert(bw * (2real * c) == 2real * (bw * c)) by (nonlinear_arith);
    assert(b0 * (w * (1real - cc) + (k * w) * k) == bw - bw * cc + (bw * cc + 2real * (bw * c)
        + bw));
    // the second
    distribute(b0 * cc, b0, w);
    regroup(w, b0, cc);
    assert(w * b0 == bw);
    assert(w * (b0 * cc - b0) == bw * cc - bw);
    // the third and the fourth
    let m = k * (beta - bw) - beta * c;
    distribute(beta, bw, k);
    assert(c * beta == beta * c && c * bw == bw * c && c * aw == aw * c);
    assert(m == beta - bw - bw * c);
    distribute(beta - bw, bw * c, k);
    assert(k * m == (c * beta + beta) - (bw * c + bw) - (bw * cc + bw * c));
    distribute(beta - bw, bw * c, c);
    distribute(beta, bw, c);
    assert(c * m == c * beta - bw * c - bw * cc);
    sign(k, aw);
    assert(k * (-aw) == -(aw * c + aw));
    // the fifth
    distribute(b0 * c, a0, k * w);
    assert((k * w) * (b0 * c) == k * ((b0 * w) * c)) by (nonlinear_arith);
    assert((k * w) * a0 == k * (a0 * w)) by (nonlinear_arith);
    assert((k * w) * (b0 * c - a0) == (bw * cc + bw * c) - (aw * c + aw));
}

/// The parts of the product of a motor between two planes, a point of
/// the first plane and the reverse of the motor, weighed against the
/// second plane, add up to zero.
///
/// The planes have the normals `a` and `b` and the offsets `a0` and
/// `b0`; the point has the coordinates `p` and the weight `w`; `c`,
/// `e` and `x` are the scalar and the two parts of the bivector of the
/// product of the planes; `t` is the trivector of the motor times the
/// point.
proof fn weighed_against_the_second_plane(
    a0: real,
    a1: real,
    a2: real,
    a3: real,
    b0: real,
    b1: real,
    b2: real,
    b3: real,
    p1: real,
    p2: real,
    p3: real,
    w: real,
    c: real,
    e1: real,
    e2: real,
    e3: real,
    x1: real,
    x2: real,
    x3: real,
    beta: real,
    t1: real,
    t2: real,
    t3: real,
    v: real,
)
    requires
        a1 * a1 + a2 * a2 + a3 * a3 == 1real,
        b1 * b1 + b2 * b2 + b3 * b3 == 1real,
        c == b1 * a1 + b2 * a2 + b3 * a3,
        e1 == b2 * a3 - b3 * a2,
        e2 == b3 * a1 - b1 * a3,
        e3 == b1 * a2 - b2 * a1,
        x1 == b0 * a1 - b1 * a0,
        x2 == b0 * a2 - b2 * a0,
        x3 == b0 * a3 - b3 * a0,
        a0 * w + a1 * p1 + a2 * p2 + a3 * p3 == 0real,
        beta == b0 * w + b1 * p1 + b2 * p2 + b3 * p3,
        t1 == (c + 1real) * p1 - beta * a1,
        t2 == (c + 1real) * p2 - beta * a2,
        t3 == (c + 1real) * p3 - beta * a3,
    ensures
        ({
            let k = c + 1real;
            let u = k * w;
            let s0 = w * (e1 * e1 + e2 * e2 + e3 * e3) + u * k;
            let s1 = w * (e2 * x3 - e3 * x2) + v * e1 + t1 * k + (t2 * e3 - t3 * e2) - u * x1;
            let s2 = w * (e3 * x1 - e1 * x3) + v * e2 + t2 * k + (t3 * e1 - t1 * e3) - u * x2;
            let s3 = w * (e1 * x2 - e2 * x1) + v * e3 + t3 * k + (t1 * e2 - t2 * e1) - u * x3;
            b0 * s0 + b1 * s1 + b2 * s2 + b3 * s3 == 0real
        }),
{
    let k = c + 1real;
    let u = k * w;
    let pa = a1 * p1 + a2 * p2 + a3 * p3;
    let pb = b1 * p1 + b2 * p2 + b3 * p3;
    let (g1, g2, g3) = (e2 * x3 - e3 * x2, e3 * x1 - e1 * x3, e1 * x2 - e2 * x1);
    let (r1, r2, r3) = (t2 * e3 - t3 * e2, t3 * e1 - t1 * e3, t1 * e2 - t2 * e1);
    weighted_sum(
        b1, b2, b3, g1, g2, g3, e1, e2, e3, t1, t2, t3, r1, r2, r3, x1, x2, x3, w, v, k, u,
    );
    // the cross product of the second normal and the direction of the product
    let (h1, h2, h3) = (b2 * e3 - b3 * e2, b3 * e1 - b1 * e3, b1 * e2 - b2 * e1);
    triple_product(b1, b2, b3, b1, b2, b3, a1, a2, a3);
    triple_product(b2, b3, b1, b2, b3, b1, a2, a3, a1);
    triple_product(b3, b1, b2, b3, b1, b2, a3, a1, a2);
    let ba = b1 * a1 + b2 * a2 + b3 * a3;
    let bb = b1 * b1 + b2 * b2 + b3 * b3;
    assert(ba == c && bb == 1real);
    assert(b2 * a2 + b3 * a3 + b1 * a1 == c && b3 * a3 + b1 * a1 + b2 * a2 == c);
    assert(b2 * b2 + b3 * b3 + b1 * b1 == 1real && b3 * b3 + b1 * b1 + b2 * b2 == 1real);
    assert(h1 == b1 * c - a1 * 1real);
    assert(h2 == b2 * c - a2 * 1real);
    assert(h3 == b3 * c - a3 * 1real);
    assert(h1 == c * b1 - 1real * a1 && h2 == c * b2 - 1real * a2 && h3 == c * b3 - 1real * a3);
    // the inner products
    determinant_with_equal_rows(b1, b2, b3, a1, a2, a3);
    let be = b1 * e1 + b2 * e2 + b3 * e3;
    assert(be == 0real);
    zero(v);
    inner_product_of_a_sum(b1, b2, b3, a1, a2, a3, b1, b2, b3, b0, a0);
    inner_product_of_a_sum(a1, a2, a3, a1, a2, a3, b1, b2, b3, b0, a0);
    let xb = b1 * x1 + b2 * x2 + b3 * x3;
    let xa = a1 * x1 + a2 * x2 + a3 * x3;
    regroup(b1, a0, 1real);
    regroup(b2, a0, 1real);
    regroup(b3, a0, 1real);
    let aa = a1 * a1 + a2 * a2 + a3 * a3;
    let ab = a1 * b1 + a2 * b2 + a3 * b3;
    regroup(a1, b1, 1real);
    regroup(a2, b2, 1real);
    regroup(a3, b3, 1real);
    assert(aa == 1real && ab == c);
    assert(xb == b0 * ba - a0 * bb);
    assert(xa == b0 * aa - a0 * ab);
    assert(xb == b0 * c - a0);
    assert(xa == b0 - a0 * c);
    inner_product_of_a_sum(b1, b2, b3, p1, p2, p3, a1, a2, a3, k, beta);
    inner_product_of_a_sum(a1, a2, a3, p1, p2, p3, a1, a2, a3, k, beta);
    let tb = b1 * t1 + b2 * t2 + b3 * t3;
    let ta = a1 * t1 + a2 * t2 + a3 * t3;
    assert(tb == k * pb - beta * c);
    assert(ta == k * pa - beta);
    // the mixed products
    swap_in_mixed_product(b1, b2, b3, t1, t2, t3, e1, e2, e3);
    inner_product_of_a_sum(t1, t2, t3, b1, b2, b3, a1, a2, a3, c, 1real);
    let br = b1 * r1 + b2 * r2 + b3 * r3;
    regroup(t1, b1, 1real);
    regroup(t2, b2, 1real);
    regroup(t3, b3, 1real);
    regroup(t1, a1, 1real);
    regroup(t2, a2, 1real);
    regroup(t3, a3, 1real);
    assert(br == -(c * tb - 1real * ta));
    swap_in_mixed_product(b1, b2, b3, x1, x2, x3, e1, e2, e3);
    inner_product_of_a_sum(x1, x2, x3, b1, b2, b3, a1, a2, a3, c, 1real);
    let bg = b1 * g1 + b2 * g2 + b3 * g3;
    regroup(e2, x3, 1real);
    regroup(e3, x2, 1real);
    regroup(e3, x1, 1real);
    regroup(e1, x3, 1real);
    regroup(e1, x2, 1real);
    regroup(e2, x1, 1real);
    sign(b1, x2 * e3 - x3 * e2);
    sign(b2, x3 * e1 - x1 * e3);
    sign(b3, x1 * e2 - x2 * e1);
    regroup(x1, b1, 1real);
    regroup(x2, b2, 1real);
    regroup(x3, b3, 1real);
    regroup(x1, a1, 1real);
    regroup(x2, a2, 1real);
    regroup(x3, a3, 1real);
    assert(bg == c * xb - 1real * xa);
    distribute(b0 * c, a0, c);
    assert(c * (b0 * c) == b0 * (c * c)) by (nonlinear_arith);
    assert(bg == b0 * (c * c) - b0);
    // the squared length of the direction of the product
    lagrange(b1, b2, b3, a1, a2, a3);
    assert(e1 * e1 + e2 * e2 + e3 * e3 + c * c == 1real * 1real);
    assert(pa == -(a0 * w));
    assert(pb == beta - b0 * w);
    settled(b0, w, c, beta, a0);
}

/// The motor between two planes, times a point of the first plane,
/// times the reverse of the motor, in the coefficients of the planes
/// and of the point.
///
/// Each part is given as often as twice the sum of the cosine and one,
/// the square of the number that the root divides by.
proof fn motor_between_planes_moves_point<T: Num>(
    val: spec_fn(T) -> real,
    a: Plane3<T>,
    b: Plane3<T>,
    point: Point3<T>,
)
    requires
        exact(val),
        val(a.0.norm2_spec()) == 1real,
        val(b.0.norm2_spec()) == 1real,
        cosine_of_planes(val, a, b) != -1real,
        lies_on_plane(val, point, a),
    ensures
        ({
            let (a0, a1, a2, a3) = (val(a.0.e0), val(a.0.e1), val(a.0.e2), val(a.0.e3));
            let (b0, b1, b2, b3) = (val(b.0.e0), val(b.0.e1), val(b.0.e2), val(b.0.e3));
            let (p1, p2, p3, w) = (
                val(point.0.e032),
                val(point.0.e013),
                val(point.0.e021),
                val(point.0.e123),
            );
            let sum = sandwich_of_point(Motor3::plane_plane_spec(a, b), point);
            let (s1, s2, s3, s0) = (val(sum.e032), val(sum.e013), val(sum.e021), val(sum.e123));
            let c = cosine_of_planes(val, a, b);
            let (e1, e2, e3) = (b2 * a3 - b3 * a2, b3 * a1 - b1 * a3, b1 * a2 - b2 * a1);
            let (x1, x2, x3) = (b0 * a1 - b1 * a0, b0 * a2 - b2 * a0, b0 * a3 - b3 * a0);
            let k = c + 1real;
            let nn = 2real + 2real * c;
            let beta = b0 * w + b1 * p1 + b2 * p2 + b3 * p3;
            let vn = e3 * p3 + e2 * p2 + e1 * p1;
            let (t1, t2, t3) = (k * p1 - beta * a1, k * p2 - beta * a2, k * p3 - beta * a3);
            let un = k * w;
            &&& nn != 0real
            &&& s0 * nn == w * (e1 * e1 + e2 * e2 + e3 * e3) + un * k
            &&& s1 * nn == w * (e2 * x3 - e3 * x2) + vn * e1 + t1 * k + (t2 * e3 - t3 * e2) - un * x1
            &&& s2 * nn == w * (e3 * x1 - e1 * x3) + vn * e2 + t2 * k + (t3 * e1 - t1 * e3) - un * x2
            &&& s3 * nn == w * (e1 * x2 - e2 * x1) + vn * e3 + t3 * k + (t1 * e2 - t2 * e1) - un * x3
        }),
{
    let (a0, a1, a2, a3) = (val(a.0.e0), val(a.0.e1), val(a.0.e2), val(a.0.e3));
    let (b0, b1, b2, b3) = (val(b.0.e0), val(b.0.e1), val(b.0.e2), val(b.0.e3));
    let (p1, p2, p3, w) = (
        val(point.0.e032),
        val(point.0.e013),
        val(point.0.e021),
        val(point.0.e123),
    );
    assert(a0 * w + a1 * p1 + a2 * p2 + a3 * p3 == 0real);
    let u = product_of_planes(a, b).normalized_spec();
    product_of_normalized_planes(val, a, b);
    assert(Motor3::plane_plane_spec(a, b) == u.sqrt_spec());
    root_moves_point(val, u, point);
    let c = val(u.scalar.0);
    let (e1, e2, e3) = (val(u.bivector.e23), val(u.bivector.e31), val(u.bivector.e12));
    let (x1, x2, x3) = (val(u.bivector.e01), val(u.bivector.e02), val(u.bivector.e03));
    let beta = b0 * w + b1 * p1 + b2 * p2 + b3 * p3;
    assert(a0 * w + a2 * p2 + a3 * p3 + a1 * p1 == 0real);
    assert(a0 * w + a3 * p3 + a1 * p1 + a2 * p2 == 0real);
    assert(beta == b0 * w + b2 * p2 + b3 * p3 + b1 * p1);
    assert(beta == b0 * w + b3 * p3 + b1 * p1 + b2 * p2);
    motor_times_point(a0, a1, a2, a3, b0, b1, b2, b3, p1, p2, p3, w, c, e2, e3, x1, beta);
    motor_times_point(a0, a2, a3, a1, b0, b2, b3, b1, p2, p3, p1, w, c, e3, e1, x2, beta);
    motor_times_point(a0, a3, a1, a2, b0, b3, b1, b2, p3, p1, p2, w, c, e1, e2, x3, beta);
}

/// The motor between two planes moves the points of the first plane to
/// points of the second.
///
/// This holds in every exact field, of every two normalized planes
/// that are not opposite, and of every point of the first, ideal points
/// included.
pub proof fn plane_plane_moves_points_of_first_to_second<T: Num>(
    val: spec_fn(T) -> real,
    a: Plane3<T>,
    b: Plane3<T>,
    point: Point3<T>,
)
    requires
        exact(val),
        val(a.0.norm2_spec()) == 1real,
        val(b.0.norm2_spec()) == 1real,
        cosine_of_planes(val, a, b) != -1real,
        lies_on_plane(val, point, a),
    ensures
        lies_on_plane(val, Motor3::plane_plane_spec(a, b).move_point_spec(point), b),
{
    let (a0, a1, a2, a3) = (val(a.0.e0), val(a.0.e1), val(a.0.e2), val(a.0.e3));
    let (b0, b1, b2, b3) = (val(b.0.e0), val(b.0.e1), val(b.0.e2), val(b.0.e3));
    let (p1, p2, p3, w) = (
        val(point.0.e032),
        val(point.0.e013),
        val(point.0.e021),
        val(point.0.e123),
    );
    assert(a1 * a1 + a2 * a2 + a3 * a3 == 1real);
    assert(b1 * b1 + b2 * b2 + b3 * b3 == 1real);
    assert(a0 * w + a1 * p1 + a2 * p2 + a3 * p3 == 0real);
    let r = Motor3::plane_plane_spec(a, b);
    let sum = sandwich_of_point(r, point);
    assert(r.move_point_spec(point) == Point3(sum.normalized_spec()));
    motor_between_planes_moves_point(val, a, b, point);
    let (s1, s2, s3, s0) = (val(sum.e032), val(sum.e013), val(sum.e021), val(sum.e123));
    let c = cosine_of_planes(val, a, b);
    let (e1, e2, e3) = (b2 * a3 - b3 * a2, b3 * a1 - b1 * a3, b1 * a2 - b2 * a1);
    let (x1, x2, x3) = (b0 * a1 - b1 * a0, b0 * a2 - b2 * a0, b0 * a3 - b3 * a0);
    let k = c + 1real;
    let nn = 2real + 2real * c;
    let beta = b0 * w + b1 * p1 + b2 * p2 + b3 * p3;
    let vn = e3 * p3 + e2 * p2 + e1 * p1;
    let (t1, t2, t3) = (k * p1 - beta * a1, k * p2 - beta * a2, k * p3 - beta * a3);
    // weighed against the second plane
    let total = b0 * s0 + b1 * s1 + b2 * s2 + b3 * s3;
    assert(total * nn == 0real) by {
        weighed_against_the_second_plane(
            a0, a1, a2, a3, b0, b1, b2, b3, p1, p2, p3, w, c, e1, e2, e3, x1, x2, x3, beta, t1, t2,
            t3, vn,
        );
        distribute(b0 * s0 + b1 * s1 + b2 * s2, b3 * s3, nn);
        distribute3(b0 * s0, b1 * s1, b2 * s2, nn);
        regroup(b0, s0, nn);
        regroup(b1, s1, nn);
        regroup(b2, s2, nn);
        regroup(b3, s3, nn);
    }
    zero(nn);
    cancel(total, 0real, nn);
    // normalizing divides each part by one number
    let moved = sum.normalized_spec();
    let size = val(sum.norm_spec());
    let (m1, m2, m3, m0) = (val(moved.e032), val(moved.e013), val(moved.e021), val(moved.e123));
    let weighed = b0 * m0 + b1 * m1 + b2 * m2 + b3 * m3;
    assert(val(b.0.bitxor_spec(moved).e0123) == weighed);
    if size != 0real {
        assert(m1 * size == s1 && m2 * size == s2 && m3 * size == s3 && m0 * size == s0);
        distribute(b0 * m0 + b1 * m1 + b2 * m2, b3 * m3, size);
        distribute3(b0 * m0, b1 * m1, b2 * m2, size);
        regroup(b0, m0, size);
        regroup(b1, m1, size);
        regroup(b2, m2, size);
        regroup(b3, m3, size);
        assert(weighed * size == total);
        zero(size);
        cancel(weighed, 0real, size);
    } else {
        assert(moved == sum);
    }
}

/// The cross product of a point of two planes and the direction of
/// the line that they share is the moment of that line, as often as
/// the weight of the point; in its first coordinate.
///
/// The planes have the normals `a` and `b` and the offsets `a0` and
/// `b0`; the point has the coordinates `p` and the weight `w`; `e` and
/// `x` are the two parts of the bivector of the product of the planes.
proof fn on_the_shared_line(
    a0: real,
    a1: real,
    a2: real,
    a3: real,
    b0: real,
    b1: real,
    b2: real,
    b3: real,
    p1: real,
    p2: real,
    p3: real,
    w: real,
    e2: real,
    e3: real,
    x1: real,
)
    requires
        e2 == b3 * a1 - b1 * a3,
        e3 == b1 * a2 - b2 * a1,
        x1 == b0 * a1 - b1 * a0,
        a0 * w + a1 * p1 + a2 * p2 + a3 * p3 == 0real,
        b0 * w + b1 * p1 + b2 * p2 + b3 * p3 == 0real,
    ensures
        p2 * e3 - p3 * e2 == x1 * w,
{
    let pa = p1 * a1 + p2 * a2 + p3 * a3;
    let pb = p1 * b1 + p2 * b2 + p3 * b3;
    regroup(a1, p1, 1real);
    regroup(a2, p2, 1real);
    regroup(a3, p3, 1real);
    regroup(b1, p1, 1real);
    regroup(b2, p2, 1real);
    regroup(b3, p3, 1real);
    assert(pa == -(a0 * w) && pb == -(b0 * w));
    triple_product(p1, p2, p3, b1, b2, b3, a1, a2, a3);
    assert(p2 * e3 - p3 * e2 == b1 * pa - a1 * pb);
    sign(b1, a0 * w);
    sign(a1, b0 * w);
    distribute(b0 * a1, b1 * a0, w);
    assert(b1 * (a0 * w) == (b1 * a0) * w) by (nonlinear_arith);
    assert(a1 * (b0 * w) == (b0 * a1) * w) by (nonlinear_arith);
}

/// The motor between two planes keeps the points that lie on both: it
/// turns about the line that the planes share.
///
/// In an exact field, where the two planes are normalized and not
/// opposite, the point that the motor moves a point of both planes to
/// has the coefficients of the point, normalized.
pub proof fn plane_plane_keeps_the_points_of_both_planes<T: Num>(
    val: spec_fn(T) -> real,
    a: Plane3<T>,
    b: Plane3<T>,
    point: Point3<T>,
)
    requires
        exact(val),
        val(a.0.norm2_spec()) == 1real,
        val(b.0.norm2_spec()) == 1real,
        cosine_of_planes(val, a, b) != -1real,
        lies_on_plane(val, point, a),
        lies_on_plane(val, point, b),
    ensures
        ({
            let moved = Motor3::plane_plane_spec(a, b).move_point_spec(point).0;
            let same = point.0.normalized_spec();
            &&& val(moved.e032) == val(same.e032)
            &&& val(moved.e013) == val(same.e013)
            &&& val(moved.e021) == val(same.e021)
            &&& val(moved.e123) == val(same.e123)
        }),
{
    let (a0, a1, a2, a3) = (val(a.0.e0), val(a.0.e1), val(a.0.e2), val(a.0.e3));
    let (b0, b1, b2, b3) = (val(b.0.e0), val(b.0.e1), val(b.0.e2), val(b.0.e3));
    let (p1, p2, p3, w) = (
        val(point.0.e032),
        val(point.0.e013),
        val(point.0.e021),
        val(point.0.e123),
    );
    assert(a0 * w + a1 * p1 + a2 * p2 + a3 * p3 == 0real);
    assert(b0 * w + b1 * p1 + b2 * p2 + b3 * p3 == 0real);
    let u = product_of_planes(a, b).normalized_spec();
    product_of_normalized_planes(val, a, b);
    assert(Motor3::plane_plane_spec(a, b) == u.sqrt_spec());
    let (e1, e2, e3) = (val(u.bivector.e23), val(u.bivector.e31), val(u.bivector.e12));
    let (x1, x2, x3) = (val(u.bivector.e01), val(u.bivector.e02), val(u.bivector.e03));
    assert(a0 * w + a2 * p2 + a3 * p3 + a1 * p1 == 0real);
    assert(a0 * w + a3 * p3 + a1 * p1 + a2 * p2 == 0real);
    assert(b0 * w + b2 * p2 + b3 * p3 + b1 * p1 == 0real);
    assert(b0 * w + b3 * p3 + b1 * p1 + b2 * p2 == 0real);
    on_the_shared_line(a0, a1, a2, a3, b0, b1, b2, b3, p1, p2, p3, w, e2, e3, x1);
    on_the_shared_line(a0, a2, a3, a1, b0, b2, b3, b1, p2, p3, p1, w, e3, e1, x2);
    on_the_shared_line(a0, a3, a1, a2, b0, b3, b1, b2, p3, p1, p2, w, e1, e2, x3);
    root_keeps_the_points_of_the_axis(val, u, point);
}

} // verus!
