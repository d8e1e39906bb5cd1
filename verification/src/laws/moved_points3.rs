//! What the root of a motor of space moves a point to, and the points
//! that it keeps.

use core::ops::{Add, BitOr, BitXor, Div, Mul, Neg, Not, Sub};
use vstd::prelude::*;
use vstd::std_specs::cmp::PartialEqSpec;
use vstd::std_specs::ops::{
    AddSpec,
    BitOrSpec,
    BitXorSpec,
    DivSpec,
    MulSpec,
    NegSpec,
    NotSpec,
    SubSpec,
};

use crate::laws::exact::exact;
use crate::laws::motors3::norm2_of_motor3;
use crate::laws::reals::{cancel, distribute, distribute3, regroup, sign, zero};
use crate::laws::rotations3::{is_rotation, raised, root_of_unit_motor_of_space};
use crate::laws::vectors::triple_product;
use crate::pga::elements::TriVector3;
use crate::pga::motor::Motor3;
use crate::pga::point::Point3;
use crate::scalar::Num;

verus! {

/// A product, times a number, is the first factor times the number,
/// times the second.
proof fn scale(x: real, y: real, n: real)
    ensures
        (x * y) * n == (x * n) * y,
        (-(x * y)) * n == -((x * n) * y),
{
    assert((x * y) * n == (x * n) * y) by (nonlinear_arith);
    assert((-(x * y)) * n == -((x * n) * y)) by (nonlinear_arith);
}

/// A product, times the square of a number, is the product of the
/// factors, each times the number.
proof fn scale2(x: real, y: real, n: real)
    ensures
        (x * y) * (n * n) == (x * n) * (y * n),
        (x * (-y)) * (n * n) == -((x * n) * (y * n)),
{
    assert((x * y) * (n * n) == (x * n) * (y * n)) by (nonlinear_arith);
    assert((x * (-y)) * (n * n) == -((x * n) * (y * n))) by (nonlinear_arith);
}

/// A coordinate of the trivector of a motor times a point, times the
/// number that the motor was divided by.
proof fn scaled_trivector(
    rs: real,
    j2: real,
    j3: real,
    y1: real,
    p1: real,
    p2: real,
    p3: real,
    w: real,
    n: real,
)
    ensures
        (rs * p1 + (j3 * p2 - j2 * p3 - y1 * w)) * n == (rs * n) * p1 + ((j3 * n) * p2 - (j2 * n)
            * p3 - (y1 * n) * w),
{
    distribute(rs * p1, j3 * p2 - j2 * p3 - y1 * w, n);
    distribute(j3 * p2 - j2 * p3, y1 * w, n);
    distribute(j3 * p2, j2 * p3, n);
    scale(rs, p1, n);
    scale(j3, p2, n);
    scale(j2, p3, n);
    scale(y1, w, n);
}

/// A coordinate of a motor times a point times the reverse of the
/// motor, times the square of the number that the motor was divided by.
proof fn scaled_point_back(
    v0: real,
    v2: real,
    v3: real,
    t1: real,
    t2: real,
    t3: real,
    tw: real,
    rs: real,
    j1: real,
    j2: real,
    j3: real,
    y1: real,
    y2: real,
    y3: real,
    n: real,
)
    ensures
        ((v2 * (-y3) - v3 * (-y2) - v0 * (-j1)) + t1 * rs + (t3 * (-j2) - t2 * (-j3) + tw * (-y1)))
            * (n * n) == (-((v2 * n) * (y3 * n)) + (v3 * n) * (y2 * n) + (v0 * n) * (j1 * n)) + (t1
            * n) * (rs * n) + (-((t3 * n) * (j2 * n)) + (t2 * n) * (j3 * n) - (tw * n) * (y1 * n)),
{
    let a = v2 * (-y3) - v3 * (-y2) - v0 * (-j1);
    let b = t1 * rs;
    let c = t3 * (-j2) - t2 * (-j3) + tw * (-y1);
    distribute(a + b, c, n * n);
    distribute(a, b, n * n);
    distribute(v2 * (-y3) - v3 * (-y2), v0 * (-j1), n * n);
    distribute(v2 * (-y3), v3 * (-y2), n * n);
    distribute(t3 * (-j2) - t2 * (-j3), tw * (-y1), n * n);
    distribute(t3 * (-j2), t2 * (-j3), n * n);
    scale2(v2, y3, n);
    scale2(v3, y2, n);
    scale2(v0, j1, n);
    scale2(t1, rs, n);
    scale2(t3, j2, n);
    scale2(t2, j3, n);
    scale2(tw, y1, n);
}

/// The weight of a motor times a point times the reverse of the motor,
/// times the square of the number that the motor was divided by.
proof fn scaled_weight_back(
    v1: real,
    v2: real,
    v3: real,
    tw: real,
    rs: real,
    j1: real,
    j2: real,
    j3: real,
    n: real,
)
    ensures
        ((v1 * (-j1) + v2 * (-j2) + v3 * (-j3)) + tw * rs) * (n * n) == (-((v1 * n) * (j1 * n)) - (v2
            * n) * (j2 * n) - (v3 * n) * (j3 * n)) + (tw * n) * (rs * n),
{
    distribute(v1 * (-j1) + v2 * (-j2) + v3 * (-j3), tw * rs, n * n);
    distribute3(v1 * (-j1), v2 * (-j2), v3 * (-j3), n * n);
    scale2(v1, j1, n);
    scale2(v2, j2, n);
    scale2(v3, j3, n);
    scale2(tw, rs, n);
}

/// The product of a motor, a point and the reverse of the motor, of
/// which the trivector part is kept: what the motor moves the point to,
/// before it is normalized.
pub open spec fn sandwich_of_point<T: Num>(r: Motor3<T>, point: Point3<T>) -> TriVector3<T> {
    let tv0 = r.scalar.mul_spec(point.0);
    let (v1, tv1) = r.bivector.mul_spec(point.0);
    let v2 = r.pseudo.mul_spec(point.0);
    let v = v1.add_spec(v2);
    let tv = tv0.add_spec(tv1);
    let (_v, pa) = v.mul_spec(r.bivector.not_spec());
    let pb = tv.mul_spec(r.scalar.not_spec());
    let (_w, pc) = tv.mul_spec(r.bivector.not_spec());
    let pd = v.mul_spec(r.pseudo.not_spec());
    pa.add_spec(pb).add_spec(pc).add_spec(pd)
}

/// The root of a rotation of space, times a point, times the reverse
/// of the root, in the coefficients of the rotation and of the point.
///
/// Each part is given as often as twice the sum of the
/// scalar and one, the square of the number that the root divides by.
pub proof fn root_moves_point<T: Num>(val: spec_fn(T) -> real, u: Motor3<T>, point: Point3<T>)
    requires
        exact(val),
        is_rotation(val, u),
    ensures
        ({
            let (p1, p2, p3, w) = (
                val(point.0.e032),
                val(point.0.e013),
                val(point.0.e021),
                val(point.0.e123),
            );
            let sum = sandwich_of_point(u.sqrt_spec(), point);
            let (s1, s2, s3, s0) = (val(sum.e032), val(sum.e013), val(sum.e021), val(sum.e123));
            let c = val(u.scalar.0);
            let (e1, e2, e3) = (val(u.bivector.e23), val(u.bivector.e31), val(u.bivector.e12));
            let (x1, x2, x3) = (val(u.bivector.e01), val(u.bivector.e02), val(u.bivector.e03));
            let k = c + 1real;
            let nn = 2real + 2real * c;
            let vn = e3 * p3 + e2 * p2 + e1 * p1;
            let t1 = k * p1 + (e3 * p2 - e2 * p3 - x1 * w);
            let t2 = k * p2 + (e1 * p3 - e3 * p1 - x2 * w);
            let t3 = k * p3 + (e2 * p1 - e1 * p2 - x3 * w);
            let un = k * w;
            &&& nn != 0real
            &&& s0 * nn == w * (e1 * e1 + e2 * e2 + e3 * e3) + un * k
            &&& s1 * nn == w * (e2 * x3 - e3 * x2) + vn * e1 + t1 * k + (t2 * e3 - t3 * e2) - un * x1
            &&& s2 * nn == w * (e3 * x1 - e1 * x3) + vn * e2 + t2 * k + (t3 * e1 - t1 * e3) - un * x2
            &&& s3 * nn == w * (e1 * x2 - e2 * x1) + vn * e3 + t3 * k + (t1 * e2 - t2 * e1) - un * x3
        }),
{
    let (p1, p2, p3, w) = (
        val(point.0.e032),
        val(point.0.e013),
        val(point.0.e021),
        val(point.0.e123),
    );
    let c = val(u.scalar.0);
    let (e1, e2, e3) = (val(u.bivector.e23), val(u.bivector.e31), val(u.bivector.e12));
    let (x1, x2, x3) = (val(u.bivector.e01), val(u.bivector.e02), val(u.bivector.e03));
    root_of_unit_motor_of_space(val, u);
    let n = val(raised(u).norm_spec());
    let r = u.sqrt_spec();
    let rs = val(r.scalar.0);
    let (y1, y2, y3) = (val(r.bivector.e01), val(r.bivector.e02), val(r.bivector.e03));
    let (j1, j2, j3) = (val(r.bivector.e23), val(r.bivector.e31), val(r.bivector.e12));
    zero(n);
    cancel(val(r.pseudo.e0123), 0real, n);
    assert(n * n != 0real) by (nonlinear_arith)
        requires
            n > 0real,
    ;
    // the motor times the point
    let tv0 = r.scalar.mul_spec(point.0);
    let (v1, tv1) = r.bivector.mul_spec(point.0);
    let v2 = r.pseudo.mul_spec(point.0);
    let v = v1.add_spec(v2);
    let tv = tv0.add_spec(tv1);
    zero(w);
    assert(val(v1.e0) == j3 * p3 + j2 * p2 + j1 * p1);
    assert(val(v1.e1) == -(j1 * w) && val(v1.e2) == -(j2 * w) && val(v1.e3) == -(j3 * w));
    assert(val(v2.e0) == -(0real * w));
    assert(val(v2.e1) == 0real && val(v2.e2) == 0real && val(v2.e3) == 0real);
    let (q0, q1, q2, q3) = (val(v.e0), val(v.e1), val(v.e2), val(v.e3));
    assert(q0 == j3 * p3 + j2 * p2 + j1 * p1);
    assert(q1 == -(j1 * w) && q2 == -(j2 * w) && q3 == -(j3 * w));
    let (t1, t2, t3, tw) = (val(tv.e032), val(tv.e013), val(tv.e021), val(tv.e123));
    assert(t1 == rs * p1 + (j3 * p2 - j2 * p3 - y1 * w));
    assert(t2 == rs * p2 + (j1 * p3 - j3 * p1 - y2 * w));
    assert(t3 == rs * p3 + (j2 * p1 - j1 * p2 - y3 * w));
    assert(tw == rs * w + 0real);
    // each part, times the number that the motor was divided by
    let k = c + 1real;
    let vn = e3 * p3 + e2 * p2 + e1 * p1;
    assert(q0 * n == vn && q1 * n == -(e1 * w) && q2 * n == -(e2 * w) && q3 * n == -(e3 * w) && tw
        * n == k * w) by {
        distribute3(j3 * p3, j2 * p2, j1 * p1, n);
        scale(j3, p3, n);
        scale(j2, p2, n);
        scale(j1, p1, n);
        scale(j1, w, n);
        scale(j2, w, n);
        scale(j3, w, n);
        scale(rs, w, n);
    }
    scaled_trivector(rs, j2, j3, y1, p1, p2, p3, w, n);
    scaled_trivector(rs, j3, j1, y2, p2, p3, p1, w, n);
    scaled_trivector(rs, j1, j2, y3, p3, p1, p2, w, n);
    // that, times the reverse of the motor
    let (_v, pa) = v.mul_spec(r.bivector.not_spec());
    let pb = tv.mul_spec(r.scalar.not_spec());
    let (_w, pc) = tv.mul_spec(r.bivector.not_spec());
    let pd = v.mul_spec(r.pseudo.not_spec());
    let sum = pa.add_spec(pb).add_spec(pc).add_spec(pd);
    assert(sum == sandwich_of_point(r, point));
    zero(q1);
    zero(q2);
    zero(q3);
    assert(val(pa.e032) == q2 * (-y3) - q3 * (-y2) - q0 * (-j1));
    assert(val(pa.e013) == q3 * (-y1) - q1 * (-y3) - q0 * (-j2));
    assert(val(pa.e021) == q1 * (-y2) - q2 * (-y1) - q0 * (-j3));
    assert(val(pa.e123) == q1 * (-j1) + q2 * (-j2) + q3 * (-j3));
    assert(val(pb.e032) == t1 * rs && val(pb.e013) == t2 * rs && val(pb.e021) == t3 * rs && val(
        pb.e123,
    ) == tw * rs);
    assert(val(pc.e032) == t3 * (-j2) - t2 * (-j3) + tw * (-y1));
    assert(val(pc.e013) == t1 * (-j3) - t3 * (-j1) + tw * (-y2));
    assert(val(pc.e021) == t2 * (-j1) - t1 * (-j2) + tw * (-y3));
    assert(val(pc.e123) == 0real);
    assert(val(pd.e032) == q1 * 0real && val(pd.e013) == q2 * 0real && val(pd.e021) == q3 * 0real
        && val(pd.e123) == 0real);
    let (s1, s2, s3, s0) = (val(sum.e032), val(sum.e013), val(sum.e021), val(sum.e123));
    assert(s1 == (q2 * (-y3) - q3 * (-y2) - q0 * (-j1)) + t1 * rs + (t3 * (-j2) - t2 * (-j3) + tw
        * (-y1)));
    assert(s2 == (q3 * (-y1) - q1 * (-y3) - q0 * (-j2)) + t2 * rs + (t1 * (-j3) - t3 * (-j1) + tw
        * (-y2)));
    assert(s3 == (q1 * (-y2) - q2 * (-y1) - q0 * (-j3)) + t3 * rs + (t2 * (-j1) - t1 * (-j2) + tw
        * (-y3)));
    assert(s0 == (q1 * (-j1) + q2 * (-j2) + q3 * (-j3)) + tw * rs);
    // each part, times the square of that number
    let nn = n * n;
    scaled_point_back(q0, q2, q3, t1, t2, t3, tw, rs, j1, j2, j3, y1, y2, y3, n);
    scaled_point_back(q0, q3, q1, t2, t3, t1, tw, rs, j2, j3, j1, y2, y3, y1, n);
    scaled_point_back(q0, q1, q2, t3, t1, t2, tw, rs, j3, j1, j2, y3, y1, y2, n);
    scaled_weight_back(q1, q2, q3, tw, rs, j1, j2, j3, n);
    let (tn1, tn2, tn3) = (t1 * n, t2 * n, t3 * n);
    let un = k * w;
    sign(e1 * w, x2);
    sign(e1 * w, x3);
    sign(e2 * w, x1);
    sign(e2 * w, x3);
    sign(e3 * w, x1);
    sign(e3 * w, x2);
    sign(e1 * w, e1);
    sign(e2 * w, e2);
    sign(e3 * w, e3);
    regroup(e1, w, x2);
    regroup(e1, w, x3);
    regroup(e2, w, x1);
    regroup(e2, w, x3);
    regroup(e3, w, x1);
    regroup(e3, w, x2);
    regroup(e1, w, e1);
    regroup(e2, w, e2);
    regroup(e3, w, e3);
    regroup(e1, x2, w);
    regroup(e1, x3, w);
    regroup(e2, x1, w);
    regroup(e2, x3, w);
    regroup(e3, x1, w);
    regroup(e3, x2, w);
    regroup(e1, e1, w);
    regroup(e2, e2, w);
    regroup(e3, e3, w);
    distribute(e2 * x3, e3 * x2, w);
    distribute(e3 * x1, e1 * x3, w);
    distribute(e1 * x2, e2 * x1, w);
    distribute3(e1 * e1, e2 * e2, e3 * e3, w);
    assert(s0 * nn == w * (e1 * e1 + e2 * e2 + e3 * e3) + un * k);
    assert(s1 * nn == w * (e2 * x3 - e3 * x2) + vn * e1 + tn1 * k + (tn2 * e3 - tn3 * e2) - un * x1);
    assert(s2 * nn == w * (e3 * x1 - e1 * x3) + vn * e2 + tn2 * k + (tn3 * e1 - tn1 * e3) - un * x2);
    assert(s3 * nn == w * (e1 * x2 - e2 * x1) + vn * e3 + tn3 * k + (tn1 * e2 - tn2 * e1) - un * x3);
}

/// Whether, in the reading `val`, a point lies on the axis of a motor:
/// whether the cross product of the point and the direction of the
/// motor's bivector is the other part of the bivector, as often as the
/// weight of the point.
pub open spec fn lies_on_the_axis<T: Num>(
    val: spec_fn(T) -> real,
    point: Point3<T>,
    u: Motor3<T>,
) -> bool {
    let (p1, p2, p3, w) = (
        val(point.0.e032),
        val(point.0.e013),
        val(point.0.e021),
        val(point.0.e123),
    );
    let (e1, e2, e3) = (val(u.bivector.e23), val(u.bivector.e31), val(u.bivector.e12));
    let (x1, x2, x3) = (val(u.bivector.e01), val(u.bivector.e02), val(u.bivector.e03));
    &&& p2 * e3 - p3 * e2 == x1 * w
    &&& p3 * e1 - p1 * e3 == x2 * w
    &&& p1 * e2 - p2 * e1 == x3 * w
}

/// A point on the axis of a motor, moved by the root of the motor,
/// before it is divided: the first coordinate of the point, as often as
/// twice the sum of the scalar and one.
///
/// The point has the coordinates `p` and the weight `w`, and lies on
/// the axis: its cross product with the direction `e` of the bivector
/// is the other part `x`, as often as the weight. `c` is the scalar of
/// the motor and `t` the trivector of the root times the point.
proof fn turned_about_the_axis(
    p1: real,
    p2: real,
    p3: real,
    w: real,
    c: real,
    e1: real,
    e2: real,
    e3: real,
    x1: real,
    x2: real,
    x3: real,
    t1: real,
    t2: real,
    t3: real,
)
    requires
        p2 * e3 - p3 * e2 == x1 * w,
        p3 * e1 - p1 * e3 == x2 * w,
        p1 * e2 - p2 * e1 == x3 * w,
        e1 * e1 + e2 * e2 + e3 * e3 + c * c == 1real,
        t1 == (c + 1real) * p1,
        t2 == (c + 1real) * p2,
        t3 == (c + 1real) * p3,
    ensures
        w * (e2 * x3 - e3 * x2) + (e3 * p3 + e2 * p2 + e1 * p1) * e1 + t1 * (c + 1real) + (t2 * e3
            - t3 * e2) - ((c + 1real) * w) * x1 == p1 * (2real + 2real * c),
{
    let k = c + 1real;
    let vn = e3 * p3 + e2 * p2 + e1 * p1;
    let ee = e1 * e1 + e2 * e2 + e3 * e3;
    let (h1, h2, h3) = (p2 * e3 - p3 * e2, p3 * e1 - p1 * e3, p1 * e2 - p2 * e1);
    // the trivector of the root times the point, crossed with the direction
    distribute(p2 * e3, p3 * e2, k);
    assert((k * p2) * e3 == k * (p2 * e3)) by (nonlinear_arith);
    assert((k * p3) * e2 == k * (p3 * e2)) by (nonlinear_arith);
    assert((k * w) * x1 == k * (x1 * w)) by (nonlinear_arith);
    assert((t2 * e3 - t3 * e2) - (k * w) * x1 == 0real);
    // the direction, crossed with the cross product of the point and the direction
    triple_product(e1, e2, e3, p1, p2, p3, e1, e2, e3);
    regroup(e1, p1, 1real);
    regroup(e2, p2, 1real);
    regroup(e3, p3, 1real);
    assert(e1 * p1 + e2 * p2 + e3 * p3 == vn);
    assert(e2 * h3 - e3 * h2 == p1 * ee - e1 * vn);
    distribute(e2 * x3, e3 * x2, w);
    assert(e2 * (x3 * w) == w * (e2 * x3)) by (nonlinear_arith);
    assert(e3 * (x2 * w) == w * (e3 * x2)) by (nonlinear_arith);
    regroup(e1, vn, 1real);
    assert(w * (e2 * x3 - e3 * x2) + vn * e1 == p1 * ee);
    // and the rest
    assert((k * p1) * k == p1 * (k * k)) by (nonlinear_arith);
    assert(k * k == c * c + 2real * c + 1real) by (nonlinear_arith)
        requires
            k == c + 1real,
    ;
    distribute(ee, k * k, p1);
    assert(ee + k * k == 2real + 2real * c);
}

/// The root of a rotation of space keeps the points on the axis of the
/// rotation.
///
/// In an exact field, where the cross product of a point with the
/// direction of the rotation's bivector is the other part of the
/// bivector, as often as the weight of the point, the point that the
/// root moves that point to has the coefficients of the point,
/// normalized.
pub proof fn root_keeps_the_points_of_the_axis<T: Num>(
    val: spec_fn(T) -> real,
    u: Motor3<T>,
    point: Point3<T>,
)
    requires
        exact(val),
        is_rotation(val, u),
        lies_on_the_axis(val, point, u),
    ensures
        ({
            let moved = u.sqrt_spec().move_point_spec(point).0;
            let same = point.0.normalized_spec();
            &&& val(moved.e032) == val(same.e032)
            &&& val(moved.e013) == val(same.e013)
            &&& val(moved.e021) == val(same.e021)
            &&& val(moved.e123) == val(same.e123)
        }),
{
    let (p1, p2, p3, w) = (
        val(point.0.e032),
        val(point.0.e013),
        val(point.0.e021),
        val(point.0.e123),
    );
    let r = u.sqrt_spec();
    let sum = sandwich_of_point(r, point);
    assert(r.move_point_spec(point) == Point3(sum.normalized_spec()));
    root_moves_point(val, u, point);
    let (s1, s2, s3, s0) = (val(sum.e032), val(sum.e013), val(sum.e021), val(sum.e123));
    let c = val(u.scalar.0);
    let (e1, e2, e3) = (val(u.bivector.e23), val(u.bivector.e31), val(u.bivector.e12));
    let (x1, x2, x3) = (val(u.bivector.e01), val(u.bivector.e02), val(u.bivector.e03));
    let k = c + 1real;
    let nn = 2real + 2real * c;
    let t1 = k * p1 + (e3 * p2 - e2 * p3 - x1 * w);
    let t2 = k * p2 + (e1 * p3 - e3 * p1 - x2 * w);
    let t3 = k * p3 + (e2 * p1 - e1 * p2 - x3 * w);
    regroup(e3, p2, 1real);
    regroup(e2, p3, 1real);
    regroup(e1, p3, 1real);
    regroup(e3, p1, 1real);
    regroup(e2, p1, 1real);
    regroup(e1, p2, 1real);
    assert(t1 == k * p1 && t2 == k * p2 && t3 == k * p3);
    norm2_of_motor3(val, u);
    assert(e1 * e1 + e2 * e2 + e3 * e3 + c * c == 1real);
    assert(e2 * e2 + e3 * e3 + e1 * e1 + c * c == 1real);
    assert(e3 * e3 + e1 * e1 + e2 * e2 + c * c == 1real);
    // the point comes back, as often as the square of the number that the root divides by
    turned_about_the_axis(p1, p2, p3, w, c, e1, e2, e3, x1, x2, x3, t1, t2, t3);
    turned_about_the_axis(p2, p3, p1, w, c, e2, e3, e1, x2, x3, x1, t2, t3, t1);
    turned_about_the_axis(p3, p1, p2, w, c, e3, e1, e2, x3, x1, x2, t3, t1, t2);
    assert(e3 * p3 + e2 * p2 + e1 * p1 == e1 * p1 + e3 * p3 + e2 * p2);
    assert(e3 * p3 + e2 * p2 + e1 * p1 == e2 * p2 + e1 * p1 + e3 * p3);
    assert(s1 * nn == p1 * nn);
    assert(s2 * nn == p2 * nn);
    assert(s3 * nn == p3 * nn);
    assert(s0 * nn == w * nn) by {
        assert((k * w) * k == w * (k * k)) by (nonlinear_arith);
        assert(k * k == c * c + 2real * c + 1real) by (nonlinear_arith)
            requires
                k == c + 1real,
        ;
        distribute(e1 * e1 + e2 * e2 + e3 * e3, k * k, w);
    }
    cancel(s1, p1, nn);
    cancel(s2, p2, nn);
    cancel(s3, p3, nn);
    cancel(s0, w, nn);
    // two trivectors with the same coefficients have the same normal form
    let moved = sum.normalized_spec();
    let same = point.0.normalized_spec();
    let size = val(sum.norm_spec());
    assert(size == val(point.0.norm_spec()));
    if size != 0real {
        cancel(val(moved.e032), val(same.e032), size);
        cancel(val(moved.e013), val(same.e013), size);
        cancel(val(moved.e021), val(same.e021), size);
        cancel(val(moved.e123), val(same.e123), size);
    } else {
        assert(moved == sum && same == point.0);
    }
}

} // verus!
