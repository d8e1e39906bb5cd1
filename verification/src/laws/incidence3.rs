//! In space, the join of two points and the join of three points go
//! through the points, and the projection of a point onto a line is the
//! foot of the perpendicular.
//!
//! A point lies on a line where the plane through the two, their
//! regressive product, is zero. A point lies on a plane where the outer
//! product of the two is zero.

use core::ops::{Add, BitOr, BitXor, Mul, Not, Sub};
use vstd::prelude::*;
use vstd::std_specs::ops::{AddSpec, BitOrSpec, BitXorSpec, MulSpec, NotSpec, SubSpec};

use crate::laws::exact::exact;
use crate::laws::incidence::determinant_with_equal_rows;
use crate::laws::reals::{distribute, distribute3, sign, zero};
use crate::pga::elements::{regressive_spec, BiVector3, Dual, TriVector3, Vector3};
use crate::pga::line::Line3;
use crate::pga::plane::Plane3;
use crate::pga::point::Point3;
use crate::scalar::Num;

verus! {

/// The plane through a point and a line: their regressive product.
pub open spec fn plane_through<T: Num>(point: Point3<T>, line: Line3<T>) -> Plane3<T> {
    Plane3(regressive_spec::<TriVector3<T>, BiVector3<T>, Vector3<T>>(point.0, line.0))
}

/// Whether, in the reading `val`, the point lies on the line of space:
/// whether the plane through the two is zero.
pub open spec fn lies_on_line<T: Num>(val: spec_fn(T) -> real, point: Point3<T>, line: Line3<T>) -> bool {
    let plane = plane_through(point, line).0;
    &&& val(plane.e0) == 0real
    &&& val(plane.e1) == 0real
    &&& val(plane.e2) == 0real
    &&& val(plane.e3) == 0real
}

/// In an exact field, the line through the points `p` and `q` of space
/// has the direction `w(p) q - w(q) p` and the moment `p x q`, where
/// `w` is the weight of a point.
pub proof fn join_of_space<T: Num>(val: spec_fn(T) -> real, p: Point3<T>, q: Point3<T>)
    requires
        exact(val),
    ensures
        ({
            let (px, py, pz, pw) = (val(p.0.e032), val(p.0.e013), val(p.0.e021), val(p.0.e123));
            let (qx, qy, qz, qw) = (val(q.0.e032), val(q.0.e013), val(q.0.e021), val(q.0.e123));
            let l = p.join_spec(q).0;
            &&& val(l.e23) == pw * qx - px * qw
            &&& val(l.e31) == pw * qy - py * qw
            &&& val(l.e12) == pw * qz - pz * qw
            &&& val(l.e01) == py * qz - pz * qy
            &&& val(l.e02) == pz * qx - px * qz
            &&& val(l.e03) == px * qy - py * qx
        }),
{
    let l = p.join_spec(q).0;
    assert(l == p.0.dual_spec().bitxor_spec(q.0.dual_spec()).dual_spec());
}

/// The line through two points of space is a line: its direction is
/// perpendicular to its moment.
pub proof fn join_of_space_is_a_line<T: Num>(val: spec_fn(T) -> real, p: Point3<T>, q: Point3<T>)
    requires
        exact(val),
    ensures
        ({
            let l = p.join_spec(q).0;
            val(l.e01) * val(l.e23) + val(l.e02) * val(l.e31) + val(l.e03) * val(l.e12) == 0real
        }),
{
    let (px, py, pz, pw) = (val(p.0.e032), val(p.0.e013), val(p.0.e021), val(p.0.e123));
    let (qx, qy, qz, qw) = (val(q.0.e032), val(q.0.e013), val(q.0.e021), val(q.0.e123));
    join_of_space(val, p, q);
    let (m1, m2, m3) = (py * qz - pz * qy, pz * qx - px * qz, px * qy - py * qx);
    // the moment is perpendicular to either point
    determinant_with_equal_rows(qx, qy, qz, px, py, pz);
    determinant_with_equal_rows(px, py, pz, qx, qy, qz);
    assert(m1 * px + m2 * py + m3 * pz == 0real) by {
        assert(py * qz == qz * py && pz * qy == qy * pz && pz * qx == qx * pz && px * qz == qz * px
            && px * qy == qy * px && py * qx == qx * py);
    }
    assert(m1 * qx + m2 * qy + m3 * qz == 0real) by {
        distribute(py * qz, pz * qy, qx);
        distribute(pz * qx, px * qz, qy);
        distribute(px * qy, py * qx, qz);
        distribute(qy * pz, qz * py, qx);
        distribute(qz * px, qx * pz, qy);
        distribute(qx * py, qy * px, qz);
        assert(py * qz == qz * py && pz * qy == qy * pz && pz * qx == qx * pz && px * qz == qz * px
            && px * qy == qy * px && py * qx == qx * py);
    }
    // and so to the direction
    distribute(pw * qx, px * qw, m1);
    distribute(pw * qy, py * qw, m2);
    distribute(pw * qz, pz * qw, m3);
    assert(m1 * (pw * qx) == pw * (m1 * qx)) by (nonlinear_arith);
    assert(m2 * (pw * qy) == pw * (m2 * qy)) by (nonlinear_arith);
    assert(m3 * (pw * qz) == pw * (m3 * qz)) by (nonlinear_arith);
    assert(m1 * (px * qw) == qw * (m1 * px)) by (nonlinear_arith);
    assert(m2 * (py * qw) == qw * (m2 * py)) by (nonlinear_arith);
    assert(m3 * (pz * qw) == qw * (m3 * pz)) by (nonlinear_arith);
    assert(pw * (m1 * qx + m2 * qy + m3 * qz) == pw * (m1 * qx) + pw * (m2 * qy) + pw * (m3 * qz))
        by (nonlinear_arith);
    assert(qw * (m1 * px + m2 * py + m3 * pz) == qw * (m1 * px) + qw * (m2 * py) + qw * (m3 * pz))
        by (nonlinear_arith);
    assert(pw * 0real == 0real && qw * 0real == 0real);
}

/// What is left of `p x d - w m` where `d` is the direction and `m` the
/// moment of the line through `p` and `q`: nothing, for `p` and for `q`.
proof fn on_the_join(y: real, z: real, w: real, v: real, u: real, t: real)
    ensures
        y * (w * u - z * t) - z * (w * v - y * t) - w * (y * u - z * v) == 0real,
        v * (w * u - z * t) - u * (w * v - y * t) - t * (y * u - z * v) == 0real,
{
    distribute(w * u, z * t, y);
    distribute(w * v, y * t, z);
    distribute(y * u, z * v, w);
    distribute(w * u, z * t, v);
    distribute(w * v, y * t, u);
    distribute(y * u, z * v, t);
    assert(y * (w * u) == w * (y * u)) by (nonlinear_arith);
    assert(y * (z * t) == z * (y * t)) by (nonlinear_arith);
    assert(z * (w * v) == w * (z * v)) by (nonlinear_arith);
    assert(v * (w * u) == u * (w * v)) by (nonlinear_arith);
    assert(v * (z * t) == t * (z * v)) by (nonlinear_arith);
    assert(u * (y * t) == t * (y * u)) by (nonlinear_arith);
}

/// The line through two points of space goes through both of them.
///
/// This holds in every exact field, of every two points, ideal ones
/// included. Where the two points are the same point, the line is zero.
pub proof fn join_of_space_goes_through_its_points<T: Num>(
    val: spec_fn(T) -> real,
    p: Point3<T>,
    q: Point3<T>,
)
    requires
        exact(val),
    ensures
        lies_on_line(val, p, p.join_spec(q)),
        lies_on_line(val, q, p.join_spec(q)),
{
    let (px, py, pz, pw) = (val(p.0.e032), val(p.0.e013), val(p.0.e021), val(p.0.e123));
    let (qx, qy, qz, qw) = (val(q.0.e032), val(q.0.e013), val(q.0.e021), val(q.0.e123));
    let l = p.join_spec(q);
    join_of_space(val, p, q);
    let (d1, d2, d3) = (val(l.0.e23), val(l.0.e31), val(l.0.e12));
    let (m1, m2, m3) = (val(l.0.e01), val(l.0.e02), val(l.0.e03));
    let a = plane_through(p, l).0;
    assert(a == p.0.dual_spec().bitxor_spec(l.0.dual_spec()).dual_spec());
    assert(val(a.e0) == px * m1 + py * m2 + pz * m3);
    assert(val(a.e1) == py * d3 - pz * d2 - pw * m1);
    assert(val(a.e2) == pz * d1 - px * d3 - pw * m2);
    assert(val(a.e3) == px * d2 - py * d1 - pw * m3);
    let b = plane_through(q, l).0;
    assert(b == q.0.dual_spec().bitxor_spec(l.0.dual_spec()).dual_spec());
    assert(val(b.e0) == qx * m1 + qy * m2 + qz * m3);
    assert(val(b.e1) == qy * d3 - qz * d2 - qw * m1);
    assert(val(b.e2) == qz * d1 - qx * d3 - qw * m2);
    assert(val(b.e3) == qx * d2 - qy * d1 - qw * m3);
    // the moment is perpendicular to either point
    determinant_with_equal_rows(px, py, pz, qx, qy, qz);
    determinant_with_equal_rows(qx, qy, qz, px, py, pz);
    assert(py * qz == qz * py && pz * qy == qy * pz && pz * qx == qx * pz && px * qz == qz * px
        && px * qy == qy * px && py * qx == qx * py);
    distribute(py * qz, pz * qy, qx);
    distribute(pz * qx, px * qz, qy);
    distribute(px * qy, py * qx, qz);
    distribute(qy * pz, qz * py, qx);
    distribute(qz * px, qx * pz, qy);
    distribute(qx * py, qy * px, qz);
    assert(val(a.e0) == 0real);
    assert(val(b.e0) == 0real);
    // and the rest cancels
    on_the_join(py, pz, pw, qy, qz, qw);
    on_the_join(pz, px, pw, qz, qx, qw);
    on_the_join(px, py, pw, qx, qy, qw);
}

/// Whether, in the reading `val`, the point lies on the plane: whether
/// the outer product of the plane and the point is zero.
pub open spec fn lies_on_plane<T: Num>(
    val: spec_fn(T) -> real,
    point: Point3<T>,
    plane: Plane3<T>,
) -> bool {
    val(plane.0.bitxor_spec(point.0).e0123) == 0real
}

/// The outer product of a bivector `b` with a vector `c`, and then with
/// a vector `x`, ordered by the coefficients of `c`.
proof fn ordered_by_the_third(
    b01: real,
    b02: real,
    b03: real,
    b12: real,
    b31: real,
    b23: real,
    c0: real,
    c1: real,
    c2: real,
    c3: real,
    x0: real,
    x1: real,
    x2: real,
    x3: real,
)
    ensures
        (b12 * c3 + b31 * c2 + b23 * c1) * x0 + (b03 * c2 - b02 * c3 - b23 * c0) * x1 + (b01 * c3
            - b03 * c1 - b31 * c0) * x2 + (b02 * c1 - b01 * c2 - b12 * c0) * x3 == (b23 * x0 + b02
            * x3 - b03 * x2) * c1 + (b31 * x0 - b01 * x3 + b03 * x1) * c2 + (b12 * x0 + b01 * x2
            - b02 * x1) * c3 - (b12 * x3 + b31 * x2 + b23 * x1) * c0,
{
    distribute3(b12 * c3, b31 * c2, b23 * c1, x0);
    distribute(b03 * c2 - b02 * c3, b23 * c0, x1);
    distribute(b03 * c2, b02 * c3, x1);
    distribute(b01 * c3 - b03 * c1, b31 * c0, x2);
    distribute(b01 * c3, b03 * c1, x2);
    distribute(b02 * c1 - b01 * c2, b12 * c0, x3);
    distribute(b02 * c1, b01 * c2, x3);
    distribute(b23 * x0 + b02 * x3, b03 * x2, c1);
    distribute(b23 * x0, b02 * x3, c1);
    distribute(b31 * x0 - b01 * x3, -(b03 * x1), c2);
    distribute(b31 * x0, b01 * x3, c2);
    sign(b03 * x1, c2);
    assert(b31 * x0 - b01 * x3 + b03 * x1 == (b31 * x0 - b01 * x3) - (-(b03 * x1)));
    distribute(b12 * x0 + b01 * x2, b02 * x1, c3);
    distribute(b12 * x0, b01 * x2, c3);
    distribute3(b12 * x3, b31 * x2, b23 * x1, c0);
    assert((b12 * c3) * x0 == (b12 * x0) * c3) by (nonlinear_arith);
    assert((b31 * c2) * x0 == (b31 * x0) * c2) by (nonlinear_arith);
    assert((b23 * c1) * x0 == (b23 * x0) * c1) by (nonlinear_arith);
    assert((b03 * c2) * x1 == (b03 * x1) * c2) by (nonlinear_arith);
    assert((b02 * c3) * x1 == (b02 * x1) * c3) by (nonlinear_arith);
    assert((b23 * c0) * x1 == (b23 * x1) * c0) by (nonlinear_arith);
    assert((b01 * c3) * x2 == (b01 * x2) * c3) by (nonlinear_arith);
    assert((b03 * c1) * x2 == (b03 * x2) * c1) by (nonlinear_arith);
    assert((b31 * c0) * x2 == (b31 * x2) * c0) by (nonlinear_arith);
    assert((b02 * c1) * x3 == (b02 * x3) * c1) by (nonlinear_arith);
    assert((b01 * c2) * x3 == (b01 * x3) * c2) by (nonlinear_arith);
    assert((b12 * c0) * x3 == (b12 * x3) * c0) by (nonlinear_arith);
}

/// The outer product of two vectors, and then with one of the two, is
/// zero: every part of it is a determinant with two equal rows.
proof fn twice_in_a_product(
    a0: real,
    a1: real,
    a2: real,
    a3: real,
    b0: real,
    b1: real,
    b2: real,
    b3: real,
)
    ensures
        ({
            let (b01, b02, b03) = (a0 * b1 - a1 * b0, a0 * b2 - a2 * b0, a0 * b3 - a3 * b0);
            let (b12, b31, b23) = (a1 * b2 - a2 * b1, a3 * b1 - a1 * b3, a2 * b3 - a3 * b2);
            &&& b12 * a3 + b31 * a2 + b23 * a1 == 0real
            &&& b23 * a0 + b02 * a3 - b03 * a2 == 0real
            &&& b31 * a0 - b01 * a3 + b03 * a1 == 0real
            &&& b12 * a0 + b01 * a2 - b02 * a1 == 0real
            &&& b12 * b3 + b31 * b2 + b23 * b1 == 0real
            &&& b23 * b0 + b02 * b3 - b03 * b2 == 0real
            &&& b31 * b0 - b01 * b3 + b03 * b1 == 0real
            &&& b12 * b0 + b01 * b2 - b02 * b1 == 0real
        }),
{
    // every product of three, in one order
    assert((a1 * b2) * a3 == (a3 * b2) * a1 && (a2 * b1) * a3 == (a3 * b1) * a2 && (a1 * b3) * a2
        == (a2 * b3) * a1) by (nonlinear_arith);
    assert((a2 * b3) * a0 == (a0 * b3) * a2 && (a3 * b2) * a0 == (a0 * b2) * a3 && (a2 * b0) * a3
        == (a3 * b0) * a2) by (nonlinear_arith);
    assert((a3 * b1) * a0 == (a0 * b1) * a3 && (a1 * b3) * a0 == (a0 * b3) * a1 && (a1 * b0) * a3
        == (a3 * b0) * a1) by (nonlinear_arith);
    assert((a1 * b2) * a0 == (a0 * b2) * a1 && (a2 * b1) * a0 == (a0 * b1) * a2 && (a1 * b0) * a2
        == (a2 * b0) * a1) by (nonlinear_arith);
    assert((a1 * b2) * b3 == (a1 * b3) * b2 && (a2 * b1) * b3 == (a2 * b3) * b1 && (a3 * b1) * b2
        == (a3 * b2) * b1) by (nonlinear_arith);
    assert((a2 * b3) * b0 == (a2 * b0) * b3 && (a3 * b2) * b0 == (a3 * b0) * b2 && (a0 * b2) * b3
        == (a0 * b3) * b2) by (nonlinear_arith);
    assert((a3 * b1) * b0 == (a3 * b0) * b1 && (a1 * b3) * b0 == (a1 * b0) * b3 && (a0 * b1) * b3
        == (a0 * b3) * b1) by (nonlinear_arith);
    assert((a1 * b2) * b0 == (a1 * b0) * b2 && (a2 * b1) * b0 == (a2 * b0) * b1 && (a0 * b1) * b2
        == (a0 * b2) * b1) by (nonlinear_arith);
    distribute(a1 * b2, a2 * b1, a3);
    distribute(a3 * b1, a1 * b3, a2);
    distribute(a2 * b3, a3 * b2, a1);
    distribute(a2 * b3, a3 * b2, a0);
    distribute(a0 * b2, a2 * b0, a3);
    distribute(a0 * b3, a3 * b0, a2);
    distribute(a3 * b1, a1 * b3, a0);
    distribute(a0 * b1, a1 * b0, a3);
    distribute(a0 * b3, a3 * b0, a1);
    distribute(a1 * b2, a2 * b1, a0);
    distribute(a0 * b1, a1 * b0, a2);
    distribute(a0 * b2, a2 * b0, a1);
    distribute(a1 * b2, a2 * b1, b3);
    distribute(a3 * b1, a1 * b3, b2);
    distribute(a2 * b3, a3 * b2, b1);
    distribute(a2 * b3, a3 * b2, b0);
    distribute(a0 * b2, a2 * b0, b3);
    distribute(a0 * b3, a3 * b0, b2);
    distribute(a3 * b1, a1 * b3, b0);
    distribute(a0 * b1, a1 * b0, b3);
    distribute(a0 * b3, a3 * b0, b1);
    distribute(a1 * b2, a2 * b1, b0);
    distribute(a0 * b1, a1 * b0, b2);
    distribute(a0 * b2, a2 * b0, b1);
}

/// The plane through three points of space goes through each of them.
///
/// This holds in every exact field, of every three points, ideal ones
/// included. Where the three lie on a line, the plane is zero.
pub proof fn join_of_three_goes_through_its_points<T: Num>(
    val: spec_fn(T) -> real,
    p: Point3<T>,
    q: Point3<T>,
    r: Point3<T>,
)
    requires
        exact(val),
    ensures
        lies_on_plane(val, p, p.join3_spec(q, r)),
        lies_on_plane(val, q, p.join3_spec(q, r)),
        lies_on_plane(val, r, p.join3_spec(q, r)),
{
    let (a0, a1, a2, a3) = (val(p.0.e123), val(p.0.e032), val(p.0.e013), val(p.0.e021));
    let (b0, b1, b2, b3) = (val(q.0.e123), val(q.0.e032), val(q.0.e013), val(q.0.e021));
    let (c0, c1, c2, c3) = (val(r.0.e123), val(r.0.e032), val(r.0.e013), val(r.0.e021));
    let plane = p.join3_spec(q, r).0;
    let b = p.0.dual_spec().bitxor_spec(q.0.dual_spec());
    assert(plane == b.bitxor_spec(r.0.dual_spec()).dual_spec());
    let (b01, b02, b03) = (val(b.e01), val(b.e02), val(b.e03));
    let (b12, b31, b23) = (val(b.e12), val(b.e31), val(b.e23));
    assert(b01 == a0 * b1 - a1 * b0 && b02 == a0 * b2 - a2 * b0 && b03 == a0 * b3 - a3 * b0);
    assert(b12 == a1 * b2 - a2 * b1 && b31 == a3 * b1 - a1 * b3 && b23 == a2 * b3 - a3 * b2);
    assert(val(plane.e0) == b12 * c3 + b31 * c2 + b23 * c1);
    assert(val(plane.e1) == b03 * c2 - b02 * c3 - b23 * c0);
    assert(val(plane.e2) == b01 * c3 - b03 * c1 - b31 * c0);
    assert(val(plane.e3) == b02 * c1 - b01 * c2 - b12 * c0);
    assert(val(plane.bitxor_spec(p.0).e0123) == val(plane.e0) * a0 + val(plane.e1) * a1 + val(
        plane.e2,
    ) * a2 + val(plane.e3) * a3);
    assert(val(plane.bitxor_spec(q.0).e0123) == val(plane.e0) * b0 + val(plane.e1) * b1 + val(
        plane.e2,
    ) * b2 + val(plane.e3) * b3);
    assert(val(plane.bitxor_spec(r.0).e0123) == val(plane.e0) * c0 + val(plane.e1) * c1 + val(
        plane.e2,
    ) * c2 + val(plane.e3) * c3);
    twice_in_a_product(a0, a1, a2, a3, b0, b1, b2, b3);
    ordered_by_the_third(b01, b02, b03, b12, b31, b23, c0, c1, c2, c3, a0, a1, a2, a3);
    ordered_by_the_third(b01, b02, b03, b12, b31, b23, c0, c1, c2, c3, b0, b1, b2, b3);
    zero(c0);
    zero(c1);
    zero(c2);
    zero(c3);
    // the third point: every product occurs twice, with either sign
    ordered_by_the_third(b01, b02, b03, b12, b31, b23, c0, c1, c2, c3, c0, c1, c2, c3);
    distribute(b23 * c0 + b02 * c3, b03 * c2, c1);
    distribute(b23 * c0, b02 * c3, c1);
    distribute(b31 * c0 - b01 * c3, -(b03 * c1), c2);
    distribute(b31 * c0, b01 * c3, c2);
    sign(b03 * c1, c2);
    assert(b31 * c0 - b01 * c3 + b03 * c1 == (b31 * c0 - b01 * c3) - (-(b03 * c1)));
    distribute(b12 * c0 + b01 * c2, b02 * c1, c3);
    distribute(b12 * c0, b01 * c2, c3);
    distribute3(b12 * c3, b31 * c2, b23 * c1, c0);
    assert((b23 * c0) * c1 == (b23 * c1) * c0) by (nonlinear_arith);
    assert((b02 * c3) * c1 == (b02 * c1) * c3) by (nonlinear_arith);
    assert((b03 * c2) * c1 == (b03 * c1) * c2) by (nonlinear_arith);
    assert((b31 * c0) * c2 == (b31 * c2) * c0) by (nonlinear_arith);
    assert((b01 * c3) * c2 == (b01 * c2) * c3) by (nonlinear_arith);
    assert((b12 * c0) * c3 == (b12 * c3) * c0) by (nonlinear_arith);
}

/// The plane through a point that is perpendicular to a line of space:
/// their inner product.
pub open spec fn perpendicular_plane_from<T: Num>(point: Point3<T>, line: Line3<T>) -> Plane3<T> {
    Plane3(point.0.bitor_spec(line.0))
}

/// What is left of the plane through a line and the point that it
/// shares with the plane `v`, where the direction `d` of the line is
/// perpendicular to its moment `m`: nothing.
proof fn on_the_meet(
    m1: real,
    m2: real,
    m3: real,
    d1: real,
    d2: real,
    d3: real,
    v0: real,
    v1: real,
    v2: real,
    v3: real,
)
    requires
        m1 * d1 + m2 * d2 + m3 * d3 == 0real,
    ensures
        (m1 * v3 - m3 * v1 - d2 * v0) * d3 - (m2 * v1 - m1 * v2 - d3 * v0) * d2 - (d1 * v1 + d2
            * v2 + d3 * v3) * m1 == 0real,
{
    distribute(m1 * v3, m3 * v1, d3);
    distribute(m1 * v3 - m3 * v1, d2 * v0, d3);
    distribute(m2 * v1, m1 * v2, d2);
    distribute(m2 * v1 - m1 * v2, d3 * v0, d2);
    distribute3(d1 * v1, d2 * v2, d3 * v3, m1);
    distribute3(m1 * d1, m2 * d2, m3 * d3, v1);
    assert((m1 * v3) * d3 == (d3 * v3) * m1) by (nonlinear_arith);
    assert((m1 * v2) * d2 == (d2 * v2) * m1) by (nonlinear_arith);
    assert((d2 * v0) * d3 == (d3 * v0) * d2) by (nonlinear_arith);
    assert((m3 * v1) * d3 == (m3 * d3) * v1) by (nonlinear_arith);
    assert((m2 * v1) * d2 == (m2 * d2) * v1) by (nonlinear_arith);
    assert((d1 * v1) * m1 == (m1 * d1) * v1) by (nonlinear_arith);
    assert(0real * v1 == 0real);
}

/// The outer product of a plane `v` with the point that it shares with
/// a line is zero.
proof fn meet_on_the_plane(
    m1: real,
    m2: real,
    m3: real,
    d1: real,
    d2: real,
    d3: real,
    v0: real,
    v1: real,
    v2: real,
    v3: real,
)
    ensures
        v0 * (d1 * v1 + d2 * v2 + d3 * v3) + v1 * (m3 * v2 - m2 * v3 - d1 * v0) + v2 * (m1 * v3
            - m3 * v1 - d2 * v0) + v3 * (m2 * v1 - m1 * v2 - d3 * v0) == 0real,
{
    distribute3(d1 * v1, d2 * v2, d3 * v3, v0);
    distribute(m3 * v2, m2 * v3, v1);
    distribute(m3 * v2 - m2 * v3, d1 * v0, v1);
    distribute(m1 * v3, m3 * v1, v2);
    distribute(m1 * v3 - m3 * v1, d2 * v0, v2);
    distribute(m2 * v1, m1 * v2, v3);
    distribute(m2 * v1 - m1 * v2, d3 * v0, v3);
    assert(v0 * (d1 * v1) == v1 * (d1 * v0)) by (nonlinear_arith);
    assert(v0 * (d2 * v2) == v2 * (d2 * v0)) by (nonlinear_arith);
    assert(v0 * (d3 * v3) == v3 * (d3 * v0)) by (nonlinear_arith);
    assert(v1 * (m3 * v2) == v2 * (m3 * v1)) by (nonlinear_arith);
    assert(v1 * (m2 * v3) == v3 * (m2 * v1)) by (nonlinear_arith);
    assert(v2 * (m1 * v3) == v3 * (m1 * v2)) by (nonlinear_arith);
}

/// The projection of a point of space onto a line is the foot of the
/// perpendicular.
///
/// In an exact field, the inner product of the point and the line is a
/// plane through the point whose normal is a multiple of the direction
/// of the line, and the projection lies on that plane. Where the
/// direction of the line is perpendicular to its moment, as it is of
/// every line through two points, the projection lies on the line too.
pub proof fn projection_in_space_is_the_foot_of_the_perpendicular<T: Num>(
    val: spec_fn(T) -> real,
    point: Point3<T>,
    line: Line3<T>,
)
    requires
        exact(val),
    ensures
        ({
            let across = perpendicular_plane_from(point, line);
            let foot = point.project_to_spec(line);
            let w = val(point.0.e123);
            &&& lies_on_plane(val, point, across)
            &&& val(across.0.e1) == -(w * val(line.0.e23))
            &&& val(across.0.e2) == -(w * val(line.0.e31))
            &&& val(across.0.e3) == -(w * val(line.0.e12))
            &&& lies_on_plane(val, foot, across)
            &&& val(line.0.e01) * val(line.0.e23) + val(line.0.e02) * val(line.0.e31) + val(
                line.0.e03,
            ) * val(line.0.e12) == 0real ==> lies_on_line(val, foot, line)
        }),
{
    let (px, py, pz, pw) = (val(point.0.e032), val(point.0.e013), val(point.0.e021), val(point.0.e123));
    let (d1, d2, d3) = (val(line.0.e23), val(line.0.e31), val(line.0.e12));
    let (m1, m2, m3) = (val(line.0.e01), val(line.0.e02), val(line.0.e03));
    let v = perpendicular_plane_from(point, line).0;
    let (v0, v1, v2, v3) = (val(v.e0), val(v.e1), val(v.e2), val(v.e3));
    assert(v0 == pz * d3 + py * d2 + px * d1);
    assert(v1 == -(pw * d1) && v2 == -(pw * d2) && v3 == -(pw * d3));
    // the point lies on the plane
    assert(val(v.bitxor_spec(point.0).e0123) == v0 * pw + v1 * px + v2 * py + v3 * pz);
    distribute3(pz * d3, py * d2, px * d1, pw);
    sign(pw * d1, px);
    sign(pw * d2, py);
    sign(pw * d3, pz);
    assert((pz * d3) * pw == (pw * d3) * pz) by (nonlinear_arith);
    assert((py * d2) * pw == (pw * d2) * py) by (nonlinear_arith);
    assert((px * d1) * pw == (pw * d1) * px) by (nonlinear_arith);
    // the foot is the point that the plane shares with the line
    let foot = point.project_to_spec(line).0;
    let (fx, fy, fz, fw) = (val(foot.e032), val(foot.e013), val(foot.e021), val(foot.e123));
    assert(foot == line.0.not_spec().bitxor_spec(v));
    sign(m1, v2);
    sign(m1, v3);
    sign(m2, v1);
    sign(m2, v3);
    sign(m3, v1);
    sign(m3, v2);
    sign(d1, v0);
    sign(d2, v0);
    sign(d3, v0);
    sign(d1, v1);
    sign(d2, v2);
    sign(d3, v3);
    assert(fz == (-m2) * v1 - (-m1) * v2 - (-d3) * v0);
    assert(fy == (-m1) * v3 - (-m3) * v1 - (-d2) * v0);
    assert(fx == (-m3) * v2 - (-m2) * v3 - (-d1) * v0);
    assert(fw == (-d3) * v3 + (-d2) * v2 + (-d1) * v1);
    let (gx, gy, gz) = (m3 * v2 - m2 * v3 - d1 * v0, m1 * v3 - m3 * v1 - d2 * v0, m2 * v1 - m1 * v2 - d3 * v0);
    let gw = d1 * v1 + d2 * v2 + d3 * v3;
    assert(fx == -gx && fy == -gy && fz == -gz && fw == -gw);
    // it lies on the plane
    assert(val(v.bitxor_spec(foot).e0123) == v0 * fw + v1 * fx + v2 * fy + v3 * fz);
    meet_on_the_plane(m1, m2, m3, d1, d2, d3, v0, v1, v2, v3);
    sign(v0, gw);
    sign(v1, gx);
    sign(v2, gy);
    sign(v3, gz);
    assert(lies_on_plane(val, Point3(foot), Plane3(v)));
    // and, of a line, on the line
    if m1 * d1 + m2 * d2 + m3 * d3 == 0real {
        let a = plane_through(Point3(foot), line).0;
        assert(a == foot.dual_spec().bitxor_spec(line.0.dual_spec()).dual_spec());
        assert(val(a.e0) == fx * m1 + fy * m2 + fz * m3);
        assert(val(a.e1) == fy * d3 - fz * d2 - fw * m1);
        assert(val(a.e2) == fz * d1 - fx * d3 - fw * m2);
        assert(val(a.e3) == fx * d2 - fy * d1 - fw * m3);
        sign(gx, m1);
        sign(gy, m2);
        sign(gz, m3);
        sign(gy, d3);
        sign(gz, d2);
        sign(gw, m1);
        sign(gz, d1);
        sign(gx, d3);
        sign(gw, m2);
        sign(gx, d2);
        sign(gy, d1);
        sign(gw, m3);
        on_the_meet(m1, m2, m3, d1, d2, d3, v0, v1, v2, v3);
        assert(m2 * d2 + m3 * d3 + m1 * d1 == 0real);
        on_the_meet(m2, m3, m1, d2, d3, d1, v0, v2, v3, v1);
        assert(m3 * d3 + m1 * d1 + m2 * d2 == 0real);
        on_the_meet(m3, m1, m2, d3, d1, d2, v0, v3, v1, v2);
        assert(val(a.e1) == 0real);
        assert(val(a.e2) == 0real);
        assert(val(a.e3) == 0real);
        // the moment of the foot about the line
        distribute(m3 * v2, m2 * v3, m1);
        distribute(m3 * v2 - m2 * v3, d1 * v0, m1);
        distribute(m1 * v3, m3 * v1, m2);
        distribute(m1 * v3 - m3 * v1, d2 * v0, m2);
        distribute(m2 * v1, m1 * v2, m3);
        distribute(m2 * v1 - m1 * v2, d3 * v0, m3);
        distribute3(m1 * d1, m2 * d2, m3 * d3, v0);
        assert((m3 * v2) * m1 == (m1 * v2) * m3) by (nonlinear_arith);
        assert((m2 * v3) * m1 == (m1 * v3) * m2) by (nonlinear_arith);
        assert((m3 * v1) * m2 == (m2 * v1) * m3) by (nonlinear_arith);
        assert((d1 * v0) * m1 == (m1 * d1) * v0) by (nonlinear_arith);
        assert((d2 * v0) * m2 == (m2 * d2) * v0) by (nonlinear_arith);
        assert((d3 * v0) * m3 == (m3 * d3) * v0) by (nonlinear_arith);
        assert(0real * v0 == 0real);
        assert(val(a.e0) == 0real);
    }
}

} // verus!
