//! The join of two points goes through the points, the meet of two lines
//! lies on the lines, and the projections are what their names say.
//!
//! A point lies on a line where the outer product of the two vanishes.

use core::ops::{Add, BitOr, BitXor, Mul, Neg, Not, Sub};
use vstd::prelude::*;
use vstd::std_specs::ops::{AddSpec, BitOrSpec, BitXorSpec, MulSpec, NegSpec, NotSpec, SubSpec};

use crate::laws::exact::exact;
use crate::laws::reals::{distribute, sign};
use crate::pga::elements::Dual;
use crate::pga::line::Line2;
use crate::pga::point::Point2;
use crate::scalar::Num;

verus! {

/// Whether, in the reading `val`, the point lies on the line: whether the
/// outer product of the line and the point is zero.
pub open spec fn lies_on<T: Num>(val: spec_fn(T) -> real, point: Point2<T>, line: Line2<T>) -> bool {
    val(line.0.bitxor_spec(point.0).e012) == 0real
}

/// A determinant with two equal rows is zero.
pub proof fn determinant_with_equal_rows(a: real, b: real, c: real, x: real, y: real, z: real)
    ensures
        (b * z - c * y) * a + (c * x - a * z) * b + (a * y - b * x) * c == 0real,
        a * (b * z - c * y) + b * (c * x - a * z) + c * (a * y - b * x) == 0real,
{
    distribute(b * z, c * y, a);
    distribute(c * x, a * z, b);
    distribute(a * y, b * x, c);
    assert((b * z) * a == (a * z) * b) by (nonlinear_arith);
    assert((c * y) * a == (a * y) * c) by (nonlinear_arith);
    assert((c * x) * b == (b * x) * c) by (nonlinear_arith);
    assert(a * (b * z) == b * (a * z)) by (nonlinear_arith);
    assert(a * (c * y) == c * (a * y)) by (nonlinear_arith);
    assert(b * (c * x) == c * (b * x)) by (nonlinear_arith);
}

/// The line through two points goes through both of them.
///
/// This holds in every exact field, of every two points, ideal ones
/// included. Where the two points are the same point, the line is zero.
pub proof fn join_goes_through_its_points<T: Num>(val: spec_fn(T) -> real, p: Point2<T>, q: Point2<T>)
    requires
        exact(val),
    ensures
        lies_on(val, p, p.join_spec(q)),
        lies_on(val, q, p.join_spec(q)),
{
    let (p1, p2, pw) = (val(p.0.e01), val(p.0.e20), val(p.0.e12));
    let (q1, q2, qw) = (val(q.0.e01), val(q.0.e20), val(q.0.e12));
    let line = p.join_spec(q).0;
    assert(line == p.0.dual_spec().bitxor_spec(q.0.dual_spec()).dual_spec());
    let (l0, l1, l2) = (val(line.e0), val(line.e1), val(line.e2));
    assert(l0 == p2 * q1 - p1 * q2);
    assert(l1 == p1 * qw - pw * q1);
    assert(l2 == pw * q2 - p2 * qw);
    assert(val(line.bitxor_spec(p.0).e012) == l0 * pw + l1 * p2 + l2 * p1);
    assert(val(line.bitxor_spec(q.0).e012) == l0 * qw + l1 * q2 + l2 * q1);
    // rows (pw, p2, p1), (qw, q2, q1) and one of them again
    determinant_with_equal_rows(pw, p2, p1, qw, q2, q1);
    determinant_with_equal_rows(qw, q2, q1, pw, p2, p1);
    assert(l0 * pw + l1 * p2 + l2 * p1 == (p2 * q1 - p1 * q2) * pw + (p1 * qw - pw * q1) * p2 + (pw
        * q2 - p2 * qw) * p1);
    assert(l0 * qw + l1 * q2 + l2 * q1 == -((q2 * p1 - q1 * p2) * qw + (q1 * pw - qw * p1) * q2 + (
    qw * p2 - q2 * pw) * q1)) by {
        distribute(p2 * q1, p1 * q2, qw);
        distribute(p1 * qw, pw * q1, q2);
        distribute(pw * q2, p2 * qw, q1);
        distribute(q2 * p1, q1 * p2, qw);
        distribute(q1 * pw, qw * p1, q2);
        distribute(qw * p2, q2 * pw, q1);
        assert(p2 * q1 == q1 * p2 && p1 * q2 == q2 * p1 && p1 * qw == qw * p1 && pw * q1 == q1 * pw
            && pw * q2 == q2 * pw && p2 * qw == qw * p2);
    }
}

/// The point that two lines share lies on both of them.
///
/// This holds in every exact field, of every two lines. Where the lines
/// are parallel the point is ideal, and where they are the same line it
/// is zero.
pub proof fn meet_lies_on_its_lines<T: Num>(val: spec_fn(T) -> real, k: Line2<T>, l: Line2<T>)
    requires
        exact(val),
    ensures
        lies_on(val, k.meet_spec(l), k),
        lies_on(val, k.meet_spec(l), l),
{
    let (k0, k1, k2) = (val(k.0.e0), val(k.0.e1), val(k.0.e2));
    let (l0, l1, l2) = (val(l.0.e0), val(l.0.e1), val(l.0.e2));
    let point = k.meet_spec(l).0;
    let (m1, m2, mw) = (val(point.e01), val(point.e20), val(point.e12));
    assert(m1 == k0 * l1 - k1 * l0);
    assert(m2 == k2 * l0 - k0 * l2);
    assert(mw == k1 * l2 - k2 * l1);
    assert(val(k.0.bitxor_spec(point).e012) == k0 * mw + k1 * m2 + k2 * m1);
    assert(val(l.0.bitxor_spec(point).e012) == l0 * mw + l1 * m2 + l2 * m1);
    determinant_with_equal_rows(k0, k1, k2, l0, l1, l2);
    determinant_with_equal_rows(l0, l1, l2, k0, k1, k2);
    assert(l0 * mw + l1 * m2 + l2 * m1 == -(l0 * (l1 * k2 - l2 * k1) + l1 * (l2 * k0 - l0 * k2) + l2
        * (l0 * k1 - l1 * k0))) by {
        distribute(k1 * l2, k2 * l1, l0);
        distribute(k2 * l0, k0 * l2, l1);
        distribute(k0 * l1, k1 * l0, l2);
        distribute(l1 * k2, l2 * k1, l0);
        distribute(l2 * k0, l0 * k2, l1);
        distribute(l0 * k1, l1 * k0, l2);
        assert(k1 * l2 == l2 * k1 && k2 * l1 == l1 * k2 && k2 * l0 == l0 * k2 && k0 * l2 == l2 * k0
            && k0 * l1 == l1 * k0 && k1 * l0 == l0 * k1);
    }
}

/// Whether, in the reading `val`, the two lines are perpendicular:
/// whether the inner product of their normals is zero.
pub open spec fn perpendicular<T: Num>(val: spec_fn(T) -> real, k: Line2<T>, l: Line2<T>) -> bool {
    val(k.0.e1) * val(l.0.e1) + val(k.0.e2) * val(l.0.e2) == 0real
}

/// Whether, in the reading `val`, the two lines are parallel: whether
/// their normals have the same direction.
pub open spec fn parallel<T: Num>(val: spec_fn(T) -> real, k: Line2<T>, l: Line2<T>) -> bool {
    val(k.0.e1) * val(l.0.e2) == val(k.0.e2) * val(l.0.e1)
}

/// The perpendicular from a point to a line: the inner product of the
/// point and the line.
pub open spec fn perpendicular_from<T: Num>(point: Point2<T>, line: Line2<T>) -> Line2<T> {
    Line2(point.0.bitor_spec(line.0))
}

/// The projection of a point onto a line is the foot of the
/// perpendicular: it lies on the line and on a line through the point
/// that is perpendicular to the line.
pub proof fn projection_is_the_foot_of_the_perpendicular<T: Num>(
    val: spec_fn(T) -> real,
    point: Point2<T>,
    line: Line2<T>,
)
    requires
        exact(val),
    ensures
        lies_on(val, point, perpendicular_from(point, line)),
        perpendicular(val, perpendicular_from(point, line), line),
        lies_on(val, point.project_to_spec(line), line),
        lies_on(val, point.project_to_spec(line), perpendicular_from(point, line)),
{
    let (p1, p2, pw) = (val(point.0.e01), val(point.0.e20), val(point.0.e12));
    let (l0, l1, l2) = (val(line.0.e0), val(line.0.e1), val(line.0.e2));
    let v = perpendicular_from(point, line).0;
    let (v0, v1, v2) = (val(v.e0), val(v.e1), val(v.e2));
    assert(v0 == p1 * l1 - p2 * l2);
    assert(v1 == pw * l2);
    assert(v2 == -(pw * l1));
    // the point lies on the perpendicular
    assert(val(v.bitxor_spec(point.0).e012) == v0 * pw + v1 * p2 + v2 * p1);
    distribute(p1 * l1, p2 * l2, pw);
    sign(pw * l1, p1);
    assert((p1 * l1) * pw == (pw * l1) * p1) by (nonlinear_arith);
    assert((p2 * l2) * pw == (pw * l2) * p2) by (nonlinear_arith);
    // the perpendicular is perpendicular
    sign(pw * l1, l2);
    assert((pw * l2) * l1 == (pw * l1) * l2) by (nonlinear_arith);
    // the foot is the point that the line and the perpendicular share
    let foot = point.project_to_spec(line).0;
    assert(line.0.not_spec() == line.0);
    assert(foot == line.0.bitxor_spec(v));
    let (f1, f2, fw) = (val(foot.e01), val(foot.e20), val(foot.e12));
    assert(f1 == l0 * v1 - l1 * v0);
    assert(f2 == l2 * v0 - l0 * v2);
    assert(fw == l1 * v2 - l2 * v1);
    assert(val(line.0.bitxor_spec(foot).e012) == l0 * fw + l1 * f2 + l2 * f1);
    assert(val(v.bitxor_spec(foot).e012) == v0 * fw + v1 * f2 + v2 * f1);
    determinant_of_a_line_and_a_meet(l0, l1, l2, v0, v1, v2);
}

/// A line and the point that it shares with another: the outer product
/// of either line with the point is zero.
proof fn determinant_of_a_line_and_a_meet(k0: real, k1: real, k2: real, l0: real, l1: real, l2: real)
    ensures
        k0 * (k1 * l2 - k2 * l1) + k1 * (k2 * l0 - k0 * l2) + k2 * (k0 * l1 - k1 * l0) == 0real,
        l0 * (k1 * l2 - k2 * l1) + l1 * (k2 * l0 - k0 * l2) + l2 * (k0 * l1 - k1 * l0) == 0real,
{
    determinant_with_equal_rows(k0, k1, k2, l0, l1, l2);
    determinant_with_equal_rows(l0, l1, l2, k0, k1, k2);
    distribute(k1 * l2, k2 * l1, l0);
    distribute(k2 * l0, k0 * l2, l1);
    distribute(k0 * l1, k1 * l0, l2);
    distribute(l1 * k2, l2 * k1, l0);
    distribute(l2 * k0, l0 * k2, l1);
    distribute(l0 * k1, l1 * k0, l2);
    assert(k1 * l2 == l2 * k1 && k2 * l1 == l1 * k2 && k2 * l0 == l0 * k2 && k0 * l2 == l2 * k0
        && k0 * l1 == l1 * k0 && k1 * l0 == l0 * k1);
}

/// The projection of a line onto a point is the parallel through the
/// point: it goes through the point and has the direction of the line.
pub proof fn projection_is_the_parallel_through_the_point<T: Num>(
    val: spec_fn(T) -> real,
    line: Line2<T>,
    point: Point2<T>,
)
    requires
        exact(val),
    ensures
        lies_on(val, point, line.project_to_spec(point)),
        parallel(val, line.project_to_spec(point), line),
{
    let (p1, p2, pw) = (val(point.0.e01), val(point.0.e20), val(point.0.e12));
    let (l0, l1, l2) = (val(line.0.e0), val(line.0.e1), val(line.0.e2));
    let v = line.0.bitor_spec(point.0);
    let (v0, v1, v2) = (val(v.e0), val(v.e1), val(v.e2));
    assert(v0 == l2 * p2 - l1 * p1);
    assert(v1 == -(l2 * pw));
    assert(v2 == l1 * pw);
    let r = line.project_to_spec(point).0;
    assert(r == v.bitor_spec(point.0.not_spec()));
    let (r0, r1, r2) = (val(r.e0), val(r.e1), val(r.e2));
    assert(r0 == v2 * (-p2) - v1 * (-p1));
    assert(r1 == -(v2 * (-pw)));
    assert(r2 == v1 * (-pw));
    sign(v2, p2);
    sign(v1, p1);
    sign(v2, pw);
    sign(v1, pw);
    sign(l2 * pw, p1);
    sign(l2 * pw, pw);
    assert(r0 == (l2 * pw) * (-p1) - (l1 * pw) * p2);
    assert(r1 == (l1 * pw) * pw);
    assert(r2 == (l2 * pw) * pw);
    // through the point
    assert(val(r.bitxor_spec(point.0).e012) == r0 * pw + r1 * p2 + r2 * p1);
    distribute((l2 * pw) * (-p1), (l1 * pw) * p2, pw);
    assert(((l2 * pw) * (-p1)) * pw == -(((l2 * pw) * pw) * p1)) by (nonlinear_arith);
    assert(((l1 * pw) * p2) * pw == ((l1 * pw) * pw) * p2) by (nonlinear_arith);
    // and parallel to the line
    assert(((l1 * pw) * pw) * l2 == ((l2 * pw) * pw) * l1) by (nonlinear_arith);
}

} // verus!
