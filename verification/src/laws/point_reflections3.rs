//! In space, reflecting through a point sends a point to the other side
//! of the centre and a line to the parallel on the other side, and
//! reflecting twice gives either back.

use core::ops::{Add, BitOr, BitXor, Mul, Neg, Not, Sub};
use vstd::prelude::*;
use vstd::std_specs::ops::{AddSpec, BitOrSpec, BitXorSpec, MulSpec, NegSpec, NotSpec, SubSpec};

use crate::laws::exact::exact;
use crate::laws::incidence3::{lies_on_line, plane_through};
use crate::laws::reals::{distribute, regroup, sign, zero};
use crate::pga::elements::Dual;
use crate::pga::line::Line3;
use crate::pga::point::Point3;
use crate::scalar::Num;

verus! {

/// In an exact field, the mirror image of a point `p` of space through a
/// point `c` of weight `w` has the weight of `p` times `w * w`, and each
/// of its other coefficients is twice the coefficient of `c`, times `w`
/// and the weight of `p`, less `w * w` times the coefficient of `p`: it
/// is the point `2 c - p`.
pub proof fn point_reflection_of_point_in_space<T: Num>(
    val: spec_fn(T) -> real,
    centre: Point3<T>,
    point: Point3<T>,
)
    requires
        exact(val),
    ensures
        ({
            let (c1, c2, c3, w) = (
                val(centre.0.e032),
                val(centre.0.e013),
                val(centre.0.e021),
                val(centre.0.e123),
            );
            let (p1, p2, p3, pw) = (
                val(point.0.e032),
                val(point.0.e013),
                val(point.0.e021),
                val(point.0.e123),
            );
            let r = centre.reflect_point_spec(point).0;
            &&& val(r.e123) == (w * w) * pw
            &&& val(r.e032) == 2real * ((c1 * w) * pw) - (w * w) * p1
            &&& val(r.e013) == 2real * ((c2 * w) * pw) - (w * w) * p2
            &&& val(r.e021) == 2real * ((c3 * w) * pw) - (w * w) * p3
        }),
{
    let (c1, c2, c3, w) = (
        val(centre.0.e032),
        val(centre.0.e013),
        val(centre.0.e021),
        val(centre.0.e123),
    );
    let (p1, p2, p3, pw) = (
        val(point.0.e032),
        val(point.0.e013),
        val(point.0.e021),
        val(point.0.e123),
    );
    let (s, bv) = centre.0.mul_spec(point.0);
    let a = s.mul_spec(centre.0.not_spec());
    let b = bv.mul_spec(centre.0.not_spec());
    let r = centre.reflect_point_spec(point).0;
    assert(r == a.add_spec(b));
    let k = val(s.0);
    let (b1, b2, b3) = (val(bv.e01), val(bv.e02), val(bv.e03));
    assert(k == -(w * pw));
    assert(b1 == c1 * pw - w * p1);
    assert(b2 == c2 * pw - w * p2);
    assert(b3 == c3 * pw - w * p3);
    assert(val(a.e032) == k * (-c1) && val(a.e013) == k * (-c2) && val(a.e021) == k * (-c3)
        && val(a.e123) == k * (-w));
    assert(val(b.e032) == -(b1 * (-w)));
    assert(val(b.e013) == -(b2 * (-w)));
    assert(val(b.e021) == -(b3 * (-w)));
    assert(val(b.e123) == 0real);
    sign(w * pw, c1);
    sign(w * pw, c2);
    sign(w * pw, c3);
    sign(w * pw, w);
    sign(b1, w);
    sign(b2, w);
    sign(b3, w);
    distribute(c1 * pw, w * p1, w);
    distribute(c2 * pw, w * p2, w);
    distribute(c3 * pw, w * p3, w);
    assert((w * pw) * c1 == (c1 * w) * pw) by (nonlinear_arith);
    assert((w * pw) * c2 == (c2 * w) * pw) by (nonlinear_arith);
    assert((w * pw) * c3 == (c3 * w) * pw) by (nonlinear_arith);
    assert((w * pw) * w == (w * w) * pw) by (nonlinear_arith);
    assert((w * p1) * w == (w * w) * p1) by (nonlinear_arith);
    assert((w * p2) * w == (w * w) * p2) by (nonlinear_arith);
    assert((w * p3) * w == (w * w) * p3) by (nonlinear_arith);
    assert((c1 * pw) * w == (c1 * w) * pw) by (nonlinear_arith);
    assert((c2 * pw) * w == (c2 * w) * pw) by (nonlinear_arith);
    assert((c3 * pw) * w == (c3 * w) * pw) by (nonlinear_arith);
}

/// Reflecting a point of space twice through one point gives the point
/// back.
///
/// In an exact field the point comes back multiplied by the fourth power
/// of the weight of the centre: it is the same point, and it has the
/// same coefficients where the centre is normalized.
pub proof fn point_reflection_in_space_is_an_involution<T: Num>(
    val: spec_fn(T) -> real,
    centre: Point3<T>,
    point: Point3<T>,
)
    requires
        exact(val),
    ensures
        ({
            let w = val(centre.0.e123);
            let twice = centre.reflect_point_spec(centre.reflect_point_spec(point)).0;
            &&& val(twice.e032) == ((w * w) * (w * w)) * val(point.0.e032)
            &&& val(twice.e013) == ((w * w) * (w * w)) * val(point.0.e013)
            &&& val(twice.e021) == ((w * w) * (w * w)) * val(point.0.e021)
            &&& val(twice.e123) == ((w * w) * (w * w)) * val(point.0.e123)
        }),
{
    let once = centre.reflect_point_spec(point);
    point_reflection_of_point_in_space(val, centre, point);
    point_reflection_of_point_in_space(val, centre, once);
    let w = val(centre.0.e123);
    let (p1, p2, p3, pw) = (
        val(point.0.e032),
        val(point.0.e013),
        val(point.0.e021),
        val(point.0.e123),
    );
    let (q1, q2, q3, qw) = (
        val(once.0.e032),
        val(once.0.e013),
        val(once.0.e021),
        val(once.0.e123),
    );
    let n = w * w;
    let (d1, d2, d3) = (val(centre.0.e032) * w, val(centre.0.e013) * w, val(centre.0.e021) * w);
    assert(qw == n * pw);
    assert(q1 == 2real * (d1 * pw) - n * p1);
    assert(q2 == 2real * (d2 * pw) - n * p2);
    assert(q3 == 2real * (d3 * pw) - n * p3);
    let twice = centre.reflect_point_spec(once).0;
    assert(val(twice.e123) == n * qw);
    assert(val(twice.e032) == 2real * (d1 * qw) - n * q1);
    assert(val(twice.e013) == 2real * (d2 * qw) - n * q2);
    assert(val(twice.e021) == 2real * (d3 * qw) - n * q3);
    regroup(n, n, pw);
    regroup(n, n, p1);
    regroup(n, n, p2);
    regroup(n, n, p3);
    distribute(2real * (d1 * pw), n * p1, n);
    distribute(2real * (d2 * pw), n * p2, n);
    distribute(2real * (d3 * pw), n * p3, n);
    assert(d1 * (n * pw) == n * (d1 * pw)) by (nonlinear_arith);
    assert(d2 * (n * pw) == n * (d2 * pw)) by (nonlinear_arith);
    assert(d3 * (n * pw) == n * (d3 * pw)) by (nonlinear_arith);
    assert(n * (2real * (d1 * pw)) == 2real * (n * (d1 * pw))) by (nonlinear_arith);
    assert(n * (2real * (d2 * pw)) == 2real * (n * (d2 * pw))) by (nonlinear_arith);
    assert(n * (2real * (d3 * pw)) == 2real * (n * (d3 * pw))) by (nonlinear_arith);
}

/// In an exact field, the mirror image of a line of direction `d` and
/// moment `m` through a point `c` of weight `w` has the direction
/// `w * w` times `d` and the moment `2 w (c x d) - (w * w) m`: it is
/// the parallel on the other side of the centre.
pub proof fn point_reflection_of_line_in_space<T: Num>(
    val: spec_fn(T) -> real,
    centre: Point3<T>,
    line: Line3<T>,
)
    requires
        exact(val),
    ensures
        ({
            let (c1, c2, c3, w) = (
                val(centre.0.e032),
                val(centre.0.e013),
                val(centre.0.e021),
                val(centre.0.e123),
            );
            let (d1, d2, d3) = (val(line.0.e23), val(line.0.e31), val(line.0.e12));
            let (m1, m2, m3) = (val(line.0.e01), val(line.0.e02), val(line.0.e03));
            let r = centre.reflect_line_spec(line).0;
            &&& val(r.e23) == (w * w) * d1
            &&& val(r.e31) == (w * w) * d2
            &&& val(r.e12) == (w * w) * d3
            &&& val(r.e01) == 2real * (w * (c2 * d3 - c3 * d2)) - (w * w) * m1
            &&& val(r.e02) == 2real * (w * (c3 * d1 - c1 * d3)) - (w * w) * m2
            &&& val(r.e03) == 2real * (w * (c1 * d2 - c2 * d1)) - (w * w) * m3
        }),
{
    let (c1, c2, c3, w) = (
        val(centre.0.e032),
        val(centre.0.e013),
        val(centre.0.e021),
        val(centre.0.e123),
    );
    let (d1, d2, d3) = (val(line.0.e23), val(line.0.e31), val(line.0.e12));
    let (m1, m2, m3) = (val(line.0.e01), val(line.0.e02), val(line.0.e03));
    let (v, tv) = centre.0.mul_spec(line.0);
    let (a, _p) = v.mul_spec(centre.0.not_spec());
    let (_s, b) = tv.mul_spec(centre.0.not_spec());
    let r = centre.reflect_line_spec(line).0;
    assert(r == a.add_spec(b));
    let (v1, v2, v3) = (val(v.e1), val(v.e2), val(v.e3));
    assert(v1 == -(w * d1) && v2 == -(w * d2) && v3 == -(w * d3));
    let (t1, t2, t3) = (val(tv.e032), val(tv.e013), val(tv.e021));
    assert(t1 == c3 * d2 - c2 * d3 + w * m1);
    assert(t2 == c1 * d3 - c3 * d1 + w * m2);
    assert(t3 == c2 * d1 - c1 * d2 + w * m3);
    assert(val(tv.e123) == 0real);
    // the direction
    sign(w * d1, w);
    sign(w * d2, w);
    sign(w * d3, w);
    assert(val(a.e23) == v1 * (-w) && val(a.e31) == v2 * (-w) && val(a.e12) == v3 * (-w));
    assert((w * d1) * w == (w * w) * d1) by (nonlinear_arith);
    assert((w * d2) * w == (w * w) * d2) by (nonlinear_arith);
    assert((w * d3) * w == (w * w) * d3) by (nonlinear_arith);
    // the moment
    assert(val(a.e01) == v3 * (-c2) - v2 * (-c3));
    assert(val(a.e02) == v1 * (-c3) - v3 * (-c1));
    assert(val(a.e03) == v2 * (-c1) - v1 * (-c2));
    sign(w * d3, c2);
    sign(w * d2, c3);
    sign(w * d1, c3);
    sign(w * d3, c1);
    sign(w * d2, c1);
    sign(w * d1, c2);
    zero(c1);
    zero(c2);
    zero(c3);
    assert(val(b.e01) == t1 * (-w) - 0real * (-c1));
    assert(val(b.e02) == t2 * (-w) - 0real * (-c2));
    assert(val(b.e03) == t3 * (-w) - 0real * (-c3));
    sign(t1, w);
    sign(t2, w);
    sign(t3, w);
    distribute(c3 * d2, c2 * d3, w);
    distribute(c3 * d2 - c2 * d3, w * m1, w);
    distribute(c1 * d3, c3 * d1, w);
    distribute(c1 * d3 - c3 * d1, w * m2, w);
    distribute(c2 * d1, c1 * d2, w);
    distribute(c2 * d1 - c1 * d2, w * m3, w);
    distribute(c2 * d3, c3 * d2, w);
    distribute(c3 * d1, c1 * d3, w);
    distribute(c1 * d2, c2 * d1, w);
    assert((w * d3) * c2 == w * (c2 * d3)) by (nonlinear_arith);
    assert((w * d2) * c3 == w * (c3 * d2)) by (nonlinear_arith);
    assert((w * d1) * c3 == w * (c3 * d1)) by (nonlinear_arith);
    assert((w * d3) * c1 == w * (c1 * d3)) by (nonlinear_arith);
    assert((w * d2) * c1 == w * (c1 * d2)) by (nonlinear_arith);
    assert((w * d1) * c2 == w * (c2 * d1)) by (nonlinear_arith);
    assert((c2 * d3) * w == w * (c2 * d3) && (c3 * d2) * w == w * (c3 * d2) && (c3 * d1) * w == w
        * (c3 * d1) && (c1 * d3) * w == w * (c1 * d3) && (c1 * d2) * w == w * (c1 * d2) && (c2
        * d1) * w == w * (c2 * d1));
    assert((w * m1) * w == (w * w) * m1) by (nonlinear_arith);
    assert((w * m2) * w == (w * w) * m2) by (nonlinear_arith);
    assert((w * m3) * w == (w * w) * m3) by (nonlinear_arith);
}

/// A line through the centre is its own image.
///
/// In an exact field the image is the line multiplied by the square of
/// the weight of the centre.
pub proof fn point_reflection_keeps_lines_through_the_centre<T: Num>(
    val: spec_fn(T) -> real,
    centre: Point3<T>,
    line: Line3<T>,
)
    requires
        exact(val),
        lies_on_line(val, centre, line),
    ensures
        ({
            let w = val(centre.0.e123);
            let r = centre.reflect_line_spec(line).0;
            &&& val(r.e01) == (w * w) * val(line.0.e01)
            &&& val(r.e02) == (w * w) * val(line.0.e02)
            &&& val(r.e03) == (w * w) * val(line.0.e03)
            &&& val(r.e12) == (w * w) * val(line.0.e12)
            &&& val(r.e31) == (w * w) * val(line.0.e31)
            &&& val(r.e23) == (w * w) * val(line.0.e23)
        }),
{
    let (c1, c2, c3, w) = (
        val(centre.0.e032),
        val(centre.0.e013),
        val(centre.0.e021),
        val(centre.0.e123),
    );
    let (d1, d2, d3) = (val(line.0.e23), val(line.0.e31), val(line.0.e12));
    let (m1, m2, m3) = (val(line.0.e01), val(line.0.e02), val(line.0.e03));
    point_reflection_of_line_in_space(val, centre, line);
    let a = plane_through(centre, line).0;
    assert(a == centre.0.dual_spec().bitxor_spec(line.0.dual_spec()).dual_spec());
    assert(val(a.e1) == c2 * d3 - c3 * d2 - w * m1);
    assert(val(a.e2) == c3 * d1 - c1 * d3 - w * m2);
    assert(val(a.e3) == c1 * d2 - c2 * d1 - w * m3);
    regroup(w, w, m1);
    regroup(w, w, m2);
    regroup(w, w, m3);
}

/// Reflecting a line of space twice through one point gives the line
/// back.
///
/// In an exact field the line comes back multiplied by the fourth power
/// of the weight of the centre: it is the same line, and it has the same
/// coefficients where the centre is normalized.
pub proof fn point_reflection_of_line_in_space_is_an_involution<T: Num>(
    val: spec_fn(T) -> real,
    centre: Point3<T>,
    line: Line3<T>,
)
    requires
        exact(val),
    ensures
        ({
            let w = val(centre.0.e123);
            let twice = centre.reflect_line_spec(centre.reflect_line_spec(line)).0;
            &&& val(twice.e01) == ((w * w) * (w * w)) * val(line.0.e01)
            &&& val(twice.e02) == ((w * w) * (w * w)) * val(line.0.e02)
            &&& val(twice.e03) == ((w * w) * (w * w)) * val(line.0.e03)
            &&& val(twice.e12) == ((w * w) * (w * w)) * val(line.0.e12)
            &&& val(twice.e31) == ((w * w) * (w * w)) * val(line.0.e31)
            &&& val(twice.e23) == ((w * w) * (w * w)) * val(line.0.e23)
        }),
{
    let once = centre.reflect_line_spec(line);
    point_reflection_of_line_in_space(val, centre, line);
    point_reflection_of_line_in_space(val, centre, once);
    let (c1, c2, c3, w) = (
        val(centre.0.e032),
        val(centre.0.e013),
        val(centre.0.e021),
        val(centre.0.e123),
    );
    let (d1, d2, d3) = (val(line.0.e23), val(line.0.e31), val(line.0.e12));
    let (m1, m2, m3) = (val(line.0.e01), val(line.0.e02), val(line.0.e03));
    let n = w * w;
    let (k1, k2, k3) = (c2 * d3 - c3 * d2, c3 * d1 - c1 * d3, c1 * d2 - c2 * d1);
    let twice = centre.reflect_line_spec(once).0;
    regroup(n, n, d1);
    regroup(n, n, d2);
    regroup(n, n, d3);
    regroup(n, n, m1);
    regroup(n, n, m2);
    regroup(n, n, m3);
    assert(val(twice.e01) == 2real * (w * (c2 * (n * d3) - c3 * (n * d2))) - n * (2real * (w * k1)
        - n * m1));
    assert(val(twice.e02) == 2real * (w * (c3 * (n * d1) - c1 * (n * d3))) - n * (2real * (w * k2)
        - n * m2));
    assert(val(twice.e03) == 2real * (w * (c1 * (n * d2) - c2 * (n * d1))) - n * (2real * (w * k3)
        - n * m3));
    distribute(c2 * d3, c3 * d2, n);
    distribute(c3 * d1, c1 * d3, n);
    distribute(c1 * d2, c2 * d1, n);
    assert(c2 * (n * d3) == n * (c2 * d3)) by (nonlinear_arith);
    assert(c3 * (n * d2) == n * (c3 * d2)) by (nonlinear_arith);
    assert(c3 * (n * d1) == n * (c3 * d1)) by (nonlinear_arith);
    assert(c1 * (n * d3) == n * (c1 * d3)) by (nonlinear_arith);
    assert(c1 * (n * d2) == n * (c1 * d2)) by (nonlinear_arith);
    assert(c2 * (n * d1) == n * (c2 * d1)) by (nonlinear_arith);
    assert(w * (n * k1) == n * (w * k1)) by (nonlinear_arith);
    assert(w * (n * k2) == n * (w * k2)) by (nonlinear_arith);
    assert(w * (n * k3) == n * (w * k3)) by (nonlinear_arith);
    distribute(2real * (w * k1), n * m1, n);
    distribute(2real * (w * k2), n * m2, n);
    distribute(2real * (w * k3), n * m3, n);
    assert(n * (2real * (w * k1)) == 2real * (n * (w * k1))) by (nonlinear_arith);
    assert(n * (2real * (w * k2)) == 2real * (n * (w * k2))) by (nonlinear_arith);
    assert(n * (2real * (w * k3)) == 2real * (n * (w * k3))) by (nonlinear_arith);
}

} // verus!
