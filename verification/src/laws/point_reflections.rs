//! Reflecting a point or a line twice through a point gives it back.

use core::ops::{Add, BitOr, BitXor, Mul, Neg, Not, Sub};
use vstd::prelude::*;
use vstd::std_specs::ops::{AddSpec, BitOrSpec, BitXorSpec, MulSpec, NegSpec, NotSpec, SubSpec};

use crate::laws::exact::exact;
use crate::laws::incidence::lies_on;
use crate::laws::reals::{distribute, regroup, sign, zero};
use crate::pga::line::Line2;
use crate::pga::point::Point2;
use crate::scalar::Num;

verus! {

/// In an exact field, the mirror image of a point `p` through a point
/// `c` of weight `w` has the weight of `p` times `w * w`, and each of its
/// other coefficients is twice the coefficient of `c`, times `w` and the
/// weight of `p`, less `w * w` times the coefficient of `p`: it is the
/// point `2 c - p`.
pub proof fn point_reflection_of_point<T: Num>(
    val: spec_fn(T) -> real,
    centre: Point2<T>,
    point: Point2<T>,
)
    requires
        exact(val),
    ensures
        ({
            let (c1, c2, w) = (val(centre.0.e01), val(centre.0.e20), val(centre.0.e12));
            let (p1, p2, pw) = (val(point.0.e01), val(point.0.e20), val(point.0.e12));
            let r = centre.reflect_point_spec(point).0;
            &&& val(r.e12) == (w * w) * pw
            &&& val(r.e01) == 2real * ((c1 * w) * pw) - (w * w) * p1
            &&& val(r.e20) == 2real * ((c2 * w) * pw) - (w * w) * p2
        }),
{
    let (c1, c2, w) = (val(centre.0.e01), val(centre.0.e20), val(centre.0.e12));
    let (p1, p2, pw) = (val(point.0.e01), val(point.0.e20), val(point.0.e12));
    let (s, bv) = centre.0.mul_spec(point.0);
    let a = s.mul_spec(centre.0.not_spec());
    let (_s, b) = bv.mul_spec(centre.0.not_spec());
    let r = centre.reflect_point_spec(point).0;
    assert(r == a.add_spec(b));
    let k = val(s.0);
    let (b1, b2) = (val(bv.e01), val(bv.e20));
    assert(k == -(w * pw));
    assert(b1 == c2 * pw - w * p2);
    assert(b2 == w * p1 - c1 * pw);
    assert(val(bv.e12) == 0real);
    assert(val(a.e01) == k * (-c1) && val(a.e20) == k * (-c2) && val(a.e12) == k * (-w));
    zero(b1);
    zero(b2);
    zero(c1);
    zero(c2);
    assert(val(b.e01) == b2 * (-w) - 0real * (-c2));
    assert(val(b.e20) == 0real * (-c1) - b1 * (-w));
    assert(val(b.e12) == 0real);
    sign(w * pw, c1);
    sign(w * pw, c2);
    sign(w * pw, w);
    sign(b2, w);
    sign(b1, w);
    distribute(w * p1, c1 * pw, w);
    distribute(c2 * pw, w * p2, w);
    assert((w * pw) * c1 == (c1 * w) * pw) by (nonlinear_arith);
    assert((w * pw) * c2 == (c2 * w) * pw) by (nonlinear_arith);
    assert((w * pw) * w == (w * w) * pw) by (nonlinear_arith);
    assert((w * p1) * w == (w * w) * p1) by (nonlinear_arith);
    assert((w * p2) * w == (w * w) * p2) by (nonlinear_arith);
    assert((c1 * pw) * w == (c1 * w) * pw) by (nonlinear_arith);
    assert((c2 * pw) * w == (c2 * w) * pw) by (nonlinear_arith);
}

/// Reflecting a point twice through one point gives the point back.
///
/// In an exact field the point comes back multiplied by the fourth power
/// of the weight of the centre: it is the same point, and it has the
/// same coefficients where the centre is normalized.
pub proof fn point_reflection_is_an_involution<T: Num>(
    val: spec_fn(T) -> real,
    centre: Point2<T>,
    point: Point2<T>,
)
    requires
        exact(val),
    ensures
        ({
            let w = val(centre.0.e12);
            let twice = centre.reflect_point_spec(centre.reflect_point_spec(point)).0;
            &&& val(twice.e01) == ((w * w) * (w * w)) * val(point.0.e01)
            &&& val(twice.e20) == ((w * w) * (w * w)) * val(point.0.e20)
            &&& val(twice.e12) == ((w * w) * (w * w)) * val(point.0.e12)
        }),
{
    let once = centre.reflect_point_spec(point);
    point_reflection_of_point(val, centre, point);
    point_reflection_of_point(val, centre, once);
    let (c1, c2, w) = (val(centre.0.e01), val(centre.0.e20), val(centre.0.e12));
    let (p1, p2, pw) = (val(point.0.e01), val(point.0.e20), val(point.0.e12));
    let (q1, q2, qw) = (val(once.0.e01), val(once.0.e20), val(once.0.e12));
    let n = w * w;
    let (d1, d2) = (c1 * w, c2 * w);
    assert(qw == n * pw);
    assert(q1 == 2real * (d1 * pw) - n * p1);
    assert(q2 == 2real * (d2 * pw) - n * p2);
    let twice = centre.reflect_point_spec(once).0;
    assert(val(twice.e12) == n * qw);
    assert(val(twice.e01) == 2real * (d1 * qw) - n * q1);
    assert(val(twice.e20) == 2real * (d2 * qw) - n * q2);
    regroup(n, n, pw);
    regroup(n, n, p1);
    regroup(n, n, p2);
    distribute(2real * (d1 * pw), n * p1, n);
    distribute(2real * (d2 * pw), n * p2, n);
    assert(d1 * (n * pw) == n * (d1 * pw)) by (nonlinear_arith);
    assert(d2 * (n * pw) == n * (d2 * pw)) by (nonlinear_arith);
    assert(n * (2real * (d1 * pw)) == 2real * (n * (d1 * pw))) by (nonlinear_arith);
    assert(n * (2real * (d2 * pw)) == 2real * (n * (d2 * pw))) by (nonlinear_arith);
}

/// In an exact field, the mirror image of a line `l` through a point
/// `c` of weight `w` has the direction of `l`, `-(w * w)` times, and
/// the offset `w * w` times that of `l`, and twice `w` times what the
/// line makes of the centre: it is the parallel on the other side of
/// the centre.
pub proof fn point_reflection_of_line<T: Num>(
    val: spec_fn(T) -> real,
    centre: Point2<T>,
    line: Line2<T>,
)
    requires
        exact(val),
    ensures
        ({
            let (c1, c2, w) = (val(centre.0.e01), val(centre.0.e20), val(centre.0.e12));
            let (l0, l1, l2) = (val(line.0.e0), val(line.0.e1), val(line.0.e2));
            let r = centre.reflect_line_spec(line).0;
            &&& val(r.e1) == -((w * w) * l1)
            &&& val(r.e2) == -((w * w) * l2)
            &&& val(r.e0) == 2real * (w * (c1 * l2 + c2 * l1)) + (w * w) * l0
        }),
{
    let (c1, c2, w) = (val(centre.0.e01), val(centre.0.e20), val(centre.0.e12));
    let (l0, l1, l2) = (val(line.0.e0), val(line.0.e1), val(line.0.e2));
    let (v, p) = centre.0.mul_spec(line.0);
    let (a, _p) = v.mul_spec(centre.0.not_spec());
    let b = p.mul_spec(centre.0.not_spec());
    let r = centre.reflect_line_spec(line).0;
    assert(r == a.add_spec(b));
    let (v0, v1, v2) = (val(v.e0), val(v.e1), val(v.e2));
    assert(v0 == c1 * l1 - c2 * l2);
    assert(v1 == w * l2);
    assert(v2 == -(w * l1));
    let q = val(p.e012);
    assert(q == c1 * l2 + c2 * l1 + w * l0);
    assert(val(a.e0) == v2 * (-c2) - v1 * (-c1));
    assert(val(a.e1) == -(v2 * (-w)));
    assert(val(a.e2) == v1 * (-w));
    assert(val(b.e0) == -(q * (-w)));
    assert(val(b.e1) == 0real && val(b.e2) == 0real);
    sign(w * l1, c2);
    sign(w * l2, c1);
    sign(w * l1, w);
    sign(w * l2, w);
    sign(q, w);
    distribute(c1 * l2 + c2 * l1, w * l0, w);
    distribute(c1 * l2, c2 * l1, w);
    assert((w * l1) * c2 == w * (c2 * l1)) by (nonlinear_arith);
    assert((w * l2) * c1 == w * (c1 * l2)) by (nonlinear_arith);
    assert((w * l1) * w == (w * w) * l1) by (nonlinear_arith);
    assert((w * l2) * w == (w * w) * l2) by (nonlinear_arith);
    assert((w * l0) * w == (w * w) * l0) by (nonlinear_arith);
    regroup(c1 * l2, w, 1real);
    regroup(c2 * l1, w, 1real);
}

/// A line through the centre is its own image.
///
/// In an exact field the image is the line multiplied by the square of
/// the weight of the centre, and by minus one.
pub proof fn point_reflection_keeps_lines_through_the_centre<T: Num>(
    val: spec_fn(T) -> real,
    centre: Point2<T>,
    line: Line2<T>,
)
    requires
        exact(val),
        lies_on(val, centre, line),
    ensures
        ({
            let w = val(centre.0.e12);
            let r = centre.reflect_line_spec(line).0;
            &&& val(r.e0) == -((w * w) * val(line.0.e0))
            &&& val(r.e1) == -((w * w) * val(line.0.e1))
            &&& val(r.e2) == -((w * w) * val(line.0.e2))
        }),
{
    let (c1, c2, w) = (val(centre.0.e01), val(centre.0.e20), val(centre.0.e12));
    let (l0, l1, l2) = (val(line.0.e0), val(line.0.e1), val(line.0.e2));
    point_reflection_of_line(val, centre, line);
    assert(val(line.0.bitxor_spec(centre.0).e012) == l0 * w + l1 * c2 + l2 * c1);
    regroup(l1, c2, 1real);
    regroup(l2, c1, 1real);
    assert(c1 * l2 + c2 * l1 == -(l0 * w));
    sign(w, l0 * w);
    assert(w * (l0 * w) == (w * w) * l0) by (nonlinear_arith);
}

/// Reflecting a line twice through one point gives the line back.
///
/// In an exact field the line comes back multiplied by the fourth power
/// of the weight of the centre: it is the same line, and it has the same
/// coefficients where the centre is normalized.
pub proof fn point_reflection_of_line_is_an_involution<T: Num>(
    val: spec_fn(T) -> real,
    centre: Point2<T>,
    line: Line2<T>,
)
    requires
        exact(val),
    ensures
        ({
            let w = val(centre.0.e12);
            let twice = centre.reflect_line_spec(centre.reflect_line_spec(line)).0;
            &&& val(twice.e0) == ((w * w) * (w * w)) * val(line.0.e0)
            &&& val(twice.e1) == ((w * w) * (w * w)) * val(line.0.e1)
            &&& val(twice.e2) == ((w * w) * (w * w)) * val(line.0.e2)
        }),
{
    let once = centre.reflect_line_spec(line);
    point_reflection_of_line(val, centre, line);
    point_reflection_of_line(val, centre, once);
    let (c1, c2, w) = (val(centre.0.e01), val(centre.0.e20), val(centre.0.e12));
    let (l0, l1, l2) = (val(line.0.e0), val(line.0.e1), val(line.0.e2));
    let n = w * w;
    let k = c1 * l2 + c2 * l1;
    let twice = centre.reflect_line_spec(once).0;
    sign(n, n * l1);
    sign(n, n * l2);
    regroup(n, n, l0);
    regroup(n, n, l1);
    regroup(n, n, l2);
    assert(val(twice.e1) == -(n * (-(n * l1))));
    assert(val(twice.e2) == -(n * (-(n * l2))));
    assert(val(twice.e0) == 2real * (w * (c1 * (-(n * l2)) + c2 * (-(n * l1)))) + n * (2real * (w
        * k) + n * l0));
    sign(c1, n * l2);
    sign(c2, n * l1);
    assert(c1 * (n * l2) == n * (c1 * l2)) by (nonlinear_arith);
    assert(c2 * (n * l1) == n * (c2 * l1)) by (nonlinear_arith);
    distribute(c1 * l2, c2 * l1, n);
    sign(w, n * k);
    assert(w * (n * k) == n * (w * k)) by (nonlinear_arith);
    distribute(2real * (w * k), n * l0, n);
    assert(n * (2real * (w * k)) == 2real * (n * (w * k))) by (nonlinear_arith);
}

} // verus!
