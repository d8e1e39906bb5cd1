//! The motor between two lines of space that meet keeps the point where
//! they meet.

use core::ops::{Add, BitOr, BitXor, Div, Mul, Neg, Not, Sub};
use vstd::prelude::*;
use vstd::std_specs::cmp::PartialEqSpec;
use vstd::std_specs::ops::{
    AddSpec,
    BitOrSpec,
    BitXorSpec,
    DivSpec,
    MulSpec,
    NegSpec,
    NotSpec,
    SubSpec,
};

use crate::laws::exact::exact;
use crate::laws::incidence3::{lies_on_line, plane_through};
use crate::laws::line_motors3::{
    cosine,
    in_one_plane,
    product_of_lines_in_one_plane,
    product_of_lines_is_a_rotation,
};
use crate::laws::moved_points3::root_keeps_the_points_of_the_axis;
use crate::laws::reals::{distribute, distribute3};
use crate::laws::turns::{is_a_line, product_of_lines};
use crate::laws::vectors::triple_product;
use crate::pga::elements::Dual;
use crate::pga::line::Line3;
use crate::pga::motor::Motor3;
use crate::pga::point::Point3;
use crate::scalar::Num;

verus! {

/// The cross product of a point of two lines and the cross product of
/// the directions of the lines is the moment of the product of the
/// lines, as often as the weight of the point; in its first coordinate.
///
/// The lines have the directions `d` and `f` and the moments `m` and
/// `g`; the point has the coordinates `p` and the weight `w`; `e` and
/// `x` are the two parts of the bivector of the product of the lines.
proof fn on_both_lines(
    d1: real,
    d2: real,
    d3: real,
    m2: real,
    m3: real,
    f1: real,
    f2: real,
    f3: real,
    g2: real,
    g3: real,
    p1: real,
    p2: real,
    p3: real,
    w: real,
    e2: real,
    e3: real,
    x1: real,
)
    requires
        e2 == f3 * d1 - f1 * d3,
        e3 == f1 * d2 - f2 * d1,
        x1 == (g2 * d3 - g3 * d2) + (f2 * m3 - f3 * m2),
        p3 * d1 - p1 * d3 - w * m2 == 0real,
        p1 * d2 - p2 * d1 - w * m3 == 0real,
        p3 * f1 - p1 * f3 - w * g2 == 0real,
        p1 * f2 - p2 * f1 - w * g3 == 0real,
    ensures
        p2 * e3 - p3 * e2 == x1 * w,
{
    triple_product(p1, p2, p3, f1, f2, f3, d1, d2, d3);
    distribute3(p1 * d1, p2 * d2, p3 * d3, f1);
    distribute3(p1 * f1, p2 * f2, p3 * f3, d1);
    // the moment of the product, as often as the weight
    distribute(g2 * d3 - g3 * d2, f2 * m3 - f3 * m2, w);
    distribute(g2 * d3, g3 * d2, w);
    distribute(f2 * m3, f3 * m2, w);
    assert((g2 * d3) * w == (w * g2) * d3) by (nonlinear_arith);
    assert((g3 * d2) * w == (w * g3) * d2) by (nonlinear_arith);
    assert((f2 * m3) * w == f2 * (w * m3)) by (nonlinear_arith);
    assert((f3 * m2) * w == f3 * (w * m2)) by (nonlinear_arith);
    assert(w * g2 == p3 * f1 - p1 * f3 && w * g3 == p1 * f2 - p2 * f1);
    assert(w * m3 == p1 * d2 - p2 * d1 && w * m2 == p3 * d1 - p1 * d3);
    distribute(p3 * f1, p1 * f3, d3);
    distribute(p1 * f2, p2 * f1, d2);
    distribute(p1 * d2, p2 * d1, f2);
    distribute(p3 * d1, p1 * d3, f3);
    assert((p3 * f1) * d3 == f1 * (p3 * d3)) by (nonlinear_arith);
    assert((p2 * f1) * d2 == f1 * (p2 * d2)) by (nonlinear_arith);
    assert(f2 * (p2 * d1) == d1 * (p2 * f2)) by (nonlinear_arith);
    assert(f3 * (p3 * d1) == d1 * (p3 * f3)) by (nonlinear_arith);
    assert((p1 * f3) * d3 == f3 * (p1 * d3)) by (nonlinear_arith);
    assert((p1 * f2) * d2 == f2 * (p1 * d2)) by (nonlinear_arith);
    assert(f1 * (p1 * d1) == d1 * (p1 * f1)) by (nonlinear_arith);
}

/// The motor between two lines of space that meet keeps the point
/// where they meet: it turns about that point.
///
/// In an exact field, where the two lines are normalized, lie in one
/// plane and are not opposite, the point that the motor moves a point
/// of both lines to has the coefficients of the point, normalized.
pub proof fn line_line_keeps_the_point_of_both_lines<T: Num>(
    val: spec_fn(T) -> real,
    a: Line3<T>,
    b: Line3<T>,
    point: Point3<T>,
)
    requires
        exact(val),
        is_a_line(val, a),
        is_a_line(val, b),
        val(a.0.norm2_spec()) == 1real,
        val(b.0.norm2_spec()) == 1real,
        in_one_plane(val, a, b),
        cosine(val, a, b) != -1real,
        lies_on_line(val, point, a),
        lies_on_line(val, point, b),
    ensures
        ({
            let moved = Motor3::line_line_spec(a, b).move_point_spec(point).0;
            let same = point.0.normalized_spec();
            &&& val(moved.e032) == val(same.e032)
            &&& val(moved.e013) == val(same.e013)
            &&& val(moved.e021) == val(same.e021)
            &&& val(moved.e123) == val(same.e123)
        }),
{
    let (d1, d2, d3) = (val(a.0.e23), val(a.0.e31), val(a.0.e12));
    let (m1, m2, m3) = (val(a.0.e01), val(a.0.e02), val(a.0.e03));
    let (f1, f2, f3) = (val(b.0.e23), val(b.0.e31), val(b.0.e12));
    let (g1, g2, g3) = (val(b.0.e01), val(b.0.e02), val(b.0.e03));
    let (p1, p2, p3, w) = (
        val(point.0.e032),
        val(point.0.e013),
        val(point.0.e021),
        val(point.0.e123),
    );
    // the point lies on either line
    let h = plane_through(point, a).0;
    assert(h == point.0.dual_spec().bitxor_spec(a.0.dual_spec()).dual_spec());
    assert(val(h.e1) == p2 * d3 - p3 * d2 - w * m1);
    assert(val(h.e2) == p3 * d1 - p1 * d3 - w * m2);
    assert(val(h.e3) == p1 * d2 - p2 * d1 - w * m3);
    let i = plane_through(point, b).0;
    assert(i == point.0.dual_spec().bitxor_spec(b.0.dual_spec()).dual_spec());
    assert(val(i.e1) == p2 * f3 - p3 * f2 - w * g1);
    assert(val(i.e2) == p3 * f1 - p1 * f3 - w * g2);
    assert(val(i.e3) == p1 * f2 - p2 * f1 - w * g3);
    // and so on the axis of their product
    let u = product_of_lines(a, b).normalized_spec();
    product_of_lines_in_one_plane(val, a, b);
    product_of_lines_is_a_rotation(val, a, b);
    assert(Motor3::line_line_spec(a, b) == u.sqrt_spec());
    let (e1, e2, e3) = (val(u.bivector.e23), val(u.bivector.e31), val(u.bivector.e12));
    let (x1, x2, x3) = (val(u.bivector.e01), val(u.bivector.e02), val(u.bivector.e03));
    on_both_lines(d1, d2, d3, m2, m3, f1, f2, f3, g2, g3, p1, p2, p3, w, e2, e3, x1);
    on_both_lines(d2, d3, d1, m3, m1, f2, f3, f1, g3, g1, p2, p3, p1, w, e3, e1, x2);
    on_both_lines(d3, d1, d2, m1, m2, f3, f1, f2, g1, g2, p3, p1, p2, w, e1, e2, x3);
    root_keeps_the_points_of_the_axis(val, u, point);
}

} // verus!
