//! The motor between two parallel lines of space moves the first to the
//! second.

use core::ops::{Add, BitOr, BitXor, Div, Mul, Neg, Not, Sub};
use vstd::prelude::*;
use vstd::std_specs::cmp::PartialEqSpec;
use vstd::std_specs::ops::{
    AddSpec,
    BitOrSpec,
    BitXorSpec,
    DivSpec,
    MulSpec,
    NegSpec,
    NotSpec,
    SubSpec,
};

use crate::laws::exact::exact;
use crate::laws::motors3::norm2_of_motor3;
use crate::laws::reals::{distribute, regroup, root_of_square, sign, zero};
use crate::laws::roots3::{is_translation, root_of_translation_of_space};
use crate::laws::turns::{is_a_line, product_of_lines};
use crate::pga::line::Line3;
use crate::pga::motor::Motor3;
use crate::scalar::Num;

verus! {

/// In an exact field a translation of space moves a normalized line to
/// the line with the same direction whose moment is the moment of the
/// line, plus twice the cross product of the line's direction with the
/// bivector of the translation.
pub proof fn translation_moves_line_of_space<T: Num>(
    val: spec_fn(T) -> real,
    m: Motor3<T>,
    line: Line3<T>,
)
    requires
        exact(val),
        is_translation(val, m),
        val(line.0.norm2_spec()) == 1real,
    ensures
        ({
            let moved = m.move_line_spec(line).0;
            let (x1, x2, x3) = (val(m.bivector.e01), val(m.bivector.e02), val(m.bivector.e03));
            let (k1, k2, k3) = (val(line.0.e23), val(line.0.e31), val(line.0.e12));
            &&& val(moved.e23) == k1
            &&& val(moved.e31) == k2
            &&& val(moved.e12) == k3
            &&& val(moved.e01) == val(line.0.e01) + 2real * (x3 * k2 - x2 * k3)
            &&& val(moved.e02) == val(line.0.e02) + 2real * (x1 * k3 - x3 * k1)
            &&& val(moved.e03) == val(line.0.e03) + 2real * (x2 * k1 - x1 * k2)
        }),
{
    let (x1, x2, x3) = (val(m.bivector.e01), val(m.bivector.e02), val(m.bivector.e03));
    let (l1, l2, l3) = (val(line.0.e01), val(line.0.e02), val(line.0.e03));
    let (k1, k2, k3) = (val(line.0.e23), val(line.0.e31), val(line.0.e12));
    zero(l1);
    zero(l2);
    zero(l3);
    zero(k1);
    zero(k2);
    zero(k3);
    zero(x1);
    zero(x2);
    zero(x3);
    // the sandwich product, part by part
    let bv0 = m.scalar.mul_spec(line.0);
    let (s, bv1, p) = m.bivector.mul_spec(line.0);
    let bv2 = m.pseudo.mul_spec(line.0);
    let bv = bv0.add_spec(bv1).add_spec(bv2);
    let pa = s.mul_spec(m.bivector.not_spec());
    let pb = bv.mul_spec(m.scalar.not_spec());
    let (_s, pc, _p) = bv.mul_spec(m.bivector.not_spec());
    let pd = p.mul_spec(m.bivector.not_spec());
    let pe = bv.mul_spec(m.pseudo.not_spec());
    let sum = pa.add_spec(pb).add_spec(pc).add_spec(pd).add_spec(pe);
    assert(m.move_line_spec(line) == Line3(sum.normalized_spec()));
    assert(val(bv0.e01) == 1real * l1 && val(bv0.e02) == 1real * l2 && val(bv0.e03) == 1real * l3);
    assert(val(bv0.e12) == 1real * k3 && val(bv0.e31) == 1real * k2 && val(bv0.e23) == 1real * k1);
    assert(val(s.0) == -(0real * k3 + 0real * k2 + 0real * k1));
    assert(val(bv1.e01) == x3 * k2 - x2 * k3 + 0real * l2 - 0real * l3);
    assert(val(bv1.e02) == x1 * k3 - x3 * k1 + 0real * l3 - 0real * l1);
    assert(val(bv1.e03) == x2 * k1 - x1 * k2 + 0real * l1 - 0real * l2);
    assert(val(bv1.e12) == 0real * k1 - 0real * k2);
    assert(val(bv1.e31) == 0real * k3 - 0real * k1);
    assert(val(bv1.e23) == 0real * k2 - 0real * k3);
    let pv = val(p.e0123);
    zero(pv);
    assert(val(bv2.e01) == -(0real * k1) && val(bv2.e02) == -(0real * k2) && val(bv2.e03) == -(
    0real * k3));
    let (y1, y2, y3) = (val(bv.e01), val(bv.e02), val(bv.e03));
    assert(y1 == l1 + (x3 * k2 - x2 * k3));
    assert(y2 == l2 + (x1 * k3 - x3 * k1));
    assert(y3 == l3 + (x2 * k1 - x1 * k2));
    assert(val(bv.e12) == k3 && val(bv.e31) == k2 && val(bv.e23) == k1);
    zero(y1);
    zero(y2);
    zero(y3);
    assert(val(pa.e01) == 0real * (-x1) && val(pa.e02) == 0real * (-x2) && val(pa.e03) == 0real * (
    -x3));
    assert(val(pa.e12) == 0real * (-0real) && val(pa.e31) == 0real * (-0real) && val(pa.e23)
        == 0real * (-0real));
    assert(val(pb.e01) == y1 * 1real && val(pb.e02) == y2 * 1real && val(pb.e03) == y3 * 1real);
    assert(val(pb.e12) == k3 * 1real && val(pb.e31) == k2 * 1real && val(pb.e23) == k1 * 1real);
    assert(val(pc.e01) == y3 * (-0real) - y2 * (-0real) + k3 * (-x2) - k2 * (-x3));
    assert(val(pc.e02) == y1 * (-0real) - y3 * (-0real) + k1 * (-x3) - k3 * (-x1));
    assert(val(pc.e03) == y2 * (-0real) - y1 * (-0real) + k2 * (-x1) - k1 * (-x2));
    assert(val(pc.e12) == k2 * (-0real) - k1 * (-0real));
    assert(val(pc.e31) == k1 * (-0real) - k3 * (-0real));
    assert(val(pc.e23) == k3 * (-0real) - k2 * (-0real));
    assert(val(pd.e01) == -(pv * (-0real)) && val(pd.e02) == -(pv * (-0real)) && val(pd.e03) == -(
    pv * (-0real)));
    assert(val(pe.e01) == -(k1 * 0real) && val(pe.e02) == -(k2 * 0real) && val(pe.e03) == -(k3
        * 0real));
    sign(k3, x2);
    sign(k2, x3);
    sign(k1, x3);
    sign(k3, x1);
    sign(k2, x1);
    sign(k1, x2);
    regroup(k3, x2, 1real);
    regroup(k2, x3, 1real);
    regroup(k1, x3, 1real);
    regroup(k3, x1, 1real);
    regroup(k2, x1, 1real);
    regroup(k1, x2, 1real);
    let (s1, s2, s3) = (val(sum.e01), val(sum.e02), val(sum.e03));
    assert(val(sum.e12) == k3 && val(sum.e31) == k2 && val(sum.e23) == k1);
    assert(s1 == l1 + 2real * (x3 * k2 - x2 * k3));
    assert(s2 == l2 + 2real * (x1 * k3 - x3 * k1));
    assert(s3 == l3 + 2real * (x2 * k1 - x1 * k2));
    // the line has the norm one, so that normalizing changes nothing
    assert(val(sum.norm2_spec()) == k3 * k3 + k2 * k2 + k1 * k1);
    assert(val(line.0.norm2_spec()) == k3 * k3 + k2 * k2 + k1 * k1);
    let n = val(sum.norm_spec());
    root_of_square(n, 1real);
    let moved = sum.normalized_spec();
    assert(val(moved.e01) * 1real == s1);
    assert(val(moved.e02) * 1real == s2);
    assert(val(moved.e03) * 1real == s3);
    assert(val(moved.e12) * 1real == k3);
    assert(val(moved.e31) * 1real == k2);
    assert(val(moved.e23) * 1real == k1);
}

/// The cross product of a unit vector `d` with the cross product of a
/// vector `t` with `d` is `t`, where `t` is perpendicular to `d`.
proof fn back_cross(d1: real, d2: real, d3: real, t1: real, t2: real, t3: real)
    requires
        d1 * d1 + d2 * d2 + d3 * d3 == 1real,
        t1 * d1 + t2 * d2 + t3 * d3 == 0real,
    ensures
        (d2 * t1 - d1 * t2) * d2 - (d1 * t3 - d3 * t1) * d3 == t1,
{
    distribute(d2 * t1, d1 * t2, d2);
    distribute(d1 * t3, d3 * t1, d3);
    assert((d2 * t1) * d2 == t1 * (d2 * d2)) by (nonlinear_arith);
    assert((d3 * t1) * d3 == t1 * (d3 * d3)) by (nonlinear_arith);
    assert((d1 * t2) * d2 == d1 * (t2 * d2)) by (nonlinear_arith);
    assert((d1 * t3) * d3 == d1 * (t3 * d3)) by (nonlinear_arith);
    assert(t1 * (d1 * d1) == d1 * (t1 * d1)) by (nonlinear_arith);
    assert(t1 * (d1 * d1 + d2 * d2 + d3 * d3) == t1 * (d1 * d1) + t1 * (d2 * d2) + t1 * (d3 * d3))
        by (nonlinear_arith);
    assert(d1 * (t1 * d1 + t2 * d2 + t3 * d3) == d1 * (t1 * d1) + d1 * (t2 * d2) + d1 * (t3 * d3))
        by (nonlinear_arith);
    assert(t1 * 1real == t1 && d1 * 0real == 0real);
}

/// The motor between two parallel lines of space moves the first to the
/// second.
///
/// In an exact field, where the two lines are normalized and have the
/// same direction, the motor between them is a translation, and the
/// line that it moves `a` to has the coefficients of `b`.
pub proof fn line_line_moves_first_to_parallel_in_space<T: Num>(
    val: spec_fn(T) -> real,
    a: Line3<T>,
    b: Line3<T>,
)
    requires
        exact(val),
        is_a_line(val, a),
        is_a_line(val, b),
        val(a.0.norm2_spec()) == 1real,
        val(b.0.e23) == val(a.0.e23),
        val(b.0.e31) == val(a.0.e31),
        val(b.0.e12) == val(a.0.e12),
    ensures
        ({
            let motor = Motor3::line_line_spec(a, b);
            let moved = motor.move_line_spec(a).0;
            &&& is_translation(val, motor)
            &&& val(moved.e01) == val(b.0.e01)
            &&& val(moved.e02) == val(b.0.e02)
            &&& val(moved.e03) == val(b.0.e03)
            &&& val(moved.e12) == val(b.0.e12)
            &&& val(moved.e31) == val(b.0.e31)
            &&& val(moved.e23) == val(b.0.e23)
        }),
{
    let (d1, d2, d3) = (val(a.0.e23), val(a.0.e31), val(a.0.e12));
    let (p1, p2, p3) = (val(a.0.e01), val(a.0.e02), val(a.0.e03));
    let (q1, q2, q3) = (val(b.0.e01), val(b.0.e02), val(b.0.e03));
    assert(d3 * d3 + d2 * d2 + d1 * d1 == 1real);
    // the product of the lines is a translation
    let d = product_of_lines(a, b);
    sign(d1, d1);
    sign(d2, d2);
    sign(d3, d3);
    sign(d1, d2);
    sign(d2, d1);
    sign(d1, d3);
    sign(d3, d1);
    sign(d2, d3);
    sign(d3, d2);
    sign(q3, d2);
    sign(q2, d3);
    sign(d3, p2);
    sign(d2, p3);
    sign(q1, d3);
    sign(q3, d1);
    sign(d1, p3);
    sign(d3, p1);
    sign(q2, d1);
    sign(q1, d2);
    sign(d2, p1);
    sign(d1, p2);
    sign(d3, p3);
    sign(d2, p2);
    sign(d1, p1);
    sign(q1, d1);
    sign(q2, d2);
    sign(q3, d3);
    assert(val(d.scalar.0) == -(d3 * (-d3) + d2 * (-d2) + d1 * (-d1)));
    assert(val(d.scalar.0) == 1real);
    let (g1, g2, g3) = (val(d.bivector.e01), val(d.bivector.e02), val(d.bivector.e03));
    assert(g1 == q3 * (-d2) - q2 * (-d3) + d3 * (-p2) - d2 * (-p3));
    assert(g2 == q1 * (-d3) - q3 * (-d1) + d1 * (-p3) - d3 * (-p1));
    assert(g3 == q2 * (-d1) - q1 * (-d2) + d2 * (-p1) - d1 * (-p2));
    assert(val(d.bivector.e12) == d2 * (-d1) - d1 * (-d2));
    assert(val(d.bivector.e31) == d1 * (-d3) - d3 * (-d1));
    assert(val(d.bivector.e23) == d3 * (-d2) - d2 * (-d3));
    assert(d1 * d2 == d2 * d1 && d1 * d3 == d3 * d1 && d2 * d3 == d3 * d2);
    assert(val(d.pseudo.e0123) == d3 * (-p3) + d2 * (-p2) + d1 * (-p1) + q1 * (-d1) + q2 * (-d2)
        + q3 * (-d3));
    assert(d3 * p3 == p3 * d3 && d2 * p2 == p2 * d2 && d1 * p1 == p1 * d1);
    assert(val(d.pseudo.e0123) == 0real);
    assert(is_translation(val, d));
    // normalizing changes nothing, and the root halves the bivector
    norm2_of_motor3(val, d);
    assert(val(d.norm2_spec()) == 1real * 1real + (0real * 0real + 0real * 0real + 0real * 0real));
    let n = val(d.norm_spec());
    root_of_square(n, 1real);
    let u = d.normalized_spec();
    assert(val(u.scalar.0) * 1real == 1real);
    assert(val(u.bivector.e01) * 1real == g1);
    assert(val(u.bivector.e02) * 1real == g2);
    assert(val(u.bivector.e03) * 1real == g3);
    assert(val(u.bivector.e12) * 1real == 0real);
    assert(val(u.bivector.e31) * 1real == 0real);
    assert(val(u.bivector.e23) * 1real == 0real);
    assert(val(u.pseudo.e0123) * 1real == 0real);
    root_of_translation_of_space(val, u);
    let m = Motor3::line_line_spec(a, b);
    assert(m == u.sqrt_spec());
    let (x1, x2, x3) = (val(m.bivector.e01), val(m.bivector.e02), val(m.bivector.e03));
    assert(x1 * 2real == g1 && x2 * 2real == g2 && x3 * 2real == g3);
    // the translation moves the moment of the line by the difference
    translation_moves_line_of_space(val, m, a);
    let (t1, t2, t3) = (q1 - p1, q2 - p2, q3 - p3);
    distribute(q1, p1, d1);
    distribute(q2, p2, d2);
    distribute(q3, p3, d3);
    assert(t1 * d1 + t2 * d2 + t3 * d3 == 0real);
    distribute(q2, p2, d3);
    distribute(q3, p3, d2);
    distribute(q3, p3, d1);
    distribute(q1, p1, d3);
    distribute(q1, p1, d2);
    distribute(q2, p2, d1);
    assert(q3 * d2 == d2 * q3 && q2 * d3 == d3 * q2 && q1 * d3 == d3 * q1 && q3 * d1 == d1 * q3
        && q2 * d1 == d1 * q2 && q1 * d2 == d2 * q1);
    assert(g1 == d3 * t2 - d2 * t3);
    assert(g2 == d1 * t3 - d3 * t1);
    assert(g3 == d2 * t1 - d1 * t2);
    back_cross(d1, d2, d3, t1, t2, t3);
    assert(d2 * d2 + d3 * d3 + d1 * d1 == 1real && t2 * d2 + t3 * d3 + t1 * d1 == 0real);
    back_cross(d2, d3, d1, t2, t3, t1);
    assert(d3 * d3 + d1 * d1 + d2 * d2 == 1real && t3 * d3 + t1 * d1 + t2 * d2 == 0real);
    back_cross(d3, d1, d2, t3, t1, t2);
    assert(2real * (x3 * d2 - x2 * d3) == (x3 * 2real) * d2 - (x2 * 2real) * d3)
        by (nonlinear_arith);
    assert(2real * (x1 * d3 - x3 * d1) == (x1 * 2real) * d3 - (x3 * 2real) * d1)
        by (nonlinear_arith);
    assert(2real * (x2 * d1 - x1 * d2) == (x2 * 2real) * d1 - (x1 * 2real) * d2)
        by (nonlinear_arith);
}

} // verus!
