//! The motor between two lines moves the first to the second.

use core::ops::{Add, BitOr, BitXor, Div, Mul, Neg, Not, Sub};
use vstd::prelude::*;
use vstd::std_specs::cmp::PartialEqSpec;
use vstd::std_specs::ops::{
    AddSpec,
    BitOrSpec,
    BitXorSpec,
    DivSpec,
    MulSpec,
    NegSpec,
    NotSpec,
    SubSpec,
};

use crate::laws::exact::{exact, exact_angles};
use crate::laws::motors::{norm2_of_motor2, normalized_motor2_is_unit, power_of_translation};
use crate::laws::reals::{cancel, distribute, distribute3, regroup, root_of_square, sign, zero};
use crate::laws::rotations::{power_of_rotation, square_of_root_of_rotation};
use crate::pga::line::Line2;
use crate::pga::motor::Motor2;
use crate::scalar::Num;

verus! {

/// In an exact field the square of a motor of norm one has the scalar
/// `c * c - w * w` and twice `c` times the bivector for its bivector,
/// where `c` is the scalar of the motor and `w` the weight of its
/// bivector.
pub proof fn square_of_unit_motor<T: Num>(val: spec_fn(T) -> real, r: Motor2<T>)
    requires
        exact(val),
        val(r.norm2_spec()) == 1real,
    ensures
        ({
            let c = val(r.scalar.0);
            let square = r.compose_spec(r);
            &&& val(square.scalar.0) == c * c - val(r.bivector.e12) * val(r.bivector.e12)
            &&& val(square.bivector.e01) == 2real * (c * val(r.bivector.e01))
            &&& val(square.bivector.e20) == 2real * (c * val(r.bivector.e20))
            &&& val(square.bivector.e12) == 2real * (c * val(r.bivector.e12))
        }),
{
    let c = val(r.scalar.0);
    let (r1, r2, w) = (val(r.bivector.e01), val(r.bivector.e20), val(r.bivector.e12));
    norm2_of_motor2(val, r);
    let s0 = r.scalar.mul_spec(r.scalar);
    let bv0 = r.scalar.mul_spec(r.bivector);
    let bv1 = r.bivector.mul_spec(r.scalar);
    let (s1, bv2) = r.bivector.mul_spec(r.bivector);
    let product = Motor2 { scalar: s0.add_spec(s1), bivector: bv0.add_spec(bv1).add_spec(bv2) };
    assert(r.compose_spec(r) == product.normalized_spec());
    let ps = val(product.scalar.0);
    let (q1, q2, pw) = (
        val(product.bivector.e01),
        val(product.bivector.e20),
        val(product.bivector.e12),
    );
    assert(ps == c * c + (-(w * w)));
    assert(q1 == c * r1 + r1 * c + (r2 * w - w * r2));
    assert(q2 == c * r2 + r2 * c + (w * r1 - r1 * w));
    assert(pw == c * w + w * c + 0real);
    assert(r1 * c == c * r1 && r2 * c == c * r2 && w * c == c * w && r2 * w == w * r2 && w * r1
        == r1 * w);
    // its norm is the square of the norm of the motor
    norm2_of_motor2(val, product);
    let (cc, ww, cw) = (c * c, w * w, c * w);
    assert((cc - ww) * (cc - ww) == cc * cc + ww * ww - 2real * (cc * ww)) by (nonlinear_arith);
    assert((2real * cw) * (2real * cw) == 4real * (cw * cw)) by (nonlinear_arith);
    assert((c * w) * (c * w) == (c * c) * (w * w)) by (nonlinear_arith);
    assert((cc + ww) * (cc + ww) == cc * cc + ww * ww + 2real * (cc * ww)) by (nonlinear_arith);
    assert(val(product.norm2_spec()) == (cc + ww) * (cc + ww));
    assert(val(product.norm2_spec()) == 1real * 1real);
    let n = val(product.norm_spec());
    root_of_square(n, 1real);
    let square = product.normalized_spec();
    assert(val(square.scalar.0) * 1real == ps);
    assert(val(square.bivector.e01) * 1real == q1);
    assert(val(square.bivector.e20) * 1real == q2);
    assert(val(square.bivector.e12) * 1real == pw);
}

/// The inner and the outer product of the normals of two normalized
/// lines are the cosine and the sine of the angle between the lines:
/// their squares add up to one.
proof fn cosine_and_sine(a1: real, a2: real, b1: real, b2: real)
    requires
        a1 * a1 + a2 * a2 == 1real,
        b1 * b1 + b2 * b2 == 1real,
    ensures
        (b1 * a1 + b2 * a2) * (b1 * a1 + b2 * a2) + (b1 * a2 - b2 * a1) * (b1 * a2 - b2 * a1)
            == 1real,
{
    let (p, q, r, u) = (b1 * a1, b2 * a2, b1 * a2, b2 * a1);
    assert((p + q) * (p + q) == p * p + 2real * (p * q) + q * q) by (nonlinear_arith);
    assert((r - u) * (r - u) == r * r - 2real * (r * u) + u * u) by (nonlinear_arith);
    assert((b1 * a1) * (b2 * a2) == (b1 * a2) * (b2 * a1)) by (nonlinear_arith);
    assert((b1 * a1) * (b1 * a1) == (b1 * b1) * (a1 * a1)) by (nonlinear_arith);
    assert((b2 * a2) * (b2 * a2) == (b2 * b2) * (a2 * a2)) by (nonlinear_arith);
    assert((b1 * a2) * (b1 * a2) == (b1 * b1) * (a2 * a2)) by (nonlinear_arith);
    assert((b2 * a1) * (b2 * a1) == (b2 * b2) * (a1 * a1)) by (nonlinear_arith);
    distribute(b1 * b1, b2 * b2, a1 * a1 + a2 * a2);
    distribute(a1 * a1, a2 * a2, b1 * b1);
    distribute(a1 * a1, a2 * a2, b2 * b2);
    assert((p + q) * (p + q) + (r - u) * (r - u) == (b1 * b1 + b2 * b2) * (a1 * a1 + a2 * a2));
}

/// What is left of `s * a + d * a'` where `s` and `d` are the cosine and
/// the sine between a normalized line `a` and a line `b`, and `a'` is `a`
/// turned by a right angle: the line `b`.
proof fn turned(a1: real, a2: real, b1: real, b2: real)
    requires
        a1 * a1 + a2 * a2 == 1real,
    ensures
        (b1 * a1 + b2 * a2) * a1 + (b1 * a2 - b2 * a1) * a2 == b1,
        (b1 * a1 + b2 * a2) * a2 - (b1 * a2 - b2 * a1) * a1 == b2,
{
    distribute(b1 * a1, b2 * a2, a1);
    distribute(b1 * a2, b2 * a1, a2);
    distribute(b1 * a1, b2 * a2, a2);
    distribute(b1 * a2, b2 * a1, a1);
    distribute(a1 * a1, a2 * a2, b1);
    distribute(a1 * a1, a2 * a2, b2);
    assert((b1 * a1) * a1 == b1 * (a1 * a1)) by (nonlinear_arith);
    assert((b1 * a2) * a2 == b1 * (a2 * a2)) by (nonlinear_arith);
    assert((b2 * a2) * a1 == (b2 * a1) * a2) by (nonlinear_arith);
    assert((b2 * a2) * a2 == b2 * (a2 * a2)) by (nonlinear_arith);
    assert((b2 * a1) * a1 == b2 * (a1 * a1)) by (nonlinear_arith);
    assert((b1 * a1) * a2 == (b1 * a2) * a1) by (nonlinear_arith);
}

/// The offset of the line that the motor between two lines makes of the
/// first: the offset of the second.
proof fn offset(a0: real, a1: real, a2: real, b0: real, b1: real, b2: real)
    requires
        a1 * a1 + a2 * a2 == 1real,
    ensures
        (b1 * a1 + b2 * a2) * a0 + (b0 * a1 - b1 * a0) * a1 - (b2 * a0 - b0 * a2) * a2 == b0,
        (b0 * a1 - b1 * a0) * a2 + (b2 * a0 - b0 * a2) * a1 + (b1 * a2 - b2 * a1) * a0 == 0real,
{
    distribute(b1 * a1, b2 * a2, a0);
    distribute(b0 * a1, b1 * a0, a1);
    distribute(b2 * a0, b0 * a2, a2);
    distribute(a1 * a1, a2 * a2, b0);
    assert((b1 * a1) * a0 == (b1 * a0) * a1) by (nonlinear_arith);
    assert((b2 * a2) * a0 == (b2 * a0) * a2) by (nonlinear_arith);
    assert((b0 * a1) * a1 == b0 * (a1 * a1)) by (nonlinear_arith);
    assert((b0 * a2) * a2 == b0 * (a2 * a2)) by (nonlinear_arith);
    distribute(b0 * a1, b1 * a0, a2);
    distribute(b2 * a0, b0 * a2, a1);
    distribute(b1 * a2, b2 * a1, a0);
    assert((b0 * a1) * a2 == (b0 * a2) * a1) by (nonlinear_arith);
    assert((b1 * a0) * a2 == (b1 * a2) * a0) by (nonlinear_arith);
    assert((b2 * a0) * a1 == (b2 * a1) * a0) by (nonlinear_arith);
}

/// The motor between two lines moves the first to the second.
///
/// In an exact field with exact angles, where the two lines are
/// normalized and meet in a point, the line that the motor moves `a` to
/// has the coefficients of `b`. The motor turns about that point.
pub proof fn line_line_moves_first_to_second<T: Num>(
    val: spec_fn(T) -> real,
    a: Line2<T>,
    b: Line2<T>,
)
    requires
        exact(val),
        exact_angles(val),
        val(a.0.norm2_spec()) == 1real,
        val(b.0.norm2_spec()) == 1real,
        val(b.0.e1) * val(a.0.e2) - val(b.0.e2) * val(a.0.e1) != 0real,
    ensures
        ({
            let moved = Motor2::line_line_spec(a, b).move_line_spec(a);
            &&& val(moved.0.e0) == val(b.0.e0)
            &&& val(moved.0.e1) == val(b.0.e1)
            &&& val(moved.0.e2) == val(b.0.e2)
        }),
{
    let (a0, a1, a2) = (val(a.0.e0), val(a.0.e1), val(a.0.e2));
    let (b0, b1, b2) = (val(b.0.e0), val(b.0.e1), val(b.0.e2));
    assert(a1 * a1 + a2 * a2 == 1real);
    assert(b1 * b1 + b2 * b2 == 1real);
    // the product of the lines has the norm one
    let (s, bv) = b.0.not_spec().mul_spec(a.0.not_spec());
    let double = Motor2 { scalar: s, bivector: bv };
    let sd = val(s.0);
    let (d1, d2, d3) = (val(bv.e01), val(bv.e20), val(bv.e12));
    assert(sd == b1 * a1 + b2 * a2);
    assert(d1 == b0 * a1 - b1 * a0);
    assert(d2 == b2 * a0 - b0 * a2);
    assert(d3 == b1 * a2 - b2 * a1);
    cosine_and_sine(a1, a2, b1, b2);
    norm2_of_motor2(val, double);
    assert(val(double.norm2_spec()) == 1real);
    let n = val(double.norm_spec());
    root_of_square(n, 1real);
    let unit = double.normalized_spec();
    assert(val(unit.scalar.0) * 1real == sd);
    assert(val(unit.bivector.e01) * 1real == d1);
    assert(val(unit.bivector.e20) * 1real == d2);
    assert(val(unit.bivector.e12) * 1real == d3);
    normalized_motor2_is_unit(val, double);
    // the square of its root is the product
    let m = Motor2::line_line_spec(a, b);
    assert(m == unit.sqrt_spec());
    power_of_rotation(val, unit, T::ONE.div_spec(T::TWO));
    square_of_root_of_rotation(val, unit);
    square_of_unit_motor(val, m);
    let c = val(m.scalar.0);
    let (m1, m2, w) = (val(m.bivector.e01), val(m.bivector.e20), val(m.bivector.e12));
    assert(c * c - w * w == sd);
    assert(2real * (c * m1) == d1);
    assert(2real * (c * m2) == d2);
    assert(2real * (c * w) == d3);
    assert(c != 0real) by {
        if c == 0real {
            zero(w);
            assert(c * w == 0real * w);
        }
    }
    // the point that the motor turns about lies on the line
    let p = m1 * a2 + m2 * a1 + w * a0;
    offset(a0, a1, a2, b0, b1, b2);
    distribute3(m1 * a2, m2 * a1, w * a0, 2real * c);
    assert((2real * c) * (m1 * a2) == (2real * (c * m1)) * a2) by (nonlinear_arith);
    assert((2real * c) * (m2 * a1) == (2real * (c * m2)) * a1) by (nonlinear_arith);
    assert((2real * c) * (w * a0) == (2real * (c * w)) * a0) by (nonlinear_arith);
    assert((2real * c) * p == 0real);
    zero(2real * c);
    assert(p * (2real * c) == 0real * (2real * c)) by {
        regroup(p, 2real * c, 1real);
    }
    cancel(p, 0real, 2real * c);
    // the sandwich product, part by part
    let v0 = m.scalar.mul_spec(a.0);
    let (v1, ps) = m.bivector.mul_spec(a.0);
    let v = v0.add_spec(v1);
    let pa = v.mul_spec(m.scalar.not_spec());
    let (pb, _p) = v.mul_spec(m.bivector.not_spec());
    let pc = ps.mul_spec(m.bivector.not_spec());
    let sum = pa.add_spec(pb).add_spec(pc);
    assert(m.move_line_spec(a) == Line2(sum.normalized_spec()));
    let (x0, x1, x2) = (val(v.e0), val(v.e1), val(v.e2));
    assert(x0 == c * a0 + (m1 * a1 - m2 * a2));
    assert(x1 == c * a1 + w * a2);
    assert(x2 == c * a2 + (-(w * a1)));
    assert(val(ps.e012) == p);
    assert(val(pa.e0) == x0 * c && val(pa.e1) == x1 * c && val(pa.e2) == x2 * c);
    assert(val(pb.e0) == x2 * (-m2) - x1 * (-m1));
    assert(val(pb.e1) == -(x2 * (-w)));
    assert(val(pb.e2) == x1 * (-w));
    zero(w);
    assert(val(pc.e0) == -(0real * (-w)));
    assert(val(pc.e1) == 0real && val(pc.e2) == 0real);
    sign(x2, m2);
    sign(x1, m1);
    sign(x2, w);
    sign(x1, w);
    let (r0, r1, r2) = (val(sum.e0), val(sum.e1), val(sum.e2));
    assert(r1 == x1 * c + x2 * w);
    assert(r2 == x2 * c - x1 * w);
    assert(r0 == x0 * c + (x1 * m1 - x2 * m2));
    // the direction of the line: turned by the angle between the lines
    distribute(c * a1, w * a2, c);
    distribute(c * a2, w * a1, w);
    distribute(c * a2, w * a1, c);
    distribute(c * a1, w * a2, w);
    distribute(c * c, w * w, a1);
    distribute(c * c, w * w, a2);
    assert((c * a1) * c == (c * c) * a1) by (nonlinear_arith);
    assert((w * a2) * c == (c * w) * a2) by (nonlinear_arith);
    assert((c * a2) * w == (c * w) * a2) by (nonlinear_arith);
    assert((w * a1) * w == (w * w) * a1) by (nonlinear_arith);
    assert((c * a2) * c == (c * c) * a2) by (nonlinear_arith);
    assert((w * a1) * c == (c * w) * a1) by (nonlinear_arith);
    assert((c * a1) * w == (c * w) * a1) by (nonlinear_arith);
    assert((w * a2) * w == (w * w) * a2) by (nonlinear_arith);
    assert((2real * (c * w)) * a2 == 2real * ((c * w) * a2)) by (nonlinear_arith);
    assert((2real * (c * w)) * a1 == 2real * ((c * w) * a1)) by (nonlinear_arith);
    assert(r1 == sd * a1 + d3 * a2);
    assert(r2 == sd * a2 - d3 * a1);
    turned(a1, a2, b1, b2);
    assert(r1 == b1);
    assert(r2 == b2);
    // the offset of the line
    distribute(c * a0, m1 * a1 - m2 * a2, c);
    distribute(m1 * a1, m2 * a2, c);
    distribute(c * a1, w * a2, m1);
    distribute(c * a2, w * a1, m2);
    assert((c * a0) * c == (c * c) * a0) by (nonlinear_arith);
    assert((m1 * a1) * c == (c * m1) * a1) by (nonlinear_arith);
    assert((m2 * a2) * c == (c * m2) * a2) by (nonlinear_arith);
    assert((c * a1) * m1 == (c * m1) * a1) by (nonlinear_arith);
    assert((w * a2) * m1 == w * (m1 * a2)) by (nonlinear_arith);
    assert((c * a2) * m2 == (c * m2) * a2) by (nonlinear_arith);
    assert((w * a1) * m2 == w * (m2 * a1)) by (nonlinear_arith);
    assert((2real * (c * m1)) * a1 == 2real * ((c * m1) * a1)) by (nonlinear_arith);
    assert((2real * (c * m2)) * a2 == 2real * ((c * m2) * a2)) by (nonlinear_arith);
    // w (m1 a2 + m2 a1) = -(w w) a0, as the point lies on the line
    distribute(m1 * a2, m2 * a1, w);
    distribute3(m1 * a2, m2 * a1, w * a0, w);
    zero(w);
    assert(w * p == w * 0real);
    assert(w * (w * a0) == (w * w) * a0) by (nonlinear_arith);
    assert(w * (m1 * a2) + w * (m2 * a1) == -((w * w) * a0));
    distribute(c * c, w * w, a0);
    assert(r0 == sd * a0 + d1 * a1 - d2 * a2);
    assert(r0 == b0);
    // the line has the norm one, so that normalizing changes nothing
    assert(val(sum.norm2_spec()) == r1 * r1 + r2 * r2);
    let k = val(sum.norm_spec());
    root_of_square(k, 1real);
    let moved = sum.normalized_spec();
    assert(val(moved.e0) * 1real == r0);
    assert(val(moved.e1) * 1real == r1);
    assert(val(moved.e2) * 1real == r2);
}

/// The motor between two parallel lines moves the first to the second.
///
/// In an exact field, where the two lines are normalized and have the
/// same normal, the motor between them is a translation, and the line
/// that it moves `a` to has the coefficients of `b`.
pub proof fn line_line_moves_first_to_parallel<T: Num>(
    val: spec_fn(T) -> real,
    a: Line2<T>,
    b: Line2<T>,
)
    requires
        exact(val),
        val(a.0.norm2_spec()) == 1real,
        val(b.0.e1) == val(a.0.e1),
        val(b.0.e2) == val(a.0.e2),
    ensures
        ({
            let motor = Motor2::line_line_spec(a, b);
            let moved = motor.move_line_spec(a);
            &&& val(motor.scalar.0) == 1real
            &&& val(motor.bivector.e12) == 0real
            &&& val(moved.0.e0) == val(b.0.e0)
            &&& val(moved.0.e1) == val(b.0.e1)
            &&& val(moved.0.e2) == val(b.0.e2)
        }),
{
    let (a0, a1, a2) = (val(a.0.e0), val(a.0.e1), val(a.0.e2));
    let b0 = val(b.0.e0);
    assert(a1 * a1 + a2 * a2 == 1real);
    // the product of the lines is a translation
    let (s, bv) = b.0.not_spec().mul_spec(a.0.not_spec());
    let double = Motor2 { scalar: s, bivector: bv };
    let sd = val(s.0);
    let (d1, d2, d3) = (val(bv.e01), val(bv.e20), val(bv.e12));
    assert(sd == a1 * a1 + a2 * a2);
    assert(d1 == b0 * a1 - a1 * a0);
    assert(d2 == a2 * a0 - b0 * a2);
    assert(d3 == a1 * a2 - a2 * a1);
    assert(a1 * a2 == a2 * a1);
    norm2_of_motor2(val, double);
    assert(val(double.norm2_spec()) == 1real * 1real + 0real * 0real);
    let n = val(double.norm_spec());
    root_of_square(n, 1real);
    let unit = double.normalized_spec();
    assert(val(unit.scalar.0) * 1real == sd);
    assert(val(unit.bivector.e01) * 1real == d1);
    assert(val(unit.bivector.e20) * 1real == d2);
    assert(val(unit.bivector.e12) * 1real == d3);
    // its root is half the translation
    let half = T::ONE.div_spec(T::TWO);
    let h = val(half);
    assert(h * 2real == 1real);
    let m = Motor2::line_line_spec(a, b);
    assert(m == unit.pow_spec(half));
    power_of_translation(val, unit, half);
    let (m1, m2) = (val(m.bivector.e01), val(m.bivector.e20));
    regroup(d1, h, 2real);
    regroup(d2, h, 2real);
    assert(m1 * 2real == d1);
    assert(m2 * 2real == d2);
    // the sandwich product, part by part
    let v0 = m.scalar.mul_spec(a.0);
    let (v1, ps) = m.bivector.mul_spec(a.0);
    let v = v0.add_spec(v1);
    let pa = v.mul_spec(m.scalar.not_spec());
    let (pb, _p) = v.mul_spec(m.bivector.not_spec());
    let pc = ps.mul_spec(m.bivector.not_spec());
    let sum = pa.add_spec(pb).add_spec(pc);
    assert(m.move_line_spec(a) == Line2(sum.normalized_spec()));
    let (x0, x1, x2) = (val(v.e0), val(v.e1), val(v.e2));
    zero(a0);
    zero(a1);
    zero(a2);
    assert(x0 == 1real * a0 + (m1 * a1 - m2 * a2));
    assert(x1 == 1real * a1 + 0real * a2);
    assert(x2 == 1real * a2 + (-(0real * a1)));
    assert(val(pa.e0) == x0 * 1real && val(pa.e1) == x1 * 1real && val(pa.e2) == x2 * 1real);
    assert(val(pb.e0) == x2 * (-m2) - x1 * (-m1));
    zero(x1);
    zero(x2);
    assert(val(pb.e1) == -(x2 * (-0real)));
    assert(val(pb.e2) == x1 * (-0real));
    zero(val(ps.e012));
    assert(val(pc.e0) == -(val(ps.e012) * (-0real)));
    assert(val(pc.e1) == 0real && val(pc.e2) == 0real);
    sign(a2, m2);
    sign(a1, m1);
    let (r0, r1, r2) = (val(sum.e0), val(sum.e1), val(sum.e2));
    assert(r1 == a1);
    assert(r2 == a2);
    regroup(a2, m2, 1real);
    regroup(a1, m1, 1real);
    assert(r0 == a0 + 2real * (m1 * a1) - 2real * (m2 * a2));
    assert(2real * (m1 * a1) == (m1 * 2real) * a1) by (nonlinear_arith);
    assert(2real * (m2 * a2) == (m2 * 2real) * a2) by (nonlinear_arith);
    distribute(b0 * a1, a1 * a0, a1);
    distribute(a2 * a0, b0 * a2, a2);
    distribute(a1 * a1, a2 * a2, a0);
    distribute(a1 * a1, a2 * a2, b0);
    assert((b0 * a1) * a1 == b0 * (a1 * a1)) by (nonlinear_arith);
    assert((a1 * a0) * a1 == a0 * (a1 * a1)) by (nonlinear_arith);
    assert((a2 * a0) * a2 == a0 * (a2 * a2)) by (nonlinear_arith);
    assert((b0 * a2) * a2 == b0 * (a2 * a2)) by (nonlinear_arith);
    assert(r0 == b0);
    // the line has the norm one, so that normalizing changes nothing
    assert(val(sum.norm2_spec()) == r1 * r1 + r2 * r2);
    let k = val(sum.norm_spec());
    root_of_square(k, 1real);
    let moved = sum.normalized_spec();
    assert(val(moved.e0) * 1real == r0);
    assert(val(moved.e1) * 1real == r1);
    assert(val(moved.e2) * 1real == r2);
}

} // verus!
