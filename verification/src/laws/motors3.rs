//! Motors of space: their norm, and the motor between two points.

use core::ops::{Add, BitOr, Div, Mul, Neg, Not, Sub};
use vstd::prelude::*;
use vstd::std_specs::cmp::PartialEqSpec;
use vstd::std_specs::ops::{AddSpec, BitOrSpec, DivSpec, MulSpec, NegSpec, NotSpec, SubSpec};

use crate::laws::exact::exact;
use crate::laws::reals::{cancel, distribute, regroup, root_of_square, sign, zero};
use crate::pga::elements::{BiVector3, Pseudo3};
use crate::pga::motor::Motor3;
use crate::pga::point::Point3;
use crate::scalar::Num;

verus! {

/// In an exact field the squared norm of a motor of space is the sum of
/// the squares of its scalar and of the Euclidean coefficients of its
/// bivector.
pub proof fn norm2_of_motor3<T: Num>(val: spec_fn(T) -> real, m: Motor3<T>)
    requires
        exact(val),
    ensures
        val(m.norm2_spec()) == val(m.scalar.0) * val(m.scalar.0) + (val(m.bivector.e12) * val(
            m.bivector.e12,
        ) + val(m.bivector.e31) * val(m.bivector.e31) + val(m.bivector.e23) * val(m.bivector.e23)),
        val(m.norm2_spec()) >= 0real,
{
    let s = val(m.scalar.0);
    let (x, y, z) = (val(m.bivector.e12), val(m.bivector.e31), val(m.bivector.e23));
    sign(x, x);
    sign(y, y);
    sign(z, z);
    assert(val(m.bivector.bitor_spec(m.bivector.not_spec()).0) == -(x * (-x) + y * (-y) + z * (
    -z)));
    assert(s * s >= 0real) by (nonlinear_arith);
    assert(x * x >= 0real) by (nonlinear_arith);
    assert(y * y >= 0real) by (nonlinear_arith);
    assert(z * z >= 0real) by (nonlinear_arith);
}

/// Taking the twist out of a motor of space leaves its scalar and the
/// direction of its bivector as they are, and so its squared norm.
pub proof fn untwisted_keeps_the_norm<T: Num>(m: Motor3<T>)
    ensures
        m.untwisted_spec().scalar == m.scalar,
        m.untwisted_spec().bivector.e12 == m.bivector.e12,
        m.untwisted_spec().bivector.e31 == m.bivector.e31,
        m.untwisted_spec().bivector.e23 == m.bivector.e23,
        m.untwisted_spec().norm2_spec() == m.norm2_spec(),
{
}

/// In an exact field a motor of space without a pseudoscalar, whose
/// bivector has two parts that are perpendicular, has no twist.
pub proof fn without_twist<T: Num>(val: spec_fn(T) -> real, m: Motor3<T>)
    requires
        exact(val),
        val(m.pseudo.e0123) == 0real,
        val(m.bivector.e01) * val(m.bivector.e23) + val(m.bivector.e02) * val(m.bivector.e31)
            + val(m.bivector.e03) * val(m.bivector.e12) == 0real,
    ensures
        m.untwisted_spec() == m,
{
    zero(val(m.scalar.0));
    assert(val(m.twist_spec()) == val(m.scalar.0) * 0real - (val(m.bivector.e01) * val(
        m.bivector.e23,
    ) + val(m.bivector.e02) * val(m.bivector.e31) + val(m.bivector.e03) * val(m.bivector.e12)));
}

/// In an exact field a normalized motor of space has the norm one,
/// unless the motor's norm is zero.
pub proof fn normalized_motor3_is_unit<T: Num>(val: spec_fn(T) -> real, m: Motor3<T>)
    requires
        exact(val),
    ensures
        val(m.norm2_spec()) != 0real ==> val(m.normalized_spec().norm2_spec()) == 1real,
        val(m.norm2_spec()) == 0real ==> m.normalized_spec() == m,
{
    norm2_of_motor3(val, m);
    if val(m.norm2_spec()) != 0real {
        let n = m.normalized_spec();
        norm2_of_motor3(val, n);
        let s = val(m.scalar.0);
        let (x, y, z) = (val(m.bivector.e12), val(m.bivector.e31), val(m.bivector.e23));
        let d = val(m.norm_spec());
        let sn = val(n.scalar.0);
        let (xn, yn, zn) = (val(n.bivector.e12), val(n.bivector.e31), val(n.bivector.e23));
        assert(d * d == s * s + (x * x + y * y + z * z));
        assert(d != 0real) by (nonlinear_arith)
            requires
                d * d != 0real,
        ;
        assert(sn * d == s && xn * d == x && yn * d == y && zn * d == z);
        // each square, times the squared norm, is the square of the coefficient
        assert((sn * sn) * (d * d) == (sn * d) * (sn * d)) by (nonlinear_arith);
        assert((xn * xn) * (d * d) == (xn * d) * (xn * d)) by (nonlinear_arith);
        assert((yn * yn) * (d * d) == (yn * d) * (yn * d)) by (nonlinear_arith);
        assert((zn * zn) * (d * d) == (zn * d) * (zn * d)) by (nonlinear_arith);
        let total = sn * sn + (xn * xn + yn * yn + zn * zn);
        distribute(sn * sn, xn * xn + yn * yn + zn * zn, d * d);
        distribute(xn * xn + yn * yn, zn * zn, d * d);
        distribute(xn * xn, yn * yn, d * d);
        assert(total * (d * d) == d * d);
        assert(1real * (d * d) == d * d);
        cancel(total, 1real, d * d);
    }
}

/// Every product and every root of motors of space is a normalized
/// motor: in an exact field its norm is one, or zero where the motor that
/// was normalized had the norm zero. When the norm is one, and not zero,
/// is said of the product by
/// [`product_of_unit_motors_of_space_is_unit`](crate::laws::quaternions::product_of_unit_motors_of_space_is_unit)
/// and of the roots by
/// [`root_of_normalized_is_unit`](crate::laws::turns::root_of_normalized_is_unit).
pub proof fn made_motors_of_space_are_normalized<T: Num>(
    val: spec_fn(T) -> real,
    m: Motor3<T>,
    n: Motor3<T>,
)
    requires
        exact(val),
    ensures
        ({
            let made = m.compose_spec(n);
            val(made.norm2_spec()) == 1real || val(made.norm2_spec()) == 0real
        }),
        ({
            let made = m.sqrt_spec();
            val(made.norm2_spec()) == 1real || val(made.norm2_spec()) == 0real
        }),
{
    let s0 = m.scalar.mul_spec(n.scalar);
    let bv0 = m.scalar.mul_spec(n.bivector);
    let p0 = m.scalar.mul_spec(n.pseudo);
    let bv1 = m.bivector.mul_spec(n.scalar);
    let (s1, bv2, p1) = m.bivector.mul_spec(n.bivector);
    let bv3 = m.bivector.mul_spec(n.pseudo);
    let p2 = m.pseudo.mul_spec(n.scalar);
    let bv4 = m.pseudo.mul_spec(n.bivector);
    let product = Motor3 {
        scalar: s0.add_spec(s1),
        bivector: bv0.add_spec(bv1).add_spec(bv2).add_spec(bv3).add_spec(bv4),
        pseudo: p0.add_spec(p1).add_spec(p2),
    };
    assert(m.compose_spec(n) == product.normalized_spec());
    normalized_motor3_is_unit(val, product);
    root_is_normalized(val, m);
}

/// The root of a motor of space is a normalized motor.
proof fn root_is_normalized<T: Num>(val: spec_fn(T) -> real, m: Motor3<T>)
    requires
        exact(val),
    ensures
        val(m.sqrt_spec().norm2_spec()) == 1real || val(m.sqrt_spec().norm2_spec()) == 0real,
{
    let sum = Motor3 {
        scalar: m.scalar.add_spec(T::ONE),
        bivector: m.bivector,
        pseudo: m.pseudo,
    };
    let plain = sum.untwisted_spec();
    assert(m.sqrt_spec() == plain.normalized_spec());
    untwisted_keeps_the_norm(sum);
    normalized_motor3_is_unit(val, plain);
}

/// In an exact field, the motor between two points of space whose
/// weights have the same sign is the translation by their difference:
/// its scalar is one, the Euclidean part of its bivector and its
/// pseudoscalar are zero, so that its norm is one, and twice the ideal
/// part of its bivector, times the product of the weights, is the
/// bivector of `b * !a`.
pub proof fn motor_between_points_of_space<T: Num>(
    val: spec_fn(T) -> real,
    a: Point3<T>,
    b: Point3<T>,
)
    requires
        exact(val),
        val(a.0.e123) * val(b.0.e123) > 0real,
    ensures
        ({
            let m = Motor3::point_point_spec(a, b);
            let (wa, wb) = (val(a.0.e123), val(b.0.e123));
            &&& val(m.scalar.0) == 1real
            &&& val(m.bivector.e12) == 0real
            &&& val(m.bivector.e31) == 0real
            &&& val(m.bivector.e23) == 0real
            &&& val(m.pseudo.e0123) == 0real
            &&& val(m.norm2_spec()) == 1real
            &&& (val(m.bivector.e01) * 2real) * (wa * wb) == wb * val(a.0.e032) - wa * val(
                b.0.e032,
            )
            &&& (val(m.bivector.e02) * 2real) * (wa * wb) == wb * val(a.0.e013) - wa * val(
                b.0.e013,
            )
            &&& (val(m.bivector.e03) * 2real) * (wa * wb) == wb * val(a.0.e021) - wa * val(
                b.0.e021,
            )
        }),
{
    let (wa, wb) = (val(a.0.e123), val(b.0.e123));
    let (a1, a2, a3) = (val(a.0.e032), val(a.0.e013), val(a.0.e021));
    let (b1, b2, b3) = (val(b.0.e032), val(b.0.e013), val(b.0.e021));
    let (s, bv) = b.0.mul_spec(a.0.not_spec());
    let double = Motor3 {
        scalar: s,
        bivector: BiVector3 {
            e01: bv.e01,
            e02: bv.e02,
            e03: bv.e03,
            e12: T::ZERO,
            e31: T::ZERO,
            e23: T::ZERO,
        },
        pseudo: Pseudo3 { e0123: T::ZERO },
    };
    let sd = val(s.0);
    let (t1, t2, t3) = (val(bv.e01), val(bv.e02), val(bv.e03));
    sign(wb, wa);
    sign(b1, wa);
    sign(b2, wa);
    sign(b3, wa);
    sign(wb, a1);
    sign(wb, a2);
    sign(wb, a3);
    regroup(wb, wa, 1real);
    regroup(b1, wa, 1real);
    regroup(b2, wa, 1real);
    regroup(b3, wa, 1real);
    assert(sd == -(wb * (-wa)));
    assert(sd == wa * wb);
    assert(t1 == b1 * (-wa) - wb * (-a1));
    assert(t2 == b2 * (-wa) - wb * (-a2));
    assert(t3 == b3 * (-wa) - wb * (-a3));
    assert(t1 == wb * a1 - wa * b1);
    assert(t2 == wb * a2 - wa * b2);
    assert(t3 == wb * a3 - wa * b3);
    // normalizing divides by the product of the weights
    norm2_of_motor3(val, double);
    assert(val(double.norm2_spec()) == sd * sd + (0real * 0real + 0real * 0real + 0real * 0real));
    let n = val(double.norm_spec());
    root_of_square(n, sd);
    let unit = double.normalized_spec();
    let u0 = val(unit.scalar.0);
    let (u1, u2, u3) = (val(unit.bivector.e01), val(unit.bivector.e02), val(unit.bivector.e03));
    let (u4, u5, u6) = (val(unit.bivector.e12), val(unit.bivector.e31), val(unit.bivector.e23));
    let u7 = val(unit.pseudo.e0123);
    assert(u0 * sd == sd);
    assert(u1 * sd == t1 && u2 * sd == t2 && u3 * sd == t3);
    assert(u4 * sd == 0real && u5 * sd == 0real && u6 * sd == 0real && u7 * sd == 0real);
    assert(1real * sd == sd);
    assert(0real * sd == 0real);
    cancel(u0, 1real, sd);
    cancel(u4, 0real, sd);
    cancel(u5, 0real, sd);
    cancel(u6, 0real, sd);
    cancel(u7, 0real, sd);
    // the root is the sum with one, normalized: it halves the bivector
    let sum = Motor3 {
        scalar: unit.scalar.add_spec(T::ONE),
        bivector: unit.bivector,
        pseudo: unit.pseudo,
    };
    assert(val(sum.scalar.0) == 1real + 1real);
    norm2_of_motor3(val, sum);
    assert(val(sum.norm2_spec()) == 2real * 2real + (0real * 0real + 0real * 0real + 0real
        * 0real));
    let k = val(sum.norm_spec());
    root_of_square(k, 2real);
    let m = Motor3::point_point_spec(a, b);
    assert(m == sum.normalized_spec());
    let (m1, m2, m3) = (val(m.bivector.e01), val(m.bivector.e02), val(m.bivector.e03));
    assert(val(m.scalar.0) * 2real == 2real);
    assert(m1 * 2real == u1 && m2 * 2real == u2 && m3 * 2real == u3);
    assert(val(m.bivector.e12) * 2real == 0real);
    assert(val(m.bivector.e31) * 2real == 0real);
    assert(val(m.bivector.e23) * 2real == 0real);
    assert(val(m.pseudo.e0123) * 2real == 0real);
    norm2_of_motor3(val, m);
    assert(val(m.norm2_spec()) == 1real * 1real + (0real * 0real + 0real * 0real + 0real * 0real));
}

/// The motor between two points of space moves the first to the second.
///
/// In an exact field, where the weights of the two points have the same
/// sign, the point that the motor moves `a` to and the point `b` have
/// the same normal form.
pub proof fn point_point_moves_first_to_second_in_space<T: Num>(
    val: spec_fn(T) -> real,
    a: Point3<T>,
    b: Point3<T>,
)
    requires
        exact(val),
        val(a.0.e123) * val(b.0.e123) > 0real,
    ensures
        ({
            let moved = Motor3::point_point_spec(a, b).move_point_spec(a).normalized_spec();
            let target = b.normalized_spec();
            &&& val(moved.0.e032) == val(target.0.e032)
            &&& val(moved.0.e013) == val(target.0.e013)
            &&& val(moved.0.e021) == val(target.0.e021)
            &&& val(moved.0.e123) == val(target.0.e123)
            &&& val(moved.0.e123) == 1real
        }),
{
    let (wa, wb) = (val(a.0.e123), val(b.0.e123));
    let (a1, a2, a3) = (val(a.0.e032), val(a.0.e013), val(a.0.e021));
    let (b1, b2, b3) = (val(b.0.e032), val(b.0.e013), val(b.0.e021));
    assert(wa != 0real && wb != 0real) by (nonlinear_arith)
        requires
            wa * wb > 0real,
    ;
    let m = Motor3::point_point_spec(a, b);
    motor_between_points_of_space(val, a, b);
    let (m1, m2, m3) = (val(m.bivector.e01), val(m.bivector.e02), val(m.bivector.e03));
    // the sandwich product, part by part
    let tv0 = m.scalar.mul_spec(a.0);
    let (v1, tv1) = m.bivector.mul_spec(a.0);
    let v2 = m.pseudo.mul_spec(a.0);
    let v = v1.add_spec(v2);
    let tv = tv0.add_spec(tv1);
    let (_v, pa) = v.mul_spec(m.bivector.not_spec());
    let pb = tv.mul_spec(m.scalar.not_spec());
    let (_w, pc) = tv.mul_spec(m.bivector.not_spec());
    let pd = v.mul_spec(m.pseudo.not_spec());
    let sum = pa.add_spec(pb).add_spec(pc).add_spec(pd);
    assert(m.move_point_spec(a) == Point3(sum.normalized_spec()));
    // the vector part vanishes
    assert(val(v1.e0) == 0real * a3 + 0real * a2 + 0real * a1);
    assert(val(v1.e1) == -(0real * wa));
    assert(val(v1.e2) == -(0real * wa));
    assert(val(v1.e3) == -(0real * wa));
    assert(val(v2.e0) == -(0real * wa));
    assert(val(v.e0) == 0real && val(v.e1) == 0real && val(v.e2) == 0real && val(v.e3) == 0real);
    // the trivector part
    assert(val(tv.e032) == 1real * a1 + (0real * a2 - 0real * a3 - m1 * wa));
    assert(val(tv.e013) == 1real * a2 + (0real * a3 - 0real * a1 - m2 * wa));
    assert(val(tv.e021) == 1real * a3 + (0real * a1 - 0real * a2 - m3 * wa));
    assert(val(tv.e123) == 1real * wa + 0real);
    let (x1, x2, x3) = (val(tv.e032), val(tv.e013), val(tv.e021));
    assert(val(pa.e032) == 0real * (-m3) - 0real * (-m2) - 0real * (-0real));
    assert(val(pa.e013) == 0real * (-m1) - 0real * (-m3) - 0real * (-0real));
    assert(val(pa.e021) == 0real * (-m2) - 0real * (-m1) - 0real * (-0real));
    assert(val(pa.e123) == 0real * (-0real) + 0real * (-0real) + 0real * (-0real));
    assert(val(pb.e032) == x1 * 1real && val(pb.e013) == x2 * 1real && val(pb.e021) == x3
        * 1real && val(pb.e123) == wa * 1real);
    assert(val(pc.e032) == x3 * (-0real) - x2 * (-0real) + wa * (-m1));
    assert(val(pc.e013) == x1 * (-0real) - x3 * (-0real) + wa * (-m2));
    assert(val(pc.e021) == x2 * (-0real) - x1 * (-0real) + wa * (-m3));
    assert(val(pc.e123) == 0real);
    assert(val(pd.e032) == 0real * 0real && val(pd.e013) == 0real * 0real && val(pd.e021)
        == 0real * 0real && val(pd.e123) == 0real);
    sign(wa, m1);
    sign(wa, m2);
    sign(wa, m3);
    regroup(wa, m1, 1real);
    regroup(wa, m2, 1real);
    regroup(wa, m3, 1real);
    zero(x1);
    zero(x2);
    zero(x3);
    let (s1, s2, s3, s4) = (val(sum.e032), val(sum.e013), val(sum.e021), val(sum.e123));
    assert(s1 == a1 - 2real * (m1 * wa));
    assert(s2 == a2 - 2real * (m2 * wa));
    assert(s3 == a3 - 2real * (m3 * wa));
    assert(s4 == wa);
    // times the weight of b, the sum is the point b times the weight of a
    distribute(a1, 2real * (m1 * wa), wb);
    distribute(a2, 2real * (m2 * wa), wb);
    distribute(a3, 2real * (m3 * wa), wb);
    assert((2real * (m1 * wa)) * wb == (m1 * 2real) * (wa * wb)) by (nonlinear_arith);
    assert((2real * (m2 * wa)) * wb == (m2 * 2real) * (wa * wb)) by (nonlinear_arith);
    assert((2real * (m3 * wa)) * wb == (m3 * 2real) * (wa * wb)) by (nonlinear_arith);
    regroup(a1, wb, 1real);
    regroup(a2, wb, 1real);
    regroup(a3, wb, 1real);
    assert(s1 * wb == wa * b1);
    assert(s2 * wb == wa * b2);
    assert(s3 * wb == wa * b3);
    // the two normalizations divide by the weight of a
    let norm = val(sum.norm_spec());
    assert(norm == if wa >= 0real {
        wa
    } else {
        -wa
    });
    assert(norm != 0real);
    let unit = sum.normalized_spec();
    let (n1, n2, n3, n4) = (val(unit.e032), val(unit.e013), val(unit.e021), val(unit.e123));
    assert(n1 * norm == s1 && n2 * norm == s2 && n3 * norm == s3 && n4 * norm == wa);
    let moved = Point3(unit).normalized_spec();
    let (r1, r2, r3, r4) = (
        val(moved.0.e032),
        val(moved.0.e013),
        val(moved.0.e021),
        val(moved.0.e123),
    );
    if wa >= 0real {
        assert(1real * norm == wa);
        cancel(n4, 1real, norm);
        assert(moved == Point3(unit));
    } else {
        sign(1real, norm);
        assert((-1real) * norm == wa);
        cancel(n4, -1real, norm);
        assert(n4 != 0real && n4 != 1real);
        assert(moved == Point3(unit.div_spec(unit.e123)));
        assert(r1 * n4 == n1 && r2 * n4 == n2 && r3 * n4 == n3 && r4 * n4 == n4);
        cancel(r4, 1real, n4);
    }
    assert(r4 == 1real);
    // in either case the moved point, times the weight of a, is the sum
    assert(r1 * wa == s1 && r2 * wa == s2 && r3 * wa == s3) by {
        if wa >= 0real {
        } else {
            assert(n4 == -1real);
            assert(norm == -wa);
            assert((r1 * (-1real)) * norm == s1);
            assert((r2 * (-1real)) * norm == s2);
            assert((r3 * (-1real)) * norm == s3);
            assert((r1 * (-1real)) * (-wa) == r1 * wa) by (nonlinear_arith);
            assert((r2 * (-1real)) * (-wa) == r2 * wa) by (nonlinear_arith);
            assert((r3 * (-1real)) * (-wa) == r3 * wa) by (nonlinear_arith);
        }
    }
    regroup(r1, wa, wb);
    regroup(r2, wa, wb);
    regroup(r3, wa, wb);
    regroup(b1, wa, 1real);
    regroup(b2, wa, 1real);
    regroup(b3, wa, 1real);
    regroup(r1, wb, wa);
    regroup(r2, wb, wa);
    regroup(r3, wb, wa);
    assert((r1 * wb) * wa == b1 * wa);
    assert((r2 * wb) * wa == b2 * wa);
    assert((r3 * wb) * wa == b3 * wa);
    cancel(r1 * wb, b1, wa);
    cancel(r2 * wb, b2, wa);
    cancel(r3 * wb, b3, wa);
    // and so is the normal form of b, times the weight of b
    let target = b.normalized_spec();
    let (g1, g2, g3, g4) = (
        val(target.0.e032),
        val(target.0.e013),
        val(target.0.e021),
        val(target.0.e123),
    );
    if wb == 1real {
        assert(target == b);
    } else {
        assert(target == Point3(b.0.div_spec(b.0.e123)));
    }
    assert(g1 * wb == b1 && g2 * wb == b2 && g3 * wb == b3 && g4 * wb == wb);
    assert(1real * wb == wb);
    cancel(g4, 1real, wb);
    cancel(r1, g1, wb);
    cancel(r2, g2, wb);
    cancel(r3, g3, wb);
}

} // verus!
