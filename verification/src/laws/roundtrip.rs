//! The motor between two points moves the first to the second.

use core::ops::{Add, BitOr, Div, Mul, Neg, Not, Sub};
use vstd::prelude::*;
use vstd::std_specs::cmp::PartialEqSpec;
use vstd::std_specs::ops::{AddSpec, BitOrSpec, DivSpec, MulSpec, NegSpec, NotSpec, SubSpec};

use crate::laws::exact::exact;
use crate::laws::motors::{norm2_of_motor2, power_of_translation};
use crate::laws::reals::{cancel, distribute, regroup, root_of_square, sign, zero};
use crate::pga::motor::Motor2;
use crate::pga::point::Point2;
use crate::scalar::Num;

verus! {

/// In an exact field, the motor between two points whose weights have
/// the same sign is the translation by their difference: its scalar is
/// one, its bivector has the weight zero, so that its norm is one, and
/// twice its bivector, times the product of the weights, is the bivector
/// of `b * !a`.
pub proof fn motor_between_points<T: Num>(val: spec_fn(T) -> real, a: Point2<T>, b: Point2<T>)
    requires
        exact(val),
        val(a.0.e12) * val(b.0.e12) > 0real,
    ensures
        ({
            let m = Motor2::point_point_spec(a, b);
            let (wa, wb) = (val(a.0.e12), val(b.0.e12));
            &&& val(m.scalar.0) == 1real
            &&& val(m.bivector.e12) == 0real
            &&& val(m.norm2_spec()) == 1real
            &&& (val(m.bivector.e01) * 2real) * (wa * wb) == wb * val(a.0.e20) - wa * val(b.0.e20)
            &&& (val(m.bivector.e20) * 2real) * (wa * wb) == wa * val(b.0.e01) - wb * val(a.0.e01)
        }),
{
    let (wa, wb) = (val(a.0.e12), val(b.0.e12));
    let (a1, a2) = (val(a.0.e01), val(a.0.e20));
    let (b1, b2) = (val(b.0.e01), val(b.0.e20));
    let (s, bv) = b.0.mul_spec(a.0.not_spec());
    let double = Motor2 { scalar: s, bivector: bv };
    let sd = val(s.0);
    let (t1, t2) = (val(bv.e01), val(bv.e20));
    sign(wb, wa);
    sign(b2, wa);
    sign(wb, a2);
    sign(wb, a1);
    sign(b1, wa);
    regroup(wb, wa, 1real);
    regroup(b2, wa, 1real);
    regroup(b1, wa, 1real);
    assert(sd == -(wb * (-wa)));
    assert(sd == wa * wb);
    assert(t1 == b2 * (-wa) - wb * (-a2));
    assert(t1 == wb * a2 - wa * b2);
    assert(t2 == wb * (-a1) - b1 * (-wa));
    assert(t2 == wa * b1 - wb * a1);
    assert(val(bv.e12) == 0real);
    // normalizing divides by the product of the weights
    norm2_of_motor2(val, double);
    assert(val(double.norm2_spec()) == sd * sd + 0real * 0real);
    let n = val(double.norm_spec());
    root_of_square(n, sd);
    let unit = double.normalized_spec();
    let (u0, u1, u2, u3) = (
        val(unit.scalar.0),
        val(unit.bivector.e01),
        val(unit.bivector.e20),
        val(unit.bivector.e12),
    );
    assert(u0 * sd == sd);
    assert(u1 * sd == t1);
    assert(u2 * sd == t2);
    assert(u3 * sd == 0real);
    assert(1real * sd == sd);
    assert(0real * sd == 0real);
    cancel(u0, 1real, sd);
    cancel(u3, 0real, sd);
    // the root halves the bivector
    let half = T::ONE.div_spec(T::TWO);
    let h = val(half);
    assert(h * 2real == 1real);
    let m = Motor2::point_point_spec(a, b);
    assert(m == unit.pow_spec(half));
    power_of_translation(val, unit, half);
    let (m1, m2) = (val(m.bivector.e01), val(m.bivector.e20));
    assert(m1 == u1 * h);
    assert(m2 == u2 * h);
    regroup(u1, h, 2real);
    regroup(u2, h, 2real);
    assert(m1 * 2real == u1);
    assert(m2 * 2real == u2);
}

/// The motor between two points moves the first to the second.
///
/// In an exact field, where the weights of the two points have the same
/// sign, the point that the motor moves `a` to and the point `b` have
/// the same normal form.
pub proof fn point_point_moves_first_to_second<T: Num>(
    val: spec_fn(T) -> real,
    a: Point2<T>,
    b: Point2<T>,
)
    requires
        exact(val),
        val(a.0.e12) * val(b.0.e12) > 0real,
    ensures
        ({
            let moved = Motor2::point_point_spec(a, b).move_point_spec(a).normalized_spec();
            let target = b.normalized_spec();
            &&& val(moved.0.e01) == val(target.0.e01)
            &&& val(moved.0.e20) == val(target.0.e20)
            &&& val(moved.0.e12) == val(target.0.e12)
            &&& val(moved.0.e12) == 1real
        }),
{
    let (wa, wb) = (val(a.0.e12), val(b.0.e12));
    let (a1, a2) = (val(a.0.e01), val(a.0.e20));
    let (b1, b2) = (val(b.0.e01), val(b.0.e20));
    assert(wa != 0real && wb != 0real) by (nonlinear_arith)
        requires
            wa * wb > 0real,
    ;
    let m = Motor2::point_point_spec(a, b);
    motor_between_points(val, a, b);
    let (m1, m2) = (val(m.bivector.e01), val(m.bivector.e20));
    // the sandwich product, part by part
    let bv0 = m.scalar.mul_spec(a.0);
    let (s, bv1) = m.bivector.mul_spec(a.0);
    let bv = bv0.add_spec(bv1);
    let pa = s.mul_spec(m.bivector.not_spec());
    let pb = bv.mul_spec(m.scalar.not_spec());
    let (_s, pc) = bv.mul_spec(m.bivector.not_spec());
    let sum = pa.add_spec(pb).add_spec(pc);
    assert(m.move_point_spec(a) == Point2(sum.normalized_spec()));
    assert(val(s.0) == -(0real * wa));
    assert(val(bv.e01) == 1real * a1 + (m2 * wa - 0real * a2));
    assert(val(bv.e20) == 1real * a2 + (0real * a1 - m1 * wa));
    assert(val(bv.e12) == 1real * wa + 0real);
    assert(val(pa.e01) == 0real * (-m1));
    assert(val(pa.e20) == 0real * (-m2));
    assert(val(pa.e12) == 0real * (-0real));
    assert(val(pb.e01) == val(bv.e01) * 1real);
    assert(val(pb.e20) == val(bv.e20) * 1real);
    assert(val(pb.e12) == val(bv.e12) * 1real);
    assert(val(pc.e01) == val(bv.e20) * (-0real) - wa * (-m2));
    assert(val(pc.e20) == wa * (-m1) - val(bv.e01) * (-0real));
    assert(val(pc.e12) == 0real);
    sign(wa, m1);
    sign(wa, m2);
    regroup(wa, m1, 1real);
    regroup(wa, m2, 1real);
    zero(val(bv.e01));
    zero(val(bv.e20));
    zero(m1);
    zero(m2);
    zero(wa);
    zero(a1);
    zero(a2);
    let (s1, s2, s3) = (val(sum.e01), val(sum.e20), val(sum.e12));
    assert(s1 == a1 + 2real * (m2 * wa));
    assert(s2 == a2 - 2real * (m1 * wa));
    assert(s3 == wa);
    // times the weight of b, the sum is the point b times the weight of a
    regroup(m2, 2real, wa * wb);
    regroup(m1, 2real, wa * wb);
    regroup(m2, wa, wb);
    regroup(m1, wa, wb);
    distribute(a1, 2real * (m2 * wa), wb);
    distribute(a2, 2real * (m1 * wa), wb);
    regroup(2real, m2 * wa, wb);
    regroup(2real, m1 * wa, wb);
    regroup(m2, 2real, 1real);
    regroup(m1, 2real, 1real);
    regroup(a1, wb, 1real);
    regroup(a2, wb, 1real);
    assert((2real * (m2 * wa)) * wb == (m2 * 2real) * (wa * wb)) by (nonlinear_arith);
    assert((2real * (m1 * wa)) * wb == (m1 * 2real) * (wa * wb)) by (nonlinear_arith);
    assert(s1 * wb == wa * b1);
    assert(s2 * wb == wa * b2);
    // the two normalizations divide by the weight of a
    let norm = val(sum.norm_spec());
    assert(norm == if wa >= 0real {
        wa
    } else {
        -wa
    });
    assert(norm != 0real);
    let unit = sum.normalized_spec();
    let (n1, n2, n3) = (val(unit.e01), val(unit.e20), val(unit.e12));
    assert(n1 * norm == s1);
    assert(n2 * norm == s2);
    assert(n3 * norm == wa);
    let moved = Point2(unit).normalized_spec();
    let (r1, r2, r3) = (val(moved.0.e01), val(moved.0.e20), val(moved.0.e12));
    if wa >= 0real {
        assert(1real * norm == wa);
        cancel(n3, 1real, norm);
        assert(moved == Point2(unit));
    } else {
        sign(1real, norm);
        assert((-1real) * norm == wa);
        cancel(n3, -1real, norm);
        assert(n3 != 0real && n3 != 1real);
        assert(moved == Point2(unit.div_spec(unit.e12)));
        assert(r1 * n3 == n1);
        assert(r2 * n3 == n2);
        assert(r3 * n3 == n3);
        cancel(r3, 1real, n3);
    }
    assert(r3 == 1real);
    // in either case the moved point, times the weight of a, is the sum
    assert(r1 * wa == s1 && r2 * wa == s2) by {
        if wa >= 0real {
        } else {
            regroup(r1, n3, norm);
            regroup(r2, n3, norm);
            sign(r1, norm);
            sign(r2, norm);
            sign(r1, wa);
            sign(r2, wa);
            assert(n3 == -1real);
            assert(r1 * (-1real) == n1);
            assert(r2 * (-1real) == n2);
            assert((r1 * (-1real)) * norm == s1);
            assert((r2 * (-1real)) * norm == s2);
            assert(norm == -wa);
            assert((r1 * (-1real)) * (-wa) == r1 * wa) by (nonlinear_arith);
            assert((r2 * (-1real)) * (-wa) == r2 * wa) by (nonlinear_arith);
        }
    }
    regroup(r1, wa, wb);
    regroup(r2, wa, wb);
    regroup(b1, wa, 1real);
    regroup(b2, wa, 1real);
    regroup(r1, wb, wa);
    regroup(r2, wb, wa);
    assert((r1 * wb) * wa == b1 * wa);
    assert((r2 * wb) * wa == b2 * wa);
    cancel(r1 * wb, b1, wa);
    cancel(r2 * wb, b2, wa);
    // and so is the normal form of b, times the weight of b
    let target = b.normalized_spec();
    let (g1, g2, g3) = (val(target.0.e01), val(target.0.e20), val(target.0.e12));
    if wb == 1real {
        assert(target == b);
        assert(g1 * wb == b1 && g2 * wb == b2 && g3 * wb == wb);
    } else {
        assert(target == Point2(b.0.div_spec(b.0.e12)));
        assert(g1 * wb == b1 && g2 * wb == b2 && g3 * wb == wb);
    }
    assert(1real * wb == wb);
    cancel(g3, 1real, wb);
    cancel(r1, g1, wb);
    cancel(r2, g2, wb);
}

} // verus!
