//! The power and the root of a rotation.

use core::ops::{Add, BitOr, Div, Mul, Neg, Not, Sub};
use vstd::prelude::*;
use vstd::std_specs::cmp::PartialEqSpec;
use vstd::std_specs::ops::{AddSpec, BitOrSpec, DivSpec, MulSpec, NegSpec, NotSpec, SubSpec};

use crate::laws::exact::{exact, exact_angles};
use crate::laws::motors::norm2_of_motor2;
use crate::laws::reals::{cancel, regroup, root_of_square, sign, unit_direction};
use crate::pga::elements::Scalar2;
use crate::pga::motor::Motor2;
use crate::scalar::Num;

verus! {

/// The angle that the power of a rotation turns by: the motor's angle,
/// `atan2(norm of the bivector, scalar)`, times the exponent.
pub open spec fn angle_of_power<T: Num>(m: Motor2<T>, t: T) -> T {
    let angle = m.bivector.norm_spec().atan2_spec(m.scalar.0);
    m.bivector.normalized_spec().mul_spec(angle).norm_spec().mul_spec(t)
}

/// In an exact field with exact angles, the power `t` of a rotation has
/// the cosine of `t` times the motor's angle for its scalar, and for its
/// bivector the motor's bivector, divided by the absolute value of its
/// weight, times the sine. It is a motor of norm one.
pub proof fn power_of_rotation<T: Num>(val: spec_fn(T) -> real, m: Motor2<T>, t: T)
    requires
        exact(val),
        exact_angles(val),
        val(m.bivector.e12) != 0real,
    ensures
        ({
            let angle = m.bivector.norm_spec().atan2_spec(m.scalar.0);
            let alpha = angle_of_power(m, t);
            let r = m.pow_spec(t);
            let size = val(m.bivector.norm_spec());
            &&& val(alpha) == val(angle) * val(t)
            &&& size > 0real
            &&& size * size == val(m.bivector.e12) * val(m.bivector.e12)
            &&& val(r.scalar.0) == val(alpha.cos_spec())
            &&& val(r.bivector.e01) * size == val(m.bivector.e01) * val(alpha.sin_spec())
            &&& val(r.bivector.e20) * size == val(m.bivector.e20) * val(alpha.sin_spec())
            &&& val(r.bivector.e12) * size == val(m.bivector.e12) * val(alpha.sin_spec())
            &&& val(r.bivector.e12) * val(r.bivector.e12) == val(alpha.sin_spec()) * val(
                alpha.sin_spec(),
            )
            &&& val(r.norm2_spec()) == 1real
        }),
{
    let bv = m.bivector;
    let (b1, b2, w) = (val(bv.e01), val(bv.e20), val(bv.e12));
    let size = val(bv.norm_spec());
    assert(size == if w >= 0real {
        w
    } else {
        -w
    });
    sign(w, w);
    assert(size * size == w * w);
    let angle = bv.norm_spec().atan2_spec(m.scalar.0);
    let theta = val(angle);
    assert(theta > 0real);
    // the bivector divided by its norm has the weight one or minus one
    let bn = bv.normalized_spec();
    assert(bn == bv.div_spec(bv.norm_spec()));
    let (n1, n2, n3) = (val(bn.e01), val(bn.e20), val(bn.e12));
    assert(n1 * size == b1 && n2 * size == b2 && n3 * size == w);
    sign(1real, size);
    if w >= 0real {
        assert(1real * size == w);
        cancel(n3, 1real, size);
    } else {
        assert((-1real) * size == w);
        cancel(n3, -1real, size);
    }
    assert(n3 == 1real || n3 == -1real);
    assert(n3 * n3 == 1real) by (nonlinear_arith)
        requires
            n3 == 1real || n3 == -1real,
    ;
    // its logarithm has the angle for its norm
    let log = bn.mul_spec(angle);
    let (l1, l2, l3) = (val(log.e01), val(log.e20), val(log.e12));
    assert(l1 == n1 * theta && l2 == n2 * theta && l3 == n3 * theta);
    sign(1real, theta);
    assert(1real * theta == theta && (-1real) * theta == -theta);
    assert(val(log.norm_spec()) == theta);
    let alpha = angle_of_power(m, t);
    assert(alpha == log.norm_spec().mul_spec(t));
    assert(val(alpha) == theta * val(t));
    // and the logarithm divided by its norm is the bivector divided by its norm
    let p = log.normalized_spec();
    assert(p == log.div_spec(log.norm_spec()));
    let (p1, p2, p3) = (val(p.e01), val(p.e20), val(p.e12));
    assert(p1 * theta == l1 && p2 * theta == l2 && p3 * theta == l3);
    cancel(p1, n1, theta);
    cancel(p2, n2, theta);
    cancel(p3, n3, theta);
    let (c, s) = (val(alpha.cos_spec()), val(alpha.sin_spec()));
    let x = Motor2 { scalar: Scalar2(alpha.cos_spec()), bivector: p.mul_spec(alpha.sin_spec()) };
    assert(m.pow_spec(t) == x.normalized_spec());
    let (x1, x2, x3) = (val(x.bivector.e01), val(x.bivector.e20), val(x.bivector.e12));
    assert(x1 == n1 * s && x2 == n2 * s && x3 == n3 * s);
    // the motor has the norm one before it is normalized
    norm2_of_motor2(val, x);
    assert((n3 * s) * (n3 * s) == (n3 * n3) * (s * s)) by (nonlinear_arith);
    assert(1real * (s * s) == s * s);
    assert(val(x.norm2_spec()) == c * c + s * s);
    assert(val(x.norm2_spec()) == 1real);
    let n = val(x.norm_spec());
    root_of_square(n, 1real);
    let r = x.normalized_spec();
    assert(val(r.scalar.0) * 1real == c);
    assert(val(r.bivector.e01) * 1real == x1);
    assert(val(r.bivector.e20) * 1real == x2);
    assert(val(r.bivector.e12) * 1real == x3);
    regroup(n1, s, size);
    regroup(n2, s, size);
    regroup(n3, s, size);
    norm2_of_motor2(val, r);
}

/// The root of a rotation, composed with itself, is the rotation.
///
/// In an exact field with exact angles this holds of every motor of norm
/// one whose bivector has a weight other than zero.
pub proof fn square_of_root_of_rotation<T: Num>(val: spec_fn(T) -> real, m: Motor2<T>)
    requires
        exact(val),
        exact_angles(val),
        val(m.norm2_spec()) == 1real,
        val(m.bivector.e12) != 0real,
    ensures
        ({
            let square = m.sqrt_spec().compose_spec(m.sqrt_spec());
            &&& val(square.scalar.0) == val(m.scalar.0)
            &&& val(square.bivector.e01) == val(m.bivector.e01)
            &&& val(square.bivector.e20) == val(m.bivector.e20)
            &&& val(square.bivector.e12) == val(m.bivector.e12)
        }),
{
    let half = T::ONE.div_spec(T::TWO);
    let h = val(half);
    assert(h * 2real == 1real);
    let r = m.sqrt_spec();
    assert(r == m.pow_spec(half));
    power_of_rotation(val, m, half);
    norm2_of_motor2(val, m);
    let (b0, b1, b2, w) = (
        val(m.scalar.0),
        val(m.bivector.e01),
        val(m.bivector.e20),
        val(m.bivector.e12),
    );
    let size = val(m.bivector.norm_spec());
    let angle = m.bivector.norm_spec().atan2_spec(m.scalar.0);
    let theta = val(angle);
    let alpha = angle_of_power(m, half);
    let (c, s) = (val(alpha.cos_spec()), val(alpha.sin_spec()));
    let (r0, r1, r2, r3) = (
        val(r.scalar.0),
        val(r.bivector.e01),
        val(r.bivector.e20),
        val(r.bivector.e12),
    );
    // twice the half angle is the angle, whose cosine and sine are the
    // motor's scalar and the norm of its bivector
    let twice = alpha.add_spec(alpha);
    regroup(theta, h, 2real);
    assert(val(twice) == theta * h + theta * h);
    assert(val(twice) == theta);
    let (ct, st) = (val(angle.cos_spec()), val(angle.sin_spec()));
    assert(val(twice.cos_spec()) == ct && val(twice.sin_spec()) == st);
    assert(ct == c * c - s * s);
    assert(st == 2real * (s * c));
    assert(size != 0real);
    assert(ct * size == st * b0 && ct * b0 + st * size > 0real);
    assert(st * st + ct * ct == 1real);
    assert(b0 * b0 + size * size == 1real);
    unit_direction(ct, st, b0, size);
    // the product of the root with itself
    let s0 = r.scalar.mul_spec(r.scalar);
    let bv0 = r.scalar.mul_spec(r.bivector);
    let bv1 = r.bivector.mul_spec(r.scalar);
    let (s1, bv2) = r.bivector.mul_spec(r.bivector);
    let product = Motor2 { scalar: s0.add_spec(s1), bivector: bv0.add_spec(bv1).add_spec(bv2) };
    assert(r.compose_spec(r) == product.normalized_spec());
    assert(val(product.scalar.0) == r0 * r0 + (-(r3 * r3)));
    assert(val(product.scalar.0) == b0);
    assert(val(product.bivector.e01) == r0 * r1 + r1 * r0 + (r2 * r3 - r3 * r2));
    assert(val(product.bivector.e20) == r0 * r2 + r2 * r0 + (r3 * r1 - r1 * r3));
    assert(val(product.bivector.e12) == r0 * r3 + r3 * r0 + 0real);
    regroup(r0, r1, 1real);
    regroup(r0, r2, 1real);
    regroup(r0, r3, 1real);
    regroup(r2, r3, 1real);
    regroup(r1, r3, 1real);
    let (q1, q2, q3) = (
        val(product.bivector.e01),
        val(product.bivector.e20),
        val(product.bivector.e12),
    );
    assert(q1 == 2real * (c * r1) && q2 == 2real * (c * r2) && q3 == 2real * (c * r3));
    // times the norm of the motor's bivector, it is the bivector times that norm
    assert((2real * (c * r1)) * size == (2real * c) * (r1 * size)) by (nonlinear_arith);
    assert((2real * (c * r2)) * size == (2real * c) * (r2 * size)) by (nonlinear_arith);
    assert((2real * (c * r3)) * size == (2real * c) * (r3 * size)) by (nonlinear_arith);
    assert((2real * c) * (b1 * s) == b1 * (2real * (s * c))) by (nonlinear_arith);
    assert((2real * c) * (b2 * s) == b2 * (2real * (s * c))) by (nonlinear_arith);
    assert((2real * c) * (w * s) == w * (2real * (s * c))) by (nonlinear_arith);
    assert(q1 * size == b1 * size);
    assert(q2 * size == b2 * size);
    assert(q3 * size == w * size);
    cancel(q1, b1, size);
    cancel(q2, b2, size);
    cancel(q3, w, size);
    // which has the norm one, so that normalizing changes nothing
    norm2_of_motor2(val, product);
    assert(val(product.norm2_spec()) == 1real);
    let n = val(product.norm_spec());
    root_of_square(n, 1real);
    let square = product.normalized_spec();
    assert(val(square.scalar.0) * 1real == b0);
    assert(val(square.bivector.e01) * 1real == b1);
    assert(val(square.bivector.e20) * 1real == b2);
    assert(val(square.bivector.e12) * 1real == w);
}

} // verus!
