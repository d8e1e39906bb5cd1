//! Motors keep their unit norm, and the root of a translation is half
//! the translation.

use core::ops::{Add, BitOr, Div, Mul, Neg, Not, Sub};
use vstd::prelude::*;
use vstd::std_specs::cmp::PartialEqSpec;
use vstd::std_specs::ops::{AddSpec, BitOrSpec, DivSpec, MulSpec, NegSpec, NotSpec, SubSpec};

use crate::laws::exact::exact;
use crate::laws::reals::distribute;
use crate::pga::elements::Scalar2;
use crate::pga::motor::Motor2;
use crate::scalar::Num;

verus! {

/// In an exact field the squared norm of a motor is the sum of the
/// squares of its scalar and of its bivector's weight.
pub proof fn norm2_of_motor2<T: Num>(val: spec_fn(T) -> real, m: Motor2<T>)
    requires
        exact(val),
    ensures
        val(m.norm2_spec()) == val(m.scalar.0) * val(m.scalar.0) + val(m.bivector.e12) * val(
            m.bivector.e12,
        ),
        val(m.norm2_spec()) >= 0real,
{
    let s = val(m.scalar.0);
    let w = val(m.bivector.e12);
    assert(val(m.bivector.e12.mul_spec(m.bivector.e12.neg_spec())) == w * (-w));
    assert(-(w * (-w)) == w * w) by (nonlinear_arith);
    assert(s * s + w * w >= 0real) by (nonlinear_arith);
}

/// In an exact field a normalized motor has the norm one, unless the
/// motor's norm is zero.
pub proof fn normalized_motor2_is_unit<T: Num>(val: spec_fn(T) -> real, m: Motor2<T>)
    requires
        exact(val),
    ensures
        val(m.norm2_spec()) != 0real ==> val(m.normalized_spec().norm2_spec()) == 1real,
        val(m.norm2_spec()) == 0real ==> m.normalized_spec() == m,
{
    norm2_of_motor2(val, m);
    if val(m.norm2_spec()) != 0real {
        let n = m.normalized_spec();
        norm2_of_motor2(val, n);
        let s = val(m.scalar.0);
        let w = val(m.bivector.e12);
        let d = val(m.norm_spec());
        let sn = val(n.scalar.0);
        let wn = val(n.bivector.e12);
        assert(d * d == s * s + w * w);
        assert(d != 0real) by (nonlinear_arith)
            requires
                d * d != 0real,
        ;
        assert(sn * d == s);
        assert(wn * d == w);
        assert(sn * sn + wn * wn == 1real) by (nonlinear_arith)
            requires
                sn * d == s,
                wn * d == w,
                d * d == s * s + w * w,
                d != 0real,
        ;
    }
}

/// In an exact field the norm is multiplicative: the product of two
/// motors of norm one has the norm one.
pub proof fn product_of_unit_motors_is_unit<T: Num>(
    val: spec_fn(T) -> real,
    a: Motor2<T>,
    b: Motor2<T>,
)
    requires
        exact(val),
        val(a.norm2_spec()) == 1real,
        val(b.norm2_spec()) == 1real,
    ensures
        val(a.compose_spec(b).norm2_spec()) == 1real,
{
    let s0 = a.scalar.mul_spec(b.scalar);
    let bv0 = a.scalar.mul_spec(b.bivector);
    let bv1 = a.bivector.mul_spec(b.scalar);
    let (s1, bv2) = a.bivector.mul_spec(b.bivector);
    let product = Motor2 { scalar: s0.add_spec(s1), bivector: bv0.add_spec(bv1).add_spec(bv2) };
    assert(a.compose_spec(b) == product.normalized_spec());
    norm2_of_motor2(val, a);
    norm2_of_motor2(val, b);
    norm2_of_motor2(val, product);
    let (s, w) = (val(a.scalar.0), val(a.bivector.e12));
    let (t, v) = (val(b.scalar.0), val(b.bivector.e12));
    let ps = val(product.scalar.0);
    let pw = val(product.bivector.e12);
    assert(ps == s * t + (-(w * v)));
    assert(pw == s * v + w * t + 0real);
    // (st - wv)^2 + (sv + wt)^2 = (s^2 + w^2) (t^2 + v^2), product by product
    let (p, q, r, u) = (s * t, w * v, s * v, w * t);
    assert((p + (-q)) * (p + (-q)) == p * p - 2real * (p * q) + q * q) by (nonlinear_arith);
    assert((r + u + 0real) * (r + u + 0real) == r * r + 2real * (r * u) + u * u)
        by (nonlinear_arith);
    assert((s * t) * (w * v) == (s * v) * (w * t)) by (nonlinear_arith);
    assert((s * t) * (s * t) == (s * s) * (t * t)) by (nonlinear_arith);
    assert((w * v) * (w * v) == (w * w) * (v * v)) by (nonlinear_arith);
    assert((s * v) * (s * v) == (s * s) * (v * v)) by (nonlinear_arith);
    assert((w * t) * (w * t) == (w * w) * (t * t)) by (nonlinear_arith);
    distribute(s * s, w * w, t * t + v * v);
    distribute(t * t, v * v, s * s);
    distribute(t * t, v * v, w * w);
    assert(ps * ps + pw * pw == (s * s + w * w) * (t * t + v * v));
    assert(ps * ps + pw * pw == 1real * 1real);
    normalized_motor2_is_unit(val, product);
}

/// The norm of whatever the composition and the power give: every
/// such motor is a normalized one, so in an exact field its norm is one,
/// or zero where the motor that was normalized had the norm zero.
pub proof fn made_motors_are_normalized<T: Num>(
    val: spec_fn(T) -> real,
    a: Motor2<T>,
    b: Motor2<T>,
    t: T,
)
    requires
        exact(val),
    ensures
        val(a.compose_spec(b).norm2_spec()) == 1real || val(a.compose_spec(b).norm2_spec())
            == 0real,
        val(a.pow_spec(t).norm2_spec()) == 1real || val(a.pow_spec(t).norm2_spec()) == 0real,
        val(a.sqrt_spec().norm2_spec()) == 1real || val(a.sqrt_spec().norm2_spec()) == 0real,
{
    let s0 = a.scalar.mul_spec(b.scalar);
    let bv0 = a.scalar.mul_spec(b.bivector);
    let bv1 = a.bivector.mul_spec(b.scalar);
    let (s1, bv2) = a.bivector.mul_spec(b.bivector);
    let product = Motor2 { scalar: s0.add_spec(s1), bivector: bv0.add_spec(bv1).add_spec(bv2) };
    assert(a.compose_spec(b) == product.normalized_spec());
    normalized_motor2_is_unit(val, product);
    power_is_normalized(val, a, t);
    power_is_normalized(val, a, T::ONE.div_spec(T::TWO));
}

/// The power of a motor is a normalized motor.
proof fn power_is_normalized<T: Num>(val: spec_fn(T) -> real, a: Motor2<T>, t: T)
    requires
        exact(val),
    ensures
        val(a.pow_spec(t).norm2_spec()) == 1real || val(a.pow_spec(t).norm2_spec()) == 0real,
{
    if a.bivector.e12.eq_spec(&T::ZERO) {
        let log = a.bivector;
        let distance = log.ideal_norm_spec();
        let direction = if distance.eq_spec(&T::ZERO) {
            log
        } else {
            log.div_spec(distance)
        };
        let x = Motor2 {
            scalar: Scalar2(T::ONE),
            bivector: direction.mul_spec(distance.mul_spec(t)),
        };
        assert(a.pow_spec(t) == x.normalized_spec());
        normalized_motor2_is_unit(val, x);
    } else {
        let atan = a.bivector.norm_spec().atan2_spec(a.scalar.0);
        let log = a.bivector.normalized_spec().mul_spec(atan);
        let alpha = log.norm_spec().mul_spec(t);
        let p = log.normalized_spec();
        let x = Motor2 {
            scalar: Scalar2(alpha.cos_spec()),
            bivector: p.mul_spec(alpha.sin_spec()),
        };
        assert(a.pow_spec(t) == x.normalized_spec());
        normalized_motor2_is_unit(val, x);
    }
}

/// In an exact field the power `t` of a translation is the translation
/// by `t` times as far: the scalar is one and the bivector is `t` times
/// the bivector. In particular the root of a translation is half of it.
pub proof fn power_of_translation<T: Num>(val: spec_fn(T) -> real, m: Motor2<T>, t: T)
    requires
        exact(val),
        val(m.bivector.e12) == 0real,
    ensures
        val(m.pow_spec(t).scalar.0) == 1real,
        val(m.pow_spec(t).bivector.e01) == val(m.bivector.e01) * val(t),
        val(m.pow_spec(t).bivector.e20) == val(m.bivector.e20) * val(t),
        val(m.pow_spec(t).bivector.e12) == 0real,
        val(m.pow_spec(t).norm2_spec()) == 1real,
{
    let log = m.bivector;
    let (b1, b2) = (val(log.e01), val(log.e20));
    let h = val(t);
    let distance = log.ideal_norm_spec();
    let d = val(distance);
    assert(b1 * b1 + b2 * b2 >= 0real) by (nonlinear_arith);
    assert(val(log.ideal_norm2_spec()) == b1 * b1 + b2 * b2);
    assert(d * d == b1 * b1 + b2 * b2 && d >= 0real);
    let direction = if distance.eq_spec(&T::ZERO) {
        log
    } else {
        log.div_spec(distance)
    };
    let scaled = direction.mul_spec(distance.mul_spec(t));
    let (k1, k2, k0) = (val(direction.e01), val(direction.e20), val(direction.e12));
    assert(val(distance.mul_spec(t)) == d * h);
    assert(val(scaled.e01) == k1 * (d * h));
    assert(val(scaled.e20) == k2 * (d * h));
    assert(val(scaled.e12) == k0 * (d * h));
    if d == 0real {
        assert(b1 == 0real && b2 == 0real) by (nonlinear_arith)
            requires
                b1 * b1 + b2 * b2 == 0real,
        ;
        assert(direction == log);
        assert(0real * (d * h) == 0real * h) by (nonlinear_arith);
    } else {
        assert(k1 * d == b1);
        assert(k2 * d == b2);
        assert(k0 * d == 0real);
        assert(k1 * (d * h) == (k1 * d) * h) by (nonlinear_arith);
        assert(k2 * (d * h) == (k2 * d) * h) by (nonlinear_arith);
        assert(k0 * (d * h) == (k0 * d) * h) by (nonlinear_arith);
        assert(0real * h == 0real) by (nonlinear_arith);
    }
    let x = Motor2 { scalar: Scalar2(T::ONE), bivector: scaled };
    assert(m.pow_spec(t) == x.normalized_spec());
    norm2_of_motor2(val, x);
    assert(val(scaled.e12) == 0real);
    assert(val(x.norm2_spec()) == 1real * 1real + 0real * 0real);
    let n = val(x.norm_spec());
    assert(n == 1real) by (nonlinear_arith)
        requires
            n * n == 1real,
            n >= 0real,
    ;
    let r = x.normalized_spec();
    assert(val(r.scalar.0) * 1real == 1real);
    assert(val(r.bivector.e01) * 1real == b1 * h);
    assert(val(r.bivector.e20) * 1real == b2 * h);
    assert(val(r.bivector.e12) * 1real == 0real);
    normalized_motor2_is_unit(val, x);
}

/// The root of a translation, composed with itself, is the translation.
///
/// In an exact field this holds of every motor whose scalar is one and
/// whose bivector has the weight zero.
pub proof fn square_of_root_of_translation<T: Num>(val: spec_fn(T) -> real, m: Motor2<T>)
    requires
        exact(val),
        val(m.scalar.0) == 1real,
        val(m.bivector.e12) == 0real,
    ensures
        ({
            let square = m.sqrt_spec().compose_spec(m.sqrt_spec());
            &&& val(square.scalar.0) == val(m.scalar.0)
            &&& val(square.bivector.e01) == val(m.bivector.e01)
            &&& val(square.bivector.e20) == val(m.bivector.e20)
            &&& val(square.bivector.e12) == val(m.bivector.e12)
        }),
{
    let half = T::ONE.div_spec(T::TWO);
    let h = val(half);
    assert(h * 2real == 1real);
    let r = m.sqrt_spec();
    assert(r == m.pow_spec(half));
    power_of_translation(val, m, half);
    let (b1, b2) = (val(m.bivector.e01), val(m.bivector.e20));
    let (r1, r2) = (val(r.bivector.e01), val(r.bivector.e20));
    let s0 = r.scalar.mul_spec(r.scalar);
    let bv0 = r.scalar.mul_spec(r.bivector);
    let bv1 = r.bivector.mul_spec(r.scalar);
    let (s1, bv2) = r.bivector.mul_spec(r.bivector);
    let product = Motor2 { scalar: s0.add_spec(s1), bivector: bv0.add_spec(bv1).add_spec(bv2) };
    assert(r.compose_spec(r) == product.normalized_spec());
    assert(val(product.scalar.0) == 1real * 1real + (-(0real * 0real)));
    assert(val(product.bivector.e12) == 1real * 0real + 0real * 1real + 0real);
    assert(val(product.bivector.e01) == 1real * r1 + r1 * 1real + (r2 * 0real - 0real * r2));
    assert(val(product.bivector.e20) == 1real * r2 + r2 * 1real + (0real * r1 - r1 * 0real));
    assert(val(product.scalar.0) == 1real);
    assert(val(product.bivector.e12) == 0real);
    assert((b1 * h) * 2real == b1 * (h * 2real)) by (nonlinear_arith);
    assert((b2 * h) * 2real == b2 * (h * 2real)) by (nonlinear_arith);
    assert(b1 * 1real == b1 && b2 * 1real == b2);
    assert(val(product.bivector.e01) == b1);
    assert(val(product.bivector.e20) == b2);
    norm2_of_motor2(val, product);
    assert(val(product.norm2_spec()) == 1real * 1real + 0real * 0real);
    let n = val(product.norm_spec());
    assert(n == 1real) by (nonlinear_arith)
        requires
            n * n == 1real,
            n >= 0real,
    ;
    let square = product.normalized_spec();
    assert(val(square.scalar.0) * 1real == 1real);
    assert(val(square.bivector.e01) * 1real == b1);
    assert(val(square.bivector.e20) * 1real == b2);
    assert(val(square.bivector.e12) * 1real == 0real);
}

} // verus!
