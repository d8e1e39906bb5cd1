//! The motor between two lines of space moves the first to the second:
//! by a rotation where the lines meet, by a translation where they are
//! parallel, and by a screw where they are skew.

use core::ops::{Add, BitOr, BitXor, Div, Mul, Neg, Not, Sub};
use vstd::prelude::*;
use vstd::std_specs::cmp::PartialEqSpec;
use vstd::std_specs::ops::{
    AddSpec,
    BitOrSpec,
    BitXorSpec,
    DivSpec,
    MulSpec,
    NegSpec,
    NotSpec,
    SubSpec,
};

use crate::laws::exact::exact;
use crate::laws::line_motors3::cosine;
use crate::laws::motors3::norm2_of_motor3;
use crate::laws::quaternions::lagrange;
use crate::laws::reals::{cancel, distribute, distribute3, regroup, root_of_square, sign, zero};
use crate::laws::rotations3::{
    is_motion,
    raised,
    root_of_motion_of_space,
    square_of_root_of_motion_of_space,
};
use crate::laws::turns::{is_a_line, product_of_lines};
use crate::laws::vectors::{product_of_cross_products, triple_product};
use crate::pga::line::Line3;
use crate::pga::motor::Motor3;
use crate::scalar::Num;

verus! {

/// The product of two lines, times the first: the sum of the two lines,
/// less the first, and the direction of the first as often as the
/// pseudoscalar of the product; in the first coordinate of the
/// direction and of the moment.
///
/// The first line has the direction `d` and the moment `m`, the second
/// the direction `f` and the moment `g`; `c`, `e`, `x` and `q` are the
/// scalar, the two parts of the bivector and the pseudoscalar of their
/// product.
proof fn product_times_the_first(
    d1: real,
    d2: real,
    d3: real,
    m1: real,
    m2: real,
    m3: real,
    f1: real,
    f2: real,
    f3: real,
    g1: real,
    g2: real,
    g3: real,
    c: real,
    q: real,
    e2: real,
    e3: real,
    x2: real,
    x3: real,
)
    requires
        d1 * d1 + d2 * d2 + d3 * d3 == 1real,
        m1 * d1 + m2 * d2 + m3 * d3 == 0real,
        q + (g1 * d1 + g2 * d2 + g3 * d3 + m1 * f1 + m2 * f2 + m3 * f3) == 0real,
        c == f1 * d1 + f2 * d2 + f3 * d3,
        e2 == f3 * d1 - f1 * d3,
        e3 == f1 * d2 - f2 * d1,
        x2 == (g3 * d1 - g1 * d3) + (f3 * m1 - f1 * m3),
        x3 == (g1 * d2 - g2 * d1) + (f1 * m2 - f2 * m1),
    ensures
        d2 * e3 - d3 * e2 == f1 - c * d1,
        (d2 * x3 - d3 * x2) + (m2 * e3 - m3 * e2) == g1 + q * d1 - c * m1,
{
    let dd = d1 * d1 + d2 * d2 + d3 * d3;
    let df = d1 * f1 + d2 * f2 + d3 * f3;
    let dg = d1 * g1 + d2 * g2 + d3 * g3;
    let dm = d1 * m1 + d2 * m2 + d3 * m3;
    let md = m1 * d1 + m2 * d2 + m3 * d3;
    let mf = m1 * f1 + m2 * f2 + m3 * f3;
    assert(df == c && dm == 0real && md == 0real && dg + mf == -q);
    triple_product(d1, d2, d3, f1, f2, f3, d1, d2, d3);
    assert(f1 * dd == f1 && d1 * df == c * d1);
    // the moment
    distribute(g1 * d2 - g2 * d1, f1 * m2 - f2 * m1, d2);
    distribute(g3 * d1 - g1 * d3, f3 * m1 - f1 * m3, d3);
    triple_product(d1, d2, d3, g1, g2, g3, d1, d2, d3);
    triple_product(d1, d2, d3, f1, f2, f3, m1, m2, m3);
    triple_product(m1, m2, m3, f1, f2, f3, d1, d2, d3);
    assert(g1 * dd == g1 && m1 * df == c * m1);
    zero(f1);
    assert(f1 * dm == 0real && f1 * md == 0real);
    distribute(dg, mf, d1);
    sign(d1, q);
    regroup(d1, q, 1real);
    assert(d1 * dg + d1 * mf == -(q * d1));
}

/// The sum of two lines, times the reverse of their product: the
/// second line, as often as the sum of the product's scalar and one,
/// less the same of the first, and the difference of the directions
/// as often as the pseudoscalar of the product.
proof fn sum_times_the_product(
    d1: real,
    d2: real,
    d3: real,
    m1: real,
    m2: real,
    m3: real,
    f1: real,
    f2: real,
    f3: real,
    g1: real,
    g2: real,
    g3: real,
    c: real,
    q: real,
    e2: real,
    e3: real,
    x2: real,
    x3: real,
)
    requires
        d1 * d1 + d2 * d2 + d3 * d3 == 1real,
        f1 * f1 + f2 * f2 + f3 * f3 == 1real,
        m1 * d1 + m2 * d2 + m3 * d3 == 0real,
        g1 * f1 + g2 * f2 + g3 * f3 == 0real,
        q + (g1 * d1 + g2 * d2 + g3 * d3 + m1 * f1 + m2 * f2 + m3 * f3) == 0real,
        c == f1 * d1 + f2 * d2 + f3 * d3,
        e2 == f3 * d1 - f1 * d3,
        e3 == f1 * d2 - f2 * d1,
        x2 == (g3 * d1 - g1 * d3) + (f3 * m1 - f1 * m3),
        x3 == (g1 * d2 - g2 * d1) + (f1 * m2 - f2 * m1),
    ensures
        (d2 + f2) * e3 - (d3 + f3) * e2 == (1real + c) * (f1 - d1),
        ((m2 + g2) * e3 - (m3 + g3) * e2) + ((d2 + f2) * x3 - (d3 + f3) * x2) == (1real + c) * (g1
            - m1) - q * f1 + q * d1,
{
    let (s1, s2, s3) = (d1 + f1, d2 + f2, d3 + f3);
    let (t1, t2, t3) = (m1 + g1, m2 + g2, m3 + g3);
    // the inner products of the sums
    distribute(d1, f1, d1);
    distribute(d2, f2, d2);
    distribute(d3, f3, d3);
    distribute(d1, f1, f1);
    distribute(d2, f2, f2);
    distribute(d3, f3, f3);
    distribute(d1, f1, g1);
    distribute(d2, f2, g2);
    distribute(d3, f3, g3);
    distribute(d1, f1, m1);
    distribute(d2, f2, m2);
    distribute(d3, f3, m3);
    distribute(m1, g1, d1);
    distribute(m2, g2, d2);
    distribute(m3, g3, d3);
    distribute(m1, g1, f1);
    distribute(m2, g2, f2);
    distribute(m3, g3, f3);
    let sd = s1 * d1 + s2 * d2 + s3 * d3;
    let sf = s1 * f1 + s2 * f2 + s3 * f3;
    let sg = s1 * g1 + s2 * g2 + s3 * g3;
    let sm = s1 * m1 + s2 * m2 + s3 * m3;
    let td = t1 * d1 + t2 * d2 + t3 * d3;
    let tf = t1 * f1 + t2 * f2 + t3 * f3;
    let dg = d1 * g1 + d2 * g2 + d3 * g3;
    let fm = f1 * m1 + f2 * m2 + f3 * m3;
    assert(sd == 1real + c);
    assert(sf == 1real + c);
    assert(sg == dg);
    assert(sm == fm);
    assert(td == dg);
    assert(tf == fm);
    regroup(f1, m1, 1real);
    regroup(f2, m2, 1real);
    regroup(f3, m3, 1real);
    regroup(d1, g1, 1real);
    regroup(d2, g2, 1real);
    regroup(d3, g3, 1real);
    assert(dg + fm == -q);
    // the direction
    triple_product(s1, s2, s3, f1, f2, f3, d1, d2, d3);
    distribute(f1, d1, 1real + c);
    assert(f1 * sd == (1real + c) * f1 && d1 * sf == (1real + c) * d1);
    // the moment
    triple_product(t1, t2, t3, f1, f2, f3, d1, d2, d3);
    distribute(g1 * d2 - g2 * d1, f1 * m2 - f2 * m1, s2);
    distribute(g3 * d1 - g1 * d3, f3 * m1 - f1 * m3, s3);
    triple_product(s1, s2, s3, g1, g2, g3, d1, d2, d3);
    triple_product(s1, s2, s3, f1, f2, f3, m1, m2, m3);
    distribute(g1, m1, 1real + c);
    assert(g1 * sd == (1real + c) * g1 && m1 * sf == (1real + c) * m1);
    distribute(dg, fm, f1);
    distribute(dg, fm, d1);
    sign(f1, q);
    sign(d1, q);
    regroup(f1, q, 1real);
    regroup(d1, q, 1real);
    assert(f1 * td + f1 * sm == -(q * f1));
    assert(d1 * tf + d1 * sg == -(q * d1));
}

/// The product of two lines, times the first, has no scalar and no
/// pseudoscalar: the direction of the product is perpendicular to the
/// direction of the first line, and the two parts of the product are
/// perpendicular to the two parts of the line, crosswise.
proof fn product_times_the_first_is_a_bivector(
    d1: real,
    d2: real,
    d3: real,
    m1: real,
    m2: real,
    m3: real,
    f1: real,
    f2: real,
    f3: real,
    g1: real,
    g2: real,
    g3: real,
    e1: real,
    e2: real,
    e3: real,
    x1: real,
    x2: real,
    x3: real,
)
    requires
        e1 == f2 * d3 - f3 * d2,
        e2 == f3 * d1 - f1 * d3,
        e3 == f1 * d2 - f2 * d1,
        x1 == (g2 * d3 - g3 * d2) + (f2 * m3 - f3 * m2),
        x2 == (g3 * d1 - g1 * d3) + (f3 * m1 - f1 * m3),
        x3 == (g1 * d2 - g2 * d1) + (f1 * m2 - f2 * m1),
    ensures
        e1 * d1 + e2 * d2 + e3 * d3 == 0real,
        e1 * m1 + e2 * m2 + e3 * m3 + x1 * d1 + x2 * d2 + x3 * d3 == 0real,
{
    distribute(f2 * d3, f3 * d2, d1);
    distribute(f3 * d1, f1 * d3, d2);
    distribute(f1 * d2, f2 * d1, d3);
    regroup(f2, d3, d1);
    regroup(f3, d2, d1);
    regroup(f1, d3, d2);
    assert(e1 * d1 + e2 * d2 + e3 * d3 == 0real);
    distribute(f2 * d3, f3 * d2, m1);
    distribute(f3 * d1, f1 * d3, m2);
    distribute(f1 * d2, f2 * d1, m3);
    distribute(g2 * d3 - g3 * d2, f2 * m3 - f3 * m2, d1);
    distribute(g3 * d1 - g1 * d3, f3 * m1 - f1 * m3, d2);
    distribute(g1 * d2 - g2 * d1, f1 * m2 - f2 * m1, d3);
    distribute(g2 * d3, g3 * d2, d1);
    distribute(g3 * d1, g1 * d3, d2);
    distribute(g1 * d2, g2 * d1, d3);
    distribute(f2 * m3, f3 * m2, d1);
    distribute(f3 * m1, f1 * m3, d2);
    distribute(f1 * m2, f2 * m1, d3);
    regroup(g2, d3, d1);
    regroup(g3, d1, d2);
    regroup(g1, d2, d3);
    regroup(f2, d3, m1);
    regroup(f3, d2, m1);
    regroup(f3, d1, m2);
    regroup(f1, d3, m2);
    regroup(f1, d2, m3);
    regroup(f2, d1, m3);
}

/// A product, times a number, is the first factor times the number,
/// times the second.
proof fn scale(x: real, y: real, n: real)
    ensures
        (x * y) * n == (x * n) * y,
{
    assert((x * y) * n == (x * n) * y) by (nonlinear_arith);
}

/// A product, times the square of a number, is the product of the
/// factors, each times the number.
proof fn scale2(x: real, y: real, n: real)
    ensures
        (x * y) * (n * n) == (x * n) * (y * n),
        (x * (-y)) * (n * n) == -((x * n) * (y * n)),
{
    assert((x * y) * (n * n) == (x * n) * (y * n)) by (nonlinear_arith);
    assert((x * (-y)) * (n * n) == -((x * n) * (y * n))) by (nonlinear_arith);
}

/// A coordinate of the direction of a motor times a line, times the
/// number that the motor was divided by.
proof fn scaled_direction(
    rs: real,
    j2: real,
    j3: real,
    d1: real,
    d2: real,
    d3: real,
    n: real,
)
    ensures
        (rs * d1 + (j3 * d2 - j2 * d3)) * n == (rs * n) * d1 + ((j3 * n) * d2 - (j2 * n) * d3),
{
    distribute(rs * d1, j3 * d2 - j2 * d3, n);
    distribute(j3 * d2, j2 * d3, n);
    scale(rs, d1, n);
    scale(j3, d2, n);
    scale(j2, d3, n);
}

/// A coordinate of the moment of a motor times a line, times the number
/// that the motor was divided by.
proof fn scaled_moment(
    rs: real,
    y2: real,
    y3: real,
    j2: real,
    j3: real,
    d2: real,
    d3: real,
    m1: real,
    m2: real,
    m3: real,
    n: real,
)
    ensures
        (rs * m1 + (y3 * d2 - y2 * d3 + j3 * m2 - j2 * m3)) * n == (rs * n) * m1 + ((y3 * n) * d2
            - (y2 * n) * d3 + (j3 * n) * m2 - (j2 * n) * m3),
{
    distribute(rs * m1, y3 * d2 - y2 * d3 + j3 * m2 - j2 * m3, n);
    distribute(y3 * d2 - y2 * d3 + j3 * m2, j2 * m3, n);
    distribute(y3 * d2 - y2 * d3, j3 * m2, n);
    distribute(y3 * d2, y2 * d3, n);
    scale(rs, m1, n);
    scale(y3, d2, n);
    scale(y2, d3, n);
    scale(j3, m2, n);
    scale(j2, m3, n);
}

/// A coordinate of the direction of a line times the reverse of a
/// motor, times the square of the number that both were divided by.
proof fn scaled_direction_back(
    a1: real,
    a2: real,
    a3: real,
    rs: real,
    j2: real,
    j3: real,
    n: real,
)
    ensures
        (a1 * rs + (a3 * (-j2) - a2 * (-j3))) * (n * n) == (a1 * n) * (rs * n) + ((a2 * n) * (j3
            * n) - (a3 * n) * (j2 * n)),
{
    distribute(a1 * rs, a3 * (-j2) - a2 * (-j3), n * n);
    distribute(a3 * (-j2), a2 * (-j3), n * n);
    scale2(a1, rs, n);
    scale2(a3, j2, n);
    scale2(a2, j3, n);
}

/// A coordinate of the moment of a line times the reverse of a motor,
/// times the square of the number that both were divided by.
proof fn scaled_moment_back(
    b1: real,
    b2: real,
    b3: real,
    a2: real,
    a3: real,
    rs: real,
    j2: real,
    j3: real,
    y2: real,
    y3: real,
    n: real,
)
    ensures
        (b1 * rs + (b3 * (-j2) - b2 * (-j3) + a3 * (-y2) - a2 * (-y3))) * (n * n) == (b1 * n) * (rs
            * n) + (((b2 * n) * (j3 * n) - (b3 * n) * (j2 * n)) + ((a2 * n) * (y3 * n) - (a3 * n)
            * (y2 * n))),
{
    distribute(b1 * rs, b3 * (-j2) - b2 * (-j3) + a3 * (-y2) - a2 * (-y3), n * n);
    distribute(b3 * (-j2) - b2 * (-j3) + a3 * (-y2), a2 * (-y3), n * n);
    distribute(b3 * (-j2) - b2 * (-j3), a3 * (-y2), n * n);
    distribute(b3 * (-j2), b2 * (-j3), n * n);
    scale2(b1, rs, n);
    scale2(b3, j2, n);
    scale2(b2, j3, n);
    scale2(a3, y2, n);
    scale2(a2, y3, n);
}

/// The sum of two coordinates and their difference, each as often as
/// half the squared number, is the second as often as the squared
/// number.
proof fn doubled(d: real, f: real, c: real, nn: real)
    requires
        nn == 2real + 2real * c,
    ensures
        (d + f) * (c + 1real) + (1real + c) * (f - d) == f * nn,
{
    distribute(d, f, c + 1real);
    distribute(f, d, 1real + c);
    assert(f * (2real + 2real * c) == f * (c + 1real) + (1real + c) * f) by (nonlinear_arith);
}

/// The product of two normalized lines of space.
///
/// In an exact field its scalar is the cosine of the angle between the
/// lines, the direction of its bivector is the cross product of the
/// directions, its pseudoscalar is what the direction of each makes of
/// the moment of the other, reversed, and it has the norm one, so that
/// normalizing it changes nothing.
pub proof fn product_of_normalized_lines<T: Num>(val: spec_fn(T) -> real, a: Line3<T>, b: Line3<T>)
    requires
        exact(val),
        val(a.0.norm2_spec()) == 1real,
        val(b.0.norm2_spec()) == 1real,
    ensures
        ({
            let (d1, d2, d3) = (val(a.0.e23), val(a.0.e31), val(a.0.e12));
            let (m1, m2, m3) = (val(a.0.e01), val(a.0.e02), val(a.0.e03));
            let (f1, f2, f3) = (val(b.0.e23), val(b.0.e31), val(b.0.e12));
            let (g1, g2, g3) = (val(b.0.e01), val(b.0.e02), val(b.0.e03));
            let u = product_of_lines(a, b).normalized_spec();
            &&& val(u.scalar.0) == cosine(val, a, b)
            &&& val(u.bivector.e23) == f2 * d3 - f3 * d2
            &&& val(u.bivector.e31) == f3 * d1 - f1 * d3
            &&& val(u.bivector.e12) == f1 * d2 - f2 * d1
            &&& val(u.bivector.e01) == (g2 * d3 - g3 * d2) + (f2 * m3 - f3 * m2)
            &&& val(u.bivector.e02) == (g3 * d1 - g1 * d3) + (f3 * m1 - f1 * m3)
            &&& val(u.bivector.e03) == (g1 * d2 - g2 * d1) + (f1 * m2 - f2 * m1)
            &&& val(u.pseudo.e0123) == -(f3 * m3 + f2 * m2 + f1 * m1 + g1 * d1 + g2 * d2 + g3 * d3)
            &&& val(u.norm2_spec()) == 1real
        }),
{
    let (d1, d2, d3) = (val(a.0.e23), val(a.0.e31), val(a.0.e12));
    let (m1, m2, m3) = (val(a.0.e01), val(a.0.e02), val(a.0.e03));
    let (f1, f2, f3) = (val(b.0.e23), val(b.0.e31), val(b.0.e12));
    let (g1, g2, g3) = (val(b.0.e01), val(b.0.e02), val(b.0.e03));
    let p = product_of_lines(a, b);
    sign(f1, d1);
    sign(f2, d2);
    sign(f3, d3);
    sign(f1, d2);
    sign(f2, d1);
    sign(f1, d3);
    sign(f3, d1);
    sign(f2, d3);
    sign(f3, d2);
    sign(g3, d2);
    sign(g2, d3);
    sign(f3, m2);
    sign(f2, m3);
    sign(g1, d3);
    sign(g3, d1);
    sign(f1, m3);
    sign(f3, m1);
    sign(g2, d1);
    sign(g1, d2);
    sign(f2, m1);
    sign(f1, m2);
    sign(f3, m3);
    sign(f2, m2);
    sign(f1, m1);
    sign(g1, d1);
    sign(g2, d2);
    sign(g3, d3);
    let c = val(p.scalar.0);
    assert(c == -(f3 * (-d3) + f2 * (-d2) + f1 * (-d1)));
    let (e1, e2, e3) = (val(p.bivector.e23), val(p.bivector.e31), val(p.bivector.e12));
    let (x1, x2, x3) = (val(p.bivector.e01), val(p.bivector.e02), val(p.bivector.e03));
    assert(x1 == g3 * (-d2) - g2 * (-d3) + f3 * (-m2) - f2 * (-m3));
    assert(x2 == g1 * (-d3) - g3 * (-d1) + f1 * (-m3) - f3 * (-m1));
    assert(x3 == g2 * (-d1) - g1 * (-d2) + f2 * (-m1) - f1 * (-m2));
    assert(e3 == f2 * (-d1) - f1 * (-d2));
    assert(e2 == f1 * (-d3) - f3 * (-d1));
    assert(e1 == f3 * (-d2) - f2 * (-d3));
    assert(val(p.pseudo.e0123) == f3 * (-m3) + f2 * (-m2) + f1 * (-m1) + g1 * (-d1) + g2 * (-d2)
        + g3 * (-d3));
    let q = val(p.pseudo.e0123);
    assert(q == -(f3 * m3 + f2 * m2 + f1 * m1 + g1 * d1 + g2 * d2 + g3 * d3));
    // it has the norm one
    norm2_of_motor3(val, p);
    lagrange(f1, f2, f3, d1, d2, d3);
    assert(val(p.norm2_spec()) == (f1 * f1 + f2 * f2 + f3 * f3) * (d1 * d1 + d2 * d2 + d3 * d3));
    assert(val(p.norm2_spec()) == 1real * 1real);
    let n = val(p.norm_spec());
    root_of_square(n, 1real);
    let u = p.normalized_spec();
    assert(val(u.scalar.0) * 1real == c);
    assert(val(u.bivector.e01) * 1real == x1);
    assert(val(u.bivector.e02) * 1real == x2);
    assert(val(u.bivector.e03) * 1real == x3);
    assert(val(u.bivector.e12) * 1real == e3);
    assert(val(u.bivector.e31) * 1real == e2);
    assert(val(u.bivector.e23) * 1real == e1);
    assert(val(u.pseudo.e0123) * 1real == q);
    norm2_of_motor3(val, u);
}

/// The product of two normalized lines of space that are not opposite
/// is a motion that has a root.
pub proof fn product_of_lines_is_a_motion<T: Num>(val: spec_fn(T) -> real, a: Line3<T>, b: Line3<T>)
    requires
        exact(val),
        is_a_line(val, a),
        is_a_line(val, b),
        val(a.0.norm2_spec()) == 1real,
        val(b.0.norm2_spec()) == 1real,
        cosine(val, a, b) != -1real,
    ensures
        is_motion(val, product_of_lines(a, b).normalized_spec()),
{
    let (d1, d2, d3) = (val(a.0.e23), val(a.0.e31), val(a.0.e12));
    let (m1, m2, m3) = (val(a.0.e01), val(a.0.e02), val(a.0.e03));
    let (f1, f2, f3) = (val(b.0.e23), val(b.0.e31), val(b.0.e12));
    let (g1, g2, g3) = (val(b.0.e01), val(b.0.e02), val(b.0.e03));
    assert(d3 * d3 + d2 * d2 + d1 * d1 == 1real);
    assert(f3 * f3 + f2 * f2 + f1 * f1 == 1real);
    let u = product_of_lines(a, b).normalized_spec();
    product_of_normalized_lines(val, a, b);
    let c = val(u.scalar.0);
    let q = val(u.pseudo.e0123);
    let (e1, e2, e3) = (val(u.bivector.e23), val(u.bivector.e31), val(u.bivector.e12));
    let (x1, x2, x3) = (val(u.bivector.e01), val(u.bivector.e02), val(u.bivector.e03));
    // the inner product of the two parts of the bivector of the product
    distribute(g2 * d3 - g3 * d2, f2 * m3 - f3 * m2, e1);
    distribute(g3 * d1 - g1 * d3, f3 * m1 - f1 * m3, e2);
    distribute(g1 * d2 - g2 * d1, f1 * m2 - f2 * m1, e3);
    product_of_cross_products(g1, g2, g3, d1, d2, d3, f1, f2, f3, d1, d2, d3);
    product_of_cross_products(f1, f2, f3, m1, m2, m3, f1, f2, f3, d1, d2, d3);
    let gf = g1 * f1 + g2 * f2 + g3 * f3;
    let dd = d1 * d1 + d2 * d2 + d3 * d3;
    let gd = g1 * d1 + g2 * d2 + g3 * d3;
    let df = d1 * f1 + d2 * f2 + d3 * f3;
    let ff = f1 * f1 + f2 * f2 + f3 * f3;
    let md = m1 * d1 + m2 * d2 + m3 * d3;
    let fd = f1 * d1 + f2 * d2 + f3 * d3;
    let mf = m1 * f1 + m2 * f2 + m3 * f3;
    regroup(f1, m1, 1real);
    regroup(f2, m2, 1real);
    regroup(f3, m3, 1real);
    regroup(d1, f1, 1real);
    regroup(d2, f2, 1real);
    regroup(d3, f3, 1real);
    assert(gf == 0real && dd == 1real && ff == 1real && md == 0real && df == c && fd == c);
    assert(gd + mf == -q);
    zero(dd);
    zero(ff);
    distribute(gd, mf, c);
    regroup(gd, c, 1real);
    sign(c, q);
    assert(x1 * e1 + x2 * e2 + x3 * e3 == 0real - gd * c + (0real - c * mf));
    assert(x1 * e1 + x2 * e2 + x3 * e3 == c * q);
}

/// The moment of a root times a line, as often as the square of the
/// number that the root divides by.
proof fn moment_toward_the_second(
    d1: real,
    d2: real,
    d3: real,
    m1: real,
    m2: real,
    m3: real,
    f1: real,
    g1: real,
    c: real,
    q: real,
    e2: real,
    e3: real,
    x2: real,
    x3: real,
    nn: real,
    y2: real,
    y3: real,
    r: real,
    b: real,
)
    requires
        nn == 2real + 2real * c,
        y2 * nn == x2 * nn + q * e2,
        y3 * nn == x3 * nn + q * e3,
        r * 2real == q,
        (d2 * x3 - d3 * x2) + (m2 * e3 - m3 * e2) == g1 + q * d1 - c * m1,
        d2 * e3 - d3 * e2 == f1 - c * d1,
        b == (c + 1real) * m1 + (y3 * d2 - y2 * d3 + e3 * m2 - e2 * m3) - r * d1,
    ensures
        b * nn == nn * (m1 + g1) + q * (d1 + f1),
{
    distribute((c + 1real) * m1 + (y3 * d2 - y2 * d3 + e3 * m2 - e2 * m3), r * d1, nn);
    distribute((c + 1real) * m1, y3 * d2 - y2 * d3 + e3 * m2 - e2 * m3, nn);
    distribute(y3 * d2 - y2 * d3 + e3 * m2, e2 * m3, nn);
    distribute(y3 * d2 - y2 * d3, e3 * m2, nn);
    distribute(y3 * d2, y2 * d3, nn);
    assert((y3 * d2) * nn == (y3 * nn) * d2) by (nonlinear_arith);
    assert((y2 * d3) * nn == (y2 * nn) * d3) by (nonlinear_arith);
    distribute(x3 * nn, q * e3, d2);
    distribute(x2 * nn, q * e2, d3);
    assert((x3 * nn) * d2 == nn * (x3 * d2)) by (nonlinear_arith);
    assert((x2 * nn) * d3 == nn * (x2 * d3)) by (nonlinear_arith);
    assert((q * e3) * d2 == q * (d2 * e3)) by (nonlinear_arith);
    assert((q * e2) * d3 == q * (d3 * e2)) by (nonlinear_arith);
    assert((e3 * m2) * nn == nn * (m2 * e3)) by (nonlinear_arith);
    assert((e2 * m3) * nn == nn * (m3 * e2)) by (nonlinear_arith);
    assert(((c + 1real) * m1) * nn == nn * ((c + 1real) * m1)) by (nonlinear_arith);
    assert((r * d1) * nn == (r * 2real) * ((1real + c) * d1)) by (nonlinear_arith)
        requires
            nn == 2real + 2real * c,
    ;
    // gathered
    let t = (d2 * x3 - d3 * x2) + (m2 * e3 - m3 * e2);
    distribute(d2 * x3 - d3 * x2, m2 * e3 - m3 * e2, nn);
    distribute(d2 * x3, d3 * x2, nn);
    distribute(m2 * e3, m3 * e2, nn);
    regroup(x3, d2, 1real);
    regroup(x2, d3, 1real);
    distribute(d2 * e3, d3 * e2, q);
    assert(b * nn == nn * ((c + 1real) * m1) + nn * t + q * (d2 * e3 - d3 * e2) - q * ((1real + c)
        * d1));
    distribute((c + 1real) * m1, t, nn);
    distribute(c, 1real, m1);
    distribute(1real, c, d1);
    distribute(f1, c * d1, q);
    distribute(d1, c * d1, q);
    distribute(m1 + g1, q * d1, nn);
    distribute(m1, g1, nn);
    distribute(d1, f1, q);
    assert(nn * (q * d1) == 2real * (q * d1) + 2real * (q * (c * d1))) by (nonlinear_arith)
        requires
            nn == 2real + 2real * c,
    ;
}

/// The moment of a root times a line times the reverse of the root, as
/// often as the fourth power of the number that the root divides by.
proof fn moment_onto_the_second(
    d1: real,
    f1: real,
    m1: real,
    g1: real,
    a1: real,
    a2: real,
    a3: real,
    b1: real,
    b2: real,
    b3: real,
    t1: real,
    t2: real,
    t3: real,
    c: real,
    q: real,
    e2: real,
    e3: real,
    x2: real,
    x3: real,
    nn: real,
    y2: real,
    y3: real,
    r: real,
    w: real,
)
    requires
        nn == 2real + 2real * c,
        a1 == d1 + f1,
        t1 == m1 + g1,
        b1 * nn == nn * t1 + q * a1,
        b2 * nn == nn * t2 + q * a2,
        b3 * nn == nn * t3 + q * a3,
        y2 * nn == x2 * nn + q * e2,
        y3 * nn == x3 * nn + q * e3,
        r * 2real == q,
        (t2 * e3 - t3 * e2) + (a2 * x3 - a3 * x2) == (1real + c) * (g1 - m1) - q * f1 + q * d1,
        a2 * e3 - a3 * e2 == (1real + c) * (f1 - d1),
        w == b1 * (c + 1real) + (b2 * e3 - b3 * e2) + (a2 * y3 - a3 * y2) - a1 * r,
    ensures
        w * nn == (g1 * nn) * nn,
{
    let k = c + 1real;
    distribute(b1 * k + (b2 * e3 - b3 * e2) + (a2 * y3 - a3 * y2), a1 * r, nn);
    distribute(b1 * k + (b2 * e3 - b3 * e2), a2 * y3 - a3 * y2, nn);
    distribute(b1 * k, b2 * e3 - b3 * e2, nn);
    distribute(b2 * e3, b3 * e2, nn);
    distribute(a2 * y3, a3 * y2, nn);
    assert((b1 * k) * nn == (b1 * nn) * k) by (nonlinear_arith);
    assert((b2 * e3) * nn == (b2 * nn) * e3) by (nonlinear_arith);
    assert((b3 * e2) * nn == (b3 * nn) * e2) by (nonlinear_arith);
    assert((a2 * y3) * nn == a2 * (y3 * nn)) by (nonlinear_arith);
    assert((a3 * y2) * nn == a3 * (y2 * nn)) by (nonlinear_arith);
    assert((a1 * r) * nn == (r * 2real) * (a1 * k)) by (nonlinear_arith)
        requires
            nn == 2real + 2real * c,
            k == c + 1real,
    ;
    distribute(nn * t1, q * a1, k);
    distribute(nn * t2, q * a2, e3);
    distribute(nn * t3, q * a3, e2);
    distribute(x3 * nn, q * e3, a2);
    distribute(x2 * nn, q * e2, a3);
    assert((nn * t1) * k == nn * (k * t1)) by (nonlinear_arith);
    assert((q * a1) * k == q * (a1 * k)) by (nonlinear_arith);
    assert((nn * t2) * e3 == nn * (t2 * e3)) by (nonlinear_arith);
    assert((nn * t3) * e2 == nn * (t3 * e2)) by (nonlinear_arith);
    assert((q * a2) * e3 == q * (a2 * e3)) by (nonlinear_arith);
    assert((q * a3) * e2 == q * (a3 * e2)) by (nonlinear_arith);
    assert(a2 * (x3 * nn) == nn * (a2 * x3)) by (nonlinear_arith);
    assert(a3 * (x2 * nn) == nn * (a3 * x2)) by (nonlinear_arith);
    assert(a2 * (q * e3) == q * (a2 * e3)) by (nonlinear_arith);
    assert(a3 * (q * e2) == q * (a3 * e2)) by (nonlinear_arith);
    // gathered
    let u = (t2 * e3 - t3 * e2) + (a2 * x3 - a3 * x2);
    let v = a2 * e3 - a3 * e2;
    distribute(t2 * e3 - t3 * e2, a2 * x3 - a3 * x2, nn);
    distribute(t2 * e3, t3 * e2, nn);
    distribute(a2 * x3, a3 * x2, nn);
    distribute(a2 * e3, a3 * e2, q);
    assert(w * nn == nn * (k * t1) + nn * u + 2real * (q * v));
    // with what the cross products are
    distribute(k * t1, u, nn);
    distribute(m1, g1, k);
    distribute(g1, m1, 1real + c);
    assert(k * t1 + u == 2real * (k * g1) + (q * d1 - q * f1));
    distribute(2real * (k * g1), q * d1 - q * f1, nn);
    distribute(f1, d1, q);
    sign(nn, q * d1 - q * f1);
    assert(q * ((1real + c) * (f1 - d1)) == (q * (f1 - d1)) * k) by (nonlinear_arith)
        requires
            k == c + 1real,
    ;
    assert(2real * ((q * (f1 - d1)) * k) == nn * (q * (f1 - d1))) by (nonlinear_arith)
        requires
            nn == 2real + 2real * c,
            k == c + 1real,
    ;
    assert(2real * (q * v) == -(nn * (q * d1 - q * f1)));
    assert(2real * (k * g1) == g1 * nn) by (nonlinear_arith)
        requires
            nn == 2real + 2real * c,
            k == c + 1real,
    ;
    regroup(nn, g1 * nn, 1real);
}

/// What a root and a line have of a pseudoscalar: nothing.
proof fn no_pseudoscalar_toward_the_second(
    d1: real,
    d2: real,
    d3: real,
    m1: real,
    m2: real,
    m3: real,
    e1: real,
    e2: real,
    e3: real,
    x1: real,
    x2: real,
    x3: real,
    q: real,
    nn: real,
    y1: real,
    y2: real,
    y3: real,
)
    requires
        e1 * d1 + e2 * d2 + e3 * d3 == 0real,
        e1 * m1 + e2 * m2 + e3 * m3 + x1 * d1 + x2 * d2 + x3 * d3 == 0real,
        y1 * nn == x1 * nn + q * e1,
        y2 * nn == x2 * nn + q * e2,
        y3 * nn == x3 * nn + q * e3,
    ensures
        (e3 * m3 + e2 * m2 + e1 * m1 + y1 * d1 + y2 * d2 + y3 * d3) * nn == 0real,
{
    distribute(e3 * m3 + e2 * m2 + e1 * m1 + y1 * d1 + y2 * d2, y3 * d3, nn);
    distribute(e3 * m3 + e2 * m2 + e1 * m1 + y1 * d1, y2 * d2, nn);
    distribute(e3 * m3 + e2 * m2 + e1 * m1, y1 * d1, nn);
    distribute3(e3 * m3, e2 * m2, e1 * m1, nn);
    assert((y1 * d1) * nn == (y1 * nn) * d1) by (nonlinear_arith);
    assert((y2 * d2) * nn == (y2 * nn) * d2) by (nonlinear_arith);
    assert((y3 * d3) * nn == (y3 * nn) * d3) by (nonlinear_arith);
    distribute(x1 * nn, q * e1, d1);
    distribute(x2 * nn, q * e2, d2);
    distribute(x3 * nn, q * e3, d3);
    assert((x1 * nn) * d1 == (x1 * d1) * nn) by (nonlinear_arith);
    assert((x2 * nn) * d2 == (x2 * d2) * nn) by (nonlinear_arith);
    assert((x3 * nn) * d3 == (x3 * d3) * nn) by (nonlinear_arith);
    assert((q * e1) * d1 == q * (e1 * d1)) by (nonlinear_arith);
    assert((q * e2) * d2 == q * (e2 * d2)) by (nonlinear_arith);
    assert((q * e3) * d3 == q * (e3 * d3)) by (nonlinear_arith);
    distribute3(e1 * d1, e2 * d2, e3 * d3, q);
    distribute3(x1 * d1, x2 * d2, x3 * d3, nn);
    distribute(e1 * m1 + e2 * m2 + e3 * m3, x1 * d1 + x2 * d2 + x3 * d3, nn);
    distribute3(e1 * m1, e2 * m2, e3 * m3, nn);
    zero(q);
    zero(nn);
}

/// The motor between two lines of space moves the first to the second.
///
/// In an exact field, where the two lines are normalized and not
/// opposite, the line that the motor moves `a` to has the coefficients
/// of `b`: of lines that meet, of parallel lines and of skew lines.
pub proof fn line_line_moves_first_to_second_in_space<T: Num>(
    val: spec_fn(T) -> real,
    a: Line3<T>,
    b: Line3<T>,
)
    requires
        exact(val),
        is_a_line(val, a),
        is_a_line(val, b),
        val(a.0.norm2_spec()) == 1real,
        val(b.0.norm2_spec()) == 1real,
        cosine(val, a, b) != -1real,
    ensures
        ({
            let moved = Motor3::line_line_spec(a, b).move_line_spec(a).0;
            &&& val(moved.e01) == val(b.0.e01)
            &&& val(moved.e02) == val(b.0.e02)
            &&& val(moved.e03) == val(b.0.e03)
            &&& val(moved.e12) == val(b.0.e12)
            &&& val(moved.e31) == val(b.0.e31)
            &&& val(moved.e23) == val(b.0.e23)
        }),
{
    let (d1, d2, d3) = (val(a.0.e23), val(a.0.e31), val(a.0.e12));
    let (m1, m2, m3) = (val(a.0.e01), val(a.0.e02), val(a.0.e03));
    let (f1, f2, f3) = (val(b.0.e23), val(b.0.e31), val(b.0.e12));
    let (g1, g2, g3) = (val(b.0.e01), val(b.0.e02), val(b.0.e03));
    assert(d3 * d3 + d2 * d2 + d1 * d1 == 1real);
    assert(f3 * f3 + f2 * f2 + f1 * f1 == 1real);
    // the product of the lines, and its root
    let u = product_of_lines(a, b).normalized_spec();
    product_of_normalized_lines(val, a, b);
    product_of_lines_is_a_motion(val, a, b);
    let c = val(u.scalar.0);
    let q = val(u.pseudo.e0123);
    let (e1, e2, e3) = (val(u.bivector.e23), val(u.bivector.e31), val(u.bivector.e12));
    let (x1, x2, x3) = (val(u.bivector.e01), val(u.bivector.e02), val(u.bivector.e03));
    root_of_motion_of_space(val, u);
    let n = val(raised(u).norm_spec());
    let nn = 2real + 2real * c;
    let k = c + 1real;
    let r = Motor3::line_line_spec(a, b);
    assert(r == u.sqrt_spec());
    let rs = val(r.scalar.0);
    let rp = val(r.pseudo.e0123);
    let (y1, y2, y3) = (val(r.bivector.e01), val(r.bivector.e02), val(r.bivector.e03));
    let (j1, j2, j3) = (val(r.bivector.e23), val(r.bivector.e31), val(r.bivector.e12));
    assert(nn != 0real) by (nonlinear_arith)
        requires
            n * n == nn,
            n > 0real,
    ;
    regroup(f1, m1, 1real);
    regroup(f2, m2, 1real);
    regroup(f3, m3, 1real);
    assert(q + (g1 * d1 + g2 * d2 + g3 * d3 + m1 * f1 + m2 * f2 + m3 * f3) == 0real);
    // the motor times the line
    let bv0 = r.scalar.mul_spec(a.0);
    let (s, bv1, p) = r.bivector.mul_spec(a.0);
    let bv2 = r.pseudo.mul_spec(a.0);
    let bv = bv0.add_spec(bv1).add_spec(bv2);
    assert(val(bv0.e01) == rs * m1 && val(bv0.e02) == rs * m2 && val(bv0.e03) == rs * m3);
    assert(val(bv0.e12) == rs * d3 && val(bv0.e31) == rs * d2 && val(bv0.e23) == rs * d1);
    assert(val(s.0) == -(j3 * d3 + j2 * d2 + j1 * d1));
    assert(val(bv1.e01) == y3 * d2 - y2 * d3 + j3 * m2 - j2 * m3);
    assert(val(bv1.e02) == y1 * d3 - y3 * d1 + j1 * m3 - j3 * m1);
    assert(val(bv1.e03) == y2 * d1 - y1 * d2 + j2 * m1 - j1 * m2);
    assert(val(bv1.e12) == j2 * d1 - j1 * d2);
    assert(val(bv1.e31) == j1 * d3 - j3 * d1);
    assert(val(bv1.e23) == j3 * d2 - j2 * d3);
    assert(val(p.e0123) == j3 * m3 + j2 * m2 + j1 * m1 + y1 * d1 + y2 * d2 + y3 * d3);
    assert(val(bv2.e01) == -(rp * d1) && val(bv2.e02) == -(rp * d2) && val(bv2.e03) == -(rp * d3));
    let (a1, a2, a3) = (val(bv.e23), val(bv.e31), val(bv.e12));
    let (b1, b2, b3) = (val(bv.e01), val(bv.e02), val(bv.e03));
    assert(a1 == rs * d1 + (j3 * d2 - j2 * d3));
    assert(a2 == rs * d2 + (j1 * d3 - j3 * d1));
    assert(a3 == rs * d3 + (j2 * d1 - j1 * d2));
    assert(b1 == rs * m1 + (y3 * d2 - y2 * d3 + j3 * m2 - j2 * m3) - rp * d1);
    assert(b2 == rs * m2 + (y1 * d3 - y3 * d1 + j1 * m3 - j3 * m1) - rp * d2);
    assert(b3 == rs * m3 + (y2 * d1 - y1 * d2 + j2 * m1 - j1 * m2) - rp * d3);
    // it has no scalar and no pseudoscalar
    product_times_the_first_is_a_bivector(
        d1, d2, d3, m1, m2, m3, f1, f2, f3, g1, g2, g3, e1, e2, e3, x1, x2, x3,
    );
    let (h1, h2, h3) = (y1 * n, y2 * n, y3 * n);
    let rn = rp * n;
    assert(val(s.0) == 0real && val(p.e0123) == 0real) by {
        distribute3(j3 * d3, j2 * d2, j1 * d1, n);
        scale(j3, d3, n);
        scale(j2, d2, n);
        scale(j1, d1, n);
        zero(n);
        cancel(j3 * d3 + j2 * d2 + j1 * d1, 0real, n);
        let v = val(p.e0123);
        distribute3(j3 * m3, j2 * m2, j1 * m1, n);
        distribute3(y1 * d1, y2 * d2, y3 * d3, n);
        distribute(j3 * m3 + j2 * m2 + j1 * m1 + y1 * d1 + y2 * d2, y3 * d3, n);
        distribute(j3 * m3 + j2 * m2 + j1 * m1 + y1 * d1, y2 * d2, n);
        distribute(j3 * m3 + j2 * m2 + j1 * m1, y1 * d1, n);
        scale(j3, m3, n);
        scale(j2, m2, n);
        scale(j1, m1, n);
        scale(y1, d1, n);
        scale(y2, d2, n);
        scale(y3, d3, n);
        assert(v * n == e3 * m3 + e2 * m2 + e1 * m1 + h1 * d1 + h2 * d2 + h3 * d3);
        no_pseudoscalar_toward_the_second(
            d1, d2, d3, m1, m2, m3, e1, e2, e3, x1, x2, x3, q, nn, h1, h2, h3,
        );
        zero(nn);
        cancel(v * n, 0real, nn);
        cancel(v, 0real, n);
    }
    // its bivector is the sum of the lines, divided, with a part of the twist
    let (bn1, bn2, bn3) = (b1 * n, b2 * n, b3 * n);
    assert(a1 * n == d1 + f1 && a2 * n == d2 + f2 && a3 * n == d3 + f3 && bn1 * nn == nn * (m1 + g1)
        + q * (d1 + f1) && bn2 * nn == nn * (m2 + g2) + q * (d2 + f2) && bn3 * nn == nn * (m3 + g3)
        + q * (d3 + f3)) by {
        scaled_direction(rs, j2, j3, d1, d2, d3, n);
        scaled_direction(rs, j3, j1, d2, d3, d1, n);
        scaled_direction(rs, j1, j2, d3, d1, d2, n);
        scaled_moment(rs, y2, y3, j2, j3, d2, d3, m1, m2, m3, n);
        scaled_moment(rs, y3, y1, j3, j1, d3, d1, m2, m3, m1, n);
        scaled_moment(rs, y1, y2, j1, j2, d1, d2, m3, m1, m2, n);
        distribute(rs * m1 + (y3 * d2 - y2 * d3 + j3 * m2 - j2 * m3), rp * d1, n);
        distribute(rs * m2 + (y1 * d3 - y3 * d1 + j1 * m3 - j3 * m1), rp * d2, n);
        distribute(rs * m3 + (y2 * d1 - y1 * d2 + j2 * m1 - j1 * m2), rp * d3, n);
        scale(rp, d1, n);
        scale(rp, d2, n);
        scale(rp, d3, n);
        assert(q + (g2 * d2 + g3 * d3 + g1 * d1 + m2 * f2 + m3 * f3 + m1 * f1) == 0real);
        assert(q + (g3 * d3 + g1 * d1 + g2 * d2 + m3 * f3 + m1 * f1 + m2 * f2) == 0real);
        product_times_the_first(
            d1, d2, d3, m1, m2, m3, f1, f2, f3, g1, g2, g3, c, q, e2, e3, x2, x3,
        );
        product_times_the_first(
            d2, d3, d1, m2, m3, m1, f2, f3, f1, g2, g3, g1, c, q, e3, e1, x3, x1,
        );
        product_times_the_first(
            d3, d1, d2, m3, m1, m2, f3, f1, f2, g3, g1, g2, c, q, e1, e2, x1, x2,
        );
        distribute(c, 1real, d1);
        distribute(c, 1real, d2);
        distribute(c, 1real, d3);
        regroup(e3, d2, 1real);
        regroup(e2, d3, 1real);
        regroup(e1, d3, 1real);
        regroup(e3, d1, 1real);
        regroup(e2, d1, 1real);
        regroup(e1, d2, 1real);
        assert(bn1 == k * m1 + (h3 * d2 - h2 * d3 + e3 * m2 - e2 * m3) - rn * d1);
        assert(bn2 == k * m2 + (h1 * d3 - h3 * d1 + e1 * m3 - e3 * m1) - rn * d2);
        assert(bn3 == k * m3 + (h2 * d1 - h1 * d2 + e2 * m1 - e1 * m2) - rn * d3);
        moment_toward_the_second(
            d1, d2, d3, m1, m2, m3, f1, g1, c, q, e2, e3, x2, x3, nn, h2, h3, rn, bn1,
        );
        moment_toward_the_second(
            d2, d3, d1, m2, m3, m1, f2, g2, c, q, e3, e1, x3, x1, nn, h3, h1, rn, bn2,
        );
        moment_toward_the_second(
            d3, d1, d2, m3, m1, m2, f3, g3, c, q, e1, e2, x1, x2, nn, h1, h2, rn, bn3,
        );
    }
    // that, times the reverse of the motor
    let pa = s.mul_spec(r.bivector.not_spec());
    let pb = bv.mul_spec(r.scalar.not_spec());
    let (_s, pc, _p) = bv.mul_spec(r.bivector.not_spec());
    let pd = p.mul_spec(r.bivector.not_spec());
    let pe = bv.mul_spec(r.pseudo.not_spec());
    let sum = pa.add_spec(pb).add_spec(pc).add_spec(pd).add_spec(pe);
    assert(r.move_line_spec(a) == Line3(sum.normalized_spec()));
    zero(-y1);
    zero(-y2);
    zero(-y3);
    zero(-j1);
    zero(-j2);
    zero(-j3);
    assert(val(pa.e01) == 0real * (-y1) && val(pa.e02) == 0real * (-y2) && val(pa.e03) == 0real * (
    -y3));
    assert(val(pa.e12) == 0real * (-j3) && val(pa.e31) == 0real * (-j2) && val(pa.e23) == 0real * (
    -j1));
    assert(val(pb.e01) == b1 * rs && val(pb.e02) == b2 * rs && val(pb.e03) == b3 * rs);
    assert(val(pb.e12) == a3 * rs && val(pb.e31) == a2 * rs && val(pb.e23) == a1 * rs);
    assert(val(pc.e01) == b3 * (-j2) - b2 * (-j3) + a3 * (-y2) - a2 * (-y3));
    assert(val(pc.e02) == b1 * (-j3) - b3 * (-j1) + a1 * (-y3) - a3 * (-y1));
    assert(val(pc.e03) == b2 * (-j1) - b1 * (-j2) + a2 * (-y1) - a1 * (-y2));
    assert(val(pc.e12) == a2 * (-j1) - a1 * (-j2));
    assert(val(pc.e31) == a1 * (-j3) - a3 * (-j1));
    assert(val(pc.e23) == a3 * (-j2) - a2 * (-j3));
    assert(val(pd.e01) == -(0real * (-j1)) && val(pd.e02) == -(0real * (-j2)) && val(pd.e03) == -(
    0real * (-j3)));
    assert(val(pe.e01) == -(a1 * rp) && val(pe.e02) == -(a2 * rp) && val(pe.e03) == -(a3 * rp));
    let (t1, t2, t3) = (val(sum.e23), val(sum.e31), val(sum.e12));
    let (w1, w2, w3) = (val(sum.e01), val(sum.e02), val(sum.e03));
    assert(t1 == a1 * rs + (a3 * (-j2) - a2 * (-j3)));
    assert(t2 == a2 * rs + (a1 * (-j3) - a3 * (-j1)));
    assert(t3 == a3 * rs + (a2 * (-j1) - a1 * (-j2)));
    assert(w1 == b1 * rs + (b3 * (-j2) - b2 * (-j3) + a3 * (-y2) - a2 * (-y3)) - a1 * rp);
    assert(w2 == b2 * rs + (b1 * (-j3) - b3 * (-j1) + a1 * (-y3) - a3 * (-y1)) - a2 * rp);
    assert(w3 == b3 * rs + (b2 * (-j1) - b1 * (-j2) + a2 * (-y1) - a1 * (-y2)) - a3 * rp);
    // is the second line
    assert(q + (g2 * d2 + g3 * d3 + g1 * d1 + m2 * f2 + m3 * f3 + m1 * f1) == 0real);
    assert(q + (g3 * d3 + g1 * d1 + g2 * d2 + m3 * f3 + m1 * f1 + m2 * f2) == 0real);
    sum_times_the_product(d1, d2, d3, m1, m2, m3, f1, f2, f3, g1, g2, g3, c, q, e2, e3, x2, x3);
    sum_times_the_product(d2, d3, d1, m2, m3, m1, f2, f3, f1, g2, g3, g1, c, q, e3, e1, x3, x1);
    sum_times_the_product(d3, d1, d2, m3, m1, m2, f3, f1, f2, g3, g1, g2, c, q, e1, e2, x1, x2);
    assert(t1 == f1 && t2 == f2 && t3 == f3) by {
        scaled_direction_back(a1, a2, a3, rs, j2, j3, n);
        scaled_direction_back(a2, a3, a1, rs, j3, j1, n);
        scaled_direction_back(a3, a1, a2, rs, j1, j2, n);
        doubled(d1, f1, c, n * n);
        doubled(d2, f2, c, n * n);
        doubled(d3, f3, c, n * n);
        cancel(t1, f1, n * n);
        cancel(t2, f2, n * n);
        cancel(t3, f3, n * n);
    }
    assert(w1 == g1 && w2 == g2 && w3 == g3) by {
        let (an1, an2, an3) = (a1 * n, a2 * n, a3 * n);
        scaled_moment_back(b1, b2, b3, a2, a3, rs, j2, j3, y2, y3, n);
        scaled_moment_back(b2, b3, b1, a3, a1, rs, j3, j1, y3, y1, n);
        scaled_moment_back(b3, b1, b2, a1, a2, rs, j1, j2, y1, y2, n);
        distribute(b1 * rs + (b3 * (-j2) - b2 * (-j3) + a3 * (-y2) - a2 * (-y3)), a1 * rp, n * n);
        distribute(b2 * rs + (b1 * (-j3) - b3 * (-j1) + a1 * (-y3) - a3 * (-y1)), a2 * rp, n * n);
        distribute(b3 * rs + (b2 * (-j1) - b1 * (-j2) + a2 * (-y1) - a1 * (-y2)), a3 * rp, n * n);
        scale2(a1, rp, n);
        scale2(a2, rp, n);
        scale2(a3, rp, n);
        let v1 = bn1 * k + (bn2 * e3 - bn3 * e2) + (an2 * h3 - an3 * h2) - an1 * rn;
        let v2 = bn2 * k + (bn3 * e1 - bn1 * e3) + (an3 * h1 - an1 * h3) - an2 * rn;
        let v3 = bn3 * k + (bn1 * e2 - bn2 * e1) + (an1 * h2 - an2 * h1) - an3 * rn;
        assert(w1 * (n * n) == v1);
        assert(w2 * (n * n) == v2);
        assert(w3 * (n * n) == v3);
        moment_onto_the_second(
            d1, f1, m1, g1, an1, an2, an3, bn1, bn2, bn3, m1 + g1, m2 + g2, m3 + g3, c, q, e2, e3,
            x2, x3, nn, h2, h3, rn, v1,
        );
        moment_onto_the_second(
            d2, f2, m2, g2, an2, an3, an1, bn2, bn3, bn1, m2 + g2, m3 + g3, m1 + g1, c, q, e3, e1,
            x3, x1, nn, h3, h1, rn, v2,
        );
        moment_onto_the_second(
            d3, f3, m3, g3, an3, an1, an2, bn3, bn1, bn2, m3 + g3, m1 + g1, m2 + g2, c, q, e1, e2,
            x1, x2, nn, h1, h2, rn, v3,
        );
        cancel(w1 * nn, g1 * nn, nn);
        cancel(w2 * nn, g2 * nn, nn);
        cancel(w3 * nn, g3 * nn, nn);
        cancel(w1, g1, nn);
        cancel(w2, g2, nn);
        cancel(w3, g3, nn);
    }
    // which has the norm one, so that normalizing changes nothing
    assert(val(sum.norm2_spec()) == t3 * t3 + t2 * t2 + t1 * t1);
    let size = val(sum.norm_spec());
    root_of_square(size, 1real);
    let moved = sum.normalized_spec();
    assert(val(moved.e01) * 1real == w1);
    assert(val(moved.e02) * 1real == w2);
    assert(val(moved.e03) * 1real == w3);
    assert(val(moved.e12) * 1real == t3);
    assert(val(moved.e31) * 1real == t2);
    assert(val(moved.e23) * 1real == t1);
}

/// The motor between two lines of space, composed with itself, is the
/// product of the lines.
///
/// In an exact field, where the two lines are normalized and not
/// opposite, the motor composed with itself has the coefficients of the
/// product of the second line and the reverse of the first.
pub proof fn motor_between_lines_is_the_root_of_their_product<T: Num>(
    val: spec_fn(T) -> real,
    a: Line3<T>,
    b: Line3<T>,
)
    requires
        exact(val),
        is_a_line(val, a),
        is_a_line(val, b),
        val(a.0.norm2_spec()) == 1real,
        val(b.0.norm2_spec()) == 1real,
        cosine(val, a, b) != -1real,
    ensures
        ({
            let motor = Motor3::line_line_spec(a, b);
            let square = motor.compose_spec(motor);
            let product = product_of_lines(a, b).normalized_spec();
            &&& val(square.scalar.0) == val(product.scalar.0)
            &&& val(square.bivector.e01) == val(product.bivector.e01)
            &&& val(square.bivector.e02) == val(product.bivector.e02)
            &&& val(square.bivector.e03) == val(product.bivector.e03)
            &&& val(square.bivector.e12) == val(product.bivector.e12)
            &&& val(square.bivector.e31) == val(product.bivector.e31)
            &&& val(square.bivector.e23) == val(product.bivector.e23)
            &&& val(square.pseudo.e0123) == val(product.pseudo.e0123)
        }),
{
    let u = product_of_lines(a, b).normalized_spec();
    product_of_lines_is_a_motion(val, a, b);
    assert(Motor3::line_line_spec(a, b) == u.sqrt_spec());
    square_of_root_of_motion_of_space(val, u);
}

} // verus!
