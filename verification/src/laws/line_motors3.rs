//! The motor between two lines of space that lie in one plane is a
//! rotation about a line, or a translation: the root of the product of
//! the lines.

use core::ops::{Add, BitOr, BitXor, Div, Mul, Neg, Not, Sub};
use vstd::prelude::*;
use vstd::std_specs::cmp::PartialEqSpec;
use vstd::std_specs::ops::{
    AddSpec,
    BitOrSpec,
    BitXorSpec,
    DivSpec,
    MulSpec,
    NegSpec,
    NotSpec,
    SubSpec,
};

use crate::laws::exact::exact;
use crate::laws::motors3::norm2_of_motor3;
use crate::laws::quaternions::lagrange;
use crate::laws::reals::{distribute, root_of_square, sign, zero};
use crate::laws::rotations3::{
    is_rotation,
    root_of_rotation_of_space,
    square_of_root_of_rotation_of_space,
};
use crate::laws::turns::{is_a_line, product_of_lines};
use crate::laws::vectors::product_of_cross_products;
use crate::pga::line::Line3;
use crate::pga::motor::Motor3;
use crate::scalar::Num;

verus! {

/// Whether, in the reading `val`, two lines of space lie in one plane:
/// whether they meet in a point or are parallel. The direction of each,
/// times the moment of the other, add up to zero.
pub open spec fn in_one_plane<T: Num>(val: spec_fn(T) -> real, a: Line3<T>, b: Line3<T>) -> bool {
    val(b.0.e01) * val(a.0.e23) + val(b.0.e02) * val(a.0.e31) + val(b.0.e03) * val(a.0.e12) + val(
        a.0.e01,
    ) * val(b.0.e23) + val(a.0.e02) * val(b.0.e31) + val(a.0.e03) * val(b.0.e12) == 0real
}

/// The cosine of the angle between two normalized lines of space, in
/// the reading `val`: the inner product of their directions.
pub open spec fn cosine<T: Num>(val: spec_fn(T) -> real, a: Line3<T>, b: Line3<T>) -> real {
    val(b.0.e23) * val(a.0.e23) + val(b.0.e31) * val(a.0.e31) + val(b.0.e12) * val(a.0.e12)
}

/// The product of two normalized lines of space that lie in one plane.
///
/// In an exact field its scalar is the cosine of the angle between the
/// lines, the direction of its bivector is the cross product of the
/// directions, and it has no pseudoscalar and the norm one, so that
/// normalizing it changes nothing.
pub proof fn product_of_lines_in_one_plane<T: Num>(val: spec_fn(T) -> real, a: Line3<T>, b: Line3<T>)
    requires
        exact(val),
        val(a.0.norm2_spec()) == 1real,
        val(b.0.norm2_spec()) == 1real,
        in_one_plane(val, a, b),
    ensures
        ({
            let (d1, d2, d3) = (val(a.0.e23), val(a.0.e31), val(a.0.e12));
            let (m1, m2, m3) = (val(a.0.e01), val(a.0.e02), val(a.0.e03));
            let (f1, f2, f3) = (val(b.0.e23), val(b.0.e31), val(b.0.e12));
            let (g1, g2, g3) = (val(b.0.e01), val(b.0.e02), val(b.0.e03));
            let u = product_of_lines(a, b).normalized_spec();
            &&& val(u.scalar.0) == cosine(val, a, b)
            &&& val(u.bivector.e23) == f2 * d3 - f3 * d2
            &&& val(u.bivector.e31) == f3 * d1 - f1 * d3
            &&& val(u.bivector.e12) == f1 * d2 - f2 * d1
            &&& val(u.bivector.e01) == (g2 * d3 - g3 * d2) + (f2 * m3 - f3 * m2)
            &&& val(u.bivector.e02) == (g3 * d1 - g1 * d3) + (f3 * m1 - f1 * m3)
            &&& val(u.bivector.e03) == (g1 * d2 - g2 * d1) + (f1 * m2 - f2 * m1)
            &&& val(u.pseudo.e0123) == 0real
            &&& val(u.norm2_spec()) == 1real
        }),
{
    let (d1, d2, d3) = (val(a.0.e23), val(a.0.e31), val(a.0.e12));
    let (m1, m2, m3) = (val(a.0.e01), val(a.0.e02), val(a.0.e03));
    let (f1, f2, f3) = (val(b.0.e23), val(b.0.e31), val(b.0.e12));
    let (g1, g2, g3) = (val(b.0.e01), val(b.0.e02), val(b.0.e03));
    let p = product_of_lines(a, b);
    sign(f1, d1);
    sign(f2, d2);
    sign(f3, d3);
    sign(f1, d2);
    sign(f2, d1);
    sign(f1, d3);
    sign(f3, d1);
    sign(f2, d3);
    sign(f3, d2);
    sign(g3, d2);
    sign(g2, d3);
    sign(f3, m2);
    sign(f2, m3);
    sign(g1, d3);
    sign(g3, d1);
    sign(f1, m3);
    sign(f3, m1);
    sign(g2, d1);
    sign(g1, d2);
    sign(f2, m1);
    sign(f1, m2);
    sign(f3, m3);
    sign(f2, m2);
    sign(f1, m1);
    sign(g1, d1);
    sign(g2, d2);
    sign(g3, d3);
    let c = val(p.scalar.0);
    assert(c == -(f3 * (-d3) + f2 * (-d2) + f1 * (-d1)));
    let (e1, e2, e3) = (val(p.bivector.e23), val(p.bivector.e31), val(p.bivector.e12));
    let (x1, x2, x3) = (val(p.bivector.e01), val(p.bivector.e02), val(p.bivector.e03));
    assert(x1 == g3 * (-d2) - g2 * (-d3) + f3 * (-m2) - f2 * (-m3));
    assert(x2 == g1 * (-d3) - g3 * (-d1) + f1 * (-m3) - f3 * (-m1));
    assert(x3 == g2 * (-d1) - g1 * (-d2) + f2 * (-m1) - f1 * (-m2));
    assert(e3 == f2 * (-d1) - f1 * (-d2));
    assert(e2 == f1 * (-d3) - f3 * (-d1));
    assert(e1 == f3 * (-d2) - f2 * (-d3));
    assert(val(p.pseudo.e0123) == f3 * (-m3) + f2 * (-m2) + f1 * (-m1) + g1 * (-d1) + g2 * (-d2)
        + g3 * (-d3));
    assert(m1 * f1 == f1 * m1 && m2 * f2 == f2 * m2 && m3 * f3 == f3 * m3);
    assert(val(p.pseudo.e0123) == 0real);
    // it has the norm one
    norm2_of_motor3(val, p);
    lagrange(f1, f2, f3, d1, d2, d3);
    assert(val(p.norm2_spec()) == (f1 * f1 + f2 * f2 + f3 * f3) * (d1 * d1 + d2 * d2 + d3 * d3));
    assert(val(p.norm2_spec()) == 1real * 1real);
    let n = val(p.norm_spec());
    root_of_square(n, 1real);
    let u = p.normalized_spec();
    assert(val(u.scalar.0) * 1real == c);
    assert(val(u.bivector.e01) * 1real == x1);
    assert(val(u.bivector.e02) * 1real == x2);
    assert(val(u.bivector.e03) * 1real == x3);
    assert(val(u.bivector.e12) * 1real == e3);
    assert(val(u.bivector.e31) * 1real == e2);
    assert(val(u.bivector.e23) * 1real == e1);
    assert(val(u.pseudo.e0123) * 1real == 0real);
    norm2_of_motor3(val, u);
}

/// The product of two normalized lines of space that lie in one plane
/// and are not opposite is a rotation about a line, or a translation.
pub proof fn product_of_lines_is_a_rotation<T: Num>(val: spec_fn(T) -> real, a: Line3<T>, b: Line3<T>)
    requires
        exact(val),
        is_a_line(val, a),
        is_a_line(val, b),
        val(a.0.norm2_spec()) == 1real,
        val(b.0.norm2_spec()) == 1real,
        in_one_plane(val, a, b),
        cosine(val, a, b) != -1real,
    ensures
        is_rotation(val, product_of_lines(a, b).normalized_spec()),
{
    let (d1, d2, d3) = (val(a.0.e23), val(a.0.e31), val(a.0.e12));
    let (m1, m2, m3) = (val(a.0.e01), val(a.0.e02), val(a.0.e03));
    let (f1, f2, f3) = (val(b.0.e23), val(b.0.e31), val(b.0.e12));
    let (g1, g2, g3) = (val(b.0.e01), val(b.0.e02), val(b.0.e03));
    assert(d3 * d3 + d2 * d2 + d1 * d1 == 1real);
    assert(f3 * f3 + f2 * f2 + f1 * f1 == 1real);
    let u = product_of_lines(a, b).normalized_spec();
    product_of_lines_in_one_plane(val, a, b);
    let c = val(u.scalar.0);
    let (e1, e2, e3) = (val(u.bivector.e23), val(u.bivector.e31), val(u.bivector.e12));
    let (x1, x2, x3) = (val(u.bivector.e01), val(u.bivector.e02), val(u.bivector.e03));
    // the two parts of the bivector of the product are perpendicular
    distribute(g2 * d3 - g3 * d2, f2 * m3 - f3 * m2, e1);
    distribute(g3 * d1 - g1 * d3, f3 * m1 - f1 * m3, e2);
    distribute(g1 * d2 - g2 * d1, f1 * m2 - f2 * m1, e3);
    product_of_cross_products(g1, g2, g3, d1, d2, d3, f1, f2, f3, d1, d2, d3);
    product_of_cross_products(f1, f2, f3, m1, m2, m3, f1, f2, f3, d1, d2, d3);
    let gf = g1 * f1 + g2 * f2 + g3 * f3;
    let dd = d1 * d1 + d2 * d2 + d3 * d3;
    let gd = g1 * d1 + g2 * d2 + g3 * d3;
    let df = d1 * f1 + d2 * f2 + d3 * f3;
    let ff = f1 * f1 + f2 * f2 + f3 * f3;
    let md = m1 * d1 + m2 * d2 + m3 * d3;
    let fd = f1 * d1 + f2 * d2 + f3 * d3;
    let mf = m1 * f1 + m2 * f2 + m3 * f3;
    assert(gf == 0real && dd == 1real && ff == 1real && md == 0real && df == c && fd == c);
    assert(gd + mf == 0real);
    zero(dd);
    zero(ff);
    distribute(gd, mf, c);
    zero(c);
    assert(x1 * e1 + x2 * e2 + x3 * e3 == 0real - gd * c + (0real - c * mf));
}

/// The motor between two lines of space that lie in one plane is a
/// rotation about a line, or a translation.
///
/// This holds in an exact field, where the two lines are normalized,
/// meet in a point or are parallel, and are not opposite. The motor
/// composed with itself has the coefficients of the product of the
/// second line and the reverse of the first.
pub proof fn motor_between_lines_in_one_plane_is_a_rotation<T: Num>(
    val: spec_fn(T) -> real,
    a: Line3<T>,
    b: Line3<T>,
)
    requires
        exact(val),
        is_a_line(val, a),
        is_a_line(val, b),
        val(a.0.norm2_spec()) == 1real,
        val(b.0.norm2_spec()) == 1real,
        in_one_plane(val, a, b),
        cosine(val, a, b) != -1real,
    ensures
        ({
            let motor = Motor3::line_line_spec(a, b);
            let square = motor.compose_spec(motor);
            let product = product_of_lines(a, b).normalized_spec();
            &&& is_rotation(val, motor)
            &&& val(square.scalar.0) == val(product.scalar.0)
            &&& val(square.bivector.e01) == val(product.bivector.e01)
            &&& val(square.bivector.e02) == val(product.bivector.e02)
            &&& val(square.bivector.e03) == val(product.bivector.e03)
            &&& val(square.bivector.e12) == val(product.bivector.e12)
            &&& val(square.bivector.e31) == val(product.bivector.e31)
            &&& val(square.bivector.e23) == val(product.bivector.e23)
            &&& val(square.pseudo.e0123) == val(product.pseudo.e0123)
        }),
{
    let u = product_of_lines(a, b).normalized_spec();
    product_of_lines_is_a_rotation(val, a, b);
    assert(Motor3::line_line_spec(a, b) == u.sqrt_spec());
    root_of_rotation_of_space(val, u);
    square_of_root_of_rotation_of_space(val, u);
}

} // verus!
