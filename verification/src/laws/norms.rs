//! Normalized lines, planes and points have the norm one.

use core::ops::{Add, Div, Mul};
use vstd::prelude::*;
use vstd::std_specs::cmp::PartialEqSpec;
use vstd::std_specs::ops::{AddSpec, DivSpec, MulSpec};

use crate::laws::exact::exact;
use crate::laws::reals::{cancel, distribute};
use crate::pga::line::{Line2, Line3};
use crate::pga::plane::Plane3;
use crate::pga::point::{Point2, Point3};
use crate::scalar::Num;

verus! {

/// Four squares, each divided by the same square, add up to the quotient
/// of their sum: where `p`, `q`, `r`, `s` times `d` are `x`, `y`, `z`,
/// `w`, and the squares of these add up to the square of `d`, the
/// squares of the former add up to one.
proof fn squares_of_quotients(
    p: real,
    q: real,
    r: real,
    x: real,
    y: real,
    z: real,
    d: real,
)
    requires
        p * d == x,
        q * d == y,
        r * d == z,
        d * d == x * x + y * y + z * z,
        d != 0real,
    ensures
        p * p + q * q + r * r == 1real,
{
    assert((p * p) * (d * d) == (p * d) * (p * d)) by (nonlinear_arith);
    assert((q * q) * (d * d) == (q * d) * (q * d)) by (nonlinear_arith);
    assert((r * r) * (d * d) == (r * d) * (r * d)) by (nonlinear_arith);
    let total = p * p + q * q + r * r;
    distribute(p * p + q * q, r * r, d * d);
    distribute(p * p, q * q, d * d);
    assert(total * (d * d) == d * d);
    assert(d * d != 0real) by (nonlinear_arith)
        requires
            d != 0real,
    ;
    cancel(total, 1real, d * d);
}

/// In an exact field a normalized line of the plane has the norm one,
/// unless it is ideal; an ideal line is left as it is.
pub proof fn normalized_line_is_unit<T: Num>(val: spec_fn(T) -> real, line: Line2<T>)
    requires
        exact(val),
    ensures
        !line.is_ideal_spec() ==> val(line.normalized_spec().0.norm2_spec()) == 1real,
        line.is_ideal_spec() ==> line.normalized_spec() == line,
{
    let v = line.0;
    let (a, b) = (val(v.e1), val(v.e2));
    assert(a * a >= 0real) by (nonlinear_arith);
    assert(b * b >= 0real) by (nonlinear_arith);
    if line.is_ideal_spec() {
        assert(a * a + b * b == 0real * 0real + 0real * 0real);
    } else {
        assert(a * a + b * b != 0real) by (nonlinear_arith)
            requires
                a != 0real || b != 0real,
        ;
        let d = val(v.norm_spec());
        assert(d * d == a * a + b * b + 0real * 0real);
        assert(d != 0real) by (nonlinear_arith)
            requires
                d * d != 0real,
        ;
        let n = v.normalized_spec();
        squares_of_quotients(val(n.e1), val(n.e2), 0real, a, b, 0real, d);
    }
}

/// In an exact field a normalized plane has the norm one, unless its
/// normal is zero; such a plane is left as it is.
pub proof fn normalized_plane_is_unit<T: Num>(val: spec_fn(T) -> real, plane: Plane3<T>)
    requires
        exact(val),
    ensures
        val(plane.0.norm2_spec()) != 0real ==> val(plane.normalized_spec().0.norm2_spec())
            == 1real,
        val(plane.0.norm2_spec()) == 0real ==> plane.normalized_spec() == plane,
{
    let v = plane.0;
    let (a, b, c) = (val(v.e1), val(v.e2), val(v.e3));
    assert(a * a >= 0real) by (nonlinear_arith);
    assert(b * b >= 0real) by (nonlinear_arith);
    assert(c * c >= 0real) by (nonlinear_arith);
    if val(v.norm2_spec()) != 0real {
        let d = val(v.norm_spec());
        assert(d * d == a * a + b * b + c * c);
        assert(d != 0real) by (nonlinear_arith)
            requires
                d * d != 0real,
        ;
        let n = v.normalized_spec();
        squares_of_quotients(val(n.e1), val(n.e2), val(n.e3), a, b, c, d);
    }
}

/// In an exact field a normalized line of space has the norm one,
/// unless its direction is zero; such a line is left as it is.
pub proof fn normalized_line_of_space_is_unit<T: Num>(val: spec_fn(T) -> real, line: Line3<T>)
    requires
        exact(val),
    ensures
        val(line.0.norm2_spec()) != 0real ==> val(line.normalized_spec().0.norm2_spec())
            == 1real,
        val(line.0.norm2_spec()) == 0real ==> line.normalized_spec() == line,
{
    let v = line.0;
    let (a, b, c) = (val(v.e12), val(v.e31), val(v.e23));
    assert(a * a >= 0real) by (nonlinear_arith);
    assert(b * b >= 0real) by (nonlinear_arith);
    assert(c * c >= 0real) by (nonlinear_arith);
    if val(v.norm2_spec()) != 0real {
        let d = val(v.norm_spec());
        assert(d * d == a * a + b * b + c * c);
        assert(d != 0real) by (nonlinear_arith)
            requires
                d * d != 0real,
        ;
        let n = v.normalized_spec();
        squares_of_quotients(val(n.e12), val(n.e31), val(n.e23), a, b, c, d);
    }
}

/// In an exact field a normalized point has the weight one, unless it is
/// ideal, and its other coefficients are the point's coordinates: times
/// the weight of the point, they are the coefficients of the point.
pub proof fn normalized_point_has_weight_one<T: Num>(
    val: spec_fn(T) -> real,
    p: Point2<T>,
    q: Point3<T>,
)
    requires
        exact(val),
    ensures
        !p.is_ideal_spec() ==> {
            let n = p.normalized_spec().0;
            &&& val(n.e12) == 1real
            &&& val(n.e20) * val(p.0.e12) == val(p.0.e20)
            &&& val(n.e01) * val(p.0.e12) == val(p.0.e01)
        },
        !q.is_ideal_spec() ==> {
            let n = q.normalized_spec().0;
            &&& val(n.e123) == 1real
            &&& val(n.e032) * val(q.0.e123) == val(q.0.e032)
            &&& val(n.e013) * val(q.0.e123) == val(q.0.e013)
            &&& val(n.e021) * val(q.0.e123) == val(q.0.e021)
        },
{
    if !p.is_ideal_spec() {
        let w = val(p.0.e12);
        let n = p.normalized_spec().0;
        if w == 1real {
            assert(n == p.0);
        } else {
            assert(val(n.e12) * w == w);
            assert(1real * w == w);
            cancel(val(n.e12), 1real, w);
        }
    }
    if !q.is_ideal_spec() {
        let w = val(q.0.e123);
        let n = q.normalized_spec().0;
        if w == 1real {
            assert(n == q.0);
        } else {
            assert(val(n.e123) * w == w);
            assert(1real * w == w);
            cancel(val(n.e123), 1real, w);
        }
    }
}

} // verus!
