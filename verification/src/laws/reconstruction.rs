//! The motor of space that is reconstructed from two triples of points.

use core::ops::{Add, BitOr, BitXor, Div, Mul, Neg, Not, Sub};
use vstd::prelude::*;
use vstd::std_specs::cmp::PartialEqSpec;
use vstd::std_specs::ops::{
    AddSpec,
    BitOrSpec,
    BitXorSpec,
    DivSpec,
    MulSpec,
    NegSpec,
    NotSpec,
    SubSpec,
};

use crate::laws::exact::exact;
use crate::laws::incidence3::{join_of_space, join_of_space_is_a_line};
use crate::laws::motors3::{motor_between_points_of_space, normalized_motor3_is_unit};
use crate::laws::quaternions::product_of_unit_motors_of_space_is_unit;
use crate::laws::reals::{cancel, distribute3, zero};
use crate::laws::roots3::is_translation;
use crate::laws::translations3::{identity_after_translation, translation_moves_point_of_space};
use crate::laws::turns::{
    has_a_root,
    is_a_line,
    is_multiple_of_line,
    is_multiple_of_plane,
    motor_between_multiples_of_a_line,
    motor_between_multiples_of_a_plane,
    product_of_lines,
    product_of_planes,
    root_of_normalized_is_unit,
};
use crate::pga::elements::Dual;
use crate::pga::line::Line3;
use crate::pga::motor::Motor3;
use crate::pga::plane::Plane3;
use crate::pga::point::Point3;
use crate::scalar::Num;

verus! {

/// The motor that the reconstruction begins with: the motor between the
/// first points.
pub open spec fn first_motor<T: Num>(a0: Point3<T>, b0: Point3<T>) -> Motor3<T> {
    Motor3::point_point_spec(a0, b0)
}

/// The two lines that the reconstruction matches next: the line from
/// `b0` through the moved `a1`, normalized, and the line from `b0`
/// through `b1`.
pub open spec fn matched_lines<T: Num>(
    a0: Point3<T>,
    a1: Point3<T>,
    b0: Point3<T>,
    b1: Point3<T>,
) -> (Line3<T>, Line3<T>) {
    let moved = first_motor(a0, b0).move_point_spec(a1).normalized_spec();
    (b0.join_spec(moved).normalized_spec(), b0.join_spec(b1))
}

/// The motor that the reconstruction has after it has matched the lines.
pub open spec fn second_motor<T: Num>(
    a0: Point3<T>,
    a1: Point3<T>,
    b0: Point3<T>,
    b1: Point3<T>,
) -> Motor3<T> {
    let (from, to) = matched_lines(a0, a1, b0, b1);
    Motor3::line_line_spec(from, to).normalized_spec().compose_spec(first_motor(a0, b0))
}

/// The two planes that the reconstruction matches last: the plane
/// through `b0` and the moved `a1` and `a2`, normalized, and the plane
/// through `b0`, `b1` and `b2`.
pub open spec fn matched_planes<T: Num>(
    a0: Point3<T>,
    a1: Point3<T>,
    a2: Point3<T>,
    b0: Point3<T>,
    b1: Point3<T>,
    b2: Point3<T>,
) -> (Plane3<T>, Plane3<T>) {
    let motor = second_motor(a0, a1, b0, b1);
    let moved1 = motor.move_point_spec(a1).normalized_spec();
    let moved2 = motor.move_point_spec(a2).normalized_spec();
    (b0.join3_spec(moved1, moved2).normalized_spec(), b0.join3_spec(b1, b2))
}

/// The reconstruction is the motor between the matched planes, after
/// the motor between the matched lines, after the motor between the
/// first points.
pub proof fn reconstruction_by_its_steps<T: Num>(
    a0: Point3<T>,
    a1: Point3<T>,
    a2: Point3<T>,
    b0: Point3<T>,
    b1: Point3<T>,
    b2: Point3<T>,
)
    ensures
        ({
            let (from, to) = matched_planes(a0, a1, a2, b0, b1, b2);
            Motor3::reconstruct_spec(a0, a1, a2, b0, b1, b2) == Motor3::plane_plane_spec(
                from,
                to,
            ).normalized_spec().compose_spec(second_motor(a0, a1, b0, b1))
        }),
{
}

/// In an exact field the motor that is reconstructed from two triples
/// of points has the norm one, where the first points have weights of
/// the same sign, and the lines and the planes that are matched are not
/// opposite and their products are not zero.
pub proof fn reconstructed_motor_of_space_is_unit<T: Num>(
    val: spec_fn(T) -> real,
    a0: Point3<T>,
    a1: Point3<T>,
    a2: Point3<T>,
    b0: Point3<T>,
    b1: Point3<T>,
    b2: Point3<T>,
)
    requires
        exact(val),
        val(a0.0.e123) * val(b0.0.e123) > 0real,
        ({
            let (from, to) = matched_lines(a0, a1, b0, b1);
            has_a_root(val, product_of_lines(from, to))
        }),
        ({
            let (from, to) = matched_planes(a0, a1, a2, b0, b1, b2);
            has_a_root(val, product_of_planes(from, to))
        }),
    ensures
        val(second_motor(a0, a1, b0, b1).norm2_spec()) == 1real,
        val(Motor3::reconstruct_spec(a0, a1, a2, b0, b1, b2).norm2_spec()) == 1real,
{
    let v1 = first_motor(a0, b0);
    motor_between_points_of_space(val, a0, b0);
    let (from, to) = matched_lines(a0, a1, b0, b1);
    root_of_normalized_is_unit(val, product_of_lines(from, to));
    let turn = Motor3::line_line_spec(from, to);
    normalized_motor3_is_unit(val, turn);
    product_of_unit_motors_of_space_is_unit(val, turn.normalized_spec(), v1);
    let v21 = second_motor(a0, a1, b0, b1);
    let (p, q) = matched_planes(a0, a1, a2, b0, b1, b2);
    root_of_normalized_is_unit(val, product_of_planes(p, q));
    let twist = Motor3::plane_plane_spec(p, q);
    normalized_motor3_is_unit(val, twist);
    product_of_unit_motors_of_space_is_unit(val, twist.normalized_spec(), v21);
    reconstruction_by_its_steps(a0, a1, a2, b0, b1, b2);
}

/// Whether, in the reading `val`, the two points have the same
/// coefficients.
pub open spec fn same_point<T: Num>(val: spec_fn(T) -> real, p: Point3<T>, q: Point3<T>) -> bool {
    &&& val(p.0.e032) == val(q.0.e032)
    &&& val(p.0.e013) == val(q.0.e013)
    &&& val(p.0.e021) == val(q.0.e021)
    &&& val(p.0.e123) == val(q.0.e123)
}

/// Whether, in the reading `val`, the point `q` is the point `p` moved
/// by `(x, y, z)`, and both have the weight one.
pub open spec fn is_moved_by<T: Num>(
    val: spec_fn(T) -> real,
    q: Point3<T>,
    p: Point3<T>,
    x: real,
    y: real,
    z: real,
) -> bool {
    &&& val(p.0.e123) == 1real
    &&& val(q.0.e123) == 1real
    &&& val(q.0.e032) == val(p.0.e032) + x
    &&& val(q.0.e013) == val(p.0.e013) + y
    &&& val(q.0.e021) == val(p.0.e021) + z
}

/// Whether, in the reading `val`, the motor is the translation by
/// `(x, y, z)`: the translation whose bivector is minus half of that.
pub open spec fn is_translation_by<T: Num>(
    val: spec_fn(T) -> real,
    m: Motor3<T>,
    x: real,
    y: real,
    z: real,
) -> bool {
    &&& is_translation(val, m)
    &&& val(m.bivector.e01) * 2real == -x
    &&& val(m.bivector.e02) * 2real == -y
    &&& val(m.bivector.e03) * 2real == -z
}

/// In an exact field the translation by `(x, y, z)` moves a point of
/// weight one to the point that is moved by `(x, y, z)`.
pub proof fn translation_by<T: Num>(
    val: spec_fn(T) -> real,
    m: Motor3<T>,
    p: Point3<T>,
    q: Point3<T>,
    x: real,
    y: real,
    z: real,
)
    requires
        exact(val),
        is_translation_by(val, m, x, y, z),
        is_moved_by(val, q, p, x, y, z),
    ensures
        same_point(val, m.move_point_spec(p).normalized_spec(), q),
{
    translation_moves_point_of_space(val, m, p);
}

/// The planes through points that have the same coefficients have the
/// same coefficients.
proof fn planes_through_same_points<T: Num>(
    val: spec_fn(T) -> real,
    p: Point3<T>,
    q: Point3<T>,
    r: Point3<T>,
    s: Point3<T>,
    t: Point3<T>,
)
    requires
        exact(val),
        same_point(val, q, s),
        same_point(val, r, t),
    ensures
        ({
            let (g, h) = (p.join3_spec(q, r).0, p.join3_spec(s, t).0);
            &&& val(g.e0) == val(h.e0)
            &&& val(g.e1) == val(h.e1)
            &&& val(g.e2) == val(h.e2)
            &&& val(g.e3) == val(h.e3)
        }),
{
    let g = p.join3_spec(q, r).0;
    let h = p.join3_spec(s, t).0;
    assert(g == p.0.dual_spec().bitxor_spec(q.0.dual_spec()).bitxor_spec(
        r.0.dual_spec(),
    ).dual_spec());
    assert(h == p.0.dual_spec().bitxor_spec(s.0.dual_spec()).bitxor_spec(
        t.0.dual_spec(),
    ).dual_spec());
}

/// The motor that is reconstructed from a triple of points and the
/// triple moved by `(x, y, z)` is the translation by `(x, y, z)`: it
/// moves each point of the first triple to the point of the second.
///
/// This holds in an exact field, of points of weight one of which the
/// second and the third do not lie on a line with the first. With
/// `(0, 0, 0)` it says that the motor between a triple and itself is
/// the identity.
pub proof fn reconstruction_of_moved_points<T: Num>(
    val: spec_fn(T) -> real,
    a0: Point3<T>,
    a1: Point3<T>,
    a2: Point3<T>,
    b0: Point3<T>,
    b1: Point3<T>,
    b2: Point3<T>,
    x: real,
    y: real,
    z: real,
)
    requires
        exact(val),
        is_moved_by(val, b0, a0, x, y, z),
        is_moved_by(val, b1, a1, x, y, z),
        is_moved_by(val, b2, a2, x, y, z),
        val(b0.join_spec(b1).0.norm2_spec()) != 0real,
        val(b0.join3_spec(b1, b2).0.norm2_spec()) != 0real,
    ensures
        ({
            let m = Motor3::reconstruct_spec(a0, a1, a2, b0, b1, b2);
            &&& is_translation_by(val, m, x, y, z)
            &&& val(m.norm2_spec()) == 1real
            &&& same_point(val, m.move_point_spec(a0).normalized_spec(), b0)
            &&& same_point(val, m.move_point_spec(a1).normalized_spec(), b1)
            &&& same_point(val, m.move_point_spec(a2).normalized_spec(), b2)
        }),
{
    // the motor between the first points is the translation
    let v1 = first_motor(a0, b0);
    assert(val(a0.0.e123) * val(b0.0.e123) == 1real * 1real);
    motor_between_points_of_space(val, a0, b0);
    let (h1, h2, h3) = (
        val(v1.bivector.e01) * 2real,
        val(v1.bivector.e02) * 2real,
        val(v1.bivector.e03) * 2real,
    );
    let w = val(a0.0.e123) * val(b0.0.e123);
    assert(h1 * w == h1 * 1real && h2 * w == h2 * 1real && h3 * w == h3 * 1real);
    assert(val(b0.0.e123) * val(a0.0.e032) == 1real * val(a0.0.e032));
    assert(val(b0.0.e123) * val(a0.0.e013) == 1real * val(a0.0.e013));
    assert(val(b0.0.e123) * val(a0.0.e021) == 1real * val(a0.0.e021));
    assert(val(a0.0.e123) * val(b0.0.e032) == 1real * val(b0.0.e032));
    assert(val(a0.0.e123) * val(b0.0.e013) == 1real * val(b0.0.e013));
    assert(val(a0.0.e123) * val(b0.0.e021) == 1real * val(b0.0.e021));
    assert(is_translation(val, v1));
    assert(h1 == -x);
    assert(h2 == -y);
    assert(h3 == -z);
    assert(is_translation_by(val, v1, x, y, z));
    // it moves the second point to its place, so that the lines are the same
    let moved = v1.move_point_spec(a1).normalized_spec();
    translation_by(val, v1, a1, b1, x, y, z);
    let (from, to) = matched_lines(a0, a1, b0, b1);
    let raw = b0.join_spec(moved);
    assert(from == raw.normalized_spec());
    join_of_space(val, b0, moved);
    join_of_space(val, b0, b1);
    join_of_space_is_a_line(val, b0, b1);
    let n = val(raw.0.norm_spec());
    assert(val(raw.0.norm2_spec()) == val(to.0.norm2_spec()));
    assert(val(raw.0.e12) * val(raw.0.e12) >= 0real) by (nonlinear_arith);
    assert(val(raw.0.e31) * val(raw.0.e31) >= 0real) by (nonlinear_arith);
    assert(val(raw.0.e23) * val(raw.0.e23) >= 0real) by (nonlinear_arith);
    assert(n * n == val(raw.0.norm2_spec()) && n >= 0real);
    assert(n > 0real) by {
        if n == 0real {
            assert(0real * 0real == 0real);
        }
    }
    let (f1, f2, f3) = (val(from.0.e01), val(from.0.e02), val(from.0.e03));
    let (g1, g2, g3) = (val(from.0.e23), val(from.0.e31), val(from.0.e12));
    assert(f1 * n == val(to.0.e01) && f2 * n == val(to.0.e02) && f3 * n == val(to.0.e03));
    assert(g1 * n == val(to.0.e23) && g2 * n == val(to.0.e31) && g3 * n == val(to.0.e12));
    assert(f1 * n == n * f1 && f2 * n == n * f2 && f3 * n == n * f3 && g1 * n == n * g1 && g2 * n
        == n * g2 && g3 * n == n * g3);
    assert(is_multiple_of_line(val, to, n, from));
    assert(is_a_line(val, from)) by {
        zero(n);
        assert(val(to.0.norm2_spec()) == val(to.0.e12) * val(to.0.e12) + val(to.0.e31) * val(
            to.0.e31,
        ) + val(to.0.e23) * val(to.0.e23));
        if g1 == 0real && g2 == 0real && g3 == 0real {
            assert(val(to.0.norm2_spec()) == 0real * 0real + 0real * 0real + 0real * 0real);
        }
        assert((f1 * n) * (g1 * n) == (f1 * g1) * (n * n)) by (nonlinear_arith);
        assert((f2 * n) * (g2 * n) == (f2 * g2) * (n * n)) by (nonlinear_arith);
        assert((f3 * n) * (g3 * n) == (f3 * g3) * (n * n)) by (nonlinear_arith);
        distribute3(f1 * g1, f2 * g2, f3 * g3, n * n);
        assert(0real * (n * n) == 0real);
        cancel(f1 * g1 + f2 * g2 + f3 * g3, 0real, n * n);
    }
    motor_between_multiples_of_a_line(val, from, to, n);
    // so that the second motor is the translation
    let turn = Motor3::line_line_spec(from, to);
    identity_after_translation(val, turn, v1);
    identity_after_translation(val, turn.normalized_spec(), v1);
    let v21 = second_motor(a0, a1, b0, b1);
    assert(is_translation_by(val, v21, x, y, z));
    // it moves the second and the third point to their places, so that
    // the planes are the same
    let moved1 = v21.move_point_spec(a1).normalized_spec();
    let moved2 = v21.move_point_spec(a2).normalized_spec();
    translation_by(val, v21, a1, b1, x, y, z);
    translation_by(val, v21, a2, b2, x, y, z);
    let (p, q) = matched_planes(a0, a1, a2, b0, b1, b2);
    let flat = b0.join3_spec(moved1, moved2);
    assert(p == flat.normalized_spec());
    planes_through_same_points(val, b0, moved1, moved2, b1, b2);
    let k = val(flat.0.norm_spec());
    assert(val(flat.0.norm2_spec()) == val(q.0.norm2_spec()));
    assert(val(flat.0.e1) * val(flat.0.e1) >= 0real) by (nonlinear_arith);
    assert(val(flat.0.e2) * val(flat.0.e2) >= 0real) by (nonlinear_arith);
    assert(val(flat.0.e3) * val(flat.0.e3) >= 0real) by (nonlinear_arith);
    assert(k * k == val(flat.0.norm2_spec()) && k >= 0real);
    assert(k > 0real) by {
        if k == 0real {
            assert(0real * 0real == 0real);
        }
    }
    let (p0, p1, p2, p3) = (val(p.0.e0), val(p.0.e1), val(p.0.e2), val(p.0.e3));
    assert(p0 * k == val(q.0.e0) && p1 * k == val(q.0.e1) && p2 * k == val(q.0.e2) && p3 * k
        == val(q.0.e3));
    assert(p0 * k == k * p0 && p1 * k == k * p1 && p2 * k == k * p2 && p3 * k == k * p3);
    assert(is_multiple_of_plane(val, q, k, p));
    assert(p1 != 0real || p2 != 0real || p3 != 0real) by {
        zero(k);
        if p1 == 0real && p2 == 0real && p3 == 0real {
            assert(val(q.0.norm2_spec()) == 0real * 0real + 0real * 0real + 0real * 0real);
        }
    }
    motor_between_multiples_of_a_plane(val, p, q, k);
    // so that the whole is the translation
    let twist = Motor3::plane_plane_spec(p, q);
    identity_after_translation(val, twist, v21);
    identity_after_translation(val, twist.normalized_spec(), v21);
    reconstruction_by_its_steps(a0, a1, a2, b0, b1, b2);
    let m = Motor3::reconstruct_spec(a0, a1, a2, b0, b1, b2);
    assert(is_translation_by(val, m, x, y, z));
    translation_by(val, m, a0, b0, x, y, z);
    translation_by(val, m, a1, b1, x, y, z);
    translation_by(val, m, a2, b2, x, y, z);
    crate::laws::motors3::norm2_of_motor3(val, m);
}

} // verus!
