//! Every motor that is constructed or composed has the norm one.

use core::ops::{Div, Mul, Not};
use vstd::prelude::*;
use vstd::std_specs::cmp::PartialEqSpec;
use vstd::std_specs::ops::{DivSpec, MulSpec, NotSpec};

use crate::laws::exact::{exact, exact_angles};
use crate::laws::motors::{
    normalized_motor2_is_unit,
    power_of_translation,
    product_of_unit_motors_is_unit,
};
use crate::laws::rotations::power_of_rotation;
use crate::pga::line::Line2;
use crate::pga::motor::Motor2;
use crate::pga::point::Point2;
use crate::scalar::Num;

verus! {

/// In an exact field with exact angles, every power of every motor has
/// the norm one, and so has its root.
pub proof fn power_is_unit<T: Num>(val: spec_fn(T) -> real, m: Motor2<T>, t: T)
    requires
        exact(val),
        exact_angles(val),
    ensures
        val(m.pow_spec(t).norm2_spec()) == 1real,
        val(m.sqrt_spec().norm2_spec()) == 1real,
{
    let half = T::ONE.div_spec(T::TWO);
    if val(m.bivector.e12) == 0real {
        power_of_translation(val, m, t);
        power_of_translation(val, m, half);
    } else {
        power_of_rotation(val, m, t);
        power_of_rotation(val, m, half);
    }
}

/// In an exact field with exact angles, the motor between two points
/// and the motor between two lines have the norm one.
pub proof fn constructed_motor_is_unit<T: Num>(
    val: spec_fn(T) -> real,
    a: Point2<T>,
    b: Point2<T>,
    k: Line2<T>,
    l: Line2<T>,
)
    requires
        exact(val),
        exact_angles(val),
    ensures
        val(Motor2::point_point_spec(a, b).norm2_spec()) == 1real,
        val(Motor2::line_line_spec(k, l).norm2_spec()) == 1real,
{
    let (s, bv) = b.0.mul_spec(a.0.not_spec());
    power_is_unit(val, Motor2 { scalar: s, bivector: bv }.normalized_spec(), T::ONE);
    let (s, bv) = l.0.not_spec().mul_spec(k.0.not_spec());
    power_is_unit(val, Motor2 { scalar: s, bivector: bv }.normalized_spec(), T::ONE);
}

/// In an exact field with exact angles, the motor that is reconstructed
/// from two pairs of points has the norm one.
pub proof fn reconstructed_motor_is_unit<T: Num>(
    val: spec_fn(T) -> real,
    a0: Point2<T>,
    a1: Point2<T>,
    b0: Point2<T>,
    b1: Point2<T>,
)
    requires
        exact(val),
        exact_angles(val),
    ensures
        val(Motor2::reconstruct_spec(a0, a1, b0, b1).norm2_spec()) == 1real,
{
    let v1 = Motor2::point_point_spec(a0, b0);
    let moved = v1.move_point_spec(a1).normalized_spec();
    let al = b0.join_spec(b1);
    let al1 = b0.join_spec(moved).normalized_spec();
    let turn = Motor2::line_line_spec(al1, al);
    let v2 = turn.normalized_spec();
    assert(Motor2::reconstruct_spec(a0, a1, b0, b1) == v2.compose_spec(v1));
    constructed_motor_is_unit(val, a0, b0, al1, al);
    normalized_motor2_is_unit(val, turn);
    product_of_unit_motors_is_unit(val, v2, v1);
}

} // verus!
