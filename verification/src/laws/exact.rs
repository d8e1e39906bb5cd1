//! Fields whose arithmetic is exact.
//!
//! The algebra makes no assumption about the scalars' arithmetic. What
//! holds of it in an exact field, and only approximately where sums and
//! products are rounded, is stated here for a reading of the scalars as
//! real numbers under which every operation gives the exact result.

use core::ops::{Add, Div, Mul, Neg, Sub};
use vstd::prelude::*;
use vstd::std_specs::cmp::PartialEqSpec;
use vstd::std_specs::ops::{AddSpec, DivSpec, MulSpec, NegSpec, SubSpec};

use crate::scalar::Num;

verus! {

/// Whether `val` reads the scalars as real numbers such that the field's
/// constants and operations are the real ones: sums, differences,
/// products and negations are exact, quotients are exact where the
/// divisor is not zero, two scalars compare equal where their values
/// are equal, the square root of a value that is not negative is the
/// root that is not negative, and the absolute value is the real one.
pub open spec fn exact<T: Num>(val: spec_fn(T) -> real) -> bool {
    &&& val(T::ZERO) == 0real
    &&& val(T::ONE) == 1real
    &&& val(T::TWO) == 2real
    &&& forall|a: T, b: T| #[trigger] val(a.add_spec(b)) == val(a) + val(b)
    &&& forall|a: T, b: T| #[trigger] val(a.sub_spec(b)) == val(a) - val(b)
    &&& forall|a: T, b: T| #[trigger] val(a.mul_spec(b)) == val(a) * val(b)
    &&& forall|a: T| #[trigger] val(a.neg_spec()) == -val(a)
    &&& forall|a: T, b: T|
        val(b) != 0real ==> #[trigger] val(a.div_spec(b)) * val(b) == val(a)
    &&& forall|a: T, b: T| #[trigger] a.eq_spec(&b) <==> val(a) == val(b)
    &&& forall|a: T|
        val(a) >= 0real ==> val(#[trigger] a.sqrt_spec()) >= 0real && val(a.sqrt_spec()) * val(
            a.sqrt_spec(),
        ) == val(a)
    &&& forall|a: T|
        val(#[trigger] a.abs_spec()) == if val(a) >= 0real {
            val(a)
        } else {
            -val(a)
        }
}

/// Whether, under the reading `val`, the sine, the cosine and the angle
/// of a point are the real ones, as far as the motors need them:
///
/// - the sine and the cosine depend on the value of the angle alone,
/// - the squares of the sine and the cosine of an angle add up to one,
/// - the cosine and the sine of twice an angle are `c * c - s * s` and
///   `2 * s * c`,
/// - the angle of a point `(x, y)` other than the origin points from the
///   origin to the point, and
/// - the angle of a point above the x axis is positive.
pub open spec fn exact_angles<T: Num>(val: spec_fn(T) -> real) -> bool {
    &&& forall|a: T, b: T|
        val(a) == val(b) ==> val(#[trigger] a.sin_spec()) == val(#[trigger] b.sin_spec())
    &&& forall|a: T, b: T|
        val(a) == val(b) ==> val(#[trigger] a.cos_spec()) == val(#[trigger] b.cos_spec())
    &&& forall|a: T|
        val(#[trigger] a.sin_spec()) * val(a.sin_spec()) + val(a.cos_spec()) * val(a.cos_spec())
            == 1real
    &&& forall|a: T|
        val(#[trigger] a.add_spec(a).cos_spec()) == val(a.cos_spec()) * val(a.cos_spec()) - val(
            a.sin_spec(),
        ) * val(a.sin_spec())
    &&& forall|a: T|
        val(#[trigger] a.add_spec(a).sin_spec()) == 2real * (val(a.sin_spec()) * val(
            a.cos_spec(),
        ))
    &&& forall|y: T, x: T|
        val(x) != 0real || val(y) != 0real ==> {
            let angle = #[trigger] y.atan2_spec(x);
            &&& val(angle.cos_spec()) * val(y) == val(angle.sin_spec()) * val(x)
            &&& val(angle.cos_spec()) * val(x) + val(angle.sin_spec()) * val(y) > 0real
        }
    &&& forall|y: T, x: T| val(y) > 0real ==> val(#[trigger] y.atan2_spec(x)) > 0real
}

} // verus!
