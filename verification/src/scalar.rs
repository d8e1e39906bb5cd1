//! The scalar field that the algebra is built on.

use core::ops::{Add, Div, Mul, Neg, Sub};
use vstd::prelude::*;
use vstd::std_specs::cmp::PartialEqSpec;
use vstd::std_specs::ops::{AddSpec, DivSpec, MulSpec, NegSpec, SubSpec};

verus! {

/// Scalars are the basic building blocks of the algebraic structures.
///
/// A scalar type supplies the four arithmetic operators, negation,
/// comparison and the elementary functions. In specifications the result
/// of `a + b` is written `a.add_spec(b)`, and likewise for the other
/// operators; the result of an elementary function is written with the
/// function's name followed by `_spec`. Nothing is assumed about these
/// results beyond their being functions of the operands: rounding,
/// infinities and undefined values are the implementation's business.
///
/// Whoever implements the trait for a type answers for what the trait
/// states of it. An implementation that is not verified, as one for the
/// floating point numbers is, gives each `_spec` function the body of the
/// function that it names and leaves the bodies of the two proofs empty.
pub trait Num: Add<Output = Self> + Sub<Output = Self> + Mul<Output = Self> + Div<
    Output = Self,
> + Neg<Output = Self> + PartialEq + PartialOrd + Copy {
    /// The additive identity.
    const ZERO: Self;

    /// Near zero value.
    const EPSILON: Self;

    /// The multiplicative identity.
    const ONE: Self;

    /// Constant value of two.
    const TWO: Self;

    /// The operators accept every pair of operands, division by zero
    /// included, and each result is the one that the operator's
    /// specification names.
    proof fn operators_are_total()
        ensures
            <Self as AddSpec>::obeys_add_spec(),
            <Self as SubSpec>::obeys_sub_spec(),
            <Self as MulSpec>::obeys_mul_spec(),
            <Self as DivSpec>::obeys_div_spec(),
            <Self as NegSpec>::obeys_neg_spec(),
            <Self as PartialEqSpec>::obeys_eq_spec(),
            forall|a: Self, b: Self| #[trigger] a.add_req(b),
            forall|a: Self, b: Self| #[trigger] a.sub_req(b),
            forall|a: Self, b: Self| #[trigger] a.mul_req(b),
            forall|a: Self, b: Self| #[trigger] a.div_req(b),
            forall|a: Self| #[trigger] a.neg_req(),
    ;

    /// Zero and one each compare equal to themselves and differ from
    /// one another.
    proof fn zero_and_one()
        ensures
            Self::ZERO.eq_spec(&Self::ZERO),
            Self::ONE.eq_spec(&Self::ONE),
            !Self::ZERO.eq_spec(&Self::ONE),
            !Self::ONE.eq_spec(&Self::ZERO),
    ;

    /// The square root of the scalar.
    spec fn sqrt_spec(self) -> Self;

    /// The absolute value of the scalar.
    spec fn abs_spec(self) -> Self;

    /// The sine of the scalar.
    spec fn sin_spec(self) -> Self;

    /// The cosine of the scalar.
    spec fn cos_spec(self) -> Self;

    /// The arcsine of the scalar.
    spec fn asin_spec(self) -> Self;

    /// The arccosine of the scalar.
    spec fn acos_spec(self) -> Self;

    /// The tangent of the scalar.
    spec fn tan_spec(self) -> Self;

    /// The arctangent of the scalar.
    spec fn atan_spec(self) -> Self;

    /// The angle of the point `(rhs, self)`, measured from the positive
    /// x axis.
    spec fn atan2_spec(self, rhs: Self) -> Self;

    /// Returns the reciprocal of the scalar.
    fn recip(self) -> (r: Self)
        ensures
            r == Self::ONE.div_spec(self),
    {
        proof {
            Self::operators_are_total();
        }
        Self::ONE / self
    }

    /// Returns the square root of the scalar.
    fn sqrt(self) -> (r: Self)
        ensures
            r == self.sqrt_spec(),
    ;

    /// Returns the absolute value of the scalar.
    fn abs(self) -> (r: Self)
        ensures
            r == self.abs_spec(),
    ;

    /// Returns the sine of the scalar.
    fn sin(self) -> (r: Self)
        ensures
            r == self.sin_spec(),
    ;

    /// Returns the cosine of the scalar.
    fn cos(self) -> (r: Self)
        ensures
            r == self.cos_spec(),
    ;

    /// Returns the sine and cosine of the scalar.
    fn sin_cos(self) -> (r: (Self, Self))
        ensures
            r == (self.sin_spec(), self.cos_spec()),
    {
        (self.sin(), self.cos())
    }

    /// Returns the arcsine of the scalar.
    fn asin(self) -> (r: Self)
        ensures
            r == self.asin_spec(),
    ;

    /// Returns the arccosine of the scalar.
    fn acos(self) -> (r: Self)
        ensures
            r == self.acos_spec(),
    ;

    /// Returns the tangent of the scalar.
    fn tan(self) -> (r: Self)
        ensures
            r == self.tan_spec(),
    ;

    /// Returns the arctangent of the scalar.
    fn atan(self) -> (r: Self)
        ensures
            r == self.atan_spec(),
    ;

    /// Returns the arctangent between two scalars.
    fn atan2(self, rhs: Self) -> (r: Self)
        ensures
            r == self.atan2_spec(rhs),
    ;
}

} // verus!
