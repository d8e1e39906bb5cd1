//! Points at infinity stay as they are.

use vstd::prelude::*;
use vstd::std_specs::cmp::PartialEqSpec;

use crate::pga::point::{Point2, Point3};
use crate::scalar::Num;

verus! {

/// Normalizing leaves an ideal point unchanged: nothing is divided, and
/// no coefficient is touched.
pub proof fn ideal_point_is_stable<T: Num>(p: Point2<T>, q: Point3<T>)
    ensures
        p.is_ideal_spec() ==> p.normalized_spec() == p,
        q.is_ideal_spec() ==> q.normalized_spec() == q,
{
}

/// Normalizing is idempotent on the points that it leaves unchanged, and
/// a point of weight one is one of them.
pub proof fn normalized_point_is_stable<T: Num>(p: Point2<T>, q: Point3<T>)
    ensures
        p.0.e12.eq_spec(&T::ONE) ==> p.normalized_spec() == p,
        q.0.e123.eq_spec(&T::ONE) ==> q.normalized_spec() == q,
        p.normalized_spec() == p ==> p.normalized_spec().normalized_spec() == p,
        q.normalized_spec() == q ==> q.normalized_spec().normalized_spec() == q,
{
}

} // verus!
