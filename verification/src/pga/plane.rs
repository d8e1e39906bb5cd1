//! Planes of space.

use vstd::prelude::*;

use crate::pga::elements::Vector3;
use crate::scalar::Num;

verus! {

/// Plane is fundamental object in 3d projective geometric algebra.
/// All other objects are produced by combining planes.
///
/// A plane is the vector `e0 + e1 * x + e2 * y + e3 * z`; its dual is a
/// point.
#[derive(Clone, Copy, Debug, PartialEq)]
pub struct Plane3<T>(pub Vector3<T>);

impl<T: Num> Plane3<T> {
    /// Returns the vector that stands for the plane.
    pub fn vector(&self) -> (r: Vector3<T>)
        ensures
            r == self.0,
    {
        self.0
    }

    /// Wraps a vector as the plane that it stands for.
    pub fn from_vector(vector: Vector3<T>) -> (r: Self)
        ensures
            r == Plane3(vector),
    {
        Plane3(vector)
    }

    /// A vanishing plane.
    /// Also known as the plane at infinity.
    pub fn infinity() -> (r: Self)
        ensures
            r == Plane3(Vector3 { e0: T::ONE, e1: T::ZERO, e2: T::ZERO, e3: T::ZERO }),
    {
        Plane3(Vector3 { e0: T::ONE, e1: T::ZERO, e2: T::ZERO, e3: T::ZERO })
    }

    /// An XY plane.
    pub fn xy() -> (r: Self)
        ensures
            r == Plane3(Vector3 { e0: T::ZERO, e1: T::ZERO, e2: T::ZERO, e3: T::ONE }),
    {
        Plane3(Vector3 { e0: T::ZERO, e1: T::ZERO, e2: T::ZERO, e3: T::ONE })
    }

    /// A YZ plane.
    pub fn yz() -> (r: Self)
        ensures
            r == Plane3(Vector3 { e0: T::ZERO, e1: T::ONE, e2: T::ZERO, e3: T::ZERO }),
    {
        Plane3(Vector3 { e0: T::ZERO, e1: T::ONE, e2: T::ZERO, e3: T::ZERO })
    }

    /// A XZ plane.
    pub fn xz() -> (r: Self)
        ensures
            r == Plane3(Vector3 { e0: T::ZERO, e1: T::ZERO, e2: T::ONE, e3: T::ZERO }),
    {
        Plane3(Vector3 { e0: T::ZERO, e1: T::ZERO, e2: T::ONE, e3: T::ZERO })
    }

    /// Creates a new plane from projective vector elements.
    pub fn new(e0: T, e1: T, e2: T, e3: T) -> (r: Self)
        ensures
            r == Plane3(Vector3 { e0, e1, e2, e3 }),
    {
        Plane3(Vector3 { e0, e1, e2, e3 })
    }

    /// Returns norm of the plane: the length of its normal `(e1, e2, e3)`.
    pub fn norm(&self) -> (r: T)
        ensures
            r == self.0.norm_spec(),
    {
        self.0.norm()
    }

    /// Returns squared norm of the plane.
    pub fn norm2(&self) -> (r: T)
        ensures
            r == self.0.norm2_spec(),
    {
        self.0.norm2()
    }

    /// The plane divided by its norm. A plane whose squared norm
    /// compares equal to zero is left as it is.
    pub open spec fn normalized_spec(self) -> Self {
        Plane3(self.0.normalized_spec())
    }

    /// Normalizes the plane.
    pub fn normalize(&mut self)
        ensures
            *final(self) == old(self).normalized_spec(),
    {
        self.0.normalize();
    }

    /// Returns a normalized plane.
    pub fn normalized(&self) -> (r: Self)
        ensures
            r == self.normalized_spec(),
    {
        Plane3(self.0.normalized())
    }
}

} // verus!
