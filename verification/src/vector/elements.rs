//! The elements of a vector by their names.

use vstd::prelude::*;

use crate::vector::Vector;

verus! {

/// Type to implement x element access.
#[derive(Debug, Clone, Copy, PartialEq, Eq, Hash)]
pub struct X<T> {
    /// Vector element 'x'
    pub x: T,
}

/// Type to implement x and y elements access.
#[derive(Debug, Clone, Copy, PartialEq, Eq, Hash)]
pub struct XY<T> {
    /// Vector element 'x'
    pub x: T,
    /// Vector element 'y'
    pub y: T,
}

/// Type to implement x, y and z elements access.
#[derive(Debug, Clone, Copy, PartialEq, Eq, Hash)]
pub struct XYZ<T> {
    /// Vector element 'x'
    pub x: T,
    /// Vector element 'y'
    pub y: T,
    /// Vector element 'z'
    pub z: T,
}

/// Type to implement x, y, z and w elements access.
#[derive(Debug, Clone, Copy, PartialEq, Eq, Hash)]
pub struct XYZW<T> {
    /// Vector element 'x'
    pub x: T,
    /// Vector element 'y'
    pub y: T,
    /// Vector element 'z'
    pub z: T,
    /// Vector element 'w'
    pub w: T,
}

impl<T: Copy> X<T> {
    /// Returns the vector of the element.
    pub fn vector(&self) -> (r: Vector<T, 1>)
        ensures
            r@ == seq![self.x],
    {
        Vector::<T, 1>::new(self.x)
    }
}

impl<T: Copy> XY<T> {
    /// Returns the vector of the elements.
    pub fn vector(&self) -> (r: Vector<T, 2>)
        ensures
            r@ == seq![self.x, self.y],
    {
        Vector::<T, 2>::new(self.x, self.y)
    }
}

impl<T: Copy> XYZ<T> {
    /// Returns the vector of the elements.
    pub fn vector(&self) -> (r: Vector<T, 3>)
        ensures
            r@ == seq![self.x, self.y, self.z],
    {
        Vector::<T, 3>::new(self.x, self.y, self.z)
    }
}

impl<T: Copy> XYZW<T> {
    /// Returns the vector of the elements.
    pub fn vector(&self) -> (r: Vector<T, 4>)
        ensures
            r@ == seq![self.x, self.y, self.z, self.w],
    {
        Vector::<T, 4>::new(self.x, self.y, self.z, self.w)
    }
}

} // verus!
