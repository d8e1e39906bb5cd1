//! Contains vector and operations for them.

use vstd::prelude::*;

use crate::scalar::Num;

pub mod elements;

pub use elements::{X, XY, XYZ, XYZW};

verus! {

/// A vector in N-dimensional space.
///
/// Its view is the sequence of its elements.
#[derive(Debug, Clone, Copy, PartialEq, Eq, Hash)]
pub struct Vector<T, const N: usize> {
    /// The elements of the vector.
    pub e: [T; N],
}

impl<T, const N: usize> View for Vector<T, N> {
    type V = Seq<T>;

    open spec fn view(&self) -> Seq<T> {
        self.e@
    }
}

impl<T, const N: usize> Vector<T, N> {
    /// Create a new vector from an array of elements.
    pub fn from_array(e: [T; N]) -> (r: Self)
        ensures
            r.e == e,
    {
        Vector { e }
    }

    /// Extracts the elements of the vector as an array.
    pub fn array(&self) -> (r: &[T; N])
        ensures
            *r == self.e,
    {
        &self.e
    }

    /// Extracts the elements of the vector as an array.
    pub fn array_mut(&mut self) -> (r: &mut [T; N])
        ensures
            *r == old(self).e,
            final(self).e == *final(r),
    {
        &mut self.e
    }

    /// Extracts the elements of the vector as an array.
    pub fn into_array(self) -> (r: [T; N])
        ensures
            r == self.e,
    {
        self.e
    }

    /// Returns the element at `index`.
    ///
    /// An index out of range is the caller's error.
    pub fn index(&self, index: usize) -> (r: &T)
        requires
            index < N,
        ensures
            *r == self@[index as int],
    {
        &self.e[index]
    }

    /// Returns the element at `index`, or nothing where the index is out
    /// of range.
    pub fn get(&self, index: usize) -> (r: Option<&T>)
        ensures
            index < N ==> r == Some(&self@[index as int]),
            index >= N ==> r.is_none(),
    {
        if index < N {
            Some(&self.e[index])
        } else {
            None
        }
    }

    /// Replaces the element at `index`.
    ///
    /// An index out of range is the caller's error.
    pub fn set(&mut self, index: usize, value: T)
        requires
            index < N,
        ensures
            final(self)@ == old(self)@.update(index as int, value),
    {
        self.e[index] = value;
    }
}

impl<T: Num, const N: usize> Vector<T, N> {
    /// Create a new vector with all elements set to zero.
    pub fn zero() -> (r: Self)
        ensures
            r@ == Seq::new(N as nat, |i: int| T::ZERO),
    {
        let r = Vector { e: [T::ZERO; N] };
        assert(r@ =~= Seq::new(N as nat, |i: int| T::ZERO));
        r
    }

    /// Returns the vector of the elements at the given indices, in the
    /// order of the indices, or nothing where an index is out of range.
    ///
    /// With the indices `[1, 0]` a vector `(x, y)` gives `(y, x)`; with
    /// `[0, 0, 0]` it gives `(x, x, x)`.
    pub fn swizzle<const K: usize>(&self, at: [usize; K]) -> (r: Option<Vector<T, K>>)
        ensures
            (forall|i: int| 0 <= i < K ==> at@[i] < N) ==> r.is_some() && r.unwrap()@ == Seq::new(
                K as nat,
                |i: int| self@[at@[i] as int],
            ),
            (exists|i: int| 0 <= i < K && at@[i] >= N) ==> r.is_none(),
    {
        let mut e: [T; K] = [T::ZERO; K];
        let mut k: usize = 0;
        while k < K
            invariant
                k <= K,
                forall|i: int| 0 <= i < k ==> at@[i] < N,
                forall|i: int| 0 <= i < k ==> e@[i] == self@[at@[i] as int],
            decreases K - k,
        {
            let index = at[k];
            if index >= N {
                return None;
            }
            e[k] = self.e[index];
            k += 1;
        }
        let r = Vector { e };
        assert(r@ =~= Seq::new(K as nat, |i: int| self@[at@[i] as int]));
        Some(r)
    }
}

impl<T: Copy> Vector<T, 1> {
    /// Create a new vector in 1-dimensional space.
    pub fn new(x: T) -> (r: Self)
        ensures
            r@ == seq![x],
    {
        let r = Vector::from_array([x]);
        assert(r@ =~= seq![x]);
        r
    }

    /// Returns the elements by their names.
    pub fn elements(&self) -> (r: X<T>)
        ensures
            r == (X { x: self@[0] }),
    {
        X { x: self.e[0] }
    }
}

impl<T: Copy> Vector<T, 2> {
    /// Create a new vector in 2-dimensional space.
    pub fn new(x: T, y: T) -> (r: Self)
        ensures
            r@ == seq![x, y],
    {
        let r = Vector::from_array([x, y]);
        assert(r@ =~= seq![x, y]);
        r
    }

    /// Returns the elements by their names.
    pub fn elements(&self) -> (r: XY<T>)
        ensures
            r == (XY { x: self@[0], y: self@[1] }),
    {
        XY { x: self.e[0], y: self.e[1] }
    }
}

impl<T: Copy> Vector<T, 3> {
    /// Create a new vector in 3-dimensional space.
    pub fn new(x: T, y: T, z: T) -> (r: Self)
        ensures
            r@ == seq![x, y, z],
    {
        let r = Vector::from_array([x, y, z]);
        assert(r@ =~= seq![x, y, z]);
        r
    }

    /// Returns the elements by their names.
    pub fn elements(&self) -> (r: XYZ<T>)
        ensures
            r == (XYZ { x: self@[0], y: self@[1], z: self@[2] }),
    {
        XYZ { x: self.e[0], y: self.e[1], z: self.e[2] }
    }
}

impl<T: Copy> Vector<T, 4> {
    /// Create a new vector in 4-dimensional space.
    pub fn new(x: T, y: T, z: T, w: T) -> (r: Self)
        ensures
            r@ == seq![x, y, z, w],
    {
        let r = Vector::from_array([x, y, z, w]);
        assert(r@ =~= seq![x, y, z, w]);
        r
    }

    /// Returns the elements by their names.
    pub fn elements(&self) -> (r: XYZW<T>)
        ensures
            r == (XYZW { x: self@[0], y: self@[1], z: self@[2], w: self@[3] }),
    {
        XYZW { x: self.e[0], y: self.e[1], z: self.e[2], w: self.e[3] }
    }
}

/// A 1-dimensional vector.
pub type Vector1<T> = Vector<T, 1>;

/// A 2-dimensional vector.
pub type Vector2<T> = Vector<T, 2>;

/// A 3-dimensional vector.
pub type Vector3<T> = Vector<T, 3>;

/// A 4-dimensional vector.
pub type Vector4<T> = Vector<T, 4>;

} // verus!
