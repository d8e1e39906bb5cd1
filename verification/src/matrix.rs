//! Matrices

use core::ops::{Add, Mul};
use vstd::prelude::*;
use vstd::std_specs::ops::{AddSpec, MulSpec};

use crate::scalar::Num;
use crate::vector::Vector;

verus! {

/// Column-major matrix type.
/// `N` is the number of columns = row size.
/// `M` is the number of rows = column size.
///
/// The element in the column `n` and the row `m` is `e[n][m]`.
#[derive(Clone, Copy, Debug, PartialEq, Eq, Hash)]
pub struct Matrix<T, const N: usize, const M: usize> {
    /// The columns of the matrix.
    pub e: [[T; M]; N],
}

/// The sum of the products of the first `k` elements of two sequences,
/// added up from zero in the order of the index.
pub open spec fn dot_spec<T: Num>(a: Seq<T>, b: Seq<T>, k: nat) -> T
    decreases k,
{
    if k == 0 {
        T::ZERO
    } else {
        dot_spec(a, b, (k - 1) as nat).add_spec(a[k - 1].mul_spec(b[k - 1]))
    }
}

impl<T, const N: usize, const M: usize> Matrix<T, N, M> {
    /// The element in the column `n` and the row `m`.
    pub open spec fn at(self, n: int, m: int) -> T {
        self.e[n][m]
    }

    /// The column `n` as a sequence.
    pub open spec fn column_spec(self, n: int) -> Seq<T> {
        self.e[n]@
    }

    /// The row `m` as a sequence.
    pub open spec fn row_spec(self, m: int) -> Seq<T> {
        Seq::new(N as nat, |n: int| self.e[n][m])
    }

    /// Constructs a new matrix from column arrays
    pub fn from_column_arrays(e: [[T; M]; N]) -> (r: Self)
        ensures
            r.e == e,
    {
        Matrix { e }
    }

    /// Returns reference to the matrix elements as arrays.
    pub fn arrays(&self) -> (r: &[[T; M]; N])
        ensures
            *r == self.e,
    {
        &self.e
    }

    /// Returns reference to a column of the matrix.
    pub fn column_ref(&self, n: usize) -> (r: Option<&[T; M]>)
        ensures
            n < N ==> r == Some(&self.e[n as int]),
            n >= N ==> r.is_none(),
    {
        if n >= N {
            return None;
        }
        Some(&self.e[n])
    }

    /// Returns mutable reference to a column of the matrix.
    pub fn column_mut(&mut self, n: usize) -> (r: Option<&mut [T; M]>)
        ensures
            n >= N ==> r.is_none() && *final(self) == *old(self),
            n < N ==> r.is_some() && *r.unwrap() == old(self).e[n as int] && final(self).e@
                == old(self).e@.update(n as int, *final(r.unwrap())),
    {
        if n >= N {
            return None;
        }
        Some(&mut self.e[n])
    }

    /// Returns mutable reference to the matrix elements as arrays.
    pub fn arrays_mut(&mut self) -> (r: &mut [[T; M]; N])
        ensures
            *r == old(self).e,
            final(self).e == *final(r),
    {
        &mut self.e
    }
}

impl<T: Copy, const N: usize, const M: usize> Matrix<T, N, M> {
    /// Returns a column vector.
    pub fn column(&self, n: usize) -> (r: Option<Vector<T, M>>)
        ensures
            n < N ==> r.is_some() && r.unwrap()@ == self.column_spec(n as int),
            n >= N ==> r.is_none(),
    {
        if n >= N {
            return None;
        }
        Some(Vector::from_array(self.e[n]))
    }
}

impl<T: Num, const N: usize, const M: usize> Matrix<T, N, M> {
    /// The matrix whose elements are all zero.
    pub fn zero() -> (r: Self)
        ensures
            forall|n: int, m: int| 0 <= n < N && 0 <= m < M ==> r.at(n, m) == T::ZERO,
    {
        Matrix { e: [[T::ZERO; M]; N] }
    }

    /// Constructs a new matrix from row arrays
    pub fn from_row_arrays(e: [[T; N]; M]) -> (r: Self)
        ensures
            forall|n: int, m: int| 0 <= n < N && 0 <= m < M ==> r.at(n, m) == e[m][n],
    {
        let mut columns: [[T; M]; N] = [[T::ZERO; M]; N];
        let mut n: usize = 0;
        while n < N
            invariant
                n <= N,
                forall|i: int, m: int| 0 <= i < n && 0 <= m < M ==> columns[i][m] == e[m][i],
            decreases N - n,
        {
            let mut column: [T; M] = [T::ZERO; M];
            let mut m: usize = 0;
            while m < M
                invariant
                    n < N,
                    m <= M,
                    forall|j: int| 0 <= j < m ==> column[j] == e[j][n as int],
                decreases M - m,
            {
                column[m] = e[m][n];
                m += 1;
            }
            columns[n] = column;
            n += 1;
        }
        Matrix { e: columns }
    }

    /// Transposes the matrix.
    pub fn transpose(self) -> (r: Matrix<T, M, N>)
        ensures
            forall|n: int, m: int| 0 <= n < N && 0 <= m < M ==> r.at(m, n) == self.at(n, m),
    {
        let mut columns: [[T; N]; M] = [[T::ZERO; N]; M];
        let mut m: usize = 0;
        while m < M
            invariant
                m <= M,
                forall|j: int, n: int|
                    0 <= j < m && 0 <= n < N ==> columns[j][n] == self.e[n][j],
            decreases M - m,
        {
            let mut column: [T; N] = [T::ZERO; N];
            let mut n: usize = 0;
            while n < N
                invariant
                    m < M,
                    n <= N,
                    forall|i: int| 0 <= i < n ==> column[i] == self.e[i][m as int],
                decreases N - n,
            {
                column[n] = self.e[n][m];
                n += 1;
            }
            columns[m] = column;
            m += 1;
        }
        Matrix { e: columns }
    }

    /// Returns a row vector.
    pub fn row(&self, m: usize) -> (r: Option<Vector<T, N>>)
        ensures
            m < M ==> r.is_some() && r.unwrap()@ == self.row_spec(m as int),
            m >= M ==> r.is_none(),
    {
        if m >= M {
            return None;
        }
        let mut row: [T; N] = [T::ZERO; N];
        let mut n: usize = 0;
        while n < N
            invariant
                m < M,
                n <= N,
                forall|i: int| 0 <= i < n ==> row[i] == self.e[i][m as int],
            decreases N - n,
        {
            row[n] = self.e[n][m];
            n += 1;
        }
        let r = Vector::from_array(row);
        assert(r@ =~= self.row_spec(m as int));
        Some(r)
    }
}

impl<T: Num, const N: usize, const K: usize> Matrix<T, N, K> {
    /// The element in the column `n` and the row `m` of the product with
    /// `rhs`: the sum over `k` of the products of the elements `(n, k)`
    /// of this matrix and `(k, m)` of `rhs`.
    pub open spec fn times_spec<const M: usize>(self, rhs: Matrix<T, K, M>, n: int, m: int) -> T {
        dot_spec(self.column_spec(n), rhs.row_spec(m), K as nat)
    }

    /// Multiplies two matrices.
    pub fn times<const M: usize>(&self, rhs: &Matrix<T, K, M>) -> (r: Matrix<T, N, M>)
        ensures
            forall|n: int, m: int|
                0 <= n < N && 0 <= m < M ==> r.at(n, m) == self.times_spec(*rhs, n, m),
    {
        let mut columns: [[T; M]; N] = [[T::ZERO; M]; N];
        let mut n: usize = 0;
        while n < N
            invariant
                n <= N,
                forall|i: int, m: int|
                    0 <= i < n && 0 <= m < M ==> columns[i][m] == self.times_spec(*rhs, i, m),
            decreases N - n,
        {
            let mut column: [T; M] = [T::ZERO; M];
            let mut m: usize = 0;
            while m < M
                invariant
                    n < N,
                    m <= M,
                    forall|j: int|
                        0 <= j < m ==> column[j] == self.times_spec(*rhs, n as int, j),
                decreases M - m,
            {
                let mut sum = T::ZERO;
                let mut k: usize = 0;
                while k < K
                    invariant
                        n < N,
                        m < M,
                        k <= K,
                        sum == dot_spec(
                            self.column_spec(n as int),
                            rhs.row_spec(m as int),
                            k as nat,
                        ),
                    decreases K - k,
                {
                    proof {
                        T::operators_are_total();
                    }
                    sum = sum + self.e[n][k] * rhs.e[k][m];
                    k += 1;
                }
                column[m] = sum;
                m += 1;
            }
            columns[n] = column;
            n += 1;
        }
        Matrix { e: columns }
    }
}

impl<T: Num, const N: usize, const M: usize> Matrix<T, N, M> {
    /// The element `m` of the product with the column vector `v`: the
    /// sum over `n` of the products of the elements `(n, m)` of the
    /// matrix and `n` of the vector.
    pub open spec fn times_vector_spec(self, v: Vector<T, N>, m: int) -> T {
        dot_spec(self.row_spec(m), v@, N as nat)
    }

    /// The element `n` of the product of the row vector `v` with the
    /// matrix: the sum over `m` of the products of the elements `(n, m)`
    /// of the matrix and `m` of the vector.
    pub open spec fn vector_times_spec(self, v: Vector<T, M>, n: int) -> T {
        dot_spec(self.column_spec(n), v@, M as nat)
    }

    /// Multiplies the matrix with a column vector.
    pub fn times_vector(&self, v: &Vector<T, N>) -> (r: Vector<T, M>)
        ensures
            forall|m: int| 0 <= m < M ==> r@[m] == self.times_vector_spec(*v, m),
    {
        let mut e: [T; M] = [T::ZERO; M];
        let mut m: usize = 0;
        while m < M
            invariant
                m <= M,
                forall|j: int| 0 <= j < m ==> e[j] == self.times_vector_spec(*v, j),
            decreases M - m,
        {
            let mut sum = T::ZERO;
            let mut n: usize = 0;
            while n < N
                invariant
                    m < M,
                    n <= N,
                    sum == dot_spec(self.row_spec(m as int), v@, n as nat),
                decreases N - n,
            {
                proof {
                    T::operators_are_total();
                }
                sum = sum + self.e[n][m] * v.e[n];
                n += 1;
            }
            e[m] = sum;
            m += 1;
        }
        Vector { e }
    }

    /// Multiplies a row vector with the matrix.
    pub fn vector_times(&self, v: &Vector<T, M>) -> (r: Vector<T, N>)
        ensures
            forall|n: int| 0 <= n < N ==> r@[n] == self.vector_times_spec(*v, n),
    {
        let mut e: [T; N] = [T::ZERO; N];
        let mut n: usize = 0;
        while n < N
            invariant
                n <= N,
                forall|i: int| 0 <= i < n ==> e[i] == self.vector_times_spec(*v, i),
            decreases N - n,
        {
            let mut sum = T::ZERO;
            let mut m: usize = 0;
            while m < M
                invariant
                    n < N,
                    m <= M,
                    sum == dot_spec(self.column_spec(n as int), v@, m as nat),
                decreases M - m,
            {
                proof {
                    T::operators_are_total();
                }
                sum = sum + self.e[n][m] * v.e[m];
                m += 1;
            }
            e[n] = sum;
            n += 1;
        }
        Vector { e }
    }
}

impl<T: Copy, const M: usize> Matrix<T, 1, M> {
    /// Create a new column vector.
    pub fn from_column(e: Vector<T, M>) -> (r: Self)
        ensures
            r.column_spec(0) == e@,
    {
        Matrix { e: [e.into_array()] }
    }

    /// Extracts the column vector from the matrix.
    pub fn into_column(self) -> (r: Vector<T, M>)
        ensures
            r@ == self.column_spec(0),
    {
        Vector::from_array(self.e[0])
    }
}

impl<T: Num, const N: usize> Matrix<T, N, 1> {
    /// Create a new row vector.
    pub fn from_row(e: Vector<T, N>) -> (r: Self)
        ensures
            r.row_spec(0) == e@,
    {
        let mut columns: [[T; 1]; N] = [[T::ZERO; 1]; N];
        let mut n: usize = 0;
        while n < N
            invariant
                n <= N,
                forall|i: int| 0 <= i < n ==> columns[i][0] == e@[i],
            decreases N - n,
        {
            columns[n] = [e.e[n]];
            n += 1;
        }
        let r = Matrix { e: columns };
        assert(r.row_spec(0) =~= e@);
        r
    }

    /// Extracts the row vector from the matrix.
    pub fn into_row(self) -> (r: Vector<T, N>)
        ensures
            r@ == self.row_spec(0),
    {
        let mut e: [T; N] = [T::ZERO; N];
        let mut n: usize = 0;
        while n < N
            invariant
                n <= N,
                forall|i: int| 0 <= i < n ==> e[i] == self.e[i][0],
            decreases N - n,
        {
            e[n] = self.e[n][0];
            n += 1;
        }
        let r = Vector::from_array(e);
        assert(r@ =~= self.row_spec(0));
        r
    }
}

impl<T: Num, const N: usize, const K: usize> Matrix<T, N, K> {
    /// Whether `r` is the product of this matrix and `rhs`: whether its
    /// element in the column `n` and the row `m` is the sum over `k` of
    /// the products of the elements `(n, k)` of this matrix and `(k, m)`
    /// of `rhs`.
    pub open spec fn is_product<const M: usize>(
        self,
        rhs: Matrix<T, K, M>,
        r: Matrix<T, N, M>,
    ) -> bool {
        forall|n: int, m: int|
            0 <= n < N && 0 <= m < M ==> #[trigger] r.at(n, m) == self.times_spec(rhs, n, m)
    }

    /// The product of two matrices.
    pub open spec fn product_spec<const M: usize>(self, rhs: Matrix<T, K, M>) -> Matrix<T, N, M> {
        choose|r: Matrix<T, N, M>| self.is_product(rhs, r)
    }
}

impl<T: Num, const N: usize, const M: usize, const K: usize> Mul<Matrix<T, K, M>> for Matrix<T, N, K> {
    type Output = Matrix<T, N, M>;

    /// Multiplies two matrices.
    fn mul(self, rhs: Matrix<T, K, M>) -> (r: Matrix<T, N, M>)
        ensures
            self.is_product(rhs, r),
    {
        let r = self.times(&rhs);
        proof {
            assert(self.is_product(rhs, r));
            let c = self.product_spec(rhs);
            assert(self.is_product(rhs, c));
            assert forall|n: int| 0 <= n < N implies r.e[n] == c.e[n] by {
                assert forall|m: int| 0 <= m < M implies r.e[n][m] == c.e[n][m] by {
                    assert(r.at(n, m) == self.times_spec(rhs, n, m));
                    assert(c.at(n, m) == self.times_spec(rhs, n, m));
                }
                assert(r.e[n] =~= c.e[n]);
            }
            assert(r.e =~= c.e);
        }
        r
    }
}

impl<T: Num, const N: usize, const M: usize, const K: usize> vstd::std_specs::ops::MulSpecImpl<Matrix<T, K, M>> for Matrix<T, N, K> {
    open spec fn obeys_mul_spec() -> bool {
        true
    }

    open spec fn mul_req(self, rhs: Matrix<T, K, M>) -> bool {
        true
    }

    open spec fn mul_spec(self, rhs: Matrix<T, K, M>) -> Matrix<T, N, M> {
        self.product_spec(rhs)
    }
}

impl<T: Num, const N: usize, const M: usize, const K: usize> Mul<&Matrix<T, K, M>> for &Matrix<T, N, K> {
    type Output = Matrix<T, N, M>;

    /// Multiplies two matrices.
    fn mul(self, rhs: &Matrix<T, K, M>) -> (r: Matrix<T, N, M>)
        ensures
            self.is_product(*rhs, r),
    {
        *self * *rhs
    }
}

impl<T: Num, const N: usize, const M: usize, const K: usize> vstd::std_specs::ops::MulSpecImpl<&Matrix<T, K, M>> for &Matrix<T, N, K> {
    open spec fn obeys_mul_spec() -> bool {
        true
    }

    open spec fn mul_req(self, rhs: &Matrix<T, K, M>) -> bool {
        true
    }

    open spec fn mul_spec(self, rhs: &Matrix<T, K, M>) -> Matrix<T, N, M> {
        self.product_spec(*rhs)
    }
}

impl<T: Num, const N: usize> core::ops::MulAssign<Matrix<T, N, N>> for Matrix<T, N, N> {
    /// Multiplies the matrix by `rhs`, in place.
    fn mul_assign(&mut self, rhs: Matrix<T, N, N>)
        ensures
            old(self).is_product(rhs, *final(self)),
    {
        *self = *self * rhs;
    }
}

impl<T: Num, const N: usize, const M: usize> Matrix<T, N, M> {
    /// Whether `r` is the product of the matrix and the column vector
    /// `v`.
    pub open spec fn is_product_with_vector(self, v: Vector<T, N>, r: Vector<T, M>) -> bool {
        forall|m: int| 0 <= m < M ==> #[trigger] r@[m] == self.times_vector_spec(v, m)
    }

    /// Whether `r` is the product of the row vector `v` and the matrix.
    pub open spec fn is_product_of_vector(self, v: Vector<T, M>, r: Vector<T, N>) -> bool {
        forall|n: int| 0 <= n < N ==> #[trigger] r@[n] == self.vector_times_spec(v, n)
    }

    /// The product of the matrix and a column vector.
    pub open spec fn product_with_vector_spec(self, v: Vector<T, N>) -> Vector<T, M> {
        choose|r: Vector<T, M>| self.is_product_with_vector(v, r)
    }

    /// The product of a row vector and the matrix.
    pub open spec fn product_of_vector_spec(self, v: Vector<T, M>) -> Vector<T, N> {
        choose|r: Vector<T, N>| self.is_product_of_vector(v, r)
    }
}

impl<T: Num, const N: usize, const M: usize> Mul<Vector<T, N>> for Matrix<T, N, M> {
    type Output = Vector<T, M>;

    /// Multiplies the matrix with a column vector.
    fn mul(self, rhs: Vector<T, N>) -> (r: Vector<T, M>)
        ensures
            self.is_product_with_vector(rhs, r),
    {
        let r = self.times_vector(&rhs);
        proof {
            assert(self.is_product_with_vector(rhs, r));
            let c = self.product_with_vector_spec(rhs);
            assert(self.is_product_with_vector(rhs, c));
            assert forall|m: int| 0 <= m < M implies r@[m] == c@[m] by {
                assert(r@[m] == self.times_vector_spec(rhs, m));
                assert(c@[m] == self.times_vector_spec(rhs, m));
            }
            assert(r@ =~= c@);
            assert(r.e =~= c.e);
        }
        r
    }
}

impl<T: Num, const N: usize, const M: usize> vstd::std_specs::ops::MulSpecImpl<Vector<T, N>> for Matrix<T, N, M> {
    open spec fn obeys_mul_spec() -> bool {
        true
    }

    open spec fn mul_req(self, rhs: Vector<T, N>) -> bool {
        true
    }

    open spec fn mul_spec(self, rhs: Vector<T, N>) -> Vector<T, M> {
        self.product_with_vector_spec(rhs)
    }
}

impl<T: Num, const N: usize, const M: usize> Mul<Matrix<T, N, M>> for Vector<T, M> {
    type Output = Vector<T, N>;

    /// Multiplies a row vector with the matrix.
    fn mul(self, rhs: Matrix<T, N, M>) -> (r: Vector<T, N>)
        ensures
            rhs.is_product_of_vector(self, r),
    {
        let r = rhs.vector_times(&self);
        proof {
            assert(rhs.is_product_of_vector(self, r));
            let c = rhs.product_of_vector_spec(self);
            assert(rhs.is_product_of_vector(self, c));
            assert forall|n: int| 0 <= n < N implies r@[n] == c@[n] by {
                assert(r@[n] == rhs.vector_times_spec(self, n));
                assert(c@[n] == rhs.vector_times_spec(self, n));
            }
            assert(r@ =~= c@);
            assert(r.e =~= c.e);
        }
        r
    }
}

impl<T: Num, const N: usize, const M: usize> vstd::std_specs::ops::MulSpecImpl<Matrix<T, N, M>> for Vector<T, M> {
    open spec fn obeys_mul_spec() -> bool {
        true
    }

    open spec fn mul_req(self, rhs: Matrix<T, N, M>) -> bool {
        true
    }

    open spec fn mul_spec(self, rhs: Matrix<T, N, M>) -> Vector<T, N> {
        rhs.product_of_vector_spec(self)
    }
}

/// Matrix with 1 column and 1 row.
pub type Matrix1x1<T> = Matrix<T, 1, 1>;

/// Matrix with 1 column and 2 rows.
pub type Matrix1x2<T> = Matrix<T, 1, 2>;

/// Matrix with 1 column and 3 rows.
pub type Matrix1x3<T> = Matrix<T, 1, 3>;

/// Matrix with 1 column and 4 rows.
pub type Matrix1x4<T> = Matrix<T, 1, 4>;

/// Matrix with 2 columns and 1 row.
pub type Matrix2x1<T> = Matrix<T, 2, 1>;

/// Matrix with 2 columns and 2 rows.
pub type Matrix2x2<T> = Matrix<T, 2, 2>;

/// Matrix with 2 columns and 3 rows.
pub type Matrix2x3<T> = Matrix<T, 2, 3>;

/// Matrix with 2 columns and 4 rows.
pub type Matrix2x4<T> = Matrix<T, 2, 4>;

/// Matrix with 3 columns and 1 row.
pub type Matrix3x1<T> = Matrix<T, 3, 1>;

/// Matrix with 3 columns and 2 rows.
pub type Matrix3x2<T> = Matrix<T, 3, 2>;

/// Matrix with 3 columns and 3 rows.
pub type Matrix3x3<T> = Matrix<T, 3, 3>;

/// Matrix with 3 columns and 4 rows.
pub type Matrix3x4<T> = Matrix<T, 3, 4>;

/// Matrix with 4 columns and 1 row.
pub type Matrix4x1<T> = Matrix<T, 4, 1>;

/// Matrix with 4 columns and 2 rows.
pub type Matrix4x2<T> = Matrix<T, 4, 2>;

/// Matrix with 4 columns and 3 rows.
pub type Matrix4x3<T> = Matrix<T, 4, 3>;

/// Matrix with 4 columns and 4 rows.
pub type Matrix4x4<T> = Matrix<T, 4, 4>;

/// Matrix with 1 column and 1 row.
pub type Matrix1<T> = Matrix<T, 1, 1>;

/// Matrix with 2 columns and 2 rows.
pub type Matrix2<T> = Matrix<T, 2, 2>;

/// Matrix with 3 columns and 3 rows.
pub type Matrix3<T> = Matrix<T, 3, 3>;

/// Matrix with 4 columns and 4 rows.
pub type Matrix4<T> = Matrix<T, 4, 4>;

} // verus!
