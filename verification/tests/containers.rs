use athena::matrix::Matrix;
use athena::vector::{Vector, X, XY, XYZ, XYZW};
use athena::Num;
use std::ops::{Add, Div, Mul, Neg, Sub};

#[derive(Clone, Copy, Debug, PartialEq, PartialOrd)]
struct F(f64);

impl Add for F {
    type Output = F;
    fn add(self, rhs: F) -> F {
        F(self.0 + rhs.0)
    }
}

impl Sub for F {
    type Output = F;
    fn sub(self, rhs: F) -> F {
        F(self.0 - rhs.0)
    }
}

impl Mul for F {
    type Output = F;
    fn mul(self, rhs: F) -> F {
        F(self.0 * rhs.0)
    }
}

impl Div for F {
    type Output = F;
    fn div(self, rhs: F) -> F {
        F(self.0 / rhs.0)
    }
}

impl Neg for F {
    type Output = F;
    fn neg(self) -> F {
        F(-self.0)
    }
}

impl Num for F {
    const ZERO: Self = F(0.0);
    const EPSILON: Self = F(f64::EPSILON);
    const ONE: Self = F(1.0);
    const TWO: Self = F(2.0);

    fn operators_are_total() {}

    fn zero_and_one() {}

    fn sqrt_spec(self) -> Self {
        self.sqrt()
    }

    fn abs_spec(self) -> Self {
        self.abs()
    }

    fn sin_spec(self) -> Self {
        self.sin()
    }

    fn cos_spec(self) -> Self {
        self.cos()
    }

    fn asin_spec(self) -> Self {
        self.asin()
    }

    fn acos_spec(self) -> Self {
        self.acos()
    }

    fn tan_spec(self) -> Self {
        self.tan()
    }

    fn atan_spec(self) -> Self {
        self.atan()
    }

    fn atan2_spec(self, rhs: Self) -> Self {
        self.atan2(rhs)
    }

    fn sqrt(self) -> Self {
        F(self.0.sqrt())
    }

    fn abs(self) -> Self {
        F(self.0.abs())
    }

    fn sin(self) -> Self {
        F(self.0.sin())
    }

    fn cos(self) -> Self {
        F(self.0.cos())
    }

    fn asin(self) -> Self {
        F(self.0.asin())
    }

    fn acos(self) -> Self {
        F(self.0.acos())
    }

    fn tan(self) -> Self {
        F(self.0.tan())
    }

    fn atan(self) -> Self {
        F(self.0.atan())
    }

    fn atan2(self, rhs: Self) -> Self {
        F(self.0.atan2(rhs.0))
    }
}

fn f(x: f64) -> F {
    F(x)
}

fn values<const N: usize>(v: Vector<F, N>) -> [f64; N] {
    v.into_array().map(|x| x.0)
}

#[test]
fn vector_is_its_array() {
    let mut v = Vector::from_array([1, 2, 3]);
    assert_eq!(v.array(), &[1, 2, 3]);
    v.array_mut()[1] = 5;
    assert_eq!(v.into_array(), [1, 5, 3]);
    assert_eq!(*v.index(2), 3);
    assert_eq!(v.get(0), Some(&1));
    assert_eq!(v.get(3), None);
    v.set(0, 9);
    assert_eq!(v.into_array(), [9, 5, 3]);
}

#[test]
fn zero_vector_holds_zeros() {
    assert_eq!(values(Vector::<F, 3>::zero()), [0.0, 0.0, 0.0]);
    assert_eq!(values(Vector::<F, 0>::zero()), [0.0; 0]);
}

#[test]
fn vectors_by_the_names_of_their_elements() {
    assert_eq!(Vector::<i32, 1>::new(1).into_array(), [1]);
    assert_eq!(Vector::<i32, 2>::new(1, 2).into_array(), [1, 2]);
    assert_eq!(Vector::<i32, 3>::new(1, 2, 3).into_array(), [1, 2, 3]);
    assert_eq!(Vector::<i32, 4>::new(1, 2, 3, 4).into_array(), [1, 2, 3, 4]);
    assert_eq!(Vector::<i32, 1>::new(1).elements(), X { x: 1 });
    assert_eq!(Vector::<i32, 2>::new(1, 2).elements(), XY { x: 1, y: 2 });
    assert_eq!(Vector::<i32, 3>::new(1, 2, 3).elements(), XYZ { x: 1, y: 2, z: 3 });
    let e = Vector::<i32, 4>::new(1, 2, 3, 4).elements();
    assert_eq!(e, XYZW { x: 1, y: 2, z: 3, w: 4 });
    assert_eq!((e.x, e.y, e.z, e.w), (1, 2, 3, 4));
    assert_eq!(e.vector().into_array(), [1, 2, 3, 4]);
    assert_eq!(X { x: 7 }.vector().into_array(), [7]);
    assert_eq!(XY { x: 7, y: 8 }.vector().into_array(), [7, 8]);
    assert_eq!(XYZ { x: 7, y: 8, z: 9 }.vector().into_array(), [7, 8, 9]);
}

#[test]
fn swizzle_picks_elements_by_index() {
    let v = Vector::<F, 3>::new(f(1.0), f(2.0), f(3.0));
    assert_eq!(values(v.swizzle([2, 0]).unwrap()), [3.0, 1.0]);
    assert_eq!(values(v.swizzle([1, 1, 1, 0]).unwrap()), [2.0, 2.0, 2.0, 1.0]);
    assert_eq!(values(v.swizzle([0, 1, 2]).unwrap()), [1.0, 2.0, 3.0]);
    assert_eq!(values(v.swizzle([]).unwrap()), [0.0; 0]);
    assert!(v.swizzle([0, 3]).is_none());
    assert!(v.swizzle([7]).is_none());
}

#[test]
fn matrix_holds_its_columns() {
    // two columns, three rows
    let mut m = Matrix::from_column_arrays([[1, 2, 3], [4, 5, 6]]);
    assert_eq!(m.arrays(), &[[1, 2, 3], [4, 5, 6]]);
    m.arrays_mut()[1][0] = 7;
    assert_eq!(m.arrays(), &[[1, 2, 3], [7, 5, 6]]);
}

#[test]
fn columns_of_a_matrix_by_reference() {
    let mut m = Matrix::from_column_arrays([[1, 2, 3], [4, 5, 6]]);
    assert_eq!(m.column_ref(1), Some(&[4, 5, 6]));
    assert_eq!(m.column_ref(2), None);
    m.column_mut(0).unwrap()[2] = 9;
    assert_eq!(m.arrays(), &[[1, 2, 9], [4, 5, 6]]);
    assert!(m.column_mut(2).is_none());
}

#[test]
fn matrix_from_rows_is_the_same_matrix() {
    let by_columns = Matrix::from_column_arrays([[f(1.0), f(2.0), f(3.0)], [f(4.0), f(5.0), f(6.0)]]);
    let by_rows = Matrix::<F, 2, 3>::from_row_arrays([[f(1.0), f(4.0)], [f(2.0), f(5.0)], [f(3.0), f(6.0)]]);
    assert_eq!(by_rows, by_columns);
}

#[test]
fn transposing_exchanges_rows_and_columns() {
    let m = Matrix::from_column_arrays([[f(1.0), f(2.0), f(3.0)], [f(4.0), f(5.0), f(6.0)]]);
    let t: Matrix<F, 3, 2> = m.transpose();
    assert_eq!(t, Matrix::from_column_arrays([[f(1.0), f(4.0)], [f(2.0), f(5.0)], [f(3.0), f(6.0)]]));
    assert_eq!(t.transpose(), m);
}

#[test]
fn rows_and_columns_of_a_matrix() {
    let m = Matrix::from_column_arrays([[f(1.0), f(2.0), f(3.0)], [f(4.0), f(5.0), f(6.0)]]);
    assert_eq!(values(m.column(0).unwrap()), [1.0, 2.0, 3.0]);
    assert_eq!(values(m.column(1).unwrap()), [4.0, 5.0, 6.0]);
    assert!(m.column(2).is_none());
    assert_eq!(values(m.row(0).unwrap()), [1.0, 4.0]);
    assert_eq!(values(m.row(2).unwrap()), [3.0, 6.0]);
    assert!(m.row(3).is_none());
}

#[test]
fn columns_of_a_matrix_of_integers() {
    let mat = Matrix::<i32, 3, 2>::from_column_arrays([[1, 2], [3, 4], [5, 6]]);
    assert_eq!(mat.column(2), Some(Vector::from_array([5, 6])));
    assert_eq!(mat.column(0), Some(Vector::from_array([1, 2])));
    assert_eq!(mat.column(3), None);
}

#[test]
fn matrix_of_one_column_or_one_row_is_a_vector() {
    let v = Vector::<F, 3>::new(f(1.0), f(2.0), f(3.0));
    let c = Matrix::<F, 1, 3>::from_column(v);
    assert_eq!(c.arrays(), &[[f(1.0), f(2.0), f(3.0)]]);
    assert_eq!(c.into_column(), v);
    let r = Matrix::<F, 3, 1>::from_row(v);
    assert_eq!(r.arrays(), &[[f(1.0)], [f(2.0)], [f(3.0)]]);
    assert_eq!(r.into_row(), v);
}

#[test]
fn matrix_times_column_vector() {
    // | 1 4 |   | 10 |   |  90 |
    // | 2 5 | * | 20 | = | 120 |
    // | 3 6 |            | 150 |
    let m = Matrix::from_column_arrays([[f(1.0), f(2.0), f(3.0)], [f(4.0), f(5.0), f(6.0)]]);
    let v = Vector::<F, 2>::new(f(10.0), f(20.0));
    assert_eq!(values(m * v), [90.0, 120.0, 150.0]);
    assert_eq!(values(m.times_vector(&v)), [90.0, 120.0, 150.0]);
}

#[test]
fn row_vector_times_matrix() {
    let m = Matrix::from_column_arrays([[f(1.0), f(2.0), f(3.0)], [f(4.0), f(5.0), f(6.0)]]);
    let v = Vector::<F, 3>::new(f(1.0), f(10.0), f(100.0));
    assert_eq!(values(v * m), [321.0, 654.0]);
    assert_eq!(values(m.vector_times(&v)), [321.0, 654.0]);
}

#[test]
fn matrix_times_matrix() {
    // the element in the column n and the row m of the product is the
    // sum over k of self[n][k] * rhs[k][m]
    let a = Matrix::from_column_arrays([[f(1.0), f(2.0)], [f(3.0), f(4.0)], [f(5.0), f(6.0)]]); // 3 columns, 2 rows
    let b = Matrix::from_column_arrays([[f(1.0), f(0.0), f(2.0), f(0.0)], [f(0.0), f(1.0), f(0.0), f(3.0)]]); // 2 columns, 4 rows
    let p: Matrix<F, 3, 4> = a * b;
    let expected = Matrix::from_column_arrays([
        [f(1.0), f(2.0), f(2.0), f(6.0)],
        [f(3.0), f(4.0), f(6.0), f(12.0)],
        [f(5.0), f(6.0), f(10.0), f(18.0)],
    ]);
    assert_eq!(p, expected);
    assert_eq!(a.times(&b), expected);
    assert_eq!(&a * &b, expected);
}

#[test]
fn identity_matrix_changes_nothing() {
    let one = Matrix::from_column_arrays([[f(1.0), f(0.0)], [f(0.0), f(1.0)]]);
    let m = Matrix::from_column_arrays([[f(1.0), f(2.0)], [f(3.0), f(4.0)]]);
    assert_eq!(m * one, m);
    assert_eq!(one * m, m);
    let mut n = m;
    std::ops::MulAssign::mul_assign(&mut n, m);
    assert_eq!(n, m * m);
    assert_eq!(n, Matrix::from_column_arrays([[f(7.0), f(10.0)], [f(15.0), f(22.0)]]));
}

#[test]
fn zero_matrix_holds_zeros() {
    assert_eq!(Matrix::<F, 2, 2>::zero(), Matrix::from_column_arrays([[f(0.0), f(0.0)], [f(0.0), f(0.0)]]));
}
