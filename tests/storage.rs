#![allow(non_snake_case)]

use dense_matrix::{FixedMatrix, FixedMatrixColMajor, Matrix, MatrixColMajor, MatrixDense, MatrixRowMajor};

#[test]
fn const_matrix_col_col_major() {
    const M: usize = 3;
    const N: usize = 2;

    let d = vec![0.0; M * N];
    let mut A: FixedMatrixColMajor<_, M, N> = FixedMatrixColMajor::from_vec(d);
    for i in 0..M {
        for j in 0..N {
            *A.at_mut(i, j) = (i * N + j) as f64;
        }
    }

    for i in 0..M {
        for j in 0..N {
            assert_eq!(*A.at(i, j), (i * N + j) as f64);
        }
    }

    let p = A.as_slice();
    assert_eq!(p[0], 0.0);
    assert_eq!(p[1], 2.0);
    assert_eq!(p[2], 4.0);
    assert_eq!(p[3], 1.0);
    assert_eq!(p[4], 3.0);
    assert_eq!(p[5], 5.0);
}

#[test]
fn const_matrix_col_index_access() {
    const M: usize = 3;
    const N: usize = 2;
    let d = vec![1.0, 2.0, 3.0, 4.0, 5.0, 6.0];
    let A: FixedMatrixColMajor<_, M, N> = FixedMatrixColMajor::from_vec(d);

    assert_eq!(1.0, A.row_or_col_slice(0)[0]);
    assert_eq!(2.0, A.row_or_col_slice(0)[1]);
    assert_eq!(3.0, A.row_or_col_slice(0)[2]);
    assert_eq!(4.0, A.row_or_col_slice(1)[0]);
    assert_eq!(5.0, A.row_or_col_slice(1)[1]);
    assert_eq!(6.0, A.row_or_col_slice(1)[2]);
}

#[test]
fn matrix_col_col_major() {
    let m = 3;
    let n = 2;

    let d = vec![0.0; m * n];
    let mut A = MatrixColMajor::from_vec(m, n, d);
    for i in 0..m {
        for j in 0..n {
            *A.at_mut(i, j) = (i * n + j) as f64;
        }
    }

    for i in 0..m {
        for j in 0..n {
            assert_eq!(*A.at(i, j), (i * n + j) as f64);
        }
    }

    let p = A.as_slice();
    assert_eq!(p[0], 0.0);
    assert_eq!(p[1], 2.0);
    assert_eq!(p[2], 4.0);
    assert_eq!(p[3], 1.0);
    assert_eq!(p[4], 3.0);
    assert_eq!(p[5], 5.0);
}

#[test]
fn matrix_col_index_access() {
    let (m, n) = (3, 2);
    let d = vec![1.0, 2.0, 3.0, 4.0, 5.0, 6.0];
    let A = MatrixColMajor::from_vec(m, n, d);

    assert_eq!(1.0, A.row_or_col_slice(0)[0]);
    assert_eq!(2.0, A.row_or_col_slice(0)[1]);
    assert_eq!(3.0, A.row_or_col_slice(0)[2]);
    assert_eq!(4.0, A.row_or_col_slice(1)[0]);
    assert_eq!(5.0, A.row_or_col_slice(1)[1]);
    assert_eq!(6.0, A.row_or_col_slice(1)[2]);
}

#[test]
fn col_ld_eq_3() {
    let (m, n) = (3, 2);
    let d = vec![1.0, 2.0, 3.0, 4.0, 5.0, 6.0];
    let A = MatrixColMajor::from_vec(m, n, d);

    assert_eq!(3, A.ld());
}

#[test]
fn row_major() {
    let m = 3;
    let n = 2;

    let d = vec![0.0; m * n];
    let mut A = MatrixRowMajor::from_vec(m, n, d);
    for i in 0..m {
        for j in 0..n {
            *A.at_mut(i, j) = (i * n + j) as f64;
        }
    }

    for i in 0..m {
        for j in 0..n {
            assert_eq!(*A.at(i, j), (i * n + j) as f64);
        }
    }

    let p = A.as_slice();
    assert_eq!(p[0], 0.0);
    assert_eq!(p[1], 1.0);
    assert_eq!(p[2], 2.0);
    assert_eq!(p[3], 3.0);
    assert_eq!(p[4], 4.0);
    assert_eq!(p[5], 5.0);
}

#[test]
fn row_major_get_array() {
    let m = 3;
    let n = 2;

    let d = vec![0.0; m * n];
    let mut A = MatrixRowMajor::from_vec(m, n, d);
    for i in 0..m {
        for j in 0..n {
            *A.at_mut(i, j) = (i * n + j) as f64;
        }
    }

    for i in 0..m {
        for j in 0..n {
            assert_eq!(*A.at(i, j), (i * n + j) as f64);
        }
    }

    assert_eq!(A.row_or_col_slice(0)[0], 0.0);
    assert_eq!(A.row_or_col_slice(0)[1], 1.0);
    assert_eq!(A.row_or_col_slice(1)[0], 2.0);
    assert_eq!(A.row_or_col_slice(1)[1], 3.0);
    assert_eq!(A.row_or_col_slice(2)[0], 4.0);
    assert_eq!(A.row_or_col_slice(2)[1], 5.0);
}

#[test]
fn matrix_row_index_access() {
    let (m, n) = (3, 2);
    let d = vec![1.0, 2.0, 3.0, 4.0, 5.0, 6.0];
    let A = MatrixRowMajor::from_vec(m, n, d);

    assert_eq!(1.0, A.row_or_col_slice(0)[0]);
    assert_eq!(2.0, A.row_or_col_slice(0)[1]);
    assert_eq!(3.0, A.row_or_col_slice(1)[0]);
    assert_eq!(4.0, A.row_or_col_slice(1)[1]);
    assert_eq!(5.0, A.row_or_col_slice(2)[0]);
    assert_eq!(6.0, A.row_or_col_slice(2)[1]);
}

#[test]
fn col_ld_eq_2() {
    // access by column
    let (m, n) = (3, 2);
    let d = vec![1.0, 2.0, 3.0, 4.0, 5.0, 6.0];
    let A = MatrixRowMajor::from_vec(m, n, d);

    assert_eq!(2, A.ld());
}
