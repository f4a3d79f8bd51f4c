use dense_matrix::layout::{leading_dimension_for, offset, slice_range};
use dense_matrix::render::render_grid;
use dense_matrix::{
    FixedMatrix, FixedMatrixColMajor, FixedMatrixRowMajor, LayoutScheme, Matrix, MatrixColMajor,
    MatrixDense, MatrixRowMajor,
};

#[test]
fn offsets_follow_each_layout() {
    assert_eq!(offset(LayoutScheme::RowMajor, 3, 2, 2, 1), 5);
    assert_eq!(offset(LayoutScheme::RowMajor, 3, 2, 1, 0), 2);
    assert_eq!(offset(LayoutScheme::ColMajor, 3, 2, 2, 1), 5);
    assert_eq!(offset(LayoutScheme::ColMajor, 3, 2, 1, 0), 1);
    assert_eq!(offset(LayoutScheme::ColMajor, 3, 2, 0, 1), 3);
}

#[test]
fn slice_ranges_follow_each_layout() {
    assert_eq!(slice_range(LayoutScheme::RowMajor, 3, 2, 1), (2, 4));
    assert_eq!(slice_range(LayoutScheme::ColMajor, 3, 2, 1), (3, 6));
    assert_eq!(leading_dimension_for(LayoutScheme::RowMajor, 3, 2), 2);
    assert_eq!(leading_dimension_for(LayoutScheme::ColMajor, 3, 2), 3);
}

#[test]
fn fixed_row_major_buffer_order() {
    let mut a: FixedMatrixRowMajor<f64, 3, 2> = FixedMatrixRowMajor::new();
    for i in 0..3 {
        for j in 0..2 {
            a.set(i, j, (i * 2 + j) as f64);
        }
    }
    assert_eq!(a.as_slice(), &[0.0, 1.0, 2.0, 3.0, 4.0, 5.0]);
    assert_eq!(a.layout(), LayoutScheme::RowMajor);
}

#[test]
fn column_slices_hold_logical_columns() {
    let a = MatrixColMajor::from_vec(3, 2, vec![1, 2, 3, 4, 5, 6]);
    for k in 0..2 {
        let s = a.row_or_col_slice(k);
        assert_eq!(s.len(), 3);
        for t in 0..3 {
            assert_eq!(s[t], *a.at(t, k));
        }
    }
}

#[test]
fn row_slices_hold_logical_rows() {
    let a = MatrixRowMajor::from_vec(3, 2, vec![1, 2, 3, 4, 5, 6]);
    for k in 0..3 {
        let s = a.row_or_col_slice(k);
        assert_eq!(s.len(), 2);
        for t in 0..2 {
            assert_eq!(s[t], *a.at(k, t));
        }
    }
    assert_eq!(a.row_or_col_slice(2), &[5, 6]);
}

#[test]
fn leading_dimension_matches_dimensions() {
    let r: MatrixRowMajor<i32> = MatrixRowMajor::new(4, 7);
    let c: MatrixColMajor<i32> = MatrixColMajor::new(4, 7);
    assert_eq!(r.ld(), r.cols());
    assert_eq!(c.ld(), c.rows());
    assert_eq!(r.ld(), 7);
    assert_eq!(c.ld(), 4);
}

#[test]
fn write_then_read_round_trips() {
    let mut r: MatrixRowMajor<i64> = MatrixRowMajor::new(2, 3);
    let mut c: MatrixColMajor<i64> = MatrixColMajor::new(2, 3);
    let mut f: FixedMatrixColMajor<i64, 2, 3> = FixedMatrixColMajor::new();
    r.set(1, 2, 42);
    c.set(1, 2, 42);
    f.set(1, 2, 42);
    assert_eq!(*r.at(1, 2), 42);
    assert_eq!(*c.at(1, 2), 42);
    assert_eq!(*f.at(1, 2), 42);
    assert_eq!(*r.at(0, 2), 0);
    assert_eq!(*c.at(1, 1), 0);
    assert_eq!(*f.at(0, 0), 0);
}

#[test]
fn new_is_all_zero() {
    let r: MatrixRowMajor<f64> = MatrixRowMajor::new(2, 2);
    let f: FixedMatrixRowMajor<u8, 2, 3> = FixedMatrixRowMajor::new();
    assert_eq!(r.as_slice(), &[0.0, 0.0, 0.0, 0.0]);
    assert_eq!(f.as_slice(), &[0, 0, 0, 0, 0, 0]);
}

#[test]
fn dimensions_and_layout_tags() {
    let r = MatrixRowMajor::from_vec(3, 2, vec![0u8; 6]);
    let c = MatrixColMajor::from_vec(3, 2, vec![0u8; 6]);
    let f: FixedMatrixColMajor<u8, 3, 2> = FixedMatrixColMajor::from_vec(vec![0u8; 6]);
    assert_eq!(r.dim(), (3, 2));
    assert_eq!(c.dim(), (3, 2));
    assert_eq!(r.layout(), LayoutScheme::RowMajor);
    assert_eq!(c.layout(), LayoutScheme::ColMajor);
    assert_eq!(f.layout(), LayoutScheme::ColMajor);
}

#[test]
fn empty_matrix_has_empty_buffer() {
    let r: MatrixRowMajor<i32> = MatrixRowMajor::new(0, 5);
    assert_eq!(r.as_slice().len(), 0);
    assert_eq!(r.to_text(), "");
}

#[test]
fn row_major_renders_by_rows() {
    let a = MatrixRowMajor::from_vec(3, 2, vec![1.0, 2.0, 3.0, 4.0, 5.0, 6.0]);
    assert_eq!(a.to_text(), "1\t2\n3\t4\n5\t6");
}

#[test]
fn col_major_renders_logical_values() {
    let a = MatrixColMajor::from_vec(3, 2, vec![1.0, 3.0, 5.0, 2.0, 4.0, 6.0]);
    assert_eq!(a.to_text(), "1\t2\n3\t4\n5\t6");
    let b = MatrixColMajor::from_vec(3, 2, vec![1, 2, 3, 4, 5, 6]);
    assert_eq!(b.to_text(), "1\t4\n2\t5\n3\t6");
}

#[test]
fn fixed_matrices_render_logical_values() {
    let c: FixedMatrixColMajor<i32, 2, 2> = FixedMatrixColMajor::from_vec(vec![1, 3, 2, 4]);
    let r: FixedMatrixRowMajor<i32, 2, 2> = FixedMatrixRowMajor::from_vec(vec![1, 2, 3, 4]);
    assert_eq!(c.to_text(), "1\t2\n3\t4");
    assert_eq!(r.to_text(), "1\t2\n3\t4");
}

#[test]
fn single_row_renders_one_line() {
    let a = MatrixRowMajor::from_vec(1, 3, vec![7, 8, 9]);
    assert_eq!(a.to_text(), "7\t8\t9");
    let c = MatrixColMajor::from_vec(1, 2, vec![7, 8]);
    assert_eq!(c.to_text(), "7\t8");
}

#[test]
fn grid_joins_cells() {
    let cells: Vec<String> = vec!["a".to_string(), "bc".to_string(), "d".to_string(), "".to_string()];
    assert_eq!(render_grid(2, 2, &cells), "a\tbc\nd\t");
    assert_eq!(render_grid(3, 0, &Vec::new()), "\n\n");
}

#[test]
fn mutable_buffer_writes_show_through_coordinates() {
    let mut a = MatrixColMajor::from_vec(2, 2, vec![0, 0, 0, 0]);
    a.as_mut_slice()[1] = 9;
    assert_eq!(*a.at(1, 0), 9);
    let mut f: FixedMatrixRowMajor<i32, 2, 2> = FixedMatrixRowMajor::new();
    f.as_mut_slice()[1] = 4;
    assert_eq!(*f.at(0, 1), 4);
}

#[test]
fn element_reference_writes_in_place() {
    let mut r = MatrixRowMajor::from_vec(2, 3, vec![0; 6]);
    *r.at_mut(1, 0) = 5;
    assert_eq!(r.as_slice(), &[0, 0, 0, 5, 0, 0]);
    let mut c = MatrixColMajor::from_vec(2, 3, vec![0; 6]);
    *c.at_mut(1, 0) = 5;
    assert_eq!(c.as_slice(), &[0, 5, 0, 0, 0, 0]);
}
