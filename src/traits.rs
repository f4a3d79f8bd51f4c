//! The capability contract shared by every dense storage type, stated over
//! an abstract model: dimensions, layout and the flat buffer.

use vstd::prelude::*;

use crate::layout::{
    element_of, leading_dim_of, offset_of, slice_count_of, slice_of, LayoutScheme,
};

verus! {

/// Coordinate and slice access to a matrix whose dimensions are known at
/// run time.
pub trait Matrix<T>: Sized {
    /// Number of logical rows.
    spec fn spec_rows(&self) -> nat;

    /// Number of logical columns.
    spec fn spec_cols(&self) -> nat;

    /// The physical layout.
    spec fn spec_layout(&self) -> LayoutScheme;

    /// The backing buffer, in physical order.
    spec fn spec_buffer(&self) -> Seq<T>;

    /// Well-formedness: the buffer holds exactly rows × cols elements, and
    /// that count fits in a `usize`.
    spec fn wf(&self) -> bool;

    /// What well-formedness says of the model.
    proof fn lemma_wf(&self)
        requires
            self.wf(),
        ensures
            self.spec_buffer().len() == self.spec_rows() * self.spec_cols(),
            self.spec_rows() * self.spec_cols() <= usize::MAX,
    ;

    /// The whole backing buffer, in physical order.
    fn as_slice(&self) -> (r: &[T])
        requires
            self.wf(),
        ensures
            r@ == self.spec_buffer(),
            r@.len() == self.spec_rows() * self.spec_cols(),
    ;

    /// The whole backing buffer, for writing in place. Writes through it
    /// change the buffer and nothing else; a slice cannot change length, so
    /// the matrix stays well formed.
    fn as_mut_slice(&mut self) -> (r: &mut [T])
        requires
            old(self).wf(),
        ensures
            r@ == old(self).spec_buffer(),
            final(self).spec_buffer() == final(r)@,
            final(self).spec_rows() == old(self).spec_rows(),
            final(self).spec_cols() == old(self).spec_cols(),
            final(self).spec_layout() == old(self).spec_layout(),
            final(r)@.len() == r@.len() ==> final(self).wf(),
    ;

    fn layout(&self) -> (r: LayoutScheme)
        ensures
            r == self.spec_layout(),
    ;

    fn rows(&self) -> (r: usize)
        ensures
            r == self.spec_rows(),
    ;

    fn cols(&self) -> (r: usize)
        ensures
            r == self.spec_cols(),
    ;

    /// `(rows, cols)`.
    fn dim(&self) -> (r: (usize, usize))
        ensures
            r.0 == self.spec_rows(),
            r.1 == self.spec_cols(),
    {
        (self.rows(), self.cols())
    }

    /// Logical element (i, j).
    fn at(&self, i: usize, j: usize) -> (r: &T)
        requires
            self.wf(),
            i < self.spec_rows(),
            j < self.spec_cols(),
        ensures
            *r == element_of(
                self.spec_layout(),
                self.spec_rows(),
                self.spec_cols(),
                self.spec_buffer(),
                i as nat,
                j as nat,
            ),
    ;

    /// Logical element (i, j), for writing in place. What is written there
    /// becomes element (i, j); nothing else changes.
    fn at_mut(&mut self, i: usize, j: usize) -> (r: &mut T)
        requires
            old(self).wf(),
            i < old(self).spec_rows(),
            j < old(self).spec_cols(),
        ensures
            *r == element_of(
                old(self).spec_layout(),
                old(self).spec_rows(),
                old(self).spec_cols(),
                old(self).spec_buffer(),
                i as nat,
                j as nat,
            ),
            final(self).wf(),
            final(self).spec_rows() == old(self).spec_rows(),
            final(self).spec_cols() == old(self).spec_cols(),
            final(self).spec_layout() == old(self).spec_layout(),
            final(self).spec_buffer() == old(self).spec_buffer().update(
                offset_of(
                    old(self).spec_layout(),
                    old(self).spec_rows(),
                    old(self).spec_cols(),
                    i as nat,
                    j as nat,
                ) as int,
                *final(r),
            ),
    ;

    /// Replaces logical element (i, j) with `v`; nothing else changes.
    fn set(&mut self, i: usize, j: usize, v: T)
        requires
            old(self).wf(),
            i < old(self).spec_rows(),
            j < old(self).spec_cols(),
        ensures
            final(self).wf(),
            final(self).spec_rows() == old(self).spec_rows(),
            final(self).spec_cols() == old(self).spec_cols(),
            final(self).spec_layout() == old(self).spec_layout(),
            final(self).spec_buffer() == old(self).spec_buffer().update(
                offset_of(
                    old(self).spec_layout(),
                    old(self).spec_rows(),
                    old(self).spec_cols(),
                    i as nat,
                    j as nat,
                ) as int,
                v,
            ),
    ;

    /// The contiguous run for index `k`: row `k` in row-major layout, column
    /// `k` in column-major layout.
    fn row_or_col_slice(&self, k: usize) -> (r: &[T])
        requires
            self.wf(),
            k < slice_count_of(self.spec_layout(), self.spec_rows(), self.spec_cols()),
        ensures
            r@ == slice_of(
                self.spec_layout(),
                self.spec_rows(),
                self.spec_cols(),
                self.spec_buffer(),
                k as nat,
            ),
            r@.len() == leading_dim_of(self.spec_layout(), self.spec_rows(), self.spec_cols()),
            self.spec_layout() == LayoutScheme::RowMajor ==> forall|t: int|
                0 <= t < self.spec_cols() ==> #[trigger] r@[t] == element_of(
                    self.spec_layout(),
                    self.spec_rows(),
                    self.spec_cols(),
                    self.spec_buffer(),
                    k as nat,
                    t as nat,
                ),
            self.spec_layout() == LayoutScheme::ColMajor ==> forall|t: int|
                0 <= t < self.spec_rows() ==> #[trigger] r@[t] == element_of(
                    self.spec_layout(),
                    self.spec_rows(),
                    self.spec_cols(),
                    self.spec_buffer(),
                    t as nat,
                    k as nat,
                ),
    ;
}

/// A matrix whose rows or columns sit at a fixed stride in its buffer.
pub trait MatrixDense<T>: Matrix<T> {
    /// The leading dimension: columns for row-major, rows for column-major.
    fn ld(&self) -> (r: usize)
        ensures
            r == leading_dim_of(self.spec_layout(), self.spec_rows(), self.spec_cols()),
            self.spec_layout() == LayoutScheme::RowMajor ==> r == self.spec_cols(),
            self.spec_layout() == LayoutScheme::ColMajor ==> r == self.spec_rows(),
    ;
}

/// Coordinate and slice access to an `M` × `N` matrix whose dimensions are
/// fixed by its type.
pub trait FixedMatrix<T, const M: usize, const N: usize>: Sized {
    /// The physical layout.
    spec fn spec_layout(&self) -> LayoutScheme;

    /// The backing buffer, in physical order.
    spec fn spec_buffer(&self) -> Seq<T>;

    /// Well-formedness: the buffer holds exactly M × N elements, and that
    /// count fits in a `usize`.
    spec fn wf(&self) -> bool;

    /// What well-formedness says of the model.
    proof fn lemma_wf(&self)
        requires
            self.wf(),
        ensures
            self.spec_buffer().len() == M * N,
            M * N <= usize::MAX,
    ;

    /// The whole backing buffer, in physical order.
    fn as_slice(&self) -> (r: &[T])
        requires
            self.wf(),
        ensures
            r@ == self.spec_buffer(),
            r@.len() == M * N,
    ;

    /// The whole backing buffer, for writing in place. Writes through it
    /// change the buffer and nothing else; a slice cannot change length, so
    /// the matrix stays well formed.
    fn as_mut_slice(&mut self) -> (r: &mut [T])
        requires
            old(self).wf(),
        ensures
            r@ == old(self).spec_buffer(),
            final(self).spec_buffer() == final(r)@,
            final(self).spec_layout() == old(self).spec_layout(),
            final(r)@.len() == r@.len() ==> final(self).wf(),
    ;

    fn layout(&self) -> (r: LayoutScheme)
        ensures
            r == self.spec_layout(),
    ;

    /// Logical element (i, j).
    fn at(&self, i: usize, j: usize) -> (r: &T)
        requires
            self.wf(),
            i < M,
            j < N,
        ensures
            *r == element_of(
                self.spec_layout(),
                M as nat,
                N as nat,
                self.spec_buffer(),
                i as nat,
                j as nat,
            ),
    ;

    /// Logical element (i, j), for writing in place. What is written there
    /// becomes element (i, j); nothing else changes.
    fn at_mut(&mut self, i: usize, j: usize) -> (r: &mut T)
        requires
            old(self).wf(),
            i < M,
            j < N,
        ensures
            *r == element_of(
                old(self).spec_layout(),
                M as nat,
                N as nat,
                old(self).spec_buffer(),
                i as nat,
                j as nat,
            ),
            final(self).wf(),
            final(self).spec_layout() == old(self).spec_layout(),
            final(self).spec_buffer() == old(self).spec_buffer().update(
                offset_of(old(self).spec_layout(), M as nat, N as nat, i as nat, j as nat) as int,
                *final(r),
            ),
    ;

    /// Replaces logical element (i, j) with `v`; nothing else changes.
    fn set(&mut self, i: usize, j: usize, v: T)
        requires
            old(self).wf(),
            i < M,
            j < N,
        ensures
            final(self).wf(),
            final(self).spec_layout() == old(self).spec_layout(),
            final(self).spec_buffer() == old(self).spec_buffer().update(
                offset_of(old(self).spec_layout(), M as nat, N as nat, i as nat, j as nat) as int,
                v,
            ),
    ;

    /// The contiguous run for index `k`: row `k` in row-major layout, column
    /// `k` in column-major layout.
    fn row_or_col_slice(&self, k: usize) -> (r: &[T])
        requires
            self.wf(),
            k < slice_count_of(self.spec_layout(), M as nat, N as nat),
        ensures
            r@ == slice_of(self.spec_layout(), M as nat, N as nat, self.spec_buffer(), k as nat),
            r@.len() == leading_dim_of(self.spec_layout(), M as nat, N as nat),
            self.spec_layout() == LayoutScheme::RowMajor ==> forall|t: int|
                0 <= t < N ==> #[trigger] r@[t] == element_of(
                    self.spec_layout(),
                    M as nat,
                    N as nat,
                    self.spec_buffer(),
                    k as nat,
                    t as nat,
                ),
            self.spec_layout() == LayoutScheme::ColMajor ==> forall|t: int|
                0 <= t < M ==> #[trigger] r@[t] == element_of(
                    self.spec_layout(),
                    M as nat,
                    N as nat,
                    self.spec_buffer(),
                    t as nat,
                    k as nat,
                ),
    ;
}

} // verus!
