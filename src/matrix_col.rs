//! Column-major storage: consecutive row indices are adjacent in memory.

use vstd::prelude::*;

use crate::layout::{lemma_slice_elements, offset, slice_range, LayoutScheme};
use crate::render::{chars_of, grid_text, render, texts_of_elements};
use crate::traits::{Matrix, MatrixDense};
use crate::zero::{filled_with, zero_value};

verus! {

/// A `m` × `n` matrix stored column by column.
#[derive(Debug)]
pub struct MatrixColMajor<T> {
    m: usize,
    n: usize,
    d: Vec<T>,
}

impl<T> MatrixColMajor<T> {
    /// Takes ownership of `d`, read as `n` columns of `m` elements each.
    pub fn from_vec(m: usize, n: usize, d: Vec<T>) -> (r: Self)
        requires
            d@.len() == m * n,
        ensures
            r.spec_rows() == m,
            r.spec_cols() == n,
            r.wf(),
            r.spec_layout() == LayoutScheme::ColMajor,
            r.spec_buffer() == d@,
    {
        assert(d.len() == d@.len());
        MatrixColMajor { m, n, d }
    }
}

impl<T: num_traits::Zero + Clone> MatrixColMajor<T> {
    /// A `m` × `n` matrix whose elements are all copies of `T`'s zero.
    pub fn new(m: usize, n: usize) -> (r: Self)
        requires
            m * n <= usize::MAX,
        ensures
            r.wf(),
            r.spec_rows() == m,
            r.spec_cols() == n,
            r.spec_layout() == LayoutScheme::ColMajor,
            r.spec_buffer().len() == m * n,
            exists|z: T| #[trigger] filled_with(z, r.spec_buffer()),
    {
        let z = zero_value::<T>();
        let ghost gz = z;
        let d = vec![z; m * n];
        let r = Self::from_vec(m, n, d);
        assert(filled_with(gz, r.spec_buffer()));
        r
    }
}

impl<T: std::fmt::Display> MatrixColMajor<T> {
    /// The matrix as text: one line per logical row, values separated by
    /// tabs, each written by its `Display`.
    pub fn to_text(&self) -> (r: String)
        requires
            self.wf(),
        ensures
            exists|cells: Seq<String>|
                #[trigger] texts_of_elements(
                    LayoutScheme::ColMajor,
                    self.spec_rows(),
                    self.spec_cols(),
                    self.spec_buffer(),
                    cells,
                ) && r@ == grid_text(self.spec_rows(), self.spec_cols(), chars_of(cells)),
    {
        let r = render(LayoutScheme::ColMajor, self.m, self.n, self.d.as_slice());
        proof {
            let cells = choose|cells: Seq<String>|
                #[trigger] texts_of_elements(LayoutScheme::ColMajor, self.m as nat, self.n as nat, self.d@, cells)
                    && r@ == grid_text(self.m as nat, self.n as nat, chars_of(cells));
            assert(self.spec_rows() == self.m as nat && self.spec_cols() == self.n as nat);
            assert(texts_of_elements(
                LayoutScheme::ColMajor,
                self.m as nat,
                self.n as nat,
                self.spec_buffer(),
                cells,
            ));
        }
        r
    }
}

impl<T> Matrix<T> for MatrixColMajor<T> {
    closed spec fn spec_rows(&self) -> nat {
        self.m as nat
    }

    closed spec fn spec_cols(&self) -> nat {
        self.n as nat
    }

    closed spec fn spec_layout(&self) -> LayoutScheme {
        LayoutScheme::ColMajor
    }

    closed spec fn spec_buffer(&self) -> Seq<T> {
        self.d@
    }

    closed spec fn wf(&self) -> bool {
        &&& self.d@.len() == self.m * self.n
        &&& self.m * self.n <= usize::MAX
    }

    proof fn lemma_wf(&self) {
    }

    fn as_slice(&self) -> (r: &[T]) {
        self.d.as_slice()
    }

    fn as_mut_slice(&mut self) -> (r: &mut [T]) {
        self.d.as_mut_slice()
    }

    fn layout(&self) -> (r: LayoutScheme) {
        LayoutScheme::ColMajor
    }

    fn rows(&self) -> (r: usize) {
        self.m
    }

    fn cols(&self) -> (r: usize) {
        self.n
    }

    fn at(&self, i: usize, j: usize) -> (r: &T) {
        let p = offset(LayoutScheme::ColMajor, self.m, self.n, i, j);
        &self.d[p]
    }

    fn at_mut(&mut self, i: usize, j: usize) -> (r: &mut T) {
        let p = offset(LayoutScheme::ColMajor, self.m, self.n, i, j);
        &mut self.d[p]
    }

    fn set(&mut self, i: usize, j: usize, v: T) {
        let p = offset(LayoutScheme::ColMajor, self.m, self.n, i, j);
        self.d.set(p, v);
    }

    fn row_or_col_slice(&self, k: usize) -> (r: &[T]) {
        let (lo, hi) = slice_range(LayoutScheme::ColMajor, self.m, self.n, k);
        let r = &self.d.as_slice()[lo..hi];
        proof {
            lemma_slice_elements(
                LayoutScheme::ColMajor,
                self.m as nat,
                self.n as nat,
                self.d@,
                k as nat,
            );
        }
        r
    }
}

impl<T> MatrixDense<T> for MatrixColMajor<T> {
    fn ld(&self) -> (r: usize) {
        self.m
    }
}

} // verus!
