//! Column-major storage whose dimensions are fixed by its type.

use vstd::prelude::*;

use crate::layout::{lemma_slice_elements, offset, slice_range, LayoutScheme};
use crate::render::{chars_of, grid_text, render, texts_of_elements};
use crate::traits::FixedMatrix;
use crate::zero::{filled_with, zero_value};

verus! {

/// An `M` × `N` matrix stored column by column.
#[derive(Debug)]
pub struct FixedMatrixColMajor<T, const M: usize, const N: usize> {
    d: Vec<T>,
}

impl<T, const M: usize, const N: usize> FixedMatrixColMajor<T, M, N> {
    /// Takes ownership of `d`, read as `N` columns of `M` elements each.
    pub fn from_vec(d: Vec<T>) -> (r: Self)
        requires
            d@.len() == M * N,
        ensures
            r.wf(),
            r.spec_layout() == LayoutScheme::ColMajor,
            r.spec_buffer() == d@,
    {
        assert(d.len() == d@.len());
        FixedMatrixColMajor { d }
    }
}

impl<T: num_traits::Zero + Clone, const M: usize, const N: usize> FixedMatrixColMajor<T, M, N> {
    /// An `M` × `N` matrix whose elements are all copies of `T`'s zero.
    pub fn new() -> (r: Self)
        requires
            M * N <= usize::MAX,
        ensures
            r.wf(),
            r.spec_layout() == LayoutScheme::ColMajor,
            r.spec_buffer().len() == M * N,
            exists|z: T| #[trigger] filled_with(z, r.spec_buffer()),
    {
        let z = zero_value::<T>();
        let ghost gz = z;
        let d = vec![z; M * N];
        let r = Self::from_vec(d);
        assert(filled_with(gz, r.spec_buffer()));
        r
    }
}

impl<T: std::fmt::Display, const M: usize, const N: usize> FixedMatrixColMajor<T, M, N> {
    /// The matrix as text: one line per logical row, values separated by
    /// tabs, each written by its `Display`.
    pub fn to_text(&self) -> (r: String)
        requires
            self.wf(),
        ensures
            exists|cells: Seq<String>|
                #[trigger] texts_of_elements(
                    LayoutScheme::ColMajor,
                    M as nat,
                    N as nat,
                    self.spec_buffer(),
                    cells,
                ) && r@ == grid_text(M as nat, N as nat, chars_of(cells)),
    {
        let r = render(LayoutScheme::ColMajor, M, N, self.d.as_slice());
        proof {
            let cells = choose|cells: Seq<String>|
                #[trigger] texts_of_elements(LayoutScheme::ColMajor, M as nat, N as nat, self.d@, cells)
                    && r@ == grid_text(M as nat, N as nat, chars_of(cells));
            assert(texts_of_elements(
                LayoutScheme::ColMajor,
                M as nat,
                N as nat,
                self.spec_buffer(),
                cells,
            ));
        }
        r
    }
}

impl<T, const M: usize, const N: usize> FixedMatrix<T, M, N> for FixedMatrixColMajor<T, M, N> {
    closed spec fn spec_layout(&self) -> LayoutScheme {
        LayoutScheme::ColMajor
    }

    closed spec fn spec_buffer(&self) -> Seq<T> {
        self.d@
    }

    closed spec fn wf(&self) -> bool {
        &&& self.d@.len() == M * N
        &&& M * N <= usize::MAX
    }

    proof fn lemma_wf(&self) {
    }

    fn as_slice(&self) -> (r: &[T]) {
        self.d.as_slice()
    }

    fn as_mut_slice(&mut self) -> (r: &mut [T]) {
        self.d.as_mut_slice()
    }

    fn layout(&self) -> (r: LayoutScheme) {
        LayoutScheme::ColMajor
    }

    fn at(&self, i: usize, j: usize) -> (r: &T) {
        let p = offset(LayoutScheme::ColMajor, M, N, i, j);
        &self.d[p]
    }

    fn at_mut(&mut self, i: usize, j: usize) -> (r: &mut T) {
        let p = offset(LayoutScheme::ColMajor, M, N, i, j);
        &mut self.d[p]
    }

    fn set(&mut self, i: usize, j: usize, v: T) {
        let p = offset(LayoutScheme::ColMajor, M, N, i, j);
        self.d.set(p, v);
    }

    fn row_or_col_slice(&self, k: usize) -> (r: &[T]) {
        let (lo, hi) = slice_range(LayoutScheme::ColMajor, M, N, k);
        let r = &self.d.as_slice()[lo..hi];
        proof {
            lemma_slice_elements(
                LayoutScheme::ColMajor,
                M as nat,
                N as nat,
                self.d@,
                k as nat,
            );
        }
        r
    }
}

} // verus!
