//! Properties that relate several operations: where a write lands in the
//! buffer, and what a read after a write returns.

use vstd::prelude::*;

use crate::layout::{element_of, lemma_offset_in_bounds, offset_of, LayoutScheme};
use crate::traits::{FixedMatrix, Matrix};

verus! {

/// Two in-range coordinates with the same offset are the same coordinate.
pub proof fn lemma_offset_injective(
    layout: LayoutScheme,
    rows: nat,
    cols: nat,
    i: nat,
    j: nat,
    i2: nat,
    j2: nat,
)
    requires
        i < rows,
        j < cols,
        i2 < rows,
        j2 < cols,
        offset_of(layout, rows, cols, i, j) == offset_of(layout, rows, cols, i2, j2),
    ensures
        i == i2,
        j == j2,
{
    match layout {
        LayoutScheme::RowMajor => {
            let x = (i * cols + j) as int;
            vstd::arithmetic::div_mod::lemma_fundamental_div_mod_converse(
                x,
                cols as int,
                i as int,
                j as int,
            );
            vstd::arithmetic::div_mod::lemma_fundamental_div_mod_converse(
                x,
                cols as int,
                i2 as int,
                j2 as int,
            );
        },
        LayoutScheme::ColMajor => {
            let x = (i + j * rows) as int;
            assert(x == j * rows + i);
            assert(x == j2 * rows + i2);
            vstd::arithmetic::div_mod::lemma_fundamental_div_mod_converse(
                x,
                rows as int,
                j as int,
                i as int,
            );
            vstd::arithmetic::div_mod::lemma_fundamental_div_mod_converse(
                x,
                rows as int,
                j2 as int,
                i2 as int,
            );
        },
    }
}

/// Writing `v` at (i, j) of a row-major matrix puts `v` at buffer position
/// i × cols + j.
pub proof fn law_row_major_write_offset<T, X: Matrix<T>>(before: X, after: X, i: nat, j: nat, v: T)
    requires
        before.wf(),
        before.spec_layout() == LayoutScheme::RowMajor,
        i < before.spec_rows(),
        j < before.spec_cols(),
        after.spec_buffer() == before.spec_buffer().update(
            offset_of(before.spec_layout(), before.spec_rows(), before.spec_cols(), i, j) as int,
            v,
        ),
    ensures
        i * before.spec_cols() + j < after.spec_buffer().len(),
        after.spec_buffer()[(i * before.spec_cols() + j) as int] == v,
{
    before.lemma_wf();
    lemma_offset_in_bounds(before.spec_layout(), before.spec_rows(), before.spec_cols(), i, j);
}

/// Writing `v` at (i, j) of a column-major matrix puts `v` at buffer
/// position i + j × rows.
pub proof fn law_col_major_write_offset<T, X: Matrix<T>>(before: X, after: X, i: nat, j: nat, v: T)
    requires
        before.wf(),
        before.spec_layout() == LayoutScheme::ColMajor,
        i < before.spec_rows(),
        j < before.spec_cols(),
        after.spec_buffer() == before.spec_buffer().update(
            offset_of(before.spec_layout(), before.spec_rows(), before.spec_cols(), i, j) as int,
            v,
        ),
    ensures
        i + j * before.spec_rows() < after.spec_buffer().len(),
        after.spec_buffer()[(i + j * before.spec_rows()) as int] == v,
{
    before.lemma_wf();
    lemma_offset_in_bounds(before.spec_layout(), before.spec_rows(), before.spec_cols(), i, j);
}

/// Whatever the layout, reading (i, j) after writing `v` there gives `v`,
/// and every other logical element keeps its value.
pub proof fn law_round_trip<T, X: Matrix<T>>(before: X, after: X, i: nat, j: nat, v: T)
    requires
        before.wf(),
        i < before.spec_rows(),
        j < before.spec_cols(),
        after.spec_rows() == before.spec_rows(),
        after.spec_cols() == before.spec_cols(),
        after.spec_layout() == before.spec_layout(),
        after.spec_buffer() == before.spec_buffer().update(
            offset_of(before.spec_layout(), before.spec_rows(), before.spec_cols(), i, j) as int,
            v,
        ),
    ensures
        element_of(
            after.spec_layout(),
            after.spec_rows(),
            after.spec_cols(),
            after.spec_buffer(),
            i,
            j,
        ) == v,
        forall|i2: nat, j2: nat|
            i2 < before.spec_rows() && j2 < before.spec_cols() && (i2 != i || j2 != j)
                ==> #[trigger] element_of(
                after.spec_layout(),
                after.spec_rows(),
                after.spec_cols(),
                after.spec_buffer(),
                i2,
                j2,
            ) == element_of(
                before.spec_layout(),
                before.spec_rows(),
                before.spec_cols(),
                before.spec_buffer(),
                i2,
                j2,
            ),
{
    let (l, r, c) = (before.spec_layout(), before.spec_rows(), before.spec_cols());
    before.lemma_wf();
    lemma_offset_in_bounds(l, r, c, i, j);
    assert forall|i2: nat, j2: nat|
        i2 < r && j2 < c && (i2 != i || j2 != j) implies #[trigger] element_of(
        l,
        r,
        c,
        after.spec_buffer(),
        i2,
        j2,
    ) == element_of(l, r, c, before.spec_buffer(), i2, j2) by {
        lemma_offset_in_bounds(l, r, c, i2, j2);
        if offset_of(l, r, c, i, j) == offset_of(l, r, c, i2, j2) {
            lemma_offset_injective(l, r, c, i, j, i2, j2);
        }
    }
}

/// The same round trip for a matrix whose dimensions are fixed by its type.
pub proof fn law_fixed_round_trip<T, const M: usize, const N: usize, X: FixedMatrix<T, M, N>>(
    before: X,
    after: X,
    i: nat,
    j: nat,
    v: T,
)
    requires
        before.wf(),
        i < M,
        j < N,
        after.spec_layout() == before.spec_layout(),
        after.spec_buffer() == before.spec_buffer().update(
            offset_of(before.spec_layout(), M as nat, N as nat, i, j) as int,
            v,
        ),
    ensures
        element_of(after.spec_layout(), M as nat, N as nat, after.spec_buffer(), i, j) == v,
        forall|i2: nat, j2: nat|
            i2 < M && j2 < N && (i2 != i || j2 != j) ==> #[trigger] element_of(
                after.spec_layout(),
                M as nat,
                N as nat,
                after.spec_buffer(),
                i2,
                j2,
            ) == element_of(before.spec_layout(), M as nat, N as nat, before.spec_buffer(), i2, j2),
{
    let l = before.spec_layout();
    before.lemma_wf();
    lemma_offset_in_bounds(l, M as nat, N as nat, i, j);
    assert forall|i2: nat, j2: nat| i2 < M && j2 < N && (i2 != i || j2 != j) implies #[trigger] element_of(
        l,
        M as nat,
        N as nat,
        after.spec_buffer(),
        i2,
        j2,
    ) == element_of(l, M as nat, N as nat, before.spec_buffer(), i2, j2) by {
        lemma_offset_in_bounds(l, M as nat, N as nat, i2, j2);
        if offset_of(l, M as nat, N as nat, i, j) == offset_of(l, M as nat, N as nat, i2, j2) {
            lemma_offset_injective(l, M as nat, N as nat, i, j, i2, j2);
        }
    }
}

} // verus!
