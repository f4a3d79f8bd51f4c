//! The layout tag and the arithmetic shared by every storage type: where a
//! logical element lives in the buffer, which range a single-index slice
//! covers, and the stride an interop routine steps by.

use vstd::prelude::*;

verus! {

/// Which dimension is contiguous in memory.
#[derive(Debug, Clone, Copy, PartialEq, Eq, Structural)]
pub enum LayoutScheme {
    /// Elements of one row are adjacent.
    RowMajor,
    /// Elements of one column are adjacent.
    ColMajor,
}

/// Buffer position of logical element (i, j) in a `rows` × `cols` matrix.
pub open spec fn offset_of(layout: LayoutScheme, rows: nat, cols: nat, i: nat, j: nat) -> nat {
    match layout {
        LayoutScheme::RowMajor => i * cols + j,
        LayoutScheme::ColMajor => i + j * rows,
    }
}

/// Distance in the buffer between the starts of two consecutive rows
/// (row-major) or columns (column-major).
pub open spec fn leading_dim_of(layout: LayoutScheme, rows: nat, cols: nat) -> nat {
    match layout {
        LayoutScheme::RowMajor => cols,
        LayoutScheme::ColMajor => rows,
    }
}

/// How many single-index slices there are: one per row for row-major, one
/// per column for column-major.
pub open spec fn slice_count_of(layout: LayoutScheme, rows: nat, cols: nat) -> nat {
    match layout {
        LayoutScheme::RowMajor => rows,
        LayoutScheme::ColMajor => cols,
    }
}

/// Logical element (i, j) of the buffer `buf`.
pub open spec fn element_of<T>(
    layout: LayoutScheme,
    rows: nat,
    cols: nat,
    buf: Seq<T>,
    i: nat,
    j: nat,
) -> T {
    buf[offset_of(layout, rows, cols, i, j) as int]
}

/// The contiguous slice number `k` of the buffer `buf`.
pub open spec fn slice_of<T>(layout: LayoutScheme, rows: nat, cols: nat, buf: Seq<T>, k: nat) -> Seq<
    T,
> {
    let ld = leading_dim_of(layout, rows, cols);
    buf.subrange((k * ld) as int, ((k + 1) * ld) as int)
}

/// Every in-range coordinate lands inside the buffer.
pub proof fn lemma_offset_in_bounds(layout: LayoutScheme, rows: nat, cols: nat, i: nat, j: nat)
    requires
        i < rows,
        j < cols,
    ensures
        offset_of(layout, rows, cols, i, j) < rows * cols,
{
    match layout {
        LayoutScheme::RowMajor => {
            assert(i * cols + j < rows * cols) by (nonlinear_arith)
                requires
                    i < rows,
                    j < cols,
            ;
        },
        LayoutScheme::ColMajor => {
            assert(i + j * rows < rows * cols) by (nonlinear_arith)
                requires
                    i < rows,
                    j < cols,
            ;
        },
    }
}

/// Every in-range slice lies inside the buffer.
pub proof fn lemma_slice_in_bounds(layout: LayoutScheme, rows: nat, cols: nat, k: nat)
    requires
        k < slice_count_of(layout, rows, cols),
    ensures
        (k + 1) * leading_dim_of(layout, rows, cols) <= rows * cols,
{
    let ld = leading_dim_of(layout, rows, cols);
    let cnt = slice_count_of(layout, rows, cols);
    assert(cnt * ld == rows * cols) by (nonlinear_arith)
        requires
            (cnt == rows && ld == cols) || (cnt == cols && ld == rows),
    ;
    assert((k + 1) * ld <= cnt * ld) by (nonlinear_arith)
        requires
            k < cnt,
    ;
}

/// Slice `k` has one element per position along the contiguous dimension,
/// and its element `t` is logical element (k, t) in row-major layout and
/// (t, k) in column-major layout.
pub proof fn lemma_slice_elements<T>(
    layout: LayoutScheme,
    rows: nat,
    cols: nat,
    buf: Seq<T>,
    k: nat,
)
    requires
        buf.len() == rows * cols,
        k < slice_count_of(layout, rows, cols),
    ensures
        slice_of(layout, rows, cols, buf, k).len() == leading_dim_of(layout, rows, cols),
        layout == LayoutScheme::RowMajor ==> forall|t: int|
            0 <= t < cols ==> #[trigger] slice_of(layout, rows, cols, buf, k)[t] == element_of(
                layout,
                rows,
                cols,
                buf,
                k,
                t as nat,
            ),
        layout == LayoutScheme::ColMajor ==> forall|t: int|
            0 <= t < rows ==> #[trigger] slice_of(layout, rows, cols, buf, k)[t] == element_of(
                layout,
                rows,
                cols,
                buf,
                t as nat,
                k,
            ),
{
    let ld = leading_dim_of(layout, rows, cols);
    lemma_slice_in_bounds(layout, rows, cols, k);
    assert((k + 1) * ld == k * ld + ld) by (nonlinear_arith);
    assert(0 <= k * ld) by (nonlinear_arith);
    if layout == LayoutScheme::ColMajor {
        assert forall|t: int| 0 <= t < rows implies #[trigger] slice_of(
            layout,
            rows,
            cols,
            buf,
            k,
        )[t] == element_of(layout, rows, cols, buf, t as nat, k) by {
            assert(t + k * rows == k * rows + t) by (nonlinear_arith);
        }
    }
}

/// Buffer position of logical element (i, j).
pub fn offset(layout: LayoutScheme, rows: usize, cols: usize, i: usize, j: usize) -> (r: usize)
    requires
        i < rows,
        j < cols,
        rows * cols <= usize::MAX,
    ensures
        r == offset_of(layout, rows as nat, cols as nat, i as nat, j as nat),
        r < rows * cols,
{
    proof {
        lemma_offset_in_bounds(layout, rows as nat, cols as nat, i as nat, j as nat);
    }
    match layout {
        LayoutScheme::RowMajor => {
            assert(i * cols <= i * cols + j) by (nonlinear_arith);
            i * cols + j
        },
        LayoutScheme::ColMajor => {
            assert(j * rows <= i + j * rows) by (nonlinear_arith);
            i + j * rows
        },
    }
}

/// Stride between consecutive rows (row-major) or columns (column-major).
pub fn leading_dimension_for(layout: LayoutScheme, rows: usize, cols: usize) -> (r: usize)
    ensures
        r == leading_dim_of(layout, rows as nat, cols as nat),
{
    match layout {
        LayoutScheme::RowMajor => cols,
        LayoutScheme::ColMajor => rows,
    }
}

/// Start and end (exclusive) of slice number `k` in the buffer.
pub fn slice_range(layout: LayoutScheme, rows: usize, cols: usize, k: usize) -> (r: (usize, usize))
    requires
        k < slice_count_of(layout, rows as nat, cols as nat),
        rows * cols <= usize::MAX,
    ensures
        r.0 == k * leading_dim_of(layout, rows as nat, cols as nat),
        r.1 == (k + 1) * leading_dim_of(layout, rows as nat, cols as nat),
        r.0 <= r.1 <= rows * cols,
{
    let ld = leading_dimension_for(layout, rows, cols);
    proof {
        lemma_slice_in_bounds(layout, rows as nat, cols as nat, k as nat);
        assert(k * ld <= (k + 1) * ld) by (nonlinear_arith);
    }
    (k * ld, (k + 1) * ld)
}

} // verus!
