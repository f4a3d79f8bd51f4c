//! Tabular text of a matrix: one line per logical row, the values of a row
//! separated by tabs, lines separated by newlines. The text follows logical
//! coordinates, whatever the physical layout.

use vstd::prelude::*;
use vstd::string::to_string_from_display_ensures;

use crate::layout::{element_of, offset, LayoutScheme};

verus! {

/// `parts` with `sep` between each two consecutive ones.
pub open spec fn joined(parts: Seq<Seq<char>>, sep: char) -> Seq<char>
    decreases parts.len(),
{
    if parts.len() == 0 {
        Seq::empty()
    } else if parts.len() == 1 {
        parts[0]
    } else {
        joined(parts.drop_last(), sep).push(sep) + parts.last()
    }
}

/// Line `i` of a grid whose `cols`-wide rows are laid end to end in `cells`.
pub open spec fn line_text(cols: nat, cells: Seq<Seq<char>>, i: int) -> Seq<char> {
    joined(cells.subrange(i * cols, (i + 1) * cols), '\t')
}

/// The text of a `rows` × `cols` grid whose cells are given row by row.
pub open spec fn grid_text(rows: nat, cols: nat, cells: Seq<Seq<char>>) -> Seq<char> {
    joined(Seq::new(rows, |i: int| line_text(cols, cells, i)), '\n')
}

/// The characters of each string.
pub open spec fn chars_of(cells: Seq<String>) -> Seq<Seq<char>> {
    cells.map_values(|s: String| s@)
}

/// `cells` holds, row by row, the `Display` text of each logical element of
/// the `rows` × `cols` matrix with buffer `buf`.
pub open spec fn texts_of_elements<T: std::fmt::Display>(
    layout: LayoutScheme,
    rows: nat,
    cols: nat,
    buf: Seq<T>,
    cells: Seq<String>,
) -> bool {
    &&& cells.len() == rows * cols
    &&& forall|p: int|
        0 <= p < rows * cols ==> to_string_from_display_ensures::<T>(
            &element_of(layout, rows, cols, buf, (p / cols as int) as nat, (p % cols as int) as nat),
            #[trigger] cells[p],
        )
}

proof fn lemma_joined_push(parts: Seq<Seq<char>>, sep: char, k: int)
    requires
        0 <= k < parts.len(),
    ensures
        joined(parts.take(k + 1), sep) == if k == 0 {
            parts[0]
        } else {
            joined(parts.take(k), sep).push(sep) + parts[k]
        },
{
    assert(parts.take(k + 1).drop_last() =~= parts.take(k));
}

/// Joins `cells`, given row by row, into lines of `cols` tab-separated
/// values, one line per row.
pub fn render_grid(rows: usize, cols: usize, cells: &Vec<String>) -> (r: String)
    requires
        cells@.len() == rows * cols,
    ensures
        r@ == grid_text(rows as nat, cols as nat, chars_of(cells@)),
{
    let ghost all = chars_of(cells@);
    let ghost lines = Seq::new(rows as nat, |i: int| line_text(cols as nat, all, i));
    assert(cells.len() == cells@.len());
    let mut out = String::new();
    let mut i: usize = 0;
    while i < rows
        invariant
            i <= rows,
            cells@.len() == rows * cols,
            rows * cols <= usize::MAX,
            all == chars_of(cells@),
            lines == Seq::new(rows as nat, |i: int| line_text(cols as nat, all, i)),
            out@ == joined(lines.take(i as int), '\n'),
        decreases rows - i,
    {
        let ghost row = all.subrange(i * cols, (i + 1) * cols);
        proof {
            assert((i + 1) * cols <= rows * cols) by (nonlinear_arith)
                requires
                    i < rows,
            ;
            assert((i + 1) * cols == i * cols + cols) by (nonlinear_arith);
        }
        let mut line = String::new();
        let mut j: usize = 0;
        while j < cols
            invariant
                i < rows,
                j <= cols,
                (i + 1) * cols <= rows * cols,
                (i + 1) * cols == i * cols + cols,
                rows * cols <= usize::MAX,
                cells@.len() == rows * cols,
                all == chars_of(cells@),
                row == all.subrange(i * cols, (i + 1) * cols),
                line@ == joined(row.take(j as int), '\t'),
            decreases cols - j,
        {
            proof {
                assert(0 <= i * cols) by (nonlinear_arith);
                lemma_joined_push(row, '\t', j as int);
                reveal_strlit("\t");
            }
            if j > 0 {
                line.append("\t");
            }
            line.append(cells[i * cols + j].as_str());
            j += 1;
        }
        proof {
            assert(row.take(cols as int) =~= row);
            lemma_joined_push(lines, '\n', i as int);
            reveal_strlit("\n");
        }
        if i > 0 {
            out.append("\n");
        }
        out.append(line.as_str());
        i += 1;
    }
    proof {
        assert(lines.take(rows as int) =~= lines);
    }
    out
}

/// The tabular text of the `rows` × `cols` matrix with buffer `buf`, each
/// element written by its `Display`.
pub fn render<T: std::fmt::Display>(layout: LayoutScheme, rows: usize, cols: usize, buf: &[T]) -> (r:
    String)
    requires
        buf@.len() == rows * cols,
        rows * cols <= usize::MAX,
    ensures
        exists|cells: Seq<String>|
            #[trigger] texts_of_elements(layout, rows as nat, cols as nat, buf@, cells) && r@
                == grid_text(rows as nat, cols as nat, chars_of(cells)),
{
    let mut cells: Vec<String> = Vec::new();
    let mut i: usize = 0;
    while i < rows
        invariant
            i <= rows,
            buf@.len() == rows * cols,
            rows * cols <= usize::MAX,
            cells@.len() == i * cols,
            forall|p: int|
                0 <= p < cells@.len() ==> to_string_from_display_ensures::<T>(
                    &element_of(
                        layout,
                        rows as nat,
                        cols as nat,
                        buf@,
                        (p / cols as int) as nat,
                        (p % cols as int) as nat,
                    ),
                    #[trigger] cells@[p],
                ),
        decreases rows - i,
    {
        let mut j: usize = 0;
        while j < cols
            invariant
                i < rows,
                j <= cols,
                buf@.len() == rows * cols,
                rows * cols <= usize::MAX,
                cells@.len() == i * cols + j,
                forall|p: int|
                    0 <= p < cells@.len() ==> to_string_from_display_ensures::<T>(
                        &element_of(
                            layout,
                            rows as nat,
                            cols as nat,
                            buf@,
                            (p / cols as int) as nat,
                            (p % cols as int) as nat,
                        ),
                        #[trigger] cells@[p],
                    ),
            decreases cols - j,
        {
            let q = offset(layout, rows, cols, i, j);
            let s = buf[q].to_string();
            proof {
                vstd::arithmetic::div_mod::lemma_fundamental_div_mod_converse(
                    (i * cols + j) as int,
                    cols as int,
                    i as int,
                    j as int,
                );
            }
            cells.push(s);
            j += 1;
        }
        proof {
            assert((i + 1) * cols == i * cols + cols) by (nonlinear_arith);
        }
        i += 1;
    }
    let r = render_grid(rows, cols, &cells);
    assert(texts_of_elements(layout, rows as nat, cols as nat, buf@, cells@));
    r
}

} // verus!
