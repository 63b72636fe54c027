//! The grid of colored copies of a text.

use vstd::prelude::*;
use vstd::arithmetic::div_mod::lemma_fundamental_div_mod_converse;

use crate::color::{cell_color_index, color_index, palette_color, rainbow_color, Color, ColorMode};
use crate::text::{
    display_width, lemma_line_count, lemma_longest_is_max, lines_of, longest, longest_line,
    pad_line, padded, split_lines, texts,
};

verus! {

/// One copy of a line of the text, with its color.
pub struct Cell {
    pub text: String,
    pub color: Color,
}

/// The text of the cell in `column` of a grid `columns` wide: the line padded
/// to `width`, but for the last column, which shows the line as it is.
pub open spec fn cell_text(line: Seq<char>, width: nat, column: int, columns: int) -> Seq<char> {
    if column == columns - 1 {
        line
    } else {
        padded(line, width)
    }
}

/// Whether `printed` is terminal line `i` of the grid: each of the text's lines
/// in turn, once per row, with `columns` cells, line `i` being in row
/// `i / lines.len()` and counted `i + 1` for the rainbow.
pub open spec fn is_grid_line(
    lines: Seq<Seq<char>>,
    columns: int,
    mode: ColorMode,
    offset: int,
    i: int,
    printed: Seq<Cell>,
) -> bool {
    &&& printed.len() == columns
    &&& forall|j: int|
        0 <= j < columns ==> {
            &&& (#[trigger] printed[j]).text@ == cell_text(
                lines[i % lines.len() as int],
                longest(lines),
                j,
                columns,
            )
            &&& printed[j].color == palette_color(
                color_index(mode, offset, i / lines.len() as int, j, i + 1),
            )
        }
}

/// The grid of `rows` copies down and `columns` copies across of `lines`,
/// as terminal lines of cells.
pub fn render(lines: &Vec<String>, rows: u8, columns: u8, mode: ColorMode, offset: u8) -> (out: Vec<Vec<Cell>>)
    requires
        rows as int * lines@.len() <= usize::MAX,
    ensures
        out@.len() == rows as int * lines@.len(),
        forall|i: int|
            0 <= i < out@.len() ==> is_grid_line(
                texts(lines@),
                columns as int,
                mode,
                offset as int,
                i,
                #[trigger] out@[i]@,
            ),
{
    let n = lines.len();
    let width = longest_line(lines);
    let ghost tl = texts(lines@);
    let mut out: Vec<Vec<Cell>> = Vec::new();
    let mut row: u8 = 0;
    while row < rows
        invariant
            row <= rows,
            n == lines@.len(),
            tl == texts(lines@),
            width == longest(tl),
            rows as int * n <= usize::MAX,
            out@.len() == row as int * n,
            forall|i: int|
                0 <= i < out@.len() ==> is_grid_line(
                    tl,
                    columns as int,
                    mode,
                    offset as int,
                    i,
                    #[trigger] out@[i]@,
                ),
        decreases rows - row,
    {
        let mut k: usize = 0;
        while k < n
            invariant
                row < rows,
                k <= n,
                n == lines@.len(),
                tl == texts(lines@),
                width == longest(tl),
                rows as int * n <= usize::MAX,
                out@.len() == row as int * n + k,
                forall|i: int|
                    0 <= i < out@.len() ==> is_grid_line(
                        tl,
                        columns as int,
                        mode,
                        offset as int,
                        i,
                        #[trigger] out@[i]@,
                    ),
            decreases n - k,
        {
            let i = out.len();
            proof {
                lemma_fundamental_div_mod_converse(i as int, n as int, row as int, k as int);
                assert(row as int * n + k < rows as int * n) by (nonlinear_arith)
                    requires
                        row < rows,
                        k < n,
                ;
            }
            let counter: u64 = i as u64 + 1;
            let mut cells: Vec<Cell> = Vec::new();
            let mut column: u8 = 0;
            while column < columns
                invariant
                    column <= columns,
                    k < n,
                    n == lines@.len(),
                    tl == texts(lines@),
                    width == longest(tl),
                    i as int % n as int == k,
                    i as int / n as int == row,
                    counter == i + 1,
                    cells@.len() == column,
                    forall|j: int|
                        0 <= j < column ==> {
                            &&& (#[trigger] cells@[j]).text@ == cell_text(
                                tl[i as int % n as int],
                                longest(tl),
                                j,
                                columns as int,
                            )
                            &&& cells@[j].color == palette_color(
                                color_index(mode, offset as int, i as int / n as int, j, i + 1),
                            )
                        },
                decreases columns - column,
            {
                let index = cell_color_index(mode, offset, row, column, counter);
                let color = rainbow_color(index);
                let text = if column == columns - 1 {
                    lines[k].clone()
                } else {
                    pad_line(&lines[k], width)
                };
                assert(tl[k as int] == lines@[k as int]@);
                cells.push(Cell { text, color });
                column = column + 1;
            }
            out.push(cells);
            k = k + 1;
        }
        assert((row as int + 1) * n == row as int * n + n) by (nonlinear_arith);
        row = row + 1;
    }
    out
}

/// The grid of `text`, split into lines, as `render` lays it out.
pub fn tile(text: &str, rows: u8, columns: u8, mode: ColorMode, offset: u8) -> (out: Vec<Vec<Cell>>)
    requires
        rows as int * text@.len() <= usize::MAX,
    ensures
        out@.len() == rows as int * lines_of(text@).len(),
        forall|i: int|
            0 <= i < out@.len() ==> is_grid_line(
                lines_of(text@),
                columns as int,
                mode,
                offset as int,
                i,
                #[trigger] out@[i]@,
            ),
{
    let lines = split_lines(text);
    proof {
        lemma_line_count(text@, seq![]);
        assert(rows as int * lines@.len() <= rows as int * text@.len()) by (nonlinear_arith)
            requires
                lines@.len() <= text@.len(),
        ;
    }
    render(&lines, rows, columns, mode, offset)
}

/// Where each line's display width is its character count, every cell but the
/// last of a grid line is exactly as wide as the longest line, whatever the
/// length of the line it shows.
pub proof fn cells_align_to_longest(lines: Seq<Seq<char>>, k: int, column: int, columns: int)
    requires
        0 <= k < lines.len(),
        0 <= column < columns - 1,
        forall|m: int| 0 <= m < lines.len() ==> display_width(#[trigger] lines[m]) == lines[m].len(),
    ensures
        cell_text(lines[k], longest(lines), column, columns).len() == longest(lines),
{
    lemma_longest_is_max(lines, k);
}

} // verus!
