//! The six-color palette and the rules that give each cell its color.

use vstd::prelude::*;

verus! {

/// A color of the palette.
#[derive(Clone, Copy, Debug, PartialEq, Eq, Structural)]
pub enum Color {
    Red,
    Green,
    Yellow,
    Blue,
    Magenta,
    Cyan,
}

/// How the color of a cell follows from its place in the grid.
#[derive(Clone, Copy, Debug, PartialEq, Eq, Structural)]
pub enum ColorMode {
    /// Shifts by one with each column and each row.
    Solid,
    /// Shifts by one with each printed line.
    Rainbow,
    /// One color for the whole grid.
    Uniform,
}

/// The palette entry of a color index; an index past the palette falls back to red.
pub open spec fn palette_color(n: int) -> Color {
    if n == 0 {
        Color::Red
    } else if n == 1 {
        Color::Green
    } else if n == 2 {
        Color::Yellow
    } else if n == 3 {
        Color::Blue
    } else if n == 4 {
        Color::Magenta
    } else if n == 5 {
        Color::Cyan
    } else {
        Color::Red
    }
}

/// What the mode adds to the offset for the cell in `row` and `column`, on the
/// `counter`-th printed line (counted from 1).
pub open spec fn mode_shift(mode: ColorMode, row: int, column: int, counter: int) -> int {
    match mode {
        ColorMode::Solid => column + row,
        ColorMode::Uniform => 0,
        ColorMode::Rainbow => counter,
    }
}

/// The palette index of a cell.
pub open spec fn color_index(mode: ColorMode, offset: int, row: int, column: int, counter: int) -> int {
    (offset + mode_shift(mode, row, column, counter)) % 6
}

/// The color of palette index `n` taken modulo the palette's size.
pub fn rainbow_color(n: u64) -> (r: Color)
    ensures
        r == palette_color(n as int % 6),
{
    match n % 6 {
        0 => Color::Red,
        1 => Color::Green,
        2 => Color::Yellow,
        3 => Color::Blue,
        4 => Color::Magenta,
        5 => Color::Cyan,
        _ => Color::Red,
    }
}

/// The palette index of the cell in `row` and `column` on the `counter`-th
/// printed line, for a grid that starts at `offset`.
pub fn cell_color_index(mode: ColorMode, offset: u8, row: u8, column: u8, counter: u64) -> (r: u64)
    ensures
        r as int == color_index(mode, offset as int, row as int, column as int, counter as int),
{
    let shift: u64 = match mode {
        ColorMode::Solid => column as u64 + row as u64,
        ColorMode::Uniform => 0,
        ColorMode::Rainbow => counter % 6,
    };
    let r = (offset as u64 + shift) % 6;
    proof {
        if mode == ColorMode::Rainbow {
            lemma_add_mod_right(offset as int, counter as int);
        }
    }
    r
}

proof fn lemma_add_mod_right(a: int, b: int)
    requires
        a >= 0,
        b >= 0,
    ensures
        (a + b % 6) % 6 == (a + b) % 6,
{
    assert((a + b % 6) % 6 == (a + b) % 6) by (nonlinear_arith)
        requires
            a >= 0,
            b >= 0,
    ;
}

/// In uniform mode every cell of the grid has the index of the offset.
pub proof fn uniform_is_one_color(offset: int, row: int, column: int, counter: int)
    ensures
        color_index(ColorMode::Uniform, offset, row, column, counter) == offset % 6,
{
}

/// In solid mode a cell's index is the offset plus its column and row, whatever
/// line of the text it shows.
pub proof fn solid_follows_the_cell(offset: int, row: int, column: int, counter: int, other: int)
    ensures
        color_index(ColorMode::Solid, offset, row, column, counter) == (offset + column + row) % 6,
        color_index(ColorMode::Solid, offset, row, column, counter)
            == color_index(ColorMode::Solid, offset, row, column, other),
{
}

/// In rainbow mode the index goes up by one, modulo the palette, from each printed
/// line to the next, whatever the rows and columns.
pub proof fn rainbow_steps_with_lines(
    offset: int,
    row: int,
    column: int,
    other_row: int,
    other_column: int,
    counter: int,
)
    requires
        offset >= 0,
        counter >= 0,
    ensures
        color_index(ColorMode::Rainbow, offset, other_row, other_column, counter + 1)
            == (color_index(ColorMode::Rainbow, offset, row, column, counter) + 1) % 6,
{
    assert(((offset + counter) % 6 + 1) % 6 == (offset + counter + 1) % 6) by (nonlinear_arith)
        requires
            offset >= 0,
            counter >= 0,
    ;
}

} // verus!
