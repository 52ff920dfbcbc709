use vstd::prelude::*;

use crate::color::Color;

verus! {

/// One cell of the visible grid: a glyph together with the style that was
/// current when it was written.
#[derive(Clone, Copy, Debug, PartialEq, Eq, Structural)]
pub struct Cell {
    pub glyph: char,
    pub fg: Color,
    pub bg: Color,
    pub bold: bool,
    pub italic: bool,
}

/// The blank cell: a space in the default style.  A fresh grid, a cleared
/// grid and the row that scrolling uncovers hold nothing else.
pub open spec fn blank_cell() -> Cell {
    Cell {
        glyph: ' ',
        fg: Color::DefaultFg,
        bg: Color::DefaultBg,
        bold: false,
        italic: false,
    }
}

impl Cell {
    /// The blank cell, as executable code.
    pub fn blank() -> (c: Cell)
        ensures
            c == blank_cell(),
    {
        Cell {
            glyph: ' ',
            fg: Color::DefaultFg,
            bg: Color::DefaultBg,
            bold: false,
            italic: false,
        }
    }
}

/// A snapshot of the grid handed to the display layer: the geometry and one
/// cell per position, row-major.
#[derive(Clone, Debug)]
pub struct RenderGrid {
    pub cols: usize,
    pub rows: usize,
    pub cells: Vec<Cell>,
}

} // verus!
