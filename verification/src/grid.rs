use vstd::prelude::*;

use crate::cell::{blank_cell, Cell, RenderGrid};
use crate::color::Color;

verus! {

/// Mathematical model of a terminal grid: geometry, row-major cell contents,
/// cursor position and the style that the next write will use.
#[verifier::ext_equal]
pub struct GridModel {
    pub cols: nat,
    pub rows: nat,
    pub cells: Seq<Cell>,
    pub cur_col: nat,
    pub cur_row: nat,
    pub fg: Color,
    pub bg: Color,
    pub bold: bool,
    pub italic: bool,
}

/// The contents after scrolling up one line: every row takes the contents of
/// the row below it, and the bottom row becomes blank.
pub open spec fn scrolled_cells(cells: Seq<Cell>, cols: nat, rows: nat) -> Seq<Cell> {
    Seq::new(
        cols * rows,
        |i: int|
            if i + cols < cols * rows {
                cells[i + cols]
            } else {
                blank_cell()
            },
    )
}

impl GridModel {
    /// Well-formed grid: at least one column and one row, exactly one cell
    /// per position, the cursor inside the geometry, and a cell count that a
    /// `usize` index can address.
    pub open spec fn wf(self) -> bool {
        &&& 1 <= self.cols
        &&& 1 <= self.rows
        &&& self.cols * self.rows <= usize::MAX
        &&& self.cells.len() == self.cols * self.rows
        &&& self.cur_col < self.cols
        &&& self.cur_row < self.rows
    }

    /// An entirely blank grid of the given geometry, cursor at the origin,
    /// default style.
    pub open spec fn fresh(cols: nat, rows: nat) -> GridModel {
        GridModel {
            cols,
            rows,
            cells: Seq::new(cols * rows, |i: int| blank_cell()),
            cur_col: 0,
            cur_row: 0,
            fg: Color::DefaultFg,
            bg: Color::DefaultBg,
            bold: false,
            italic: false,
        }
    }

    /// The cell that writing `c` right now produces: the glyph in the
    /// current style.
    pub open spec fn styled(self, c: char) -> Cell {
        Cell { glyph: c, fg: self.fg, bg: self.bg, bold: self.bold, italic: self.italic }
    }

    /// Defensive row-major index: both coordinates wrap around the geometry,
    /// so the result is always in bounds.
    pub open spec fn wrap_index(self, col: nat, row: nat) -> nat {
        (row % self.rows) * self.cols + (col % self.cols)
    }

    /// Writing one printable character: the glyph lands at the cursor in the
    /// current style, then the cursor advances, wrapping to the next row at
    /// the right edge and scrolling when it runs off the bottom.
    pub open spec fn put_char(self, c: char) -> GridModel {
        let written = self.cells.update(
            (self.cur_row * self.cols + self.cur_col) as int,
            self.styled(c),
        );
        if self.cur_col + 1 < self.cols {
            GridModel { cells: written, cur_col: self.cur_col + 1, ..self }
        } else if self.cur_row + 1 < self.rows {
            GridModel { cells: written, cur_col: 0, cur_row: self.cur_row + 1, ..self }
        } else {
            GridModel {
                cells: scrolled_cells(written, self.cols, self.rows),
                cur_col: 0,
                cur_row: (self.rows - 1) as nat,
                ..self
            }
        }
    }

    /// Carriage return: the cursor returns to column zero.
    pub open spec fn carriage_returned(self) -> GridModel {
        GridModel { cur_col: 0, ..self }
    }

    /// Line feed: the cursor moves down one row, scrolling at the bottom.
    pub open spec fn line_fed(self) -> GridModel {
        if self.cur_row + 1 < self.rows {
            GridModel { cur_row: self.cur_row + 1, ..self }
        } else {
            GridModel {
                cells: scrolled_cells(self.cells, self.cols, self.rows),
                cur_row: (self.rows - 1) as nat,
                ..self
            }
        }
    }

    /// Backspace: at column zero nothing happens; otherwise the cursor
    /// retreats one column and that cell is blanked with the current colors
    /// (weight and slant are cleared).
    pub open spec fn backspaced(self) -> GridModel {
        if self.cur_col > 0 {
            let col = (self.cur_col - 1) as nat;
            GridModel {
                cur_col: col,
                cells: self.cells.update(
                    (self.cur_row * self.cols + col) as int,
                    Cell { glyph: ' ', fg: self.fg, bg: self.bg, bold: false, italic: false },
                ),
                ..self
            }
        } else {
            self
        }
    }

    /// Clearing the screen: every cell becomes blank and the cursor returns
    /// to the origin.  The current style persists.
    pub open spec fn cleared(self) -> GridModel {
        GridModel {
            cells: Seq::new(self.cols * self.rows, |i: int| blank_cell()),
            cur_col: 0,
            cur_row: 0,
            ..self
        }
    }

    /// Absolute cursor move, clamped to the geometry.
    pub open spec fn moved(self, col: nat, row: nat) -> GridModel {
        GridModel {
            cur_col: if col < self.cols {
                col
            } else {
                (self.cols - 1) as nat
            },
            cur_row: if row < self.rows {
                row
            } else {
                (self.rows - 1) as nat
            },
            ..self
        }
    }
}

/// The visible contents of one terminal, the authoritative state that the
/// escape interpreter mutates and the display layer snapshots.
pub struct TerminalGrid {
    pub cols: usize,
    pub rows: usize,
    pub cells: Vec<Cell>,
    pub cursor_col: usize,
    pub cursor_row: usize,
    pub current_fg: Color,
    pub current_bg: Color,
    pub current_bold: bool,
    pub current_italic: bool,
}

impl View for TerminalGrid {
    type V = GridModel;

    open spec fn view(&self) -> GridModel {
        GridModel {
            cols: self.cols as nat,
            rows: self.rows as nat,
            cells: self.cells@,
            cur_col: self.cursor_col as nat,
            cur_row: self.cursor_row as nat,
            fg: self.current_fg,
            bg: self.current_bg,
            bold: self.current_bold,
            italic: self.current_italic,
        }
    }
}

impl TerminalGrid {
    /// A blank grid of the given geometry.
    pub fn new(cols: usize, rows: usize) -> (g: TerminalGrid)
        requires
            1 <= cols,
            1 <= rows,
            cols * rows <= usize::MAX,
        ensures
            g@ == GridModel::fresh(cols as nat, rows as nat),
            g@.wf(),
    {
        let cell_count: usize = cols * rows;
        let g = TerminalGrid {
            cols,
            rows,
            cells: vec![Cell::blank(); cell_count],
            cursor_col: 0,
            cursor_row: 0,
            current_fg: Color::DefaultFg,
            current_bg: Color::DefaultBg,
            current_bold: false,
            current_italic: false,
        };
        proof {
            assert(g@ =~= GridModel::fresh(cols as nat, rows as nat));
        }
        g
    }

    /// Row-major index of a position, wrapping both coordinates so that the
    /// result is in bounds whatever the arguments.
    pub fn get_index(&self, col: usize, row: usize) -> (idx: usize)
        requires
            self@.wf(),
        ensures
            idx == self@.wrap_index(col as nat, row as nat),
            idx < self@.cells.len(),
    {
        let r: usize = row % self.rows;
        let c: usize = col % self.cols;
        proof {
            assert(r * self.cols + c < self.cols * self.rows) by (nonlinear_arith)
                requires
                    r < self.rows,
                    c < self.cols,
                    1 <= self.cols,
            ;
        }
        r * self.cols + c
    }

    /// Write one printable character at the cursor and advance it, wrapping
    /// at the right edge and scrolling at the bottom.
    pub fn put_char(&mut self, c: char)
        requires
            old(self)@.wf(),
        ensures
            final(self)@ == old(self)@.put_char(c),
            final(self)@.wf(),
    {
        let idx = self.get_index(self.cursor_col, self.cursor_row);
        proof {
            assert(self@.wrap_index(self.cursor_col as nat, self.cursor_row as nat)
                == self.cursor_row * self.cols + self.cursor_col) by {
                lemma_mod_self_lt(self.cursor_col as nat, self.cols as nat);
                lemma_mod_self_lt(self.cursor_row as nat, self.rows as nat);
            }
        }
        self.cells[idx] = Cell {
            glyph: c,
            fg: self.current_fg,
            bg: self.current_bg,
            bold: self.current_bold,
            italic: self.current_italic,
        };

        if self.cursor_col + 1 < self.cols {
            self.cursor_col = self.cursor_col + 1;
        } else if self.cursor_row + 1 < self.rows {
            self.cursor_col = 0;
            self.cursor_row = self.cursor_row + 1;
        } else {
            self.cursor_col = 0;
            self.scroll_up();
        }
        proof {
            assert(self@ =~= old(self)@.put_char(c));
        }
    }

    /// Scroll the contents up one line: each row takes the row below it and
    /// the bottom row becomes blank.  Cursor and style stay where they are.
    pub fn scroll_up(&mut self)
        requires
            old(self)@.wf(),
        ensures
            final(self)@ == (GridModel {
                cells: scrolled_cells(old(self)@.cells, old(self)@.cols, old(self)@.rows),
                ..old(self)@
            }),
            final(self)@.wf(),
    {
        proof {
            assert((self.rows - 1) * self.cols + self.cols == self.rows * self.cols)
                by (nonlinear_arith)
                requires
                    1 <= self.rows,
            ;
        }
        let keep: usize = (self.rows - 1) * self.cols;
        let mut i: usize = 0;
        while i < keep
            invariant
                self@.wf(),
                i <= keep,
                keep + self.cols == self.cols * self.rows,
                self.cols == old(self).cols,
                self.rows == old(self).rows,
                self.cursor_col == old(self).cursor_col,
                self.cursor_row == old(self).cursor_row,
                self.current_fg == old(self).current_fg,
                self.current_bg == old(self).current_bg,
                self.current_bold == old(self).current_bold,
                self.current_italic == old(self).current_italic,
                self.cells@.len() == old(self).cells@.len(),
                forall|j: int| 0 <= j < i ==> self.cells@[j] == old(self).cells@[j + self.cols],
                forall|j: int|
                    i <= j < self.cells@.len() ==> self.cells@[j] == old(self).cells@[j],
            decreases keep - i,
        {
            let moved = self.cells[i + self.cols];
            self.cells[i] = moved;
            i = i + 1;
        }
        while i < keep + self.cols
            invariant
                self@.wf(),
                keep <= i <= keep + self.cols,
                keep + self.cols == self.cols * self.rows,
                self.cols == old(self).cols,
                self.rows == old(self).rows,
                self.cursor_col == old(self).cursor_col,
                self.cursor_row == old(self).cursor_row,
                self.current_fg == old(self).current_fg,
                self.current_bg == old(self).current_bg,
                self.current_bold == old(self).current_bold,
                self.current_italic == old(self).current_italic,
                self.cells@.len() == old(self).cells@.len(),
                forall|j: int| 0 <= j < keep ==> self.cells@[j] == old(self).cells@[j + self.cols],
                forall|j: int| keep <= j < i ==> self.cells@[j] == blank_cell(),
            decreases keep + self.cols - i,
        {
            self.cells[i] = Cell::blank();
            i = i + 1;
        }
        proof {
            assert(self@ =~= GridModel {
                cells: scrolled_cells(old(self)@.cells, old(self)@.cols, old(self)@.rows),
                ..old(self)@
            });
        }
    }

    /// Carriage return: back to column zero.
    pub fn carriage_return(&mut self)
        requires
            old(self)@.wf(),
        ensures
            final(self)@ == old(self)@.carriage_returned(),
            final(self)@.wf(),
    {
        self.cursor_col = 0;
        proof {
            assert(self@ =~= old(self)@.carriage_returned());
        }
    }

    /// Line feed: one row down, scrolling at the bottom.
    pub fn line_feed(&mut self)
        requires
            old(self)@.wf(),
        ensures
            final(self)@ == old(self)@.line_fed(),
            final(self)@.wf(),
    {
        if self.cursor_row + 1 < self.rows {
            self.cursor_row = self.cursor_row + 1;
        } else {
            self.scroll_up();
        }
        proof {
            assert(self@ =~= old(self)@.line_fed());
        }
    }

    /// Backspace: retreat one column and blank that cell; nothing happens at
    /// column zero.
    pub fn backspace(&mut self)
        requires
            old(self)@.wf(),
        ensures
            final(self)@ == old(self)@.backspaced(),
            final(self)@.wf(),
    {
        if self.cursor_col > 0 {
            self.cursor_col = self.cursor_col - 1;
            let idx = self.get_index(self.cursor_col, self.cursor_row);
            proof {
                assert(self@.wrap_index(self.cursor_col as nat, self.cursor_row as nat)
                    == self.cursor_row * self.cols + self.cursor_col) by {
                    lemma_mod_self_lt(self.cursor_col as nat, self.cols as nat);
                    lemma_mod_self_lt(self.cursor_row as nat, self.rows as nat);
                }
            }
            self.cells[idx] = Cell {
                glyph: ' ',
                fg: self.current_fg,
                bg: self.current_bg,
                bold: false,
                italic: false,
            };
        }
        proof {
            assert(self@ =~= old(self)@.backspaced());
        }
    }

    /// Clear the whole screen and home the cursor; the current style stays.
    pub fn clear_screen(&mut self)
        requires
            old(self)@.wf(),
        ensures
            final(self)@ == old(self)@.cleared(),
            final(self)@.wf(),
    {
        let cell_count: usize = self.cols * self.rows;
        self.cells = vec![Cell::blank(); cell_count];
        self.cursor_col = 0;
        self.cursor_row = 0;
        proof {
            assert(self@ =~= old(self)@.cleared());
        }
    }

    /// Absolute cursor move, clamped to the geometry.
    pub fn move_cursor(&mut self, col: usize, row: usize)
        requires
            old(self)@.wf(),
        ensures
            final(self)@ == old(self)@.moved(col as nat, row as nat),
            final(self)@.wf(),
    {
        self.cursor_col = if col < self.cols {
            col
        } else {
            self.cols - 1
        };
        self.cursor_row = if row < self.rows {
            row
        } else {
            self.rows - 1
        };
        proof {
            assert(self@ =~= old(self)@.moved(col as nat, row as nat));
        }
    }

    /// Set the foreground of the current style.
    pub fn set_fg(&mut self, color: Color)
        requires
            old(self)@.wf(),
        ensures
            final(self)@ == (GridModel { fg: color, ..old(self)@ }),
            final(self)@.wf(),
    {
        self.current_fg = color;
        proof {
            assert(self@ =~= GridModel { fg: color, ..old(self)@ });
        }
    }

    /// Set the background of the current style.
    pub fn set_bg(&mut self, color: Color)
        requires
            old(self)@.wf(),
        ensures
            final(self)@ == (GridModel { bg: color, ..old(self)@ }),
            final(self)@.wf(),
    {
        self.current_bg = color;
        proof {
            assert(self@ =~= GridModel { bg: color, ..old(self)@ });
        }
    }

    /// Set or clear the bold attribute of the current style.
    pub fn set_bold(&mut self, bold: bool)
        requires
            old(self)@.wf(),
        ensures
            final(self)@ == (GridModel { bold, ..old(self)@ }),
            final(self)@.wf(),
    {
        self.current_bold = bold;
        proof {
            assert(self@ =~= GridModel { bold, ..old(self)@ });
        }
    }

    /// Set or clear the italic attribute of the current style.
    pub fn set_italic(&mut self, italic: bool)
        requires
            old(self)@.wf(),
        ensures
            final(self)@ == (GridModel { italic, ..old(self)@ }),
            final(self)@.wf(),
    {
        self.current_italic = italic;
        proof {
            assert(self@ =~= GridModel { italic, ..old(self)@ });
        }
    }

    /// Reset the current style to the defaults.
    pub fn reset_style(&mut self)
        requires
            old(self)@.wf(),
        ensures
            final(self)@ == (GridModel {
                fg: Color::DefaultFg,
                bg: Color::DefaultBg,
                bold: false,
                italic: false,
                ..old(self)@
            }),
            final(self)@.wf(),
    {
        self.current_fg = Color::DefaultFg;
        self.current_bg = Color::DefaultBg;
        self.current_bold = false;
        self.current_italic = false;
        proof {
            assert(self@ =~= GridModel {
                fg: Color::DefaultFg,
                bg: Color::DefaultBg,
                bold: false,
                italic: false,
                ..old(self)@
            });
        }
    }

    /// Snapshot the visible contents for the display layer.
    pub fn to_render_grid(&self) -> (r: RenderGrid)
        requires
            self@.wf(),
        ensures
            r.cols == self@.cols,
            r.rows == self@.rows,
            r.cells@ == self@.cells,
    {
        let r = RenderGrid { cols: self.cols, rows: self.rows, cells: self.cells.clone() };
        proof {
            assert(r.cells@ =~= self@.cells);
        }
        r
    }
}

/// A position inside the geometry has a row-major index inside the cell
/// sequence.
pub proof fn lemma_index_in_bounds(col: nat, row: nat, cols: nat, rows: nat)
    requires
        col < cols,
        row < rows,
    ensures
        row * cols + col < cols * rows,
{
    assert(row * cols + col < cols * rows) by (nonlinear_arith)
        requires
            col < cols,
            row < rows,
    ;
}

/// Writing a character leaves the grid well-formed.
pub proof fn lemma_put_char_wf(g: GridModel, c: char)
    requires
        g.wf(),
    ensures
        g.put_char(c).wf(),
{
    lemma_index_in_bounds(g.cur_col, g.cur_row, g.cols, g.rows);
}

/// Backspacing leaves the grid well-formed.
pub proof fn lemma_backspaced_wf(g: GridModel)
    requires
        g.wf(),
    ensures
        g.backspaced().wf(),
{
    if g.cur_col > 0 {
        lemma_index_in_bounds((g.cur_col - 1) as nat, g.cur_row, g.cols, g.rows);
    }
}

/// A value below the modulus is its own remainder.
proof fn lemma_mod_self_lt(a: nat, m: nat)
    requires
        a < m,
    ensures
        a % m == a,
{
    vstd::arithmetic::div_mod::lemma_small_mod(a, m);
}

} // verus!
