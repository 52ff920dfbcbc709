use vstd::prelude::*;

use crate::color::{sgr_bg_color, sgr_fg_color, Color};
use crate::grid::{GridModel, TerminalGrid};

verus! {

/// Effect of a C0 control byte on the grid: carriage return, line feed and
/// backspace act; every other control byte is ignored.
pub open spec fn ctl_apply(g: GridModel, byte: u8) -> GridModel {
    if byte == 0x0du8 {
        g.carriage_returned()
    } else if byte == 0x0au8 {
        g.line_fed()
    } else if byte == 0x08u8 {
        g.backspaced()
    } else {
        g
    }
}

/// Effect of a single SGR parameter on the current style: code 0 resets the
/// whole style, 1/22 switch bold, 3/23 switch italic, and the color codes
/// pick a palette entry.  Unknown codes are ignored.
pub open spec fn sgr_apply(g: GridModel, code: u16) -> GridModel {
    if code == 0u16 {
        GridModel { fg: Color::DefaultFg, bg: Color::DefaultBg, bold: false, italic: false, ..g }
    } else if code == 1u16 {
        GridModel { bold: true, ..g }
    } else if code == 3u16 {
        GridModel { italic: true, ..g }
    } else if code == 22u16 {
        GridModel { bold: false, ..g }
    } else if code == 23u16 {
        GridModel { italic: false, ..g }
    } else {
        match sgr_fg_color(code) {
            Some(c) => GridModel { fg: c, ..g },
            None => match sgr_bg_color(code) {
                Some(c) => GridModel { bg: c, ..g },
                None => g,
            },
        }
    }
}

/// A whole SGR parameter list applied left to right.
pub open spec fn sgr_run(g: GridModel, ps: Seq<u16>) -> GridModel
    decreases ps.len(),
{
    if ps.len() == 0 {
        g
    } else {
        sgr_run(sgr_apply(g, ps[0]), ps.drop_first())
    }
}

/// Appending one parameter to an SGR list applies it last.
pub proof fn lemma_sgr_run_push(g: GridModel, ps: Seq<u16>, code: u16)
    ensures
        sgr_run(g, ps.push(code)) == sgr_apply(sgr_run(g, ps), code),
    decreases ps.len(),
{
    assert(ps.push(code).len() == ps.len() + 1);
    if ps.len() == 0 {
        assert(ps.push(code)[0] == code);
        assert(ps.push(code).drop_first() =~= Seq::<u16>::empty());
        assert(sgr_run(sgr_apply(g, code), Seq::<u16>::empty()) == sgr_apply(g, code));
    } else {
        assert(ps.push(code)[0] == ps[0]);
        assert(ps.push(code).drop_first() =~= ps.drop_first().push(code));
        lemma_sgr_run_push(sgr_apply(g, ps[0]), ps.drop_first(), code);
    }
}

/// SGR parameters change only the style: geometry, contents and cursor stay.
pub proof fn lemma_sgr_run_geometry(g: GridModel, ps: Seq<u16>)
    ensures
        sgr_run(g, ps).cols == g.cols,
        sgr_run(g, ps).rows == g.rows,
        sgr_run(g, ps).cells == g.cells,
        sgr_run(g, ps).cur_col == g.cur_col,
        sgr_run(g, ps).cur_row == g.cur_row,
    decreases ps.len(),
{
    if ps.len() > 0 {
        lemma_sgr_run_geometry(sgr_apply(g, ps[0]), ps.drop_first());
    }
}

/// Every CSI sequence leaves the grid well-formed.
pub proof fn lemma_csi_apply_wf(g: GridModel, ps: Seq<u16>, action: char)
    requires
        g.wf(),
    ensures
        csi_apply(g, ps, action).wf(),
{
    lemma_sgr_run_geometry(g, ps);
}

/// Every control byte leaves the grid well-formed.
pub proof fn lemma_ctl_apply_wf(g: GridModel, b: u8)
    requires
        g.wf(),
    ensures
        ctl_apply(g, b).wf(),
{
    crate::grid::lemma_backspaced_wf(g);
}

/// The `i`-th CSI parameter, or the given default where the list is shorter.
pub open spec fn csi_param(ps: Seq<u16>, i: int, default: u16) -> u16 {
    if ps.len() <= i {
        default
    } else {
        ps[i]
    }
}

/// A 1-based cursor-position parameter: missing or zero means 1.
pub open spec fn csi_pos_param(ps: Seq<u16>, i: int) -> u16 {
    let p = csi_param(ps, i, 1u16);
    if p == 0u16 {
        1u16
    } else {
        p
    }
}

/// Effect of a complete CSI sequence on the grid, by its final character:
/// `J` clears (modes 2 and 3 only), `H` moves the cursor absolutely,
/// `A`/`B`/`C`/`D` move it relatively, `m` changes the style, and every
/// other final character is ignored.
pub open spec fn csi_apply(g: GridModel, ps: Seq<u16>, action: char) -> GridModel {
    if action == 'J' {
        if csi_param(ps, 0, 0u16) == 2u16 || csi_param(ps, 0, 0u16) == 3u16 {
            g.cleared()
        } else {
            g
        }
    } else if action == 'H' {
        g.moved((csi_pos_param(ps, 1) - 1) as nat, (csi_pos_param(ps, 0) - 1) as nat)
    } else if action == 'A' {
        let n = csi_param(ps, 0, 1u16) as nat;
        g.moved(
            g.cur_col,
            if g.cur_row < n {
                0
            } else {
                (g.cur_row - n) as nat
            },
        )
    } else if action == 'B' {
        g.moved(g.cur_col, g.cur_row + csi_param(ps, 0, 1u16) as nat)
    } else if action == 'C' {
        g.moved(g.cur_col + csi_param(ps, 0, 1u16) as nat, g.cur_row)
    } else if action == 'D' {
        let n = csi_param(ps, 0, 1u16) as nat;
        g.moved(
            if g.cur_col < n {
                0
            } else {
                (g.cur_col - n) as nat
            },
            g.cur_row,
        )
    } else if action == 'm' {
        if ps.len() == 0 {
            sgr_apply(g, 0u16)
        } else {
            sgr_run(g, ps)
        }
    } else {
        g
    }
}

/// The action layer of the escape interpreter: it owns the grid and carries
/// out the operations that decoded input calls for.
pub struct TerminalPerformer {
    pub grid: TerminalGrid,
}

impl TerminalPerformer {
    /// A performer over a blank grid of the given geometry.
    pub fn new(cols: usize, rows: usize) -> (p: TerminalPerformer)
        requires
            1 <= cols,
            1 <= rows,
            cols * rows <= usize::MAX,
        ensures
            p.grid@ == GridModel::fresh(cols as nat, rows as nat),
            p.grid@.wf(),
    {
        TerminalPerformer { grid: TerminalGrid::new(cols, rows) }
    }

    /// A decoded printable character: write it at the cursor.
    pub fn print(&mut self, c: char)
        requires
            old(self).grid@.wf(),
        ensures
            final(self).grid@ == old(self).grid@.put_char(c),
            final(self).grid@.wf(),
    {
        self.grid.put_char(c);
    }

    /// A C0 control byte.
    pub fn execute(&mut self, byte: u8)
        requires
            old(self).grid@.wf(),
        ensures
            final(self).grid@ == ctl_apply(old(self).grid@, byte),
            final(self).grid@.wf(),
    {
        if byte == 0x0du8 {
            self.grid.carriage_return();
        } else if byte == 0x0au8 {
            self.grid.line_feed();
        } else if byte == 0x08u8 {
            self.grid.backspace();
        }
    }

    /// A complete CSI sequence, given its parameter list and final
    /// character.
    pub fn csi_dispatch(&mut self, params: &Vec<u16>, action: char)
        requires
            old(self).grid@.wf(),
        ensures
            final(self).grid@ == csi_apply(old(self).grid@, params@, action),
            final(self).grid@.wf(),
    {
        if action == 'J' {
            let mode: u16 = if params.len() == 0 {
                0
            } else {
                params[0]
            };
            if mode == 2 || mode == 3 {
                self.grid.clear_screen();
            }
        } else if action == 'H' {
            let row: u16 = Self::pos_param(params, 0);
            let col: u16 = Self::pos_param(params, 1);
            self.grid.move_cursor((col - 1) as usize, (row - 1) as usize);
        } else if action == 'A' {
            let n: usize = Self::count_param(params) as usize;
            let new_row: usize = if self.grid.cursor_row < n {
                0
            } else {
                self.grid.cursor_row - n
            };
            let col = self.grid.cursor_col;
            self.grid.move_cursor(col, new_row);
        } else if action == 'B' {
            let n: usize = Self::count_param(params) as usize;
            let new_row: usize = if n < self.grid.rows - self.grid.cursor_row {
                self.grid.cursor_row + n
            } else {
                self.grid.rows - 1
            };
            let col = self.grid.cursor_col;
            self.grid.move_cursor(col, new_row);
            proof {
                assert(self.grid@ =~= old(self).grid@.moved(
                    old(self).grid@.cur_col,
                    old(self).grid@.cur_row + csi_param(params@, 0, 1u16) as nat,
                ));
            }
        } else if action == 'C' {
            let n: usize = Self::count_param(params) as usize;
            let new_col: usize = if n < self.grid.cols - self.grid.cursor_col {
                self.grid.cursor_col + n
            } else {
                self.grid.cols - 1
            };
            let row = self.grid.cursor_row;
            self.grid.move_cursor(new_col, row);
            proof {
                assert(self.grid@ =~= old(self).grid@.moved(
                    old(self).grid@.cur_col + csi_param(params@, 0, 1u16) as nat,
                    old(self).grid@.cur_row,
                ));
            }
        } else if action == 'D' {
            let n: usize = Self::count_param(params) as usize;
            let new_col: usize = if self.grid.cursor_col < n {
                0
            } else {
                self.grid.cursor_col - n
            };
            let row = self.grid.cursor_row;
            self.grid.move_cursor(new_col, row);
        } else if action == 'm' {
            if params.len() == 0 {
                self.grid.reset_style();
            } else {
                let mut i: usize = 0;
                while i < params.len()
                    invariant
                        i <= params@.len(),
                        old(self).grid@.wf(),
                        self.grid@.wf(),
                        self.grid@ == sgr_run(old(self).grid@, params@.take(i as int)),
                    decreases params@.len() - i,
                {
                    self.sgr_step(params[i]);
                    proof {
                        assert(params@.take(i + 1) =~= params@.take(i as int).push(params@[i as int]));
                        lemma_sgr_run_push(old(self).grid@, params@.take(i as int), params@[i as int]);
                    }
                    i = i + 1;
                }
                proof {
                    assert(params@.take(params@.len() as int) =~= params@);
                }
            }
        }
    }

    /// One SGR parameter applied to the grid's current style.
    fn sgr_step(&mut self, code: u16)
        requires
            old(self).grid@.wf(),
        ensures
            final(self).grid@ == sgr_apply(old(self).grid@, code),
            final(self).grid@.wf(),
    {
        if code == 0 {
            self.grid.reset_style();
        } else if code == 1 {
            self.grid.set_bold(true);
        } else if code == 3 {
            self.grid.set_italic(true);
        } else if code == 22 {
            self.grid.set_bold(false);
        } else if code == 23 {
            self.grid.set_italic(false);
        } else if code == 30 {
            self.grid.set_fg(Color::Black);
        } else if code == 31 {
            self.grid.set_fg(Color::Red);
        } else if code == 32 {
            self.grid.set_fg(Color::Green);
        } else if code == 33 {
            self.grid.set_fg(Color::Yellow);
        } else if code == 34 {
            self.grid.set_fg(Color::Blue);
        } else if code == 35 {
            self.grid.set_fg(Color::Magenta);
        } else if code == 36 {
            self.grid.set_fg(Color::Cyan);
        } else if code == 37 {
            self.grid.set_fg(Color::White);
        } else if code == 39 {
            self.grid.set_fg(Color::DefaultFg);
        } else if code == 90 {
            self.grid.set_fg(Color::BrightBlack);
        } else if code == 91 {
            self.grid.set_fg(Color::BrightRed);
        } else if code == 92 {
            self.grid.set_fg(Color::BrightGreen);
        } else if code == 93 {
            self.grid.set_fg(Color::BrightYellow);
        } else if code == 94 {
            self.grid.set_fg(Color::BrightBlue);
        } else if code == 95 {
            self.grid.set_fg(Color::BrightMagenta);
        } else if code == 96 {
            self.grid.set_fg(Color::BrightCyan);
        } else if code == 97 {
            self.grid.set_fg(Color::BrightWhite);
        } else if code == 40 {
            self.grid.set_bg(Color::Black);
        } else if code == 41 {
            self.grid.set_bg(Color::Red);
        } else if code == 42 {
            self.grid.set_bg(Color::Green);
        } else if code == 43 {
            self.grid.set_bg(Color::Yellow);
        } else if code == 44 {
            self.grid.set_bg(Color::Blue);
        } else if code == 45 {
            self.grid.set_bg(Color::Magenta);
        } else if code == 46 {
            self.grid.set_bg(Color::Cyan);
        } else if code == 47 {
            self.grid.set_bg(Color::White);
        } else if code == 49 {
            self.grid.set_bg(Color::DefaultBg);
        } else if code == 100 {
            self.grid.set_bg(Color::BrightBlack);
        } else if code == 101 {
            self.grid.set_bg(Color::BrightRed);
        } else if code == 102 {
            self.grid.set_bg(Color::BrightGreen);
        } else if code == 103 {
            self.grid.set_bg(Color::BrightYellow);
        } else if code == 104 {
            self.grid.set_bg(Color::BrightBlue);
        } else if code == 105 {
            self.grid.set_bg(Color::BrightMagenta);
        } else if code == 106 {
            self.grid.set_bg(Color::BrightCyan);
        } else if code == 107 {
            self.grid.set_bg(Color::BrightWhite);
        }
    }

    /// A 1-based position parameter: missing or zero means 1.
    fn pos_param(params: &Vec<u16>, i: usize) -> (p: u16)
        ensures
            p == csi_pos_param(params@, i as int),
            1 <= p,
    {
        if params.len() <= i {
            1
        } else if params[i] == 0 {
            1
        } else {
            params[i]
        }
    }

    /// The first parameter of a relative cursor move, defaulting to 1.
    fn count_param(params: &Vec<u16>) -> (p: u16)
        ensures
            p == csi_param(params@, 0, 1u16),
    {
        if params.len() == 0 {
            1
        } else {
            params[0]
        }
    }
}

} // verus!
