use vstd::prelude::*;

use crate::cell::{blank_cell, Cell};
use crate::color::Color;
use crate::grid::{lemma_put_char_wf, GridModel};
use crate::parser::{is_printable, lemma_run_push, run, step, InterpModel, ParseState};

verus! {

/// A ground-state interpreter over a blank grid of the given geometry,
/// with the given current style.
pub open spec fn ground_with_style(
    cols: nat,
    rows: nat,
    fg: Color,
    bg: Color,
    bold: bool,
    italic: bool,
) -> InterpModel {
    InterpModel {
        state: ParseState::Ground,
        params: Seq::empty(),
        cur: 0,
        has_param: false,
        grid: GridModel {
            cols,
            rows,
            cells: Seq::new(cols * rows, |i: int| blank_cell()),
            cur_col: 0,
            cur_row: 0,
            fg,
            bg,
            bold,
            italic,
        },
    }
}

/// Resumability: a byte stream cut at any point and fed in two reads ends in
/// the same state as the uncut stream — an escape sequence or multi-byte
/// character split across read boundaries resumes correctly.
pub proof fn lemma_run_concat(m: InterpModel, a: Seq<u8>, b: Seq<u8>)
    ensures
        run(m, a + b) == run(run(m, a), b),
    decreases a.len(),
{
    if a.len() == 0 {
        assert(a + b =~= b);
    } else {
        assert((a + b)[0] == a[0]);
        assert((a + b).drop_first() =~= a.drop_first() + b);
        lemma_run_concat(step(m, a[0]), a.drop_first(), b);
    }
}

/// Unique decomposition of a row-major position into row and column.
proof fn lemma_cursor_decompose(col: nat, row: nat, cols: nat, q: nat, rem: nat)
    requires
        col < cols,
        rem < cols,
        row * cols + col == q * cols + rem,
    ensures
        row == q,
        col == rem,
{
    assert(row == q && col == rem) by (nonlinear_arith)
        requires
            col < cols,
            rem < cols,
            row * cols + col == q * cols + rem,
    ;
}

/// Printable bytes fill consecutive cells from the cursor onward with the
/// current style, touching nothing else and scrolling nothing, as long as
/// they stop short of the grid's last cell.  The recognizer stays in the
/// ground state and the style does not move.
pub proof fn lemma_fill_no_scroll(m: InterpModel, s: Seq<u8>)
    requires
        m.wf(),
        m.state is Ground,
        forall|i: int| 0 <= i < s.len() ==> is_printable(#[trigger] s[i]),
        m.grid.cur_row * m.grid.cols + m.grid.cur_col + s.len() < m.grid.cols * m.grid.rows,
    ensures
        run(m, s).wf(),
        run(m, s).state is Ground,
        run(m, s).params == m.params,
        run(m, s).cur == m.cur,
        run(m, s).has_param == m.has_param,
        run(m, s).grid.cols == m.grid.cols,
        run(m, s).grid.rows == m.grid.rows,
        run(m, s).grid.fg == m.grid.fg,
        run(m, s).grid.bg == m.grid.bg,
        run(m, s).grid.bold == m.grid.bold,
        run(m, s).grid.italic == m.grid.italic,
        run(m, s).grid.cells.len() == m.grid.cells.len(),
        run(m, s).grid.cur_row * run(m, s).grid.cols + run(m, s).grid.cur_col == m.grid.cur_row
            * m.grid.cols + m.grid.cur_col + s.len(),
        forall|i: int|
            0 <= i < s.len() ==> run(m, s).grid.cells[m.grid.cur_row * m.grid.cols
                + m.grid.cur_col + i] == m.grid.styled(#[trigger] s[i] as char),
        forall|j: int|
            0 <= j < m.grid.cells.len() && !(m.grid.cur_row * m.grid.cols + m.grid.cur_col <= j
                < m.grid.cur_row * m.grid.cols + m.grid.cur_col + s.len())
                ==> #[trigger] run(m, s).grid.cells[j] == m.grid.cells[j],
    decreases s.len(),
{
    let g = m.grid;
    let base = g.cur_row * g.cols + g.cur_col;
    if s.len() == 0 {
        assert(run(m, s) == m);
    } else {
        let b = s[0];
        let c = b as char;
        assert(is_printable(b));
        let m1 = step(m, b);
        let g1 = g.put_char(c);
        assert(m1.grid == g1 && m1.state is Ground && m1.params == m.params && m1.cur == m.cur
            && m1.has_param == m.has_param);
        // The put cannot scroll: the cursor is not on the last cell.
        if g.cur_col + 1 == g.cols && g.cur_row + 1 == g.rows {
            assert(base + 1 == g.cols * g.rows) by (nonlinear_arith)
                requires
                    g.cur_col + 1 == g.cols,
                    g.cur_row + 1 == g.rows,
                    base == g.cur_row * g.cols + g.cur_col,
            ;
            assert(false);
        }
        // The new cursor sits one linear position further.
        assert(g1.cur_row * g1.cols + g1.cur_col == base + 1) by {
            if g.cur_col + 1 < g.cols {
            } else {
                assert((g.cur_row + 1) * g.cols == g.cur_row * g.cols + g.cols)
                    by (nonlinear_arith);
            }
        }
        assert(g1.cells == g.cells.update(base as int, g.styled(c)));
        lemma_put_char_wf(g, c);
        let s1 = s.drop_first();
        lemma_fill_no_scroll(m1, s1);
        let r = run(m1, s1);
        assert(run(m, s) == r);
        assert forall|i: int| 0 <= i < s.len() implies r.grid.cells[base + i] == g.styled(
            #[trigger] s[i] as char,
        ) by {
            if i == 0 {
                assert(r.grid.cells[base as int] == g1.cells[base as int]);
                assert(g1.cells[base as int] == g.styled(c));
            } else {
                assert(s1[i - 1] == s[i]);
                assert(r.grid.cells[base + 1 + (i - 1)] == g1.styled(s1[i - 1] as char));
                assert(g1.styled(s[i] as char) == g.styled(s[i] as char));
            }
        }
        assert forall|j: int|
            0 <= j < g.cells.len() && !(base <= j < base + s.len()) implies #[trigger] r.grid.cells[j]
            == g.cells[j] by {
            assert(r.grid.cells[j] == g1.cells[j]);
            assert(g1.cells[j] == g.cells[j]);
        }
    }
}

/// A printable sequence shorter than the width, fed to a blank terminal in
/// ground state, lands in row zero: the cursor column equals the sequence
/// length, the first cells of row zero hold exactly those glyphs in the
/// style that was current while they were written, and every other cell is
/// still blank.
pub proof fn lemma_printable_row(
    cols: nat,
    rows: nat,
    fg: Color,
    bg: Color,
    bold: bool,
    italic: bool,
    s: Seq<u8>,
)
    requires
        1 <= cols,
        1 <= rows,
        cols * rows <= usize::MAX,
        s.len() < cols,
        forall|i: int| 0 <= i < s.len() ==> is_printable(#[trigger] s[i]),
    ensures
        ({
            let r = run(ground_with_style(cols, rows, fg, bg, bold, italic), s);
            &&& r.grid.cur_col == s.len()
            &&& r.grid.cur_row == 0
            &&& forall|i: int|
                0 <= i < s.len() ==> r.grid.cells[i] == (Cell {
                    glyph: #[trigger] s[i] as char,
                    fg,
                    bg,
                    bold,
                    italic,
                })
            &&& forall|j: int|
                s.len() <= j < cols * rows ==> #[trigger] r.grid.cells[j] == blank_cell()
        }),
{
    let m = ground_with_style(cols, rows, fg, bg, bold, italic);
    assert(m.grid.cur_row == 0 && m.grid.cur_col == 0);
    assert(m.grid.cur_row * m.grid.cols + m.grid.cur_col + s.len() < m.grid.cols * m.grid.rows)
        by (nonlinear_arith)
        requires
            m.grid.cur_row == 0,
            m.grid.cur_col == 0,
            s.len() < m.grid.cols,
            1 <= m.grid.rows,
    ;
    lemma_fill_no_scroll(m, s);
    let r = run(m, s);
    lemma_cursor_decompose(r.grid.cur_col, r.grid.cur_row, cols, 0, s.len());
}

/// Feeding one printable character more than the width wraps exactly once:
/// the cursor lands on `(1, 1)` (zero-based column and row), row zero is
/// full, the first cell of row one holds the overflow character, and the
/// rest of the grid is still blank.
pub proof fn lemma_wrap_once(
    cols: nat,
    rows: nat,
    fg: Color,
    bg: Color,
    bold: bool,
    italic: bool,
    s: Seq<u8>,
)
    requires
        2 <= cols,
        2 <= rows,
        cols * rows <= usize::MAX,
        s.len() == cols + 1,
        forall|i: int| 0 <= i < s.len() ==> is_printable(#[trigger] s[i]),
    ensures
        ({
            let r = run(ground_with_style(cols, rows, fg, bg, bold, italic), s);
            &&& r.grid.cur_col == 1
            &&& r.grid.cur_row == 1
            &&& forall|i: int|
                0 <= i <= cols ==> r.grid.cells[i] == (Cell {
                    glyph: #[trigger] s[i] as char,
                    fg,
                    bg,
                    bold,
                    italic,
                })
            &&& forall|j: int|
                cols + 1 <= j < cols * rows ==> #[trigger] r.grid.cells[j] == blank_cell()
        }),
{
    let m = ground_with_style(cols, rows, fg, bg, bold, italic);
    assert(m.grid.cur_row * m.grid.cols + m.grid.cur_col + s.len() < m.grid.cols * m.grid.rows)
        by (nonlinear_arith)
        requires
            m.grid.cur_row == 0,
            m.grid.cur_col == 0,
            s.len() == m.grid.cols + 1,
            2 <= m.grid.cols,
            2 <= m.grid.rows,
    ;
    lemma_fill_no_scroll(m, s);
    let r = run(m, s);
    assert(r.grid.cur_row * cols + r.grid.cur_col == 1 * cols + 1) by (nonlinear_arith)
        requires
            r.grid.cur_row * cols + r.grid.cur_col == m.grid.cur_row * m.grid.cols
                + m.grid.cur_col + s.len(),
            m.grid.cur_row == 0,
            m.grid.cur_col == 0,
            m.grid.cols == cols,
            s.len() == cols + 1,
    ;
    lemma_cursor_decompose(r.grid.cur_col, r.grid.cur_row, cols, 1, 1);
}

/// Feeding one printable character more than the grid holds scrolls exactly
/// once: the first row's worth of input is discarded, every surviving row
/// moves up, the bottom row holds only the overflow character, and the
/// cursor sits just after it.
pub proof fn lemma_scroll_once(
    cols: nat,
    rows: nat,
    fg: Color,
    bg: Color,
    bold: bool,
    italic: bool,
    s: Seq<u8>,
)
    requires
        2 <= cols,
        1 <= rows,
        cols * rows <= usize::MAX,
        s.len() == cols * rows + 1,
        forall|i: int| 0 <= i < s.len() ==> is_printable(#[trigger] s[i]),
    ensures
        ({
            let r = run(ground_with_style(cols, rows, fg, bg, bold, italic), s);
            &&& r.grid.cur_col == 1
            &&& r.grid.cur_row == rows - 1
            &&& r.grid.cells[(rows - 1) * cols] == (Cell {
                glyph: s[(cols * rows) as int] as char,
                fg,
                bg,
                bold,
                italic,
            })
            &&& forall|j: int|
                1 <= j < cols ==> #[trigger] r.grid.cells[(rows - 1) * cols + j] == blank_cell()
            &&& forall|rr: int, cc: int|
                0 <= rr < rows - 1 && 0 <= cc < cols ==> #[trigger] r.grid.cells[rr * cols + cc]
                    == (Cell { glyph: s[(rr + 1) * cols + cc] as char, fg, bg, bold, italic })
        }),
{
    let m = ground_with_style(cols, rows, fg, bg, bold, italic);
    let g = m.grid;
    let total = cols * rows;
    let s_a = s.take(total - 1);
    assert(2 <= total) by (nonlinear_arith)
        requires
            2 <= cols,
            1 <= rows,
            total == cols * rows,
    ;
    assert(m.grid.cur_row * m.grid.cols + m.grid.cur_col + s_a.len() < m.grid.cols * m.grid.rows)
        by (nonlinear_arith)
        requires
            m.grid.cur_row == 0,
            m.grid.cur_col == 0,
            m.grid.cols == cols,
            m.grid.rows == rows,
            s_a.len() == total - 1,
            2 <= total,
            total == cols * rows,
    ;
    lemma_fill_no_scroll(m, s_a);
    let mid = run(m, s_a);
    assert(mid.grid.cur_row * cols + mid.grid.cur_col == ((rows - 1) as nat) * cols + ((cols
        - 1) as nat)) by (nonlinear_arith)
        requires
            mid.grid.cur_row * cols + mid.grid.cur_col == m.grid.cur_row * m.grid.cols
                + m.grid.cur_col + s_a.len(),
            m.grid.cur_row == 0,
            m.grid.cur_col == 0,
            m.grid.cols == cols,
            s_a.len() == total - 1,
            total == cols * rows,
            1 <= rows,
            1 <= cols,
    ;
    lemma_cursor_decompose(
        mid.grid.cur_col,
        mid.grid.cur_row,
        cols,
        (rows - 1) as nat,
        (cols - 1) as nat,
    );
    assert(mid.grid.cur_col == cols - 1 && mid.grid.cur_row == rows - 1);
    // The next character lands on the last cell and scrolls.
    let b1 = s[total - 1];
    let m2 = step(mid, b1);
    let written = mid.grid.cells.update(total - 1, mid.grid.styled(b1 as char));
    assert(mid.grid.cur_row * mid.grid.cols + mid.grid.cur_col == total - 1);
    assert(m2.grid.cells == crate::grid::scrolled_cells(written, cols, rows));
    assert(m2.grid.cur_col == 0 && m2.grid.cur_row == rows - 1 && m2.state is Ground);
    // The overflow character lands at the start of the (blank) bottom row.
    let b2 = s[total as int];
    let m3 = step(m2, b2);
    assert((rows - 1) * cols + 0 < total) by (nonlinear_arith)
        requires
            1 <= rows,
            1 <= cols,
            total == cols * rows,
    ;
    assert(m3.grid.cells == m2.grid.cells.update((rows - 1) * cols, m2.grid.styled(b2 as char)));
    assert(m3.grid.cur_col == 1 && m3.grid.cur_row == rows - 1);
    // The three phases together are the whole input.
    assert(s.take(total as int) =~= s_a.push(b1));
    lemma_run_push(m, s_a, b1);
    assert(s =~= s.take(total as int).push(b2));
    lemma_run_push(m, s.take(total as int), b2);
    assert(run(m, s) == m3);
    // Shape of the scrolled contents.
    assert forall|j: int| 1 <= j < cols implies #[trigger] m3.grid.cells[(rows - 1) * cols + j]
        == blank_cell() by {
        let idx = (rows - 1) * cols + j;
        assert(idx + cols >= total && idx < total) by (nonlinear_arith)
            requires
                idx == (rows - 1) * cols + j,
                1 <= j < cols,
                1 <= rows,
                total == cols * rows,
        ;
        assert(m3.grid.cells[idx] == m2.grid.cells[idx]);
    }
    assert forall|rr: int, cc: int|
        0 <= rr < rows - 1 && 0 <= cc < cols implies #[trigger] m3.grid.cells[rr * cols + cc]
        == (Cell { glyph: s[(rr + 1) * cols + cc] as char, fg, bg, bold, italic }) by {
        let idx = rr * cols + cc;
        assert(0 <= idx && idx + cols < total && idx + cols == (rr + 1) * cols + cc && idx < (rows
            - 1) * cols) by (nonlinear_arith)
            requires
                idx == rr * cols + cc,
                0 <= rr < rows - 1,
                0 <= cc < cols,
                1 <= rows,
                total == cols * rows,
        ;
        assert(m3.grid.cells[idx] == m2.grid.cells[idx]);
        assert(m2.grid.cells[idx] == written[idx + cols]);
        if idx + cols == total - 1 {
            assert(written[idx + cols] == mid.grid.styled(b1 as char));
        } else {
            assert(written[idx + cols] == mid.grid.cells[idx + cols]);
            assert(mid.grid.cells[idx + cols] == g.styled(s[idx + cols] as char));
        }
    }
}

/// Clearing the screen (`ESC [ 2 J`) blanks every cell and homes the
/// cursor, whatever state the interpreter was in beforehand — even in the
/// middle of another escape sequence or a multi-byte character.  The
/// geometry and the current style survive.
pub proof fn lemma_clear_screen_any_state(m: InterpModel)
    requires
        m.wf(),
    ensures
        ({
            let r = run(m, seq![0x1bu8, 0x5bu8, 0x32u8, 0x4au8]);
            &&& r.state is Ground
            &&& r.grid.cols == m.grid.cols
            &&& r.grid.rows == m.grid.rows
            &&& r.grid.cur_col == 0
            &&& r.grid.cur_row == 0
            &&& r.grid.cells.len() == m.grid.cells.len()
            &&& forall|i: int| 0 <= i < r.grid.cells.len() ==> r.grid.cells[i] == blank_cell()
            &&& r.grid.fg == m.grid.fg
            &&& r.grid.bg == m.grid.bg
            &&& r.grid.bold == m.grid.bold
            &&& r.grid.italic == m.grid.italic
        }),
{
    let bytes = seq![0x1bu8, 0x5bu8, 0x32u8, 0x4au8];
    let m1 = step(m, 0x1bu8);
    assert(m1.state is Escape && m1.grid == m.grid);
    let m2 = step(m1, 0x5bu8);
    assert(m2.state is Csi && m2.grid == m.grid && m2.params =~= Seq::<u16>::empty()
        && m2.cur == 0 && m2.has_param == false);
    let m3 = step(m2, 0x32u8);
    assert(m3.state is Csi && m3.grid == m.grid && m3.cur == 2 && m3.has_param);
    let m4 = step(m3, 0x4au8);
    assert(0x4au8 as char == 'J');
    assert(crate::performer::csi_param(m3.params.push(2u16), 0, 0u16) == 2u16);
    assert(m4.grid == m.grid.cleared());
    assert(m4.state is Ground);
    let t1 = bytes.drop_first();
    let t2 = t1.drop_first();
    let t3 = t2.drop_first();
    let t4 = t3.drop_first();
    assert(bytes[0] == 0x1bu8 && t1[0] == 0x5bu8 && t2[0] == 0x32u8 && t3[0] == 0x4au8);
    assert(t4.len() == 0);
    assert(run(m4, t4) == m4);
    assert(run(m3, t3) == run(m4, t4));
    assert(run(m2, t2) == run(m3, t3));
    assert(run(m1, t1) == run(m2, t2));
    assert(run(m, bytes) == run(m1, t1));
}

/// Two read attempts serialized around one buffered chunk: the attempt that
/// reached the pty first gets exactly the buffered bytes, and the attempt
/// that found the reader busy — or found the descriptor already drained —
/// gets "no data".  Nothing is duplicated and nothing is dropped: the one
/// delivery carries the chunk unchanged.
pub proof fn lemma_read_single_delivery(chunk: Vec<u8>, other: crate::session::ReadOutcome)
    requires
        chunk@.len() > 0,
        (other is Busy) || (other is WouldBlock),
    ensures
        crate::session::classify_spec(crate::session::ReadOutcome::Bytes(chunk))
            == crate::session::PtyRead::Data(chunk),
        crate::session::classify_spec(other) == crate::session::PtyRead::Empty,
{
}

} // verus!
