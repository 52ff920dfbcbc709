use tip_term::{Cell, Color, TerminalSession};

fn session(cols: usize, rows: usize) -> TerminalSession {
    TerminalSession::new(cols, rows)
}

fn grid_glyphs(s: &TerminalSession) -> Vec<char> {
    s.performer.grid.cells.iter().map(|c| c.glyph).collect()
}

fn cell_at(s: &TerminalSession, col: usize, row: usize) -> Cell {
    s.performer.grid.cells[row * s.performer.grid.cols + col]
}

#[test]
fn printables_fill_row_zero() {
    let mut s = session(10, 4);
    s.update(b"hello");
    assert_eq!(s.performer.grid.cursor_col, 5);
    assert_eq!(s.performer.grid.cursor_row, 0);
    let glyphs = grid_glyphs(&s);
    assert_eq!(&glyphs[0..5], &['h', 'e', 'l', 'l', 'o']);
    for g in &glyphs[5..] {
        assert_eq!(*g, ' ');
    }
    for cell in &s.performer.grid.cells[0..5] {
        assert_eq!(cell.fg, Color::DefaultFg);
        assert_eq!(cell.bg, Color::DefaultBg);
        assert!(!cell.bold);
        assert!(!cell.italic);
    }
}

#[test]
fn width_plus_one_wraps_once() {
    let mut s = session(4, 3);
    s.update(b"abcde");
    assert_eq!(s.performer.grid.cursor_col, 1);
    assert_eq!(s.performer.grid.cursor_row, 1);
    let glyphs = grid_glyphs(&s);
    assert_eq!(&glyphs[0..4], &['a', 'b', 'c', 'd']);
    assert_eq!(glyphs[4], 'e');
    for g in &glyphs[5..] {
        assert_eq!(*g, ' ');
    }
}

#[test]
fn grid_plus_one_scrolls_once() {
    let mut s = session(4, 3);
    // 12 characters fill the grid (and scroll as the last cell is written);
    // the 13th is the overflow character.
    s.update(b"abcdefghijklm");
    assert_eq!(s.performer.grid.cursor_col, 1);
    assert_eq!(s.performer.grid.cursor_row, 2);
    let glyphs = grid_glyphs(&s);
    // Row 0 of the input ("abcd") is discarded; rows moved up.
    assert_eq!(&glyphs[0..4], &['e', 'f', 'g', 'h']);
    assert_eq!(&glyphs[4..8], &['i', 'j', 'k', 'l']);
    // The bottom row holds only the overflow character.
    assert_eq!(glyphs[8], 'm');
    assert_eq!(&glyphs[9..12], &[' ', ' ', ' ']);
}

#[test]
fn sgr_bold_red_then_reset() {
    let mut s = session(8, 2);
    s.update(b"\x1b[1;31mA\x1b[0mB");
    let a = cell_at(&s, 0, 0);
    assert_eq!(a.glyph, 'A');
    assert!(a.bold);
    assert_eq!(a.fg, Color::Red);
    let b = cell_at(&s, 1, 0);
    assert_eq!(b.glyph, 'B');
    assert!(!b.bold);
    assert_eq!(b.fg, Color::DefaultFg);
    assert_eq!(b.bg, Color::DefaultBg);
}

#[test]
fn clear_screen_resets_everything_visible() {
    let mut s = session(5, 3);
    s.update(b"xyz\r\nuvw\x1b[2J");
    assert_eq!(s.performer.grid.cursor_col, 0);
    assert_eq!(s.performer.grid.cursor_row, 0);
    for g in grid_glyphs(&s) {
        assert_eq!(g, ' ');
    }
}

#[test]
fn clear_screen_mid_escape_sequence() {
    let mut s = session(5, 3);
    // Leave the interpreter inside an unfinished OSC string, then clear.
    s.update(b"ab\x1b]0;title");
    s.update(b"\x1b[2J");
    assert_eq!(s.performer.grid.cursor_col, 0);
    assert_eq!(s.performer.grid.cursor_row, 0);
    for g in grid_glyphs(&s) {
        assert_eq!(g, ' ');
    }
}

#[test]
fn clear_modes_other_than_2_and_3_are_ignored() {
    let mut s = session(5, 2);
    s.update(b"ab\x1b[0J\x1b[1J\x1b[J");
    let glyphs = grid_glyphs(&s);
    assert_eq!(&glyphs[0..2], &['a', 'b']);
}

#[test]
fn carriage_return_and_line_feed() {
    let mut s = session(6, 3);
    s.update(b"ab\r\ncd");
    assert_eq!(s.performer.grid.cursor_col, 2);
    assert_eq!(s.performer.grid.cursor_row, 1);
    assert_eq!(cell_at(&s, 0, 1).glyph, 'c');
    // Carriage return alone overwrites the line start.
    s.update(b"\rZ");
    assert_eq!(cell_at(&s, 0, 1).glyph, 'Z');
}

#[test]
fn line_feed_at_bottom_scrolls() {
    let mut s = session(3, 2);
    s.update(b"ab\r\ncd\r\n");
    // The second line feed scrolls: "cd" moves to row 0.
    assert_eq!(cell_at(&s, 0, 0).glyph, 'c');
    assert_eq!(cell_at(&s, 1, 0).glyph, 'd');
    assert_eq!(cell_at(&s, 0, 1).glyph, ' ');
    assert_eq!(s.performer.grid.cursor_row, 1);
}

#[test]
fn backspace_blanks_previous_cell() {
    let mut s = session(6, 2);
    s.update(b"ab\x08");
    assert_eq!(s.performer.grid.cursor_col, 1);
    assert_eq!(cell_at(&s, 1, 0).glyph, ' ');
    assert_eq!(cell_at(&s, 0, 0).glyph, 'a');
    // The next backspace blanks the first cell; at column zero a further
    // backspace does nothing.
    s.update(b"\x08\x08");
    assert_eq!(s.performer.grid.cursor_col, 0);
    assert_eq!(cell_at(&s, 0, 0).glyph, ' ');
}

#[test]
fn bel_nul_del_have_no_effect() {
    let mut s = session(6, 2);
    s.update(b"a\x07\x00\x7fb");
    assert_eq!(cell_at(&s, 0, 0).glyph, 'a');
    assert_eq!(cell_at(&s, 1, 0).glyph, 'b');
    assert_eq!(s.performer.grid.cursor_col, 2);
}

#[test]
fn absolute_cursor_move_is_one_based_and_clamped() {
    let mut s = session(10, 5);
    s.update(b"\x1b[3;4H");
    assert_eq!(s.performer.grid.cursor_row, 2);
    assert_eq!(s.performer.grid.cursor_col, 3);
    // Defaults: home.
    s.update(b"\x1b[H");
    assert_eq!(s.performer.grid.cursor_row, 0);
    assert_eq!(s.performer.grid.cursor_col, 0);
    // Zero parameters behave as 1.
    s.update(b"\x1b[0;0H");
    assert_eq!(s.performer.grid.cursor_row, 0);
    assert_eq!(s.performer.grid.cursor_col, 0);
    // Out-of-range targets clamp to the edges.
    s.update(b"\x1b[99;99H");
    assert_eq!(s.performer.grid.cursor_row, 4);
    assert_eq!(s.performer.grid.cursor_col, 9);
}

#[test]
fn relative_cursor_moves_clamp_at_edges() {
    let mut s = session(10, 5);
    s.update(b"\x1b[3;4H");
    s.update(b"\x1b[2A");
    assert_eq!(s.performer.grid.cursor_row, 0);
    s.update(b"\x1b[A");
    assert_eq!(s.performer.grid.cursor_row, 0);
    s.update(b"\x1b[99B");
    assert_eq!(s.performer.grid.cursor_row, 4);
    s.update(b"\x1b[2C");
    assert_eq!(s.performer.grid.cursor_col, 5);
    s.update(b"\x1b[99C");
    assert_eq!(s.performer.grid.cursor_col, 9);
    s.update(b"\x1b[4D");
    assert_eq!(s.performer.grid.cursor_col, 5);
    s.update(b"\x1b[99D");
    assert_eq!(s.performer.grid.cursor_col, 0);
}

#[test]
fn sgr_background_and_bright_colors() {
    let mut s = session(8, 2);
    s.update(b"\x1b[44mA\x1b[101mB\x1b[96mC\x1b[49mD");
    assert_eq!(cell_at(&s, 0, 0).bg, Color::Blue);
    assert_eq!(cell_at(&s, 1, 0).bg, Color::BrightRed);
    assert_eq!(cell_at(&s, 2, 0).fg, Color::BrightCyan);
    assert_eq!(cell_at(&s, 3, 0).bg, Color::DefaultBg);
}

#[test]
fn sgr_italic_and_attribute_clearing() {
    let mut s = session(8, 2);
    s.update(b"\x1b[3mA\x1b[23mB\x1b[1mC\x1b[22mD");
    assert!(cell_at(&s, 0, 0).italic);
    assert!(!cell_at(&s, 1, 0).italic);
    assert!(cell_at(&s, 2, 0).bold);
    assert!(!cell_at(&s, 3, 0).bold);
}

#[test]
fn sgr_unknown_codes_are_ignored() {
    let mut s = session(8, 2);
    s.update(b"\x1b[38;5;77m\x1b[999mA");
    let a = cell_at(&s, 0, 0);
    assert_eq!(a.glyph, 'A');
    // Code 38 is not in the modeled subset and changes nothing.
    assert_eq!(a.fg, Color::DefaultFg);
}

#[test]
fn sgr_with_no_parameters_resets() {
    let mut s = session(8, 2);
    s.update(b"\x1b[1;35;42mA\x1b[mB");
    let b = cell_at(&s, 1, 0);
    assert!(!b.bold);
    assert_eq!(b.fg, Color::DefaultFg);
    assert_eq!(b.bg, Color::DefaultBg);
}

#[test]
fn escape_sequence_split_across_reads_resumes() {
    let mut s = session(8, 2);
    s.update(b"\x1b");
    s.update(b"[1;3");
    s.update(b"1m");
    s.update(b"A");
    let a = cell_at(&s, 0, 0);
    assert!(a.bold);
    assert_eq!(a.fg, Color::Red);
}

#[test]
fn osc_and_dcs_strings_are_consumed_silently() {
    let mut s = session(10, 2);
    s.update(b"\x1b]0;window title\x07A");
    assert_eq!(cell_at(&s, 0, 0).glyph, 'A');
    let mut s2 = session(10, 2);
    s2.update(b"\x1bPsome dcs payload\x1b\\B");
    assert_eq!(cell_at(&s2, 0, 0).glyph, 'B');
    assert_eq!(s2.performer.grid.cursor_col, 1);
}

#[test]
fn unknown_csi_finals_are_discarded() {
    let mut s = session(8, 2);
    s.update(b"\x1b[2K\x1b[?25h\x1b[5nX");
    assert_eq!(cell_at(&s, 0, 0).glyph, 'X');
    assert_eq!(s.performer.grid.cursor_col, 1);
}

#[test]
fn utf8_two_byte_character_prints() {
    let mut s = session(8, 2);
    s.update("é".as_bytes());
    assert_eq!(cell_at(&s, 0, 0).glyph, 'é');
    assert_eq!(s.performer.grid.cursor_col, 1);
}

#[test]
fn utf8_split_across_reads_resumes() {
    let bytes = "ß".as_bytes();
    let mut s = session(8, 2);
    s.update(&bytes[0..1]);
    s.update(&bytes[1..]);
    assert_eq!(cell_at(&s, 0, 0).glyph, 'ß');
}

#[test]
fn utf8_three_and_four_byte_characters() {
    let mut s = session(8, 2);
    s.update("€".as_bytes());
    s.update("𝄞".as_bytes());
    assert_eq!(cell_at(&s, 0, 0).glyph, '€');
    assert_eq!(cell_at(&s, 1, 0).glyph, '𝄞');
    assert_eq!(s.performer.grid.cursor_col, 2);
}

#[test]
fn invalid_utf8_is_discarded_without_stalling() {
    let mut s = session(8, 2);
    // A leading byte followed by a printable instead of a continuation:
    // the sequence is dropped, the printable is kept.
    s.update(b"\xc3A");
    assert_eq!(cell_at(&s, 0, 0).glyph, 'A');
    // Stray continuation bytes and invalid leading bytes are ignored.
    s.update(b"\x80\xffB");
    assert_eq!(cell_at(&s, 1, 0).glyph, 'B');
    assert_eq!(s.performer.grid.cursor_col, 2);
}

#[test]
fn every_byte_value_is_consumed_without_stalling() {
    let mut s = session(8, 3);
    for b in 0u8..=255 {
        s.update(&[b]);
    }
    // Whatever state that left, ESC[2J recovers a clean screen and printing
    // still works.
    s.update(b"\x1b[2Jok");
    assert_eq!(cell_at(&s, 0, 0).glyph, 'o');
    assert_eq!(cell_at(&s, 1, 0).glyph, 'k');
    assert_eq!(s.performer.grid.cursor_col, 2);
    assert_eq!(s.performer.grid.cursor_row, 0);
}

#[test]
fn oversized_parameters_saturate_and_clamp() {
    let mut s = session(10, 5);
    s.update(b"\x1b[99999999999999;99999999999999H");
    assert_eq!(s.performer.grid.cursor_row, 4);
    assert_eq!(s.performer.grid.cursor_col, 9);
}

#[test]
fn parameter_lists_beyond_the_cap_are_safe() {
    let mut s = session(10, 2);
    let mut seq = b"\x1b[".to_vec();
    // Far more parameters than a sequence may carry; the early ones apply,
    // the excess is dropped, and the final byte still dispatches.
    seq.extend_from_slice(b"1;31");
    for _ in 0..80 {
        seq.extend_from_slice(b";1");
    }
    seq.extend_from_slice(b"mZ");
    s.update(&seq);
    let z = cell_at(&s, 0, 0);
    assert_eq!(z.glyph, 'Z');
    assert_eq!(z.fg, Color::Red);
    assert!(z.bold);
}

#[test]
fn single_column_grid_wraps_every_character() {
    let mut s = session(1, 3);
    s.update(b"abc");
    // Each character wraps to the next row; the third write scrolls.
    assert_eq!(cell_at(&s, 0, 0).glyph, 'b');
    assert_eq!(cell_at(&s, 0, 1).glyph, 'c');
    assert_eq!(cell_at(&s, 0, 2).glyph, ' ');
    assert_eq!(s.performer.grid.cursor_col, 0);
    assert_eq!(s.performer.grid.cursor_row, 2);
}

#[test]
fn charset_escape_sequences_are_discarded() {
    let mut s = session(8, 2);
    s.update(b"\x1b(B\x1b=A");
    assert_eq!(cell_at(&s, 0, 0).glyph, 'A');
    assert_eq!(s.performer.grid.cursor_col, 1);
}

#[test]
fn resize_yields_blank_grid_of_new_geometry() {
    let mut s = session(80, 24);
    s.update(b"some content\x1b[31m");
    s.resize(40, 10);
    assert_eq!(s.performer.grid.cols, 40);
    assert_eq!(s.performer.grid.rows, 10);
    assert_eq!(s.performer.grid.cells.len(), 400);
    for cell in &s.performer.grid.cells {
        assert_eq!(cell.glyph, ' ');
        assert_eq!(cell.fg, Color::DefaultFg);
        assert_eq!(cell.bg, Color::DefaultBg);
    }
    assert_eq!(s.performer.grid.cursor_col, 0);
    assert_eq!(s.performer.grid.cursor_row, 0);
}

#[test]
fn snapshot_is_edge_triggered() {
    let mut s = session(6, 2);
    // A fresh session is dirty once.
    let first = s.get_render_grid();
    assert!(first.is_some());
    assert!(s.get_render_grid().is_none());
    // New output marks it dirty again.
    s.update(b"hi");
    let snap = s.get_render_grid().expect("dirty after output");
    assert_eq!(snap.cols, 6);
    assert_eq!(snap.rows, 2);
    assert_eq!(snap.cells[0].glyph, 'h');
    assert_eq!(snap.cells[1].glyph, 'i');
    assert!(s.get_render_grid().is_none());
    // An empty read does not mark it dirty.
    s.update(b"");
    assert!(s.get_render_grid().is_none());
}
