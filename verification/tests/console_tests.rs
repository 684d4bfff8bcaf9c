use grapeos_core::console::VgaConsole;

const BLANK: u16 = 0x0720;

fn g(c: char) -> u16 {
    0x0700 | (c as u16)
}

#[test]
fn clear_blanks_grid_and_homes_cursor() {
    let mut console = VgaConsole::new();
    console.write_str("some text before clearing\n");
    console.clear();
    assert_eq!(console.cells.len(), 2000);
    for i in 0..2000 {
        assert_eq!(console.cells[i], BLANK);
    }
    assert_eq!(console.row, 0);
    assert_eq!(console.col, 0);
}

#[test]
fn write_str_ab_newline_moves_cursor_to_next_row() {
    let mut console = VgaConsole::new();
    console.clear();
    console.write_str("AB\n");
    assert_eq!(console.row, 1);
    assert_eq!(console.col, 0);
    assert_eq!(console.cells[0], g('A'));
    assert_eq!(console.cells[1], g('B'));
    assert_eq!(console.cells[2], BLANK);
}

#[test]
fn carriage_return_resets_column_only() {
    let mut console = VgaConsole::new();
    console.clear();
    console.write_str("AB\rC");
    assert_eq!(console.row, 0);
    assert_eq!(console.col, 1);
    assert_eq!(console.cells[0], g('C'));
    assert_eq!(console.cells[1], g('B'));
}

#[test]
fn eighty_one_characters_wrap_exactly_once() {
    let mut console = VgaConsole::new();
    console.clear();
    let line = "a".repeat(81);
    console.write_str(&line);
    for x in 0..80 {
        assert_eq!(console.cells[x], g('a'));
    }
    // Character 81 lands at row 1, column 0.
    assert_eq!(console.cells[80], g('a'));
    assert_eq!(console.cells[81], BLANK);
    assert_eq!(console.row, 1);
    assert_eq!(console.col, 1);
}

#[test]
fn bottom_row_transition_scrolls_and_pins_cursor() {
    let mut console = VgaConsole::new();
    console.clear();
    // One distinct marker per row, rows 0..=23, then '@' on the bottom row.
    for r in 0..24u8 {
        console.write_char((b'A' + r % 26) as char);
        console.write_char('\n');
    }
    assert_eq!(console.row, 24);
    console.write_char('@');
    assert_eq!(console.col, 1);

    // Force the 25th-row transition.
    console.write_char('\n');
    assert_eq!(console.row, 24, "cursor row is pinned at the bottom");
    assert_eq!(console.col, 0);
    // Rows shifted up: row 0 holds the old row 1 marker, row 22 the old
    // row 23 marker, row 23 the old bottom-row content.
    assert_eq!(console.cells[0], g('B'));
    assert_eq!(console.cells[22 * 80], g('X'));
    assert_eq!(console.cells[23 * 80], g('@'));
    // The bottom row is blank.
    for x in 0..80 {
        assert_eq!(console.cells[24 * 80 + x], BLANK);
    }

    // A further transition keeps the row pinned and shifts again.
    console.write_char('\n');
    assert_eq!(console.row, 24);
    assert_eq!(console.cells[21 * 80], g('X'));
    assert_eq!(console.cells[22 * 80], g('@'));
    assert_eq!(console.cells[23 * 80], BLANK);
}
