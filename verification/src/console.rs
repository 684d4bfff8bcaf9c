//! 80x25 text console over an owned cell region standing for VGA text
//! memory, with cursor tracking and scroll-on-overflow.

use vstd::prelude::*;

verus! {

/// Columns of the character grid.
pub const GRID_WIDTH: usize = 80;

/// Rows of the character grid.
pub const GRID_HEIGHT: usize = 25;

/// Total cells of the grid.
pub const CELL_COUNT: usize = 2000;

/// Display attribute of every written character: gray on black, placed in
/// the high byte of a cell.
pub const CELL_ATTRIBUTE: u16 = 0x0700;

/// The blank cell: a space character under the fixed attribute.
pub const BLANK_CELL: u16 = 0x0720;

/// Mathematical state of a console: the flat cell grid (cell of row `r`,
/// column `c` at index `r * 80 + c`) and the cursor position.
#[verifier::ext_equal]
pub struct ConsoleModel {
    pub cells: Seq<u16>,
    pub row: int,
    pub col: int,
}

impl ConsoleModel {
    /// Invariant of every reachable console state: full grid, cursor on it.
    pub open spec fn wf(self) -> bool {
        &&& self.cells.len() == CELL_COUNT
        &&& 0 <= self.row < GRID_HEIGHT
        &&& 0 <= self.col < GRID_WIDTH
    }

    /// The cell at a row and column.
    pub open spec fn cell(self, row: int, col: int) -> u16 {
        self.cells[row * 80 + col]
    }
}

/// The cell value a character is displayed as: its low 16 code-point bits
/// under the fixed attribute.
pub open spec fn glyph(c: char) -> u16 {
    CELL_ATTRIBUTE | (((c as u32) & 0xFFFF) as u16)
}

/// State after clearing: every cell blank, cursor at the origin.
pub open spec fn spec_clear(c: ConsoleModel) -> ConsoleModel {
    ConsoleModel { cells: Seq::new(CELL_COUNT as nat, |i: int| BLANK_CELL), row: 0, col: 0 }
}

/// The grid after scrolling one line: each row's content moves up into the
/// row above (the top row's old content is discarded) and the bottom row
/// becomes blank.
pub open spec fn spec_scrolled(cells: Seq<u16>) -> Seq<u16> {
    Seq::new(CELL_COUNT as nat, |i: int| if i < 1920 { cells[i + 80] } else { BLANK_CELL })
}

/// The "next row" action shared by `'\n'` handling and column wrap: the
/// column resets, and the row either advances or - when the cursor already
/// sits on the last row - the grid scrolls and the row stays pinned at 24.
pub open spec fn spec_newline(c: ConsoleModel) -> ConsoleModel {
    if c.row + 1 >= GRID_HEIGHT {
        ConsoleModel { cells: spec_scrolled(c.cells), row: GRID_HEIGHT - 1, col: 0 }
    } else {
        ConsoleModel { cells: c.cells, row: c.row + 1, col: 0 }
    }
}

/// Effect of writing one character: `'\n'` takes the next-row action,
/// `'\r'` resets the column, and any other character lands at the cursor
/// and advances it, wrapping via the next-row action at the right edge.
pub open spec fn spec_write_char(c: ConsoleModel, ch: char) -> ConsoleModel {
    if ch == '\n' {
        spec_newline(c)
    } else if ch == '\r' {
        ConsoleModel { cells: c.cells, row: c.row, col: 0 }
    } else {
        let written = ConsoleModel {
            cells: c.cells.update(c.row * 80 + c.col, glyph(ch)),
            row: c.row,
            col: c.col,
        };
        if c.col + 1 >= GRID_WIDTH {
            spec_newline(written)
        } else {
            ConsoleModel { cells: written.cells, row: written.row, col: c.col + 1 }
        }
    }
}

/// Effect of writing a string: each character in sequence order.
pub open spec fn spec_write_str(c: ConsoleModel, s: Seq<char>) -> ConsoleModel
    decreases s.len(),
{
    if s.len() == 0 {
        c
    } else {
        spec_write_str(spec_write_char(c, s[0]), s.skip(1))
    }
}

/// A character the console prints as a glyph: neither the newline nor the
/// carriage-return control character.
pub open spec fn is_printable(ch: char) -> bool {
    ch != '\n' && ch != '\r'
}

/// Writing any character keeps the console invariant: in particular the
/// cursor row never exceeds the last row, however many next-row
/// transitions have already pinned it there.
pub proof fn lemma_write_char_preserves_wf(c: ConsoleModel, ch: char)
    requires
        c.wf(),
    ensures
        spec_write_char(c, ch).wf(),
        spec_write_char(c, ch).row <= GRID_HEIGHT - 1,
{
}

/// Writing any string keeps the console invariant.
pub proof fn lemma_write_str_preserves_wf(c: ConsoleModel, s: Seq<char>)
    requires
        c.wf(),
    ensures
        spec_write_str(c, s).wf(),
    decreases s.len(),
{
    if s.len() > 0 {
        lemma_write_char_preserves_wf(c, s[0]);
        lemma_write_str_preserves_wf(spec_write_char(c, s[0]), s.skip(1));
    }
}

/// Writing a concatenation writes the two parts in turn.
pub proof fn lemma_write_str_append(c: ConsoleModel, a: Seq<char>, b: Seq<char>)
    ensures
        spec_write_str(c, a + b) == spec_write_str(spec_write_str(c, a), b),
    decreases a.len(),
{
    if a.len() == 0 {
        assert(a + b =~= b);
    } else {
        assert((a + b)[0] == a[0]);
        assert((a + b).skip(1) =~= a.skip(1) + b);
        lemma_write_str_append(spec_write_char(c, a[0]), a.skip(1), b);
    }
}

/// A run of printable characters that fits on the current line lands left
/// to right at the cursor, advances the column by its length, and touches
/// no other cell.
pub proof fn lemma_printable_run(c: ConsoleModel, s: Seq<char>)
    requires
        c.wf(),
        forall|i: int| 0 <= i < s.len() ==> is_printable(#[trigger] s[i]),
        c.col + s.len() < GRID_WIDTH,
    ensures
        spec_write_str(c, s).wf(),
        spec_write_str(c, s).row == c.row,
        spec_write_str(c, s).col == c.col + s.len(),
        forall|i: int|
            0 <= i < s.len() ==> spec_write_str(c, s).cells[c.row * 80 + c.col + i] == glyph(
                #[trigger] s[i],
            ),
        forall|j: int|
            0 <= j < CELL_COUNT && !(c.row * 80 + c.col <= j < c.row * 80 + c.col + s.len())
                ==> #[trigger] spec_write_str(c, s).cells[j] == c.cells[j],
    decreases s.len(),
{
    if s.len() > 0 {
        let c1 = spec_write_char(c, s[0]);
        lemma_printable_run(c1, s.skip(1));
        assert forall|i: int|
            0 <= i < s.len() implies spec_write_str(c, s).cells[c.row * 80 + c.col + i] == glyph(
            #[trigger] s[i],
        ) by {
            if i > 0 {
                assert(s.skip(1)[i - 1] == s[i]);
                assert(spec_write_str(c1, s.skip(1)).cells[c1.row * 80 + c1.col + (i - 1)]
                    == glyph(s.skip(1)[i - 1]));
            }
        }
    }
}

/// Writing a full line of 81 printable characters from column 0 wraps
/// exactly once: the first 80 fill the starting row, and character 81
/// lands at column 0 of the next row, leaving the cursor at column 1 there.
pub proof fn lemma_wrap_after_full_row(c: ConsoleModel, s: Seq<char>)
    requires
        c.wf(),
        c.col == 0,
        c.row + 1 < GRID_HEIGHT,
        s.len() == 81,
        forall|i: int| 0 <= i < s.len() ==> is_printable(#[trigger] s[i]),
    ensures
        spec_write_str(c, s).row == c.row + 1,
        spec_write_str(c, s).col == 1,
        forall|i: int|
            0 <= i < 80 ==> #[trigger] spec_write_str(c, s).cells[c.row * 80 + i] == glyph(s[i]),
        spec_write_str(c, s).cells[(c.row + 1) * 80] == glyph(s[80]),
{
    let head = s.take(79);
    let mid = s.subrange(79, 80);
    let tail = s.subrange(80, 81);
    assert(s =~= (head + mid) + tail);
    lemma_write_str_append(c, head + mid, tail);
    lemma_write_str_append(c, head, mid);
    lemma_printable_run(c, head);
    let c1 = spec_write_str(c, head);
    assert(mid.len() == 1 && mid[0] == s[79]);
    assert(tail.len() == 1 && tail[0] == s[80]);
    assert(mid.skip(1) =~= Seq::<char>::empty());
    assert(tail.skip(1) =~= Seq::<char>::empty());
    let c2 = spec_write_str(c1, mid);
    assert(c2 == spec_write_str(spec_write_char(c1, mid[0]), mid.skip(1)));
    assert(c2 == spec_write_char(c1, s[79]));
    let c3 = spec_write_str(c2, tail);
    assert(c3 == spec_write_str(spec_write_char(c2, tail[0]), tail.skip(1)));
    assert(c3 == spec_write_char(c2, s[80]));
    assert(spec_write_str(c, s) == c3);
}

/// The next-row transition taken on the last row scrolls: every row's
/// content moves up into the row above, the bottom row becomes blank, and
/// the cursor row stays pinned at the last row.
pub proof fn lemma_scroll_at_bottom(c: ConsoleModel)
    requires
        c.wf(),
        c.row == GRID_HEIGHT - 1,
    ensures
        spec_newline(c).wf(),
        spec_newline(c).row == GRID_HEIGHT - 1,
        spec_newline(c).col == 0,
        forall|r: int, x: int|
            0 <= r < GRID_HEIGHT - 1 && 0 <= x < GRID_WIDTH ==> #[trigger] spec_newline(c).cell(
                r,
                x,
            ) == c.cell(r + 1, x),
        forall|x: int|
            0 <= x < GRID_WIDTH ==> #[trigger] spec_newline(c).cell(GRID_HEIGHT - 1, x)
                == BLANK_CELL,
{
    assert forall|r: int, x: int|
        0 <= r < GRID_HEIGHT - 1 && 0 <= x < GRID_WIDTH implies #[trigger] spec_newline(c).cell(
        r,
        x,
    ) == c.cell(r + 1, x) by {
        assert(r * 80 + x < 1920);
        assert((r + 1) * 80 + x == r * 80 + x + 80);
    }
    assert forall|x: int|
        0 <= x < GRID_WIDTH implies #[trigger] spec_newline(c).cell(GRID_HEIGHT - 1, x)
        == BLANK_CELL by {
        assert(24 * 80 + x >= 1920);
    }
}

/// Console driver over an exclusively owned cell region standing for the
/// hardware text memory.
pub struct VgaConsole {
    pub cells: Vec<u16>,
    pub row: usize,
    pub col: usize,
}

impl View for VgaConsole {
    type V = ConsoleModel;

    open spec fn view(&self) -> ConsoleModel {
        ConsoleModel { cells: self.cells@, row: self.row as int, col: self.col as int }
    }
}

impl VgaConsole {
    /// The console invariant, at the executable type.
    pub open spec fn wf(&self) -> bool {
        self@.wf()
    }

    /// Takes ownership of a fresh full-size cell region (the model of the
    /// mapped text memory, initially all zero) with the cursor at the origin.
    pub fn new() -> (c: Self)
        ensures
            c.wf(),
            c@.cells == Seq::new(CELL_COUNT as nat, |i: int| 0u16),
            c@.row == 0,
            c@.col == 0,
    {
        let mut cells: Vec<u16> = Vec::new();
        let mut i: usize = 0;
        while i < CELL_COUNT
            invariant
                i <= CELL_COUNT,
                cells@.len() == i,
                forall|j: int| 0 <= j < i ==> cells@[j] == 0u16,
            decreases CELL_COUNT - i,
        {
            cells.push(0u16);
            i += 1;
        }
        let c = Self { cells, row: 0, col: 0 };
        proof {
            assert(c@.cells =~= Seq::new(CELL_COUNT as nat, |i: int| 0u16));
        }
        c
    }

    /// Overwrites every cell with the blank value and homes the cursor.
    pub fn clear(&mut self)
        requires
            old(self).wf(),
        ensures
            final (self).wf(),
            final (self)@ == spec_clear(old(self)@),
    {
        let mut i: usize = 0;
        while i < CELL_COUNT
            invariant
                i <= CELL_COUNT,
                self.cells@.len() == CELL_COUNT,
                forall|j: int| 0 <= j < i ==> self.cells@[j] == BLANK_CELL,
            decreases CELL_COUNT - i,
        {
            self.cells.set(i, BLANK_CELL);
            i += 1;
        }
        self.row = 0;
        self.col = 0;
        proof {
            assert(self@ =~= spec_clear(old(self)@));
        }
    }

    /// Takes the next-row action: column to 0; the row advances, or the
    /// grid scrolls up one line (blanking the bottom row) with the row
    /// pinned at the last line.
    pub fn newline(&mut self)
        requires
            old(self).wf(),
        ensures
            final (self).wf(),
            final (self)@ == spec_newline(old(self)@),
    {
        self.col = 0;
        let new_row: usize = self.row + 1;
        if new_row >= GRID_HEIGHT {
            // Scroll: move every line up by one.
            let mut i: usize = 0;
            while i < 1920
                invariant
                    i <= 1920,
                    self.cells@.len() == CELL_COUNT,
                    self.row == old(self).row,
                    self.col == 0,
                    forall|j: int| 0 <= j < i ==> self.cells@[j] == old(self).cells@[j + 80],
                    forall|j: int| i <= j < CELL_COUNT ==> self.cells@[j] == old(self).cells@[j],
                decreases 1920 - i,
            {
                let moved: u16 = self.cells[i + 80];
                self.cells.set(i, moved);
                i += 1;
            }
            // Blank the freed bottom row.
            let mut i: usize = 1920;
            while i < CELL_COUNT
                invariant
                    1920 <= i <= CELL_COUNT,
                    self.cells@.len() == CELL_COUNT,
                    self.row == old(self).row,
                    self.col == 0,
                    forall|j: int| 0 <= j < 1920 ==> self.cells@[j] == old(self).cells@[j + 80],
                    forall|j: int| 1920 <= j < i ==> self.cells@[j] == BLANK_CELL,
                decreases CELL_COUNT - i,
            {
                self.cells.set(i, BLANK_CELL);
                i += 1;
            }
            self.row = GRID_HEIGHT - 1;
            proof {
                assert(self@.cells =~= spec_scrolled(old(self)@.cells));
                assert(self@ =~= spec_newline(old(self)@));
            }
        } else {
            self.row = new_row;
        }
    }

    /// Writes one character at the cursor under the fixed attribute;
    /// control characters move the cursor as `spec_write_char` states.
    pub fn write_char(&mut self, c: char)
        requires
            old(self).wf(),
        ensures
            final (self).wf(),
            final (self)@ == spec_write_char(old(self)@, c),
    {
        if c == '\n' {
            self.newline();
        } else if c == '\r' {
            self.col = 0;
        } else {
            let code: u32 = c as u32;
            proof {
                assert(code & 0xFFFF <= 0xFFFF) by (bit_vector);
            }
            let cell: u16 = CELL_ATTRIBUTE | ((code & 0xFFFF) as u16);
            self.cells.set(self.row * GRID_WIDTH + self.col, cell);
            let new_col: usize = self.col + 1;
            if new_col >= GRID_WIDTH {
                self.newline();
            } else {
                self.col = new_col;
            }
        }
    }

    /// Writes every character of the string in sequence order.
    pub fn write_str(&mut self, s: &str)
        requires
            old(self).wf(),
        ensures
            final (self).wf(),
            final (self)@ == spec_write_str(old(self)@, s@),
    {
        let n: usize = s.unicode_len();
        proof {
            assert(s@.skip(0) =~= s@);
        }
        let mut i: usize = 0;
        while i < n
            invariant
                i <= n,
                n == s@.len(),
                self.wf(),
                spec_write_str(old(self)@, s@) == spec_write_str(self@, s@.skip(i as int)),
            decreases n - i,
        {
            let c = s.get_char(i);
            proof {
                let rest = s@.skip(i as int);
                assert(rest[0] == s@[i as int]);
                assert(rest.skip(1) =~= s@.skip(i as int + 1));
            }
            self.write_char(c);
            i += 1;
        }
        proof {
            assert(s@.skip(n as int) =~= Seq::<char>::empty());
        }
    }
}

} // verus!
