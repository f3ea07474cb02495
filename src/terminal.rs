//! The text terminal: a cursor and a current color over the display grid.
//!
//! Every operation is stated over [`TerminalView`], whose step functions say
//! what one operation does to the cursor, the color and the cells.
use vstd::prelude::*;
use vstd::string::StringSliceAdditionalSpecFns;
use crate::vga::{
    cell_index, filled, grid_len, on_screen, pack, scrolled, with_color_at, with_row_filled,
    Character, Color, ColorCode, ScreenBuffer, SCREEN_HEIGHT, SCREEN_WIDTH,
};

verus! {

/// Number of spaces a tab prints.
pub const TAB_LENGTH: usize = 4;

/// Glyph printed in place of a byte that the display cannot show.
pub const PLACEHOLDER_GLYPH: u8 = 0xFE;

/// The backspace control byte.
pub const BACKSPACE: u8 = 0x08;

/// The blank glyph.
pub const SPACE: u8 = 0x20;

/// Color of the cell under the cursor: black on white.
pub const CURSOR_COLOR: u8 = 0xF0;

/// Color a new terminal prints in: white on blue.
pub const DEFAULT_COLOR: u8 = 0x1F;

/// Number of bytes of the UTF-8 encoding of `c`.
pub open spec fn utf8_len(c: char) -> nat {
    if (c as u32) < 0x80 {
        1
    } else if (c as u32) < 0x800 {
        2
    } else if (c as u32) < 0x10000 {
        3
    } else {
        4
    }
}

/// Whether `b` is a byte that is printed as a glyph of its own.
pub open spec fn is_printable(b: u8) -> bool {
    0x20 <= b <= 0x7e
}

/// A blank cell in `color`.
pub open spec fn blank(color: ColorCode) -> Character {
    Character { ascii_char: SPACE, color }
}

/// What a terminal holds: its cursor, its current color and the display cells.
#[verifier::ext_equal]
pub struct TerminalView {
    pub row: int,
    pub col: int,
    pub color: ColorCode,
    pub cells: Seq<Character>,
}

impl TerminalView {
    /// The cursor lies on the display and there is one cell per position.
    pub open spec fn wf(self) -> bool {
        on_screen(self.col, self.row) && self.cells.len() == grid_len()
    }

    pub open spec fn cursor_index(self) -> int {
        cell_index(self.col, self.row)
    }

    /// The cell at column `x`, row `y`.
    pub open spec fn cell(self, x: int, y: int) -> Character {
        self.cells[cell_index(x, y)]
    }

    pub open spec fn with_cells(self, cells: Seq<Character>) -> TerminalView {
        TerminalView { cells, ..self }
    }

    pub open spec fn with_color(self, color: ColorCode) -> TerminalView {
        TerminalView { color, ..self }
    }

    pub open spec fn moved_to(self, x: int, y: int) -> TerminalView {
        TerminalView { col: x, row: y, ..self }
    }

    /// The cell under the cursor recolored, its glyph kept.
    pub open spec fn with_cursor_color(self, color: ColorCode) -> TerminalView {
        self.with_cells(with_color_at(self.cells, self.cursor_index(), color))
    }

    /// The cursor overlay removed: the cell under the cursor is back in the
    /// current color, the color text is written in.
    pub open spec fn cursor_cleared(self) -> TerminalView {
        self.with_cursor_color(self.color)
    }

    /// The cursor overlay shown on the cell under the cursor.
    pub open spec fn cursor_drawn(self) -> TerminalView {
        self.with_cursor_color(ColorCode(CURSOR_COLOR))
    }

    /// A line feed: to column 0 of the next row; on the bottom row every row
    /// moves up by one and the bottom row is blanked in the current color.
    pub open spec fn new_line(self) -> TerminalView {
        let c = self.cursor_cleared();
        if c.row == SCREEN_HEIGHT as int - 1 {
            c.with_cells(scrolled(c.cells, blank(c.color))).moved_to(0, c.row).cursor_drawn()
        } else {
            c.moved_to(0, c.row + 1).cursor_drawn()
        }
    }

    /// Glyph `b` placed under the cursor in the current color; the cursor
    /// advances, with a line feed at the right edge.
    pub open spec fn put(self, b: u8) -> TerminalView {
        let w = self.with_cells(
            self.cells.update(self.cursor_index(), Character { ascii_char: b, color: self.color }),
        );
        if self.col == SCREEN_WIDTH as int - 1 {
            w.new_line()
        } else {
            w.moved_to(self.col + 1, self.row).cursor_drawn()
        }
    }

    /// Glyph `b` put `n` times.
    pub open spec fn put_repeated(self, b: u8, n: nat) -> TerminalView
        decreases n,
    {
        if n == 0 {
            self
        } else {
            self.put_repeated(b, (n - 1) as nat).put(b)
        }
    }

    pub open spec fn tab(self) -> TerminalView {
        self.put_repeated(SPACE, TAB_LENGTH as nat)
    }

    pub open spec fn carriage_return(self) -> TerminalView {
        self.cursor_cleared().moved_to(0, self.row).cursor_drawn()
    }

    /// One cell back, to the end of the previous row from column 0, and that
    /// cell blanked; nothing moves at the top-left corner.
    pub open spec fn backspace(self) -> TerminalView {
        let c = self.cursor_cleared();
        if c.col == 0 && c.row == 0 {
            c.cursor_drawn()
        } else {
            let d = if c.col > 0 {
                c.moved_to(c.col - 1, c.row)
            } else {
                c.moved_to(SCREEN_WIDTH as int - 1, c.row - 1)
            };
            d.with_cells(d.cells.update(d.cursor_index(), blank(d.color))).cursor_drawn()
        }
    }

    /// What printing byte `b` does.
    pub open spec fn byte(self, b: u8) -> TerminalView {
        if is_printable(b) {
            self.put(b)
        } else if b == 0x0a {
            self.new_line()
        } else if b == 0x0d {
            self.carriage_return()
        } else if b == 0x09 {
            self.tab()
        } else if b == BACKSPACE {
            self.backspace()
        } else {
            self.put(PLACEHOLDER_GLYPH)
        }
    }

    /// What printing the bytes `bytes` in order does.
    pub open spec fn print(self, bytes: Seq<u8>) -> TerminalView
        decreases bytes.len(),
    {
        if bytes.len() == 0 {
            self
        } else {
            self.print(bytes.drop_last()).byte(bytes.last())
        }
    }

    /// The cursor moved by (`dx`, `dy`) where that stays on the display, and
    /// left in place otherwise.
    pub open spec fn translate(self, dx: int, dy: int) -> TerminalView {
        let c = self.cursor_cleared();
        if on_screen(self.col + dx, self.row + dy) {
            c.moved_to(self.col + dx, self.row + dy).cursor_drawn()
        } else {
            c.cursor_drawn()
        }
    }
}

/// A text terminal over the display grid.
pub struct Terminal {
    pub(crate) row: u8,
    pub(crate) col: u8,
    pub(crate) color: ColorCode,
    pub(crate) buffer: ScreenBuffer,
}

impl View for Terminal {
    type V = TerminalView;

    closed spec fn view(&self) -> TerminalView {
        TerminalView {
            row: self.row as int,
            col: self.col as int,
            color: self.color,
            cells: self.buffer@,
        }
    }
}

impl Terminal {
    pub open spec fn wf(&self) -> bool {
        self@.wf()
    }

    /// A terminal with the cursor at the top-left corner, printing white on
    /// blue, over a blank grid.
    pub fn new() -> (r: Terminal)
        ensures
            r.wf(),
            r@ == (TerminalView {
                row: 0,
                col: 0,
                color: ColorCode(DEFAULT_COLOR),
                cells: filled(Character { ascii_char: SPACE, color: ColorCode(0) }),
            }),
    {
        let r = Terminal {
            row: 0,
            col: 0,
            color: ColorCode::new(Color::White, Color::Blue),
            buffer: ScreenBuffer::new(),
        };
        assert(r@ =~= (TerminalView {
            row: 0,
            col: 0,
            color: ColorCode(DEFAULT_COLOR),
            cells: filled(Character { ascii_char: SPACE, color: ColorCode(0) }),
        }));
        r
    }

    /// The cursor position, column first.
    pub fn position(&self) -> (r: (u8, u8))
        requires
            self.wf(),
        ensures
            r.0 as int == self@.col,
            r.1 as int == self@.row,
    {
        (self.col, self.row)
    }

    /// The column of the cursor.
    pub fn get_column(&self) -> (r: u8)
        requires
            self.wf(),
        ensures
            r as int == self@.col,
    {
        self.col
    }

    /// The color new glyphs are printed in.
    pub fn color(&self) -> (r: ColorCode)
        requires
            self.wf(),
        ensures
            r == self@.color,
    {
        self.color
    }

    /// The cell at column `x`, row `y`.
    pub fn get_char(&self, x: usize, y: usize) -> (r: Character)
        requires
            self.wf(),
            on_screen(x as int, y as int),
        ensures
            r == self@.cell(x as int, y as int),
    {
        self.buffer.get_char(x, y)
    }

    /// Shows the cursor overlay on the cell at column `x`, row `y`.
    pub fn cursor(&mut self, x: usize, y: usize)
        requires
            old(self).wf(),
            on_screen(x as int, y as int),
        ensures
            final(self).wf(),
            final(self)@ == old(self)@.with_cells(
                with_color_at(old(self)@.cells, cell_index(x as int, y as int), ColorCode(CURSOR_COLOR)),
            ),
    {
        self.buffer.set_cell_attribs(x, y, ColorCode(CURSOR_COLOR));
        assert(self@ =~= old(self)@.with_cells(
            with_color_at(old(self)@.cells, cell_index(x as int, y as int), ColorCode(CURSOR_COLOR)),
        ));
    }

    /// Removes the cursor overlay from the cell at column `x`, row `y`: the
    /// cell is back in the current color.
    pub fn clear_cursor(&mut self, x: usize, y: usize)
        requires
            old(self).wf(),
            on_screen(x as int, y as int),
        ensures
            final(self).wf(),
            final(self)@ == old(self)@.with_cells(
                with_color_at(old(self)@.cells, cell_index(x as int, y as int), old(self)@.color),
            ),
    {
        let color = self.color;
        self.buffer.set_cell_attribs(x, y, color);
        assert(self@ =~= old(self)@.with_cells(
            with_color_at(old(self)@.cells, cell_index(x as int, y as int), old(self)@.color),
        ));
    }

    /// Line feed; scrolls at the bottom row.
    pub fn new_line(&mut self)
        requires
            old(self).wf(),
        ensures
            final(self).wf(),
            final(self)@ == old(self)@.new_line(),
    {
        self.clear_cursor(self.col as usize, self.row as usize);
        if self.row as usize == SCREEN_HEIGHT - 1 {
            let blank = Character::new(SPACE, self.color);
            self.buffer.scroll_up(blank);
        } else {
            self.row = self.row + 1;
        }
        self.col = 0;
        self.cursor(self.col as usize, self.row as usize);
        assert(self@ =~= old(self)@.new_line());
    }

    /// Moves the cursor to column 0 of its row.
    pub fn carriage_return(&mut self)
        requires
            old(self).wf(),
        ensures
            final(self).wf(),
            final(self)@ == old(self)@.carriage_return(),
    {
        self.clear_cursor(self.col as usize, self.row as usize);
        self.col = 0;
        self.cursor(self.col as usize, self.row as usize);
        assert(self@ =~= old(self)@.carriage_return());
    }

    /// Places glyph `data` under the cursor and advances.
    fn put_glyph(&mut self, data: u8)
        requires
            old(self).wf(),
        ensures
            final(self).wf(),
            final(self)@ == old(self)@.put(data),
    {
        let c = Character::new(data, self.color);
        self.buffer.set_char(self.col as usize, self.row as usize, c);
        if self.col as usize == SCREEN_WIDTH - 1 {
            proof {
                let w = old(self)@.with_cells(
                    old(self)@.cells.update(
                        old(self)@.cursor_index(),
                        Character { ascii_char: data, color: old(self)@.color },
                    ),
                );
                assert(self@ =~= w);
            }
            self.new_line();
        } else {
            self.col = self.col + 1;
            self.cursor(self.col as usize, self.row as usize);
        }
        assert(self@ =~= old(self)@.put(data));
    }

    /// Prints one byte: a glyph, a control byte, or the placeholder glyph.
    fn _print_byte(&mut self, data: u8)
        requires
            old(self).wf(),
        ensures
            final(self).wf(),
            final(self)@ == old(self)@.byte(data),
    {
        if 0x20 <= data && data <= 0x7e {
            self.put_glyph(data);
        } else if data == 0x0a {
            self.new_line();
        } else if data == 0x0d {
            self.carriage_return();
        } else if data == 0x09 {
            self.tab();
        } else if data == BACKSPACE {
            self.backspace();
        } else {
            self.put_glyph(PLACEHOLDER_GLYPH);
        }
    }

    /// Prints the bytes of `s` in order.
    pub fn print(&mut self, s: &str)
        requires
            old(self).wf(),
        ensures
            final(self).wf(),
            final(self)@ == old(self)@.print(s.spec_bytes()),
    {
        let bytes = s.as_bytes();
        let mut i: usize = 0;
        while i < bytes.len()
            invariant
                self.wf(),
                bytes@ == s.spec_bytes(),
                i <= bytes@.len(),
                self@ == old(self)@.print(bytes@.take(i as int)),
            decreases bytes@.len() - i,
        {
            let b = bytes[i];
            self._print_byte(b);
            proof {
                assert(bytes@.take(i + 1).drop_last() =~= bytes@.take(i as int));
            }
            i = i + 1;
        }
        assert(bytes@.take(bytes@.len() as int) =~= bytes@);
    }

    /// Prints character `c`: as its byte when it is ASCII, otherwise as one
    /// placeholder glyph for each byte of its UTF-8 encoding, as printing it
    /// in a string would.
    pub fn print_char(&mut self, c: char)
        requires
            old(self).wf(),
        ensures
            final(self).wf(),
            (c as u32) < 0x80 ==> final(self)@ == old(self)@.byte(c as u8),
            (c as u32) >= 0x80 ==> final(self)@ == old(self)@.put_repeated(
                PLACEHOLDER_GLYPH,
                utf8_len(c),
            ),
    {
        let code = c as u32;
        if code < 0x80 {
            self._print_byte(code as u8);
        } else {
            let n: usize = if code < 0x800 {
                2
            } else if code < 0x10000 {
                3
            } else {
                4
            };
            let mut i: usize = 0;
            while i < n
                invariant
                    self.wf(),
                    i <= n,
                    n == utf8_len(c),
                    self@ == old(self)@.put_repeated(PLACEHOLDER_GLYPH, i as nat),
                decreases n - i,
            {
                self.put_glyph(PLACEHOLDER_GLYPH);
                i = i + 1;
            }
        }
    }

    /// Sets every cell to a blank in the current color; the cursor stays.
    pub fn _clear(&mut self)
        requires
            old(self).wf(),
        ensures
            final(self).wf(),
            final(self)@ == old(self)@.with_cells(filled(blank(old(self)@.color))),
    {
        let c = Character::new(SPACE, self.color);
        self.buffer.fill(c);
        assert(self@ =~= old(self)@.with_cells(filled(blank(old(self)@.color))));
    }

    /// Sets every cell of the cursor's row to a blank in the current color.
    pub fn _clear_row(&mut self)
        requires
            old(self).wf(),
        ensures
            final(self).wf(),
            final(self)@ == old(self)@.with_cells(
                with_row_filled(old(self)@.cells, old(self)@.row, blank(old(self)@.color)),
            ),
    {
        let c = Character::new(SPACE, self.color);
        self.buffer.fill_row(self.row as usize, c);
        assert(self@ =~= old(self)@.with_cells(
            with_row_filled(old(self)@.cells, old(self)@.row, blank(old(self)@.color)),
        ));
    }

    /// Moves the cursor to column `x`, row `y`, moving its overlay along.
    pub fn _set_position(&mut self, x: u8, y: u8)
        requires
            old(self).wf(),
            on_screen(x as int, y as int),
        ensures
            final(self).wf(),
            final(self)@ == old(self)@.cursor_cleared().moved_to(x as int, y as int).cursor_drawn(),
    {
        self.clear_cursor(self.col as usize, self.row as usize);
        self.col = x;
        self.row = y;
        self.cursor(x as usize, y as usize);
        assert(self@ =~= old(self)@.cursor_cleared().moved_to(x as int, y as int).cursor_drawn());
    }

    /// Moves the cursor to column 0, row 0.
    pub fn reset_cursor(&mut self)
        requires
            old(self).wf(),
        ensures
            final(self).wf(),
            final(self)@ == old(self)@.cursor_cleared().moved_to(0, 0).cursor_drawn(),
    {
        self._set_position(0, 0);
    }

    /// Replaces the background of the current color by `color` modulo 16.
    pub fn set_bg_color(&mut self, color: u8)
        requires
            old(self).wf(),
        ensures
            final(self).wf(),
            final(self)@.color.background() == color % 16,
            final(self)@.color.foreground() == old(self)@.color.foreground(),
            final(self)@.cells == old(self)@.cells,
            final(self)@.row == old(self)@.row,
            final(self)@.col == old(self)@.col,
            final(self)@ == old(self)@.with_color(
                ColorCode(pack(old(self)@.color.foreground(), color % 16)),
            ),
    {
        self.color.set_background(color);
    }

    /// Replaces the foreground of the current color by `color` modulo 16.
    pub fn set_fg_color(&mut self, color: u8)
        requires
            old(self).wf(),
        ensures
            final(self).wf(),
            final(self)@.color.foreground() == color % 16,
            final(self)@.color.background() == old(self)@.color.background(),
            final(self)@.cells == old(self)@.cells,
            final(self)@.row == old(self)@.row,
            final(self)@.col == old(self)@.col,
            final(self)@ == old(self)@.with_color(
                ColorCode(pack(color % 16, old(self)@.color.background())),
            ),
    {
        self.color.set_foreground(color);
    }

    /// Makes the background of the current color `color`.
    pub fn set_background(&mut self, color: Color)
        requires
            old(self).wf(),
        ensures
            final(self).wf(),
            final(self)@.color.background() == color.index(),
            final(self)@.color.foreground() == old(self)@.color.foreground(),
            final(self)@.cells == old(self)@.cells,
            final(self)@.row == old(self)@.row,
            final(self)@.col == old(self)@.col,
            final(self)@ == old(self)@.with_color(
                ColorCode(pack(old(self)@.color.foreground(), color.index())),
            ),
    {
        self.set_bg_color(color.as_u8());
    }

    /// Makes the foreground of the current color `color`.
    pub fn set_foreground(&mut self, color: Color)
        requires
            old(self).wf(),
        ensures
            final(self).wf(),
            final(self)@.color.foreground() == color.index(),
            final(self)@.color.background() == old(self)@.color.background(),
            final(self)@.cells == old(self)@.cells,
            final(self)@.row == old(self)@.row,
            final(self)@.col == old(self)@.col,
            final(self)@ == old(self)@.with_color(
                ColorCode(pack(color.index(), old(self)@.color.background())),
            ),
    {
        self.set_fg_color(color.as_u8());
    }

    /// Makes the current color `fg` on `bg`, each taken modulo 16.
    pub fn set_color_u8(&mut self, fg: u8, bg: u8)
        requires
            old(self).wf(),
        ensures
            final(self).wf(),
            final(self)@ == (TerminalView { color: ColorCode(pack(fg % 16, bg % 16)), ..old(self)@ }),
            final(self)@.color.foreground() == fg % 16,
            final(self)@.color.background() == bg % 16,
    {
        self.color = ColorCode::from_u8s(fg, bg);
        assert(self@ =~= (TerminalView { color: ColorCode(pack(fg % 16, bg % 16)), ..old(self)@ }));
    }

    /// Makes the current color `color`.
    pub fn set_color(&mut self, color: ColorCode)
        requires
            old(self).wf(),
        ensures
            final(self).wf(),
            final(self)@ == (TerminalView { color, ..old(self)@ }),
    {
        self.color = color;
        assert(self@ =~= (TerminalView { color, ..old(self)@ }));
    }

    /// Prints spaces up to the next tab stop's worth of cells.
    pub fn tab(&mut self)
        requires
            old(self).wf(),
        ensures
            final(self).wf(),
            final(self)@ == old(self)@.tab(),
    {
        let mut i: usize = 0;
        while i < TAB_LENGTH
            invariant
                self.wf(),
                i <= TAB_LENGTH,
                self@ == old(self)@.put_repeated(SPACE, i as nat),
            decreases TAB_LENGTH - i,
        {
            self.put_glyph(SPACE);
            i = i + 1;
        }
    }

    /// Erases the cell before the cursor and moves the cursor onto it.
    pub fn backspace(&mut self)
        requires
            old(self).wf(),
        ensures
            final(self).wf(),
            final(self)@ == old(self)@.backspace(),
    {
        self.clear_cursor(self.col as usize, self.row as usize);
        if self.col > 0 || self.row > 0 {
            if self.col > 0 {
                self.col = self.col - 1;
            } else {
                self.row = self.row - 1;
                self.col = (SCREEN_WIDTH - 1) as u8;
            }
            let c = Character::new(SPACE, self.color);
            self.buffer.set_char(self.col as usize, self.row as usize, c);
        }
        self.cursor(self.col as usize, self.row as usize);
        assert(self@ =~= old(self)@.backspace());
    }

    /// Moves the cursor by `x` columns and `y` rows where that stays on the
    /// display; redraws it in place otherwise.
    pub fn translate_cursor(&mut self, x: isize, y: isize)
        requires
            old(self).wf(),
        ensures
            final(self).wf(),
            final(self)@ == old(self)@.translate(x as int, y as int),
    {
        self.clear_cursor(self.col as usize, self.row as usize);
        let col = self.col as isize;
        let row = self.row as isize;
        if -col <= x && x < SCREEN_WIDTH as isize - col && -row <= y && y < SCREEN_HEIGHT as isize
            - row {
            self.col = (col + x) as u8;
            self.row = (row + y) as u8;
        }
        self.cursor(self.col as usize, self.row as usize);
        assert(self@ =~= old(self)@.translate(x as int, y as int));
    }

    /// Redraws the cursor overlay at the cursor.
    pub fn update_cursor(&mut self)
        requires
            old(self).wf(),
        ensures
            final(self).wf(),
            final(self)@ == old(self)@.cursor_cleared().cursor_drawn(),
    {
        self.clear_cursor(self.col as usize, self.row as usize);
        self.cursor(self.col as usize, self.row as usize);
    }
}

/// Moves the cursor of `term` to column `x`, row `y`.
pub fn set_position(term: &mut Terminal, x: usize, y: usize)
    requires
        old(term).wf(),
        on_screen(x as int, y as int),
    ensures
        final(term).wf(),
        final(term)@ == old(term)@.cursor_cleared().moved_to(x as int, y as int).cursor_drawn(),
{
    term._set_position(x as u8, y as u8);
}

/// Printing up to one line's worth of glyphs, short of the right edge, from
/// column 0 keeps the row and leaves the cursor after the last glyph.
proof fn lemma_print_glyphs_within_row(v: TerminalView, bytes: Seq<u8>, k: int)
    requires
        v.wf(),
        v.col == 0,
        0 <= k < SCREEN_WIDTH as int,
        k <= bytes.len(),
        forall|i: int| 0 <= i < bytes.len() ==> is_printable(#[trigger] bytes[i]),
    ensures
        v.print(bytes.take(k)).wf(),
        v.print(bytes.take(k)).row == v.row,
        v.print(bytes.take(k)).col == k,
    decreases k,
{
    if k > 0 {
        lemma_print_glyphs_within_row(v, bytes, k - 1);
        assert(bytes.take(k).drop_last() =~= bytes.take(k - 1));
        assert(is_printable(bytes[k - 1]));
    } else {
        assert(bytes.take(0) =~= Seq::<u8>::empty());
    }
}

/// Printing exactly one line's worth of glyphs, with no control byte, from
/// column 0 of a row above the bottom one moves the cursor to column 0 of the
/// next row.
pub proof fn lemma_full_row_wraps(v: TerminalView, bytes: Seq<u8>)
    requires
        v.wf(),
        v.col == 0,
        v.row + 1 < SCREEN_HEIGHT as int,
        bytes.len() == SCREEN_WIDTH as int,
        forall|i: int| 0 <= i < bytes.len() ==> is_printable(#[trigger] bytes[i]),
    ensures
        v.print(bytes).wf(),
        v.print(bytes).row == v.row + 1,
        v.print(bytes).col == 0,
{
    lemma_print_glyphs_within_row(v, bytes, SCREEN_WIDTH as int - 1);
    assert(bytes.drop_last() =~= bytes.take(SCREEN_WIDTH as int - 1));
    assert(is_printable(bytes.last()));
}

/// A line feed on the bottom row scrolls: each row above the bottom one now
/// holds what the row below it held (the cursor overlay taken off first), the
/// old top row is gone, and the bottom row is blank in the current color with
/// the cursor at its start.
pub proof fn lemma_new_line_scrolls(v: TerminalView)
    requires
        v.wf(),
        v.row == SCREEN_HEIGHT as int - 1,
    ensures
        v.new_line().wf(),
        v.new_line().row == v.row,
        v.new_line().col == 0,
        forall|x: int, y: int|
            0 <= x < SCREEN_WIDTH as int && 0 <= y < SCREEN_HEIGHT as int - 1
                ==> #[trigger] v.new_line().cell(x, y) == v.cursor_cleared().cell(x, y + 1),
        forall|x: int, y: int|
            0 <= x < SCREEN_WIDTH as int && 0 <= y < SCREEN_HEIGHT as int - 2
                ==> #[trigger] v.new_line().cell(x, y) == v.cell(x, y + 1),
        forall|x: int|
            0 < x < SCREEN_WIDTH as int ==> #[trigger] v.new_line().cell(x, v.row) == blank(v.color),
        v.new_line().cell(0, v.row) == (Character {
            ascii_char: SPACE,
            color: ColorCode(CURSOR_COLOR),
        }),
{
    let w = v.new_line();
    assert forall|x: int, y: int|
        0 <= x < SCREEN_WIDTH as int && 0 <= y < SCREEN_HEIGHT as int - 1 implies (#[trigger] w.cell(
            x,
            y,
        ) == v.cursor_cleared().cell(x, y + 1)) by {
        assert(cell_index(x, y) + SCREEN_WIDTH as int == cell_index(x, y + 1));
        assert(cell_index(x, y) < cell_index(0, SCREEN_HEIGHT as int - 1));
    }
    assert forall|x: int, y: int|
        0 <= x < SCREEN_WIDTH as int && 0 <= y < SCREEN_HEIGHT as int - 2 implies (#[trigger] w.cell(
            x,
            y,
        ) == v.cell(x, y + 1)) by {
        assert(cell_index(x, y) + SCREEN_WIDTH as int == cell_index(x, y + 1));
        assert(cell_index(x, y + 1) != v.cursor_index());
    }
    assert forall|x: int|
        0 < x < SCREEN_WIDTH as int implies (#[trigger] w.cell(x, v.row) == blank(v.color)) by {
        assert(cell_index(x, v.row) >= cell_index(0, SCREEN_HEIGHT as int - 1));
    }
}

/// Backspace undoes printing one glyph: the cursor is back where it was and
/// the cell the glyph went to is back as it was, provided that cell was a
/// blank under the cursor overlay and printing did not scroll. When the cell
/// the cursor moved on to was in the current color, the whole terminal is
/// back as it was.
pub proof fn lemma_backspace_undoes_glyph(v: TerminalView, b: u8)
    requires
        v.wf(),
        is_printable(b),
        !(v.row == SCREEN_HEIGHT as int - 1 && v.col == SCREEN_WIDTH as int - 1),
        v.cells[v.cursor_index()] == (Character {
            ascii_char: SPACE,
            color: ColorCode(CURSOR_COLOR),
        }),
    ensures
        v.byte(b).backspace().wf(),
        v.byte(b).backspace().row == v.row,
        v.byte(b).backspace().col == v.col,
        v.byte(b).backspace().cells[v.cursor_index()] == v.cells[v.cursor_index()],
        v.cells[v.cursor_index() + 1].color == v.color ==> v.byte(b).backspace() == v,
{
    let w = v.byte(b).backspace();
    let i = v.cursor_index();
    if v.col == SCREEN_WIDTH as int - 1 {
        assert(v.put(b).row == v.row + 1);
        assert(v.put(b).cursor_index() == i + 1);
    } else {
        assert(v.put(b).cursor_index() == i + 1);
    }
    if v.cells[i + 1].color == v.color {
        assert(w.cells =~= v.cells);
        assert(w =~= v);
    }
}

/// Every cell is in the current color but the one under the cursor, which
/// shows the cursor overlay.
pub open spec fn uniform_color(v: TerminalView) -> bool {
    &&& forall|i: int|
        0 <= i < v.cells.len() && i != v.cursor_index() ==> (#[trigger] v.cells[i]).color == v.color
    &&& v.cells[v.cursor_index()].color == ColorCode(CURSOR_COLOR)
}

proof fn lemma_new_line_uniform(v: TerminalView)
    requires
        v.wf(),
        uniform_color(v),
    ensures
        v.new_line().wf(),
        uniform_color(v.new_line()),
        v.new_line().color == v.color,
{
    let c = v.cursor_cleared();
    assert forall|i: int| 0 <= i < c.cells.len() implies (#[trigger] c.cells[i]).color == v.color by {}
    if c.row == SCREEN_HEIGHT as int - 1 {
        let sc = scrolled(c.cells, blank(c.color));
        assert forall|i: int| 0 <= i < sc.len() implies (#[trigger] sc[i]).color == v.color by {
            if i < cell_index(0, SCREEN_HEIGHT as int - 1) {
                assert(c.cells[i + SCREEN_WIDTH as int].color == v.color);
            }
        }
    }
}

proof fn lemma_put_uniform(v: TerminalView, b: u8)
    requires
        v.wf(),
        uniform_color(v),
    ensures
        v.put(b).wf(),
        uniform_color(v.put(b)),
        v.put(b).color == v.color,
{
    let w = v.with_cells(
        v.cells.update(v.cursor_index(), Character { ascii_char: b, color: v.color }),
    );
    if v.col == SCREEN_WIDTH as int - 1 {
        let c = w.cursor_cleared();
        assert forall|i: int| 0 <= i < c.cells.len() implies (#[trigger] c.cells[i]).color == v.color by {}
        if c.row == SCREEN_HEIGHT as int - 1 {
            let sc = scrolled(c.cells, blank(c.color));
            assert forall|i: int| 0 <= i < sc.len() implies (#[trigger] sc[i]).color == v.color by {
                if i < cell_index(0, SCREEN_HEIGHT as int - 1) {
                    assert(c.cells[i + SCREEN_WIDTH as int].color == v.color);
                }
            }
        }
    }
}

proof fn lemma_put_repeated_uniform(v: TerminalView, b: u8, n: nat)
    requires
        v.wf(),
        uniform_color(v),
    ensures
        v.put_repeated(b, n).wf(),
        uniform_color(v.put_repeated(b, n)),
        v.put_repeated(b, n).color == v.color,
    decreases n,
{
    if n > 0 {
        lemma_put_repeated_uniform(v, b, (n - 1) as nat);
        lemma_put_uniform(v.put_repeated(b, (n - 1) as nat), b);
    }
}

proof fn lemma_byte_uniform(v: TerminalView, b: u8)
    requires
        v.wf(),
        uniform_color(v),
    ensures
        v.byte(b).wf(),
        uniform_color(v.byte(b)),
        v.byte(b).color == v.color,
{
    if is_printable(b) {
        lemma_put_uniform(v, b);
    } else if b == 0x0a {
        lemma_new_line_uniform(v);
    } else if b == 0x0d {
    } else if b == 0x09 {
        lemma_put_repeated_uniform(v, SPACE, TAB_LENGTH as nat);
    } else if b == BACKSPACE {
    } else {
        lemma_put_uniform(v, PLACEHOLDER_GLYPH);
    }
}

/// Printing keeps the display in one color: when every cell but the
/// cursor's is in the current color, that still holds after any bytes are
/// printed, glyphs, control bytes, line feeds and scrolls alike.
pub proof fn lemma_print_keeps_color(v: TerminalView, bytes: Seq<u8>)
    requires
        v.wf(),
        uniform_color(v),
    ensures
        v.print(bytes).wf(),
        uniform_color(v.print(bytes)),
        v.print(bytes).color == v.color,
    decreases bytes.len(),
{
    if bytes.len() > 0 {
        lemma_print_keeps_color(v, bytes.drop_last());
        lemma_byte_uniform(v.print(bytes.drop_last()), bytes.last());
    }
}

/// A glyph is written in the current color, also at the right edge, where
/// the line feed that follows takes the cursor away from it (and, on the
/// bottom row, moves it up one row).
pub proof fn lemma_glyph_in_current_color(v: TerminalView, b: u8)
    requires
        v.wf(),
    ensures
        !(v.row == SCREEN_HEIGHT as int - 1 && v.col == SCREEN_WIDTH as int - 1) ==> v.put(b).cell(
            v.col,
            v.row,
        ) == (Character { ascii_char: b, color: v.color }),
        v.row == SCREEN_HEIGHT as int - 1 && v.col == SCREEN_WIDTH as int - 1 ==> v.put(b).cell(
            v.col,
            v.row - 1,
        ) == (Character { ascii_char: b, color: v.color }),
{
    if v.row == SCREEN_HEIGHT as int - 1 && v.col == SCREEN_WIDTH as int - 1 {
        assert(cell_index(v.col, v.row - 1) + SCREEN_WIDTH as int == v.cursor_index());
    } else if v.col == SCREEN_WIDTH as int - 1 {
        assert(v.put(b).cursor_index() == v.cursor_index() + 1);
    }
}

} // verus!
