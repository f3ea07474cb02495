//! Text-mode display model: the sixteen colors, packed color attributes,
//! character cells and the row-major grid of cells.
use vstd::prelude::*;

verus! {

/// Number of character columns of the text-mode display.
pub const SCREEN_WIDTH: usize = 80;

/// Number of character rows of the text-mode display.
pub const SCREEN_HEIGHT: usize = 25;

/// Physical address at which the display hardware maps the grid.
pub const TEXT_MODE_START: usize = 0xb8000;

/// Width and height of the display, in cells.
pub fn screen_dimensions() -> (r: (usize, usize))
    ensures
        r == (SCREEN_WIDTH, SCREEN_HEIGHT),
{
    (SCREEN_WIDTH, SCREEN_HEIGHT)
}

/// The sixteen text-mode colors, in the order of their hardware numbers.
#[derive(Debug, Clone, Copy, PartialEq, Eq, Structural)]
pub enum Color {
    Black,
    Blue,
    Green,
    Cyan,
    Red,
    Magenta,
    Brown,
    LightGray,
    DarkGray,
    LightBlue,
    LightGreen,
    LightCyan,
    LightRed,
    Pink,
    Yellow,
    White,
}

impl Color {
    /// The hardware number of the color, 0 to 15.
    pub open spec fn index(self) -> u8 {
        match self {
            Color::Black => 0,
            Color::Blue => 1,
            Color::Green => 2,
            Color::Cyan => 3,
            Color::Red => 4,
            Color::Magenta => 5,
            Color::Brown => 6,
            Color::LightGray => 7,
            Color::DarkGray => 8,
            Color::LightBlue => 9,
            Color::LightGreen => 10,
            Color::LightCyan => 11,
            Color::LightRed => 12,
            Color::Pink => 13,
            Color::Yellow => 14,
            Color::White => 15,
        }
    }

    /// The color with hardware number `data`; numbers above 15 give white.
    pub open spec fn spec_from_u8(data: u8) -> Color {
        if data == 0 {
            Color::Black
        } else if data == 1 {
            Color::Blue
        } else if data == 2 {
            Color::Green
        } else if data == 3 {
            Color::Cyan
        } else if data == 4 {
            Color::Red
        } else if data == 5 {
            Color::Magenta
        } else if data == 6 {
            Color::Brown
        } else if data == 7 {
            Color::LightGray
        } else if data == 8 {
            Color::DarkGray
        } else if data == 9 {
            Color::LightBlue
        } else if data == 10 {
            Color::LightGreen
        } else if data == 11 {
            Color::LightCyan
        } else if data == 12 {
            Color::LightRed
        } else if data == 13 {
            Color::Pink
        } else if data == 14 {
            Color::Yellow
        } else {
            Color::White
        }
    }

    pub fn as_u8(self) -> (r: u8)
        ensures
            r == self.index(),
            r < 16,
    {
        match self {
            Color::Black => 0,
            Color::Blue => 1,
            Color::Green => 2,
            Color::Cyan => 3,
            Color::Red => 4,
            Color::Magenta => 5,
            Color::Brown => 6,
            Color::LightGray => 7,
            Color::DarkGray => 8,
            Color::LightBlue => 9,
            Color::LightGreen => 10,
            Color::LightCyan => 11,
            Color::LightRed => 12,
            Color::Pink => 13,
            Color::Yellow => 14,
            Color::White => 15,
        }
    }

    pub fn from_u8(data: u8) -> (r: Color)
        ensures
            r == Color::spec_from_u8(data),
            data < 16 ==> r.index() == data,
            data >= 16 ==> r == Color::White,
    {
        match data {
            0 => Color::Black,
            1 => Color::Blue,
            2 => Color::Green,
            3 => Color::Cyan,
            4 => Color::Red,
            5 => Color::Magenta,
            6 => Color::Brown,
            7 => Color::LightGray,
            8 => Color::DarkGray,
            9 => Color::LightBlue,
            10 => Color::LightGreen,
            11 => Color::LightCyan,
            12 => Color::LightRed,
            13 => Color::Pink,
            14 => Color::Yellow,
            _ => Color::White,
        }
    }
}

/// The byte that holds `fg` in its low four bits and `bg` in its high four bits.
pub open spec fn pack(fg: u8, bg: u8) -> u8
    recommends
        fg < 16,
        bg < 16,
{
    (bg * 16 + fg) as u8
}

/// A packed color attribute: foreground in bits 0 to 3, background in bits 4 to 7.
#[derive(Debug, Clone, Copy, PartialEq, Eq, Structural)]
pub struct ColorCode(pub u8);

impl ColorCode {
    /// The foreground number held in the low four bits.
    pub open spec fn foreground(self) -> u8 {
        self.0 % 16
    }

    /// The background number held in the high four bits.
    pub open spec fn background(self) -> u8 {
        self.0 / 16
    }

    pub fn new(fg: Color, bg: Color) -> (r: ColorCode)
        ensures
            r.0 == pack(fg.index(), bg.index()),
            r.foreground() == fg.index(),
            r.background() == bg.index(),
    {
        let f = fg.as_u8();
        let b = bg.as_u8();
        ColorCode(b * 16 + f)
    }

    /// The attribute whose foreground is `fg` and background `bg`, each taken
    /// modulo 16.
    pub fn from_u8s(fg: u8, bg: u8) -> (r: ColorCode)
        ensures
            r.0 == pack(fg % 16, bg % 16),
            r.foreground() == fg % 16,
            r.background() == bg % 16,
    {
        ColorCode((bg % 16) * 16 + fg % 16)
    }

    pub fn from_u8(value: u8) -> (r: ColorCode)
        ensures
            r.0 == value,
    {
        ColorCode(value)
    }

    pub fn as_u8(&mut self) -> (r: u8)
        ensures
            r == old(self).0,
            *final(self) == *old(self),
    {
        self.0
    }

    /// The background as a color.
    pub fn get_bg_color(&mut self) -> (r: Color)
        ensures
            r == Color::spec_from_u8(old(self).background()),
            r.index() == old(self).background(),
            *final(self) == *old(self),
    {
        Color::from_u8(self.as_u8() / 16)
    }

    /// The foreground as a color.
    pub fn get_fg_color(&mut self) -> (r: Color)
        ensures
            r == Color::spec_from_u8(old(self).foreground()),
            r.index() == old(self).foreground(),
            *final(self) == *old(self),
    {
        Color::from_u8(self.as_u8() % 16)
    }

    /// The background number, 0 to 15.
    pub fn get_background(&mut self) -> (r: u8)
        ensures
            r == old(self).background(),
            r < 16,
            *final(self) == *old(self),
    {
        self.as_u8() / 16
    }

    /// The foreground number, 0 to 15.
    pub fn get_foreground(&mut self) -> (r: u8)
        ensures
            r == old(self).foreground(),
            r < 16,
            *final(self) == *old(self),
    {
        self.as_u8() % 16
    }

    /// Replaces the background by `color` modulo 16 and keeps the foreground.
    pub fn set_background(&mut self, color: u8)
        ensures
            final(self).background() == color % 16,
            final(self).foreground() == old(self).foreground(),
    {
        self.0 = (color % 16) * 16 + self.0 % 16;
    }

    /// Replaces the foreground by `color` modulo 16 and keeps the background.
    pub fn set_foreground(&mut self, color: u8)
        ensures
            final(self).foreground() == color % 16,
            final(self).background() == old(self).background(),
    {
        self.0 = (self.0 / 16) * 16 + color % 16;
    }
}

/// Unpacking a packed color gives back the foreground and background it was
/// packed from.
pub proof fn lemma_color_packing_round_trip(fg: u8, bg: u8)
    requires
        fg < 16,
        bg < 16,
    ensures
        ColorCode(pack(fg, bg)).foreground() == fg,
        ColorCode(pack(fg, bg)).background() == bg,
{
}

/// One display cell: a glyph byte and its color attribute.
#[derive(Debug, Clone, Copy, PartialEq, Eq, Structural)]
pub struct Character {
    pub ascii_char: u8,
    pub color: ColorCode,
}

impl Character {
    pub fn new(ascii_char: u8, color: ColorCode) -> (r: Character)
        ensures
            r.ascii_char == ascii_char,
            r.color == color,
    {
        Character { ascii_char, color }
    }
}

/// The position of cell (`x`, `y`) in the row-major grid.
pub open spec fn cell_index(x: int, y: int) -> int {
    y * SCREEN_WIDTH as int + x
}

/// Whether (`x`, `y`) lies on the display.
pub open spec fn on_screen(x: int, y: int) -> bool {
    0 <= x < SCREEN_WIDTH as int && 0 <= y < SCREEN_HEIGHT as int
}

/// Number of cells of the display.
pub open spec fn grid_len() -> int {
    SCREEN_WIDTH as int * SCREEN_HEIGHT as int
}

/// The grid with every cell set to `c`.
pub open spec fn filled(c: Character) -> Seq<Character> {
    Seq::new(grid_len() as nat, |i: int| c)
}

/// The grid with the cells of row `y` set to `c`.
pub open spec fn with_row_filled(cells: Seq<Character>, y: int, c: Character) -> Seq<Character> {
    Seq::new(
        cells.len(),
        |i: int|
            if cell_index(0, y) <= i < cell_index(0, y + 1) {
                c
            } else {
                cells[i]
            },
    )
}

/// The grid moved up by one row: row 0 is dropped, every other row moves to the
/// row above it, and the bottom row is set to `blank`.
pub open spec fn scrolled(cells: Seq<Character>, blank: Character) -> Seq<Character> {
    Seq::new(
        cells.len(),
        |i: int|
            if i < cell_index(0, SCREEN_HEIGHT as int - 1) {
                cells[i + SCREEN_WIDTH as int]
            } else {
                blank
            },
    )
}

/// The grid with the color of cell `i` replaced, its glyph kept.
pub open spec fn with_color_at(cells: Seq<Character>, i: int, color: ColorCode) -> Seq<Character> {
    cells.update(i, Character { ascii_char: cells[i].ascii_char, color })
}

/// The cells of the display, row after row.
pub struct ScreenBuffer {
    data: Vec<Character>,
}

impl View for ScreenBuffer {
    type V = Seq<Character>;

    closed spec fn view(&self) -> Seq<Character> {
        self.data@
    }
}

impl ScreenBuffer {
    /// The grid holds exactly one cell per display position.
    pub open spec fn wf(&self) -> bool {
        self@.len() == grid_len()
    }

    /// A grid of blank cells, black on black.
    pub fn new() -> (r: ScreenBuffer)
        ensures
            r.wf(),
            r@ == filled(Character { ascii_char: 0x20, color: ColorCode(0) }),
    {
        let blank = Character::new(0x20u8, ColorCode(0));
        let mut data: Vec<Character> = Vec::new();
        let total: usize = SCREEN_WIDTH * SCREEN_HEIGHT;
        while data.len() < total
            invariant
                data.len() <= total,
                total == grid_len(),
                forall|i: int| 0 <= i < data@.len() ==> data@[i] == blank,
            decreases total - data.len(),
        {
            data.push(blank);
        }
        let r = ScreenBuffer { data };
        assert(r@ =~= filled(blank));
        r
    }

    /// The cell at column `x`, row `y`.
    pub fn get_char(&self, x: usize, y: usize) -> (r: Character)
        requires
            self.wf(),
            on_screen(x as int, y as int),
        ensures
            r == self@[cell_index(x as int, y as int)],
    {
        self.data[y * SCREEN_WIDTH + x]
    }

    /// The glyph byte at column `x`, row `y`.
    pub fn get_codepoint(&self, x: usize, y: usize) -> (r: u8)
        requires
            self.wf(),
            on_screen(x as int, y as int),
        ensures
            r == self@[cell_index(x as int, y as int)].ascii_char,
    {
        self.get_char(x, y).ascii_char
    }

    /// The foreground number at column `x`, row `y`.
    pub fn get_fg_color(&self, x: usize, y: usize) -> (r: u8)
        requires
            self.wf(),
            on_screen(x as int, y as int),
        ensures
            r == self@[cell_index(x as int, y as int)].color.foreground(),
    {
        let mut c = self.get_char(x, y).color;
        c.get_foreground()
    }

    /// The background number at column `x`, row `y`.
    pub fn get_bg_color(&self, x: usize, y: usize) -> (r: u8)
        requires
            self.wf(),
            on_screen(x as int, y as int),
        ensures
            r == self@[cell_index(x as int, y as int)].color.background(),
    {
        let mut c = self.get_char(x, y).color;
        c.get_background()
    }

    /// Writes `chr` at column `x`, row `y`.
    pub fn set_char(&mut self, x: usize, y: usize, chr: Character)
        requires
            old(self).wf(),
            on_screen(x as int, y as int),
        ensures
            final(self).wf(),
            final(self)@ == old(self)@.update(cell_index(x as int, y as int), chr),
    {
        self.data.set(y * SCREEN_WIDTH + x, chr);
    }

    /// Gives the cell at column `x`, row `y` the color `color`, keeping its glyph.
    pub fn set_cell_attribs(&mut self, x: usize, y: usize, color: ColorCode)
        requires
            old(self).wf(),
            on_screen(x as int, y as int),
        ensures
            final(self).wf(),
            final(self)@ == with_color_at(old(self)@, cell_index(x as int, y as int), color),
    {
        let c = self.get_char(x, y);
        self.set_char(x, y, Character::new(c.ascii_char, color));
    }

    /// Sets every cell to `c`.
    pub fn fill(&mut self, c: Character)
        requires
            old(self).wf(),
        ensures
            final(self).wf(),
            final(self)@ == filled(c),
    {
        let total: usize = SCREEN_WIDTH * SCREEN_HEIGHT;
        let mut i: usize = 0;
        while i < total
            invariant
                self.wf(),
                total == grid_len(),
                i <= total,
                forall|j: int| 0 <= j < i ==> self@[j] == c,
            decreases total - i,
        {
            self.data.set(i, c);
            i = i + 1;
        }
        assert(self@ =~= filled(c));
    }

    /// Sets every cell of row `y` to `c`.
    pub fn fill_row(&mut self, y: usize, c: Character)
        requires
            old(self).wf(),
            y < SCREEN_HEIGHT,
        ensures
            final(self).wf(),
            final(self)@ == with_row_filled(old(self)@, y as int, c),
    {
        let start: usize = y * SCREEN_WIDTH;
        let mut x: usize = 0;
        while x < SCREEN_WIDTH
            invariant
                self.wf(),
                y < SCREEN_HEIGHT,
                start == cell_index(0, y as int),
                x <= SCREEN_WIDTH,
                forall|j: int|
                    0 <= j < grid_len() ==> self@[j] == (if start <= j < start + x {
                        c
                    } else {
                        old(self)@[j]
                    }),
            decreases SCREEN_WIDTH - x,
        {
            self.data.set(start + x, c);
            x = x + 1;
        }
        assert(self@ =~= with_row_filled(old(self)@, y as int, c));
    }

    /// Moves every row up by one, dropping row 0, and sets the bottom row to
    /// `blank`.
    pub fn scroll_up(&mut self, blank: Character)
        requires
            old(self).wf(),
        ensures
            final(self).wf(),
            final(self)@ == scrolled(old(self)@, blank),
    {
        let last: usize = (SCREEN_HEIGHT - 1) * SCREEN_WIDTH;
        let mut i: usize = 0;
        while i < last
            invariant
                self.wf(),
                old(self).wf(),
                last == cell_index(0, SCREEN_HEIGHT as int - 1),
                i <= last,
                forall|j: int|
                    0 <= j < grid_len() ==> self@[j] == (if j < i {
                        old(self)@[j + SCREEN_WIDTH as int]
                    } else {
                        old(self)@[j]
                    }),
            decreases last - i,
        {
            let c = self.data[i + SCREEN_WIDTH];
            self.data.set(i, c);
            i = i + 1;
        }
        self.fill_row(SCREEN_HEIGHT - 1, blank);
        assert(self@ =~= scrolled(old(self)@, blank));
    }
}

} // verus!
