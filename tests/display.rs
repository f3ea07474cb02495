use kernal::terminal::{set_position, Terminal, CURSOR_COLOR, DEFAULT_COLOR, PLACEHOLDER_GLYPH};
use kernal::vga::{screen_dimensions, Character, Color, ColorCode, ScreenBuffer};

fn cell(t: &Terminal, x: usize, y: usize) -> Character {
    t.get_char(x, y)
}

fn glyphs(b: u8, n: usize) -> String {
    std::iter::repeat(b as char).take(n).collect()
}

#[test]
fn screen_dimensions_are_80_by_25() {
    assert_eq!(screen_dimensions(), (80, 25));
}

#[test]
fn color_from_u8_maps_numbers() {
    assert_eq!(Color::from_u8(0), Color::Black);
    assert_eq!(Color::from_u8(4), Color::Red);
    assert_eq!(Color::from_u8(14), Color::Yellow);
    assert_eq!(Color::from_u8(15), Color::White);
    assert_eq!(Color::from_u8(16), Color::White);
    assert_eq!(Color::from_u8(255), Color::White);
    for n in 0u8..16 {
        assert_eq!(Color::from_u8(n).as_u8(), n);
    }
}

#[test]
fn color_code_new_packs_background_high() {
    let mut c = ColorCode::new(Color::White, Color::Blue);
    assert_eq!(c.as_u8(), 0x1F);
    let mut d = ColorCode::new(Color::Black, Color::White);
    assert_eq!(d.as_u8(), 0xF0);
}

#[test]
fn color_packing_round_trip() {
    for fg in 0u8..16 {
        for bg in 0u8..16 {
            let mut c = ColorCode::new(Color::from_u8(fg), Color::from_u8(bg));
            assert_eq!(c.get_foreground(), fg);
            assert_eq!(c.get_background(), bg);
            assert_eq!(c.get_fg_color(), Color::from_u8(fg));
            assert_eq!(c.get_bg_color(), Color::from_u8(bg));
            let mut d = ColorCode::from_u8s(fg, bg);
            assert_eq!(d.as_u8(), c.as_u8());
        }
    }
}

#[test]
fn color_code_from_u8s_keeps_low_nibbles() {
    let mut c = ColorCode::from_u8s(0x1E, 0x24);
    assert_eq!(c.get_foreground(), 0x0E);
    assert_eq!(c.get_background(), 0x04);
    assert_eq!(c.as_u8(), 0x4E);
}

#[test]
fn color_code_getters_read_nibbles() {
    let mut c = ColorCode::from_u8(0x4E);
    assert_eq!(c.get_bg_color(), Color::Red);
    assert_eq!(c.get_fg_color(), Color::Yellow);
    assert_eq!(c.get_background(), 4);
    assert_eq!(c.get_foreground(), 14);
}

#[test]
fn color_code_setters_keep_other_half() {
    let mut c = ColorCode::from_u8(0x1F);
    c.set_background(4);
    assert_eq!(c.as_u8(), 0x4F);
    c.set_foreground(2);
    assert_eq!(c.as_u8(), 0x42);
    c.set_background(0x35);
    assert_eq!(c.as_u8(), 0x52);
}

#[test]
fn character_new_holds_fields() {
    let c = Character::new(b'x', ColorCode(0x1F));
    assert_eq!(c.ascii_char, b'x');
    assert_eq!(c.color, ColorCode(0x1F));
}

#[test]
fn screen_buffer_set_and_get() {
    let mut b = ScreenBuffer::new();
    assert_eq!(b.get_char(79, 24), Character::new(b' ', ColorCode(0)));
    b.set_char(3, 2, Character::new(b'q', ColorCode(0x4E)));
    assert_eq!(b.get_codepoint(3, 2), b'q');
    assert_eq!(b.get_fg_color(3, 2), 14);
    assert_eq!(b.get_bg_color(3, 2), 4);
    b.set_cell_attribs(3, 2, ColorCode(0x12));
    assert_eq!(b.get_char(3, 2), Character::new(b'q', ColorCode(0x12)));
    b.scroll_up(Character::new(b'-', ColorCode(7)));
    assert_eq!(b.get_char(3, 1), Character::new(b'q', ColorCode(0x12)));
    assert_eq!(b.get_char(3, 2), Character::new(b' ', ColorCode(0)));
    assert_eq!(b.get_char(0, 24), Character::new(b'-', ColorCode(7)));
}

#[test]
fn new_terminal_starts_at_origin() {
    let t = Terminal::new();
    assert_eq!(t.position(), (0, 0));
    assert_eq!(t.color(), ColorCode(DEFAULT_COLOR));
    assert_eq!(cell(&t, 0, 0), Character::new(b' ', ColorCode(0)));
}

#[test]
fn printing_a_glyph_writes_cell_and_draws_cursor() {
    let mut t = Terminal::new();
    t.print("a");
    assert_eq!(t.position(), (1, 0));
    assert_eq!(cell(&t, 0, 0), Character::new(b'a', ColorCode(DEFAULT_COLOR)));
    assert_eq!(cell(&t, 1, 0), Character::new(b' ', ColorCode(CURSOR_COLOR)));
}

#[test]
fn full_row_of_glyphs_wraps_to_next_row() {
    let mut t = Terminal::new();
    t.print(&glyphs(b'a', 80));
    assert_eq!(t.position(), (0, 1));
    assert_eq!(cell(&t, 79, 0).ascii_char, b'a');
    let mut u = Terminal::new();
    u.print(&glyphs(b'a', 79));
    assert_eq!(u.position(), (79, 0));
}

#[test]
fn filling_every_row_scrolls_up_by_one() {
    let mut t = Terminal::new();
    for y in 0..25u8 {
        t.print(&glyphs(b'A' + y, 80));
    }
    assert_eq!(t.position(), (0, 24));
    for y in 0..24usize {
        for x in 0..80usize {
            assert_eq!(cell(&t, x, y).ascii_char, b'A' + y as u8 + 1);
        }
    }
    assert_eq!(cell(&t, 0, 24), Character::new(b' ', ColorCode(CURSOR_COLOR)));
    for x in 1..80usize {
        assert_eq!(cell(&t, x, 24), Character::new(b' ', ColorCode(DEFAULT_COLOR)));
    }
}

#[test]
fn backspace_undoes_one_glyph() {
    let mut t = Terminal::new();
    t._clear();
    t.print("hello");
    let before_pos = t.position();
    let before_cell = cell(&t, 5, 0);
    let before_next = cell(&t, 6, 0);
    t.print("x");
    t.backspace();
    assert_eq!(t.position(), before_pos);
    assert_eq!(cell(&t, 5, 0), before_cell);
    assert_eq!(cell(&t, 6, 0), before_next);
}

#[test]
fn backspace_undoes_glyph_at_right_edge() {
    let mut t = Terminal::new();
    t._clear();
    t.print(&glyphs(b'z', 79));
    let before_cell = cell(&t, 79, 0);
    t.print("x");
    assert_eq!(t.position(), (0, 1));
    t.backspace();
    assert_eq!(t.position(), (79, 0));
    assert_eq!(cell(&t, 79, 0), before_cell);
}

#[test]
fn backspace_at_column_zero_wraps_to_previous_row() {
    let mut t = Terminal::new();
    t.print("ab\n");
    assert_eq!(t.position(), (0, 1));
    t.backspace();
    assert_eq!(t.position(), (79, 0));
    assert_eq!(cell(&t, 79, 0), Character::new(b' ', ColorCode(CURSOR_COLOR)));
}

#[test]
fn backspace_at_origin_stays() {
    let mut t = Terminal::new();
    t.backspace();
    assert_eq!(t.position(), (0, 0));
    assert_eq!(cell(&t, 0, 0), Character::new(b' ', ColorCode(CURSOR_COLOR)));
}

#[test]
fn control_bytes_move_the_cursor() {
    let mut t = Terminal::new();
    t.print("ab\r");
    assert_eq!(t.position(), (0, 0));
    t.print("ab\n");
    assert_eq!(t.position(), (0, 1));
    t.print("\t");
    assert_eq!(t.position(), (4, 1));
    t.print("cd\u{8}");
    assert_eq!(t.position(), (5, 1));
    assert_eq!(cell(&t, 5, 1), Character::new(b' ', ColorCode(CURSOR_COLOR)));
    assert_eq!(cell(&t, 4, 1).ascii_char, b'c');
}

#[test]
fn unprintable_bytes_become_placeholder() {
    let mut t = Terminal::new();
    t.print("\u{e9}");
    assert_eq!(t.position(), (2, 0));
    assert_eq!(cell(&t, 0, 0).ascii_char, PLACEHOLDER_GLYPH);
    assert_eq!(cell(&t, 1, 0).ascii_char, PLACEHOLDER_GLYPH);
    t.print("\u{1}");
    assert_eq!(cell(&t, 2, 0).ascii_char, PLACEHOLDER_GLYPH);
}

#[test]
fn print_char_prints_ascii_and_placeholder() {
    let mut t = Terminal::new();
    t.print_char('k');
    t.print_char('\u{263a}');
    assert_eq!(cell(&t, 0, 0).ascii_char, b'k');
    for x in 1..4 {
        assert_eq!(cell(&t, x, 0).ascii_char, PLACEHOLDER_GLYPH);
    }
    assert_eq!(t.position(), (4, 0));
    t.print_char('\u{e9}');
    assert_eq!(t.position(), (6, 0));
}

#[test]
fn tab_prints_four_spaces() {
    let mut t = Terminal::new();
    t.print("xxxxxx");
    t.carriage_return();
    t.tab();
    assert_eq!(t.position(), (4, 0));
    for x in 0..4 {
        assert_eq!(cell(&t, x, 0), Character::new(b' ', ColorCode(DEFAULT_COLOR)));
    }
    assert_eq!(cell(&t, 5, 0).ascii_char, b'x');
}

#[test]
fn color_setters_change_one_half() {
    let mut t = Terminal::new();
    t.set_bg_color(4);
    assert_eq!(t.color(), ColorCode(0x4F));
    t.set_fg_color(0x12);
    assert_eq!(t.color(), ColorCode(0x42));
    t.set_background(Color::Green);
    assert_eq!(t.color(), ColorCode(0x22));
    t.set_foreground(Color::White);
    assert_eq!(t.color(), ColorCode(0x2F));
    t.set_color_u8(0x0E, 0x01);
    assert_eq!(t.color(), ColorCode(0x1E));
    t.set_color(ColorCode(0x70));
    assert_eq!(t.color(), ColorCode(0x70));
    t.print("q");
    assert_eq!(cell(&t, 0, 0), Character::new(b'q', ColorCode(0x70)));
}

#[test]
fn clear_blanks_every_cell_in_current_color() {
    let mut t = Terminal::new();
    t.print("abc\ndef");
    t.set_color_u8(2, 0);
    t._clear();
    assert_eq!(t.position(), (3, 1));
    for y in 0..25 {
        for x in 0..80 {
            assert_eq!(cell(&t, x, y), Character::new(b' ', ColorCode(0x02)));
        }
    }
}

#[test]
fn clear_row_blanks_cursor_row_only() {
    let mut t = Terminal::new();
    t.print("abc\ndef");
    t._clear_row();
    assert_eq!(cell(&t, 0, 0).ascii_char, b'a');
    for x in 0..80 {
        assert_eq!(cell(&t, x, 1), Character::new(b' ', ColorCode(DEFAULT_COLOR)));
    }
}

#[test]
fn set_position_moves_cursor_overlay() {
    let mut t = Terminal::new();
    t.update_cursor();
    assert_eq!(cell(&t, 0, 0).color, ColorCode(CURSOR_COLOR));
    t._set_position(10, 5);
    assert_eq!(t.position(), (10, 5));
    assert_eq!(cell(&t, 0, 0).color, ColorCode(DEFAULT_COLOR));
    assert_eq!(cell(&t, 10, 5).color, ColorCode(CURSOR_COLOR));
    set_position(&mut t, 79, 24);
    assert_eq!(t.position(), (79, 24));
    t.reset_cursor();
    assert_eq!(t.position(), (0, 0));
}

#[test]
fn translate_cursor_moves_only_within_display() {
    let mut t = Terminal::new();
    t._set_position(5, 5);
    t.translate_cursor(2, -1);
    assert_eq!(t.position(), (7, 4));
    t.translate_cursor(-8, 0);
    assert_eq!(t.position(), (7, 4));
    t.translate_cursor(72, 20);
    assert_eq!(t.position(), (79, 24));
    t.translate_cursor(1, 0);
    assert_eq!(t.position(), (79, 24));
    t.translate_cursor(isize::MIN, isize::MAX);
    assert_eq!(t.position(), (79, 24));
    assert_eq!(cell(&t, 79, 24).color, ColorCode(CURSOR_COLOR));
    assert_eq!(cell(&t, 7, 4).color, ColorCode(DEFAULT_COLOR));
}

#[test]
fn cursor_and_clear_cursor_recolor_a_cell() {
    let mut t = Terminal::new();
    t.print("m");
    t.cursor(0, 0);
    assert_eq!(cell(&t, 0, 0), Character::new(b'm', ColorCode(CURSOR_COLOR)));
    t.clear_cursor(0, 0);
    assert_eq!(cell(&t, 0, 0), Character::new(b'm', ColorCode(DEFAULT_COLOR)));
    assert_eq!(t.get_column(), 1);
}

#[test]
fn numbered_lines_scroll_after_one_more_line_feed() {
    let mut t = Terminal::new();
    for n in 0..25 {
        t.print(&n.to_string());
        if n < 24 {
            t.print("\n");
        }
    }
    assert_eq!(t.position(), (2, 24));
    t.print("\n");
    assert_eq!(t.position(), (0, 24));
    for y in 0..24usize {
        let text = (y + 1).to_string();
        for (x, b) in text.bytes().enumerate() {
            assert_eq!(cell(&t, x, y).ascii_char, b);
        }
        assert_eq!(cell(&t, text.len(), y).ascii_char, b' ');
    }
    assert_eq!(cell(&t, 0, 24), Character::new(b' ', ColorCode(CURSOR_COLOR)));
    assert_eq!(cell(&t, 1, 24), Character::new(b' ', ColorCode(DEFAULT_COLOR)));
}

#[test]
fn clearing_the_cursor_restores_the_current_color() {
    let mut t = Terminal::new();
    t.set_color_u8(0x0E, 0x04);
    t.print("ab");
    assert_eq!(cell(&t, 2, 0).color, ColorCode(CURSOR_COLOR));
    t.clear_cursor(2, 0);
    assert_eq!(cell(&t, 2, 0).color, ColorCode(0x4E));
    t.print("\n");
    assert_eq!(cell(&t, 2, 0).color, ColorCode(0x4E));
    assert_eq!(cell(&t, 1, 0), Character::new(b'b', ColorCode(0x4E)));
}

#[test]
fn glyph_at_right_edge_keeps_current_color() {
    let mut t = Terminal::new();
    t.set_color_u8(0x02, 0x00);
    t.print(&glyphs(b'g', 80));
    assert_eq!(t.position(), (0, 1));
    assert_eq!(cell(&t, 79, 0), Character::new(b'g', ColorCode(0x02)));
    let mut u = Terminal::new();
    u.set_color_u8(0x02, 0x00);
    u._set_position(79, 24);
    u.print("h");
    assert_eq!(u.position(), (0, 24));
    assert_eq!(cell(&u, 79, 23), Character::new(b'h', ColorCode(0x02)));
}
