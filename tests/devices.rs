use kernal::interrupts::{
    breakpoint, keyboard_interrupt, run_fatal_fault, shortcut_for, show_fatal_error,
    timer_interrupt, FatalAction, FatalFault, Shortcut,
};
use kernal::keyboard::{raw_key, set_leds_state, unicode_key, KeyboardDecoder};
use kernal::pics::{ChainedPics, InterruptIndex, PIC_1_OFFSET, PIC_2_OFFSET};
use kernal::pit::{reload_value, set_reload_value, set_tick_rate};
use kernal::port::PortOp;
use kernal::terminal::{Terminal, CURSOR_COLOR, DEFAULT_COLOR};
use kernal::traits::Printer;
use kernal::vga::{Character, ColorCode};
use pc_keyboard::{DecodedKey, KeyCode};

fn w(port: u16, value: u8) -> PortOp {
    PortOp::Write { port, value }
}

fn pics() -> ChainedPics {
    ChainedPics::new(PIC_1_OFFSET, PIC_2_OFFSET)
}

#[test]
fn reload_value_divides_oscillator_frequency() {
    assert_eq!(reload_value(1000), 1193);
    assert_eq!(reload_value(100), 11931);
    assert_eq!(reload_value(19), 62799);
}

#[test]
fn reload_value_clamps_to_bounds() {
    assert_eq!(reload_value(1), 65535);
    assert_eq!(reload_value(18), 65535);
    assert_eq!(reload_value(100_000), 18);
    assert_eq!(reload_value(2_000_000), 18);
    assert_eq!(reload_value(usize::MAX), 18);
}

#[test]
fn set_reload_value_sends_command_then_low_then_high() {
    assert_eq!(set_reload_value(0x04A9), vec![w(0x43, 0x34), w(0x40, 0xA9), w(0x40, 0x04)]);
    assert_eq!(set_reload_value(0xFFFF), vec![w(0x43, 0x34), w(0x40, 0xFF), w(0x40, 0xFF)]);
}

#[test]
fn set_tick_rate_rejects_zero() {
    assert_eq!(set_tick_rate(0), None);
    assert_eq!(
        set_tick_rate(1000),
        Some(vec![w(0x43, 0x34), w(0x40, 0xA9), w(0x40, 0x04)])
    );
    assert_eq!(set_tick_rate(usize::MAX), Some(vec![w(0x43, 0x34), w(0x40, 18), w(0x40, 0)]));
}

#[test]
fn interrupt_index_vectors() {
    assert_eq!(InterruptIndex::Timer.as_u8(), 32);
    assert_eq!(InterruptIndex::Keyboard.as_u8(), 33);
    assert_eq!(InterruptIndex::Keyboard.as_usize(), 33);
}

#[test]
fn pics_handle_their_sixteen_lines() {
    let p = pics();
    assert!(!p.handles_interrupt(31));
    assert!(p.handles_interrupt(32));
    assert!(p.handles_interrupt(47));
    assert!(!p.handles_interrupt(48));
    assert!(p.master.handles_interrupt(39));
    assert!(!p.master.handles_interrupt(40));
    assert!(p.slave.handles_interrupt(40));
}

#[test]
fn initialize_sends_four_bytes_to_each_controller() {
    let wait = w(0x80, 0);
    let ops = pics().initialize(0xB8, 0x8E);
    assert_eq!(
        ops,
        vec![
            w(0x20, 0x11),
            wait,
            w(0xA0, 0x11),
            wait,
            w(0x21, 32),
            wait,
            w(0xA1, 40),
            wait,
            w(0x21, 4),
            wait,
            w(0xA1, 2),
            wait,
            w(0x21, 1),
            wait,
            w(0xA1, 1),
            wait,
            w(0x21, 0xB8),
            w(0xA1, 0x8E),
            w(0x21, 0xB8),
        ]
    );
    let unmasked = pics().initialize(0xFF, 0xFF);
    assert_eq!(unmasked[18], w(0x21, 0xFC));
}

#[test]
fn end_of_interrupt_goes_to_owning_controller() {
    let p = pics();
    assert_eq!(p.notify_end_of_interrupt(33), vec![w(0x20, 0x20)]);
    assert_eq!(p.notify_end_of_interrupt(44), vec![w(0xA0, 0x20), w(0x20, 0x20)]);
    assert_eq!(p.notify_end_of_interrupt(3), vec![]);
}

#[test]
fn timer_interrupt_counts_and_acknowledges() {
    let p = pics();
    let mut ticks: u64 = 41;
    assert_eq!(timer_interrupt(&mut ticks, &p), vec![w(0x20, 0x20)]);
    assert_eq!(ticks, 42);
    ticks = u64::MAX;
    timer_interrupt(&mut ticks, &p);
    assert_eq!(ticks, 0);
}

#[test]
fn keyboard_interrupt_acknowledges_without_event() {
    let p = pics();
    let mut t = Terminal::new();
    t.print("ab");
    let ops = keyboard_interrupt(&mut t, &p, None);
    assert_eq!(ops, vec![w(0x20, 0x20)]);
    assert_eq!(t.position(), (2, 0));
    let ops = keyboard_interrupt(&mut t, &p, Some(DecodedKey::RawKey(KeyCode::F2)));
    assert_eq!(ops, vec![w(0x20, 0x20)]);
    assert_eq!(t.position(), (2, 0));
}

#[test]
fn keyboard_interrupt_prints_character() {
    let p = pics();
    let mut t = Terminal::new();
    let ops = keyboard_interrupt(&mut t, &p, Some(DecodedKey::Unicode('z')));
    assert_eq!(ops, vec![w(0x20, 0x20)]);
    assert_eq!(t.get_char(0, 0), Character::new(b'z', ColorCode(DEFAULT_COLOR)));
    assert_eq!(t.position(), (1, 0));
}

#[test]
fn keyboard_interrupt_backspace_erases() {
    let p = pics();
    let mut t = Terminal::new();
    t.print("ab");
    let ops = keyboard_interrupt(&mut t, &p, Some(DecodedKey::Unicode('\u{8}')));
    assert_eq!(ops, vec![w(0x20, 0x20)]);
    assert_eq!(t.position(), (1, 0));
    assert_eq!(t.get_char(1, 0), Character::new(b' ', ColorCode(CURSOR_COLOR)));
}

#[test]
fn keyboard_interrupt_f1_clears_and_homes() {
    let p = pics();
    let mut t = Terminal::new();
    t.print("abc\ndef");
    let ops = keyboard_interrupt(&mut t, &p, Some(DecodedKey::RawKey(KeyCode::F1)));
    assert_eq!(ops, vec![w(0x20, 0x20)]);
    assert_eq!(t.position(), (0, 0));
    assert_eq!(t.get_char(0, 0), Character::new(b' ', ColorCode(CURSOR_COLOR)));
    assert_eq!(t.get_char(1, 1), Character::new(b' ', ColorCode(DEFAULT_COLOR)));
}

#[test]
fn shortcut_table_binds_f1_only() {
    assert_eq!(shortcut_for(KeyCode::F1), Some(Shortcut::ClearAndHome));
    assert_eq!(shortcut_for(KeyCode::F2), None);
    assert_eq!(shortcut_for(KeyCode::Escape), None);
}

#[test]
fn decoder_turns_scancodes_into_keys() {
    let mut k = KeyboardDecoder::new();
    assert_eq!(k.read_key(0x1E), Some(DecodedKey::Unicode('a')));
    assert_eq!(k.read_key(0x9E), None);
    assert_eq!(k.read_key(0x3B), Some(DecodedKey::RawKey(KeyCode::F1)));
    assert_eq!(k.read_key(0x0E), Some(DecodedKey::Unicode('\u{8}')));
}

#[test]
fn decoder_keeps_modifier_state_across_bytes() {
    let mut k = KeyboardDecoder::new();
    assert_eq!(k.read_key(0x2A), None);
    assert_eq!(k.read_unicode_key(0x1E), Some('A'));
    assert_eq!(k.read_key(0xAA), None);
    assert_eq!(k.read_unicode_key(0x1E), Some('a'));
    assert_eq!(k.read_rawkey(0x3B), Some(KeyCode::F1));
    assert_eq!(k.read_rawkey(0x1E), None);
}

#[test]
fn decoder_waits_for_extended_sequences() {
    let mut k = KeyboardDecoder::new();
    assert_eq!(k.read_key(0xE0), None);
    assert_eq!(k.read_key(0x48), Some(DecodedKey::RawKey(KeyCode::ArrowUp)));
}

#[test]
fn key_classification() {
    assert_eq!(unicode_key(Some(DecodedKey::Unicode('q'))), Some('q'));
    assert_eq!(unicode_key(Some(DecodedKey::RawKey(KeyCode::F1))), None);
    assert_eq!(unicode_key(None), None);
    assert_eq!(raw_key(Some(DecodedKey::RawKey(KeyCode::F1))), Some(KeyCode::F1));
    assert_eq!(raw_key(Some(DecodedKey::Unicode('q'))), None);
}

#[test]
fn set_leds_state_writes_command_and_bits() {
    assert_eq!(
        set_leds_state(0b101),
        vec![w(0x60, 0xED), PortOp::Read { port: 0x60 }, w(0x60, 0b101), PortOp::Read { port: 0x60 }]
    );
}

#[test]
fn breakpoint_clears_and_prints_frame() {
    let mut t = Terminal::new();
    t.print("junk\njunk");
    breakpoint(&mut t, "frame");
    let header = b"EXCEPTION: BREAKPOINT";
    for (x, b) in header.iter().enumerate() {
        assert_eq!(t.get_char(x, 0).ascii_char, *b);
    }
    for (x, b) in b"frame".iter().enumerate() {
        assert_eq!(t.get_char(x, 1).ascii_char, *b);
    }
    assert_eq!(t.position(), (0, 2));
    assert_eq!(t.get_char(5, 1), Character::new(b' ', ColorCode(DEFAULT_COLOR)));
}

#[test]
fn fatal_error_screen_is_red() {
    let mut t = Terminal::new();
    show_fatal_error(&mut t, "boom");
    assert_eq!(t.color(), ColorCode(0x4F));
    assert_eq!(t.get_char(0, 0), Character::new(b'b', ColorCode(0x4F)));
    assert_eq!(t.get_char(79, 24), Character::new(b' ', ColorCode(0x4F)));
    assert_eq!(t.position(), (0, 1));
}

#[test]
fn double_fault_reports_once_then_halts() {
    let mut f = FatalFault::new();
    assert_eq!(f.next_action(), FatalAction::ReportFrame);
    for _ in 0..10 {
        assert_eq!(f.next_action(), FatalAction::Halt);
    }
    let run = run_fatal_fault(6);
    assert_eq!(run.len(), 6);
    assert_eq!(run[0], FatalAction::ReportFrame);
    assert_eq!(run.iter().filter(|a| **a == FatalAction::ReportFrame).count(), 1);
    assert!(run_fatal_fault(0).is_empty());
}

#[test]
fn terminal_prints_through_printer_trait() {
    let mut t = Terminal::new();
    t.print_str("hi");
    Printer::new_line(&mut t);
    Printer::tab(&mut t);
    assert_eq!(t.position(), (4, 1));
    Printer::carriage_return(&mut t);
    assert_eq!(t.position(), (0, 1));
    assert_eq!(t.get_char(1, 0).ascii_char, b'i');
}

#[test]
fn decoder_reports_nothing_for_partial_and_rejected_bytes() {
    let mut k = KeyboardDecoder::new();
    assert_eq!(k.read_key(0xE0), None);
    assert_eq!(k.read_unicode_key(0xC8), None);
    assert_eq!(k.read_rawkey(0x00), None);
    assert_eq!(k.read_key(0x1E), Some(DecodedKey::Unicode('a')));
}

#[test]
fn f1_clears_in_the_current_color() {
    let p = pics();
    let mut t = Terminal::new();
    t.set_color_u8(0x0E, 0x02);
    t.print("abc\ndef");
    keyboard_interrupt(&mut t, &p, Some(DecodedKey::RawKey(KeyCode::F1)));
    assert_eq!(t.position(), (0, 0));
    assert_eq!(t.get_char(0, 0), Character::new(b' ', ColorCode(CURSOR_COLOR)));
    for y in 0..25 {
        for x in 0..80 {
            if (x, y) != (0, 0) {
                assert_eq!(t.get_char(x, y), Character::new(b' ', ColorCode(0x2E)));
            }
        }
    }
}

#[test]
fn fatal_screen_is_red_everywhere_but_the_cursor() {
    let mut t = Terminal::new();
    t.print("some text");
    show_fatal_error(&mut t, "");
    assert_eq!(t.position(), (0, 1));
    for y in 0..25 {
        for x in 0..80 {
            if (x, y) != (0, 1) {
                assert_eq!(t.get_char(x, y).color, ColorCode(0x4F));
            }
        }
    }
}

#[test]
fn breakpoint_screen_is_in_the_current_color() {
    let mut t = Terminal::new();
    t.set_color_u8(0x0F, 0x00);
    t.print("xyz");
    breakpoint(&mut t, "frame");
    assert_eq!(t.position(), (0, 2));
    for y in 0..25 {
        for x in 0..80 {
            if (x, y) != (0, 2) {
                assert_eq!(t.get_char(x, y).color, ColorCode(0x0F));
            }
        }
    }
}
