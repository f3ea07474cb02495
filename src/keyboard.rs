//! The keyboard: scancode decoding, kept in a decoder whose state lives across
//! interrupts, and the port protocol that sets the keyboard's lights.
use vstd::prelude::*;
use pc_keyboard::layouts::Us104Key;
use pc_keyboard::{DecodedKey, HandleControl, KeyCode, KeyEvent, Keyboard, ScancodeSet1};
use crate::port::PortOp;

verus! {

/// `pc_keyboard::KeyEvent`, a key transition as the decoder reports it; carried
/// from `add_byte` to `process_keyevent` unread.
#[verifier::external_type_specification]
#[verifier::external_body]
pub struct ExKeyEvent(KeyEvent);

/// `pc_keyboard::Error`, a scancode byte the decoder rejects; only told apart
/// from success.
#[verifier::external_type_specification]
#[verifier::external_body]
pub struct ExKeyboardError(pc_keyboard::Error);

/// `pc_keyboard::DecodedKey`: a character, or a key code for a key that has
/// none. Its two variants are read by the handlers.
#[verifier::external_type_specification]
pub struct ExDecodedKey(DecodedKey);

/// `pc_keyboard::KeyCode`, the fieldless enum of keys; shortcuts are bound
/// to its variants.
#[verifier::external_type_specification]
pub struct ExKeyCode(KeyCode);

/// Scancode decoding state for the US 104-key layout and scancode set 1: the
/// bytes of a key transition seen so far and the modifier keys held. One
/// logical key action may span several interrupts, so this lives as long as
/// the kernel.
#[verifier::external_body]
pub struct KeyboardDecoder {
    keyboard: Keyboard<Us104Key, ScancodeSet1>,
}

/// The scancode bytes fed to `d` since it was made, oldest first.
pub uninterp spec fn fed_bytes(d: KeyboardDecoder) -> Seq<u8>;

/// The key events handed to `d` for decoding since it was made, oldest first.
pub uninterp spec fn events_taken(d: KeyboardDecoder) -> Seq<KeyEvent>;

/// What a fresh decoder's `add_byte` returns for the last of `bytes` once it
/// has been fed all of them in order. The decoding state it reads is changed
/// by `add_byte` alone, so this depends on the bytes alone.
pub uninterp spec fn byte_event(bytes: Seq<u8>) -> Result<Option<KeyEvent>, pc_keyboard::Error>;

/// What a fresh decoder's `process_keyevent` returns for the last of `events`
/// once it has been handed all of them in order. The modifier state it reads
/// is changed by `process_keyevent` alone, so this depends on the events alone.
pub uninterp spec fn key_of(events: Seq<KeyEvent>) -> Option<DecodedKey>;

/// The event, if any, that feeding `scancode` to `d` completes.
pub open spec fn next_event(d: KeyboardDecoder, scancode: u8) -> Option<KeyEvent> {
    match byte_event(fed_bytes(d).push(scancode)) {
        Ok(Some(e)) => Some(e),
        _ => None,
    }
}

/// The key that feeding `scancode` to `d` decodes: `None` while a sequence is
/// partial, for a byte the decoder rejects, and for an event that gives no key
/// (a release, a modifier key).
pub open spec fn decoded_key(d: KeyboardDecoder, scancode: u8) -> Option<DecodedKey> {
    match next_event(d, scancode) {
        Some(e) => key_of(events_taken(d).push(e)),
        None => None,
    }
}

/// `d` after `scancode`: the byte joins the bytes fed, and the event it
/// completes, if any, joins the events taken.
pub open spec fn fed_with(after: KeyboardDecoder, before: KeyboardDecoder, scancode: u8) -> bool {
    &&& fed_bytes(after) == fed_bytes(before).push(scancode)
    &&& events_taken(after) == match next_event(before, scancode) {
        Some(e) => events_taken(before).push(e),
        None => events_taken(before),
    }
}

impl KeyboardDecoder {
    /// Relies on `pc_keyboard::Keyboard::new`: a decoder in its start state,
    /// passing Ctrl through, that has been fed nothing.
    #[verifier::external_body]
    fn start() -> (r: KeyboardDecoder)
        ensures
            fed_bytes(r) == Seq::<u8>::empty(),
            events_taken(r) == Seq::<KeyEvent>::empty(),
    {
        KeyboardDecoder { keyboard: Keyboard::new(Us104Key, ScancodeSet1, HandleControl::Ignore) }
    }

    /// A decoder that has seen no byte yet, with no modifier key held.
    pub fn new() -> (r: KeyboardDecoder)
        ensures
            fed_bytes(r) == Seq::<u8>::empty(),
            events_taken(r) == Seq::<KeyEvent>::empty(),
    {
        KeyboardDecoder::start()
    }

    /// Relies on `pc_keyboard::Keyboard::add_byte`: one scancode byte fed to
    /// the decoder's state machine; an event once a whole key transition has
    /// come in. It changes the decoding state and nothing else.
    #[verifier::external_body]
    fn add_byte(&mut self, byte: u8) -> (r: Result<Option<KeyEvent>, pc_keyboard::Error>)
        ensures
            fed_bytes(*final(self)) == fed_bytes(*old(self)).push(byte),
            events_taken(*final(self)) == events_taken(*old(self)),
            r == byte_event(fed_bytes(*final(self))),
    {
        self.keyboard.add_byte(byte)
    }

    /// Relies on `pc_keyboard::Keyboard::process_keyevent`: a key event turned
    /// into a key, or taken in as a change of the modifier keys. It changes the
    /// modifier state and nothing else.
    #[verifier::external_body]
    fn process_keyevent(&mut self, ev: KeyEvent) -> (r: Option<DecodedKey>)
        ensures
            events_taken(*final(self)) == events_taken(*old(self)).push(ev),
            fed_bytes(*final(self)) == fed_bytes(*old(self)),
            r == key_of(events_taken(*final(self))),
    {
        self.keyboard.process_keyevent(ev)
    }

    /// Feeds one scancode byte to the decoder: a key once a key press has been
    /// decoded, `None` while a sequence is partial, for a release or a
    /// modifier key, and for a byte the decoder rejects.
    pub fn read_key(&mut self, scancode: u8) -> (r: Option<DecodedKey>)
        ensures
            fed_with(*final(self), *old(self), scancode),
            r == decoded_key(*old(self), scancode),
    {
        match self.add_byte(scancode) {
            Ok(Some(event)) => self.process_keyevent(event),
            _ => None,
        }
    }

    /// Feeds one scancode byte to the decoder and keeps a decoded character.
    pub fn read_unicode_key(&mut self, scancode: u8) -> (r: Option<char>)
        ensures
            fed_with(*final(self), *old(self), scancode),
            r == (match decoded_key(*old(self), scancode) {
                Some(DecodedKey::Unicode(c)) => Some(c),
                _ => None,
            }),
    {
        let key = self.read_key(scancode);
        unicode_key(key)
    }

    /// Feeds one scancode byte to the decoder and keeps a decoded key code
    /// that has no character.
    pub fn read_rawkey(&mut self, scancode: u8) -> (r: Option<KeyCode>)
        ensures
            fed_with(*final(self), *old(self), scancode),
            r == (match decoded_key(*old(self), scancode) {
                Some(DecodedKey::RawKey(k)) => Some(k),
                _ => None,
            }),
    {
        let key = self.read_key(scancode);
        raw_key(key)
    }
}

/// The character of a decoded key, if it has one.
pub fn unicode_key(key: Option<DecodedKey>) -> (r: Option<char>)
    ensures
        r == (match key {
            Some(DecodedKey::Unicode(c)) => Some(c),
            _ => None,
        }),
{
    match key {
        Some(DecodedKey::Unicode(c)) => Some(c),
        _ => None,
    }
}

/// The key code of a decoded key that has no character.
pub fn raw_key(key: Option<DecodedKey>) -> (r: Option<KeyCode>)
    ensures
        r == (match key {
            Some(DecodedKey::RawKey(k)) => Some(k),
            _ => None,
        }),
{
    match key {
        Some(DecodedKey::RawKey(k)) => Some(k),
        _ => None,
    }
}

/// The keyboard's data port, for scancodes and commands.
pub const KEYBOARD_PORT: u16 = 0x60;

/// Command that sets the lights; the light bits follow it.
pub const LED_STATE: u8 = 0xED;

/// The keyboard's acknowledgement of a command byte.
pub const COMMAND_ACK: u8 = 0xFA;

pub const LED_SCROLL_ON: u8 = 0b001;

pub const LED_NUM_LOCK_ON: u8 = 0b010;

pub const LED_CAPS_LOCK_ON: u8 = 0b100;

/// Setting the lights: the command, a read of its acknowledgement, the light
/// bits, a read of their acknowledgement.
pub open spec fn leds_ops(state: u8) -> Seq<PortOp> {
    seq![
        PortOp::Write { port: KEYBOARD_PORT, value: LED_STATE },
        PortOp::Read { port: KEYBOARD_PORT },
        PortOp::Write { port: KEYBOARD_PORT, value: state },
        PortOp::Read { port: KEYBOARD_PORT },
    ]
}

/// The port accesses that set the keyboard's lights to `state`. The
/// acknowledgements are read and not checked: setting the lights is best
/// effort.
pub fn set_leds_state(state: u8) -> (r: Vec<PortOp>)
    ensures
        r@ == leds_ops(state),
{
    let mut ops: Vec<PortOp> = Vec::new();
    ops.push(PortOp::Write { port: KEYBOARD_PORT, value: LED_STATE });
    ops.push(PortOp::Read { port: KEYBOARD_PORT });
    ops.push(PortOp::Write { port: KEYBOARD_PORT, value: state });
    ops.push(PortOp::Read { port: KEYBOARD_PORT });
    assert(ops@ =~= leds_ops(state));
    ops
}

} // verus!
