//! Interfaces for text output, port drivers and graphics.
use vstd::prelude::*;
use vstd::string::StringSliceAdditionalSpecFns;
use crate::terminal::Terminal;

verus! {

/// A text output device. Each operation says what it did through a spec
/// function that relates the device after the call to the device before it.
pub trait Printer: Sized {
    /// The device is in a state in which it can print.
    spec fn ready(&self) -> bool;

    /// `self` is `before` with the bytes `text` printed.
    spec fn printed(&self, before: Self, text: Seq<u8>) -> bool;

    /// `self` is `before` with the cursor back at the start of its line.
    spec fn returned(&self, before: Self) -> bool;

    /// `self` is `before` with a line feed done.
    spec fn fed_line(&self, before: Self) -> bool;

    /// `self` is `before` with a tab printed.
    spec fn tabbed(&self, before: Self) -> bool;

    fn print_str(&mut self, text: &str)
        requires
            old(self).ready(),
        ensures
            final(self).ready(),
            final(self).printed(*old(self), text.spec_bytes()),
    ;

    fn carriage_return(&mut self)
        requires
            old(self).ready(),
        ensures
            final(self).ready(),
            final(self).returned(*old(self)),
    ;

    fn new_line(&mut self)
        requires
            old(self).ready(),
        ensures
            final(self).ready(),
            final(self).fed_line(*old(self)),
    ;

    fn tab(&mut self)
        requires
            old(self).ready(),
        ensures
            final(self).ready(),
            final(self).tabbed(*old(self)),
    ;
}

impl Printer for Terminal {
    open spec fn ready(&self) -> bool {
        self.wf()
    }

    open spec fn printed(&self, before: Terminal, text: Seq<u8>) -> bool {
        self@ == before@.print(text)
    }

    open spec fn returned(&self, before: Terminal) -> bool {
        self@ == before@.carriage_return()
    }

    open spec fn fed_line(&self, before: Terminal) -> bool {
        self@ == before@.new_line()
    }

    open spec fn tabbed(&self, before: Terminal) -> bool {
        self@ == before@.tab()
    }

    fn print_str(&mut self, text: &str) {
        self.print(text);
    }

    fn carriage_return(&mut self) {
        Terminal::carriage_return(self);
    }

    fn new_line(&mut self) {
        Terminal::new_line(self);
    }

    fn tab(&mut self) {
        Terminal::tab(self);
    }
}

/// A driver for a device reached through I/O ports; reads fail with a device
/// error code.
pub trait Driver {
    fn init();

    fn read_u8(&mut self, port: usize) -> Result<u8, u8>;

    fn read_u16(&mut self, port: usize) -> Result<u16, u8>;

    fn read_u32(&mut self, port: usize) -> Result<u32, u8>;

    fn read_u64(&mut self, port: usize) -> Result<u64, u8>;

    fn write_u8(&mut self, port: usize, value: u8);

    fn write_u16(&mut self, port: usize, value: u8);

    fn write_u32(&mut self, port: usize, value: u8);

    fn write_u64(&mut self, port: usize, value: u8);

    fn get_name(&self) -> &str;

    fn close();
}

/// Something that can be drawn from its raw bytes.
pub trait Sprite {
    fn as_u8_slice(&self) -> &[u8];
}

/// Something that draws sprites.
pub trait Renderer {
    fn draw_sprite<S: Sprite>(spr: &S);
}

} // verus!
