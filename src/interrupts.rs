//! What the interrupt handlers decide: the terminal changes they make and the
//! acknowledgements they send. Entering a handler and performing its port
//! accesses is the caller's part.
use vstd::prelude::*;
use vstd::string::StringSliceAdditionalSpecFns;
use pc_keyboard::{DecodedKey, KeyCode};
use crate::pics::{ChainedPics, InterruptIndex, CMD_END_OF_INTERRUPT, PIC_1_OFFSET};
use crate::port::{count_writes, PortOp};
use crate::terminal::{
    blank, lemma_print_keeps_color, uniform_color, Terminal, TerminalView, BACKSPACE, CURSOR_COLOR,
    PLACEHOLDER_GLYPH, SPACE, utf8_len,
};
use crate::vga::{filled, grid_len, pack, Character, Color, ColorCode};

verus! {

/// First line the breakpoint handler prints.
pub const BREAKPOINT_HEADER: &'static str = "EXCEPTION: BREAKPOINT\n";

/// Line end printed after a report.
pub const LINE_END: &'static str = "\n";

/// Actions bound to keys that have no character.
#[derive(Debug, Clone, Copy, PartialEq, Eq, Structural)]
pub enum Shortcut {
    /// Blank the display and put the cursor at the top-left corner.
    ClearAndHome,
}

/// The shortcut bound to `code`, if any.
pub open spec fn spec_shortcut(code: KeyCode) -> Option<Shortcut> {
    match code {
        KeyCode::F1 => Some(Shortcut::ClearAndHome),
        _ => None,
    }
}

/// The shortcut bound to `code`, if any.
pub fn shortcut_for(code: KeyCode) -> (r: Option<Shortcut>)
    ensures
        r == spec_shortcut(code),
{
    match code {
        KeyCode::F1 => Some(Shortcut::ClearAndHome),
        _ => None,
    }
}

/// The display blanked in the current color with the cursor at the top-left
/// corner.
pub open spec fn cleared_and_homed(v: TerminalView) -> TerminalView {
    v.with_cells(filled(blank(v.color))).cursor_cleared().moved_to(0, 0).cursor_drawn()
}

/// Clear-and-home leaves every cell a blank in the current color but cell
/// (0, 0), which carries the cursor overlay, with the cursor there.
pub proof fn lemma_clear_and_home(v: TerminalView)
    requires
        v.wf(),
    ensures
        cleared_and_homed(v).wf(),
        cleared_and_homed(v).row == 0,
        cleared_and_homed(v).col == 0,
        cleared_and_homed(v).color == v.color,
        cleared_and_homed(v).cells[0] == (Character { ascii_char: SPACE, color: ColorCode(CURSOR_COLOR) }),
        forall|i: int|
            0 < i < grid_len() ==> #[trigger] cleared_and_homed(v).cells[i] == blank(v.color),
        uniform_color(cleared_and_homed(v)),
{
}

/// What shortcut `s` does to the terminal.
pub open spec fn shortcut_effect(v: TerminalView, s: Shortcut) -> TerminalView {
    match s {
        Shortcut::ClearAndHome => cleared_and_homed(v),
    }
}

/// What a decoded key does to the terminal: a backspace erases, another
/// character is printed (outside ASCII, one placeholder glyph per byte of its
/// encoding), a key bound to a shortcut runs it, and anything else changes
/// nothing.
pub open spec fn key_effect(v: TerminalView, key: Option<DecodedKey>) -> TerminalView {
    match key {
        Some(DecodedKey::Unicode(c)) => if c as u32 == BACKSPACE as u32 {
            v.backspace()
        } else if (c as u32) < 0x80 {
            v.byte(c as u8)
        } else {
            v.put_repeated(PLACEHOLDER_GLYPH, utf8_len(c))
        },
        Some(DecodedKey::RawKey(k)) => match spec_shortcut(k) {
            Some(s) => shortcut_effect(v, s),
            None => v,
        },
        None => v,
    }
}

/// Runs shortcut `s` on the terminal.
pub fn run_shortcut(term: &mut Terminal, s: Shortcut)
    requires
        old(term).wf(),
    ensures
        final(term).wf(),
        final(term)@ == shortcut_effect(old(term)@, s),        final(term)@.row == 0 && final(term)@.col == 0,
        final(term)@.cells[0] == (Character { ascii_char: SPACE, color: ColorCode(CURSOR_COLOR) }),
        forall|i: int| 0 < i < grid_len() ==> #[trigger] final(term)@.cells[i] == blank(old(term)@.color),
{
    proof {
        lemma_clear_and_home(old(term)@);
    }
    match s {
        Shortcut::ClearAndHome => {
            term._clear();
            term._set_position(0, 0);
        },
    }
}

/// The timer interrupt: one more tick, then the acknowledgement of the timer
/// line. It neither blocks nor prints.
pub fn timer_interrupt(ticks: &mut u64, pics: &ChainedPics) -> (r: Vec<PortOp>)
    ensures
        *final(ticks) == (if *old(ticks) == u64::MAX {
            0
        } else {
            (*old(ticks) + 1) as u64
        }),
        r@ == pics.eoi_ops(InterruptIndex::Timer.vector()),
{
    *ticks = if *ticks == u64::MAX {
        0
    } else {
        *ticks + 1
    };
    pics.notify_end_of_interrupt(InterruptIndex::Timer.as_u8())
}

/// The keyboard interrupt, given what the decoder made of the one scancode
/// byte read: the key's effect on the terminal, then the acknowledgement of the
/// keyboard line, on every path alike.
pub fn keyboard_interrupt(term: &mut Terminal, pics: &ChainedPics, key: Option<DecodedKey>) -> (r:
    Vec<PortOp>)
    requires
        old(term).wf(),
    ensures
        final(term).wf(),
        final(term)@ == key_effect(old(term)@, key),
        r@ == pics.eoi_ops(InterruptIndex::Keyboard.vector()),
{
    match key {
        Some(DecodedKey::Unicode(c)) => {
            if c as u32 == BACKSPACE as u32 {
                term.backspace();
            } else {
                term.print_char(c);
            }
        },
        Some(DecodedKey::RawKey(k)) => {
            match shortcut_for(k) {
                Some(s) => run_shortcut(term, s),
                None => {},
            }
        },
        None => {},
    }
    pics.notify_end_of_interrupt(InterruptIndex::Keyboard.as_u8())
}

/// Every line a handler acknowledges is a master line when the master's lines
/// start at the standard offset: its acknowledgement is one end-of-interrupt
/// command to the master and none to the slave.
pub proof fn lemma_handler_acknowledges_once(pics: ChainedPics, line: InterruptIndex)
    requires
        pics.wf(),
        pics.master.offset == PIC_1_OFFSET,
    ensures
        count_writes(pics.eoi_ops(line.vector()), pics.master.command, CMD_END_OF_INTERRUPT) == 1,
        count_writes(pics.eoi_ops(line.vector()), pics.slave.command, CMD_END_OF_INTERRUPT) == 0,
{
    crate::pics::lemma_one_end_of_interrupt(pics, line.vector());
}

/// The breakpoint handler: the display cleared, the cursor at the top-left
/// corner, then the header and the captured frame printed. Execution resumes
/// afterwards.
pub fn breakpoint(term: &mut Terminal, frame: &str)
    requires
        old(term).wf(),
    ensures
        final(term).wf(),
        final(term)@ == cleared_and_homed(old(term)@).print(BREAKPOINT_HEADER.spec_bytes()).print(
            frame.spec_bytes(),
        ).print(LINE_END.spec_bytes()),        final(term)@.color == old(term)@.color,
        uniform_color(final(term)@),
{
    proof {
        let v = cleared_and_homed(old(term)@);
        lemma_clear_and_home(old(term)@);
        lemma_print_keeps_color(v, BREAKPOINT_HEADER.spec_bytes());
        let w = v.print(BREAKPOINT_HEADER.spec_bytes());
        lemma_print_keeps_color(w, frame.spec_bytes());
        lemma_print_keeps_color(w.print(frame.spec_bytes()), LINE_END.spec_bytes());
    }
    term._clear();
    term._set_position(0, 0);
    term.print(BREAKPOINT_HEADER);
    term.print(frame);
    term.print(LINE_END);
}

/// The screen left by a fatal error in foreground code: the background forced
/// to red, the display cleared, and the message at the top-left corner.
pub fn show_fatal_error(term: &mut Terminal, message: &str)
    requires
        old(term).wf(),
    ensures
        final(term).wf(),
        final(term)@ == cleared_and_homed(
            old(term)@.with_color(ColorCode(pack(old(term)@.color.foreground(), Color::Red.index()))),
        ).print(message.spec_bytes()).print(LINE_END.spec_bytes()),        final(term)@.color.background() == Color::Red.index(),
        final(term)@.color.foreground() == old(term)@.color.foreground(),
        uniform_color(final(term)@),
{
    proof {
        let u = old(term)@.with_color(
            ColorCode(pack(old(term)@.color.foreground(), Color::Red.index())),
        );
        let v = cleared_and_homed(u);
        lemma_clear_and_home(u);
        lemma_print_keeps_color(v, message.spec_bytes());
        lemma_print_keeps_color(v.print(message.spec_bytes()), LINE_END.spec_bytes());
    }
    term.set_background(Color::Red);
    term._clear();
    term._set_position(0, 0);
    term.print(message);
    term.print(LINE_END);
}

/// What the double-fault handler does next.
#[derive(Debug, Clone, Copy, PartialEq, Eq, Structural)]
pub enum FatalAction {
    /// Write the captured frame to the secondary output channel.
    ReportFrame,
    /// Halt the processor until the next interrupt, and ask again.
    Halt,
}

/// The double-fault handler's progress. The handler has no way back: every
/// action after the report is a halt.
pub struct FatalFault {
    reported: bool,
}

/// The first `n` actions of a double-fault handler.
pub open spec fn fatal_actions(n: nat) -> Seq<FatalAction> {
    Seq::new(n, |i: int| if i == 0 { FatalAction::ReportFrame } else { FatalAction::Halt })
}

impl FatalFault {
    pub closed spec fn has_reported(&self) -> bool {
        self.reported
    }

    /// A handler that has done nothing yet.
    pub fn new() -> (r: FatalFault)
        ensures
            !r.has_reported(),
    {
        FatalFault { reported: false }
    }

    /// The report first, then halts for ever.
    pub fn next_action(&mut self) -> (r: FatalAction)
        ensures
            final(self).has_reported(),
            r == (if old(self).has_reported() {
                FatalAction::Halt
            } else {
                FatalAction::ReportFrame
            }),
    {
        if self.reported {
            FatalAction::Halt
        } else {
            self.reported = true;
            FatalAction::ReportFrame
        }
    }
}

/// Asking a fresh double-fault handler for its actions `n` times gives
/// `fatal_actions(n)`.
pub fn run_fatal_fault(n: usize) -> (r: Vec<FatalAction>)
    ensures
        r@ == fatal_actions(n as nat),
{
    let mut f = FatalFault::new();
    let mut out: Vec<FatalAction> = Vec::new();
    let mut i: usize = 0;
    while i < n
        invariant
            i <= n,
            out@ == fatal_actions(i as nat),
            i > 0 <==> f.has_reported(),
        decreases n - i,
    {
        let a = f.next_action();
        out.push(a);
        i = i + 1;
        assert(out@ =~= fatal_actions(i as nat));
    }
    out
}

/// Number of reports among `actions`.
pub open spec fn count_reports(actions: Seq<FatalAction>) -> nat
    decreases actions.len(),
{
    if actions.len() == 0 {
        0
    } else {
        count_reports(actions.drop_last()) + if actions.last() == FatalAction::ReportFrame {
            1nat
        } else {
            0nat
        }
    }
}

/// However long the double-fault handler runs, it reports the frame exactly
/// once, as its first action, and only halts afterwards.
pub proof fn lemma_double_fault_reports_once(n: nat)
    requires
        n > 0,
    ensures
        fatal_actions(n)[0] == FatalAction::ReportFrame,
        count_reports(fatal_actions(n)) == 1,
        forall|i: int| 0 < i < n ==> #[trigger] fatal_actions(n)[i] == FatalAction::Halt,
    decreases n,
{
    let a = fatal_actions(n);
    if n > 1 {
        lemma_double_fault_reports_once((n - 1) as nat);
        assert(a.drop_last() =~= fatal_actions((n - 1) as nat));
        assert(a.last() == FatalAction::Halt);
        assert(count_reports(a) == count_reports(a.drop_last()));
    } else {
        assert(a.drop_last() =~= Seq::<FatalAction>::empty());
        assert(count_reports(a.drop_last()) == 0);
        assert(a.last() == FatalAction::ReportFrame);
    }
}

} // verus!
