//! The two cascaded 8259 interrupt controllers: remapping their lines above
//! the CPU's exception vectors, and acknowledging serviced interrupts.
use vstd::prelude::*;
use crate::port::{count_writes, PortOp};

verus! {

/// First vector of the master controller's lines.
pub const PIC_1_OFFSET: u8 = 32;

/// First vector of the slave controller's lines.
pub const PIC_2_OFFSET: u8 = 40;

pub const PIC_1_COMMAND: u16 = 0x20;

pub const PIC_1_DATA: u16 = 0x21;

pub const PIC_2_COMMAND: u16 = 0xA0;

pub const PIC_2_DATA: u16 = 0xA1;

/// An unused port; a write to it gives the controllers time between two
/// bytes of the initialization sequence.
pub const WAIT_PORT: u16 = 0x80;

/// Starts the initialization sequence.
pub const CMD_INIT: u8 = 0x11;

/// Acknowledges the interrupt being serviced.
pub const CMD_END_OF_INTERRUPT: u8 = 0x20;

/// Third byte for the master: the slave hangs off line 2.
pub const CASCADE_MASTER: u8 = 4;

/// Third byte for the slave: its cascade identity.
pub const CASCADE_SLAVE: u8 = 2;

/// Fourth byte: 8086 mode.
pub const MODE_8086: u8 = 0x01;

/// Mask bits of the master lines in use: line 0 (timer) and line 1 (keyboard).
pub const LINES_IN_USE: u8 = 0b0000_0011;

/// The hardware interrupts this kernel services, by master line.
#[derive(Debug, Clone, Copy, PartialEq, Eq, Structural)]
pub enum InterruptIndex {
    Timer,
    Keyboard,
}

impl InterruptIndex {
    pub open spec fn vector(self) -> u8 {
        match self {
            InterruptIndex::Timer => PIC_1_OFFSET,
            InterruptIndex::Keyboard => (PIC_1_OFFSET + 1) as u8,
        }
    }

    pub fn as_u8(self) -> (r: u8)
        ensures
            r == self.vector(),
    {
        match self {
            InterruptIndex::Timer => PIC_1_OFFSET,
            InterruptIndex::Keyboard => PIC_1_OFFSET + 1,
        }
    }

    pub fn as_usize(self) -> (r: usize)
        ensures
            r == self.vector(),
    {
        self.as_u8() as usize
    }
}

/// One controller: the first vector of its eight lines and its two ports.
#[derive(Debug, Clone, Copy, PartialEq, Eq, Structural)]
pub struct Pic {
    pub offset: u8,
    pub command: u16,
    pub data: u16,
}

impl Pic {
    pub open spec fn spec_handles(self, id: u8) -> bool {
        self.offset <= id && (id as int) < self.offset as int + 8
    }

    /// The acknowledgement written to this controller.
    pub open spec fn eoi(self) -> PortOp {
        PortOp::Write { port: self.command, value: CMD_END_OF_INTERRUPT }
    }

    /// Whether vector `id` is one of this controller's lines.
    pub fn handles_interrupt(&self, id: u8) -> (r: bool)
        ensures
            r == self.spec_handles(id),
    {
        self.offset <= id && (id as u16) < self.offset as u16 + 8
    }
}

/// The master and slave controllers.
#[derive(Debug, Clone, Copy, PartialEq, Eq, Structural)]
pub struct ChainedPics {
    pub master: Pic,
    pub slave: Pic,
}

/// A write to the waiting port.
pub open spec fn wait_op() -> PortOp {
    PortOp::Write { port: WAIT_PORT, value: 0 }
}

impl ChainedPics {
    /// The two controllers answer on distinct ports and their lines do not
    /// overlap.
    pub open spec fn wf(self) -> bool {
        &&& self.master.command != self.slave.command
        &&& (self.master.offset as int + 8 <= self.slave.offset as int || self.slave.offset as int + 8
            <= self.master.offset as int)
    }

    pub open spec fn spec_handles(self, id: u8) -> bool {
        self.master.spec_handles(id) || self.slave.spec_handles(id)
    }

    /// The acknowledgement of vector `id`: a slave line is acknowledged to
    /// the slave and then to the master; a master line to the master alone.
    pub open spec fn eoi_ops(self, id: u8) -> Seq<PortOp> {
        if self.slave.spec_handles(id) {
            seq![self.slave.eoi(), self.master.eoi()]
        } else if self.master.spec_handles(id) {
            seq![self.master.eoi()]
        } else {
            seq![]
        }
    }

    /// Remapping: the four-byte initialization sequence to each controller,
    /// byte by byte in turn with a wait after each, then the saved masks
    /// restored, then the lines in use unmasked on the master.
    pub open spec fn init_ops(self, saved_master: u8, saved_slave: u8) -> Seq<PortOp> {
        seq![
            PortOp::Write { port: self.master.command, value: CMD_INIT },
            wait_op(),
            PortOp::Write { port: self.slave.command, value: CMD_INIT },
            wait_op(),
            PortOp::Write { port: self.master.data, value: self.master.offset },
            wait_op(),
            PortOp::Write { port: self.slave.data, value: self.slave.offset },
            wait_op(),
            PortOp::Write { port: self.master.data, value: CASCADE_MASTER },
            wait_op(),
            PortOp::Write { port: self.slave.data, value: CASCADE_SLAVE },
            wait_op(),
            PortOp::Write { port: self.master.data, value: MODE_8086 },
            wait_op(),
            PortOp::Write { port: self.slave.data, value: MODE_8086 },
            wait_op(),
            PortOp::Write { port: self.master.data, value: saved_master },
            PortOp::Write { port: self.slave.data, value: saved_slave },
            PortOp::Write { port: self.master.data, value: saved_master & !LINES_IN_USE },
        ]
    }

    /// The controllers on their standard ports, with their lines starting at
    /// `offset1` and `offset2`.
    pub fn new(offset1: u8, offset2: u8) -> (r: ChainedPics)
        ensures
            r.master == (Pic { offset: offset1, command: PIC_1_COMMAND, data: PIC_1_DATA }),
            r.slave == (Pic { offset: offset2, command: PIC_2_COMMAND, data: PIC_2_DATA }),
    {
        ChainedPics {
            master: Pic { offset: offset1, command: PIC_1_COMMAND, data: PIC_1_DATA },
            slave: Pic { offset: offset2, command: PIC_2_COMMAND, data: PIC_2_DATA },
        }
    }

    /// Whether vector `id` is one of the lines of either controller.
    pub fn handles_interrupt(&self, id: u8) -> (r: bool)
        ensures
            r == self.spec_handles(id),
    {
        self.master.handles_interrupt(id) || self.slave.handles_interrupt(id)
    }

    /// The port accesses that remap the controllers, given the masks read from
    /// their data ports beforehand.
    pub fn initialize(&self, saved_master: u8, saved_slave: u8) -> (r: Vec<PortOp>)
        ensures
            r@ == self.init_ops(saved_master, saved_slave),
    {
        let m = self.master;
        let s = self.slave;
        let wait = PortOp::Write { port: WAIT_PORT, value: 0 };
        let mut ops: Vec<PortOp> = Vec::new();
        ops.push(PortOp::Write { port: m.command, value: CMD_INIT });
        ops.push(wait);
        ops.push(PortOp::Write { port: s.command, value: CMD_INIT });
        ops.push(wait);
        ops.push(PortOp::Write { port: m.data, value: m.offset });
        ops.push(wait);
        ops.push(PortOp::Write { port: s.data, value: s.offset });
        ops.push(wait);
        ops.push(PortOp::Write { port: m.data, value: CASCADE_MASTER });
        ops.push(wait);
        ops.push(PortOp::Write { port: s.data, value: CASCADE_SLAVE });
        ops.push(wait);
        ops.push(PortOp::Write { port: m.data, value: MODE_8086 });
        ops.push(wait);
        ops.push(PortOp::Write { port: s.data, value: MODE_8086 });
        ops.push(wait);
        ops.push(PortOp::Write { port: m.data, value: saved_master });
        ops.push(PortOp::Write { port: s.data, value: saved_slave });
        ops.push(PortOp::Write { port: m.data, value: saved_master & !LINES_IN_USE });
        assert(ops@ =~= self.init_ops(saved_master, saved_slave));
        ops
    }

    /// The port writes that acknowledge vector `id`.
    pub fn notify_end_of_interrupt(&self, id: u8) -> (r: Vec<PortOp>)
        ensures
            r@ == self.eoi_ops(id),
    {
        let mut ops: Vec<PortOp> = Vec::new();
        if self.handles_interrupt(id) {
            if self.slave.handles_interrupt(id) {
                ops.push(PortOp::Write { port: self.slave.command, value: CMD_END_OF_INTERRUPT });
            }
            ops.push(PortOp::Write { port: self.master.command, value: CMD_END_OF_INTERRUPT });
        }
        assert(ops@ =~= self.eoi_ops(id));
        ops
    }
}

/// Acknowledging a line writes the end-of-interrupt command exactly once to
/// the controller that owns the line, and exactly once to the master; a master
/// line is acknowledged to the master alone.
pub proof fn lemma_one_end_of_interrupt(pics: ChainedPics, id: u8)
    requires
        pics.wf(),
        pics.spec_handles(id),
    ensures
        count_writes(pics.eoi_ops(id), pics.master.command, CMD_END_OF_INTERRUPT) == 1,
        pics.slave.spec_handles(id) ==> count_writes(
            pics.eoi_ops(id),
            pics.slave.command,
            CMD_END_OF_INTERRUPT,
        ) == 1,
        !pics.slave.spec_handles(id) ==> count_writes(
            pics.eoi_ops(id),
            pics.slave.command,
            CMD_END_OF_INTERRUPT,
        ) == 0,
{
    let ops = pics.eoi_ops(id);
    let e = CMD_END_OF_INTERRUPT;
    let m = pics.master.command;
    let sl = pics.slave.command;
    if pics.slave.spec_handles(id) {
        let one = ops.drop_last();
        assert(one =~= seq![pics.slave.eoi()]);
        assert(one.drop_last() =~= Seq::<PortOp>::empty());
        assert(count_writes(one.drop_last(), m, e) == 0);
        assert(count_writes(one.drop_last(), sl, e) == 0);
        assert(count_writes(one, m, e) == 0);
        assert(count_writes(one, sl, e) == 1);
        assert(ops.last() == pics.master.eoi());
        assert(count_writes(ops, m, e) == 1);
        assert(count_writes(ops, sl, e) == 1);
    } else {
        assert(ops.drop_last() =~= Seq::<PortOp>::empty());
        assert(count_writes(ops.drop_last(), m, e) == 0);
        assert(count_writes(ops.drop_last(), sl, e) == 0);
        assert(ops.last() == pics.master.eoi());
        assert(count_writes(ops, m, e) == 1);
        assert(count_writes(ops, sl, e) == 0);
    }
}

} // verus!
