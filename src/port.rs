//! Port I/O described as data: the library says which bytes go to which ports
//! and in which order; the caller performs the accesses.
use vstd::prelude::*;

verus! {

/// One access to an I/O port.
#[derive(Debug, Clone, Copy, PartialEq, Eq, Structural)]
pub enum PortOp {
    /// Write `value` to `port`.
    Write { port: u16, value: u8 },
    /// Read one byte from `port` and discard it.
    Read { port: u16 },
}

/// Number of writes of `value` to `port` in `ops`.
pub open spec fn count_writes(ops: Seq<PortOp>, port: u16, value: u8) -> nat
    decreases ops.len(),
{
    if ops.len() == 0 {
        0
    } else {
        count_writes(ops.drop_last(), port, value) + if ops.last() == (PortOp::Write { port, value }) {
            1nat
        } else {
            0nat
        }
    }
}

} // verus!
