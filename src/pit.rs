//! The programmable interval timer: the reload value for a tick rate and the
//! port writes that program channel 0 with it.
use vstd::prelude::*;
use crate::port::PortOp;

verus! {

/// Frequency of the timer's oscillator, in hertz.
pub const FREQUENCY: usize = 1193182;

/// Data port of channel 0.
pub const DATA_PORT_0: u16 = 0x40;

/// Mode/command port.
pub const COMMAND_PORT: u16 = 0x43;

/// Command bits selecting channel 0.
pub const CHANNEL_0: u8 = 0b0000_0000;

/// Command bits for a reload value sent low byte first, then high byte.
pub const ACCESS_LOBYTE_HIBYTE: u8 = 0b0011_0000;

/// Command bits for rate-generator mode.
pub const RATE_GENERATOR: u8 = 0b0000_0100;

/// Smallest reload value programmed: the fastest supported rate.
pub const MIN_RELOAD: u16 = 18;

/// Largest reload value programmed: the slowest supported rate.
pub const MAX_RELOAD: u16 = 65535;

/// `q` limited to the range of reload values.
pub open spec fn clamp_reload(q: int) -> int {
    if q < MIN_RELOAD as int {
        MIN_RELOAD as int
    } else if q > MAX_RELOAD as int {
        MAX_RELOAD as int
    } else {
        q
    }
}

/// The reload value for a rate of `hertz` ticks per second.
pub open spec fn reload_for(hertz: int) -> int
    recommends
        hertz > 0,
{
    clamp_reload(FREQUENCY as int / hertz)
}

/// The command byte that programs channel 0.
pub open spec fn command_byte() -> u8 {
    CHANNEL_0 | ACCESS_LOBYTE_HIBYTE | RATE_GENERATOR
}

/// The three writes that program channel 0 with `value`: the command byte,
/// then the low byte, then the high byte.
pub open spec fn program_ops(value: u16) -> Seq<PortOp> {
    seq![
        PortOp::Write { port: COMMAND_PORT, value: command_byte() },
        PortOp::Write { port: DATA_PORT_0, value: (value % 256) as u8 },
        PortOp::Write { port: DATA_PORT_0, value: (value / 256) as u8 },
    ]
}

/// The reload value for a rate of `hertz` ticks per second: the oscillator
/// frequency divided by the rate, kept between the two bounds.
pub fn reload_value(hertz: usize) -> (r: u16)
    requires
        hertz > 0,
    ensures
        r as int == reload_for(hertz as int),
        MIN_RELOAD <= r,
{
    let q = FREQUENCY / hertz;
    if q < MIN_RELOAD as usize {
        MIN_RELOAD
    } else if q > MAX_RELOAD as usize {
        MAX_RELOAD
    } else {
        q as u16
    }
}

/// The port writes that program channel 0 in rate-generator mode with
/// reload `value`; the hardware takes the value once both bytes have come, so
/// the order is part of the protocol.
pub fn set_reload_value(value: u16) -> (r: Vec<PortOp>)
    ensures
        r@ == program_ops(value),
{
    let mut ops: Vec<PortOp> = Vec::new();
    ops.push(PortOp::Write { port: COMMAND_PORT, value: CHANNEL_0 | ACCESS_LOBYTE_HIBYTE | RATE_GENERATOR });
    ops.push(PortOp::Write { port: DATA_PORT_0, value: (value % 256) as u8 });
    ops.push(PortOp::Write { port: DATA_PORT_0, value: (value / 256) as u8 });
    assert(ops@ =~= program_ops(value));
    ops
}

/// The port writes that make the timer tick `hertz` times per second; `None`
/// for a rate of zero, which has no reload value.
pub fn set_tick_rate(hertz: usize) -> (r: Option<Vec<PortOp>>)
    ensures
        hertz == 0 <==> r is None,
        r matches Some(ops) ==> ops@ == program_ops(reload_for(hertz as int) as u16),
{
    if hertz == 0 {
        None
    } else {
        Some(set_reload_value(reload_value(hertz)))
    }
}

} // verus!
