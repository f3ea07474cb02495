//! A small single-core x86-64 kernel core: text-mode display model, terminal,
//! interrupt-controller and interval-timer protocols, keyboard decoding and the
//! decisions taken by the interrupt handlers.
//!
//! Hardware access (port I/O, the memory-mapped display, the trap table) is done
//! by the caller; this library computes what is written and where.
pub mod vga;
pub mod terminal;
pub mod port;
pub mod pit;
pub mod pics;
pub mod keyboard;
pub mod interrupts;
pub mod traits;
