//! Board-support core for a PL011 serial port on an ARM926EJ-S board:
//! register-write primitives, the baud-rate divisor computation, the
//! interrupt-fed receive ring buffer and the UART's open/close state machine.
//!
//! Everything here is pure computation on plain values.  Touching the
//! memory-mapped registers is left to the caller, which performs the
//! `RegisterWrite`s that the driver hands out.
pub mod baud;
pub mod io;

pub mod platform;

pub mod ring;

pub mod uart;
