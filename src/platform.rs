use vstd::prelude::*;

verus! {

/// Frequency of the clock that feeds the UARTs, in Hz.
pub const UART_CLK: u64 = 24_000_000;

/// Vectored interrupt controller: interrupt enable register.
pub const VIC_INT_ENABLE: u32 = 0x1014_0010;

/// Vectored interrupt controller: interrupt enable-clear register.
pub const VIC_INT_DISABLE: u32 = 0x1014_0014;

/// Register block of the first UART.
pub const UART0_BASE: u32 = 0x101f_1000;

/// Interrupt line of the first UART.
pub const UART0_IRQ: u32 = 12;

} // verus!
