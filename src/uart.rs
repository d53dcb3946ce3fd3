use vstd::prelude::*;

use crate::baud::{checked_divisors, rate_supported, fractional_divisor, integer_divisor, Divisors};
use crate::io::RegisterWrite;
use crate::platform::{UART_CLK, VIC_INT_DISABLE, VIC_INT_ENABLE};
use crate::ring::{after_receive, has_room, RingBuffer};

verus! {

// Register offsets within a PL011 register block.
/// Data register.
pub const DR: u32 = 0x000;
/// Flag register.
pub const FR: u32 = 0x018;
/// Integer baud-rate divisor register.
pub const IBRD: u32 = 0x024;
/// Fractional baud-rate divisor register.
pub const FBRD: u32 = 0x028;
/// Line control register.
pub const LCR_H: u32 = 0x02C;
/// Control register.
pub const CR: u32 = 0x030;
/// Interrupt mask set/clear register.
pub const IMSC: u32 = 0x038;

// Register bits.
/// Flag register: transmit FIFO full.
pub const FR_TXFF: u32 = 1 << 5;
/// Control register: receive enable.
pub const CR_RXE: u32 = 1 << 9;
/// Control register: transmit enable.
pub const CR_TXE: u32 = 1 << 8;
/// Control register: UART enable.
pub const CR_EN: u32 = 1 << 0;
/// Line control register: eight-bit words (no parity, one stop bit, FIFO off).
pub const LCR_WLEN_8: u32 = 3 << 5;
/// Interrupt mask: receive interrupt.
pub const IMSC_RXIM: u32 = 1 << 4;

/// Highest register-block base the driver accepts, so that every register
/// address of the block fits in 32 bits.
pub const MAX_BASE: u32 = 0xFFFF_F000;

/// What a caller can know of a UART: where it lives, how it is configured,
/// which bytes wait to be read and how many were lost to overrun.
pub struct UartState {
    pub base: u32,
    pub irq: u32,
    /// 0 while closed, the configured baud rate while open.
    pub rate: u32,
    /// Unread received bytes, oldest first.
    pub rx: Seq<u8>,
    /// Bytes dropped because the receive buffer was full (saturating).
    pub overruns: u64,
}

pub open spec fn state_open(s: UartState) -> bool {
    s.rate != 0
}

/// The state after `close`: closed, with the unread bytes dropped.
pub open spec fn closed_state(s: UartState) -> UartState {
    UartState { rate: 0, rx: Seq::empty(), ..s }
}

/// The state after `open(rate)`: open at `rate` with an empty buffer when the
/// rate can be programmed, closed otherwise.
pub open spec fn opened_state(s: UartState, rate: u32) -> UartState {
    if rate_supported(UART_CLK as int, rate as int) {
        UartState { rate, rx: Seq::empty(), ..s }
    } else {
        closed_state(s)
    }
}

/// The state after the byte `c` arrives.
pub open spec fn received_state(s: UartState, c: u8) -> UartState {
    UartState {
        rx: after_receive(s.rx, c),
        overruns: if has_room(s.rx) || s.overruns == u64::MAX {
            s.overruns
        } else {
            (s.overruns + 1) as u64
        },
        ..s
    }
}

/// The register write that puts `c` on the wire.
pub open spec fn transmit_write(base: u32, c: u8) -> RegisterWrite {
    RegisterWrite::Overwrite { addr: (base + DR) as u32, value: c as u32 }
}

/// The register writes that configure and arm a UART, in the order the
/// hardware needs them: divisors, line control, control (which enables the
/// UART), the line at the interrupt controller, and the receive interrupt at
/// the peripheral (setting its bit only, so other mask bits stay).
pub open spec fn open_writes(base: u32, irq: u32, d: Divisors) -> Seq<RegisterWrite> {
    seq![
        RegisterWrite::Overwrite { addr: (base + IBRD) as u32, value: d.integer as u32 },
        RegisterWrite::Overwrite { addr: (base + FBRD) as u32, value: d.fraction as u32 },
        RegisterWrite::Overwrite { addr: (base + LCR_H) as u32, value: LCR_WLEN_8 },
        RegisterWrite::Overwrite { addr: (base + CR) as u32, value: CR_EN | CR_RXE | CR_TXE },
        RegisterWrite::Overwrite { addr: VIC_INT_ENABLE, value: 1u32 << irq },
        RegisterWrite::SetBits { addr: (base + IMSC) as u32, mask: IMSC_RXIM },
    ]
}

/// The register write that disarms a UART's interrupt line.
pub open spec fn close_writes(irq: u32) -> Seq<RegisterWrite> {
    seq![RegisterWrite::Overwrite { addr: VIC_INT_DISABLE, value: 1u32 << irq }]
}

/// Closing is idempotent: closing a closed device changes nothing, and a
/// closed device holds no unread byte.
pub proof fn lemma_close_idempotent(s: UartState)
    ensures
        closed_state(closed_state(s)) == closed_state(s),
        !state_open(closed_state(s)),
        closed_state(s).rx.len() == 0,
{
}

/// Opening at a supported rate, closing and opening again at that rate
/// succeeds both times, each time with an empty buffer, and ends in the same
/// state as the first open.
pub proof fn lemma_reopen(s: UartState, rate: u32)
    requires
        rate_supported(UART_CLK as int, rate as int),
    ensures
        state_open(opened_state(s, rate)),
        opened_state(s, rate).rx.len() == 0,
        state_open(opened_state(closed_state(opened_state(s, rate)), rate)),
        opened_state(closed_state(opened_state(s, rate)), rate).rx.len() == 0,
        opened_state(closed_state(opened_state(s, rate)), rate) == opened_state(s, rate),
{
}

/// Driver for one PL011 UART: its register block, interrupt line, baud
/// configuration and receive buffer.
pub struct PL011 {
    base: u32,
    irq: u32,
    rate: u32,
    rx: RingBuffer,
    overruns: u64,
}

impl View for PL011 {
    type V = UartState;

    closed spec fn view(&self) -> UartState {
        UartState {
            base: self.base,
            irq: self.irq,
            rate: self.rate,
            rx: self.rx@,
            overruns: self.overruns,
        }
    }
}

impl PL011 {
    /// The buffer is well formed, the register block and interrupt line are
    /// addressable, and an open device holds a rate that can be programmed.
    pub closed spec fn wf(&self) -> bool {
        &&& self.rx.wf()
        &&& self.base <= MAX_BASE
        &&& self.irq < 32
        &&& (self.rate == 0 || rate_supported(UART_CLK as int, self.rate as int))
    }

    /// A closed device on the register block at `base`, wired to interrupt
    /// line `irq`.
    pub fn new(base: u32, irq: u32) -> (r: PL011)
        requires
            base <= MAX_BASE,
            irq < 32,
        ensures
            r.wf(),
            r@ == (UartState { base, irq, rate: 0, rx: Seq::empty(), overruns: 0 }),
    {
        PL011 { base, irq, rate: 0, rx: RingBuffer::new(), overruns: 0 }
    }

    pub fn base(&self) -> (r: u32)
        ensures
            r == self@.base,
    {
        self.base
    }

    pub fn irq(&self) -> (r: u32)
        ensures
            r == self@.irq,
    {
        self.irq
    }

    /// The configured baud rate, 0 while closed.
    pub fn rate(&self) -> (r: u32)
        ensures
            r == self@.rate,
    {
        self.rate
    }

    /// Number of received bytes that were dropped because the buffer was full.
    pub fn overruns(&self) -> (r: u64)
        ensures
            r == self@.overruns,
    {
        self.overruns
    }

    /// Configures the device for `rate` baud and empties its buffer.  Fails,
    /// leaving the device closed, when the rate's integer divisor would be 0
    /// or the 16-bit maximum.  On success the caller performs
    /// `open_program` to program the hardware.
    pub fn open(&mut self, rate: u32) -> (ok: bool)
        requires
            old(self).wf(),
        ensures
            final(self).wf(),
            ok == rate_supported(UART_CLK as int, rate as int),
            state_open(final(self)@) == ok,
            final(self)@ == opened_state(old(self)@, rate),
    {
        match checked_divisors(UART_CLK, rate) {
            Some(_) => {
                self.rate = rate;
                self.rx.clear();
                true
            },
            None => {
                self.close();
                false
            },
        }
    }

    pub fn is_open(&self) -> (r: bool)
        ensures
            r == state_open(self@),
    {
        self.rate != 0
    }

    /// Closes the device and drops every unread byte; always succeeds.  The
    /// caller performs `close_program` to disarm the interrupt line.
    pub fn close(&mut self) -> (ok: bool)
        requires
            old(self).wf(),
        ensures
            final(self).wf(),
            ok,
            !state_open(final(self)@),
            final(self)@ == closed_state(old(self)@),
    {
        self.rate = 0;
        self.rx.clear();
        true
    }

    /// Number of unread bytes.
    pub fn available(&self) -> (n: usize)
        requires
            self.wf(),
        ensures
            n == self@.rx.len(),
    {
        self.rx.available()
    }

    /// Takes one byte from the receive interrupt: buffered when there is
    /// room, else dropped and counted as an overrun.
    pub fn receive(&mut self, c: u8) -> (accepted: bool)
        requires
            old(self).wf(),
        ensures
            final(self).wf(),
            accepted == has_room(old(self)@.rx),
            final(self)@ == received_state(old(self)@, c),
    {
        let accepted = self.rx.receive(c);
        if !accepted && self.overruns < u64::MAX {
            self.overruns = self.overruns + 1;
        }
        accepted
    }

    /// Moves the oldest unread byte into `c` and returns 1, or returns 0 and
    /// leaves `c` alone when nothing is buffered.
    pub fn read(&mut self, c: &mut u8) -> (n: usize)
        requires
            old(self).wf(),
        ensures
            final(self).wf(),
            old(self)@.rx.len() == 0 ==> n == 0 && *final(c) == *old(c) && final(self)@
                == old(self)@,
            old(self)@.rx.len() > 0 ==> n == 1 && *final(c) == old(self)@.rx[0] && final(self)@
                == (UartState { rx: old(self)@.rx.drop_first(), ..old(self)@ }),
    {
        self.rx.read(c)
    }

    /// Moves up to `length` unread bytes into `buf[0..]`, oldest first, and
    /// returns how many were moved: fewer than `length` when fewer wait.
    pub fn read_into(&mut self, buf: &mut [u8], length: usize) -> (n: usize)
        requires
            old(self).wf(),
            length <= old(buf)@.len(),
        ensures
            final(self).wf(),
            n == if length < old(self)@.rx.len() {
                length as int
            } else {
                old(self)@.rx.len() as int
            },
            final(buf)@ == old(self)@.rx.take(n as int) + old(buf)@.skip(n as int),
            final(self)@ == (UartState { rx: old(self)@.rx.skip(n as int), ..old(self)@ }),
    {
        self.rx.read_into(buf, length)
    }

    /// The register write that sends `c`.
    pub fn write_op(&self, c: u8) -> (w: RegisterWrite)
        requires
            self.wf(),
        ensures
            w == transmit_write(self@.base, c),
    {
        RegisterWrite::Overwrite { addr: self.base + DR, value: c as u32 }
    }

    /// The register writes that send `buf[0..length]`, one per byte, in order.
    pub fn write_buf_ops(&self, buf: &[u8], length: usize) -> (ws: Vec<RegisterWrite>)
        requires
            self.wf(),
            length <= buf@.len(),
        ensures
            ws@.len() == length,
            forall|i: int| 0 <= i < length ==> ws@[i] == transmit_write(self@.base, buf@[i]),
    {
        let mut ws: Vec<RegisterWrite> = Vec::new();
        let mut i: usize = 0;
        while i < length
            invariant
                self.wf(),
                i <= length,
                length <= buf@.len(),
                ws@.len() == i,
                forall|j: int| 0 <= j < i ==> ws@[j] == transmit_write(self@.base, buf@[j]),
            decreases length - i,
        {
            ws.push(self.write_op(buf[i]));
            i = i + 1;
        }
        ws
    }

    /// Bytes still to drain from the transmitter: writes go straight to the
    /// data register, so nothing is ever held back.
    pub fn flush(&self) -> (n: usize)
        ensures
            n == 0,
    {
        0
    }

    /// The register writes that program an open device's divisors and line
    /// settings, enable it and arm its receive interrupt.
    pub fn open_program(&self) -> (ws: Vec<RegisterWrite>)
        requires
            self.wf(),
            state_open(self@),
        ensures
            ws@ == open_writes(
                self@.base,
                self@.irq,
                Divisors {
                    integer: integer_divisor(UART_CLK as int, self@.rate as int) as u16,
                    fraction: fractional_divisor(UART_CLK as int, self@.rate as int) as u8,
                },
            ),
    {
        let d = match checked_divisors(UART_CLK, self.rate) {
            Some(d) => d,
            None => Divisors { integer: 0, fraction: 0 },
        };
        let ws = vec![
            RegisterWrite::Overwrite { addr: self.base + IBRD, value: d.integer as u32 },
            RegisterWrite::Overwrite { addr: self.base + FBRD, value: d.fraction as u32 },
            RegisterWrite::Overwrite { addr: self.base + LCR_H, value: LCR_WLEN_8 },
            RegisterWrite::Overwrite { addr: self.base + CR, value: CR_EN | CR_RXE | CR_TXE },
            RegisterWrite::Overwrite { addr: VIC_INT_ENABLE, value: 1u32 << self.irq },
            RegisterWrite::SetBits { addr: self.base + IMSC, mask: IMSC_RXIM },
        ];
        assert(ws@ =~= open_writes(self@.base, self@.irq, d));
        ws
    }

    /// The register writes that disarm the device's interrupt line.
    pub fn close_program(&self) -> (ws: Vec<RegisterWrite>)
        requires
            self.wf(),
        ensures
            ws@ == close_writes(self@.irq),
    {
        let ws = vec![RegisterWrite::Overwrite { addr: VIC_INT_DISABLE, value: 1u32 << self.irq }];
        assert(ws@ =~= close_writes(self@.irq));
        ws
    }
}

/// Whether the transmitter can take a byte, given the flag register's value.
pub fn tx_ready(flags: u32) -> (r: bool)
    ensures
        r == (flags & FR_TXFF == 0),
{
    flags & FR_TXFF == 0
}

} // verus!
