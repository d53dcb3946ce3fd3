use pl011_serial::baud::{checked_divisors, divisors, is_supported, Divisors};
use pl011_serial::io::{set_bits, RegisterWrite};
use pl011_serial::platform::{UART0_BASE, UART0_IRQ, UART_CLK, VIC_INT_DISABLE, VIC_INT_ENABLE};
use pl011_serial::ring::{RingBuffer, UART_BUFF_SZ};
use pl011_serial::uart::{tx_ready, PL011};

fn uart0() -> PL011 {
    PL011::new(UART0_BASE, UART0_IRQ)
}

#[test]
fn divisors_for_115200() {
    let d = divisors(24_000_000, 115200);
    assert_eq!(d, Divisors { integer: 13, fraction: 1 });
}

#[test]
fn divisors_round_half_up() {
    // remainder steps 5 -> 2.5 rounds to 3
    assert_eq!(divisors(24_000_000, 57600), Divisors { integer: 26, fraction: 3 });
    // remainder steps 32 -> 16
    assert_eq!(divisors(24_000_000, 9600), Divisors { integer: 156, fraction: 16 });
    // remainder steps 8 -> 4
    assert_eq!(divisors(24_000_000, 38400), Divisors { integer: 39, fraction: 4 });
}

#[test]
fn divisors_saturate_and_mask() {
    // 24 MHz / 16 at 1 baud is far above 16 bits
    assert_eq!(divisors(UART_CLK, 1).integer, 0xFFFF);
    // 127 remainder steps round to 64, which keeps no bit in six
    assert_eq!(divisors(255, 8), Divisors { integer: 1, fraction: 0 });
}

#[test]
fn supported_rates() {
    assert!(!is_supported(UART_CLK, 0));
    assert!(!is_supported(UART_CLK, 1));
    assert!(!is_supported(UART_CLK, 22));
    assert!(is_supported(UART_CLK, 23));
    assert!(is_supported(UART_CLK, 1_500_000));
    assert!(!is_supported(UART_CLK, 1_500_001));
    assert_eq!(checked_divisors(UART_CLK, 1_500_001), None);
    assert_eq!(
        checked_divisors(UART_CLK, 115200),
        Some(Divisors { integer: 13, fraction: 1 })
    );
}

#[test]
fn open_succeeds_only_for_programmable_rates() {
    let mut u = uart0();
    assert!(!u.is_open());
    assert!(u.open(115200));
    assert!(u.is_open());
    assert_eq!(u.rate(), 115200);
    assert!(!u.open(0));
    assert!(!u.is_open());
    assert_eq!(u.rate(), 0);
    assert!(!u.open(2_000_000));
    assert!(!u.is_open());
    assert!(!u.open(1));
    assert!(!u.is_open());
}

#[test]
fn failed_open_drops_buffered_bytes() {
    let mut u = uart0();
    assert!(u.open(9600));
    assert!(u.receive(7));
    assert!(!u.open(1));
    assert_eq!(u.available(), 0);
}

#[test]
fn buffer_capacity() {
    let mut u = uart0();
    assert!(u.open(9600));
    for i in 0..UART_BUFF_SZ {
        assert!(u.receive((i % 256) as u8));
    }
    assert_eq!(u.available(), UART_BUFF_SZ);
    assert!(!u.receive(0xEE));
    assert_eq!(u.available(), UART_BUFF_SZ);
    assert_eq!(u.overruns(), 1);
    let mut c: u8 = 0;
    for i in 0..UART_BUFF_SZ {
        assert_eq!(u.read(&mut c), 1);
        assert_eq!(c, (i % 256) as u8);
    }
    assert_eq!(u.available(), 0);
}

#[test]
fn fifo_order() {
    let mut u = uart0();
    assert!(u.open(9600));
    assert!(u.receive(0x41));
    assert!(u.receive(0x42));
    assert!(u.receive(0x43));
    let mut out = [0u8; 3];
    assert_eq!(u.read_into(&mut out, 3), 3);
    assert_eq!(out, [0x41, 0x42, 0x43]);
}

#[test]
fn close_is_idempotent() {
    let mut u = uart0();
    assert!(u.close());
    assert!(!u.is_open());
    assert_eq!(u.available(), 0);
    assert!(u.open(9600));
    assert!(u.receive(1));
    assert!(u.close());
    assert_eq!(u.available(), 0);
    assert!(u.close());
    assert!(!u.is_open());
    assert_eq!(u.available(), 0);
}

#[test]
fn open_close_open() {
    let mut u = uart0();
    assert!(u.open(9600));
    assert_eq!(u.available(), 0);
    assert!(u.receive(0x55));
    assert!(u.close());
    assert!(u.receive(0x66));
    assert!(u.open(9600));
    assert!(u.is_open());
    assert_eq!(u.available(), 0);
}

#[test]
fn partial_read() {
    let mut u = uart0();
    assert!(u.open(9600));
    assert!(u.receive(1));
    assert!(u.receive(2));
    assert!(u.receive(3));
    let mut buf = [0xAAu8; 10];
    assert_eq!(u.read_into(&mut buf, 10), 3);
    assert_eq!(&buf[..3], &[1, 2, 3]);
    assert_eq!(&buf[3..], &[0xAA; 7]);
    assert_eq!(u.available(), 0);
}

#[test]
fn read_into_stops_at_length() {
    let mut u = uart0();
    for b in 10u8..15 {
        assert!(u.receive(b));
    }
    let mut buf = [0u8; 4];
    assert_eq!(u.read_into(&mut buf, 2), 2);
    assert_eq!(buf, [10, 11, 0, 0]);
    assert_eq!(u.available(), 3);
}

#[test]
fn read_from_empty() {
    let mut u = uart0();
    let mut c: u8 = 9;
    assert_eq!(u.read(&mut c), 0);
    assert_eq!(c, 9);
    let mut buf = [5u8; 4];
    assert_eq!(u.read_into(&mut buf, 4), 0);
    assert_eq!(buf, [5; 4]);
}

#[test]
fn ring_wraps_around() {
    let mut r = RingBuffer::new();
    let mut c: u8 = 0;
    for round in 0..3usize {
        for i in 0..1000usize {
            assert!(r.receive(((i + round) % 256) as u8));
        }
        for i in 0..1000usize {
            assert_eq!(r.read(&mut c), 1);
            assert_eq!(c, ((i + round) % 256) as u8);
        }
    }
    assert_eq!(r.available(), 0);
    r.receive(4);
    r.clear();
    assert_eq!(r.available(), 0);
}

#[test]
fn open_program_for_115200() {
    let mut u = uart0();
    assert!(u.open(115200));
    let ws = u.open_program();
    assert_eq!(
        ws,
        vec![
            RegisterWrite::Overwrite { addr: 0x101f_1024, value: 13 },
            RegisterWrite::Overwrite { addr: 0x101f_1028, value: 1 },
            RegisterWrite::Overwrite { addr: 0x101f_102C, value: 0x60 },
            RegisterWrite::Overwrite { addr: 0x101f_1030, value: 0x301 },
            RegisterWrite::Overwrite { addr: VIC_INT_ENABLE, value: 1 << 12 },
            RegisterWrite::SetBits { addr: 0x101f_1038, mask: 0x10 },
        ]
    );
}

#[test]
fn close_program_disarms_line() {
    let u = uart0();
    assert_eq!(
        u.close_program(),
        vec![RegisterWrite::Overwrite { addr: VIC_INT_DISABLE, value: 0x1000 }]
    );
}

#[test]
fn transmit_writes() {
    let u = uart0();
    assert_eq!(u.write_op(b'A'), RegisterWrite::Overwrite { addr: 0x101f_1000, value: 0x41 });
    let ws = u.write_buf_ops(b"hey!", 3);
    assert_eq!(
        ws,
        vec![
            RegisterWrite::Overwrite { addr: 0x101f_1000, value: b'h' as u32 },
            RegisterWrite::Overwrite { addr: 0x101f_1000, value: b'e' as u32 },
            RegisterWrite::Overwrite { addr: 0x101f_1000, value: b'y' as u32 },
        ]
    );
    assert_eq!(u.flush(), 0);
}

#[test]
fn transmitter_ready_flag() {
    assert!(tx_ready(0));
    assert!(tx_ready(0x80));
    assert!(!tx_ready(0x20));
    assert!(!tx_ready(0xFF));
}

#[test]
fn register_write_results() {
    assert_eq!(set_bits(0b1010, 0b0101), 0b1111);
    assert_eq!(set_bits(0xF0, 0x10), 0xF0);
    let s = RegisterWrite::SetBits { addr: 0x38, mask: 0x10 };
    assert!(s.reads_first());
    assert_eq!(s.result(0x21), 0x31);
    assert_eq!(s.addr(), 0x38);
    let h = RegisterWrite::Overwrite { addr: 0x24, value: 13 };
    assert!(!h.reads_first());
    assert_eq!(h.result(0xFFFF), 13);
}

#[test]
fn device_identity() {
    let u = uart0();
    assert_eq!(u.base(), 0x101f_1000);
    assert_eq!(u.irq(), 12);
    assert_eq!(u.rate(), 0);
    assert_eq!(u.overruns(), 0);
}
