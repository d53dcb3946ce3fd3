use vstd::prelude::*;

verus! {

/// Largest value of the 16-bit integer-divisor register.
pub const MAX_INTEGER_DIVISOR: u16 = 0xFFFF;

/// `floor(clk / (16 * rate))`, the whole part of the divisor, before it is
/// fitted into 16 bits.
pub open spec fn divisor_quotient(clk: int, rate: int) -> int {
    clk / (16 * rate)
}

/// The integer divisor: the whole part of `clk / (16 * rate)`, saturated to
/// the 16-bit maximum.
pub open spec fn integer_divisor(clk: int, rate: int) -> int {
    let q = divisor_quotient(clk, rate);
    if q > 0xFFFF {
        0xFFFF
    } else {
        q
    }
}

/// `floor(8 * (clk mod 16 * rate) / rate)`: the remainder of the division in
/// steps of 1/128 of a divisor unit.
pub open spec fn remainder_steps(clk: int, rate: int) -> int {
    (8 * (clk % (16 * rate))) / rate
}

/// The 6-bit fractional divisor: half the remainder steps, rounded half up,
/// kept to its low six bits.
pub open spec fn fractional_divisor(clk: int, rate: int) -> int {
    ((remainder_steps(clk, rate) + 1) / 2) % 64
}

/// A rate can be programmed when it is positive and its integer divisor is
/// neither zero (rate too high) nor saturated (rate too low).
pub open spec fn rate_supported(clk: int, rate: int) -> bool {
    &&& rate >= 1
    &&& integer_divisor(clk, rate) != 0
    &&& integer_divisor(clk, rate) != 0xFFFF
}

/// The pair of values for the integer and fractional baud-rate registers.
#[derive(Clone, Copy, Debug, PartialEq, Eq, Structural)]
pub struct Divisors {
    pub integer: u16,
    pub fraction: u8,
}

/// Integer and fractional divisors for `rate` baud from a clock of `clk` Hz.
pub fn divisors(clk: u64, rate: u32) -> (d: Divisors)
    requires
        rate >= 1,
    ensures
        d.integer == integer_divisor(clk as int, rate as int),
        d.fraction == fractional_divisor(clk as int, rate as int),
        d.fraction < 64,
{
    let div: u64 = 16 * (rate as u64);
    let q: u64 = clk / div;
    let integer: u16 = if q > 0xFFFF {
        MAX_INTEGER_DIVISOR
    } else {
        q as u16
    };
    let rem: u64 = clk % div;
    let r64: u64 = rate as u64;
    assert(8 * rem < 128 * r64) by (nonlinear_arith)
        requires
            rem < div,
            div == 16 * r64,
    ;
    let m: u64 = 8 * rem;
    let t: u64 = m / r64;
    assert(t < 128) by (nonlinear_arith)
        requires
            t == m / r64,
            m < 128 * r64,
            r64 >= 1,
    ;
    let h: u64 = t >> 1u64;
    let l: u64 = t & 1u64;
    assert(h == t / 2 && l == t % 2) by (bit_vector)
        requires
            h == t >> 1u64,
            l == t & 1u64,
    ;
    let s: u64 = h + l;
    let f: u64 = s & 0x3Fu64;
    assert(f == s % 64) by (bit_vector)
        requires
            f == s & 0x3Fu64,
    ;
    Divisors { integer, fraction: f as u8 }
}

/// Whether `rate` baud can be programmed from a clock of `clk` Hz.
pub fn is_supported(clk: u64, rate: u32) -> (r: bool)
    ensures
        r == rate_supported(clk as int, rate as int),
{
    if rate == 0 {
        return false;
    }
    let d = divisors(clk, rate);
    d.integer != 0 && d.integer != MAX_INTEGER_DIVISOR
}

/// The divisors for `rate`, or `None` when the rate cannot be programmed.
pub fn checked_divisors(clk: u64, rate: u32) -> (r: Option<Divisors>)
    ensures
        r is Some <==> rate_supported(clk as int, rate as int),
        r matches Some(d) ==> d.integer == integer_divisor(clk as int, rate as int)
            && d.fraction == fractional_divisor(clk as int, rate as int),
{
    if rate == 0 {
        return None;
    }
    let d = divisors(clk, rate);
    if d.integer == 0 || d.integer == MAX_INTEGER_DIVISOR {
        None
    } else {
        Some(d)
    }
}

} // verus!
