//! The clock of the mini UART.

use vstd::prelude::*;

verus! {

/// The rate of the clock that drives the mini UART, in hertz.
pub const MINI_UART_CLOCK_RATE: u32 = 250_000_000;

/// The highest baud rate that a divider exists for.
pub const MAX_BAUD_RATE: u32 = 31_250_000;

/// The divider for a baud rate: the clock rate over eight times the baud
/// rate, less one.
pub open spec fn divider(baud_rate: u32) -> int {
    MINI_UART_CLOCK_RATE as int / (8 * baud_rate) - 1
}

/// A divisor that is not above the clock rate goes into it at least once.
proof fn lemma_quotient(divisor: u32)
    requires
        0 < divisor <= MINI_UART_CLOCK_RATE,
    ensures
        MINI_UART_CLOCK_RATE / divisor >= 1,
{
    assert(250_000_000int / (divisor as int) >= 1) by (nonlinear_arith)
        requires
            0 < divisor <= 250_000_000,
    ;
}

/// Calculates the value of the clock divider for the desired baud rate:
/// the low sixteen bits of the divider, which is all of it unless the baud
/// rate is so low that the divider leaves the register. The baud rate must
/// not be zero nor above an eighth of the clock rate.
pub fn baud_to_clock_divider(baud_rate: u32) -> (clock_divider: u16)
    requires
        0 < baud_rate <= MAX_BAUD_RATE,
    ensures
        clock_divider == divider(baud_rate) % 0x1_0000,
        divider(baud_rate) <= u16::MAX ==> clock_divider == divider(baud_rate),
{
    let eighth: u32 = 8 * baud_rate;
    proof {
        lemma_quotient(eighth);
    }
    let whole: u32 = (MINI_UART_CLOCK_RATE / eighth) - 1;
    let low: u32 = whole & 0xffff;
    assert(low == whole % 0x1_0000 && low <= 0xffff) by (bit_vector)
        requires
            low == whole & 0xffff,
    ;
    low as u16
}

/// The divider for a baud rate, where the divider register can hold one.
pub fn checked_clock_divider(baud_rate: u32) -> (clock_divider: Option<u16>)
    ensures
        clock_divider is Some <==> 0 < baud_rate <= MAX_BAUD_RATE && divider(baud_rate)
            <= u16::MAX,
        clock_divider matches Some(value) ==> value == divider(baud_rate),
{
    if baud_rate == 0 || baud_rate > MAX_BAUD_RATE {
        return None;
    }
    let eighth: u32 = 8 * baud_rate;
    proof {
        lemma_quotient(eighth);
    }
    let quotient: u32 = MINI_UART_CLOCK_RATE / eighth;
    if quotient - 1 > 0xffff {
        None
    } else {
        Some(baud_to_clock_divider(baud_rate))
    }
}

} // verus!
