//! How the bus master sees the addresses of the processor.
//!
//! Memory below the peripheral window is reached through its uncached
//! alias; the peripheral window is reached at its bus base. No other
//! address has a counterpart on the bus.

use vstd::prelude::*;
use crate::fault::Fault;

verus! {

/// First address of the peripheral window, and the end of plain memory.
pub const PERIPHERAL_BASE: u32 = 0x2000_0000;

/// First address after the peripheral window.
pub const PERIPHERAL_END: u32 = 0x2100_0000;

/// The bit that selects the uncached alias of plain memory.
pub const UNCACHED_ALIAS: u32 = 0x4000_0000;

/// Where the bus master finds the peripheral window.
pub const PERIPHERAL_BUS_BASE: u32 = 0x7e00_0000;

/// The bus address of the processor address `arm`, if it has one.
pub open spec fn bus_address(arm: u32) -> Option<u32> {
    if arm < PERIPHERAL_BASE {
        Some(arm | UNCACHED_ALIAS)
    } else if arm < PERIPHERAL_END {
        Some(((arm - PERIPHERAL_BASE) + PERIPHERAL_BUS_BASE) as u32)
    } else {
        None
    }
}

/// The same as a result: an address without a counterpart is a fault.
pub open spec fn bus_result(arm: u32) -> Result<u32, Fault> {
    match bus_address(arm) {
        Some(bus) => Ok(bus),
        None => Err(Fault::NoMapping),
    }
}

/// Translates a processor address into the address that the bus master
/// must use for the same location.
pub fn arm_to_vc(arm: u32) -> (vc: Result<u32, Fault>)
    ensures
        vc == bus_result(arm),
        arm < 0x2000_0000 ==> vc == Ok::<u32, Fault>(arm | 0x4000_0000),
        0x2000_0000 <= arm < 0x2100_0000 ==> vc == Ok::<u32, Fault>(
            ((arm - 0x2000_0000) + 0x7e00_0000) as u32,
        ),
        arm >= 0x2100_0000 ==> vc == Err::<u32, Fault>(Fault::NoMapping),
{
    if arm < PERIPHERAL_BASE {
        Ok(arm | UNCACHED_ALIAS)
    } else if arm < PERIPHERAL_END {
        Ok((arm - PERIPHERAL_BASE) + PERIPHERAL_BUS_BASE)
    } else {
        Err(Fault::NoMapping)
    }
}

/// Below the peripheral window the alias bit is clear, so setting it adds it.
pub proof fn lemma_alias_adds(arm: u32)
    requires
        arm < PERIPHERAL_BASE,
    ensures
        arm | UNCACHED_ALIAS == arm + UNCACHED_ALIAS,
{
    assert(arm < 0x2000_0000u32 ==> arm | 0x4000_0000u32 == arm + 0x4000_0000u32) by (bit_vector);
}

/// The two windows land in separate ranges of the bus.
pub proof fn lemma_bus_ranges(arm: u32)
    ensures
        arm < PERIPHERAL_BASE ==> (bus_address(arm) matches Some(bus) && UNCACHED_ALIAS <= bus
            < UNCACHED_ALIAS + PERIPHERAL_BASE),
        PERIPHERAL_BASE <= arm < PERIPHERAL_END ==> (bus_address(arm) matches Some(bus)
            && PERIPHERAL_BUS_BASE <= bus < PERIPHERAL_BUS_BASE + (PERIPHERAL_END
            - PERIPHERAL_BASE)),
{
    if arm < PERIPHERAL_BASE {
        lemma_alias_adds(arm);
    }
}

/// Two addresses with the same bus address are the same address.
pub proof fn lemma_bus_injective(a: u32, b: u32)
    requires
        bus_address(a) is Some,
        bus_address(a) == bus_address(b),
    ensures
        a == b,
{
    lemma_bus_ranges(a);
    lemma_bus_ranges(b);
    if a < PERIPHERAL_BASE {
        lemma_alias_adds(a);
    }
    if b < PERIPHERAL_BASE {
        lemma_alias_adds(b);
    }
}

} // verus!
