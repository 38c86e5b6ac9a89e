//! Where the register blocks of the channels lie.

use vstd::prelude::*;
use crate::fault::Fault;

verus! {

/// Offset of the block of channel 0 from the peripheral base.
pub const CHANNEL_0_14_OFFSET_FROM_PERI_BASE: u32 = 0x00_7000;

/// Offset of the block of channel 15 from the peripheral base.
pub const CHANNEL_15_OFFSET_FROM_PERI_BASE: u32 = 0xE0_5000;

/// Distance between the blocks of two neighbours among channels 0 to 14.
pub const CHANNEL_STRIDE: u32 = 0x100;

/// The peripheral base as the processor sees it.
pub const PERI_BASE_ARM: u32 = 0x2000_0000;

/// The processor address of the register block of `channel`, if there is
/// such a channel.
pub open spec fn channel_base(channel: usize) -> Option<u32> {
    if channel <= 14 {
        Some((PERI_BASE_ARM + CHANNEL_0_14_OFFSET_FROM_PERI_BASE + channel * CHANNEL_STRIDE) as u32)
    } else if channel == 15 {
        Some((PERI_BASE_ARM + CHANNEL_15_OFFSET_FROM_PERI_BASE) as u32)
    } else {
        None
    }
}

/// The processor address of the register block of `channel`: channels 0 to
/// 14 follow one another; channel 15 stands apart.
pub fn channel_ptr(channel: usize) -> (base: Result<u32, Fault>)
    ensures
        base == match channel_base(channel) {
            Some(address) => Ok::<u32, Fault>(address),
            None => Err(Fault::NoSuchChannel),
        },
{
    if channel <= 14 {
        let index: u32 = channel as u32;
        Ok(PERI_BASE_ARM + CHANNEL_0_14_OFFSET_FROM_PERI_BASE + index * CHANNEL_STRIDE)
    } else if channel == 15 {
        Ok(PERI_BASE_ARM + CHANNEL_15_OFFSET_FROM_PERI_BASE)
    } else {
        Err(Fault::NoSuchChannel)
    }
}

/// Every register block lies in the peripheral window, and no two channels
/// share one.
pub proof fn lemma_channel_blocks(a: usize, b: usize)
    requires
        a <= 15,
        b <= 15,
    ensures
        (channel_base(a) matches Some(base) && 0x2000_0000 <= base && base + 0x100 <= 0x2100_0000),
        a != b ==> channel_base(a) != channel_base(b),
{
}

/// The right to use one channel. It is handed out by the set of channels
/// that are free, one per channel, and cannot be copied.
pub struct Channel {
    index: usize,
}

impl Channel {
    #[verifier::type_invariant]
    spec fn in_range(self) -> bool {
        self.index <= 15
    }

    /// The number of the channel.
    pub closed spec fn index_of(self) -> usize {
        self.index
    }

    /// The right to use channel `index`.
    pub(crate) fn new(index: usize) -> (channel: Channel)
        requires
            index <= 15,
        ensures
            channel.index_of() == index,
    {
        Channel { index }
    }

    /// The number of the channel.
    pub fn index(&self) -> (index: usize)
        ensures
            index == self.index_of(),
            index <= 15,
    {
        proof {
            use_type_invariant(self);
        }
        self.index
    }

    /// The processor address of the channel's register block.
    pub fn base(&self) -> (base: u32)
        ensures
            channel_base(self.index_of()) == Some(base),
    {
        proof {
            use_type_invariant(self);
        }
        match channel_ptr(self.index) {
            Ok(base) => base,
            Err(_) => 0,
        }
    }
}

} // verus!
