//! The register protocol that runs a compiled chain on a channel.
//!
//! The engine does not touch the hardware. It says, one action at a time,
//! what has to be done, and takes the answer to each action in before it
//! names the next one. Whoever drives it carries the actions out.
//!
//! A transfer is idle until the address of its first block has been
//! written, armed from then until the channel is started, running while
//! the channel is polled, and complete once the channel was seen at rest.

use vstd::prelude::*;
use crate::dma::registers::CONBLK_AD_OFFSET;
use crate::dma::registers::CS_ACTIVE;
use crate::dma::registers::CS_OFFSET;
use crate::dma::registers::DEBUG_CLEAR_ERRORS;
use crate::dma::registers::DEBUG_OFFSET;
use crate::dma::registers::START;
use crate::dma::registers::end_flag;
use crate::dma::registers::get;
use crate::dma::registers::read;
use crate::dma::registers::start;

verus! {

/// The position at which the block address is written.
pub const AT_BLOCK_ADDRESS: u8 = 4;

/// The position at which the channel is started.
pub const AT_START: u8 = 8;

/// The position at which a round of polling begins.
pub const AT_POLL: u8 = 9;

/// The position at which the status is read.
pub const AT_STATUS: u8 = 10;

/// The position at which the cycle counter is read for the second time.
pub const AT_END_COUNT: u8 = 11;

/// The position at which the end flag is cleared.
pub const AT_CLEAR: u8 = 12;

/// The position at which the timing is handed out.
pub const AT_DONE: u8 = 15;

/// The cycle counter before a transfer was started and after it had ended.
#[derive(Debug, Copy, Clone, PartialEq, Eq, Structural)]
pub struct Timing {
    pub cycle_begin: u32,
    pub cycle_end: u32,
}

/// The cycles from `begin` to `end` on a counter that wraps at 32 bits.
pub open spec fn elapsed(begin: u32, end: u32) -> u32 {
    if end >= begin {
        (end - begin) as u32
    } else {
        (0x1_0000_0000 - begin + end) as u32
    }
}

impl Timing {
    /// The cycles that the transfer took, on a counter that wraps.
    pub fn cycles(&self) -> (cycles: u32)
        ensures
            cycles == elapsed(self.cycle_begin, self.cycle_end),
    {
        self.cycle_end.wrapping_sub(self.cycle_begin)
    }
}

/// What the driver is asked to do.
#[derive(Debug, Copy, Clone, PartialEq, Eq, Structural)]
pub enum Action {
    /// Wait until every write before this point has reached memory.
    Barrier,
    /// Clean and invalidate the whole data cache.
    CleanInvalidateCache,
    /// Read the cycle counter and answer with its value.
    ReadCycleCounter,
    /// Read the register at `address` and answer with its value.
    Read { address: u32 },
    /// Write `value` to the register at `address`.
    Write { address: u32, value: u32 },
    /// Nothing is left to do; this is how long the transfer took.
    Done(Timing),
}

/// How far a transfer has come.
#[derive(Debug, Copy, Clone, PartialEq, Eq, Structural)]
pub enum Phase {
    Idle,
    Armed,
    Running,
    Complete,
}

/// A transfer as the protocol sees it.
pub struct Run {
    /// Address of the channel's register block.
    pub base: u32,
    /// Bus address of the first control block.
    pub block: u32,
    /// Position of the action that is named next.
    pub at: u8,
    /// The cycle counter before the start.
    pub begin: u32,
    /// The cycle counter after the end.
    pub end: u32,
    /// The status that was read last.
    pub status: u32,
}

/// Whether a status word shows the channel at work.
pub open spec fn active(status: u32) -> bool {
    get(status, CS_ACTIVE, 1) != 0
}

impl Run {
    /// A transfer of which nothing has been done yet.
    pub open spec fn fresh(base: u32, block: u32) -> Run {
        Run { base, block, at: 0, begin: 0, end: 0, status: 0 }
    }

    /// How far the transfer has come.
    pub open spec fn phase(self) -> Phase {
        if self.at <= AT_BLOCK_ADDRESS {
            Phase::Idle
        } else if self.at <= AT_START {
            Phase::Armed
        } else if self.at <= AT_END_COUNT {
            Phase::Running
        } else {
            Phase::Complete
        }
    }

    /// The transfer once the answer to the action named last is taken in.
    /// The first count is kept as the beginning, the second as the end. A
    /// status that shows the channel at work leads back to polling.
    pub open spec fn absorb(self, reply: u32) -> Run {
        if self.at == AT_START {
            Run { begin: reply, ..self }
        } else if self.at == AT_END_COUNT {
            if active(reply) {
                Run { status: reply, at: AT_POLL, ..self }
            } else {
                Run { status: reply, ..self }
            }
        } else if self.at == AT_CLEAR {
            Run { end: reply, ..self }
        } else {
            self
        }
    }

    /// The action at the transfer's position.
    pub open spec fn action(self) -> Action {
        if self.at == 0 {
            Action::Barrier
        } else if self.at == 1 {
            Action::CleanInvalidateCache
        } else if self.at == 2 {
            Action::Write { address: (self.base + CS_OFFSET) as u32, value: 2 }
        } else if self.at == 3 {
            Action::Write { address: (self.base + DEBUG_OFFSET) as u32, value: DEBUG_CLEAR_ERRORS }
        } else if self.at == AT_BLOCK_ADDRESS {
            Action::Write { address: (self.base + CONBLK_AD_OFFSET) as u32, value: self.block }
        } else if self.at == 5 {
            Action::CleanInvalidateCache
        } else if self.at == 6 {
            Action::Barrier
        } else if self.at == 7 {
            Action::ReadCycleCounter
        } else if self.at == AT_START {
            Action::Write { address: (self.base + CS_OFFSET) as u32, value: START }
        } else if self.at == AT_POLL {
            Action::Barrier
        } else if self.at == AT_STATUS {
            Action::Read { address: (self.base + CS_OFFSET) as u32 }
        } else if self.at == AT_END_COUNT {
            Action::ReadCycleCounter
        } else if self.at == AT_CLEAR {
            Action::Write { address: (self.base + CS_OFFSET) as u32, value: self.status | 2 }
        } else if self.at == 13 {
            Action::CleanInvalidateCache
        } else if self.at == 14 {
            Action::Barrier
        } else {
            Action::Done(Timing { cycle_begin: self.begin, cycle_end: self.end })
        }
    }

    /// The transfer one position further; the last position is kept.
    pub open spec fn advance(self) -> Run {
        if self.at < AT_DONE {
            Run { at: (self.at + 1) as u8, ..self }
        } else {
            self
        }
    }

    /// One step: the answer to the action named last is taken in, the
    /// action at the position reached is named, and the position moves on.
    pub open spec fn step(self, reply: u32) -> (Run, Action) {
        (self.absorb(reply).advance(), self.absorb(reply).action())
    }

    /// What the protocol relies on: the register block lies where its
    /// registers can be addressed, and the position is one of the script.
    pub open spec fn wf(self) -> bool {
        self.base + DEBUG_OFFSET <= u32::MAX && self.at <= AT_DONE
    }
}

/// A transfer in progress on one channel.
pub struct Transfer {
    base: u32,
    block: u32,
    at: u8,
    begin: u32,
    end: u32,
    status: u32,
}

impl View for Transfer {
    type V = Run;

    closed spec fn view(&self) -> Run {
        Run {
            base: self.base,
            block: self.block,
            at: self.at,
            begin: self.begin,
            end: self.end,
            status: self.status,
        }
    }
}

impl Transfer {
    #[verifier::type_invariant]
    spec fn inv(self) -> bool {
        self@.wf()
    }

    /// A transfer of the chain whose first block has the bus address
    /// `block`, on the channel whose register block lies at `base`.
    pub(crate) fn new(base: u32, block: u32) -> (transfer: Transfer)
        requires
            base + DEBUG_OFFSET <= u32::MAX,
        ensures
            transfer@ == Run::fresh(base, block),
    {
        Transfer { base, block, at: 0, begin: 0, end: 0, status: 0 }
    }

    /// How far the transfer has come.
    pub fn phase(&self) -> (phase: Phase)
        ensures
            phase == self@.phase(),
    {
        if self.at <= AT_BLOCK_ADDRESS {
            Phase::Idle
        } else if self.at <= AT_START {
            Phase::Armed
        } else if self.at <= AT_END_COUNT {
            Phase::Running
        } else {
            Phase::Complete
        }
    }

    /// Takes in `reply`, the answer to the action named last, and names the
    /// next action. The answer to an action that asks for none, and the
    /// answer passed to the first step, are ignored.
    pub fn step(&mut self, reply: u32) -> (action: Action)
        ensures
            (final(self)@, action) == old(self)@.step(reply),
    {
        proof {
            use_type_invariant(&*self);
        }
        if self.at == AT_START {
            self.begin = reply;
        } else if self.at == AT_END_COUNT {
            self.status = reply;
            if read(reply, CS_ACTIVE, 1) != 0 {
                self.at = AT_POLL;
            }
        } else if self.at == AT_CLEAR {
            self.end = reply;
        }
        let action = if self.at == 0 {
            Action::Barrier
        } else if self.at == 1 {
            Action::CleanInvalidateCache
        } else if self.at == 2 {
            Action::Write { address: self.base + CS_OFFSET, value: end_flag() }
        } else if self.at == 3 {
            Action::Write { address: self.base + DEBUG_OFFSET, value: DEBUG_CLEAR_ERRORS }
        } else if self.at == AT_BLOCK_ADDRESS {
            Action::Write { address: self.base + CONBLK_AD_OFFSET, value: self.block }
        } else if self.at == 5 {
            Action::CleanInvalidateCache
        } else if self.at == 6 {
            Action::Barrier
        } else if self.at == 7 {
            Action::ReadCycleCounter
        } else if self.at == AT_START {
            Action::Write { address: self.base + CS_OFFSET, value: start() }
        } else if self.at == AT_POLL {
            Action::Barrier
        } else if self.at == AT_STATUS {
            Action::Read { address: self.base + CS_OFFSET }
        } else if self.at == AT_END_COUNT {
            Action::ReadCycleCounter
        } else if self.at == AT_CLEAR {
            Action::Write { address: self.base + CS_OFFSET, value: self.status | end_flag() }
        } else if self.at == 13 {
            Action::CleanInvalidateCache
        } else if self.at == 14 {
            Action::Barrier
        } else {
            Action::Done(Timing { cycle_begin: self.begin, cycle_end: self.end })
        };
        if self.at < AT_DONE {
            self.at = self.at + 1;
        }
        action
    }
}

} // verus!
