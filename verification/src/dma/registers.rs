//! The registers of a channel and the control block that the engine reads.
//!
//! A control block is eight words, thirty-two bytes, and must start at a
//! multiple of thirty-two. A channel exposes its control and status word,
//! the address of the block it works on, and a debug word.

use vstd::prelude::*;
use tock_registers::fields::Field;
use tock_registers::fields::FieldValue;
use tock_registers::LocalRegisterCopy;
use crate::dilf::OpFieldId;

verus! {

/// Size of a control block in bytes, and its alignment.
pub const CB_SIZE: u32 = 0x20;

/// Offset of the control and status register in a channel's block.
pub const CS_OFFSET: u32 = 0x00;

/// Offset of the control block address register in a channel's block.
pub const CONBLK_AD_OFFSET: u32 = 0x04;

/// Offset of the debug register in a channel's block.
pub const DEBUG_OFFSET: u32 = 0x20;

/// What is written to the debug register to clear its three error flags.
pub const DEBUG_CLEAR_ERRORS: u32 = 7;

/// Control and status: resets the channel.
pub const CS_RESET: u32 = 31;

/// Control and status: aborts the current control block.
pub const CS_ABORT: u32 = 30;

/// Control and status: the channel ignores the debug pause signal.
pub const CS_DISDEBUG: u32 = 29;

/// Control and status: a transfer ends only when its last write is answered.
pub const CS_WAIT_FOR_OUTSTANDING_WRITES: u32 = 28;

/// Control and status: bus priority of panic transactions.
pub const CS_PANIC_PRIORITY: u32 = 20;

/// Width in bits of the field at `CS_PANIC_PRIORITY`.
pub const CS_PANIC_PRIORITY_WIDTH: u32 = 4;

/// Control and status: bus priority of normal transactions.
pub const CS_PRIORITY: u32 = 16;

/// Width in bits of the field at `CS_PRIORITY`.
pub const CS_PRIORITY_WIDTH: u32 = 4;

/// Control and status: an error is latched in the debug register.
pub const CS_ERROR: u32 = 8;

/// Control and status: the channel waits for its last write to be answered.
pub const CS_WAITING_FOR_OUTSTANDING_WRITES: u32 = 6;

/// Control and status: the data request stopped the channel.
pub const CS_DREQ_STOPS_DMA: u32 = 5;

/// Control and status: the channel is paused.
pub const CS_PAUSED: u32 = 4;

/// Control and status: state of the selected data request.
pub const CS_DREQ: u32 = 3;

/// Control and status: interrupt status, cleared by writing one.
pub const CS_INT: u32 = 2;

/// Control and status: the transfer has ended, cleared by writing one.
pub const CS_END: u32 = 1;

/// Control and status: the channel is working; writing one starts it.
pub const CS_ACTIVE: u32 = 0;

/// Transfer information: no bursts wider than the bus of the peripherals.
pub const TI_NO_WIDE_BURSTS: u32 = 26;

/// Transfer information: wait cycles after each access.
pub const TI_WAITS: u32 = 21;

/// Width in bits of the field at `TI_WAITS`.
pub const TI_WAITS_WIDTH: u32 = 5;

/// Transfer information: the peripheral that paces the transfer.
pub const TI_PERMAP: u32 = 16;

/// Width in bits of the field at `TI_PERMAP`.
pub const TI_PERMAP_WIDTH: u32 = 5;

/// Transfer information: words per burst.
pub const TI_BURST_LENGTH: u32 = 12;

/// Width in bits of the field at `TI_BURST_LENGTH`.
pub const TI_BURST_LENGTH_WIDTH: u32 = 4;

/// Transfer information: the source is not read.
pub const TI_SRC_IGNORE: u32 = 11;

/// Transfer information: the data request paces the reads.
pub const TI_SRC_DREQ: u32 = 10;

/// Transfer information: the source is read 128 bits at a time.
pub const TI_SRC_WIDTH: u32 = 9;

/// Transfer information: the source address advances.
pub const TI_SRC_INC: u32 = 8;

/// Transfer information: the destination is not written.
pub const TI_DEST_IGNORE: u32 = 7;

/// Transfer information: the data request paces the writes.
pub const TI_DEST_DREQ: u32 = 6;

/// Transfer information: the destination is written 128 bits at a time.
pub const TI_DEST_WIDTH: u32 = 5;

/// Transfer information: the destination address advances.
pub const TI_DEST_INC: u32 = 4;

/// Transfer information: each write waits for its answer.
pub const TI_WAIT_RESP: u32 = 3;

/// Transfer information: two-dimensional mode.
pub const TI_TDMODE: u32 = 1;

/// Transfer information: interrupt when the block is done.
pub const TI_INTEN: u32 = 0;

/// The transfer information of every compiled block: a plain linear copy.
pub const LINEAR_COPY: u32 = 0x0400_0118;

/// What starts a channel: active, and waiting for its last write.
pub const START: u32 = 0x1000_0001;

/// Whether `width` bits from bit `offset` upwards lie inside a 32-bit word.
pub open spec fn fits(offset: u32, width: u32) -> bool {
    1 <= width && offset + width <= 32
}

/// The mask of a field of `width` bits before it is shifted into place.
pub open spec fn mask(width: u32) -> u32 {
    0xffff_ffffu32 >> ((32 - width) as u32)
}

/// `word` with the field at `offset` replaced by `value`; what of `value`
/// does not fit the field is dropped.
pub open spec fn put(word: u32, offset: u32, width: u32, value: u32) -> u32 {
    (word & !(mask(width) << offset)) | ((value & mask(width)) << offset)
}

/// `word` with every bit of the field at `offset` set.
pub open spec fn raised(word: u32, offset: u32, width: u32) -> u32 {
    put(word, offset, width, mask(width))
}

/// `word` with every bit of the field at `offset` clear.
pub open spec fn lowered(word: u32, offset: u32, width: u32) -> u32 {
    put(word, offset, width, 0)
}

/// What the field at `offset` holds in `word`.
pub open spec fn get(word: u32, offset: u32, width: u32) -> u32 {
    (word & (mask(width) << offset)) >> offset
}

/// Sets every bit of the field at `offset` in `word`.
pub fn set(word: u32, offset: u32, width: u32) -> (word_after: u32)
    requires
        fits(offset, width),
    ensures
        word_after == raised(word, offset, width),
{
    let ones: u32 = 0xffff_ffffu32 >> (32 - width);
    modify(word, ones, offset, ones)
}

/// Clears every bit of the field at `offset` in `word`.
pub fn clear(word: u32, offset: u32, width: u32) -> (word_after: u32)
    requires
        fits(offset, width),
    ensures
        word_after == lowered(word, offset, width),
{
    let ones: u32 = 0xffff_ffffu32 >> (32 - width);
    modify(word, ones, offset, 0)
}

/// Reads the field at `offset` out of `word`.
pub fn read(word: u32, offset: u32, width: u32) -> (value: u32)
    requires
        fits(offset, width),
    ensures
        value == get(word, offset, width),
{
    let ones: u32 = 0xffff_ffffu32 >> (32 - width);
    extract(word, ones, offset)
}

/// `tock_registers::LocalRegisterCopy::modify` on a copy of `word`, with the
/// field value that `tock_registers::fields::FieldValue::new` makes of
/// `ones`, `offset` and `value`: the bits of `word` under the shifted mask
/// are replaced by the masked, shifted value, all other bits are kept.
#[verifier::external_body]
fn modify(word: u32, ones: u32, offset: u32, value: u32) -> (modified: u32)
    requires
        offset < 32,
    ensures
        modified == (word & !(ones << offset)) | ((value & ones) << offset),
{
    let mut register: LocalRegisterCopy<u32> = LocalRegisterCopy::new(word);
    register.modify(FieldValue::<u32, ()>::new(ones, offset as usize, value));
    register.get()
}

/// `tock_registers::LocalRegisterCopy::read` on a copy of `word`, with the
/// field that `tock_registers::fields::Field::new` makes of `ones` and
/// `offset`: the bits of `word` under the shifted mask, shifted back down.
#[verifier::external_body]
fn extract(word: u32, ones: u32, offset: u32) -> (value: u32)
    requires
        offset < 32,
    ensures
        value == (word & (ones << offset)) >> offset,
{
    let register: LocalRegisterCopy<u32> = LocalRegisterCopy::new(word);
    register.read(Field::<u32, ()>::new(ones, offset as usize))
}

/// A zero word in which, one after the other, wide bursts are switched off,
/// the burst length is cleared, and answered writes and the advance of both
/// addresses are switched on.
pub open spec fn linear_copy_fields() -> u32 {
    let ti = raised(0, TI_NO_WIDE_BURSTS, 1);
    let ti = lowered(ti, TI_BURST_LENGTH, TI_BURST_LENGTH_WIDTH);
    let ti = raised(ti, TI_WAIT_RESP, 1);
    let ti = raised(ti, TI_DEST_INC, 1);
    raised(ti, TI_SRC_INC, 1)
}

/// The transfer information for a plain linear copy: no wide bursts, burst
/// length zero, every write answered, both addresses advancing.
pub fn linear_copy() -> (ti: u32)
    ensures
        ti == LINEAR_COPY,
        ti == linear_copy_fields(),
{
    let ti: u32 = set(0, TI_NO_WIDE_BURSTS, 1);
    let ti: u32 = clear(ti, TI_BURST_LENGTH, TI_BURST_LENGTH_WIDTH);
    let ti: u32 = set(ti, TI_WAIT_RESP, 1);
    let ti: u32 = set(ti, TI_DEST_INC, 1);
    let ti: u32 = set(ti, TI_SRC_INC, 1);
    proof {
        lemma_linear_copy();
    }
    ti
}

/// The word that starts a channel.
pub fn start() -> (cs: u32)
    ensures
        cs == START,
        cs == raised(raised(0, CS_ACTIVE, 1), CS_WAIT_FOR_OUTSTANDING_WRITES, 1),
{
    let cs: u32 = set(0, CS_ACTIVE, 1);
    let cs: u32 = set(cs, CS_WAIT_FOR_OUTSTANDING_WRITES, 1);
    proof {
        lemma_start();
    }
    cs
}

/// The word that clears the end flag of a channel.
pub fn end_flag() -> (cs: u32)
    ensures
        cs == 2,
        cs == raised(0, CS_END, 1),
{
    let cs: u32 = set(0, CS_END, 1);
    proof {
        lemma_end_flag();
    }
    cs
}

/// The fields of a linear copy add up to `LINEAR_COPY`, and nothing but
/// them is set in it: no pacing, no stride, no interrupt.
pub proof fn lemma_linear_copy()
    ensures
        linear_copy_fields() == LINEAR_COPY,
        get(LINEAR_COPY, TI_NO_WIDE_BURSTS, 1) == 1,
        get(LINEAR_COPY, TI_BURST_LENGTH, TI_BURST_LENGTH_WIDTH) == 0,
        get(LINEAR_COPY, TI_WAIT_RESP, 1) == 1,
        get(LINEAR_COPY, TI_DEST_INC, 1) == 1,
        get(LINEAR_COPY, TI_SRC_INC, 1) == 1,
        get(LINEAR_COPY, TI_TDMODE, 1) == 0,
        get(LINEAR_COPY, TI_INTEN, 1) == 0,
        get(LINEAR_COPY, TI_PERMAP, TI_PERMAP_WIDTH) == 0,
        get(LINEAR_COPY, TI_SRC_DREQ, 1) == 0,
        get(LINEAR_COPY, TI_DEST_DREQ, 1) == 0,
{
    assert(linear_copy_fields() == LINEAR_COPY && get(LINEAR_COPY, TI_NO_WIDE_BURSTS, 1) == 1
        && get(LINEAR_COPY, TI_BURST_LENGTH, TI_BURST_LENGTH_WIDTH) == 0 && get(
        LINEAR_COPY,
        TI_WAIT_RESP,
        1,
    ) == 1 && get(LINEAR_COPY, TI_DEST_INC, 1) == 1 && get(LINEAR_COPY, TI_SRC_INC, 1) == 1
        && get(LINEAR_COPY, TI_TDMODE, 1) == 0 && get(LINEAR_COPY, TI_INTEN, 1) == 0 && get(
        LINEAR_COPY,
        TI_PERMAP,
        TI_PERMAP_WIDTH,
    ) == 0 && get(LINEAR_COPY, TI_SRC_DREQ, 1) == 0 && get(LINEAR_COPY, TI_DEST_DREQ, 1) == 0)
        by (bit_vector);
}

/// The fields of the start word add up to `START`.
pub proof fn lemma_start()
    ensures
        raised(raised(0, CS_ACTIVE, 1), CS_WAIT_FOR_OUTSTANDING_WRITES, 1) == START,
        get(START, CS_ACTIVE, 1) == 1,
{
    assert(raised(raised(0, CS_ACTIVE, 1), CS_WAIT_FOR_OUTSTANDING_WRITES, 1) == START && get(
        START,
        CS_ACTIVE,
        1,
    ) == 1) by (bit_vector);
}

/// The end flag is bit one.
pub proof fn lemma_end_flag()
    ensures
        raised(0, CS_END, 1) == 2,
{
    assert(raised(0, CS_END, 1) == 2) by (bit_vector);
}

/// A control block, field by field in the order in which the engine reads
/// it.
#[derive(Debug, Copy, Clone, PartialEq, Eq, Structural)]
pub struct CB {
    pub ti: u32,
    pub source_ad: u32,
    pub dest_ad: u32,
    pub txfr_len: u32,
    pub stride: u32,
    pub nextconbk: u32,
    pub pad0: u32,
    pub pad1: u32,
}

/// The word of a control block in which the field for `field_id` lies.
pub open spec fn field_word(field_id: OpFieldId) -> nat {
    match field_id {
        OpFieldId::Dst => 2,
        OpFieldId::Src => 1,
        OpFieldId::Len => 3,
        OpFieldId::Nxt => 5,
    }
}

/// The word of a control block in which the field for `op_field_id` lies.
pub fn op_field_offset(op_field_id: OpFieldId) -> (word: usize)
    ensures
        word == field_word(op_field_id),
{
    match op_field_id {
        OpFieldId::Dst => 2,
        OpFieldId::Src => 1,
        OpFieldId::Len => 3,
        OpFieldId::Nxt => 5,
    }
}

impl CB {
    /// The block of all zeroes, as fresh memory holds it.
    pub open spec fn zeroed() -> CB {
        CB { ti: 0, source_ad: 0, dest_ad: 0, txfr_len: 0, stride: 0, nextconbk: 0, pad0: 0, pad1: 0 }
    }

    /// The eight words of the block as they lie in memory.
    pub open spec fn layout(self) -> Seq<u32> {
        seq![
            self.ti,
            self.source_ad,
            self.dest_ad,
            self.txfr_len,
            self.stride,
            self.nextconbk,
            self.pad0,
            self.pad1,
        ]
    }

    /// The block of all zeroes.
    pub fn zero() -> (cb: CB)
        ensures
            cb == CB::zeroed(),
    {
        CB { ti: 0, source_ad: 0, dest_ad: 0, txfr_len: 0, stride: 0, nextconbk: 0, pad0: 0, pad1: 0 }
    }

    /// The eight words of the block as they lie in memory.
    pub fn words(&self) -> (words: [u32; 8])
        ensures
            words@ == self.layout(),
    {
        [
            self.ti,
            self.source_ad,
            self.dest_ad,
            self.txfr_len,
            self.stride,
            self.nextconbk,
            self.pad0,
            self.pad1,
        ]
    }
}

/// A field reference points at the word that holds that field.
pub proof fn lemma_field_words(cb: CB)
    ensures
        cb.layout().len() == 8,
        cb.layout()[field_word(OpFieldId::Src) as int] == cb.source_ad,
        cb.layout()[field_word(OpFieldId::Dst) as int] == cb.dest_ad,
        cb.layout()[field_word(OpFieldId::Len) as int] == cb.txfr_len,
        cb.layout()[field_word(OpFieldId::Nxt) as int] == cb.nextconbk,
{
}

} // verus!
