//! The loader that owns the memory of a program, and the engine that runs it.
//!
//! An [`Executive`] is given one arena of memory when it is made. It hands
//! the arena out from its low end, first to the descriptor table and the
//! scratch buffer, then to chunks and indirection cells as they are asked
//! for. Nothing is ever handed back, so every address stays what it was.

pub mod bus;
pub mod engine;
pub mod laws;
pub mod sound;
pub mod model;
pub mod names;
pub mod order;
pub mod raw;
pub mod registers;

use vstd::prelude::*;
use vstd::slice::slice_to_vec;
use crate::dilf::DataRef;
use crate::dilf::Hole;
use crate::dilf::Layout;
use crate::dilf::Loader;
use crate::dilf::Op;
use crate::dilf::OpField;
use crate::dilf::OpFieldRef;
use crate::dma::bus::arm_to_vc;
use crate::dma::engine::Run;
use crate::dma::engine::Transfer;
use crate::dma::model::align_up;
use crate::dma::model::stepped;
use crate::dma::model::Cell;
use crate::dma::model::Region;
use crate::dma::model::State;
use crate::dma::model::CELL_SIZE;
use crate::dma::model::VOID_ALIGN;
use crate::dma::names::entries;
use crate::dma::names::NameTable;
use crate::dma::raw::channel_base;
use crate::dma::raw::lemma_channel_blocks;
use crate::dma::raw::Channel;
use crate::dma::registers::linear_copy;
use crate::dma::registers::op_field_offset;
use crate::dma::registers::CB;
use crate::dma::registers::CB_SIZE;
use crate::dma::sound::lemma_align_up;
use crate::dma::sound::lemma_create_wf;
use crate::dma::sound::lemma_indirect_wf;
use crate::dma::sound::lemma_load_chunk_wf;
use crate::dma::sound::lemma_map_routine_wf;
use crate::dma::sound::lemma_one_owner;
use crate::dma::sound::lemma_owner_holds;
use crate::dma::sound::lemma_poke_wf;
use crate::dma::sound::lemma_store_wf;
use crate::dma::sound::lemma_take;
use crate::dma::sound::lemma_translate_wf;
use crate::fault::Fault;

verus! {

/// A chunk as the executive keeps it.
struct Chunk {
    base: u32,
    data: Vec<u8>,
}

/// Owns the memory of a program: its chunks, its compiled descriptors and
/// its indirection cells, and the names given to chunks and entry points.
pub struct Executive {
    arena: u32,
    allocation: usize,
    used: usize,
    chunk_count: usize,
    chunk_map: Vec<Chunk>,
    symbol_map: NameTable,
    routine_map: NameTable,
    op_count: usize,
    op_arena: u32,
    ops: Vec<CB>,
    void: u32,
    void_size: usize,
    cells: Vec<Cell>,
}

/// Where a block of `size` bytes aligned to `align` lies in an arena of
/// which `used` bytes are spoken for, and how many are spoken for after it.
fn place(arena: u32, allocation: usize, used: usize, size: usize, align: usize) -> (placed: Option<
    (u32, usize),
>)
    requires
        arena + allocation <= u32::MAX,
        used <= allocation,
        0 < align,
    ensures
        placed is Some <==> align_up(arena + used, align as int) + size <= arena + allocation,
        placed matches Some((start, after)) ==> start == align_up(arena + used, align as int)
            && after == start + size - arena && after <= allocation,
{
    let cursor: u64 = arena as u64 + used as u64;
    let limit: u64 = arena as u64 + allocation as u64;
    let rest: u64 = cursor % (align as u64);
    let pad: u64 = if rest == 0 {
        0
    } else {
        align as u64 - rest
    };
    if pad > limit - cursor {
        return None;
    }
    let start: u64 = cursor + pad;
    if size as u64 > limit - start {
        return None;
    }
    Some((start as u32, (start - arena as u64) as usize + size))
}

impl View for Executive {
    type V = State;

    closed spec fn view(&self) -> State {
        State {
            arena: self.arena,
            capacity: self.allocation as nat,
            used: self.used as nat,
            table: self.op_arena,
            blocks: self.ops@,
            void: self.void,
            void_size: self.void_size as nat,
            chunk_limit: self.chunk_count as nat,
            chunks: Seq::new(
                self.chunk_map@.len(),
                |i: int| Region { base: self.chunk_map@[i].base, bytes: self.chunk_map@[i].data@ },
            ),
            cells: self.cells@,
            symbols: entries(self.symbol_map),
            routines: entries(self.routine_map),
        }
    }
}

impl Executive {
    /// Whether the executive knows the size of its descriptor table.
    pub closed spec fn counted(&self) -> bool {
        self.op_count == self.ops@.len()
    }

    /// Whether the executive is in a state that its own operations lead to.
    pub open spec fn wf(&self) -> bool {
        &&& self@.wf()
        &&& self.counted()
    }

    /// An executive over the arena of `allocation` bytes at `arena`, with
    /// room for `op_count` descriptors and `chunk_count` chunks, and a
    /// scratch buffer of `max_void` bytes.
    ///
    /// The arena must not start at address zero, must lie within the
    /// 32-bit address space and must hold the descriptor table and the
    /// scratch buffer; otherwise there is no memory to work with. No
    /// address that the executive hands out is zero.
    pub fn new(
        arena: u32,
        allocation: usize,
        op_count: usize,
        chunk_count: usize,
        max_void: usize,
    ) -> (made: Result<Executive, Fault>)
        ensures
            match State::create(
                arena,
                allocation as nat,
                op_count as nat,
                chunk_count as nat,
                max_void as nat,
            ) {
                Ok(state) => made matches Ok(executive) && executive@ == state && executive.wf(),
                Err(fault) => made matches Err(refused) && refused == fault,
            },
            arena == 0 ==> made is Err,
            made matches Ok(executive) ==> executive@.table != 0 && executive@.void != 0,
    {
        if arena == 0 || allocation > (u32::MAX - arena) as usize {
            return Err(Fault::OutOfMemory);
        }
        if op_count > allocation / (CB_SIZE as usize) {
            proof {
                lemma_align_up(arena as int, CB_SIZE as int);
            }
            return Err(Fault::OutOfMemory);
        }
        let table_size: usize = op_count * (CB_SIZE as usize);
        let (op_arena, tabled) = match place(arena, allocation, 0, table_size, CB_SIZE as usize) {
            Some(placed) => placed,
            None => {
                return Err(Fault::OutOfMemory);
            },
        };
        let (void, used) = match place(arena, allocation, tabled, max_void, VOID_ALIGN as usize) {
            Some(placed) => placed,
            None => {
                return Err(Fault::OutOfMemory);
            },
        };
        let mut ops: Vec<CB> = Vec::new();
        while ops.len() < op_count
            invariant
                ops@.len() <= op_count,
                forall|i: int| 0 <= i < ops@.len() ==> ops@[i] == CB::zeroed(),
            decreases op_count - ops@.len(),
        {
            ops.push(CB::zero());
        }
        let executive = Executive {
            arena,
            allocation,
            used,
            chunk_count,
            chunk_map: Vec::new(),
            symbol_map: names::empty(),
            routine_map: names::empty(),
            op_count,
            op_arena,
            ops,
            void,
            void_size: max_void,
            cells: Vec::new(),
        };
        proof {
            lemma_create_wf(
                arena,
                allocation as nat,
                op_count as nat,
                chunk_count as nat,
                max_void as nat,
            );
            let state = State::create(
                arena,
                allocation as nat,
                op_count as nat,
                chunk_count as nat,
                max_void as nat,
            ).unwrap();
            assert(executive@.blocks =~= state.blocks);
            assert(executive@.chunks =~= state.chunks);
            assert(executive@ == state);
        }
        Ok(executive)
    }

    /// The address that a chunk reference names: the chunk must have been
    /// loaded, and the offset must lie inside it.
    pub fn resolve_data_ref(&self, data_ref: DataRef) -> (address: Result<u32, Fault>)
        requires
            self.wf(),
        ensures
            address == self@.data_ref(data_ref),
            address matches Ok(found) ==> found != 0,
    {
        let index: usize = data_ref.chunk as usize;
        if index >= self.chunk_map.len() {
            return Err(Fault::ChunkIndex);
        }
        let chunk = &self.chunk_map[index];
        if data_ref.offset as usize >= chunk.data.len() {
            return Err(Fault::ChunkOffset);
        }
        proof {
            assert(self@.chunks[index as int].base == chunk.base);
            assert(self@.chunks[index as int].bytes == chunk.data@);
        }
        Ok(chunk.base + data_ref.offset)
    }

    /// The address of a field of a descriptor: the descriptor must lie in
    /// the table.
    pub fn resolve_op_field_ref(&self, op_field_ref: OpFieldRef) -> (address: Result<u32, Fault>)
        requires
            self.wf(),
        ensures
            address == self@.op_field_ref(op_field_ref),
            address matches Ok(found) ==> found != 0,
    {
        if op_field_ref.op as usize >= self.op_count {
            return Err(Fault::OpIndex);
        }
        let word: u32 = op_field_offset(op_field_ref.field_id) as u32;
        Ok(self.op_arena + CB_SIZE * op_field_ref.op + 4 * word)
    }

    /// The address of a descriptor: it must lie in the table.
    pub fn resolve_op_ref(&self, op_ref: u32) -> (address: Result<u32, Fault>)
        requires
            self.wf(),
        ensures
            address == self@.op_ref(op_ref),
            address matches Ok(found) ==> found != 0,
    {
        if op_ref as usize >= self.op_count {
            return Err(Fault::OpIndex);
        }
        Ok(self.op_arena + CB_SIZE * op_ref)
    }

    /// Makes a fresh cell that holds `value` and returns its address.
    fn indirect(&mut self, value: u32) -> (made: Result<u32, Fault>)
        requires
            old(self).wf(),
        ensures
            final(self).wf(),
            stepped(old(self)@, old(self)@.indirect(value), final(self)@, made),
            made matches Ok(address) ==> address != 0,
    {
        let (address, after) = match place(
            self.arena,
            self.allocation,
            self.used,
            CELL_SIZE as usize,
            CELL_SIZE as usize,
        ) {
            Some(placed) => placed,
            None => {
                return Err(Fault::OutOfMemory);
            },
        };
        match arm_to_vc(address) {
            Ok(_) => {},
            Err(fault) => {
                return Err(fault);
            },
        }
        self.cells.push(Cell { address, value });
        self.used = after;
        proof {
            lemma_indirect_wf(old(self)@, value);
            let expected = old(self)@.indirect(value).unwrap().0;
            assert(self@.chunks =~= expected.chunks);
            assert(self@ == expected);
        }
        Ok(address)
    }

    /// Makes a fresh cell that holds the bus address of what `target`
    /// resolved to.
    fn indirect_to(&mut self, target: Result<u32, Fault>) -> (made: Result<u32, Fault>)
        requires
            old(self).wf(),
        ensures
            final(self).wf(),
            stepped(old(self)@, old(self)@.indirect_to(target), final(self)@, made),
            made matches Ok(address) ==> address != 0,
    {
        let arm = match target {
            Ok(arm) => arm,
            Err(fault) => {
                return Err(fault);
            },
        };
        match arm_to_vc(arm) {
            Ok(value) => self.indirect(value),
            Err(fault) => Err(fault),
        }
    }

    /// Makes a fresh cell that holds the bus address of a field of a
    /// descriptor, and returns the cell's address.
    pub fn allocate_op_field_ref_indirection(&mut self, op_field_ref: OpFieldRef) -> (made: Result<
        u32,
        Fault,
    >)
        requires
            old(self).wf(),
        ensures
            final(self).wf(),
            stepped(
                old(self)@,
                old(self)@.indirect_to(old(self)@.op_field_ref(op_field_ref)),
                final(self)@,
                made,
            ),
            made matches Ok(address) ==> address != 0,
    {
        let target = self.resolve_op_field_ref(op_field_ref);
        self.indirect_to(target)
    }

    /// Makes a fresh cell that holds the bus address of a place in a chunk,
    /// and returns the cell's address.
    pub fn allocate_data_ref_indirection(&mut self, data_ref: DataRef) -> (made: Result<u32, Fault>)
        requires
            old(self).wf(),
        ensures
            final(self).wf(),
            stepped(
                old(self)@,
                old(self)@.indirect_to(old(self)@.data_ref(data_ref)),
                final(self)@,
                made,
            ),
            made matches Ok(address) ==> address != 0,
    {
        let target = self.resolve_data_ref(data_ref);
        self.indirect_to(target)
    }

    /// Makes a fresh cell that holds the bus address of a descriptor, and
    /// returns the cell's address.
    pub fn allocate_op_ref_indirection(&mut self, op_ref: u32) -> (made: Result<u32, Fault>)
        requires
            old(self).wf(),
        ensures
            final(self).wf(),
            stepped(
                old(self)@,
                old(self)@.indirect_to(old(self)@.op_ref(op_ref)),
                final(self)@,
                made,
            ),
            made matches Ok(address) ==> address != 0,
    {
        let target = self.resolve_op_ref(op_ref);
        self.indirect_to(target)
    }

    /// The word for a hole in the destination or the source.
    fn hole_word(&self, hole: Hole, len: OpField) -> (word: Result<u32, Fault>)
        requires
            self.wf(),
        ensures
            word == self@.hole_word(hole, len),
    {
        match hole {
            Hole::End => Err(Fault::IllegalVariant),
            Hole::Void => match len {
                OpField::Fixed(length) => if (length as usize) < self.void_size {
                    arm_to_vc(self.void)
                } else {
                    Err(Fault::VoidOverflow)
                },
                _ => Err(Fault::VoidLength),
            },
            Hole::Param | Hole::Nil => Ok(hole.raw()),
        }
    }

    /// The word for a destination field.
    fn dest_word(&self, dst: OpField, len: OpField) -> (word: Result<u32, Fault>)
        requires
            self.wf(),
        ensures
            word == self@.dest_word(dst, len),
    {
        match dst {
            OpField::DataRef(data_ref) => match self.resolve_data_ref(data_ref) {
                Ok(arm) => arm_to_vc(arm),
                Err(fault) => Err(fault),
            },
            OpField::OpFieldRef(op_field_ref) => match self.resolve_op_field_ref(op_field_ref) {
                Ok(arm) => arm_to_vc(arm),
                Err(fault) => Err(fault),
            },
            OpField::Fixed(fixed) => arm_to_vc(fixed),
            OpField::Hole(hole) => self.hole_word(hole, len),
            _ => Err(Fault::IllegalVariant),
        }
    }

    /// The word for a next field.
    fn next_word(&self, nxt: OpField) -> (word: Result<u32, Fault>)
        requires
            self.wf(),
        ensures
            word == self@.next_word(nxt),
    {
        match nxt {
            OpField::Fixed(fixed) => arm_to_vc(fixed),
            OpField::Hole(Hole::End) => Ok(0),
            OpField::OpRef(op_ref) => match self.resolve_op_ref(op_ref) {
                Ok(arm) => arm_to_vc(arm),
                Err(fault) => Err(fault),
            },
            _ => Err(Fault::IllegalVariant),
        }
    }

    /// The word for a source field; an indirect source takes a cell.
    fn source_word(&mut self, src: OpField, len: OpField) -> (word: Result<u32, Fault>)
        requires
            old(self).wf(),
        ensures
            final(self).wf(),
            stepped(old(self)@, old(self)@.source_word(src, len), final(self)@, word),
    {
        match src {
            OpField::DataRef(data_ref) => match self.resolve_data_ref(data_ref) {
                Ok(arm) => arm_to_vc(arm),
                Err(fault) => Err(fault),
            },
            OpField::DataRefIndirect(data_ref) => match self.allocate_data_ref_indirection(
                data_ref,
            ) {
                Ok(cell) => arm_to_vc(cell),
                Err(fault) => Err(fault),
            },
            OpField::OpFieldRef(op_field_ref) => match self.resolve_op_field_ref(op_field_ref) {
                Ok(arm) => arm_to_vc(arm),
                Err(fault) => Err(fault),
            },
            OpField::OpFieldRefIndirect(op_field_ref) => match self.allocate_op_field_ref_indirection(
                op_field_ref,
            ) {
                Ok(cell) => arm_to_vc(cell),
                Err(fault) => Err(fault),
            },
            OpField::Fixed(fixed) => arm_to_vc(fixed),
            OpField::Hole(hole) => self.hole_word(hole, len),
            OpField::OpRefIndirect(op_ref) => match self.allocate_op_ref_indirection(op_ref) {
                Ok(cell) => arm_to_vc(cell),
                Err(fault) => Err(fault),
            },
            OpField::OpRef(_) => Err(Fault::IllegalVariant),
        }
    }

    /// Compiles an operation into a control block.
    ///
    /// The four fields are read first. Destination, length and next are
    /// compiled before the source, so that a cell is made for an indirect
    /// source only when the rest of the operation is in order. A refused
    /// operation leaves the executive as it was.
    pub fn translate_op(&mut self, op: Op) -> (compiled: Result<CB, Fault>)
        requires
            old(self).wf(),
        ensures
            final(self).wf(),
            stepped(old(self)@, old(self)@.translate(op), final(self)@, compiled),
    {
        let dst = match op.dst() {
            Ok(field) => field,
            Err(fault) => {
                return Err(fault);
            },
        };
        let src = match op.src() {
            Ok(field) => field,
            Err(fault) => {
                return Err(fault);
            },
        };
        let len = match op.len() {
            Ok(field) => field,
            Err(fault) => {
                return Err(fault);
            },
        };
        let nxt = match op.nxt() {
            Ok(field) => field,
            Err(fault) => {
                return Err(fault);
            },
        };
        let dest_ad = match self.dest_word(dst, len) {
            Ok(word) => word,
            Err(fault) => {
                return Err(fault);
            },
        };
        let txfr_len = match len {
            OpField::Fixed(fixed) => fixed,
            OpField::Hole(Hole::Param) => Hole::Param.raw(),
            OpField::Hole(Hole::Nil) => Hole::Nil.raw(),
            _ => {
                return Err(Fault::IllegalVariant);
            },
        };
        let nextconbk = match self.next_word(nxt) {
            Ok(word) => word,
            Err(fault) => {
                return Err(fault);
            },
        };
        let source_ad = match self.source_word(src, len) {
            Ok(word) => word,
            Err(fault) => {
                return Err(fault);
            },
        };
        let ti = linear_copy();
        Ok(CB { ti, source_ad, dest_ad, txfr_len, stride: 0, nextconbk, pad0: 0, pad1: 0 })
    }

    /// The chunk that holds `address`, if any does.
    fn find(&self, address: u32) -> (found: Option<usize>)
        requires
            self.wf(),
        ensures
            match found {
                Some(index) => self@.owner(address as int) == Some(index as int),
                None => self@.owner(address as int) is None,
            },
    {
        let mut index: usize = 0;
        while index < self.chunk_map.len()
            invariant
                self.wf(),
                index <= self.chunk_map@.len(),
                forall|i: int| 0 <= i < index ==> !self@.holds(i, address as int),
            decreases self.chunk_map@.len() - index,
        {
            let chunk = &self.chunk_map[index];
            if chunk.base <= address && ((address - chunk.base) as usize) < chunk.data.len() {
                proof {
                    assert(self@.chunks[index as int].base == chunk.base);
                    assert(self@.chunks[index as int].bytes == chunk.data@);
                    assert(self@.holds(index as int, address as int));
                    lemma_one_owner(self@, index as int, address as int);
                }
                return Some(index);
            }
            proof {
                assert(self@.chunks[index as int].base == chunk.base);
                assert(self@.chunks[index as int].bytes == chunk.data@);
            }
            index = index + 1;
        }
        None
    }

    /// Reads the byte of chunk memory at `address`, if a chunk holds it.
    pub fn peek(&self, address: u32) -> (byte: Option<u8>)
        requires
            self.wf(),
        ensures
            byte == self@.byte(address as int),
    {
        match self.find(address) {
            Some(index) => {
                let chunk = &self.chunk_map[index];
                proof {
                    lemma_owner_holds(self@, address as int);
                    assert(self@.chunks[index as int].base == chunk.base);
                    assert(self@.chunks[index as int].bytes == chunk.data@);
                }
                Some(chunk.data[(address - chunk.base) as usize])
            },
            None => None,
        }
    }

    /// Writes `value` to the byte of chunk memory at `address`; says whether
    /// a chunk holds it. Nothing else changes.
    pub fn poke(&mut self, address: u32, value: u8) -> (written: bool)
        requires
            old(self).wf(),
        ensures
            final(self).wf(),
            written == old(self)@.byte(address as int).is_some(),
            final(self)@ == old(self)@.poke(address as int, value),
    {
        match self.find(address) {
            Some(index) => {
                proof {
                    lemma_owner_holds(self@, address as int);
                    lemma_poke_wf(self@, address as int, value);
                    assert(self@.chunks[index as int].base == self.chunk_map@[index as int].base);
                    assert(self@.chunks[index as int].bytes == self.chunk_map@[index as int].data@);
                }
                let offset: usize = (address - self.chunk_map[index].base) as usize;
                self.chunk_map[index].data.set(offset, value);
                proof {
                    let expected = old(self)@.poke(address as int, value);
                    assert(self@.chunks[index as int].bytes =~= expected.chunks[index as int].bytes);
                    assert(self@.chunks =~= expected.chunks);
                    assert(self@ == expected);
                }
                true
            },
            None => false,
        }
    }

    /// Prepares the run of the routine `routine` on `channel`: the routine
    /// must have been mapped, and its first descriptor must be within reach
    /// of the bus. The executive is left as it is, so that a routine can be
    /// run again and again.
    pub fn execute(&self, routine: &str, channel: &Channel) -> (armed: Result<Transfer, Fault>)
        requires
            self.wf(),
        ensures
            match self@.entry(routine@) {
                Ok(block) => armed matches Ok(transfer) && transfer@ == Run::fresh(
                    channel_base(channel.index_of()).unwrap(),
                    block,
                ),
                Err(fault) => armed matches Err(refused) && refused == fault,
            },
    {
        let op_idx = match names::get(&self.routine_map, routine) {
            Some(op_idx) => op_idx,
            None => {
                return Err(Fault::UnknownRoutine);
            },
        };
        let op_ptr = match self.resolve_op_ref(op_idx as u32) {
            Ok(arm) => arm,
            Err(fault) => {
                return Err(fault);
            },
        };
        let op_vc_addr = match arm_to_vc(op_ptr) {
            Ok(vc) => vc,
            Err(fault) => {
                return Err(fault);
            },
        };
        let base = channel.base();
        proof {
            lemma_channel_blocks(channel.index_of(), channel.index_of());
        }
        Ok(Transfer::new(base, op_vc_addr))
    }

    /// The number of descriptors in the table.
    pub fn op_count(&self) -> (count: usize)
        requires
            self.wf(),
        ensures
            count == self@.blocks.len(),
    {
        self.op_count
    }

    /// The address of the descriptor table.
    pub fn op_arena(&self) -> (address: u32)
        ensures
            address == self@.table,
    {
        self.op_arena
    }

    /// The descriptor in slot `index`, if the table has such a slot.
    pub fn descriptor(&self, index: usize) -> (cb: Option<CB>)
        ensures
            cb == (if index < self@.blocks.len() {
                Some(self@.blocks[index as int])
            } else {
                None
            }),
    {
        if index < self.ops.len() {
            Some(self.ops[index])
        } else {
            None
        }
    }

    /// The address of the scratch buffer.
    pub fn void(&self) -> (address: u32)
        ensures
            address == self@.void,
    {
        self.void
    }

    /// The size of the scratch buffer in bytes.
    pub fn void_size(&self) -> (size: usize)
        ensures
            size == self@.void_size,
    {
        self.void_size
    }

    /// The number of chunks loaded so far.
    pub fn chunk_count(&self) -> (count: usize)
        ensures
            count == self@.chunks.len(),
    {
        self.chunk_map.len()
    }

    /// Address and size of chunk `index`, if it has been loaded.
    pub fn chunk(&self, index: usize) -> (chunk: Option<(u32, usize)>)
        ensures
            chunk == (if index < self@.chunks.len() {
                Some((self@.chunks[index as int].base, self@.chunks[index as int].bytes.len() as usize))
            } else {
                None
            }),
    {
        if index < self.chunk_map.len() {
            let chunk = &self.chunk_map[index];
            Some((chunk.base, chunk.data.len()))
        } else {
            None
        }
    }

    /// Address and size of the chunk that was loaded last under `symbol`.
    pub fn symbol(&self, symbol: &str) -> (chunk: Option<(u32, usize)>)
        requires
            self.wf(),
        ensures
            chunk == (if self@.symbols.contains_key(symbol@) {
                let region = self@.chunks[self@.symbols[symbol@] as int];
                Some((region.base, region.bytes.len() as usize))
            } else {
                None
            }),
    {
        match names::get(&self.symbol_map, symbol) {
            Some(index) => self.chunk(index),
            None => None,
        }
    }

    /// The number of indirection cells made so far.
    pub fn cell_count(&self) -> (count: usize)
        ensures
            count == self@.cells.len(),
    {
        self.cells.len()
    }

    /// The indirection cell made as number `index`, if there is one.
    pub fn cell(&self, index: usize) -> (cell: Option<Cell>)
        ensures
            cell == (if index < self@.cells.len() {
                Some(self@.cells[index as int])
            } else {
                None
            }),
    {
        if index < self.cells.len() {
            Some(self.cells[index])
        } else {
            None
        }
    }
}

/// The name that a symbol reference gives, if it gives one.
pub open spec fn name_of(symbol_ref: Option<&str>) -> Option<Seq<char>> {
    match symbol_ref {
        Some(name) => Some(name@),
        None => None,
    }
}

/// The bytes that a backing slice holds, if there is one.
pub open spec fn bytes_of(backing: Option<&[u8]>) -> Option<Seq<u8>> {
    match backing {
        Some(bytes) => Some(bytes@),
        None => None,
    }
}

impl Loader for Executive {
    open spec fn ready(&self) -> bool {
        self.wf()
    }

    open spec fn op_capacity(&self) -> nat {
        self@.blocks.len()
    }

    /// Loads a chunk. The flags must be zero and backing bytes must have
    /// the size of the layout; the chunk table and the arena must have room.
    /// The chunk holds the backing bytes, or zeroes where there are none. It
    /// lies at the first multiple of the layout's alignment that is free in
    /// the arena, which is never address zero.
    fn load_chunk(
        &mut self,
        symbol_ref: Option<&str>,
        flags: u32,
        layout: Layout,
        backing: Option<&[u8]>,
    ) -> (loaded: Result<u32, Fault>)
        ensures
            stepped(
                old(self)@,
                old(self)@.load_chunk(
                    name_of(symbol_ref),
                    flags,
                    layout.size_of() as nat,
                    layout.align_of() as nat,
                    bytes_of(backing),
                ),
                final(self)@,
                loaded,
            ),
            loaded matches Ok(address) ==> address != 0 && address as int % layout.align_of() as int
                == 0,
    {
        if flags != 0 {
            return Err(Fault::UnsupportedFlags);
        }
        let size: usize = layout.size();
        let align: usize = layout.align();
        if let Some(bytes) = backing {
            if bytes.len() != size {
                return Err(Fault::BackingLength);
            }
        }
        if self.chunk_map.len() >= self.chunk_count {
            return Err(Fault::ChunkTableFull);
        }
        let (base, after) = match place(self.arena, self.allocation, self.used, size, align) {
            Some(placed) => placed,
            None => {
                return Err(Fault::OutOfMemory);
            },
        };
        let data: Vec<u8> = match backing {
            Some(bytes) => slice_to_vec(bytes),
            None => vec![0u8; size],
        };
        if let Some(name) = symbol_ref {
            names::insert(&mut self.symbol_map, name, self.chunk_map.len());
        }
        self.chunk_map.push(Chunk { base, data });
        self.used = after;
        proof {
            let expected = old(self)@.load_chunk(
                name_of(symbol_ref),
                flags,
                size as nat,
                align as nat,
                bytes_of(backing),
            );
            lemma_take(old(self)@, size as nat, align as nat);
            lemma_load_chunk_wf(
                old(self)@,
                name_of(symbol_ref),
                flags,
                size as nat,
                align as nat,
                bytes_of(backing),
            );
            let index = old(self).chunk_map@.len() as int;
            assert(self@.chunks[index].bytes =~= expected.unwrap().0.chunks[index].bytes);
            assert(self@.chunks =~= expected.unwrap().0.chunks);
            assert(self@ == expected.unwrap().0);
        }
        Ok(base)
    }

    /// Compiles each operation into the descriptor slot of its position in
    /// `ops`. The first operation that is refused ends the loading; those
    /// before it stay loaded.
    fn load_ops(&mut self, ops: &[Op]) -> (loaded: Result<(), Fault>)
        ensures
            (final(self)@, loaded) == old(self)@.load_ops(ops@),
    {
        let ghost start = self@;
        let mut index: usize = 0;
        while index < ops.len()
            invariant
                self.wf(),
                start == old(self)@,
                index <= ops@.len(),
                index <= self.op_count,
                start.load_from(ops@, 0) == self@.load_from(ops@, index as nat),
                self@.blocks.len() == start.blocks.len(),
            decreases ops@.len() - index,
        {
            if index >= self.op_count {
                return Err(Fault::OpIndex);
            }
            let ghost before = self@;
            match self.translate_op(ops[index]) {
                Ok(cb) => {
                    proof {
                        lemma_translate_wf(before, ops@[index as int]);
                        lemma_store_wf(self@, index as int, cb);
                    }
                    self.ops.set(index, cb);
                    proof {
                        assert(self@.chunks =~= before.translate(ops@[index as int]).unwrap().0.store(
                            index as int,
                            cb,
                        ).chunks);
                        assert(self@ == before.translate(ops@[index as int]).unwrap().0.store(
                            index as int,
                            cb,
                        ));
                    }
                },
                Err(fault) => {
                    return Err(fault);
                },
            }
            index = index + 1;
        }
        Ok(())
    }

    /// Names descriptor `op_idx` as an entry point; a name that was mapped
    /// before is mapped anew.
    fn map_routine(&mut self, name: &str, op_idx: usize) -> (mapped: Result<(), Fault>)
        ensures
            match old(self)@.map_routine(name@, op_idx) {
                Ok(state) => final(self)@ == state && mapped is Ok,
                Err(fault) => final(self)@ == old(self)@ && mapped == Err::<(), Fault>(fault),
            },
    {
        if op_idx >= self.op_count {
            return Err(Fault::OpIndex);
        }
        names::insert(&mut self.routine_map, name, op_idx);
        proof {
            lemma_map_routine_wf(old(self)@, name@, op_idx);
            assert(self@.chunks =~= old(self)@.chunks);
        }
        Ok(())
    }
}

} // verus!
