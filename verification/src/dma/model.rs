//! What an executive is, mathematically: an arena that is handed out from
//! its low end, the regions handed out so far, and the tables over them.
//!
//! Every operation of the executive is a function on this state. An
//! operation that is refused leaves the state as it was.

use vstd::prelude::*;
use crate::dilf::DataRef;
use crate::dilf::Hole;
use crate::dilf::Op;
use crate::dilf::OpField;
use crate::dilf::OpFieldRef;
use crate::dma::bus::bus_result;
use crate::dma::registers::field_word;
use crate::dma::registers::CB;
use crate::dma::registers::CB_SIZE;
use crate::dma::registers::LINEAR_COPY;
use crate::fault::Fault;

verus! {

/// Size and alignment of an indirection cell.
pub const CELL_SIZE: u32 = 4;

/// Alignment of the scratch buffer.
pub const VOID_ALIGN: u32 = 4;

/// A chunk: where it lies and what it holds.
pub struct Region {
    pub base: u32,
    pub bytes: Seq<u8>,
}

/// An indirection cell: a word of memory that holds a bus address for the
/// hardware to read.
#[derive(Debug, Copy, Clone, PartialEq, Eq, Structural)]
pub struct Cell {
    pub address: u32,
    pub value: u32,
}

/// The state of an executive.
pub struct State {
    /// First address of the arena.
    pub arena: u32,
    /// Size of the arena in bytes.
    pub capacity: nat,
    /// How many bytes of the arena are spoken for, counted from its start.
    pub used: nat,
    /// Address of the descriptor table.
    pub table: u32,
    /// The descriptor table.
    pub blocks: Seq<CB>,
    /// Address of the scratch buffer.
    pub void: u32,
    /// Size of the scratch buffer in bytes.
    pub void_size: nat,
    /// How many chunks the chunk table has room for.
    pub chunk_limit: nat,
    /// The chunks, in the order in which they were loaded.
    pub chunks: Seq<Region>,
    /// The indirection cells, in the order in which they were made.
    pub cells: Seq<Cell>,
    /// The chunk that each symbol stands for.
    pub symbols: Map<Seq<char>, usize>,
    /// The descriptor that each routine starts at.
    pub routines: Map<Seq<char>, usize>,
}

/// The first multiple of `align` at or above `address`.
pub open spec fn align_up(address: int, align: int) -> int {
    if address % align == 0 {
        address
    } else {
        address + align - address % align
    }
}

/// The bus address of what `address` resolved to.
pub open spec fn on_bus(address: Result<u32, Fault>) -> Result<u32, Fault> {
    match address {
        Ok(arm) => bus_result(arm),
        Err(fault) => Err(fault),
    }
}

/// Whether an operation that was meant to do `expected` has done it: on
/// success the state and the value are those expected, on refusal the
/// fault is the expected one and the state is as before.
pub open spec fn stepped<T>(
    before: State,
    expected: Result<(State, T), Fault>,
    after: State,
    result: Result<T, Fault>,
) -> bool {
    match expected {
        Ok((state, value)) => after == state && result == Ok::<T, Fault>(value),
        Err(fault) => after == before && result == Err::<T, Fault>(fault),
    }
}

/// The word compiled for a length field: a literal length, or the raw value
/// of a placeholder.
pub open spec fn length_word(len: OpField) -> Result<u32, Fault> {
    match len {
        OpField::Fixed(length) => Ok(length),
        OpField::Hole(Hole::Param) => Ok(Hole::Param.raw_of()),
        OpField::Hole(Hole::Nil) => Ok(Hole::Nil.raw_of()),
        _ => Err(Fault::IllegalVariant),
    }
}

impl State {
    /// The first address that is not spoken for.
    pub open spec fn cursor(self) -> int {
        self.arena + self.used
    }

    /// The first address after the arena.
    pub open spec fn limit(self) -> int {
        self.arena + self.capacity
    }

    /// Where the next block of this size and alignment would lie, if the
    /// arena has room for it.
    pub open spec fn place(self, size: nat, align: nat) -> Option<u32> {
        let start = align_up(self.cursor(), align as int);
        if start + size <= self.limit() {
            Some(start as u32)
        } else {
            None
        }
    }

    /// The state once that block is handed out.
    pub open spec fn take(self, size: nat, align: nat) -> State {
        State { used: (align_up(self.cursor(), align as int) + size - self.arena) as nat, ..self }
    }

    /// The state in which nothing has been handed out.
    pub open spec fn bare(arena: u32, capacity: nat, chunk_limit: nat) -> State {
        State {
            arena,
            capacity,
            used: 0,
            table: arena,
            blocks: Seq::empty(),
            void: arena,
            void_size: 0,
            chunk_limit,
            chunks: Seq::empty(),
            cells: Seq::empty(),
            symbols: Map::empty(),
            routines: Map::empty(),
        }
    }

    /// The state of a new executive: the descriptor table, all zero, at the
    /// first multiple of the block size in the arena, and the scratch buffer
    /// behind it. An arena at address zero is no memory at all, and one that
    /// leaves the 32-bit address space or cannot hold the table and the
    /// scratch buffer is too small.
    pub open spec fn create(
        arena: u32,
        capacity: nat,
        op_count: nat,
        chunk_limit: nat,
        void_size: nat,
    ) -> Result<State, Fault> {
        let bare = State::bare(arena, capacity, chunk_limit);
        if arena == 0 || arena + capacity > u32::MAX {
            Err(Fault::OutOfMemory)
        } else {
            match bare.place(CB_SIZE as nat * op_count, CB_SIZE as nat) {
                None => Err(Fault::OutOfMemory),
                Some(table) => {
                    let tabled = bare.take(CB_SIZE as nat * op_count, CB_SIZE as nat);
                    match tabled.place(void_size, VOID_ALIGN as nat) {
                        None => Err(Fault::OutOfMemory),
                        Some(void) => Ok(
                            State {
                                table,
                                blocks: Seq::new(op_count, |i: int| CB::zeroed()),
                                void,
                                void_size,
                                ..tabled.take(void_size, VOID_ALIGN as nat)
                            },
                        ),
                    }
                },
            }
        }
    }

    /// The address that a chunk reference names.
    pub open spec fn data_ref(self, data_ref: DataRef) -> Result<u32, Fault> {
        if data_ref.chunk >= self.chunks.len() {
            Err(Fault::ChunkIndex)
        } else if data_ref.offset >= self.chunks[data_ref.chunk as int].bytes.len() {
            Err(Fault::ChunkOffset)
        } else {
            Ok((self.chunks[data_ref.chunk as int].base + data_ref.offset) as u32)
        }
    }

    /// The address of a descriptor.
    pub open spec fn op_ref(self, op: u32) -> Result<u32, Fault> {
        if op >= self.blocks.len() {
            Err(Fault::OpIndex)
        } else {
            Ok((self.table + CB_SIZE * op) as u32)
        }
    }

    /// The address of a field of a descriptor.
    pub open spec fn op_field_ref(self, op_field_ref: OpFieldRef) -> Result<u32, Fault> {
        if op_field_ref.op >= self.blocks.len() {
            Err(Fault::OpIndex)
        } else {
            Ok((self.table + CB_SIZE * op_field_ref.op + 4 * field_word(op_field_ref.field_id)) as u32)
        }
    }

    /// The word compiled for a hole in the destination or the source: the
    /// scratch buffer for a void that is paired with a fixed length below
    /// the buffer's size, the raw value for a placeholder.
    pub open spec fn hole_word(self, hole: Hole, len: OpField) -> Result<u32, Fault> {
        match hole {
            Hole::End => Err(Fault::IllegalVariant),
            Hole::Void => match len {
                OpField::Fixed(length) => if length < self.void_size {
                    bus_result(self.void)
                } else {
                    Err(Fault::VoidOverflow)
                },
                _ => Err(Fault::VoidLength),
            },
            Hole::Param => Ok(Hole::Param.raw_of()),
            Hole::Nil => Ok(Hole::Nil.raw_of()),
        }
    }

    /// The word compiled for a destination field.
    pub open spec fn dest_word(self, dst: OpField, len: OpField) -> Result<u32, Fault> {
        match dst {
            OpField::DataRef(data_ref) => on_bus(self.data_ref(data_ref)),
            OpField::OpFieldRef(op_field_ref) => on_bus(self.op_field_ref(op_field_ref)),
            OpField::Fixed(address) => bus_result(address),
            OpField::Hole(hole) => self.hole_word(hole, len),
            _ => Err(Fault::IllegalVariant),
        }
    }

    /// The word compiled for a next field: zero ends the chain.
    pub open spec fn next_word(self, nxt: OpField) -> Result<u32, Fault> {
        match nxt {
            OpField::Fixed(address) => bus_result(address),
            OpField::Hole(Hole::End) => Ok(0),
            OpField::OpRef(op) => on_bus(self.op_ref(op)),
            _ => Err(Fault::IllegalVariant),
        }
    }

    /// A fresh cell that holds `value`: the state with the cell, and the
    /// cell's address. The cell must itself be within reach of the bus.
    pub open spec fn indirect(self, value: u32) -> Result<(State, u32), Fault> {
        match self.place(CELL_SIZE as nat, CELL_SIZE as nat) {
            None => Err(Fault::OutOfMemory),
            Some(address) => match bus_result(address) {
                Err(fault) => Err(fault),
                Ok(_) => Ok(
                    (
                        State {
                            cells: self.cells.push(Cell { address, value }),
                            ..self.take(CELL_SIZE as nat, CELL_SIZE as nat)
                        },
                        address,
                    ),
                ),
            },
        }
    }

    /// A fresh cell that holds the bus address of what `target` resolved to.
    pub open spec fn indirect_to(self, target: Result<u32, Fault>) -> Result<(State, u32), Fault> {
        match on_bus(target) {
            Err(fault) => Err(fault),
            Ok(value) => self.indirect(value),
        }
    }

    /// The word compiled for an indirect source: the bus address of the
    /// cell.
    pub open spec fn cell_word(made: Result<(State, u32), Fault>) -> Result<(State, u32), Fault> {
        match made {
            Err(fault) => Err(fault),
            Ok((after, address)) => match bus_result(address) {
                Err(fault) => Err(fault),
                Ok(word) => Ok((after, word)),
            },
        }
    }

    /// A word that took no cell to compile.
    pub open spec fn plain_word(self, word: Result<u32, Fault>) -> Result<(State, u32), Fault> {
        match word {
            Err(fault) => Err(fault),
            Ok(word) => Ok((self, word)),
        }
    }

    /// The word compiled for a source field, and the state with the cell
    /// that an indirect source takes.
    pub open spec fn source_word(self, src: OpField, len: OpField) -> Result<(State, u32), Fault> {
        match src {
            OpField::DataRef(data_ref) => self.plain_word(on_bus(self.data_ref(data_ref))),
            OpField::DataRefIndirect(data_ref) => State::cell_word(
                self.indirect_to(self.data_ref(data_ref)),
            ),
            OpField::OpFieldRef(op_field_ref) => self.plain_word(
                on_bus(self.op_field_ref(op_field_ref)),
            ),
            OpField::OpFieldRefIndirect(op_field_ref) => State::cell_word(
                self.indirect_to(self.op_field_ref(op_field_ref)),
            ),
            OpField::Fixed(address) => self.plain_word(bus_result(address)),
            OpField::Hole(hole) => self.plain_word(self.hole_word(hole, len)),
            OpField::OpRefIndirect(op) => State::cell_word(self.indirect_to(self.op_ref(op))),
            OpField::OpRef(_) => Err(Fault::IllegalVariant),
        }
    }

    /// The control block for four operand fields. The operands that leave
    /// the state alone are compiled first, the source last.
    pub open spec fn compile(self, dst: OpField, src: OpField, len: OpField, nxt: OpField) -> Result<
        (State, CB),
        Fault,
    > {
        match self.dest_word(dst, len) {
            Err(fault) => Err(fault),
            Ok(dest_ad) => match length_word(len) {
                Err(fault) => Err(fault),
                Ok(txfr_len) => match self.next_word(nxt) {
                    Err(fault) => Err(fault),
                    Ok(nextconbk) => match self.source_word(src, len) {
                        Err(fault) => Err(fault),
                        Ok((after, source_ad)) => Ok(
                            (
                                after,
                                CB {
                                    ti: LINEAR_COPY,
                                    source_ad,
                                    dest_ad,
                                    txfr_len,
                                    stride: 0,
                                    nextconbk,
                                    pad0: 0,
                                    pad1: 0,
                                },
                            ),
                        ),
                    },
                },
            },
        }
    }

    /// The control block for an operation: its four fields are read in the
    /// order destination, source, length, next, and then compiled.
    pub open spec fn translate(self, op: Op) -> Result<(State, CB), Fault> {
        match op.dst_field() {
            Err(fault) => Err(fault),
            Ok(dst) => match op.src_field() {
                Err(fault) => Err(fault),
                Ok(src) => match op.len_field() {
                    Err(fault) => Err(fault),
                    Ok(len) => match op.nxt_field() {
                        Err(fault) => Err(fault),
                        Ok(nxt) => self.compile(dst, src, len, nxt),
                    },
                },
            },
        }
    }

    /// Loading a chunk: the flags are checked first, then the length of the
    /// backing bytes, then the room in the chunk table, then the room in
    /// the arena. The chunk holds the backing bytes, or zeroes.
    pub open spec fn load_chunk(
        self,
        symbol: Option<Seq<char>>,
        flags: u32,
        size: nat,
        align: nat,
        backing: Option<Seq<u8>>,
    ) -> Result<(State, u32), Fault> {
        if flags != 0 {
            Err(Fault::UnsupportedFlags)
        } else if backing is Some && backing.unwrap().len() != size {
            Err(Fault::BackingLength)
        } else if self.chunks.len() >= self.chunk_limit {
            Err(Fault::ChunkTableFull)
        } else {
            match self.place(size, align) {
                None => Err(Fault::OutOfMemory),
                Some(base) => Ok(
                    (
                        State {
                            chunks: self.chunks.push(
                                Region {
                                    base,
                                    bytes: match backing {
                                        Some(bytes) => bytes,
                                        None => Seq::new(size, |i: int| 0u8),
                                    },
                                },
                            ),
                            symbols: match symbol {
                                Some(name) => self.symbols.insert(name, self.chunks.len() as usize),
                                None => self.symbols,
                            },
                            ..self.take(size, align)
                        },
                        base,
                    ),
                ),
            }
        }
    }

    /// The state with `cb` in slot `index` of the descriptor table.
    pub open spec fn store(self, index: int, cb: CB) -> State {
        State { blocks: self.blocks.update(index, cb), ..self }
    }

    /// Loading the operations from position `index` on, each into the slot
    /// of its position. The first operation that is refused ends the
    /// loading; those before it stay loaded.
    pub open spec fn load_from(self, ops: Seq<Op>, index: nat) -> (State, Result<(), Fault>)
        decreases ops.len() - index,
    {
        if index >= ops.len() {
            (self, Ok(()))
        } else if index >= self.blocks.len() {
            (self, Err(Fault::OpIndex))
        } else {
            match self.translate(ops[index as int]) {
                Err(fault) => (self, Err(fault)),
                Ok((after, cb)) => after.store(index as int, cb).load_from(ops, index + 1),
            }
        }
    }

    /// Loading a sequence of operations.
    pub open spec fn load_ops(self, ops: Seq<Op>) -> (State, Result<(), Fault>) {
        self.load_from(ops, 0)
    }

    /// Naming a descriptor as an entry point.
    pub open spec fn map_routine(self, name: Seq<char>, op_idx: usize) -> Result<State, Fault> {
        if op_idx >= self.blocks.len() {
            Err(Fault::OpIndex)
        } else {
            Ok(State { routines: self.routines.insert(name, op_idx), ..self })
        }
    }

    /// The bus address of the descriptor that a routine starts at.
    pub open spec fn entry(self, name: Seq<char>) -> Result<u32, Fault> {
        if self.routines.contains_key(name) {
            on_bus(self.op_ref(self.routines[name] as u32))
        } else {
            Err(Fault::UnknownRoutine)
        }
    }

    /// Whether chunk `index` holds `address`.
    pub open spec fn holds(self, index: int, address: int) -> bool {
        &&& 0 <= index < self.chunks.len()
        &&& self.chunks[index].base <= address
        &&& address < self.chunks[index].base + self.chunks[index].bytes.len()
    }

    /// The chunk that holds `address`, if any does.
    pub open spec fn owner(self, address: int) -> Option<int> {
        if exists|index: int| self.holds(index, address) {
            Some(choose|index: int| self.holds(index, address))
        } else {
            None
        }
    }

    /// The byte of chunk memory at `address`, if a chunk holds it.
    pub open spec fn byte(self, address: int) -> Option<u8> {
        match self.owner(address) {
            Some(index) => Some(self.chunks[index].bytes[address - self.chunks[index].base]),
            None => None,
        }
    }

    /// The state with `value` in the byte at `address`, if a chunk holds it.
    pub open spec fn poke(self, address: int, value: u8) -> State {
        match self.owner(address) {
            Some(index) => State {
                chunks: self.chunks.update(
                    index,
                    Region {
                        base: self.chunks[index].base,
                        bytes: self.chunks[index].bytes.update(
                            address - self.chunks[index].base,
                            value,
                        ),
                    },
                ),
                ..self
            },
            None => self,
        }
    }

    /// What holds of every state that an executive can reach: the arena lies
    /// above address zero and within the 32-bit space, everything handed out
    /// lies in the arena below the cursor, chunks and cells lie one after the
    /// other in the order in which they were made, and the tables name only
    /// what exists.
    pub open spec fn wf(self) -> bool {
        &&& 0 < self.arena
        &&& self.arena + self.capacity <= u32::MAX
        &&& self.used <= self.capacity
        &&& self.arena <= self.table
        &&& self.table + CB_SIZE * self.blocks.len() <= self.cursor()
        &&& self.table % CB_SIZE == 0
        &&& self.arena <= self.void
        &&& self.void + self.void_size <= self.cursor()
        &&& self.chunks.len() <= self.chunk_limit
        &&& forall|i: int|
            0 <= i < self.chunks.len() ==> self.arena <= (#[trigger] self.chunks[i]).base
                && self.chunks[i].base + self.chunks[i].bytes.len() <= self.cursor()
        &&& forall|i: int, j: int|
            0 <= i < j < self.chunks.len() ==> (#[trigger] self.chunks[i]).base
                + self.chunks[i].bytes.len() <= (#[trigger] self.chunks[j]).base
        &&& forall|i: int|
            0 <= i < self.cells.len() ==> self.arena <= (#[trigger] self.cells[i]).address
                && self.cells[i].address + CELL_SIZE <= self.cursor()
        &&& forall|i: int, j: int|
            0 <= i < j < self.cells.len() ==> (#[trigger] self.cells[i]).address + CELL_SIZE <= (
            #[trigger] self.cells[j]).address
        &&& forall|name: Seq<char>| #[trigger]
            self.symbols.contains_key(name) ==> self.symbols[name] < self.chunks.len()
        &&& forall|name: Seq<char>| #[trigger]
            self.routines.contains_key(name) ==> self.routines[name] < self.blocks.len()
    }
}

} // verus!
