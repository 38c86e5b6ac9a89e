//! What holds of every executive, whatever it was asked to load.

use vstd::prelude::*;
use crate::dilf::DataRef;
use crate::dilf::Hole;
use crate::dilf::Op;
use crate::dilf::OpField;
use crate::dilf::OpFieldRef;
use crate::dma::bus::bus_address;
use crate::dma::bus::bus_result;
use crate::dma::bus::lemma_bus_injective;
use crate::dma::model::on_bus;
use crate::dma::model::State;
use crate::dma::model::CELL_SIZE;
use crate::dma::registers::CB_SIZE;
use crate::dma::sound::lemma_indirect_wf;
use crate::dma::sound::lemma_load_chunk_wf;
use crate::dma::sound::lemma_one_owner;
use crate::dma::sound::lemma_store_wf;
use crate::dma::sound::lemma_take;
use crate::dma::sound::lemma_translate_wf;
use crate::fault::Fault;

verus! {

/// No address that an executive hands out is zero: not that of the
/// descriptor table, of the scratch buffer, of a chunk or of a cell, and so
/// none that a reference resolves to.
pub proof fn lemma_not_null(state: State)
    requires
        state.wf(),
    ensures
        state.table != 0,
        state.void != 0,
        forall|i: int| 0 <= i < state.chunks.len() ==> (#[trigger] state.chunks[i]).base != 0,
        forall|i: int| 0 <= i < state.cells.len() ==> (#[trigger] state.cells[i]).address != 0,
        forall|data_ref: DataRef| #[trigger]
            state.data_ref(data_ref) is Ok ==> state.data_ref(data_ref).unwrap() != 0,
        forall|op: u32| #[trigger] state.op_ref(op) is Ok ==> state.op_ref(op).unwrap() != 0,
        forall|op_field_ref: OpFieldRef| #[trigger]
            state.op_field_ref(op_field_ref) is Ok ==> state.op_field_ref(op_field_ref).unwrap()
                != 0,
{
    assert forall|data_ref: DataRef| #[trigger]
        state.data_ref(data_ref) is Ok implies state.data_ref(data_ref).unwrap() != 0 by {
        let chunk = state.chunks[data_ref.chunk as int];
        assert(state.arena <= chunk.base);
        assert(chunk.base + chunk.bytes.len() <= state.cursor());
    }
}

/// What an indirect source refers to: the address whose bus address its
/// cell holds.
pub open spec fn referent(state: State, src: OpField) -> Result<u32, Fault> {
    match src {
        OpField::DataRefIndirect(data_ref) => state.data_ref(data_ref),
        OpField::OpFieldRefIndirect(op_field_ref) => state.op_field_ref(op_field_ref),
        OpField::OpRefIndirect(op) => state.op_ref(op),
        _ => Err(Fault::IllegalVariant),
    }
}

/// Whether a source is read through a cell.
pub open spec fn is_indirect(src: OpField) -> bool {
    src is DataRefIndirect || src is OpFieldRefIndirect || src is OpRefIndirect
}

/// A chunk holds, from its address on, the bytes it was loaded with, or
/// zeroes where it was loaded with none; what the other chunks hold is as
/// it was.
pub proof fn lemma_round_trip(
    state: State,
    symbol: Option<Seq<char>>,
    flags: u32,
    size: nat,
    align: nat,
    backing: Option<Seq<u8>>,
)
    requires
        state.wf(),
        0 < align,
        state.load_chunk(symbol, flags, size, align, backing) is Ok,
    ensures
        ({
            let (after, base) = state.load_chunk(symbol, flags, size, align, backing).unwrap();
            &&& forall|i: int|
                0 <= i < size ==> #[trigger] after.byte(base + i) == Some(
                    match backing {
                        Some(bytes) => bytes[i],
                        None => 0u8,
                    },
                )
            &&& forall|address: int|
                state.byte(address) is Some ==> #[trigger] after.byte(address) == state.byte(
                    address,
                )
        }),
{
    let (after, base) = state.load_chunk(symbol, flags, size, align, backing).unwrap();
    let index = state.chunks.len() as int;
    lemma_load_chunk_wf(state, symbol, flags, size, align, backing);
    assert forall|i: int| 0 <= i < size implies #[trigger] after.byte(base + i) == Some(
        match backing {
            Some(bytes) => bytes[i],
            None => 0u8,
        },
    ) by {
        assert(after.holds(index, base + i));
        lemma_one_owner(after, index, base + i);
    }
    assert forall|address: int| state.byte(address) is Some implies #[trigger] after.byte(address)
        == state.byte(address) by {
        let owner = state.owner(address).unwrap();
        assert(state.holds(owner, address));
        assert(after.chunks[owner] == state.chunks[owner]);
        assert(after.holds(owner, address));
        lemma_one_owner(after, owner, address);
    }
}

/// Loading more operations than the descriptor table has slots is refused.
pub proof fn lemma_load_ops_capacity(state: State, ops: Seq<Op>, index: nat)
    requires
        state.wf(),
        index <= state.blocks.len(),
        ops.len() > state.blocks.len(),
    ensures
        state.load_from(ops, index).1 is Err,
    decreases ops.len() - index,
{
    if index < state.blocks.len() {
        if let Ok((after, cb)) = state.translate(ops[index as int]) {
            lemma_translate_wf(state, ops[index as int]);
            lemma_store_wf(after, index as int, cb);
            lemma_load_ops_capacity(after.store(index as int, cb), ops, index + 1);
        }
    }
}

/// Where a table or a length is too small the operation is refused: more
/// operations than descriptor slots, backing bytes whose length is not the
/// chunk's size, and an entry point outside the descriptor table.
pub proof fn lemma_capacity(
    state: State,
    ops: Seq<Op>,
    symbol: Option<Seq<char>>,
    size: nat,
    align: nat,
    backing: Seq<u8>,
    name: Seq<char>,
    op_idx: usize,
)
    requires
        state.wf(),
    ensures
        ops.len() > state.blocks.len() ==> state.load_ops(ops).1 is Err,
        backing.len() != size ==> state.load_chunk(symbol, 0, size, align, Some(backing)) == Err::<
            (State, u32),
            Fault,
        >(Fault::BackingLength),
        op_idx >= state.blocks.len() ==> state.map_routine(name, op_idx) == Err::<State, Fault>(
            Fault::OpIndex,
        ),
{
    if ops.len() > state.blocks.len() {
        lemma_load_ops_capacity(state, ops, 0);
    }
}

/// An operation whose destination or source is the void compiles only if
/// its length is fixed and below the size of the scratch buffer.
pub proof fn lemma_void(state: State, op: Op)
    requires
        state.translate(op) is Ok,
        op.dst_field() == Ok::<OpField, Fault>(OpField::Hole(Hole::Void)) || op.src_field() == Ok::<
            OpField,
            Fault,
        >(OpField::Hole(Hole::Void)),
    ensures
        op.len_field() matches Ok(OpField::Fixed(length)) && length < state.void_size,
{
}

/// An operation whose destination or source is the void, whose other
/// operands are literals within reach of the bus, and whose length is fixed
/// and below the size of the scratch buffer compiles, if the scratch buffer
/// itself is within reach of the bus.
pub proof fn lemma_void_compiles(state: State, length: u32, other: u32, sink: bool)
    requires
        length < state.void_size,
        bus_address(state.void) is Some,
        bus_address(other) is Some,
    ensures
        ({
            let void = OpField::Hole(Hole::Void);
            let fixed = OpField::Fixed(other);
            let (dst, src) = if sink {
                (void, fixed)
            } else {
                (fixed, void)
            };
            state.compile(dst, src, OpField::Fixed(length), OpField::Hole(Hole::End)) is Ok
        }),
{
}

/// No two cells share an address.
pub proof fn lemma_cells_apart(state: State, i: int, j: int)
    requires
        state.wf(),
        0 <= i < state.cells.len(),
        0 <= j < state.cells.len(),
        i != j,
    ensures
        state.cells[i].address != state.cells[j].address,
{
    if i < j {
        assert(state.cells[i].address + CELL_SIZE <= state.cells[j].address);
    } else {
        assert(state.cells[j].address + CELL_SIZE <= state.cells[i].address);
    }
}

/// An indirect source takes exactly one new cell. The cell holds the bus
/// address of what the source refers to, and the compiled word is the bus
/// address of the cell. Nothing but the cells and the cursor changes.
pub proof fn lemma_indirection(state: State, src: OpField, len: OpField)
    requires
        state.wf(),
        is_indirect(src),
        state.source_word(src, len) is Ok,
    ensures
        ({
            let (after, word) = state.source_word(src, len).unwrap();
            let cell = after.cells.last();
            &&& after.cells == state.cells.push(cell)
            &&& on_bus(referent(state, src)) == Ok::<u32, Fault>(cell.value)
            &&& bus_result(cell.address) == Ok::<u32, Fault>(word)
            &&& forall|i: int|
                0 <= i < state.cells.len() ==> (#[trigger] state.cells[i]).address != cell.address
            &&& after.chunks == state.chunks
            &&& after.blocks == state.blocks
            &&& referent(after, src) == referent(state, src)
        }),
{
    let value = on_bus(referent(state, src)).unwrap();
    lemma_indirect_wf(state, value);
    lemma_take(state, CELL_SIZE as nat, CELL_SIZE as nat);
}

/// Two resolutions of the same indirect source take two cells at different
/// addresses. Both hold the bus address of what the source refers to, and
/// the two compiled words differ.
pub proof fn lemma_indirections_distinct(state: State, src: OpField, len: OpField)
    requires
        state.wf(),
        is_indirect(src),
        state.source_word(src, len) is Ok,
        state.source_word(src, len).unwrap().0.source_word(src, len) is Ok,
    ensures
        ({
            let (first, first_word) = state.source_word(src, len).unwrap();
            let (second, second_word) = first.source_word(src, len).unwrap();
            let count = state.cells.len() as int;
            &&& second.cells.len() == count + 2
            &&& second.cells[count].address != second.cells[count + 1].address
            &&& first_word != second_word
            &&& on_bus(referent(state, src)) == Ok::<u32, Fault>(second.cells[count].value)
            &&& on_bus(referent(state, src)) == Ok::<u32, Fault>(second.cells[count + 1].value)
            &&& bus_result(second.cells[count].address) == Ok::<u32, Fault>(first_word)
            &&& bus_result(second.cells[count + 1].address) == Ok::<u32, Fault>(second_word)
        }),
{
    let (first, first_word) = state.source_word(src, len).unwrap();
    let (second, second_word) = first.source_word(src, len).unwrap();
    lemma_indirection(state, src, len);
    let value = on_bus(referent(state, src)).unwrap();
    lemma_indirect_wf(state, value);
    lemma_indirection(first, src, len);
    let count = state.cells.len() as int;
    assert(first.cells[count] == first.cells.last());
    assert(second.cells[count] == first.cells[count]);
    if first_word == second_word {
        lemma_bus_injective(second.cells[count].address, second.cells[count + 1].address);
    }
}

/// What compiling an operation leaves alone: everything but the cells and
/// the cursor.
pub proof fn lemma_translate_frame(state: State, op: Op)
    requires
        state.translate(op) is Ok,
    ensures
        ({
            let after = state.translate(op).unwrap().0;
            &&& after.arena == state.arena
            &&& after.capacity == state.capacity
            &&& after.table == state.table
            &&& after.blocks == state.blocks
            &&& after.void == state.void
            &&& after.void_size == state.void_size
            &&& after.chunk_limit == state.chunk_limit
            &&& after.chunks == state.chunks
            &&& after.symbols == state.symbols
            &&& after.routines == state.routines
        }),
{
}

/// A cell, once made, stays where it is and keeps what it holds: compiling
/// an operation only adds cells behind those that were there.
pub proof fn lemma_cells_kept(state: State, op: Op)
    requires
        state.translate(op) is Ok,
    ensures
        state.cells.is_prefix_of(state.translate(op).unwrap().0.cells),
{
}

/// What loading operations leaves alone, whether or not all of them are
/// accepted: everything but the blocks, the cells and the cursor. The
/// descriptor table keeps its place and its size, and the cells that were
/// there stay as they were.
pub proof fn lemma_load_from_frame(state: State, ops: Seq<Op>, index: nat)
    requires
        state.wf(),
    ensures
        ({
            let after = state.load_from(ops, index).0;
            &&& after.wf()
            &&& after.arena == state.arena
            &&& after.capacity == state.capacity
            &&& after.table == state.table
            &&& after.blocks.len() == state.blocks.len()
            &&& after.void == state.void
            &&& after.void_size == state.void_size
            &&& after.chunk_limit == state.chunk_limit
            &&& after.chunks == state.chunks
            &&& after.symbols == state.symbols
            &&& after.routines == state.routines
            &&& state.cells.is_prefix_of(after.cells)
        }),
    decreases ops.len() - index,
{
    if index < ops.len() && index < state.blocks.len() {
        if let Ok((mid, cb)) = state.translate(ops[index as int]) {
            lemma_translate_wf(state, ops[index as int]);
            lemma_translate_frame(state, ops[index as int]);
            lemma_cells_kept(state, ops[index as int]);
            lemma_store_wf(mid, index as int, cb);
            lemma_load_from_frame(mid.store(index as int, cb), ops, index + 1);
        }
    }
}

/// What a state and a later one have in common when only operations were
/// loaded in between: the descriptor table lies where it lay and has the
/// size it had.
pub open spec fn same_table(state: State, later: State) -> bool {
    later.table == state.table && later.blocks.len() == state.blocks.len()
}

/// After loading from `index` on, every slot below `index` holds what it
/// held, and every slot from `index` on holds a block whose next word was
/// compiled from the next field of the operation at its position.
pub proof fn lemma_load_from_blocks(state: State, ops: Seq<Op>, index: nat)
    requires
        state.wf(),
        state.load_from(ops, index).1 is Ok,
    ensures
        ({
            let after = state.load_from(ops, index).0;
            &&& same_table(state, after)
            &&& ops.len() <= state.blocks.len() || index >= ops.len()
            &&& forall|i: int| 0 <= i < index && i < state.blocks.len() ==> after.blocks[i] == state.blocks[i]
            &&& forall|i: int|
                index <= i < ops.len() ==> (#[trigger] ops[i]).nxt_field() is Ok && state.next_word(
                    ops[i].nxt_field().unwrap(),
                ) == Ok::<u32, Fault>(after.blocks[i].nextconbk)
        }),
    decreases ops.len() - index,
{
    if index < ops.len() {
        let (mid, cb) = state.translate(ops[index as int]).unwrap();
        lemma_translate_wf(state, ops[index as int]);
        lemma_translate_frame(state, ops[index as int]);
        lemma_store_wf(mid, index as int, cb);
        let stored = mid.store(index as int, cb);
        lemma_load_from_blocks(stored, ops, index + 1);
        let after = state.load_from(ops, index).0;
        assert(after == stored.load_from(ops, index + 1).0);
        assert forall|i: int| index <= i < ops.len() implies (#[trigger] ops[i]).nxt_field() is Ok
            && state.next_word(ops[i].nxt_field().unwrap()) == Ok::<u32, Fault>(
            after.blocks[i].nextconbk,
        ) by {
            if i == index {
                assert(after.blocks[i] == stored.blocks[i]);
                assert(stored.blocks[i] == cb);
            } else {
                assert(stored.next_word(ops[i].nxt_field().unwrap()) == state.next_word(
                    ops[i].nxt_field().unwrap(),
                ));
            }
        }
    }
}

/// A chain compiles to blocks that are linked in its order: where each
/// operation names the one behind it as its next and the last one ends the
/// chain, the next word of each block but the last is the bus address of
/// the block behind it, and the next word of the last block is zero.
pub proof fn lemma_chain(state: State, ops: Seq<Op>)
    requires
        state.wf(),
        0 < ops.len(),
        forall|i: int|
            0 <= i < ops.len() - 1 ==> (#[trigger] ops[i]).nxt_field() == Ok::<OpField, Fault>(
                OpField::OpRef((i + 1) as u32),
            ),
        ops.last().nxt_field() == Ok::<OpField, Fault>(OpField::Hole(Hole::End)),
        state.load_ops(ops).1 is Ok,
    ensures
        ({
            let after = state.load_ops(ops).0;
            &&& ops.len() <= after.blocks.len()
            &&& forall|i: int|
                0 <= i < ops.len() - 1 ==> bus_result((state.table + CB_SIZE * (i + 1)) as u32)
                    == Ok::<u32, Fault>((#[trigger] after.blocks[i]).nextconbk)
            &&& after.blocks[ops.len() - 1].nextconbk == 0
        }),
{
    lemma_load_from_blocks(state, ops, 0);
    let after = state.load_ops(ops).0;
    assert forall|i: int| 0 <= i < ops.len() - 1 implies bus_result(
        (state.table + CB_SIZE * (i + 1)) as u32,
    ) == Ok::<u32, Fault>((#[trigger] after.blocks[i]).nextconbk) by {
        assert(ops[i].nxt_field() == Ok::<OpField, Fault>(OpField::OpRef((i + 1) as u32)));
        assert(state.next_word(ops[i].nxt_field().unwrap()) == Ok::<u32, Fault>(
            after.blocks[i].nextconbk,
        ));
    }
    let last = ops.len() - 1;
    assert(ops[last] == ops.last());
    assert(state.next_word(ops[last].nxt_field().unwrap()) == Ok::<u32, Fault>(
        after.blocks[last].nextconbk,
    ));
}

} // verus!
