//! Every operation of the model leads from a well-formed state to a
//! well-formed state.

use vstd::prelude::*;
use vstd::arithmetic::div_mod::lemma_fundamental_div_mod;
use vstd::arithmetic::div_mod::lemma_mod_multiples_basic;
use vstd::arithmetic::div_mod::lemma_mod_pos_bound;
use vstd::arithmetic::mul::lemma_mul_is_commutative;
use vstd::arithmetic::mul::lemma_mul_is_distributive_add;
use crate::dilf::Op;
use crate::dilf::OpField;
use crate::dma::model::align_up;
use crate::dma::model::State;
use crate::dma::model::CELL_SIZE;
use crate::dma::registers::CB;
use crate::dma::registers::CB_SIZE;

verus! {

/// The first multiple of `align` at or above `address` is one, and lies
/// less than `align` above it.
pub proof fn lemma_align_up(address: int, align: int)
    requires
        0 <= address,
        0 < align,
    ensures
        address <= align_up(address, align) < address + align,
        align_up(address, align) % align == 0,
{
    let rest = address % align;
    let whole = address / align;
    lemma_mod_pos_bound(address, align);
    lemma_fundamental_div_mod(address, align);
    if rest != 0 {
        lemma_mul_is_distributive_add(align, whole, 1);
        lemma_mul_is_commutative(align, whole + 1);
        lemma_mod_multiples_basic(whole + 1, align);
        assert(address + align - rest == (whole + 1) * align);
    }
}

/// Handing out a block moves the cursor past it and changes nothing else;
/// the block lies at or above the old cursor and is aligned.
pub proof fn lemma_take(state: State, size: nat, align: nat)
    requires
        state.wf(),
        0 < align,
        state.place(size, align) is Some,
    ensures
        state.take(size, align).wf(),
        state.cursor() <= state.place(size, align).unwrap(),
        state.place(size, align).unwrap() + size == state.take(size, align).cursor(),
        (state.place(size, align).unwrap() as int) % (align as int) == 0,
{
    lemma_align_up(state.cursor(), align as int);
}

/// A new executive is well formed.
pub proof fn lemma_create_wf(
    arena: u32,
    capacity: nat,
    op_count: nat,
    chunk_limit: nat,
    void_size: nat,
)
    requires
        State::create(arena, capacity, op_count, chunk_limit, void_size) is Ok,
    ensures
        State::create(arena, capacity, op_count, chunk_limit, void_size).unwrap().wf(),
{
    let bare = State::bare(arena, capacity, chunk_limit);
    lemma_align_up(bare.cursor(), CB_SIZE as int);
    let tabled = bare.take(CB_SIZE as nat * op_count, CB_SIZE as nat);
    lemma_align_up(tabled.cursor(), 4);
}

/// A new cell keeps the state well formed and lies above every older cell.
pub proof fn lemma_indirect_wf(state: State, value: u32)
    requires
        state.wf(),
        state.indirect(value) is Ok,
    ensures
        state.indirect(value).unwrap().0.wf(),
{
    lemma_take(state, CELL_SIZE as nat, CELL_SIZE as nat);
}

/// Compiling an operation keeps the state well formed.
pub proof fn lemma_source_wf(state: State, src: OpField, len: OpField)
    requires
        state.wf(),
        state.source_word(src, len) is Ok,
    ensures
        state.source_word(src, len).unwrap().0.wf(),
        state.source_word(src, len).unwrap().0.blocks == state.blocks,
{
    match src {
        OpField::DataRefIndirect(data_ref) => {
            let value = crate::dma::model::on_bus(state.data_ref(data_ref)).unwrap();
            lemma_indirect_wf(state, value);
        },
        OpField::OpFieldRefIndirect(op_field_ref) => {
            let value = crate::dma::model::on_bus(state.op_field_ref(op_field_ref)).unwrap();
            lemma_indirect_wf(state, value);
        },
        OpField::OpRefIndirect(op) => {
            let value = crate::dma::model::on_bus(state.op_ref(op)).unwrap();
            lemma_indirect_wf(state, value);
        },
        _ => {},
    }
}

/// Compiling an operation keeps the state well formed and the descriptor
/// table as it was.
pub proof fn lemma_translate_wf(state: State, op: Op)
    requires
        state.wf(),
        state.translate(op) is Ok,
    ensures
        state.translate(op).unwrap().0.wf(),
        state.translate(op).unwrap().0.blocks == state.blocks,
{
    let src = op.src_field().unwrap();
    let len = op.len_field().unwrap();
    lemma_source_wf(state, src, len);
}

/// Storing a descriptor in a slot of the table keeps the state well formed.
pub proof fn lemma_store_wf(state: State, index: int, cb: CB)
    requires
        state.wf(),
        0 <= index < state.blocks.len(),
    ensures
        state.store(index, cb).wf(),
{
}

/// Loading a chunk keeps the state well formed.
pub proof fn lemma_load_chunk_wf(
    state: State,
    symbol: Option<Seq<char>>,
    flags: u32,
    size: nat,
    align: nat,
    backing: Option<Seq<u8>>,
)
    requires
        state.wf(),
        0 < align,
        state.load_chunk(symbol, flags, size, align, backing) is Ok,
    ensures
        state.load_chunk(symbol, flags, size, align, backing).unwrap().0.wf(),
{
    lemma_take(state, size, align);
    let after = state.load_chunk(symbol, flags, size, align, backing).unwrap().0;
    assert(after.chunks.len() == state.chunks.len() + 1);
    assert forall|name: Seq<char>| #[trigger]
        after.symbols.contains_key(name) implies after.symbols[name] < after.chunks.len() by {
        if state.symbols.contains_key(name) {
            assert(state.symbols[name] < state.chunks.len());
        }
    }
}

/// Naming a routine keeps the state well formed.
pub proof fn lemma_map_routine_wf(state: State, name: Seq<char>, op_idx: usize)
    requires
        state.wf(),
        state.map_routine(name, op_idx) is Ok,
    ensures
        state.map_routine(name, op_idx).unwrap().wf(),
{
    let after = state.map_routine(name, op_idx).unwrap();
    assert forall|other: Seq<char>| #[trigger]
        after.routines.contains_key(other) implies after.routines[other] < after.blocks.len() by {
        if state.routines.contains_key(other) {
            assert(state.routines[other] < state.blocks.len());
        }
    }
}

/// In a well-formed state at most one chunk holds an address.
pub proof fn lemma_one_owner(state: State, index: int, address: int)
    requires
        state.wf(),
        state.holds(index, address),
    ensures
        state.owner(address) == Some(index),
{
    let chosen = choose|i: int| state.holds(i, address);
    assert(state.holds(chosen, address));
    if chosen < index {
        assert(state.chunks[chosen].base + state.chunks[chosen].bytes.len()
            <= state.chunks[index].base);
    } else if index < chosen {
        assert(state.chunks[index].base + state.chunks[index].bytes.len()
            <= state.chunks[chosen].base);
    }
}

/// The owner of an address holds it.
pub proof fn lemma_owner_holds(state: State, address: int)
    ensures
        state.owner(address) matches Some(index) ==> state.holds(index, address),
{
}

/// Writing a byte keeps the state well formed.
pub proof fn lemma_poke_wf(state: State, address: int, value: u8)
    requires
        state.wf(),
    ensures
        state.poke(address, value).wf(),
{
    let after = state.poke(address, value);
    if let Some(index) = state.owner(address) {
        assert(state.holds(index, address));
        assert forall|i: int| 0 <= i < after.chunks.len() implies state.arena <= (
        #[trigger] after.chunks[i]).base && after.chunks[i].base + after.chunks[i].bytes.len()
            <= after.cursor() by {
            assert(state.arena <= state.chunks[i].base);
        }
        assert forall|i: int, j: int| 0 <= i < j < after.chunks.len() implies (
        #[trigger] after.chunks[i]).base + after.chunks[i].bytes.len() <= (
        #[trigger] after.chunks[j]).base by {
            assert(state.chunks[i].base + state.chunks[i].bytes.len() <= state.chunks[j].base);
        }
        assert forall|name: Seq<char>| #[trigger]
            after.symbols.contains_key(name) implies after.symbols[name] < after.chunks.len() by {
            assert(state.symbols.contains_key(name));
        }
    }
}

} // verus!
