use deimos_bcm2835::dilf::DataRef;
use deimos_bcm2835::dilf::Dst;
use deimos_bcm2835::dilf::Hole;
use deimos_bcm2835::dilf::Layout;
use deimos_bcm2835::dilf::Len;
use deimos_bcm2835::dilf::Loader;
use deimos_bcm2835::dilf::Nxt;
use deimos_bcm2835::dilf::Op;
use deimos_bcm2835::dilf::OpFieldId;
use deimos_bcm2835::dilf::OpFieldRef;
use deimos_bcm2835::dilf::Src;
use deimos_bcm2835::dma::engine::Action;
use deimos_bcm2835::dma::engine::Phase;
use deimos_bcm2835::dma::engine::Timing;
use deimos_bcm2835::dma::model::Cell;
use deimos_bcm2835::dma::raw::Channel;
use deimos_bcm2835::dma::registers::CB;
use deimos_bcm2835::dma::Executive;
use deimos_bcm2835::fault::Fault;
use deimos_bcm2835::mailbox::dma_channels::DmaChannels;

const ARENA: u32 = 0x0200_0000;

fn bytes(size: usize, align: usize) -> Layout {
    Layout::from_size_align(size, align).unwrap()
}

fn channel(index: usize) -> Channel {
    DmaChannels::from_mask(0xffff).claim(index).unwrap()
}

fn copy(dst: usize, src: usize, len: usize, next: Option<usize>) -> Op {
    Op {
        flags: if next.is_some() { 0x6400 } else { 0x5400 },
        dst: Dst::data_ref(dst, 0),
        src: Src::data_ref(src, 0),
        len: Len::fixed(len),
        nxt: match next {
            Some(index) => Nxt::op_ref(index),
            None => Nxt::end(),
        },
    }
}

fn cpu(bus: u32) -> u32 {
    bus & !0x4000_0000
}

/// Plays the hardware: carries out the actions of a run. When the channel
/// is started, the chain is walked block by block and each block's bytes
/// are copied. The status shows the channel at work `busy` times.
fn drive(executive: &mut Executive, routine: &str, on: &Channel, busy: u32) -> (Timing, Vec<Action>) {
    let mut transfer = executive.execute(routine, on).unwrap();
    let base = on.base();
    let mut actions = Vec::new();
    let mut reply = 0u32;
    let mut clock = 1000u32;
    let mut block = 0u32;
    let mut polls = 0u32;
    loop {
        let action = transfer.step(reply);
        actions.push(action);
        reply = 0;
        match action {
            Action::Barrier | Action::CleanInvalidateCache => {},
            Action::ReadCycleCounter => {
                reply = clock;
                clock += 250;
            },
            Action::Read { address } => {
                assert_eq!(address, base);
                reply = if polls < busy { 0x1000_0001 } else { 0x1000_0002 };
                polls += 1;
            },
            Action::Write { address, value } => {
                if address == base + 4 {
                    block = value;
                } else if address == base && value & 1 == 1 {
                    let mut at = block;
                    while at != 0 {
                        let index = ((cpu(at) - executive.op_arena()) / 32) as usize;
                        let cb = executive.descriptor(index).unwrap();
                        for i in 0..cb.txfr_len {
                            let byte = executive.peek(cpu(cb.source_ad) + i).unwrap();
                            assert!(executive.poke(cpu(cb.dest_ad) + i, byte));
                        }
                        at = cb.nextconbk;
                    }
                }
            },
            Action::Done(timing) => return (timing, actions),
        }
    }
}

#[test]
fn a_new_executive_lays_out_table_and_void() {
    let executive = Executive::new(ARENA, 0x1000, 16, 4, 4).unwrap();
    assert_eq!(executive.op_count(), 16);
    assert_eq!(executive.op_arena(), ARENA);
    assert_eq!(executive.void(), ARENA + 16 * 32);
    assert_eq!(executive.void_size(), 4);
    assert_eq!(executive.chunk_count(), 0);
    assert_eq!(executive.cell_count(), 0);
    assert_eq!(executive.descriptor(0), Some(CB::zero()));
    assert_eq!(executive.descriptor(15), Some(CB::zero()));
    assert_eq!(executive.descriptor(16), None);
}

#[test]
fn the_table_starts_at_a_multiple_of_thirty_two() {
    let executive = Executive::new(ARENA + 4, 0x1000, 2, 4, 0).unwrap();
    assert_eq!(executive.op_arena(), ARENA + 32);
    assert_eq!(executive.void(), ARENA + 32 + 64);
}

#[test]
fn an_arena_that_cannot_hold_table_and_void_is_refused() {
    assert!(matches!(Executive::new(ARENA, 63, 2, 4, 0), Err(Fault::OutOfMemory)));
    assert!(Executive::new(ARENA, 64, 2, 4, 0).is_ok());
    assert!(matches!(Executive::new(ARENA, 64, 2, 4, 1), Err(Fault::OutOfMemory)));
    assert!(matches!(Executive::new(ARENA + 1, 64, 2, 4, 0), Err(Fault::OutOfMemory)));
    assert!(matches!(Executive::new(0xffff_ff00, 0x100, 1, 1, 0), Err(Fault::OutOfMemory)));
    assert!(matches!(Executive::new(ARENA, 0x1000, usize::MAX, 4, 0), Err(Fault::OutOfMemory)));
    assert!(Executive::new(ARENA, 0, 0, 0, 0).is_ok());
}

#[test]
fn a_chunk_holds_its_backing_bytes_at_its_address() {
    let mut executive = Executive::new(ARENA, 0x1000, 1, 4, 0).unwrap();
    let backing = [0xde, 0xad, 0xbe, 0xef, 0x01];
    let address = executive.load_chunk(Some("src"), 0, bytes(5, 4), Some(&backing)).unwrap();
    assert_eq!(address, ARENA + 32);
    for (i, byte) in backing.iter().enumerate() {
        assert_eq!(executive.peek(address + i as u32), Some(*byte));
    }
    assert_eq!(executive.peek(address + 5), None);
    assert_eq!(executive.peek(address - 1), None);
    assert_eq!(executive.chunk(0), Some((address, 5)));
    assert_eq!(executive.symbol("src"), Some((address, 5)));
    assert_eq!(executive.symbol("dst"), None);
}

#[test]
fn a_chunk_without_backing_is_zeroed_and_aligned() {
    let mut executive = Executive::new(ARENA, 0x1000, 1, 4, 1).unwrap();
    let first = executive.load_chunk(None, 0, bytes(3, 1), None).unwrap();
    assert_eq!(first, ARENA + 33);
    let second = executive.load_chunk(None, 0, bytes(8, 16), None).unwrap();
    assert_eq!(second, ARENA + 48);
    for i in 0..8 {
        assert_eq!(executive.peek(second + i), Some(0));
    }
    assert_eq!(executive.chunk_count(), 2);
    assert_eq!(executive.chunk(1), Some((second, 8)));
    assert_eq!(executive.chunk(2), None);
}

#[test]
fn loading_a_chunk_leaves_the_others_alone() {
    let mut executive = Executive::new(ARENA, 0x1000, 1, 4, 0).unwrap();
    let first = executive.load_chunk(None, 0, bytes(2, 1), Some(&[7, 8])).unwrap();
    let second = executive.load_chunk(None, 0, bytes(2, 1), Some(&[9, 10])).unwrap();
    assert_eq!(executive.peek(first), Some(7));
    assert_eq!(executive.peek(first + 1), Some(8));
    assert_eq!(executive.peek(second), Some(9));
    assert_eq!(executive.peek(second + 1), Some(10));
}

#[test]
fn a_name_stands_for_the_chunk_loaded_last_under_it() {
    let mut executive = Executive::new(ARENA, 0x1000, 1, 4, 0).unwrap();
    executive.load_chunk(Some("buffer"), 0, bytes(4, 4), None).unwrap();
    let second = executive.load_chunk(Some("buffer"), 0, bytes(8, 4), None).unwrap();
    assert_eq!(executive.symbol("buffer"), Some((second, 8)));
}

#[test]
fn chunk_flags_must_be_zero() {
    let mut executive = Executive::new(ARENA, 0x1000, 1, 4, 0).unwrap();
    assert_eq!(executive.load_chunk(Some("a"), 1, bytes(4, 4), None), Err(Fault::UnsupportedFlags));
    // the flags are looked at before the backing bytes
    assert_eq!(
        executive.load_chunk(None, 0x8000_0000, bytes(4, 4), Some(&[1])),
        Err(Fault::UnsupportedFlags)
    );
    assert_eq!(executive.chunk_count(), 0);
    assert_eq!(executive.symbol("a"), None);
}

#[test]
fn backing_bytes_must_have_the_size_of_the_layout() {
    let mut executive = Executive::new(ARENA, 0x1000, 1, 4, 0).unwrap();
    assert_eq!(
        executive.load_chunk(Some("a"), 0, bytes(4, 4), Some(&[1, 2, 3])),
        Err(Fault::BackingLength)
    );
    assert_eq!(
        executive.load_chunk(None, 0, bytes(2, 1), Some(&[1, 2, 3])),
        Err(Fault::BackingLength)
    );
    assert_eq!(executive.chunk_count(), 0);
    assert_eq!(executive.symbol("a"), None);
    assert!(executive.load_chunk(None, 0, bytes(3, 1), Some(&[1, 2, 3])).is_ok());
}

#[test]
fn the_chunk_table_has_a_fixed_size() {
    let mut executive = Executive::new(ARENA, 0x1000, 1, 2, 0).unwrap();
    assert!(executive.load_chunk(None, 0, bytes(4, 4), None).is_ok());
    assert!(executive.load_chunk(None, 0, bytes(4, 4), None).is_ok());
    assert_eq!(executive.load_chunk(None, 0, bytes(4, 4), None), Err(Fault::ChunkTableFull));
    assert_eq!(executive.chunk_count(), 2);
}

#[test]
fn the_arena_has_a_fixed_size() {
    let mut executive = Executive::new(ARENA, 64, 1, 4, 0).unwrap();
    assert_eq!(executive.load_chunk(None, 0, bytes(33, 1), None), Err(Fault::OutOfMemory));
    assert!(executive.load_chunk(None, 0, bytes(32, 1), None).is_ok());
    assert_eq!(executive.load_chunk(None, 0, bytes(1, 1), None), Err(Fault::OutOfMemory));
    assert!(executive.load_chunk(None, 0, bytes(0, 1), None).is_ok());
}

#[test]
fn bytes_can_be_written_only_inside_chunks() {
    let mut executive = Executive::new(ARENA, 0x1000, 1, 4, 0).unwrap();
    let address = executive.load_chunk(None, 0, bytes(4, 4), None).unwrap();
    assert!(executive.poke(address + 3, 0x5a));
    assert_eq!(executive.peek(address + 3), Some(0x5a));
    assert_eq!(executive.peek(address + 2), Some(0));
    assert!(!executive.poke(address + 4, 1));
    assert!(!executive.poke(ARENA, 1));
}

#[test]
fn a_plain_copy_compiles_to_one_block() {
    let mut executive = Executive::new(ARENA, 0x20000, 16, 16, 4).unwrap();
    let dst = executive.load_chunk(Some("dst"), 0, bytes(0x8000, 1), None).unwrap();
    let src = executive.load_chunk(Some("src"), 0, bytes(0x8000, 1), None).unwrap();
    assert_eq!(dst, 0x0200_0204);
    assert_eq!(src, 0x0200_8204);
    let cb = executive.translate_op(copy(0, 1, 0x8000, None)).unwrap();
    assert_eq!(
        cb,
        CB {
            ti: 0x0400_0118,
            source_ad: 0x4200_8204,
            dest_ad: 0x4200_0204,
            txfr_len: 0x8000,
            stride: 0,
            nextconbk: 0,
            pad0: 0,
            pad1: 0,
        }
    );
    // compiling alone stores nothing
    assert_eq!(executive.descriptor(0), Some(CB::zero()));
}

#[test]
fn references_resolve_to_addresses() {
    let mut executive = Executive::new(ARENA, 0x1000, 4, 4, 0).unwrap();
    let chunk = executive.load_chunk(None, 0, bytes(16, 16), None).unwrap();
    assert_eq!(executive.resolve_data_ref(DataRef { chunk: 0, offset: 15 }), Ok(chunk + 15));
    assert_eq!(executive.resolve_data_ref(DataRef { chunk: 0, offset: 16 }), Err(Fault::ChunkOffset));
    assert_eq!(executive.resolve_data_ref(DataRef { chunk: 1, offset: 0 }), Err(Fault::ChunkIndex));
    assert_eq!(executive.resolve_op_ref(3), Ok(ARENA + 96));
    assert_eq!(executive.resolve_op_ref(4), Err(Fault::OpIndex));
    for (field_id, word) in
        [(OpFieldId::Src, 1u32), (OpFieldId::Dst, 2), (OpFieldId::Len, 3), (OpFieldId::Nxt, 5)]
    {
        assert_eq!(
            executive.resolve_op_field_ref(OpFieldRef { op: 2, field_id }),
            Ok(ARENA + 64 + 4 * word)
        );
    }
    assert_eq!(
        executive.resolve_op_field_ref(OpFieldRef { op: 4, field_id: OpFieldId::Src }),
        Err(Fault::OpIndex)
    );
}

#[test]
fn literals_and_field_references_are_translated() {
    let mut executive = Executive::new(ARENA, 0x1000, 4, 4, 0).unwrap();
    let op = Op {
        flags: 0x4442,
        dst: Dst::op_field_ref(1, OpFieldId::Len),
        src: Src::fixed(0x2000_7004),
        len: Len::fixed(4),
        nxt: Nxt::fixed(0x0200_0040),
    };
    let cb = executive.translate_op(op).unwrap();
    assert_eq!(cb.dest_ad, 0x4200_0000 + 32 + 12);
    assert_eq!(cb.source_ad, 0x7e00_7004);
    assert_eq!(cb.txfr_len, 4);
    assert_eq!(cb.nextconbk, 0x4200_0040);
}

#[test]
fn placeholders_pass_their_raw_value() {
    let mut executive = Executive::new(ARENA, 0x1000, 4, 4, 0).unwrap();
    let op = Op {
        flags: 0x5555,
        dst: Dst::hole(Hole::Param),
        src: Src::hole(Hole::Nil),
        len: Len::hole(Hole::Nil),
        nxt: Nxt::end(),
    };
    let cb = executive.translate_op(op).unwrap();
    assert_eq!((cb.dest_ad, cb.source_ad, cb.txfr_len, cb.nextconbk), (2, 3, 3, 0));
    let param = Op { len: Len::hole(Hole::Param), ..op };
    assert_eq!(executive.translate_op(param).unwrap().txfr_len, 2);
}

#[test]
fn holes_out_of_place_are_refused() {
    let mut executive = Executive::new(ARENA, 0x1000, 4, 4, 8).unwrap();
    let base = Op {
        flags: 0x5444,
        dst: Dst::fixed(0x100),
        src: Src::fixed(0x200),
        len: Len::fixed(4),
        nxt: Nxt::end(),
    };
    assert!(executive.translate_op(base).is_ok());
    let end_dst = Op { flags: 0x5445, dst: Dst::hole(Hole::End), ..base };
    assert_eq!(executive.translate_op(end_dst), Err(Fault::IllegalVariant));
    let end_src = Op { flags: 0x5454, src: Src::hole(Hole::End), ..base };
    assert_eq!(executive.translate_op(end_src), Err(Fault::IllegalVariant));
    for hole in [Hole::End, Hole::Void] {
        let len = Op { flags: 0x5544, len: Len::hole(hole), ..base };
        assert_eq!(executive.translate_op(len), Err(Fault::IllegalVariant));
    }
    for hole in [Hole::Void, Hole::Param, Hole::Nil] {
        let nxt = Op { nxt: Nxt { raw: hole.raw() }, ..base };
        assert_eq!(executive.translate_op(nxt), Err(Fault::IllegalVariant));
    }
}

#[test]
fn the_void_takes_a_fixed_length_below_its_size() {
    let mut executive = Executive::new(ARENA, 0x1000, 1, 4, 8).unwrap();
    let void = executive.void();
    assert_eq!(void, ARENA + 32);
    let sink = Op {
        flags: 0x5445,
        dst: Dst::hole(Hole::Void),
        src: Src::fixed(0x100),
        len: Len::fixed(7),
        nxt: Nxt::end(),
    };
    assert_eq!(executive.translate_op(sink).unwrap().dest_ad, void | 0x4000_0000);
    let source = Op {
        flags: 0x5454,
        dst: Dst::fixed(0x100),
        src: Src::hole(Hole::Void),
        len: Len::fixed(0),
        nxt: Nxt::end(),
    };
    assert_eq!(executive.translate_op(source).unwrap().source_ad, void | 0x4000_0000);
    for op in [sink, source] {
        assert_eq!(
            executive.translate_op(Op { len: Len::fixed(8), ..op }),
            Err(Fault::VoidOverflow)
        );
        assert_eq!(
            executive.translate_op(Op { len: Len::fixed(0x8000), ..op }),
            Err(Fault::VoidOverflow)
        );
        for hole in [Hole::Param, Hole::Nil] {
            let flags = (op.flags & !0x0f00) | 0x0500;
            assert_eq!(
                executive.translate_op(Op { flags, len: Len::hole(hole), ..op }),
                Err(Fault::VoidLength)
            );
        }
    }
}

#[test]
fn a_void_of_no_size_takes_nothing() {
    let mut executive = Executive::new(ARENA, 0x1000, 1, 4, 0).unwrap();
    let sink = Op {
        flags: 0x5445,
        dst: Dst::hole(Hole::Void),
        src: Src::fixed(0x100),
        len: Len::fixed(0),
        nxt: Nxt::end(),
    };
    assert_eq!(executive.translate_op(sink), Err(Fault::VoidOverflow));
}

#[test]
fn addresses_out_of_reach_of_the_bus_are_refused() {
    let mut executive = Executive::new(ARENA, 0x1000, 1, 4, 0).unwrap();
    let base = Op {
        flags: 0x5444,
        dst: Dst::fixed(0x100),
        src: Src::fixed(0x200),
        len: Len::fixed(4),
        nxt: Nxt::end(),
    };
    assert_eq!(
        executive.translate_op(Op { dst: Dst::fixed(0x2100_0000), ..base }),
        Err(Fault::NoMapping)
    );
    assert_eq!(
        executive.translate_op(Op { src: Src::fixed(0x8000_0000), ..base }),
        Err(Fault::NoMapping)
    );
    assert_eq!(
        executive.translate_op(Op { flags: 0x4444, nxt: Nxt::fixed(0x3000_0000), ..base }),
        Err(Fault::NoMapping)
    );
    // an arena above the windows cannot be compiled against
    let mut far = Executive::new(0x3000_0000, 0x1000, 1, 4, 0).unwrap();
    far.load_chunk(None, 0, bytes(4, 4), None).unwrap();
    assert_eq!(far.translate_op(copy(0, 0, 4, None)), Err(Fault::NoMapping));
}

#[test]
fn references_to_what_does_not_exist_are_refused() {
    let mut executive = Executive::new(ARENA, 0x1000, 2, 4, 0).unwrap();
    executive.load_chunk(None, 0, bytes(4, 4), None).unwrap();
    assert_eq!(executive.translate_op(copy(1, 0, 4, None)), Err(Fault::ChunkIndex));
    assert_eq!(executive.translate_op(copy(0, 1, 4, None)), Err(Fault::ChunkIndex));
    let past = Op { dst: Dst::data_ref(0, 4), ..copy(0, 0, 4, None) };
    assert_eq!(executive.translate_op(past), Err(Fault::ChunkOffset));
    assert_eq!(executive.translate_op(copy(0, 0, 4, Some(2))), Err(Fault::OpIndex));
    assert!(executive.translate_op(copy(0, 0, 4, Some(1))).is_ok());
}

#[test]
fn the_destination_is_looked_at_before_the_source() {
    let mut executive = Executive::new(ARENA, 0x1000, 2, 4, 0).unwrap();
    executive.load_chunk(None, 0, bytes(4, 4), None).unwrap();
    let both = Op { dst: Dst::data_ref(0, 9), src: Src::data_ref(5, 0), ..copy(0, 0, 4, None) };
    assert_eq!(executive.translate_op(both), Err(Fault::ChunkOffset));
    // and a field that cannot be read before any field that cannot be resolved
    assert_eq!(executive.translate_op(Op { flags: 0x5470, ..both }), Err(Fault::UnknownTag));
}

#[test]
fn an_indirect_source_takes_a_cell() {
    let mut executive = Executive::new(ARENA, 0x1000, 2, 4, 0).unwrap();
    let chunk = executive.load_chunk(None, 0, bytes(6, 2), Some(&[1, 2, 3, 4, 5, 6])).unwrap();
    assert_eq!(chunk, ARENA + 64);
    let op = Op { flags: 0x5410, src: Src::data_ref(0, 2), ..copy(0, 0, 4, None) };
    let cb = executive.translate_op(op).unwrap();
    // the cell is the next word of four bytes behind the chunk
    let cell = ARENA + 72;
    assert_eq!(executive.cell_count(), 1);
    assert_eq!(executive.cell(0), Some(Cell { address: cell, value: (chunk + 2) | 0x4000_0000 }));
    assert_eq!(executive.cell(1), None);
    assert_eq!(cb.source_ad, cell | 0x4000_0000);
    assert_eq!(cb.dest_ad, chunk | 0x4000_0000);
}

#[test]
fn two_resolutions_of_one_target_take_two_cells() {
    let mut executive = Executive::new(ARENA, 0x1000, 2, 4, 0).unwrap();
    executive.load_chunk(None, 0, bytes(8, 8), None).unwrap();
    let target = DataRef { chunk: 0, offset: 4 };
    let first = executive.allocate_data_ref_indirection(target).unwrap();
    let second = executive.allocate_data_ref_indirection(target).unwrap();
    assert_ne!(first, second);
    assert_eq!(second, first + 4);
    let value = executive.resolve_data_ref(target).unwrap() | 0x4000_0000;
    assert_eq!(executive.cell(0), Some(Cell { address: first, value }));
    assert_eq!(executive.cell(1), Some(Cell { address: second, value }));

    let op = Op { flags: 0x5410, src: Src::data_ref(0, 4), ..copy(0, 0, 4, None) };
    let one = executive.translate_op(op).unwrap();
    let two = executive.translate_op(op).unwrap();
    assert_ne!(one.source_ad, two.source_ad);
    assert_eq!(executive.cell_count(), 4);
    assert_eq!(executive.cell(2).unwrap().value, value);
    assert_eq!(executive.cell(3).unwrap().value, value);
    // the cells made first are as they were
    assert_eq!(executive.cell(0), Some(Cell { address: first, value }));
    assert_eq!(executive.cell(1), Some(Cell { address: second, value }));
}

#[test]
fn cells_for_descriptors_and_their_fields() {
    let mut executive = Executive::new(ARENA, 0x1000, 4, 4, 0).unwrap();
    let through_field = executive
        .allocate_op_field_ref_indirection(OpFieldRef { op: 1, field_id: OpFieldId::Nxt })
        .unwrap();
    let through_op = executive.allocate_op_ref_indirection(3).unwrap();
    assert_eq!(through_field, ARENA + 128);
    assert_eq!(through_op, ARENA + 132);
    assert_eq!(executive.cell(0).unwrap().value, 0x4200_0000 + 32 + 20);
    assert_eq!(executive.cell(1).unwrap().value, 0x4200_0000 + 96);
    assert_eq!(executive.allocate_op_ref_indirection(4), Err(Fault::OpIndex));
    assert_eq!(
        executive.allocate_op_field_ref_indirection(OpFieldRef { op: 9, field_id: OpFieldId::Dst }),
        Err(Fault::OpIndex)
    );
    assert_eq!(
        executive.allocate_data_ref_indirection(DataRef { chunk: 0, offset: 0 }),
        Err(Fault::ChunkIndex)
    );
    assert_eq!(executive.cell_count(), 2);

    let src_field = Op {
        flags: 0x5434,
        dst: Dst::fixed(0x100),
        src: Src::op_field_ref(2, OpFieldId::Src),
        len: Len::fixed(4),
        nxt: Nxt::end(),
    };
    let cb = executive.translate_op(src_field).unwrap();
    assert_eq!(cb.source_ad, (ARENA + 136) | 0x4000_0000);
    assert_eq!(executive.cell(2).unwrap().value, 0x4200_0000 + 64 + 4);
    let src_op = Op { flags: 0x5464, src: Src::op_ref(0), ..src_field };
    let cb = executive.translate_op(src_op).unwrap();
    assert_eq!(cb.source_ad, (ARENA + 140) | 0x4000_0000);
    assert_eq!(executive.cell(3).unwrap().value, 0x4200_0000);
}

#[test]
fn a_refused_operation_takes_no_cell() {
    let mut executive = Executive::new(ARENA, 0x1000, 2, 4, 0).unwrap();
    executive.load_chunk(None, 0, bytes(8, 8), None).unwrap();
    let op = Op { flags: 0x6410, src: Src::data_ref(0, 4), ..copy(0, 0, 4, Some(7)) };
    assert_eq!(executive.translate_op(op), Err(Fault::OpIndex));
    assert_eq!(executive.cell_count(), 0);
    // when the arena is used up no cell can be made
    let mut full = Executive::new(ARENA, 40, 1, 4, 0).unwrap();
    full.load_chunk(None, 0, bytes(8, 8), None).unwrap();
    let op = Op { flags: 0x5410, src: Src::data_ref(0, 4), ..copy(0, 0, 4, None) };
    assert_eq!(full.translate_op(op), Err(Fault::OutOfMemory));
    assert_eq!(full.cell_count(), 0);
}

#[test]
fn operations_are_loaded_into_the_slots_of_their_positions() {
    let mut executive = Executive::new(ARENA, 0x1000, 3, 4, 0).unwrap();
    executive.load_chunk(None, 0, bytes(8, 8), None).unwrap();
    executive.load_chunk(None, 0, bytes(8, 8), None).unwrap();
    let ops = [copy(0, 1, 8, None), copy(1, 0, 4, None)];
    assert_eq!(executive.load_ops(&ops), Ok(()));
    assert_eq!(executive.descriptor(0).unwrap().txfr_len, 8);
    assert_eq!(executive.descriptor(1).unwrap().txfr_len, 4);
    assert_eq!(executive.descriptor(2), Some(CB::zero()));
    // loading again starts at the first slot again
    assert_eq!(executive.load_ops(&[copy(0, 1, 2, None)]), Ok(()));
    assert_eq!(executive.descriptor(0).unwrap().txfr_len, 2);
    assert_eq!(executive.descriptor(1).unwrap().txfr_len, 4);
    assert_eq!(executive.load_ops(&[]), Ok(()));
}

#[test]
fn more_operations_than_slots_are_refused() {
    let mut executive = Executive::new(ARENA, 0x1000, 2, 4, 0).unwrap();
    executive.load_chunk(None, 0, bytes(8, 8), None).unwrap();
    let ops = [copy(0, 0, 1, None), copy(0, 0, 2, None), copy(0, 0, 3, None)];
    assert_eq!(executive.load_ops(&ops), Err(Fault::OpIndex));
    // those before the refused one stay loaded
    assert_eq!(executive.descriptor(0).unwrap().txfr_len, 1);
    assert_eq!(executive.descriptor(1).unwrap().txfr_len, 2);
    let mut none = Executive::new(ARENA, 0x1000, 0, 4, 0).unwrap();
    assert_eq!(none.load_ops(&[copy(0, 0, 1, None)]), Err(Fault::OpIndex));
}

#[test]
fn loading_stops_at_the_first_refused_operation() {
    let mut executive = Executive::new(ARENA, 0x1000, 4, 4, 0).unwrap();
    executive.load_chunk(None, 0, bytes(8, 8), None).unwrap();
    let ops = [copy(0, 0, 1, None), copy(0, 3, 2, None), copy(0, 0, 3, None)];
    assert_eq!(executive.load_ops(&ops), Err(Fault::ChunkIndex));
    assert_eq!(executive.descriptor(0).unwrap().txfr_len, 1);
    assert_eq!(executive.descriptor(1), Some(CB::zero()));
    assert_eq!(executive.descriptor(2), Some(CB::zero()));
}

#[test]
fn a_chain_is_linked_in_order_and_ends_in_zero() {
    let mut executive = Executive::new(ARENA, 0x1000, 8, 8, 0).unwrap();
    executive.load_chunk(None, 0, bytes(8, 8), None).unwrap();
    let count = 5;
    let ops: Vec<Op> = (0..count)
        .map(|i| copy(0, 0, 8, if i + 1 < count { Some(i + 1) } else { None }))
        .collect();
    assert_eq!(executive.load_ops(&ops), Ok(()));
    for i in 0..count - 1 {
        assert_eq!(
            executive.descriptor(i).unwrap().nextconbk,
            (ARENA + 32 * (i as u32 + 1)) | 0x4000_0000
        );
    }
    assert_eq!(executive.descriptor(count - 1).unwrap().nextconbk, 0);
}

#[test]
fn routines_name_descriptors_in_the_table() {
    let mut executive = Executive::new(ARENA, 0x1000, 2, 4, 0).unwrap();
    assert_eq!(executive.map_routine("main", 1), Ok(()));
    assert_eq!(executive.map_routine("main", 2), Err(Fault::OpIndex));
    assert_eq!(executive.map_routine("other", usize::MAX), Err(Fault::OpIndex));
    let on = channel(5);
    let transfer = executive.execute("main", &on).unwrap();
    assert_eq!(transfer.phase(), Phase::Idle);
    assert!(matches!(executive.execute("other", &on), Err(Fault::UnknownRoutine)));
    assert!(matches!(executive.execute("", &on), Err(Fault::UnknownRoutine)));
}

#[test]
fn a_routine_out_of_reach_of_the_bus_cannot_be_run() {
    let mut executive = Executive::new(0x3000_0000, 0x1000, 2, 4, 0).unwrap();
    executive.map_routine("main", 0).unwrap();
    assert!(matches!(executive.execute("main", &channel(0)), Err(Fault::NoMapping)));
}

#[test]
fn a_run_names_its_actions_in_order() {
    let mut executive = Executive::new(ARENA, 0x1000, 2, 4, 0).unwrap();
    executive.load_chunk(None, 0, bytes(4, 4), None).unwrap();
    executive.load_ops(&[copy(0, 0, 4, None), copy(0, 0, 4, None)]).unwrap();
    executive.map_routine("second", 1).unwrap();
    let on = channel(5);
    let base = 0x2000_7500;
    let (timing, actions) = drive(&mut executive, "second", &on, 0);
    assert_eq!(
        actions,
        vec![
            Action::Barrier,
            Action::CleanInvalidateCache,
            Action::Write { address: base, value: 2 },
            Action::Write { address: base + 0x20, value: 7 },
            Action::Write { address: base + 4, value: 0x4200_0020 },
            Action::CleanInvalidateCache,
            Action::Barrier,
            Action::ReadCycleCounter,
            Action::Write { address: base, value: 0x1000_0001 },
            Action::Barrier,
            Action::Read { address: base },
            Action::ReadCycleCounter,
            Action::Write { address: base, value: 0x1000_0002 },
            Action::CleanInvalidateCache,
            Action::Barrier,
            Action::Done(Timing { cycle_begin: 1000, cycle_end: 1250 }),
        ]
    );
    assert_eq!(timing.cycles(), 250);
}

#[test]
fn a_busy_channel_is_polled_again() {
    let mut executive = Executive::new(ARENA, 0x1000, 1, 4, 0).unwrap();
    executive.load_chunk(None, 0, bytes(4, 4), None).unwrap();
    executive.load_ops(&[copy(0, 0, 4, None)]).unwrap();
    executive.map_routine("main", 0).unwrap();
    let on = channel(15);
    let base = 0x20e0_5000;
    let (_, actions) = drive(&mut executive, "main", &on, 3);
    assert_eq!(actions.len(), 16 + 2 * 3);
    for round in 0..4 {
        assert_eq!(actions[9 + 2 * round], Action::Barrier);
        assert_eq!(actions[10 + 2 * round], Action::Read { address: base });
    }
    assert_eq!(actions[17], Action::ReadCycleCounter);
    assert_eq!(actions[18], Action::Write { address: base, value: 0x1000_0002 });
}

#[test]
fn the_phases_of_a_run() {
    let mut executive = Executive::new(ARENA, 0x1000, 1, 4, 0).unwrap();
    executive.map_routine("main", 0).unwrap();
    let on = channel(1);
    let mut transfer = executive.execute("main", &on).unwrap();
    let mut phases = Vec::new();
    for _ in 0..18 {
        phases.push(transfer.phase());
        transfer.step(0);
    }
    let idle = phases.iter().filter(|phase| **phase == Phase::Idle).count();
    let armed = phases.iter().filter(|phase| **phase == Phase::Armed).count();
    let running = phases.iter().filter(|phase| **phase == Phase::Running).count();
    let complete = phases.iter().filter(|phase| **phase == Phase::Complete).count();
    assert_eq!((idle, armed, running, complete), (5, 4, 3, 6));
    assert_eq!(phases[0], Phase::Idle);
    assert_eq!(phases[5], Phase::Armed);
    assert_eq!(phases[9], Phase::Running);
    assert_eq!(phases[12], Phase::Complete);
    // once done, every further step hands out the same timing
    assert_eq!(transfer.step(9), transfer.step(10));
}

#[test]
fn elapsed_cycles_wrap() {
    assert_eq!(Timing { cycle_begin: 10, cycle_end: 35 }.cycles(), 25);
    assert_eq!(Timing { cycle_begin: 0xffff_fff0, cycle_end: 0x10 }.cycles(), 0x20);
    assert_eq!(Timing { cycle_begin: 5, cycle_end: 5 }.cycles(), 0);
    assert_eq!(Timing { cycle_begin: 1, cycle_end: 0 }.cycles(), 0xffff_ffff);
}

#[test]
fn a_copy_of_thirty_two_kibibytes_arrives() {
    let mut executive = Executive::new(ARENA, 0x20000, 16, 16, 4).unwrap();
    let dst = executive.load_chunk(Some("dst"), 0, bytes(0x8000, 1), None).unwrap();
    let src = executive.load_chunk(Some("src"), 0, bytes(0x8000, 1), None).unwrap();
    for i in 0..0x8000u32 {
        assert!(executive.poke(dst + i, 0));
        assert!(executive.poke(src + i, (i % 256) as u8));
    }
    executive.load_ops(&[copy(0, 1, 0x8000, None)]).unwrap();
    executive.map_routine("main", 0).unwrap();
    let on = channel(5);
    let (timing, _) = drive(&mut executive, "main", &on, 2);
    assert_eq!(timing.cycles(), 250);
    for i in 0..0x8000u32 {
        assert_eq!(executive.peek(dst + i), executive.peek(src + i), "mismatch at {}", i);
        assert_eq!(executive.peek(dst + i), Some((i % 256) as u8));
    }
    // the routine can be run again
    assert!(executive.poke(src + 9, 0xee));
    drive(&mut executive, "main", &on, 0);
    assert_eq!(executive.peek(dst + 9), Some(0xee));
}

#[test]
fn a_chain_runs_as_one_transfer() {
    let count = 4usize;
    let mut executive = Executive::new(ARENA, 0x1000, 4, 8, 0).unwrap();
    let mut chunks = Vec::new();
    for i in 0..2 * count {
        let fill = [i as u8 + 1; 16];
        let backing: Option<&[u8]> = if i % 2 == 1 { Some(&fill) } else { None };
        chunks.push(executive.load_chunk(None, 0, bytes(16, 16), backing).unwrap());
    }
    let ops: Vec<Op> = (0..count)
        .map(|i| copy(2 * i, 2 * i + 1, 16, if i + 1 < count { Some(i + 1) } else { None }))
        .collect();
    executive.load_ops(&ops).unwrap();
    executive.map_routine("main", 0).unwrap();
    let on = channel(4);
    let (_, actions) = drive(&mut executive, "main", &on, 1);
    let starts = actions
        .iter()
        .filter(|action| matches!(action, Action::Write { value: 0x1000_0001, .. }))
        .count();
    assert_eq!(starts, 1);
    for i in 0..count {
        for k in 0..16 {
            assert_eq!(executive.peek(chunks[2 * i] + k), Some(2 * i as u8 + 2));
        }
    }
}

#[test]
fn an_arena_at_address_zero_is_refused() {
    assert!(matches!(Executive::new(0, 0x1000, 0, 1, 0), Err(Fault::OutOfMemory)));
    assert!(matches!(Executive::new(0, 0x1000, 1, 0, 4), Err(Fault::OutOfMemory)));
    assert!(matches!(Executive::new(0, 0, 0, 0, 0), Err(Fault::OutOfMemory)));
    assert!(Executive::new(1, 0x1000, 0, 1, 0).is_ok());
}

#[test]
fn no_address_handed_out_is_zero() {
    // the lowest arena there is, with nothing before the first chunk
    let mut executive = Executive::new(1, 0x1000, 0, 2, 0).unwrap();
    assert_eq!(executive.op_arena(), 32);
    assert_eq!(executive.void(), 32);
    assert_eq!(executive.load_chunk(None, 0, bytes(4, 1), None), Ok(32));
    let mut low = Executive::new(1, 0x100, 1, 2, 4).unwrap();
    assert_ne!(low.op_arena(), 0);
    assert_ne!(low.void(), 0);
    let chunk = low.load_chunk(None, 0, bytes(8, 8), Some(&[1, 2, 3, 4, 5, 6, 7, 8])).unwrap();
    assert_ne!(chunk, 0);
    assert_ne!(low.resolve_data_ref(DataRef { chunk: 0, offset: 0 }), Ok(0));
    assert_ne!(low.resolve_op_ref(0), Ok(0));
    let cell = low.allocate_op_ref_indirection(0).unwrap();
    assert_ne!(cell, 0);
}

#[test]
fn chunks_lie_at_multiples_of_their_alignment() {
    let mut executive = Executive::new(ARENA + 3, 0x1000, 1, 8, 1).unwrap();
    for align in [1usize, 2, 4, 8, 16, 64, 256] {
        let address = executive.load_chunk(None, 0, bytes(3, align), None).unwrap();
        assert_ne!(address, 0);
        assert_eq!(address as usize % align, 0);
        for i in 0..3 {
            assert_eq!(executive.peek(address + i), Some(0));
        }
    }
}
