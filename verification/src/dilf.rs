//! The operand model: how a transfer operation is written down before it is
//! loaded, and the container records that describe a stored program.
//!
//! An operation has four operand fields in fixed positions. What a field
//! holds is chosen by a four-bit tag in the operation's flags; the payload
//! itself is one or two raw words whose meaning depends on that tag.

use vstd::prelude::*;
use crate::fault::Fault;

verus! {

/// Header of a stored program.
#[derive(Debug, Copy, Clone)]
pub struct Dilf32Header {
    pub magic: [u8; 8],
    pub arch: u16,
    pub version: u16,
    pub flags: u32,
    pub code: SegmentSpec,
    pub data: SegmentSpec,
    pub routine_map: SegmentSpec,
}

/// Where a segment lies in a stored program.
#[derive(Debug, Copy, Clone)]
pub struct SegmentSpec {
    pub offset: u32,
    pub len: u32,
}

/// A chunk as a stored program describes it, before it is loaded.
#[derive(Debug, Copy, Clone)]
pub struct ChunkSpec {
    pub symbol_ref_offset: u32,
    pub flags: u32,
    pub chunk_offset: u32,
    pub file_size: u32,
    pub mem_size: u32,
    pub mem_align: u32,
}

/// Bit position of the destination tag in an operation's flags.
pub const OP_FLAGS_DST_OFFSET: u32 = 0x0;

/// Bit position of the source tag in an operation's flags.
pub const OP_FLAGS_SRC_OFFSET: u32 = 0x4;

/// Bit position of the length tag in an operation's flags.
pub const OP_FLAGS_LEN_OFFSET: u32 = 0x8;

/// Bit position of the next tag in an operation's flags.
pub const OP_FLAGS_NXT_OFFSET: u32 = 0xc;

/// Tag of a direct reference into a chunk.
pub const TAG_DATA_REF: u32 = 0;

/// Tag of a reference into a chunk that the hardware reads from memory.
pub const TAG_DATA_REF_INDIRECT: u32 = 1;

/// Tag of a reference to a field of a compiled descriptor.
pub const TAG_OP_FIELD_REF: u32 = 2;

/// Tag of a field reference that the hardware reads from memory.
pub const TAG_OP_FIELD_REF_INDIRECT: u32 = 3;

/// Tag of a literal address or length.
pub const TAG_FIXED: u32 = 4;

/// Tag of a hole.
pub const TAG_HOLE: u32 = 5;

/// Tag of a reference to a compiled descriptor.
pub const TAG_OP_REF: u32 = 6;

/// One of the four operand positions of an operation.
#[derive(Debug, Copy, Clone, PartialEq, Eq, Structural)]
pub enum OpFieldId {
    Dst,
    Src,
    Len,
    Nxt,
}

/// An operand that stands for no address of its own.
#[derive(Debug, Copy, Clone, PartialEq, Eq, Structural)]
pub enum Hole {
    /// Ends a chain.
    End,
    /// The scratch buffer, as a sink or a source.
    Void,
    /// A placeholder whose raw value reaches the hardware.
    Param,
    /// A placeholder whose raw value reaches the hardware.
    Nil,
}

/// A place inside a chunk.
#[derive(Debug, Copy, Clone, PartialEq, Eq, Structural)]
pub struct DataRef {
    pub chunk: u32,
    pub offset: u32,
}

/// One field of the descriptor compiled for an operation.
#[derive(Debug, Copy, Clone, PartialEq, Eq, Structural)]
pub struct OpFieldRef {
    pub op: u32,
    pub field_id: OpFieldId,
}

/// An operand field, read according to its tag.
#[derive(Debug, Copy, Clone, PartialEq, Eq, Structural)]
pub enum OpField {
    DataRef(DataRef),
    DataRefIndirect(DataRef),
    OpFieldRef(OpFieldRef),
    OpFieldRefIndirect(OpFieldRef),
    Fixed(u32),
    Hole(Hole),
    OpRef(u32),
    OpRefIndirect(u32),
}

/// Raw payload of a destination field.
#[derive(Debug, Copy, Clone, PartialEq, Eq, Structural)]
pub struct Dst {
    pub first: u32,
    pub second: u32,
}

/// Raw payload of a source field.
#[derive(Debug, Copy, Clone, PartialEq, Eq, Structural)]
pub struct Src {
    pub first: u32,
    pub second: u32,
}

/// Raw payload of a length field.
#[derive(Debug, Copy, Clone, PartialEq, Eq, Structural)]
pub struct Len {
    pub raw: u32,
}

/// Raw payload of a next field.
#[derive(Debug, Copy, Clone, PartialEq, Eq, Structural)]
pub struct Nxt {
    pub raw: u32,
}

/// A transfer operation: four tagged operand fields.
#[derive(Debug, Copy, Clone, PartialEq, Eq, Structural)]
pub struct Op {
    pub flags: u32,
    pub dst: Dst,
    pub src: Src,
    pub len: Len,
    pub nxt: Nxt,
}

impl OpFieldId {
    /// The number that stands for a position in a field reference.
    pub open spec fn code_of(self) -> u32 {
        match self {
            OpFieldId::Dst => 0,
            OpFieldId::Src => 1,
            OpFieldId::Len => 2,
            OpFieldId::Nxt => 3,
        }
    }

    /// The position that a number stands for, if any.
    pub open spec fn of_code(code: u32) -> Option<OpFieldId> {
        if code == 0 {
            Some(OpFieldId::Dst)
        } else if code == 1 {
            Some(OpFieldId::Src)
        } else if code == 2 {
            Some(OpFieldId::Len)
        } else if code == 3 {
            Some(OpFieldId::Nxt)
        } else {
            None
        }
    }

    /// The number that stands for a position in a field reference.
    pub fn code(&self) -> (code: u32)
        ensures
            code == self.code_of(),
            OpFieldId::of_code(code) == Some(*self),
    {
        match self {
            OpFieldId::Dst => 0,
            OpFieldId::Src => 1,
            OpFieldId::Len => 2,
            OpFieldId::Nxt => 3,
        }
    }

    /// The position that a number stands for, if any.
    pub fn from_code(code: u32) -> (id: Option<OpFieldId>)
        ensures
            id == OpFieldId::of_code(code),
    {
        if code == 0 {
            Some(OpFieldId::Dst)
        } else if code == 1 {
            Some(OpFieldId::Src)
        } else if code == 2 {
            Some(OpFieldId::Len)
        } else if code == 3 {
            Some(OpFieldId::Nxt)
        } else {
            None
        }
    }
}

impl Hole {
    /// The raw word of a hole.
    pub open spec fn raw_of(self) -> u32 {
        match self {
            Hole::End => 0,
            Hole::Void => 1,
            Hole::Param => 2,
            Hole::Nil => 3,
        }
    }

    /// The hole that a raw word stands for, if any.
    pub open spec fn of_raw(raw: u32) -> Option<Hole> {
        if raw == 0 {
            Some(Hole::End)
        } else if raw == 1 {
            Some(Hole::Void)
        } else if raw == 2 {
            Some(Hole::Param)
        } else if raw == 3 {
            Some(Hole::Nil)
        } else {
            None
        }
    }

    /// The raw word of a hole.
    pub fn raw(&self) -> (raw: u32)
        ensures
            raw == self.raw_of(),
            Hole::of_raw(raw) == Some(*self),
    {
        match self {
            Hole::End => 0,
            Hole::Void => 1,
            Hole::Param => 2,
            Hole::Nil => 3,
        }
    }

    /// The hole that a raw word stands for, if any.
    pub fn from_raw(raw: u32) -> (hole: Option<Hole>)
        ensures
            hole == Hole::of_raw(raw),
    {
        if raw == 0 {
            Some(Hole::End)
        } else if raw == 1 {
            Some(Hole::Void)
        } else if raw == 2 {
            Some(Hole::Param)
        } else if raw == 3 {
            Some(Hole::Nil)
        } else {
            None
        }
    }
}

impl OpField {
    /// The variants that each position admits.
    pub open spec fn admitted(self, position: OpFieldId) -> bool {
        match position {
            OpFieldId::Dst => self is DataRef || self is OpFieldRef || self is Fixed
                || self is Hole,
            OpFieldId::Src => self is DataRef || self is DataRefIndirect || self is OpFieldRef
                || self is OpFieldRefIndirect || self is Fixed || self is Hole
                || self is OpRefIndirect,
            OpFieldId::Len => self is Fixed || self is Hole,
            OpFieldId::Nxt => self is Fixed || self is Hole || self is OpRef,
        }
    }
}

/// The tag of the field at bit position `offset` of `flags`.
pub open spec fn tag_of(flags: u32, offset: u32) -> u32 {
    (flags >> offset) & 0xf
}

/// The tags that each position admits.
pub open spec fn tag_admitted(position: OpFieldId, tag: u32) -> bool {
    match position {
        OpFieldId::Dst => tag == TAG_DATA_REF || tag == TAG_OP_FIELD_REF || tag == TAG_FIXED
            || tag == TAG_HOLE,
        OpFieldId::Src => tag <= TAG_OP_REF,
        OpFieldId::Len => tag == TAG_FIXED || tag == TAG_HOLE,
        OpFieldId::Nxt => tag == TAG_FIXED || tag == TAG_HOLE || tag == TAG_OP_REF,
    }
}

/// What the payload `first`, `second` holds when it stands at `position`
/// under `tag`.
///
/// A tag beyond the last one is unknown; a known tag that the position does
/// not admit is refused before the payload is looked at. A field reference
/// keeps its field identifier in the lowest byte of the second word. The
/// descriptor tag names a direct reference in the next field and an indirect
/// one in the source field.
pub open spec fn decode(position: OpFieldId, tag: u32, first: u32, second: u32) -> Result<
    OpField,
    Fault,
> {
    if tag > TAG_OP_REF {
        Err(Fault::UnknownTag)
    } else if !tag_admitted(position, tag) {
        Err(Fault::IllegalVariant)
    } else if tag == TAG_DATA_REF {
        Ok(OpField::DataRef(DataRef { chunk: first, offset: second }))
    } else if tag == TAG_DATA_REF_INDIRECT {
        Ok(OpField::DataRefIndirect(DataRef { chunk: first, offset: second }))
    } else if tag == TAG_OP_FIELD_REF {
        match OpFieldId::of_code(second & 0xff) {
            Some(field_id) => Ok(OpField::OpFieldRef(OpFieldRef { op: first, field_id })),
            None => Err(Fault::BadFieldId),
        }
    } else if tag == TAG_OP_FIELD_REF_INDIRECT {
        match OpFieldId::of_code(second & 0xff) {
            Some(field_id) => Ok(OpField::OpFieldRefIndirect(OpFieldRef { op: first, field_id })),
            None => Err(Fault::BadFieldId),
        }
    } else if tag == TAG_FIXED {
        Ok(OpField::Fixed(first))
    } else if tag == TAG_HOLE {
        match Hole::of_raw(first) {
            Some(hole) => Ok(OpField::Hole(hole)),
            None => Err(Fault::BadHole),
        }
    } else if position == OpFieldId::Nxt {
        Ok(OpField::OpRef(first))
    } else {
        Ok(OpField::OpRefIndirect(first))
    }
}

/// Whatever `decode` accepts is a variant that the position admits.
pub proof fn lemma_decode_admitted(position: OpFieldId, tag: u32, first: u32, second: u32)
    ensures
        decode(position, tag, first, second) matches Ok(field) ==> field.admitted(position),
{
}

/// Reads the field reference kept in a two-word payload.
fn field_ref(first: u32, second: u32) -> (found: Option<OpFieldRef>)
    ensures
        found == match OpFieldId::of_code(second & 0xff) {
            Some(field_id) => Some(OpFieldRef { op: first, field_id }),
            None => None,
        },
{
    match OpFieldId::from_code(second & 0xff) {
        Some(field_id) => Some(OpFieldRef { op: first, field_id }),
        None => None,
    }
}

/// Reads the hole kept in a payload word.
fn hole_field(first: u32) -> (field: Result<OpField, Fault>)
    ensures
        field == match Hole::of_raw(first) {
            Some(hole) => Ok::<OpField, Fault>(OpField::Hole(hole)),
            None => Err(Fault::BadHole),
        },
{
    match Hole::from_raw(first) {
        Some(hole) => Ok(OpField::Hole(hole)),
        None => Err(Fault::BadHole),
    }
}

impl Op {
    /// The destination field as its tag reads it.
    pub open spec fn dst_field(self) -> Result<OpField, Fault> {
        decode(
            OpFieldId::Dst,
            tag_of(self.flags, OP_FLAGS_DST_OFFSET),
            self.dst.first,
            self.dst.second,
        )
    }

    /// The source field as its tag reads it.
    pub open spec fn src_field(self) -> Result<OpField, Fault> {
        decode(
            OpFieldId::Src,
            tag_of(self.flags, OP_FLAGS_SRC_OFFSET),
            self.src.first,
            self.src.second,
        )
    }

    /// The length field as its tag reads it.
    pub open spec fn len_field(self) -> Result<OpField, Fault> {
        decode(OpFieldId::Len, tag_of(self.flags, OP_FLAGS_LEN_OFFSET), self.len.raw, 0)
    }

    /// The next field as its tag reads it.
    pub open spec fn nxt_field(self) -> Result<OpField, Fault> {
        decode(OpFieldId::Nxt, tag_of(self.flags, OP_FLAGS_NXT_OFFSET), self.nxt.raw, 0)
    }

    /// Reads the destination field: a chunk reference, a field reference, a
    /// literal address or a hole.
    pub fn dst(&self) -> (field: Result<OpField, Fault>)
        ensures
            field == self.dst_field(),
    {
        let tag: u32 = (self.flags >> OP_FLAGS_DST_OFFSET) & 0xf;
        if tag == TAG_DATA_REF {
            Ok(OpField::DataRef(DataRef { chunk: self.dst.first, offset: self.dst.second }))
        } else if tag == TAG_OP_FIELD_REF {
            match field_ref(self.dst.first, self.dst.second) {
                Some(op_field_ref) => Ok(OpField::OpFieldRef(op_field_ref)),
                None => Err(Fault::BadFieldId),
            }
        } else if tag == TAG_FIXED {
            Ok(OpField::Fixed(self.dst.first))
        } else if tag == TAG_HOLE {
            hole_field(self.dst.first)
        } else if tag <= TAG_OP_REF {
            Err(Fault::IllegalVariant)
        } else {
            Err(Fault::UnknownTag)
        }
    }

    /// Reads the source field: any reference, direct or indirect, a literal
    /// address or a hole.
    pub fn src(&self) -> (field: Result<OpField, Fault>)
        ensures
            field == self.src_field(),
    {
        let tag: u32 = (self.flags >> OP_FLAGS_SRC_OFFSET) & 0xf;
        let data_ref = DataRef { chunk: self.src.first, offset: self.src.second };
        if tag == TAG_DATA_REF {
            Ok(OpField::DataRef(data_ref))
        } else if tag == TAG_DATA_REF_INDIRECT {
            Ok(OpField::DataRefIndirect(data_ref))
        } else if tag == TAG_OP_FIELD_REF {
            match field_ref(self.src.first, self.src.second) {
                Some(op_field_ref) => Ok(OpField::OpFieldRef(op_field_ref)),
                None => Err(Fault::BadFieldId),
            }
        } else if tag == TAG_OP_FIELD_REF_INDIRECT {
            match field_ref(self.src.first, self.src.second) {
                Some(op_field_ref) => Ok(OpField::OpFieldRefIndirect(op_field_ref)),
                None => Err(Fault::BadFieldId),
            }
        } else if tag == TAG_FIXED {
            Ok(OpField::Fixed(self.src.first))
        } else if tag == TAG_HOLE {
            hole_field(self.src.first)
        } else if tag == TAG_OP_REF {
            Ok(OpField::OpRefIndirect(self.src.first))
        } else {
            Err(Fault::UnknownTag)
        }
    }

    /// Reads the length field: a literal length or a hole.
    pub fn len(&self) -> (field: Result<OpField, Fault>)
        ensures
            field == self.len_field(),
    {
        let tag: u32 = (self.flags >> OP_FLAGS_LEN_OFFSET) & 0xf;
        if tag == TAG_FIXED {
            Ok(OpField::Fixed(self.len.raw))
        } else if tag == TAG_HOLE {
            hole_field(self.len.raw)
        } else if tag <= TAG_OP_REF {
            Err(Fault::IllegalVariant)
        } else {
            Err(Fault::UnknownTag)
        }
    }

    /// Reads the next field: a literal address, a hole or a descriptor.
    pub fn nxt(&self) -> (field: Result<OpField, Fault>)
        ensures
            field == self.nxt_field(),
    {
        let tag: u32 = (self.flags >> OP_FLAGS_NXT_OFFSET) & 0xf;
        if tag == TAG_FIXED {
            Ok(OpField::Fixed(self.nxt.raw))
        } else if tag == TAG_HOLE {
            hole_field(self.nxt.raw)
        } else if tag == TAG_OP_REF {
            Ok(OpField::OpRef(self.nxt.raw))
        } else if tag <= TAG_OP_REF {
            Err(Fault::IllegalVariant)
        } else {
            Err(Fault::UnknownTag)
        }
    }
}

impl Dst {
    /// A place in a chunk. Both numbers are cut to 32 bits.
    pub fn data_ref(chunk: usize, offset: usize) -> (dst: Dst)
        ensures
            dst == (Dst { first: chunk as u32, second: offset as u32 }),
    {
        Dst { first: chunk as u32, second: offset as u32 }
    }

    /// A field of the descriptor compiled for operation `op`, cut to 32 bits.
    pub fn op_field_ref(op: usize, field_id: OpFieldId) -> (dst: Dst)
        ensures
            dst == (Dst { first: op as u32, second: field_id.code_of() }),
    {
        Dst { first: op as u32, second: field_id.code() }
    }

    /// A literal address.
    pub fn fixed(address: u32) -> (dst: Dst)
        ensures
            dst == (Dst { first: address, second: 0 }),
    {
        Dst { first: address, second: 0 }
    }

    /// A hole.
    pub fn hole(hole: Hole) -> (dst: Dst)
        ensures
            dst == (Dst { first: hole.raw_of(), second: 0 }),
    {
        Dst { first: hole.raw(), second: 0 }
    }
}

impl Src {
    /// A place in a chunk. Both numbers are cut to 32 bits.
    pub fn data_ref(chunk: usize, offset: usize) -> (src: Src)
        ensures
            src == (Src { first: chunk as u32, second: offset as u32 }),
    {
        Src { first: chunk as u32, second: offset as u32 }
    }

    /// A field of the descriptor compiled for operation `op`, cut to 32 bits.
    pub fn op_field_ref(op: usize, field_id: OpFieldId) -> (src: Src)
        ensures
            src == (Src { first: op as u32, second: field_id.code_of() }),
    {
        Src { first: op as u32, second: field_id.code() }
    }

    /// A literal address.
    pub fn fixed(address: u32) -> (src: Src)
        ensures
            src == (Src { first: address, second: 0 }),
    {
        Src { first: address, second: 0 }
    }

    /// A hole.
    pub fn hole(hole: Hole) -> (src: Src)
        ensures
            src == (Src { first: hole.raw_of(), second: 0 }),
    {
        Src { first: hole.raw(), second: 0 }
    }

    /// The descriptor compiled for operation `op`, cut to 32 bits.
    pub fn op_ref(op: usize) -> (src: Src)
        ensures
            src == (Src { first: op as u32, second: 0 }),
    {
        Src { first: op as u32, second: 0 }
    }
}

impl Len {
    /// A literal length.
    pub fn fixed(size: usize) -> (len: Len)
        requires
            size <= u32::MAX,
        ensures
            len.raw == size,
    {
        Len { raw: size as u32 }
    }

    /// A hole.
    pub fn hole(hole: Hole) -> (len: Len)
        ensures
            len.raw == hole.raw_of(),
    {
        Len { raw: hole.raw() }
    }
}

impl Nxt {
    /// The end of a chain.
    pub fn end() -> (nxt: Nxt)
        ensures
            nxt.raw == Hole::End.raw_of(),
    {
        Nxt { raw: Hole::End.raw() }
    }

    /// The descriptor compiled for operation `i`, cut to 32 bits.
    pub fn op_ref(i: usize) -> (nxt: Nxt)
        ensures
            nxt.raw == i as u32,
    {
        Nxt { raw: i as u32 }
    }

    /// A literal address.
    pub fn fixed(address: u32) -> (nxt: Nxt)
        ensures
            nxt.raw == address,
    {
        Nxt { raw: address }
    }
}

/// Whether `align` can be the alignment of a layout: a power of two.
pub open spec fn is_alignment(align: usize) -> bool {
    align > 0 && align & ((align - 1) as usize) == 0
}

/// Size and alignment of a block of memory.
#[derive(Debug, Copy, Clone)]
pub struct Layout {
    size: usize,
    align: usize,
}

impl Layout {
    #[verifier::type_invariant]
    spec fn aligned(self) -> bool {
        is_alignment(self.align)
    }

    /// The size in bytes.
    pub closed spec fn size_of(self) -> usize {
        self.size
    }

    /// The alignment in bytes.
    pub closed spec fn align_of(self) -> usize {
        self.align
    }

    /// The layout with this size and alignment, if `align` is a power of two.
    pub fn from_size_align(size: usize, align: usize) -> (layout: Option<Layout>)
        ensures
            layout is Some <==> is_alignment(align),
            layout matches Some(made) ==> made.size_of() == size && made.align_of() == align,
    {
        if align > 0 && align & (align - 1) == 0 {
            Some(Layout { size, align })
        } else {
            None
        }
    }

    /// The size in bytes.
    pub fn size(&self) -> (size: usize)
        ensures
            size == self.size_of(),
    {
        self.size
    }

    /// The alignment in bytes, a power of two.
    pub fn align(&self) -> (align: usize)
        ensures
            align == self.align_of(),
            is_alignment(align),
    {
        proof {
            use_type_invariant(self);
        }
        self.align
    }
}

/// What takes chunks, operations and routines in.
///
/// Chunks must be loaded before the operations that refer to them, because
/// an operation is resolved when it is loaded.
pub trait Loader {
    /// Whether the loader can be used.
    spec fn ready(&self) -> bool;

    /// The number of descriptors that the loader holds room for.
    spec fn op_capacity(&self) -> nat;

    /// Allocates a zeroed chunk of the given layout, fills it with `backing`
    /// if there is any, registers it under `symbol_ref` if there is one, and
    /// returns its address, which is never zero and is a multiple of the
    /// layout's alignment.
    fn load_chunk(
        &mut self,
        symbol_ref: Option<&str>,
        flags: u32,
        layout: Layout,
        backing: Option<&[u8]>,
    ) -> (loaded: Result<u32, Fault>)
        requires
            old(self).ready(),
        ensures
            final(self).ready(),
            final(self).op_capacity() == old(self).op_capacity(),
            flags != 0 ==> loaded == Err::<u32, Fault>(Fault::UnsupportedFlags),
            flags == 0 && backing is Some && backing.unwrap()@.len() != layout.size_of()
                ==> loaded == Err::<u32, Fault>(Fault::BackingLength),
            loaded matches Ok(address) ==> address != 0 && address as int % layout.align_of() as int
                == 0,
    ;

    /// Compiles each operation into the descriptor slot of its position in
    /// `ops`.
    fn load_ops(&mut self, ops: &[Op]) -> (loaded: Result<(), Fault>)
        requires
            old(self).ready(),
        ensures
            final(self).ready(),
            final(self).op_capacity() == old(self).op_capacity(),
            ops@.len() > old(self).op_capacity() ==> loaded is Err,
    ;

    /// Names descriptor `op_idx` as an entry point.
    fn map_routine(&mut self, name: &str, op_idx: usize) -> (mapped: Result<(), Fault>)
        requires
            old(self).ready(),
        ensures
            final(self).ready(),
            final(self).op_capacity() == old(self).op_capacity(),
            mapped is Ok <==> op_idx < old(self).op_capacity(),
            mapped is Err ==> mapped == Err::<(), Fault>(Fault::OpIndex),
    ;
}


} // verus!
