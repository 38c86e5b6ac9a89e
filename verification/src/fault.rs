//! The reasons for which the loader and the engine refuse an operation.
//!
//! On the target every one of them ends the program; here each is a value,
//! so that a caller can tell them apart before it gives up.

use vstd::prelude::*;

verus! {

/// Why an operation was refused.
#[derive(Clone, Copy, Debug, PartialEq, Eq, Structural)]
pub enum Fault {
    /// An operand tag that names no operand variant.
    UnknownTag,
    /// An operand variant that its position in the operation does not admit.
    IllegalVariant,
    /// A hole payload that is none of the four holes.
    BadHole,
    /// A field reference whose field identifier names no field.
    BadFieldId,
    /// Chunk flags other than zero.
    UnsupportedFlags,
    /// Backing bytes whose length differs from the size of the layout.
    BackingLength,
    /// A reference to a chunk that has not been loaded.
    ChunkIndex,
    /// An offset at or beyond the end of its chunk.
    ChunkOffset,
    /// A descriptor index at or beyond the size of the descriptor table.
    OpIndex,
    /// A void hole paired with a length that is not fixed.
    VoidLength,
    /// A void hole paired with a length that the scratch buffer cannot hold.
    VoidOverflow,
    /// A routine name that was never mapped.
    UnknownRoutine,
    /// A channel index beyond the last channel.
    NoSuchChannel,
    /// An address outside both windows that the bus master can reach.
    NoMapping,
    /// More chunks than the chunk table was made for.
    ChunkTableFull,
    /// The arena cannot hold what was asked of it.
    OutOfMemory,
}

/// The three families of faults.
#[derive(Clone, Copy, Debug, PartialEq, Eq, Structural)]
pub enum FaultClass {
    /// The caller handed in something that can never be loaded.
    Configuration,
    /// An address has no counterpart on the bus.
    Mapping,
    /// A table or the arena is exhausted.
    Capacity,
}

impl Fault {
    /// The family a fault belongs to.
    pub open spec fn class_of(self) -> FaultClass {
        match self {
            Fault::NoMapping => FaultClass::Mapping,
            Fault::ChunkTableFull | Fault::OutOfMemory => FaultClass::Capacity,
            _ => FaultClass::Configuration,
        }
    }

    /// The family a fault belongs to.
    pub fn class(&self) -> (class: FaultClass)
        ensures
            class == self.class_of(),
    {
        match self {
            Fault::NoMapping => FaultClass::Mapping,
            Fault::ChunkTableFull | Fault::OutOfMemory => FaultClass::Capacity,
            _ => FaultClass::Configuration,
        }
    }

    /// The diagnostic line for a fault.
    pub open spec fn message_of(self) -> Seq<char> {
        match self {
            Fault::UnknownTag => "unknown operand type"@,
            Fault::IllegalVariant => "unsupported operand type for this field"@,
            Fault::BadHole => "hole value out of range"@,
            Fault::BadFieldId => "field identifier out of range"@,
            Fault::UnsupportedFlags => "unsupported flags"@,
            Fault::BackingLength => "backing length differs from layout size"@,
            Fault::ChunkIndex => "data_ref.chunk should be in-range"@,
            Fault::ChunkOffset => "data_ref.offset should be in-range"@,
            Fault::OpIndex => "operation index should be in-range"@,
            Fault::VoidLength => "void requires fixed-length transfer"@,
            Fault::VoidOverflow => "void, but transfer length is greater than void_size"@,
            Fault::UnknownRoutine => "unknown routine"@,
            Fault::NoSuchChannel => "no channels >15"@,
            Fault::NoMapping => "No ARM to VC mapping"@,
            Fault::ChunkTableFull => "chunk table is full"@,
            Fault::OutOfMemory => "OOM"@,
        }
    }

    /// The diagnostic line for a fault.
    pub fn message(&self) -> (text: &'static str)
        ensures
            text@ == self.message_of(),
    {
        match self {
            Fault::UnknownTag => "unknown operand type",
            Fault::IllegalVariant => "unsupported operand type for this field",
            Fault::BadHole => "hole value out of range",
            Fault::BadFieldId => "field identifier out of range",
            Fault::UnsupportedFlags => "unsupported flags",
            Fault::BackingLength => "backing length differs from layout size",
            Fault::ChunkIndex => "data_ref.chunk should be in-range",
            Fault::ChunkOffset => "data_ref.offset should be in-range",
            Fault::OpIndex => "operation index should be in-range",
            Fault::VoidLength => "void requires fixed-length transfer",
            Fault::VoidOverflow => "void, but transfer length is greater than void_size",
            Fault::UnknownRoutine => "unknown routine",
            Fault::NoSuchChannel => "no channels >15",
            Fault::NoMapping => "No ARM to VC mapping",
            Fault::ChunkTableFull => "chunk table is full",
            Fault::OutOfMemory => "OOM",
        }
    }
}

} // verus!
