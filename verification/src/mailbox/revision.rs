//! The revision code of the board, taken apart.
//!
//! Only revision codes of the new style are understood: bit 23 says that
//! the other bits hold the model, the processor, the minor revision, the
//! size of the memory and the manufacturer.

use vstd::prelude::*;
use vstd::string::StringExecFns;
use crate::mailbox::answered;
use crate::mailbox::REQUEST_SUCCESSFUL;
use crate::mailbox::VALUE_AT;
use crate::text::decimal;
use crate::text::write_decimal;

verus! {

/// The bit that marks a revision code of the new style.
pub const NEW_STYLE: u32 = 0x0080_0000;

/// The tag that asks for the revision code; the answer is one word.
pub const GET_BOARD_REVISION: u32 = 0x0001_0002;

/// The model of the board.
#[derive(Debug, Copy, Clone, PartialEq, Eq, Structural)]
pub enum BoardModel {
    A,
    B,
    APlus,
    BPlus,
    _2B,
    Alpha,
    CM1,
    _3B,
    Zero,
    CM3,
    ZeroW,
    _3BPlus,
    _3APlus,
}

/// The processor on the board.
#[derive(Debug, Copy, Clone, PartialEq, Eq, Structural)]
pub enum BoardProcessor {
    Bcm2835,
    Bcm2836,
    Bcm2837,
}

/// Who made the board.
#[derive(Debug, Copy, Clone, PartialEq, Eq, Structural)]
pub enum BoardManufacturer {
    SonyUk,
    Egoman,
    Embest,
    SonyJapan,
    Stadium,
}

/// What a revision code says about the board.
#[derive(Debug, Copy, Clone, PartialEq, Eq, Structural)]
pub struct BoardRevision {
    pub model: BoardModel,
    pub processor: BoardProcessor,
    pub revision_minor: u8,
    pub ram_mb: u16,
    pub manufacturer: BoardManufacturer,
}

impl BoardModel {
    /// The model that a code stands for, if any.
    pub open spec fn of_code(value: u32) -> Option<BoardModel> {
        if value == 0 {
            Some(BoardModel::A)
        } else if value == 1 {
            Some(BoardModel::B)
        } else if value == 2 {
            Some(BoardModel::APlus)
        } else if value == 3 {
            Some(BoardModel::BPlus)
        } else if value == 4 {
            Some(BoardModel::_2B)
        } else if value == 5 {
            Some(BoardModel::Alpha)
        } else if value == 6 {
            Some(BoardModel::CM1)
        } else if value == 8 {
            Some(BoardModel::_3B)
        } else if value == 9 {
            Some(BoardModel::Zero)
        } else if value == 10 {
            Some(BoardModel::CM3)
        } else if value == 12 {
            Some(BoardModel::ZeroW)
        } else if value == 13 {
            Some(BoardModel::_3BPlus)
        } else if value == 14 {
            Some(BoardModel::_3APlus)
        } else {
            None
        }
    }

    /// The name of a model.
    pub open spec fn name_of(self) -> Seq<char> {
        match self {
            BoardModel::A => "Model A"@,
            BoardModel::B => "Model B"@,
            BoardModel::APlus => "Model A+"@,
            BoardModel::BPlus => "Model B+"@,
            BoardModel::_2B => "Model 2B"@,
            BoardModel::Alpha => "Model Alpha"@,
            BoardModel::CM1 => "Model CM1"@,
            BoardModel::_3B => "Model 3B"@,
            BoardModel::Zero => "Model Zero"@,
            BoardModel::CM3 => "Model CM3"@,
            BoardModel::ZeroW => "Model Zero W"@,
            BoardModel::_3BPlus => "Model 3B+"@,
            BoardModel::_3APlus => "Model 3A+"@,
        }
    }

    /// The model that a code stands for, if any.
    pub fn from_code(value: u32) -> (model: Option<BoardModel>)
        ensures
            model == BoardModel::of_code(value),
    {
        if value == 0 {
            Some(BoardModel::A)
        } else if value == 1 {
            Some(BoardModel::B)
        } else if value == 2 {
            Some(BoardModel::APlus)
        } else if value == 3 {
            Some(BoardModel::BPlus)
        } else if value == 4 {
            Some(BoardModel::_2B)
        } else if value == 5 {
            Some(BoardModel::Alpha)
        } else if value == 6 {
            Some(BoardModel::CM1)
        } else if value == 8 {
            Some(BoardModel::_3B)
        } else if value == 9 {
            Some(BoardModel::Zero)
        } else if value == 10 {
            Some(BoardModel::CM3)
        } else if value == 12 {
            Some(BoardModel::ZeroW)
        } else if value == 13 {
            Some(BoardModel::_3BPlus)
        } else if value == 14 {
            Some(BoardModel::_3APlus)
        } else {
            None
        }
    }

    /// The name of the model.
    pub fn name(&self) -> (text: &'static str)
        ensures
            text@ == self.name_of(),
    {
        match self {
            BoardModel::A => "Model A",
            BoardModel::B => "Model B",
            BoardModel::APlus => "Model A+",
            BoardModel::BPlus => "Model B+",
            BoardModel::_2B => "Model 2B",
            BoardModel::Alpha => "Model Alpha",
            BoardModel::CM1 => "Model CM1",
            BoardModel::_3B => "Model 3B",
            BoardModel::Zero => "Model Zero",
            BoardModel::CM3 => "Model CM3",
            BoardModel::ZeroW => "Model Zero W",
            BoardModel::_3BPlus => "Model 3B+",
            BoardModel::_3APlus => "Model 3A+",
        }
    }
}

impl BoardProcessor {
    /// The processor that a code stands for, if any.
    pub open spec fn of_code(value: u32) -> Option<BoardProcessor> {
        if value == 0 {
            Some(BoardProcessor::Bcm2835)
        } else if value == 1 {
            Some(BoardProcessor::Bcm2836)
        } else if value == 2 {
            Some(BoardProcessor::Bcm2837)
        } else {
            None
        }
    }

    /// The name of a processor.
    pub open spec fn name_of(self) -> Seq<char> {
        match self {
            BoardProcessor::Bcm2835 => "BCM2835"@,
            BoardProcessor::Bcm2836 => "BCM2836"@,
            BoardProcessor::Bcm2837 => "BCM2837"@,
        }
    }

    /// The processor that a code stands for, if any.
    pub fn from_code(value: u32) -> (processor: Option<BoardProcessor>)
        ensures
            processor == BoardProcessor::of_code(value),
    {
        if value == 0 {
            Some(BoardProcessor::Bcm2835)
        } else if value == 1 {
            Some(BoardProcessor::Bcm2836)
        } else if value == 2 {
            Some(BoardProcessor::Bcm2837)
        } else {
            None
        }
    }

    /// The name of the processor.
    pub fn name(&self) -> (text: &'static str)
        ensures
            text@ == self.name_of(),
    {
        match self {
            BoardProcessor::Bcm2835 => "BCM2835",
            BoardProcessor::Bcm2836 => "BCM2836",
            BoardProcessor::Bcm2837 => "BCM2837",
        }
    }
}

impl BoardManufacturer {
    /// The manufacturer that a code stands for, if any. Two codes stand
    /// for Embest.
    pub open spec fn of_code(value: u32) -> Option<BoardManufacturer> {
        if value == 0 {
            Some(BoardManufacturer::SonyUk)
        } else if value == 1 {
            Some(BoardManufacturer::Egoman)
        } else if value == 2 {
            Some(BoardManufacturer::Embest)
        } else if value == 3 {
            Some(BoardManufacturer::SonyJapan)
        } else if value == 4 {
            Some(BoardManufacturer::Embest)
        } else if value == 5 {
            Some(BoardManufacturer::Stadium)
        } else {
            None
        }
    }

    /// The name of a manufacturer.
    pub open spec fn name_of(self) -> Seq<char> {
        match self {
            BoardManufacturer::SonyUk => "Sony UK"@,
            BoardManufacturer::Egoman => "Egoman"@,
            BoardManufacturer::Embest => "Embest"@,
            BoardManufacturer::SonyJapan => "Sony JAPAN"@,
            BoardManufacturer::Stadium => "Stadium"@,
        }
    }

    /// The manufacturer that a code stands for, if any.
    pub fn from_code(value: u32) -> (manufacturer: Option<BoardManufacturer>)
        ensures
            manufacturer == BoardManufacturer::of_code(value),
    {
        if value == 0 {
            Some(BoardManufacturer::SonyUk)
        } else if value == 1 {
            Some(BoardManufacturer::Egoman)
        } else if value == 2 {
            Some(BoardManufacturer::Embest)
        } else if value == 3 {
            Some(BoardManufacturer::SonyJapan)
        } else if value == 4 {
            Some(BoardManufacturer::Embest)
        } else if value == 5 {
            Some(BoardManufacturer::Stadium)
        } else {
            None
        }
    }

    /// The name of the manufacturer.
    pub fn name(&self) -> (text: &'static str)
        ensures
            text@ == self.name_of(),
    {
        match self {
            BoardManufacturer::SonyUk => "Sony UK",
            BoardManufacturer::Egoman => "Egoman",
            BoardManufacturer::Embest => "Embest",
            BoardManufacturer::SonyJapan => "Sony JAPAN",
            BoardManufacturer::Stadium => "Stadium",
        }
    }
}

/// The memory in mebibytes that the three size bits stand for: 256,
/// doubled as often as the bits say.
pub open spec fn ram_of(bits: u32) -> u16 {
    if bits == 0 {
        256
    } else if bits == 1 {
        512
    } else if bits == 2 {
        1024
    } else if bits == 3 {
        2048
    } else if bits == 4 {
        4096
    } else if bits == 5 {
        8192
    } else if bits == 6 {
        16384
    } else {
        32768
    }
}

impl BoardRevision {
    /// What a revision code says, if it is of the new style and names a
    /// known model, processor and manufacturer: the minor revision in bits
    /// 0 to 3, the model in bits 4 to 11, the processor in bits 12 to 15,
    /// the manufacturer in bits 16 to 19, the size of the memory in bits 20
    /// to 22.
    pub open spec fn of_code(revision: u32) -> Option<BoardRevision> {
        if revision & NEW_STYLE == 0 {
            None
        } else {
            match (
                BoardModel::of_code((revision >> 4) & 0xff),
                BoardProcessor::of_code((revision >> 12) & 0xf),
                BoardManufacturer::of_code((revision >> 16) & 0xf),
            ) {
                (Some(model), Some(processor), Some(manufacturer)) => Some(
                    BoardRevision {
                        model,
                        processor,
                        revision_minor: (revision & 0xf) as u8,
                        ram_mb: ram_of((revision >> 20) & 7),
                        manufacturer,
                    },
                ),
                _ => None,
            }
        }
    }

    /// The line that describes a board.
    pub open spec fn describe_of(self) -> Seq<char> {
        "model:"@ + self.model.name_of() + ",proc:"@ + self.processor.name_of() + ",rev:1."@
            + decimal(self.revision_minor as nat) + ",ram:"@ + decimal(self.ram_mb as nat)
            + "MiB,manufacturer:"@ + self.manufacturer.name_of()
    }

    /// Takes a revision code apart.
    pub fn from_code(revision: u32) -> (board: Option<BoardRevision>)
        ensures
            board == BoardRevision::of_code(revision),
    {
        if (revision & NEW_STYLE) == 0 {
            return None;
        }
        let model = match BoardModel::from_code((revision >> 4) & 0xff) {
            Some(model) => model,
            None => {
                return None;
            },
        };
        let processor = match BoardProcessor::from_code((revision >> 12) & 0xf) {
            Some(processor) => processor,
            None => {
                return None;
            },
        };
        let manufacturer = match BoardManufacturer::from_code((revision >> 16) & 0xf) {
            Some(manufacturer) => manufacturer,
            None => {
                return None;
            },
        };
        let rev_minor: u32 = revision & 0xf;
        let bits: u32 = (revision >> 20) & 7;
        assert(rev_minor <= 0xf && bits <= 7) by (bit_vector)
            requires
                rev_minor == revision & 0xf,
                bits == (revision >> 20) & 7,
        ;
        let ram_mb: u32 = 256u32 << bits;
        assert(ram_mb == ram_of(bits) as u32) by (bit_vector)
            requires
                bits <= 7,
                ram_mb == 256u32 << bits,
        ;
        Some(
            BoardRevision {
                model,
                processor,
                revision_minor: rev_minor as u8,
                ram_mb: ram_mb as u16,
                manufacturer,
            },
        )
    }

    /// The line that describes the board.
    pub fn describe(&self) -> (text: String)
        ensures
            text@ == self.describe_of(),
    {
        let mut out = String::new();
        out.append("model:");
        out.append(self.model.name());
        out.append(",proc:");
        out.append(self.processor.name());
        out.append(",rev:1.");
        write_decimal(&mut out, self.revision_minor as u32);
        out.append(",ram:");
        write_decimal(&mut out, self.ram_mb as u32);
        out.append("MiB,manufacturer:");
        out.append(self.manufacturer.name());
        proof {
            assert(out@ =~= self.describe_of());
        }
        out
    }
}

/// What the answer to `GET_BOARD_REVISION` says of the board: the
/// revision code in the first word of its value buffer, taken apart.
pub fn query(message: &[u32]) -> (board: Option<BoardRevision>)
    ensures
        board == (if answered(message@, 4) {
            BoardRevision::of_code(message@[VALUE_AT as int])
        } else {
            None
        }),
{
    if message.len() <= VALUE_AT || message[1] != REQUEST_SUCCESSFUL {
        return None;
    }
    BoardRevision::from_code(message[VALUE_AT])
}

} // verus!
