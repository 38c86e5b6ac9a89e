//! Property messages to the firmware, and what its answers tell about the
//! board.
//!
//! A message is a buffer of words: its size in bytes, a code, one tag, and
//! an end tag of zero. A tag is its identifier, the size of its value
//! buffer in bytes, a code, and the value buffer, padded to whole words. In
//! a request both codes and the value buffer are zero; the answer comes
//! back in the same buffer, with the message code set to success and the
//! value buffer filled in.

pub mod dma_channels;
pub mod revision;

use vstd::prelude::*;

verus! {

/// The code of a message that asks.
pub const PROCESS_REQUEST: u32 = 0;

/// The code of a message that was answered.
pub const REQUEST_SUCCESSFUL: u32 = 0x8000_0000;

/// The word of a message that holds its code.
pub const CODE_AT: usize = 1;

/// The first word of the value buffer.
pub const VALUE_AT: usize = 5;

/// The longest value buffer whose message still has a size of 32 bits.
pub const LONGEST_VALUE: usize = 0xffff_ffe4;

/// The tag that asks for the MAC address of the board, six bytes.
pub const GET_MAC_ADDRESS: u32 = 0x0001_0003;

/// The tag that asks for base and size of the processor's memory, two
/// words.
pub const GET_ARM_MEMORY: u32 = 0x0001_0005;

/// The tag that asks for base and size of the VideoCore's memory, two
/// words.
pub const GET_VC_MEMORY: u32 = 0x0001_0006;

/// The number of words that hold `value_len` bytes.
pub open spec fn value_words(value_len: nat) -> nat {
    (value_len + 3) / 4
}

/// The number of words of a message with one tag: two for the header, three
/// for the head of the tag, the value buffer, and the end tag.
pub open spec fn message_words(value_len: nat) -> nat {
    6 + value_words(value_len)
}

/// The request for the tag `tag_id` with a value buffer of `value_len`
/// bytes.
pub open spec fn request_of(tag_id: u32, value_len: nat) -> Seq<u32> {
    Seq::new(
        message_words(value_len),
        |i: int|
            if i == 0 {
                (4 * message_words(value_len)) as u32
            } else if i == 2 {
                tag_id
            } else if i == 3 {
                value_len as u32
            } else {
                0u32
            },
    )
}

/// Byte `k` of a word, counted from its low end.
pub open spec fn byte_of(word: u32, k: int) -> u8 {
    (word >> ((8 * k) as u32)) as u8
}

/// Whether a message was answered and has room for a value of `value_len`
/// bytes.
pub open spec fn answered(message: Seq<u32>, value_len: nat) -> bool {
    message.len() >= VALUE_AT + value_words(value_len) && message[CODE_AT as int]
        == REQUEST_SUCCESSFUL
}

/// The first `value_len` bytes of the value buffer of a message, as they
/// lie in memory where the low byte of a word comes first.
pub open spec fn value_of(message: Seq<u32>, value_len: nat) -> Seq<u8> {
    Seq::new(value_len, |i: int| byte_of(message[VALUE_AT + i / 4], i % 4))
}

/// Builds the request for the tag `tag_id` with a value buffer of
/// `value_len` bytes, unless the size of the message would not fit its
/// first word.
pub fn request(tag_id: u32, value_len: usize) -> (message: Option<Vec<u32>>)
    ensures
        message is Some <==> 4 * message_words(value_len as nat) <= u32::MAX,
        message matches Some(words) ==> words@ == request_of(tag_id, value_len as nat),
{
    if value_len > LONGEST_VALUE {
        return None;
    }
    let count: usize = 6 + (value_len + 3) / 4;
    let mut words: Vec<u32> = Vec::new();
    while words.len() < count
        invariant
            words@.len() <= count,
            forall|i: int| 0 <= i < words@.len() ==> words@[i] == 0,
        decreases count - words@.len(),
    {
        words.push(0);
    }
    words[0] = (4 * count) as u32;
    words[2] = tag_id;
    words[3] = value_len as u32;
    proof {
        assert(words@ =~= request_of(tag_id, value_len as nat));
    }
    Some(words)
}

/// Reads the value of `value_len` bytes out of a message, if the message
/// was answered and is long enough to hold it.
pub fn response(message: &[u32], value_len: usize) -> (value: Option<Vec<u8>>)
    ensures
        value is Some <==> answered(message@, value_len as nat),
        value matches Some(bytes) ==> bytes@ == value_of(message@, value_len as nat),
{
    if message.len() < VALUE_AT {
        return None;
    }
    let room: usize = message.len() - VALUE_AT;
    if value_len / 4 > room || (value_len / 4 == room && value_len % 4 != 0) {
        return None;
    }
    if message[CODE_AT] != REQUEST_SUCCESSFUL {
        return None;
    }
    let mut bytes: Vec<u8> = Vec::new();
    let mut i: usize = 0;
    while i < value_len
        invariant
            i <= value_len,
            message@.len() >= VALUE_AT + value_words(value_len as nat),
            bytes@.len() == i,
            forall|j: int| 0 <= j < i ==> bytes@[j] == byte_of(message@[VALUE_AT + j / 4], j % 4),
        decreases value_len - i,
    {
        let word: u32 = message[VALUE_AT + i / 4];
        let shift: u32 = 8 * ((i % 4) as u32);
        bytes.push((word >> shift) as u8);
        i = i + 1;
    }
    proof {
        assert(bytes@ =~= value_of(message@, value_len as nat));
    }
    Some(bytes)
}

} // verus!
