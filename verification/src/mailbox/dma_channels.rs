//! The channels that the firmware leaves to the processor.

use vstd::prelude::*;
use vstd::string::StringExecFns;
use crate::dma::raw::Channel;
use crate::mailbox::answered;
use crate::mailbox::REQUEST_SUCCESSFUL;
use crate::mailbox::VALUE_AT;

verus! {

/// The number of channels.
pub const CHANNELS: usize = 16;

/// The tag that asks which channels are free; the answer is one word.
pub const GET_DMA_CHANNELS: u32 = 0x0006_0001;

/// The set of channels that are free to use.
pub struct DmaChannels {
    channels: [bool; 16],
}

/// Walks the free channels in rising order.
pub struct Iter<'a> {
    channels: &'a [bool; 16],
    idx: usize,
}

/// Whether bit `i` of `mask` is set.
pub open spec fn bit(mask: u32, i: int) -> bool {
    mask & (1u32 << (i as u32)) != 0
}

/// What stands for a channel number in a listing.
pub open spec fn numeral(n: int) -> Seq<char> {
    if n == 0 {
        "0"@
    } else if n == 1 {
        "1"@
    } else if n == 2 {
        "2"@
    } else if n == 3 {
        "3"@
    } else if n == 4 {
        "4"@
    } else if n == 5 {
        "5"@
    } else if n == 6 {
        "6"@
    } else if n == 7 {
        "7"@
    } else if n == 8 {
        "8"@
    } else if n == 9 {
        "9"@
    } else if n == 10 {
        "10"@
    } else if n == 11 {
        "11"@
    } else if n == 12 {
        "12"@
    } else if n == 13 {
        "13"@
    } else if n == 14 {
        "14"@
    } else {
        "15"@
    }
}

/// What stands for the run of channels from `from` to `to` in a listing.
pub open spec fn span(from: int, to: int) -> Seq<char> {
    if from == to {
        numeral(from)
    } else {
        numeral(from) + "-"@ + numeral(to)
    }
}

/// The listing from channel `i` on, where `from` is the first channel of
/// the run that is open at `i` and `any` says whether a run has been
/// listed. A run that ends before the last channel is listed when it ends,
/// with a comma before it unless it is the first. A run that reaches the
/// last channel is written last, without a comma. A listing in which no
/// run ended before the last channel closes with `<none>`.
pub open spec fn listing(channels: Seq<bool>, i: int, from: Option<int>, any: bool) -> Seq<char>
    decreases 16 - i,
{
    if i >= 16 {
        (match from {
            Some(first) => span(first, 15),
            None => Seq::empty(),
        }) + (if any {
            Seq::empty()
        } else {
            "<none>"@
        })
    } else if channels[i] {
        listing(
            channels,
            i + 1,
            match from {
                Some(first) => Some(first),
                None => Some(i),
            },
            any,
        )
    } else {
        match from {
            Some(first) => (if any {
                ", "@
            } else {
                Seq::empty()
            }) + span(first, i - 1) + listing(channels, i + 1, None, true),
            None => listing(channels, i + 1, None, any),
        }
    }
}

/// The least free channel at or above `from`, if there is one.
pub open spec fn next_free(channels: Seq<bool>, from: int) -> Option<int>
    decreases 16 - from,
{
    if from >= 16 {
        None
    } else if channels[from] {
        Some(from)
    } else {
        next_free(channels, from + 1)
    }
}

/// What stands for a channel number in a listing.
fn number(n: usize) -> (text: &'static str)
    requires
        n <= 15,
    ensures
        text@ == numeral(n as int),
{
    if n == 0 {
        "0"
    } else if n == 1 {
        "1"
    } else if n == 2 {
        "2"
    } else if n == 3 {
        "3"
    } else if n == 4 {
        "4"
    } else if n == 5 {
        "5"
    } else if n == 6 {
        "6"
    } else if n == 7 {
        "7"
    } else if n == 8 {
        "8"
    } else if n == 9 {
        "9"
    } else if n == 10 {
        "10"
    } else if n == 11 {
        "11"
    } else if n == 12 {
        "12"
    } else if n == 13 {
        "13"
    } else if n == 14 {
        "14"
    } else {
        "15"
    }
}

/// Writes the run of channels from `from` to `to` at the end of `out`.
fn write_span(out: &mut String, from: usize, to: usize)
    requires
        from <= to <= 15,
    ensures
        final(out)@ == old(out)@ + span(from as int, to as int),
{
    out.append(number(from));
    if from != to {
        out.append("-");
        out.append(number(to));
    }
    proof {
        assert(out@ =~= old(out)@ + span(from as int, to as int));
    }
}

impl View for DmaChannels {
    type V = Seq<bool>;

    closed spec fn view(&self) -> Seq<bool> {
        self.channels@
    }
}

impl DmaChannels {
    /// The set that a mask of sixteen bits stands for: channel `i` is free
    /// where bit `i` is set.
    pub fn from_mask(mask: u32) -> (channels: DmaChannels)
        ensures
            channels@.len() == 16,
            forall|i: int| 0 <= i < 16 ==> channels@[i] == bit(mask, i),
    {
        let mut channels = DmaChannels { channels: [false; 16] };
        let mut i: usize = 0;
        while i < 16
            invariant
                i <= 16,
                channels.channels@.len() == 16,
                forall|j: int| 0 <= j < i ==> channels.channels@[j] == bit(mask, j),
            decreases 16 - i,
        {
            let free = (mask & (1u32 << (i as u32))) != 0;
            channels.channels[i] = free;
            i = i + 1;
        }
        channels
    }

    /// Whether channel `index` is free.
    pub fn available(&self, index: usize) -> (free: bool)
        ensures
            free == (index < 16 && self@[index as int]),
    {
        index < 16 && self.channels[index]
    }

    /// Walks the free channels in rising order.
    pub fn iter(&self) -> (iter: Iter<'_>)
        ensures
            iter.position() == 0,
            iter.over() == self@,
    {
        Iter { channels: &self.channels, idx: 0 }
    }

    /// Takes channel `index` out of the set and hands out the right to use
    /// it, if the channel is free.
    pub fn claim(&mut self, index: usize) -> (claimed: Option<Channel>)
        ensures
            claimed is Some <==> index < 16 && old(self)@[index as int],
            claimed matches Some(channel) ==> channel.index_of() == index && final(self)@ == old(
                self,
            )@.update(index as int, false),
            claimed is None ==> final(self)@ == old(self)@,
    {
        if index < 16 && self.channels[index] {
            self.channels[index] = false;
            Some(Channel::new(index))
        } else {
            None
        }
    }

    /// Lists the free channels: a run of neighbours as `first-last`, a
    /// single channel by its number. The runs that end before channel 15
    /// are separated by a comma and a blank. A run that reaches channel 15
    /// follows them directly, with nothing in between, and where no run
    /// ended before channel 15 the text closes with `<none>`: the channels
    /// 2, 3 and 12 to 15 give `2-312-15`, the channels 0 and 15 give `015`,
    /// all sixteen give `0-15<none>`, and none gives `<none>`.
    pub fn describe(&self) -> (text: String)
        ensures
            text@ == listing(self@, 0, None, false),
    {
        let mut out = String::new();
        let mut any = false;
        let mut from: Option<usize> = None;
        let mut i: usize = 0;
        while i < 16
            invariant
                i <= 16,
                self.channels@.len() == 16,
                from matches Some(first) ==> first < i,
                out@ + listing(
                    self@,
                    i as int,
                    match from {
                        Some(first) => Some(first as int),
                        None => None,
                    },
                    any,
                ) == listing(self@, 0, None, false),
            decreases 16 - i,
        {
            let ghost before = out@;
            if self.channels[i] {
                if from.is_none() {
                    from = Some(i);
                }
            } else {
                if let Some(first) = from {
                    let ghost comma: Seq<char> = if any {
                        ", "@
                    } else {
                        Seq::empty()
                    };
                    if any {
                        out.append(", ");
                    }
                    write_span(&mut out, first, i - 1);
                    any = true;
                    proof {
                        let rest = listing(self@, i + 1, None, true);
                        let run = span(first as int, i - 1);
                        assert(out@ + rest =~= before + (comma + run + rest));
                    }
                }
                from = None;
            }
            i = i + 1;
        }
        if let Some(first) = from {
            write_span(&mut out, first, 15);
        }
        if !any {
            out.append("<none>");
        }
        out
    }
}

impl<'a> Iter<'a> {
    #[verifier::type_invariant]
    spec fn in_range(self) -> bool {
        self.idx <= 16
    }

    /// The channel that is looked at next.
    pub closed spec fn position(&self) -> usize {
        self.idx
    }

    /// The set that is walked.
    pub closed spec fn over(&self) -> Seq<bool> {
        self.channels@
    }

    /// The next free channel, if one is left.
    pub fn next(&mut self) -> (found: Option<usize>)
        ensures
            final(self).over() == old(self).over(),
            match next_free(old(self).over(), old(self).position() as int) {
                Some(index) => found == Some(index as usize) && final(self).position() == index + 1,
                None => found is None && final(self).position() == 16,
            },
    {
        proof {
            use_type_invariant(&*self);
        }
        while self.idx < 16
            invariant
                self.idx <= 16,
                self.channels@.len() == 16,
                self.channels == old(self).channels,
                next_free(old(self).over(), old(self).position() as int) == next_free(
                    self.over(),
                    self.idx as int,
                ),
            decreases 16 - self.idx,
        {
            let idx = self.idx;
            self.idx = self.idx + 1;
            if self.channels[idx] {
                return Some(idx);
            }
        }
        None
    }
}

/// The set of free channels that the answer to `GET_DMA_CHANNELS` names:
/// the mask in the first word of its value buffer.
pub fn query(message: &[u32]) -> (channels: Option<DmaChannels>)
    ensures
        channels is Some <==> answered(message@, 4),
        channels matches Some(set) ==> set@.len() == 16 && forall|i: int|
            0 <= i < 16 ==> set@[i] == bit(message@[VALUE_AT as int], i),
{
    if message.len() <= VALUE_AT || message[1] != REQUEST_SUCCESSFUL {
        return None;
    }
    Some(DmaChannels::from_mask(message[VALUE_AT]))
}

} // verus!
