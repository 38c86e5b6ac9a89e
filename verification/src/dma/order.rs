//! The order in which the engine names its actions.
//!
//! Whatever the hardware answers, a transfer is prepared, started, polled
//! and closed in one fixed order: barrier, cache, the three register
//! writes, cache, barrier, count, start; then rounds of barrier and status
//! until the channel is at rest; then count, clearing of the end flag,
//! cache, barrier.

use vstd::prelude::*;
use crate::dma::engine::active;
use crate::dma::engine::Action;
use crate::dma::engine::Run;
use crate::dma::engine::Timing;
use crate::dma::engine::AT_END_COUNT;
use crate::dma::engine::AT_POLL;
use crate::dma::registers::CONBLK_AD_OFFSET;
use crate::dma::registers::CS_OFFSET;
use crate::dma::registers::DEBUG_CLEAR_ERRORS;
use crate::dma::registers::DEBUG_OFFSET;
use crate::dma::registers::START;

verus! {

/// The actions named when the answers `replies` are given, one to a step.
pub open spec fn trace(run: Run, replies: Seq<u32>) -> Seq<Action>
    decreases replies.len(),
{
    if replies.len() == 0 {
        Seq::empty()
    } else {
        seq![run.step(replies[0]).1] + trace(run.step(replies[0]).0, replies.drop_first())
    }
}

/// The transfer after the answers `replies` were given, one to a step.
pub open spec fn arrive(run: Run, replies: Seq<u32>) -> Run
    decreases replies.len(),
{
    if replies.len() == 0 {
        run
    } else {
        arrive(run.step(replies[0]).0, replies.drop_first())
    }
}

/// Everything up to and with the start of the channel.
pub open spec fn prologue(base: u32, block: u32) -> Seq<Action> {
    seq![
        Action::Barrier,
        Action::CleanInvalidateCache,
        Action::Write { address: (base + CS_OFFSET) as u32, value: 2 },
        Action::Write { address: (base + DEBUG_OFFSET) as u32, value: DEBUG_CLEAR_ERRORS },
        Action::Write { address: (base + CONBLK_AD_OFFSET) as u32, value: block },
        Action::CleanInvalidateCache,
        Action::Barrier,
        Action::ReadCycleCounter,
        Action::Write { address: (base + CS_OFFSET) as u32, value: START },
    ]
}

/// One round of polling.
pub open spec fn round(base: u32) -> Seq<Action> {
    seq![Action::Barrier, Action::Read { address: (base + CS_OFFSET) as u32 }]
}

/// `rounds` rounds of polling.
pub open spec fn polling(base: u32, rounds: nat) -> Seq<Action>
    decreases rounds,
{
    if rounds == 0 {
        Seq::empty()
    } else {
        round(base) + polling(base, (rounds - 1) as nat)
    }
}

/// Everything after the channel was seen at rest with `status`.
pub open spec fn epilogue(base: u32, status: u32, timing: Timing) -> Seq<Action> {
    seq![
        Action::ReadCycleCounter,
        Action::Write { address: (base + CS_OFFSET) as u32, value: status | 2 },
        Action::CleanInvalidateCache,
        Action::Barrier,
        Action::Done(timing),
    ]
}

/// The actions of a whole transfer that was polled `rounds` times.
pub open spec fn script(base: u32, block: u32, rounds: nat, status: u32, timing: Timing) -> Seq<
    Action,
> {
    prologue(base, block) + polling(base, rounds) + epilogue(base, status, timing)
}

/// The answer that holds the status of round `j` of polling, where the
/// answer at position `first` is the one given when polling begins.
pub open spec fn status_of(replies: Seq<u32>, first: int, j: int) -> u32 {
    replies[first + 2 * j]
}

/// Answers given in two parts name the actions of the first part, then
/// those of the second part from where the first part arrived.
pub proof fn lemma_trace_split(run: Run, first: Seq<u32>, second: Seq<u32>)
    ensures
        trace(run, first + second) == trace(run, first) + trace(arrive(run, first), second),
        arrive(run, first + second) == arrive(arrive(run, first), second),
    decreases first.len(),
{
    if first.len() == 0 {
        assert(first + second =~= second);
        assert(trace(run, first) + trace(run, second) =~= trace(run, second));
    } else {
        let next = run.step(first[0]).0;
        assert((first + second).drop_first() =~= first.drop_first() + second);
        lemma_trace_split(next, first.drop_first(), second);
        assert(trace(run, first + second) =~= trace(run, first) + trace(
            arrive(run, first),
            second,
        ));
    }
}

/// Whatever is answered, the first nine actions of a transfer are its
/// prologue, and the first count is kept as its beginning.
pub proof fn lemma_prologue(base: u32, block: u32, replies: Seq<u32>)
    requires
        replies.len() == 9,
    ensures
        trace(Run::fresh(base, block), replies) == prologue(base, block),
        arrive(Run::fresh(base, block), replies) == (Run {
            at: AT_POLL,
            begin: replies[8],
            ..Run::fresh(base, block)
        }),
{
    reveal_with_fuel(trace, 10);
    reveal_with_fuel(arrive, 10);
    let run = Run::fresh(base, block);
    let r1 = replies.drop_first();
    let r2 = r1.drop_first();
    let r3 = r2.drop_first();
    let r4 = r3.drop_first();
    let r5 = r4.drop_first();
    let r6 = r5.drop_first();
    let r7 = r6.drop_first();
    let r8 = r7.drop_first();
    assert(r8[0] == replies[8]);
    assert(trace(run, replies) =~= prologue(base, block));
}

/// A round of polling names a barrier and the reading of the status,
/// whatever is answered to the barrier.
pub proof fn lemma_round(run: Run, replies: Seq<u32>)
    requires
        replies.len() == 2,
        run.absorb(replies[0]).at == AT_POLL,
    ensures
        trace(run, replies) == round(run.base),
        arrive(run, replies) == (Run { at: AT_END_COUNT, ..run.absorb(replies[0]) }),
{
    reveal_with_fuel(trace, 3);
    reveal_with_fuel(arrive, 3);
    assert(trace(run, replies) =~= round(run.base));
}

/// Once the status shows the channel at rest, the transfer is closed: the
/// second count is taken, the end flag is cleared over the status that was
/// read, and the timing is handed out.
pub proof fn lemma_epilogue(run: Run, replies: Seq<u32>)
    requires
        replies.len() == 5,
        run.at == AT_END_COUNT,
        !active(replies[0]),
    ensures
        trace(run, replies) == epilogue(
            run.base,
            replies[0],
            Timing { cycle_begin: run.begin, cycle_end: replies[1] },
        ),
{
    reveal_with_fuel(trace, 6);
    let r1 = replies.drop_first();
    assert(r1[0] == replies[1]);
    assert(trace(run, replies) =~= epilogue(
        run.base,
        replies[0],
        Timing { cycle_begin: run.begin, cycle_end: replies[1] },
    ));
}

/// From the start of the channel on: as long as the status shows the
/// channel at work another round of polling follows, and the first status
/// that shows it at rest is followed by the epilogue.
pub proof fn lemma_rounds(run: Run, replies: Seq<u32>, rounds: nat)
    requires
        1 <= rounds,
        replies.len() == 2 * rounds + 5,
        run.absorb(replies[0]).at == AT_POLL,
        forall|j: int| 1 <= j < rounds ==> active(#[trigger] status_of(replies, 0, j)),
        !active(status_of(replies, 0, rounds as int)),
    ensures
        trace(run, replies) == polling(run.base, rounds) + epilogue(
            run.base,
            replies[2 * (rounds as int)],
            Timing {
                cycle_begin: run.absorb(replies[0]).begin,
                cycle_end: replies[2 * (rounds as int) + 1],
            },
        ),
    decreases rounds,
{
    let first = replies.subrange(0, 2);
    let rest = replies.subrange(2, replies.len() as int);
    assert(replies =~= first + rest);
    lemma_trace_split(run, first, rest);
    lemma_round(run, first);
    let polled = arrive(run, first);
    let timing = Timing {
        cycle_begin: run.absorb(replies[0]).begin,
        cycle_end: replies[2 * (rounds as int) + 1],
    };
    if rounds == 1 {
        lemma_epilogue(polled, rest);
        reveal_with_fuel(polling, 2);
        assert(polling(run.base, 1) =~= round(run.base));
    } else {
        assert(rest[0] == status_of(replies, 0, 1));
        assert(active(rest[0]));
        assert forall|j: int| 1 <= j < rounds - 1 implies active(
            #[trigger] status_of(rest, 0, j),
        ) by {
            assert(status_of(rest, 0, j) == status_of(replies, 0, j + 1));
        }
        lemma_rounds(polled, rest, (rounds - 1) as nat);
        assert(rest[2 * ((rounds as int) - 1)] == replies[2 * (rounds as int)]);
        assert(rest[2 * ((rounds as int) - 1) + 1] == replies[2 * (rounds as int) + 1]);
        assert(polling(run.base, rounds) =~= round(run.base) + polling(
            run.base,
            (rounds - 1) as nat,
        ));
        assert(trace(run, replies) =~= polling(run.base, rounds) + epilogue(
            run.base,
            replies[2 * (rounds as int)],
            timing,
        ));
    }
}

/// The order of a whole transfer. The channel is polled until a status
/// shows it at rest; if that is the status of round `rounds`, the actions
/// named are the prologue, `rounds` rounds of polling and the epilogue, in
/// this order and with nothing in between, and the timing is made of the two
/// counts that were answered.
pub proof fn lemma_order(base: u32, block: u32, replies: Seq<u32>, rounds: nat)
    requires
        1 <= rounds,
        replies.len() == 2 * rounds + 14,
        forall|j: int| 1 <= j < rounds ==> active(#[trigger] status_of(replies, 9, j)),
        !active(status_of(replies, 9, rounds as int)),
    ensures
        trace(Run::fresh(base, block), replies) == script(
            base,
            block,
            rounds,
            replies[9 + 2 * (rounds as int)],
            Timing { cycle_begin: replies[8], cycle_end: replies[10 + 2 * (rounds as int)] },
        ),
{
    let run = Run::fresh(base, block);
    let first = replies.subrange(0, 9);
    let rest = replies.subrange(9, replies.len() as int);
    assert(replies =~= first + rest);
    lemma_trace_split(run, first, rest);
    lemma_prologue(base, block, first);
    let started = arrive(run, first);
    assert forall|j: int| 1 <= j < rounds implies active(#[trigger] status_of(rest, 0, j)) by {
        assert(status_of(rest, 0, j) == status_of(replies, 9, j));
    }
    assert(rest[2 * (rounds as int)] == replies[9 + 2 * (rounds as int)]);
    assert(rest[2 * (rounds as int) + 1] == replies[10 + 2 * (rounds as int)]);
    lemma_rounds(started, rest, rounds);
}

} // verus!
