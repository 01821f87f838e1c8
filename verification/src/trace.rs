//! A stream polled again and again against a source, as a mathematical
//! model, and what holds of every such run.
//!
//! The driver alternates [`RpcResponseStream::begin_poll`], a read, and
//! [`RpcResponseStream::finish_poll`]. Here the source is a function from
//! the number of reads made so far to its next answer, and [`polled`] folds
//! the two spec functions of `finish_poll`'s contract over it.
//!
//! [`RpcResponseStream::begin_poll`]: crate::stream::RpcResponseStream::begin_poll
//! [`RpcResponseStream::finish_poll`]: crate::stream::RpcResponseStream::finish_poll

use crate::state::{ends_with_blank_line, RpcResponseState};
use crate::stream::{delivered, poll_item, poll_state, read_item, Item, ReadOutcome, READ_CAPACITY};
use vstd::prelude::*;

verus! {

/// One answer of the source: the buffer as the read left it, and what the
/// source reported.
pub ghost struct Answer<E> {
    pub buf: Seq<u8>,
    pub outcome: ReadOutcome<E>,
}

/// Where a stream stands after some polls.
pub ghost struct Trace<E> {
    /// The item of each poll so far, in order.
    pub items: Seq<Item<E>>,
    /// The detector's state.
    pub state: RpcResponseState,
    /// How many reads were made against the source.
    pub reads: nat,
}

/// The trace of a stream that starts in `start` and is polled `polls`
/// times, where `source(k)` answers the read that follows `k` earlier ones.
/// A poll in `TwoNewLines` makes no read.
pub open spec fn polled<E>(start: RpcResponseState, source: spec_fn(nat) -> Answer<E>, polls: nat) -> Trace<E>
    decreases polls,
{
    if polls == 0 {
        Trace { items: Seq::empty(), state: start, reads: 0 }
    } else {
        let before = polled(start, source, (polls - 1) as nat);
        let answer = source(before.reads);
        Trace {
            items: before.items.push(poll_item(before.state, answer.buf, answer.outcome)),
            state: poll_state(before.state, answer.buf, answer.outcome),
            reads: if before.state == RpcResponseState::TwoNewLines {
                before.reads
            } else {
                before.reads + 1
            },
        }
    }
}

/// Every poll yields exactly one item and makes at most one read: a poll
/// never loops on its source, whatever the source answers.
pub proof fn lemma_one_item_per_poll<E>(start: RpcResponseState, source: spec_fn(nat) -> Answer<E>, polls: nat)
    ensures
        polled(start, source, polls).items.len() == polls,
        polled(start, source, polls).reads <= polls,
        polled(start, source, (polls + 1) as nat).reads <= polled(start, source, polls).reads + 1,
    decreases polls,
{
    if polls > 0 {
        lemma_one_item_per_poll(start, source, (polls - 1) as nat);
    }
}

/// Later polls do not change earlier items: the first `k` items of a longer
/// run are the items of the run of `k` polls.
pub proof fn lemma_items_are_kept<E>(start: RpcResponseState, source: spec_fn(nat) -> Answer<E>, k: nat, polls: nat)
    requires
        k <= polls,
    ensures
        polled(start, source, polls).items.take(k as int) == polled(start, source, k).items,
    decreases polls,
{
    lemma_one_item_per_poll(start, source, polls);
    lemma_one_item_per_poll(start, source, k);
    if k < polls {
        lemma_items_are_kept(start, source, k, (polls - 1) as nat);
        lemma_one_item_per_poll(start, source, (polls - 1) as nat);
        let before = polled(start, source, (polls - 1) as nat);
        assert(polled(start, source, polls).items.take(k as int) =~= before.items.take(k as int));
    } else {
        assert(polled(start, source, polls).items.take(k as int) =~= polled(start, source, k).items);
    }
}

/// `TwoNewLines` is final: once a stream has reached it, every further poll
/// yields `Exhausted`, makes no read, and leaves the state where it is.
pub proof fn lemma_exhausted_for_good<E>(start: RpcResponseState, source: spec_fn(nat) -> Answer<E>, k: nat, polls: nat)
    requires
        k <= polls,
        polled(start, source, k).state == RpcResponseState::TwoNewLines,
    ensures
        polled(start, source, polls).state == RpcResponseState::TwoNewLines,
        polled(start, source, polls).reads == polled(start, source, k).reads,
        forall|i: int| k <= i < polls ==> #[trigger] polled(start, source, polls).items[i] == Item::<E>::Exhausted,
    decreases polls,
{
    if k < polls {
        lemma_exhausted_for_good(start, source, k, (polls - 1) as nat);
        lemma_one_item_per_poll(start, source, (polls - 1) as nat);
    }
}

/// A chunk that ends in a blank line ends the stream: if poll `k` finds the
/// stream open and its read succeeds with a chunk whose last two bytes are
/// newlines, then that poll yields the chunk, and every later poll yields
/// `Exhausted` and makes no read.
pub proof fn lemma_blank_line_ends_stream<E>(
    start: RpcResponseState,
    source: spec_fn(nat) -> Answer<E>,
    k: nat,
    polls: nat,
    n: usize,
)
    requires
        k < polls,
        polled(start, source, k).state != RpcResponseState::TwoNewLines,
        source(polled(start, source, k).reads).outcome == ReadOutcome::<E>::Ready(n),
        ends_with_blank_line(delivered(source(polled(start, source, k).reads).buf, n)),
    ensures
        polled(start, source, polls).items[k as int] == Item::<E>::Chunk(
            delivered(source(polled(start, source, k).reads).buf, n),
        ),
        forall|i: int| k < i < polls ==> #[trigger] polled(start, source, polls).items[i] == Item::<E>::Exhausted,
        polled(start, source, polls).reads == polled(start, source, k).reads + 1,
        polled(start, source, polls).state == RpcResponseState::TwoNewLines,
{
    lemma_exhausted_for_good(start, source, (k + 1) as nat, polls);
    lemma_items_are_kept(start, source, (k + 1) as nat, polls);
    lemma_one_item_per_poll(start, source, k);
    lemma_one_item_per_poll(start, source, polls);
    assert(polled(start, source, polls).items[k as int] == polled(start, source, polls).items.take(
        k + 1 as int,
    )[k as int]);
}

/// An error passes through: if poll `k` finds the stream open and the
/// source answers its read with an error, the item of poll `k` is that
/// error, the items before it are untouched, and the state does not move.
pub proof fn lemma_error_passes_through<E>(
    start: RpcResponseState,
    source: spec_fn(nat) -> Answer<E>,
    k: nat,
    polls: nat,
    e: E,
)
    requires
        k < polls,
        polled(start, source, k).state != RpcResponseState::TwoNewLines,
        source(polled(start, source, k).reads).outcome == ReadOutcome::Failed(e),
    ensures
        polled(start, source, polls).items[k as int] == Item::Failed(e),
        polled(start, source, polls).items.take(k as int) == polled(start, source, k).items,
        polled(start, source, (k + 1) as nat).state == polled(start, source, k).state,
{
    lemma_items_are_kept(start, source, (k + 1) as nat, polls);
    lemma_items_are_kept(start, source, k, polls);
    lemma_one_item_per_poll(start, source, k);
    lemma_one_item_per_poll(start, source, polls);
    assert(polled(start, source, polls).items[k as int] == polled(start, source, polls).items.take(
        k + 1 as int,
    )[k as int]);
}

/// A stream that is still open has read once per poll and has never
/// yielded `Exhausted`: every answer of the source, an empty chunk too,
/// became one item.
pub proof fn lemma_open_stream_forwards_every_answer<E>(
    start: RpcResponseState,
    source: spec_fn(nat) -> Answer<E>,
    polls: nat,
)
    requires
        polled(start, source, polls).state != RpcResponseState::TwoNewLines,
    ensures
        polled(start, source, polls).reads == polls,
        forall|i: int|
            0 <= i < polls ==> #[trigger] polled(start, source, polls).items[i] == read_item(
                source(i as nat).buf,
                source(i as nat).outcome,
            ),
    decreases polls,
{
    if polls > 0 {
        lemma_open_stream_forwards_every_answer(start, source, (polls - 1) as nat);
        lemma_one_item_per_poll(start, source, (polls - 1) as nat);
    }
}

/// No chunk is longer than the buffer that was offered for its read.
pub proof fn lemma_chunk_fits_buffer<E>(state: RpcResponseState, buf: Seq<u8>, outcome: ReadOutcome<E>)
    ensures
        poll_item(state, buf, outcome) matches Item::Chunk(c) ==> c.len() <= buf.len(),
{
}

/// With buffers of `READ_CAPACITY` bytes, as `begin_poll` hands them out,
/// no chunk of a run is longer than `READ_CAPACITY`.
pub proof fn lemma_chunks_fit_capacity<E>(start: RpcResponseState, source: spec_fn(nat) -> Answer<E>, polls: nat)
    requires
        forall|j: nat| (#[trigger] source(j)).buf.len() == READ_CAPACITY,
    ensures
        forall|i: int|
            0 <= i < polls ==> (#[trigger] polled(start, source, polls).items[i] matches Item::Chunk(c)
                ==> c.len() <= READ_CAPACITY),
    decreases polls,
{
    if polls > 0 {
        lemma_chunks_fit_capacity(start, source, (polls - 1) as nat);
        lemma_one_item_per_poll(start, source, (polls - 1) as nat);
        let before = polled(start, source, (polls - 1) as nat);
        lemma_chunk_fits_buffer(before.state, source(before.reads).buf, source(before.reads).outcome);
    }
}

} // verus!
