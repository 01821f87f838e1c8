//! The stream: one poll, split around the read that the driver performs.

use crate::chunk::{bytes_content, freeze};
use crate::state::RpcResponseState;
use hyper::body::Bytes;
use vstd::prelude::*;

verus! {

/// Size of the buffer offered to the source for one read. No chunk is longer.
pub const READ_CAPACITY: usize = 4096;

/// What the source answered to one read into the offered buffer.
#[derive(Debug)]
pub enum ReadOutcome<E> {
    /// Nothing is available yet; the source will wake the task.
    Pending,
    /// The read succeeded and filled this many leading bytes of the buffer.
    Ready(usize),
    /// The read failed.
    Failed(E),
}

/// What one poll of the stream hands to the consumer.
#[derive(Debug)]
pub enum PollOutcome<E> {
    /// No item yet: poll again once the source has woken the task.
    Pending,
    /// The response is complete: there are no more items.
    Exhausted,
    /// The next chunk of the response.
    Chunk(Bytes),
    /// The source's error, passed on as it came.
    Failed(E),
}

/// A [`PollOutcome`] with the chunk as a sequence of bytes.
pub ghost enum Item<E> {
    Pending,
    Exhausted,
    Chunk(Seq<u8>),
    Failed(E),
}

impl<E> View for PollOutcome<E> {
    type V = Item<E>;

    open spec fn view(&self) -> Item<E> {
        match *self {
            PollOutcome::Pending => Item::Pending,
            PollOutcome::Exhausted => Item::Exhausted,
            PollOutcome::Chunk(b) => Item::Chunk(bytes_content(b)),
            PollOutcome::Failed(e) => Item::Failed(e),
        }
    }
}

/// The part of `buf` that a successful read of `n` bytes filled: its first
/// `n` bytes, or all of it where the source claims more than it was offered.
pub open spec fn delivered(buf: Seq<u8>, n: usize) -> Seq<u8> {
    if n <= buf.len() {
        buf.subrange(0, n as int)
    } else {
        buf
    }
}

/// The item that an open stream makes of one answer of its source.
pub open spec fn read_item<E>(buf: Seq<u8>, outcome: ReadOutcome<E>) -> Item<E> {
    match outcome {
        ReadOutcome::Pending => Item::Pending,
        ReadOutcome::Ready(n) => Item::Chunk(delivered(buf, n)),
        ReadOutcome::Failed(e) => Item::Failed(e),
    }
}

/// The item of a poll made in `state`, where a read into `buf` was answered
/// with `outcome`. In `TwoNewLines` no read is made and the answer is void.
pub open spec fn poll_item<E>(state: RpcResponseState, buf: Seq<u8>, outcome: ReadOutcome<E>) -> Item<E> {
    if state == RpcResponseState::TwoNewLines {
        Item::Exhausted
    } else {
        read_item(buf, outcome)
    }
}

/// The state after that poll. Only a successful read moves it.
pub open spec fn poll_state<E>(state: RpcResponseState, buf: Seq<u8>, outcome: ReadOutcome<E>) -> RpcResponseState {
    match outcome {
        ReadOutcome::Ready(n) => state.after(delivered(buf, n)),
        _ => state,
    }
}

/// A byte stream over the source `inner` that ends once two consecutive
/// newlines have been received.
pub struct RpcResponseStream<SP> {
    /// The source. The stream never touches it: the driver reads from it.
    pub inner: SP,
    /// What has been seen of the closing blank line.
    pub state: RpcResponseState,
}

impl<SP> RpcResponseStream<SP> {
    /// Wraps a source. Nothing has been read yet.
    pub fn new(sp: SP) -> (stream: Self)
        ensures
            stream.inner == sp,
            stream.state == RpcResponseState::NoNewLines,
    {
        RpcResponseStream { inner: sp, state: RpcResponseState::NoNewLines }
    }

    /// Opens a poll. `None` says that the stream is exhausted and that no
    /// read may be made; otherwise the result is a fresh zeroed buffer of
    /// `READ_CAPACITY` bytes for the driver to read into once.
    pub fn begin_poll(&self) -> (buf: Option<Vec<u8>>)
        ensures
            buf is None <==> self.state == RpcResponseState::TwoNewLines,
            buf matches Some(b) ==> b@ == Seq::new(READ_CAPACITY as nat, |i: int| 0u8),
    {
        if self.state == RpcResponseState::TwoNewLines {
            None
        } else {
            let b: Vec<u8> = vec![0u8; READ_CAPACITY];
            assert(b@ =~= Seq::new(READ_CAPACITY as nat, |i: int| 0u8));
            Some(b)
        }
    }

    /// Closes a poll: `buf` is the buffer after the read and `outcome` what
    /// the source answered. Returns the consumer's item and moves the state.
    ///
    /// A successful read yields the filled part of the buffer as a chunk,
    /// whatever it holds and even when it is empty; the chunk that
    /// completes the blank line is delivered whole. A pending or failed
    /// read leaves the state as it was: after an error the stream is still
    /// open, and the next poll reads again. In `TwoNewLines` the stream
    /// stays exhausted and the answer is ignored.
    pub fn finish_poll<E>(&mut self, buf: Vec<u8>, outcome: ReadOutcome<E>) -> (item: PollOutcome<E>)
        ensures
            item@ == poll_item(old(self).state, buf@, outcome),
            final(self).state == poll_state(old(self).state, buf@, outcome),
            final(self).inner == old(self).inner,
            old(self).state == RpcResponseState::TwoNewLines ==> final(self).state
                == RpcResponseState::TwoNewLines,
            item matches PollOutcome::Chunk(b) ==> bytes_content(b).len() <= buf@.len(),
    {
        if self.state == RpcResponseState::TwoNewLines {
            return PollOutcome::Exhausted;
        }
        match outcome {
            ReadOutcome::Pending => PollOutcome::Pending,
            ReadOutcome::Ready(n) => {
                let mut buf = buf;
                buf.truncate(n);
                self.state = self.state.advance(buf.as_slice());
                PollOutcome::Chunk(freeze(buf))
            },
            ReadOutcome::Failed(e) => PollOutcome::Failed(e),
        }
    }
}

} // verus!
