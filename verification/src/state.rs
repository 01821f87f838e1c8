//! The detector's state and its transition on one chunk.

use vstd::prelude::*;

verus! {

/// The byte that, twice in a row, closes a response.
pub const NEWLINE: u8 = 0x0a;

/// How much of the closing blank line has been seen so far.
#[derive(Clone, Copy, Debug, PartialEq, Eq, Structural)]
pub enum RpcResponseState {
    /// The last chunk did not end in a newline.
    NoNewLines,
    /// The last chunk ended in exactly one pending newline: a chunk that
    /// begins with a newline closes the response.
    OneNewLine,
    /// The blank line has been seen. Nothing more is read.
    TwoNewLines,
}

/// The chunk's last byte is a newline.
pub open spec fn ends_with_newline(chunk: Seq<u8>) -> bool {
    chunk.len() >= 1 && chunk[chunk.len() - 1] == NEWLINE
}

/// The chunk's last two bytes are both newlines.
pub open spec fn ends_with_blank_line(chunk: Seq<u8>) -> bool {
    chunk.len() >= 2 && chunk[chunk.len() - 1] == NEWLINE && chunk[chunk.len() - 2] == NEWLINE
}

/// The chunk's first byte is a newline.
pub open spec fn starts_with_newline(chunk: Seq<u8>) -> bool {
    chunk.len() >= 1 && chunk[0] == NEWLINE
}

impl RpcResponseState {
    /// The state after `chunk` has been read in state `self`.
    ///
    /// `TwoNewLines` is final. Otherwise only the chunk's ends count: a
    /// blank line at its tail, or a leading newline that joins a pending
    /// one, closes the response; a single trailing newline is left pending.
    pub open spec fn after(self, chunk: Seq<u8>) -> RpcResponseState {
        if self == RpcResponseState::TwoNewLines || ends_with_blank_line(chunk) || (self
            == RpcResponseState::OneNewLine && starts_with_newline(chunk)) {
            RpcResponseState::TwoNewLines
        } else if ends_with_newline(chunk) {
            RpcResponseState::OneNewLine
        } else {
            RpcResponseState::NoNewLines
        }
    }

    /// Computes the state after `chunk` has been read in state `self`.
    pub fn advance(self, chunk: &[u8]) -> (next: RpcResponseState)
        ensures
            next == self.after(chunk@),
    {
        let n: usize = chunk.len();
        if self == RpcResponseState::TwoNewLines {
            return RpcResponseState::TwoNewLines;
        }
        let trailing = n >= 1 && chunk[n - 1] == NEWLINE;
        let blank_line = trailing && n >= 2 && chunk[n - 2] == NEWLINE;
        let joins_pending = self == RpcResponseState::OneNewLine && n >= 1 && chunk[0] == NEWLINE;
        if blank_line || joins_pending {
            RpcResponseState::TwoNewLines
        } else if trailing {
            RpcResponseState::OneNewLine
        } else {
            RpcResponseState::NoNewLines
        }
    }
}

/// `TwoNewLines` is never left, whatever is read.
pub proof fn lemma_two_new_lines_is_final(chunk: Seq<u8>)
    ensures
        RpcResponseState::TwoNewLines.after(chunk) == RpcResponseState::TwoNewLines,
{
}

/// A chunk that ends in a blank line closes the response from any state.
pub proof fn lemma_blank_line_closes(state: RpcResponseState, chunk: Seq<u8>)
    requires
        ends_with_blank_line(chunk),
    ensures
        state.after(chunk) == RpcResponseState::TwoNewLines,
{
}

/// A newline split over two chunks closes the response: once `first` has
/// left a newline pending, a chunk that begins with a newline completes it,
/// whatever follows that newline.
pub proof fn lemma_split_blank_line_closes(state: RpcResponseState, first: Seq<u8>, second: Seq<u8>)
    requires
        state.after(first) == RpcResponseState::OneNewLine,
        starts_with_newline(second),
    ensures
        state.after(first).after(second) == RpcResponseState::TwoNewLines,
{
}

/// An empty chunk completes nothing: it clears a pending newline, and the
/// response stays open.
pub proof fn lemma_empty_chunk_keeps_open(state: RpcResponseState)
    requires
        state != RpcResponseState::TwoNewLines,
    ensures
        state.after(Seq::<u8>::empty()) == RpcResponseState::NoNewLines,
{
}

} // verus!
