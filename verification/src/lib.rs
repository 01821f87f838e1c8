//! A byte stream that ends at a blank line.
//!
//! A response is an arbitrary run of bytes closed by two consecutive
//! newlines. The bytes arrive in chunks of whatever size the source hands
//! out, so the two newlines may sit in one chunk or be split over two. This
//! crate holds the detector that follows the chunks and decides, poll by
//! poll, whether another read is due and what the consumer receives.
//!
//! The crate does no I/O itself. A driver asks the stream for a buffer
//! ([`stream::RpcResponseStream::begin_poll`]), lets its source fill it, and
//! reports what the source said ([`stream::RpcResponseStream::finish_poll`]).

pub mod state;
pub mod chunk;
pub mod stream;
pub mod trace;
