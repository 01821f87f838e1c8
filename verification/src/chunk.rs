//! The chunk type handed to the consumer: `hyper::body::Bytes`.

use hyper::body::Bytes;
use vstd::prelude::*;

verus! {

/// `hyper::body::Bytes`, an immutable byte buffer. Opaque to the verifier:
/// what it holds is spoken of through [`bytes_content`].
#[verifier::external_type_specification]
#[verifier::external_body]
pub struct ExBytes(Bytes);

/// The bytes that a `Bytes` value holds, in order.
pub uninterp spec fn bytes_content(b: Bytes) -> Seq<u8>;

/// Calls `Bytes::from` on a `Vec<u8>`.
///
/// Trusted, not proved: the result holds exactly the vector's bytes, in the
/// same order, for every vector, the empty one included.
#[verifier::external_body]
pub(crate) fn freeze(buf: Vec<u8>) -> (b: Bytes)
    ensures
        bytes_content(b) == buf@,
{
    Bytes::from(buf)
}

} // verus!
