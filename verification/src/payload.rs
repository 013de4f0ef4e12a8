//! The byte buffers that carry documents to and from the backends.

use bytes::Bytes;
use vstd::prelude::*;

verus! {

/// `bytes::Bytes`, the buffer type of the HTTP client. A buffer is carried
/// as it is; all that is said of one is what bytes it holds.
#[verifier::external_type_specification]
#[verifier::external_body]
pub struct ExBytes(Bytes);

/// The bytes that a buffer holds, in order.
pub uninterp spec fn bytes_content(buffer: Bytes) -> Seq<u8>;

/// A second handle on the bytes of `buffer`, made with `Bytes::clone`.
///
/// Trusted: the clone holds the same bytes as the buffer it was made from.
/// `Bytes` shares the storage between its clones, so that no byte is copied.
#[verifier::external_body]
pub(crate) fn share(buffer: &Bytes) -> (copy: Bytes)
    ensures
        bytes_content(copy) == bytes_content(*buffer),
{
    buffer.clone()
}

} // verus!
