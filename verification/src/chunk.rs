//! Chunks of a response body.

use bytes::Bytes;
use vstd::prelude::*;
use vstd::utf8::encode_utf8;

verus! {

/// `bytes::Bytes`, an immutable run of bytes.
#[verifier::external_type_specification]
#[verifier::external_body]
pub struct ExBytes(bytes::Bytes);

/// The bytes that a chunk holds.
pub uninterp spec fn chunk_bytes(chunk: Bytes) -> Seq<u8>;

/// Whether `chunk` holds exactly the characters of `text`, in UTF-8.
pub open spec fn holds_text(chunk: Bytes, text: Seq<char>) -> bool {
    chunk_bytes(chunk) == encode_utf8(text)
}

/// `Clone::clone` of `Bytes` gives a chunk with the same bytes.
pub assume_specification[ <bytes::Bytes as Clone>::clone ](chunk: &bytes::Bytes) -> (r: bytes::Bytes)
    ensures
        chunk_bytes(r) == chunk_bytes(*chunk),
;

/// `Bytes::from(String)` takes over the bytes of the string, which are its
/// characters in UTF-8.
#[verifier::external_body]
pub(crate) fn chunk_from_string(text: String) -> (r: Bytes)
    ensures
        chunk_bytes(r) == encode_utf8(text@),
{
    Bytes::from(text)
}

} // verus!
