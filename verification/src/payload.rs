//! Immutable byte buffers (`bytes::Bytes`) as seen by the verified code.

use vstd::prelude::*;

verus! {

/// `bytes::Bytes`, carried through the library as an opaque value.
#[verifier::external_type_specification]
#[verifier::external_body]
pub struct ExBytes(bytes::Bytes);

/// The bytes that a `bytes::Bytes` buffer holds.
pub uninterp spec fn bytes_view(b: bytes::Bytes) -> Seq<u8>;

/// Calls `bytes::Bytes::copy_from_slice`, which copies `data` into a new
/// buffer; the contract claims that the buffer holds exactly `data`.
#[verifier::external_body]
pub(crate) fn bytes_copy_from_slice(data: &[u8]) -> (r: bytes::Bytes)
    ensures
        bytes_view(r) == data@,
{
    bytes::Bytes::copy_from_slice(data)
}

/// `<bytes::Bytes as Clone>::clone` makes another handle on the same
/// memory and length; the contract claims that it holds the same bytes.
pub assume_specification[ <bytes::Bytes as Clone>::clone ](b: &bytes::Bytes) -> (r: bytes::Bytes)
    ensures
        bytes_view(r) == bytes_view(*b),
;

/// Calls `bytes::Bytes::len`; the contract claims that it is the number of
/// bytes the buffer holds.
#[verifier::external_body]
pub(crate) fn bytes_len(b: &bytes::Bytes) -> (r: usize)
    ensures
        r == bytes_view(*b).len(),
{
    b.len()
}

/// Calls `bytes::Bytes::new`, which makes an empty buffer.
#[verifier::external_body]
pub(crate) fn bytes_new() -> (r: bytes::Bytes)
    ensures
        bytes_view(r) == Seq::<u8>::empty(),
{
    bytes::Bytes::new()
}

/// Calls `<bytes::Bytes as From<Vec<u8>>>::from`, which takes over the
/// vector's bytes; the contract claims that the buffer holds them.
#[verifier::external_body]
pub(crate) fn bytes_from_vec(v: Vec<u8>) -> (r: bytes::Bytes)
    ensures
        bytes_view(r) == v@,
{
    bytes::Bytes::from(v)
}

} // verus!
