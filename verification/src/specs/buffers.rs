//! Contracts for the byte buffers of the `bytes` crate.

use vstd::prelude::*;

verus! {

/// `bytes::Bytes`: an immutable buffer of bytes.
#[verifier::external_type_specification]
#[verifier::external_body]
pub struct ExBytes(bytes::Bytes);

/// `bytes::BytesMut`: a growable buffer of bytes.
#[verifier::external_type_specification]
#[verifier::external_body]
pub struct ExBytesMut(bytes::BytesMut);

/// The bytes that a `Bytes` holds, in order.
pub uninterp spec fn bytes_of(b: bytes::Bytes) -> Seq<u8>;

/// The bytes that a `BytesMut` holds, in order.
pub uninterp spec fn buffer_of(b: bytes::BytesMut) -> Seq<u8>;

/// `Bytes::new` makes an empty buffer.
pub assume_specification[ bytes::Bytes::new ]() -> (b: bytes::Bytes)
    ensures
        bytes_of(b) == Seq::<u8>::empty(),
;

/// `Bytes::from` takes over the bytes of a vector.
pub assume_specification[ <bytes::Bytes as From<Vec<u8>>>::from ](v: Vec<u8>) -> (b: bytes::Bytes)
    ensures
        bytes_of(b) == v@,
;

/// `Bytes::len` counts the bytes held.
pub assume_specification[ bytes::Bytes::len ](b: &bytes::Bytes) -> (n: usize)
    ensures
        n == bytes_of(*b).len(),
;

/// Cloning a `Bytes` gives a buffer with the same bytes.
pub assume_specification[ <bytes::Bytes as Clone>::clone ](b: &bytes::Bytes) -> (r: bytes::Bytes)
    ensures
        r == *b,
;

/// Dereferencing a `Bytes` gives its bytes as a slice.
pub assume_specification<'a>[ <bytes::Bytes as core::ops::Deref>::deref ](
    b: &'a bytes::Bytes,
) -> (r: &'a [u8])
    ensures
        r@ == bytes_of(*b),
;

/// `BytesMut::new` makes an empty buffer.
pub assume_specification[ bytes::BytesMut::new ]() -> (b: bytes::BytesMut)
    ensures
        buffer_of(b) == Seq::<u8>::empty(),
;

/// `BufMut::put_slice` on a `BytesMut` appends the slice; the buffer grows as needed.
pub assume_specification[ <bytes::BytesMut as bytes::BufMut>::put_slice ](
    b: &mut bytes::BytesMut,
    src: &[u8],
)
    ensures
        buffer_of(*final(b)) == buffer_of(*old(b)) + src@,
;

/// `BytesMut::freeze` turns the buffer into a `Bytes` with the same bytes.
pub assume_specification[ bytes::BytesMut::freeze ](b: bytes::BytesMut) -> (r: bytes::Bytes)
    ensures
        bytes_of(r) == buffer_of(b),
;

} // verus!
