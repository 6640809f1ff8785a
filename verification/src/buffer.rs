//! The growable byte buffer of the `bytes` crate (`BytesMut`), as the
//! protocol and stream code use it.  Its contents are modelled by
//! `bytes_view`; each method that the library calls has a wrapper whose
//! contract says what the method does to those contents.
use vstd::prelude::*;
use bytes::BytesMut;

verus! {

#[verifier::external_type_specification]
#[verifier::external_body]
pub struct ExBytesMut(bytes::BytesMut);

/// The bytes that a `BytesMut` holds, in order.
pub uninterp spec fn bytes_view(b: BytesMut) -> Seq<u8>;

/// The largest length a buffer can grow to: its allocation panics beyond it.
pub open spec fn max_buffer_len() -> int {
    isize::MAX as int
}

/// `BytesMut::with_capacity`.  Claimed: the new buffer is empty.
#[verifier::external_body]
pub fn buf_with_capacity(capacity: usize) -> (b: BytesMut)
    requires
        capacity <= isize::MAX,
    ensures
        bytes_view(b) == Seq::<u8>::empty(),
{
    BytesMut::with_capacity(capacity)
}

/// `BytesMut::from(&[u8])`.  Claimed: the new buffer holds the slice's bytes.
#[verifier::external_body]
pub fn buf_from_slice(s: &[u8]) -> (b: BytesMut)
    ensures
        bytes_view(b) == s@,
{
    BytesMut::from(s)
}

/// `BytesMut::len`.  Claimed: the number of bytes the buffer holds.
#[verifier::external_body]
pub fn buf_len(b: &BytesMut) -> (n: usize)
    ensures
        n == bytes_view(*b).len(),
{
    b.len()
}

/// `<BytesMut as Deref>::deref`.  Claimed: the slice holds the buffer's bytes.
#[verifier::external_body]
pub fn buf_as_slice(b: &BytesMut) -> (s: &[u8])
    ensures
        s@ == bytes_view(*b),
{
    &b[..]
}

/// `BytesMut::extend_from_slice`.  Claimed: the slice's bytes are appended.
#[verifier::external_body]
pub fn buf_extend(b: &mut BytesMut, s: &[u8])
    requires
        bytes_view(*old(b)).len() + s@.len() <= max_buffer_len(),
    ensures
        bytes_view(*final(b)) == bytes_view(*old(b)) + s@,
{
    b.extend_from_slice(s)
}

/// `BytesMut::split_to`.  Claimed: the first `at` bytes are returned and
/// the buffer keeps the rest (it panics past the end, which `requires` rules out).
#[verifier::external_body]
pub fn buf_split_to(b: &mut BytesMut, at: usize) -> (front: BytesMut)
    requires
        at <= bytes_view(*old(b)).len(),
    ensures
        bytes_view(front) == bytes_view(*old(b)).take(at as int),
        bytes_view(*final(b)) == bytes_view(*old(b)).skip(at as int),
{
    b.split_to(at)
}

/// `BytesMut::take`.  Claimed: every byte is returned and the buffer is left empty.
#[verifier::external_body]
pub fn buf_take(b: &mut BytesMut) -> (all: BytesMut)
    ensures
        bytes_view(all) == bytes_view(*old(b)),
        bytes_view(*final(b)) == Seq::<u8>::empty(),
{
    b.take()
}

/// `BytesMut::advance`.  Claimed: the first `count` bytes are dropped (it
/// panics past the end, which `requires` rules out).
#[verifier::external_body]
pub fn buf_advance(b: &mut BytesMut, count: usize)
    requires
        count <= bytes_view(*old(b)).len(),
    ensures
        bytes_view(*final(b)) == bytes_view(*old(b)).skip(count as int),
{
    b.advance(count)
}

/// `BytesMut::clear`.  Claimed: the buffer is left empty.
#[verifier::external_body]
pub fn buf_clear(b: &mut BytesMut)
    ensures
        bytes_view(*final(b)) == Seq::<u8>::empty(),
{
    b.clear()
}

/// `BytesMut::unsplit`.  Claimed: the bytes of `other` are appended.
#[verifier::external_body]
pub fn buf_unsplit(b: &mut BytesMut, other: BytesMut)
    requires
        bytes_view(*old(b)).len() + bytes_view(other).len() <= max_buffer_len(),
    ensures
        bytes_view(*final(b)) == bytes_view(*old(b)) + bytes_view(other),
{
    b.unsplit(other)
}

} // verus!
