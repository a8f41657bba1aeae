//! The byte buffer of the framed stream, `bytes::BytesMut`, as the verified
//! code sees it: a sequence of bytes, named by [`buffer_bytes`].
//!
//! Each function here makes one call into the `bytes` crate; its contract is
//! what that crate's source and documentation say of the call.

use vstd::prelude::*;
use bytes::BufMut;
use bytes::Buf;

verus! {

#[verifier::external_type_specification]
#[verifier::external_body]
pub struct ExBytesMut(bytes::BytesMut);

/// The bytes that a `BytesMut` holds, first to last.
pub uninterp spec fn buffer_bytes(b: bytes::BytesMut) -> Seq<u8>;

/// The four bytes of `n` in big-endian order, most significant first.
pub open spec fn be_u32_bytes(n: u32) -> Seq<u8> {
    seq![(n >> 24u32) as u8, ((n >> 16u32) & 0xffu32) as u8, ((n >> 8u32) & 0xffu32) as u8, (n & 0xffu32) as u8]
}

/// `BytesMut::len`: the number of bytes in the buffer.
#[verifier::external_body]
pub(crate) fn buffer_len(b: &bytes::BytesMut) -> (n: usize)
    ensures
        n == buffer_bytes(*b).len(),
{
    b.len()
}

/// `<BytesMut as Deref>::deref`: the buffer's bytes as a slice.
#[verifier::external_body]
pub(crate) fn buffer_slice(b: &bytes::BytesMut) -> (s: &[u8])
    ensures
        s@ == buffer_bytes(*b),
{
    &b[..]
}

/// `BytesMut::reserve`: makes room for `additional` more bytes; the bytes held
/// stay as they were. The crate panics when the new capacity overflows, which
/// the bound on the length leaves out.
#[verifier::external_body]
pub(crate) fn buffer_reserve(b: &mut bytes::BytesMut, additional: usize)
    requires
        buffer_bytes(*old(b)).len() + additional <= isize::MAX,
    ensures
        buffer_bytes(*final(b)) == buffer_bytes(*old(b)),
{
    b.reserve(additional)
}

/// `<BytesMut as Buf>::advance`: drops the first `cnt` bytes; it panics past
/// the end.
#[verifier::external_body]
pub(crate) fn buffer_advance(b: &mut bytes::BytesMut, cnt: usize)
    requires
        cnt <= buffer_bytes(*old(b)).len(),
    ensures
        buffer_bytes(*final(b)) == buffer_bytes(*old(b)).skip(cnt as int),
{
    b.advance(cnt)
}

/// `BytesMut::split_to`: hands out the first `at` bytes and keeps the rest;
/// it panics past the end.
#[verifier::external_body]
pub(crate) fn buffer_split_to(b: &mut bytes::BytesMut, at: usize) -> (head: bytes::BytesMut)
    requires
        at <= buffer_bytes(*old(b)).len(),
    ensures
        buffer_bytes(head) == buffer_bytes(*old(b)).take(at as int),
        buffer_bytes(*final(b)) == buffer_bytes(*old(b)).skip(at as int),
{
    b.split_to(at)
}

/// `<BytesMut as BufMut>::put_u32`: appends `n` in big-endian byte order.
#[verifier::external_body]
pub(crate) fn buffer_put_u32(b: &mut bytes::BytesMut, n: u32)
    requires
        buffer_bytes(*old(b)).len() + 4 <= isize::MAX,
    ensures
        buffer_bytes(*final(b)) == buffer_bytes(*old(b)) + be_u32_bytes(n),
{
    b.put_u32(n)
}

/// `BytesMut::extend_from_slice`: appends the bytes of `s`.
#[verifier::external_body]
pub(crate) fn buffer_extend(b: &mut bytes::BytesMut, s: &[u8])
    requires
        buffer_bytes(*old(b)).len() + s@.len() <= isize::MAX,
    ensures
        buffer_bytes(*final(b)) == buffer_bytes(*old(b)) + s@,
{
    b.extend_from_slice(s)
}

} // verus!
