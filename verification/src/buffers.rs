//! The byte buffers of the `bytes` crate and the big-endian reads of
//! `byteorder`, as the codecs use them.
//!
//! Everything in this module is trusted: each contract below restates what
//! the outside crate's source shows of the function it calls.

use vstd::prelude::*;

use byteorder::{BigEndian, ByteOrder};
use bytes::{Buf, BufMut, Bytes, BytesMut};

verus! {

/// `bytes::Bytes`, an immutable, cheaply cloneable byte buffer.
#[verifier::external_type_specification]
#[verifier::external_body]
pub struct ExBytes(Bytes);

/// `bytes::BytesMut`, a growable byte buffer.
#[verifier::external_type_specification]
#[verifier::external_body]
pub struct ExBytesMut(BytesMut);

/// The bytes that a `Bytes` holds, in order.
pub uninterp spec fn bytes_view(b: Bytes) -> Seq<u8>;

/// The bytes that a `BytesMut` holds, in order.
pub uninterp spec fn bytes_mut_view(b: BytesMut) -> Seq<u8>;

/// The largest number of bytes a `BytesMut` can hold (`isize::MAX`).
pub open spec fn max_buffer_len() -> nat {
    isize::MAX as nat
}

/// Whether `n` more bytes fit into `b`.
pub open spec fn has_room(b: BytesMut, n: nat) -> bool {
    bytes_mut_view(b).len() + n <= max_buffer_len()
}

/// `<Bytes as Clone>::clone`: another handle to the same bytes.
pub assume_specification[ <Bytes as Clone>::clone ](b: &Bytes) -> (r: Bytes)
    ensures
        bytes_view(r) == bytes_view(*b),
;

/// `<Result<T, E> as Clone>::clone`: nothing is stated of the copy, since
/// it rests on the clones of `T` and `E`.
pub assume_specification<T: Clone, E: Clone>[ <std::result::Result<T, E> as Clone>::clone ](
    r: &std::result::Result<T, E>,
) -> std::result::Result<T, E>;

/// `<Bytes as AsRef<[u8]>>::as_ref`: the bytes of the buffer as a slice.
#[verifier::external_body]
pub(crate) fn bytes_as_slice(b: &Bytes) -> (s: &[u8])
    ensures
        s@ == bytes_view(*b),
{
    b.as_ref()
}

/// `Bytes::slice(start..end)`: a buffer holding the bytes from `start` up
/// to `end`; the source panics unless `start <= end <= len`.
#[verifier::external_body]
pub(crate) fn bytes_slice(b: &Bytes, start: usize, end: usize) -> (r: Bytes)
    requires
        start <= end <= bytes_view(*b).len(),
    ensures
        bytes_view(r) == bytes_view(*b).subrange(start as int, end as int),
{
    b.slice(start..end)
}

/// `BytesMut::new()`: an empty buffer.
#[verifier::external_body]
pub(crate) fn bytes_mut_new() -> (b: BytesMut)
    ensures
        bytes_mut_view(b) == Seq::<u8>::empty(),
{
    BytesMut::new()
}

/// `<BytesMut as AsRef<[u8]>>::as_ref`: the bytes of the buffer as a slice.
#[verifier::external_body]
pub(crate) fn bytes_mut_as_slice(b: &BytesMut) -> (s: &[u8])
    ensures
        s@ == bytes_mut_view(*b),
{
    b.as_ref()
}

/// `BufMut::put_u8` on a `BytesMut`: appends one byte.
#[verifier::external_body]
pub(crate) fn put_u8(buf: &mut BytesMut, n: u8)
    requires
        has_room(*old(buf), 1),
    ensures
        bytes_mut_view(*final(buf)) == bytes_mut_view(*old(buf)).push(n),
{
    buf.put_u8(n)
}

/// `BufMut::put_u16` on a `BytesMut`: appends the two bytes of `n` in
/// big-endian order.
#[verifier::external_body]
pub(crate) fn put_u16(buf: &mut BytesMut, n: u16)
    requires
        has_room(*old(buf), 2),
    ensures
        bytes_mut_view(*final(buf)) == bytes_mut_view(*old(buf)).push((n / 256) as u8).push(
            (n % 256) as u8,
        ),
{
    buf.put_u16(n)
}

/// `BufMut::put_slice` on a `BytesMut`: appends the bytes of `s`.
#[verifier::external_body]
pub(crate) fn put_slice(buf: &mut BytesMut, s: &[u8])
    requires
        has_room(*old(buf), s@.len()),
    ensures
        bytes_mut_view(*final(buf)) == bytes_mut_view(*old(buf)) + s@,
{
    buf.put_slice(s)
}

/// `BytesMut::freeze`: the same bytes as an immutable buffer.
#[verifier::external_body]
pub(crate) fn freeze(buf: BytesMut) -> (b: Bytes)
    ensures
        bytes_view(b) == bytes_mut_view(buf),
{
    buf.freeze()
}

/// `BytesMut::split_to(at)`: removes the first `at` bytes from the buffer
/// and returns them; the source panics unless `at <= len`.
#[verifier::external_body]
pub(crate) fn split_to(buf: &mut BytesMut, at: usize) -> (head: BytesMut)
    requires
        at <= bytes_mut_view(*old(buf)).len(),
    ensures
        bytes_mut_view(head) == bytes_mut_view(*old(buf)).subrange(0, at as int),
        bytes_mut_view(*final(buf)) == bytes_mut_view(*old(buf)).subrange(
            at as int,
            bytes_mut_view(*old(buf)).len() as int,
        ),
{
    buf.split_to(at)
}

/// `Buf::advance(cnt)` on a `BytesMut`: drops the first `cnt` bytes; the
/// source panics unless `cnt <= len`.
#[verifier::external_body]
pub(crate) fn advance(buf: &mut BytesMut, cnt: usize)
    requires
        cnt <= bytes_mut_view(*old(buf)).len(),
    ensures
        bytes_mut_view(*final(buf)) == bytes_mut_view(*old(buf)).subrange(
            cnt as int,
            bytes_mut_view(*old(buf)).len() as int,
        ),
{
    buf.advance(cnt)
}

/// `ByteOrder::read_u16` of `BigEndian` on the bytes from `pos` on: the
/// number whose high byte is `buf[pos]` and whose low byte is `buf[pos + 1]`;
/// the source panics when fewer than two bytes are left.
#[verifier::external_body]
pub(crate) fn read_u16_be(buf: &[u8], pos: usize) -> (n: u16)
    requires
        pos + 2 <= buf@.len(),
    ensures
        n as int == buf@[pos as int] * 256 + buf@[pos + 1],
{
    BigEndian::read_u16(&buf[pos..])
}

} // verus!
