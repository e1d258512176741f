//! The inline vector of `smallvec` in which an RTU decoder keeps the bytes
//! it dropped to find a frame.
//!
//! Everything in this module is trusted: each contract below restates what
//! the outside crate's source shows of the method it calls.

use vstd::prelude::*;

use smallvec::SmallVec;

verus! {

/// The bytes an RTU decoder dropped, in a `smallvec::SmallVec` that keeps
/// up to the size of a frame inline. Verus does not take a declaration of
/// `SmallVec` (its parameter is bound by the crate's `Array` trait), so the
/// vector is held in a private field that Verus does not read.
#[verifier::external_body]
#[derive(Debug, Default, PartialEq, Eq)]
pub struct DroppedBytes {
    bytes: SmallVec<[u8; 256]>,
}

/// The bytes that a `DroppedBytes` holds, in order.
pub uninterp spec fn small_vec_bytes(v: DroppedBytes) -> Seq<u8>;

/// `SmallVec::new()`: an empty vector.
#[verifier::external_body]
pub(crate) fn dropped_new() -> (v: DroppedBytes)
    ensures
        small_vec_bytes(v) == Seq::<u8>::empty(),
{
    DroppedBytes { bytes: SmallVec::new() }
}

/// `SmallVec::len`: the number of bytes held.
#[verifier::external_body]
pub(crate) fn dropped_len(v: &DroppedBytes) -> (n: usize)
    ensures
        n == small_vec_bytes(*v).len(),
{
    v.bytes.len()
}

/// `SmallVec::clear`: removes all bytes.
#[verifier::external_body]
pub(crate) fn dropped_clear(v: &mut DroppedBytes)
    ensures
        small_vec_bytes(*final(v)) == Seq::<u8>::empty(),
{
    v.bytes.clear()
}

/// `SmallVec::push`: appends a byte. Growing past the inline size moves the
/// bytes to the heap; the source panics only when the new capacity
/// overflows, far above the bound required here.
#[verifier::external_body]
pub(crate) fn dropped_push(v: &mut DroppedBytes, b: u8)
    requires
        small_vec_bytes(*old(v)).len() < 0x1_0000,
    ensures
        small_vec_bytes(*final(v)) == small_vec_bytes(*old(v)).push(b),
{
    v.bytes.push(b)
}

} // verus!
