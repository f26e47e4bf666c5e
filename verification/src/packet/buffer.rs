//! The growable byte buffer that backs every packet: [`bytes::BytesMut`].
//!
//! Nothing in this file is proved. Each function hands one call to `bytes` and states what that
//! call does to the bytes that the buffer holds. Growing a buffer can exhaust the memory or the
//! address space of the machine; that is not covered here, as it is not for any other growing
//! container.

use bytes::{Buf, Bytes, BytesMut};
use rand::Rng;
use vstd::prelude::*;

verus! {

/// The buffer type of the crate `bytes`.
#[verifier::external_type_specification]
#[verifier::external_body]
pub struct ExBytesMut(BytesMut);

/// The shared handle type of the crate `bytes`. Only carried through: it drops what it was made of
/// when it is dropped itself.
#[verifier::external_type_specification]
#[verifier::external_body]
pub struct ExBytes(Bytes);

/// The bytes that a buffer holds, first to last.
pub uninterp spec fn contents(buf: BytesMut) -> Seq<u8>;

/// `BytesMut::new`: a buffer that holds nothing.
#[verifier::external_body]
pub(crate) fn empty_buffer() -> (buf: BytesMut)
    ensures
        contents(buf) == Seq::<u8>::empty(),
{
    BytesMut::new()
}

/// `BytesMut::with_capacity`: a buffer that holds nothing, with room for `capacity` bytes. A
/// capacity beyond `isize::MAX` panics.
#[verifier::external_body]
pub(crate) fn buffer_with_capacity(capacity: usize) -> (buf: BytesMut)
    requires
        capacity <= isize::MAX,
    ensures
        contents(buf) == Seq::<u8>::empty(),
{
    BytesMut::with_capacity(capacity)
}

/// `BytesMut::from`, of a slice: a buffer that holds a copy of the slice's bytes.
#[verifier::external_body]
pub(crate) fn buffer_from_slice(bytes: &[u8]) -> (buf: BytesMut)
    ensures
        contents(buf) == bytes@,
{
    BytesMut::from(bytes)
}

/// `BytesMut::as_ref`: the bytes of the buffer as a slice.
#[verifier::external_body]
pub(crate) fn buffer_bytes(buf: &BytesMut) -> (bytes: &[u8])
    ensures
        bytes@ == contents(*buf),
{
    buf.as_ref()
}

/// `BytesMut::as_mut`: the bytes of the buffer as a slice that can be written to. The buffer then
/// holds what the slice was made to hold.
#[verifier::external_body]
pub(crate) fn buffer_bytes_mut(buf: &mut BytesMut) -> (bytes: &mut [u8])
    ensures
        bytes@ == contents(*old(buf)),
        contents(*final(buf)) == final(bytes)@,
{
    buf.as_mut()
}

/// `BytesMut::len`: how many bytes the buffer holds.
#[verifier::external_body]
pub(crate) fn buffer_len(buf: &BytesMut) -> (len: usize)
    ensures
        len == contents(*buf).len(),
{
    buf.len()
}

/// `BytesMut::clear`: drops all bytes.
#[verifier::external_body]
pub(crate) fn buffer_clear(buf: &mut BytesMut)
    ensures
        contents(*final(buf)) == Seq::<u8>::empty(),
{
    buf.clear()
}

/// `BytesMut::truncate`: keeps the first `len` bytes, or all of them where there are no more.
#[verifier::external_body]
pub(crate) fn buffer_truncate(buf: &mut BytesMut, len: usize)
    ensures
        contents(*final(buf)) == (if len <= contents(*old(buf)).len() {
            contents(*old(buf)).take(len as int)
        } else {
            contents(*old(buf))
        }),
{
    buf.truncate(len)
}

/// `Buf::advance`: drops the first `count` bytes. More than there are panics.
#[verifier::external_body]
pub(crate) fn buffer_advance(buf: &mut BytesMut, count: usize)
    requires
        count <= contents(*old(buf)).len(),
    ensures
        contents(*final(buf)) == contents(*old(buf)).skip(count as int),
{
    buf.advance(count)
}

/// `BytesMut::resize`: cuts the buffer to `len` bytes, or fills it up to them with `value`.
#[verifier::external_body]
pub(crate) fn buffer_resize(buf: &mut BytesMut, len: usize, value: u8)
    requires
        len <= contents(*old(buf)).len() || len <= isize::MAX,
    ensures
        contents(*final(buf)) == Seq::new(
            len as nat,
            |i: int|
                if i < contents(*old(buf)).len() {
                    contents(*old(buf))[i]
                } else {
                    value
                },
        ),
{
    buf.resize(len, value)
}

/// `BytesMut::extend_from_slice`: appends a copy of the slice's bytes.
#[verifier::external_body]
pub(crate) fn buffer_extend(buf: &mut BytesMut, bytes: &[u8])
    requires
        contents(*old(buf)).len() + bytes@.len() <= isize::MAX,
    ensures
        contents(*final(buf)) == contents(*old(buf)) + bytes@,
{
    buf.extend_from_slice(bytes)
}

/// `BytesMut::clone`: a buffer of its own that holds the same bytes.
#[verifier::external_body]
pub(crate) fn buffer_clone(buf: &BytesMut) -> (copy: BytesMut)
    ensures
        contents(copy) == contents(*buf),
{
    buf.clone()
}

/// `rand::Rng::fill`, by the generator of the thread: overwrites all bytes of the buffer with
/// random ones. Which bytes come is left to chance; how many there are stays.
#[verifier::external_body]
pub(crate) fn buffer_fill_random(buf: &mut BytesMut)
    ensures
        contents(*final(buf)).len() == contents(*old(buf)).len(),
{
    rand::rng().fill(&mut buf[..])
}

} // verus!
