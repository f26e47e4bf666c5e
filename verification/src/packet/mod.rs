//! Types to create, parse, and move network packets around without copying them.
//!
//! A [`Packet`] owns a [`bytes::BytesMut`] and carries the kind of packet that the buffer holds
//! as a marker type. Changing the kind of a packet never touches its bytes, except where a
//! decoder cuts trailing bytes off.

pub mod buffer;
pub mod convert;
pub mod decode;
pub mod kinds;
pub mod laws;
pub mod wg;

pub use crate::packet::decode::{DecodeError, Ipvx};
pub use crate::packet::kinds::{Ip, Ipv4, Ipv6, Tcp, Udp};
pub use crate::packet::wg::{WgCookieReply, WgData, WgHandshakeInit, WgHandshakeResp, WgKind};

use bytes::{Bytes, BytesMut};
use core::marker::PhantomData;
use core::ops::{Deref, DerefMut};
use vstd::prelude::*;

use crate::packet::buffer::{
    buffer_advance, buffer_bytes, buffer_bytes_mut, buffer_clear, buffer_clone, buffer_extend,
    buffer_fill_random, buffer_from_slice, buffer_len, buffer_resize, buffer_truncate,
    buffer_with_capacity, contents, empty_buffer,
};
use crate::packet::kinds::{ipv4_header_len, IPV4_HEADER_LEN, IPV6_HEADER_LEN, UDP_HEADER_LEN};

verus! {

/// Plain old data: a kind of packet, told by the bytes that make one.
pub trait PoD {
    /// Whether `bytes` are the bytes of a packet of this kind.
    spec fn valid(bytes: Seq<u8>) -> bool;
}

impl PoD for [u8] {
    /// Any bytes make an untyped packet.
    open spec fn valid(bytes: Seq<u8>) -> bool {
        true
    }
}

/// Gives the buffer of a packet back to its pool once the packet is dropped.
///
/// It only holds the handle that the pool made, with [`Bytes::from_owner`], of a value with a
/// destructor that takes the buffer back. A packet drops its buffer first and this after it; the
/// handle then drops its owner, and the owner finds itself the last to share the buffer.
#[derive(Debug)]
pub struct ReturnToPool {
    handle: Bytes,
}

impl ReturnToPool {
    /// Keeps the handle of a pool until the packet that it comes with is dropped.
    pub fn new(handle: Bytes) -> (return_to_pool: ReturnToPool)
        ensures
            return_to_pool.handle() == handle,
    {
        ReturnToPool { handle }
    }

    /// The handle of the pool.
    pub closed spec fn handle(&self) -> Bytes {
        self.handle
    }
}

/// An owned packet of some kind.
///
/// A `Packet<[u8]>` is an untyped packet of arbitrary bytes. The view of a packet is its bytes.
#[derive(Debug)]
pub struct Packet<Kind: ?Sized = [u8]> {
    inner: PacketInner,
    _kind: PhantomData<Kind>,
}

#[derive(Debug)]
struct PacketInner {
    buf: BytesMut,
    // Behind `buf`, so that it is dropped after it.
    return_to_pool: Option<ReturnToPool>,
}

impl<Kind: ?Sized> View for Packet<Kind> {
    type V = Seq<u8>;

    closed spec fn view(&self) -> Seq<u8> {
        contents(self.inner.buf)
    }
}

/// All that there is to know of an untyped packet.
#[verifier::ext_equal]
pub struct PacketModel {
    /// The bytes of the packet.
    pub bytes: Seq<u8>,
    /// What gives its buffer back to a pool, if it came from one.
    pub pool: Option<ReturnToPool>,
}

impl<T: PoD + ?Sized> Packet<T> {
    /// The packet's bytes make a packet of its kind.
    ///
    /// This holds of every packet but one whose buffer was changed through [`Packet::buf_mut`].
    pub open spec fn wf(&self) -> bool {
        T::valid(self@)
    }

    /// Creates a packet of kind `T` from a copy of its bytes.
    pub fn copy_from(payload: &[u8]) -> (packet: Packet<T>)
        requires
            T::valid(payload@),
        ensures
            packet@ == payload@,
            packet.pool() is None,
            packet.wf(),
    {
        Packet {
            inner: PacketInner { buf: buffer_from_slice(payload), return_to_pool: None },
            _kind: PhantomData,
        }
    }

    /// Creates a packet of kind `Y` by copying its bytes into the buffer of this packet.
    ///
    /// The buffer still goes back to the pool that it came from.
    pub fn overwrite_with<Y: PoD + ?Sized>(self, payload: &[u8]) -> (packet: Packet<Y>)
        requires
            Y::valid(payload@),
        ensures
            packet@ == payload@,
            packet.pool() == self.pool(),
            packet.wf(),
    {
        let mut inner = self.inner;
        if payload.len() <= isize::MAX as usize {
            buffer_clear(&mut inner.buf);
            buffer_extend(&mut inner.buf, payload);
        } else {
            // No slice is that long.
            inner.buf = buffer_from_slice(payload);
        }
        let packet = Packet { inner, _kind: PhantomData };
        assert(packet@ == payload@);
        packet
    }
}

impl<T: ?Sized> Packet<T> {
    /// What gives the packet's buffer back to its pool, if it came from one.
    pub closed spec fn pool(&self) -> Option<ReturnToPool> {
        self.inner.return_to_pool
    }

    /// The packet's bytes and its pool.
    pub open spec fn model(&self) -> PacketModel {
        PacketModel { bytes: self@, pool: self.pool() }
    }

    /// This packet with its bytes and its pool, taken as one of kind `Y`.
    pub closed spec fn recast<Y: ?Sized>(self) -> Packet<Y> {
        Packet { inner: self.inner, _kind: PhantomData }
    }

    /// Another kind changes neither the bytes nor the pool.
    pub proof fn lemma_recast<Y: ?Sized>(self)
        ensures
            self.recast::<Y>()@ == self@,
            self.recast::<Y>().pool() == self.pool(),
    {
    }

    /// Casts the packet to another kind without checking anything.
    fn cast<Y: ?Sized>(self) -> (packet: Packet<Y>)
        ensures
            packet == self.recast::<Y>(),
            packet@ == self@,
            packet.pool() == self.pool(),
    {
        Packet { inner: self.inner, _kind: PhantomData }
    }

    /// Discards the kind of this packet and treats it as a pile of bytes.
    pub fn into_bytes(self) -> (packet: Packet<[u8]>)
        ensures
            packet@ == self@,
            packet.pool() == self.pool(),
    {
        self.cast()
    }

    /// The bytes of the packet.
    pub fn as_bytes(&self) -> (bytes: &[u8])
        ensures
            bytes@ == self@,
    {
        buffer_bytes(&self.inner.buf)
    }

    /// How many bytes the packet has.
    pub fn len(&self) -> (len: usize)
        ensures
            len == self@.len(),
    {
        buffer_len(&self.inner.buf)
    }

    /// Whether the packet has no bytes.
    pub fn is_empty(&self) -> (b: bool)
        ensures
            b == (self@.len() == 0),
    {
        buffer_len(&self.inner.buf) == 0
    }

    /// Gets direct mutable access to the backing buffer.
    pub fn buf_mut(&mut self) -> (buf: &mut BytesMut)
        ensures
            contents(*buf) == old(self)@,
            final(self)@ == contents(*final(buf)),
            final(self).pool() == old(self).pool(),
    {
        &mut self.inner.buf
    }

    /// What gives the packet's buffer back to its pool, if it came from one.
    pub fn return_to_pool(&self) -> (return_to_pool: Option<&ReturnToPool>)
        ensures
            match return_to_pool {
                Some(r) => self.pool() == Some(*r),
                None => self.pool() is None,
            },
    {
        self.inner.return_to_pool.as_ref()
    }
}

impl<Kind: ?Sized> Clone for Packet<Kind> {
    /// Copies the packet into a buffer of its own, which goes back to no pool.
    fn clone(&self) -> (packet: Self)
        ensures
            packet@ == self@,
            packet.pool() is None,
    {
        Packet {
            inner: PacketInner { buf: buffer_clone(&self.inner.buf), return_to_pool: None },
            _kind: PhantomData,
        }
    }
}

impl Default for Packet<[u8]> {
    /// An empty packet.
    fn default() -> (packet: Self)
        ensures
            packet@ == Seq::<u8>::empty(),
            packet.pool() is None,
    {
        Packet {
            inner: PacketInner { buf: empty_buffer(), return_to_pool: None },
            _kind: PhantomData,
        }
    }
}

impl Packet<[u8]> {
    /// Creates a packet from a pool. Its buffer goes back to the pool when the packet is dropped.
    pub fn new_from_pool(return_to_pool: ReturnToPool, bytes: BytesMut) -> (packet: Packet)
        ensures
            packet@ == contents(bytes),
            packet.pool() == Some(return_to_pool),
    {
        Packet {
            inner: PacketInner { buf: bytes, return_to_pool: Some(return_to_pool) },
            _kind: PhantomData,
        }
    }

    /// Creates an untyped packet from a buffer.
    pub fn from_bytes(bytes: BytesMut) -> (packet: Packet)
        ensures
            packet@ == contents(bytes),
            packet.pool() is None,
    {
        Packet { inner: PacketInner { buf: bytes, return_to_pool: None }, _kind: PhantomData }
    }

    /// Keeps the first `new_len` bytes of the packet, or all of them where there are no more.
    pub fn truncate(&mut self, new_len: usize)
        ensures
            final(self)@ == (if new_len <= old(self)@.len() {
                old(self)@.take(new_len as int)
            } else {
                old(self)@
            }),
            final(self).pool() == old(self).pool(),
    {
        buffer_truncate(&mut self.inner.buf, new_len);
    }

    /// Cuts the packet to `new_len` bytes, or fills it up to them with `value`.
    pub(crate) fn resize(&mut self, new_len: usize, value: u8)
        requires
            new_len <= old(self)@.len() || new_len <= isize::MAX,
        ensures
            final(self)@ == Seq::new(
                new_len as nat,
                |i: int|
                    if i < old(self)@.len() {
                        old(self)@[i]
                    } else {
                        value
                    },
            ),
            final(self).pool() == old(self).pool(),
    {
        buffer_resize(&mut self.inner.buf, new_len, value);
    }

    /// Strips the first `n` bytes from the packet, such as padding in front of it.
    pub fn slice_from(self, n: usize) -> (packet: Packet)
        requires
            n <= self@.len(),
        ensures
            packet@ == self@.skip(n as int),
            packet.pool() == self.pool(),
    {
        let mut inner = self.inner;
        buffer_advance(&mut inner.buf, n);
        Packet { inner, _kind: PhantomData }
    }

    /// Prepends `n` random bytes to the packet, as padding.
    ///
    /// The padded packet has a buffer of its own, which goes back to no pool. Without padding the
    /// packet comes back as it is.
    pub fn prepend_random(self, n: usize) -> (packet: Packet)
        requires
            n > 0 ==> n + self@.len() <= isize::MAX,
        ensures
            packet@.len() == n + self@.len(),
            packet@.skip(n as int) == self@,
            n == 0 ==> packet == self,
            n > 0 ==> packet.pool() is None,
    {
        if n == 0 {
            assert(self@.skip(0) == self@);
            return self;
        }
        let mut buf = buffer_with_capacity(n + buffer_len(&self.inner.buf));
        buffer_resize(&mut buf, n, 0);
        buffer_fill_random(&mut buf);
        let ghost padding = contents(buf);
        buffer_extend(&mut buf, buffer_bytes(&self.inner.buf));
        assert((padding + self@).skip(n as int) == self@);
        Packet::from_bytes(buf)
    }
}

impl AsRef<[u8]> for Packet<[u8]> {
    fn as_ref(&self) -> (bytes: &[u8])
        ensures
            bytes@ == self@,
    {
        buffer_bytes(&self.inner.buf)
    }
}

impl Deref for Packet<[u8]> {
    type Target = [u8];

    fn deref(&self) -> (bytes: &[u8])
        ensures
            bytes@ == self@,
    {
        buffer_bytes(&self.inner.buf)
    }
}

impl DerefMut for Packet<[u8]> {
    fn deref_mut(&mut self) -> (bytes: &mut [u8])
        ensures
            bytes@ == old(self)@,
            final(self)@ == final(bytes)@,
            final(self).pool() == old(self).pool(),
    {
        buffer_bytes_mut(&mut self.inner.buf)
    }
}

impl<T: PoD + ?Sized> Packet<Ipv4<T>> {
    /// Strips the IPv4 header and returns the payload.
    pub fn into_payload(self) -> (packet: Packet<T>)
        requires
            self.wf(),
            ipv4_header_len(self@) == IPV4_HEADER_LEN,
        ensures
            packet@ == self@.skip(IPV4_HEADER_LEN as int),
            packet.pool() == self.pool(),
            packet.wf(),
    {
        let mut inner = self.inner;
        buffer_advance(&mut inner.buf, IPV4_HEADER_LEN);
        Packet { inner, _kind: PhantomData }
    }
}

impl<T: PoD + ?Sized> Packet<Ipv6<T>> {
    /// Strips the IPv6 header and returns the payload.
    pub fn into_payload(self) -> (packet: Packet<T>)
        requires
            self.wf(),
        ensures
            packet@ == self@.skip(IPV6_HEADER_LEN as int),
            packet.pool() == self.pool(),
            packet.wf(),
    {
        let mut inner = self.inner;
        buffer_advance(&mut inner.buf, IPV6_HEADER_LEN);
        Packet { inner, _kind: PhantomData }
    }
}

impl<T: PoD + ?Sized> Packet<Udp<T>> {
    /// Strips the UDP header and returns the payload.
    pub fn into_payload(self) -> (packet: Packet<T>)
        requires
            self.wf(),
        ensures
            packet@ == self@.skip(UDP_HEADER_LEN as int),
            packet.pool() == self.pool(),
            packet.wf(),
    {
        let mut inner = self.inner;
        buffer_advance(&mut inner.buf, UDP_HEADER_LEN);
        Packet { inner, _kind: PhantomData }
    }
}

} // verus!
