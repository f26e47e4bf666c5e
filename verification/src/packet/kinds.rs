//! The kinds of packets and the header fields that tell them apart.
//!
//! Every kind is a type without values: a [`Packet`](crate::packet::Packet) carries it as a
//! marker, and its [`PoD`] impl says which bytes make a packet of that kind. Multi-byte fields
//! of IP, UDP and TCP headers are big-endian.

use core::marker::PhantomData;
use vstd::prelude::*;

use crate::packet::PoD;

verus! {

/// Length of an IPv4 header without options, in bytes.
pub const IPV4_HEADER_LEN: usize = 20;

/// Length of an IPv6 header, in bytes.
pub const IPV6_HEADER_LEN: usize = 40;

/// Length of a UDP header, in bytes.
pub const UDP_HEADER_LEN: usize = 8;

/// Length of a TCP header without options, in bytes.
pub const TCP_HEADER_LEN: usize = 20;

/// IP protocol number of TCP.
pub const PROTOCOL_TCP: u8 = 6;

/// IP protocol number of UDP.
pub const PROTOCOL_UDP: u8 = 17;

/// An IP packet of either version.
#[derive(Debug)]
pub struct Ip;

/// An IPv4 packet with a payload of kind `T` behind a header of 20 bytes.
#[derive(Debug)]
pub struct Ipv4<T: ?Sized = [u8]> {
    _payload: PhantomData<T>,
}

/// An IPv6 packet with a payload of kind `T`.
#[derive(Debug)]
pub struct Ipv6<T: ?Sized = [u8]> {
    _payload: PhantomData<T>,
}

/// A UDP datagram with a payload of kind `T`.
#[derive(Debug)]
pub struct Udp<T: ?Sized = [u8]> {
    _payload: PhantomData<T>,
}

/// A TCP segment.
#[derive(Debug)]
pub struct Tcp;

impl PoD for Ip {
    /// The shortest IP header is that of IPv4.
    open spec fn valid(bytes: Seq<u8>) -> bool {
        IPV4_HEADER_LEN <= bytes.len()
    }
}

impl<T: PoD + ?Sized> PoD for Ipv4<T> {
    open spec fn valid(bytes: Seq<u8>) -> bool {
        &&& IPV4_HEADER_LEN <= bytes.len()
        &&& T::valid(bytes.skip(IPV4_HEADER_LEN as int))
    }
}

impl<T: PoD + ?Sized> PoD for Ipv6<T> {
    open spec fn valid(bytes: Seq<u8>) -> bool {
        &&& IPV6_HEADER_LEN <= bytes.len()
        &&& T::valid(bytes.skip(IPV6_HEADER_LEN as int))
    }
}

impl<T: PoD + ?Sized> PoD for Udp<T> {
    open spec fn valid(bytes: Seq<u8>) -> bool {
        &&& UDP_HEADER_LEN <= bytes.len()
        &&& T::valid(bytes.skip(UDP_HEADER_LEN as int))
    }
}

impl PoD for Tcp {
    open spec fn valid(bytes: Seq<u8>) -> bool {
        TCP_HEADER_LEN <= bytes.len()
    }
}

/// The two bytes at `i` as one big-endian number.
pub open spec fn be16(bytes: Seq<u8>, i: int) -> int {
    bytes[i] * 256 + bytes[i + 1]
}

/// Reads the two bytes at `i` as one big-endian number.
pub fn read_be16(bytes: &[u8], i: usize) -> (n: u16)
    requires
        i + 1 < bytes@.len(),
    ensures
        n == be16(bytes@, i as int),
{
    bytes[i] as u16 * 256 + bytes[i + 1] as u16
}

/// The four bytes at `i` as one little-endian number.
pub open spec fn le32(bytes: Seq<u8>, i: int) -> int {
    bytes[i] + bytes[i + 1] * 0x100 + bytes[i + 2] * 0x1_0000 + bytes[i + 3] * 0x100_0000
}

/// Reads the four bytes at `i` as one little-endian number.
pub fn read_le32(bytes: &[u8], i: usize) -> (n: u32)
    requires
        i + 3 < bytes@.len(),
    ensures
        n == le32(bytes@, i as int),
{
    bytes[i] as u32 + bytes[i + 1] as u32 * 0x100 + bytes[i + 2] as u32 * 0x1_0000 + bytes[i
        + 3] as u32 * 0x100_0000
}

/// The version field of an IP header: the upper half of its first byte.
pub open spec fn ip_version(bytes: Seq<u8>) -> u8 {
    bytes[0] / 16
}

/// The header length of an IPv4 packet in bytes, as its `IHL` field gives it.
pub open spec fn ipv4_header_len(bytes: Seq<u8>) -> int {
    bytes[0] % 16 * 4
}

/// The total length of an IPv4 packet, as its header gives it.
pub open spec fn ipv4_total_len(bytes: Seq<u8>) -> int {
    be16(bytes, 2)
}

/// Whether an IPv4 packet is a fragment of a larger one: more fragments follow it, or it does
/// not start at the beginning. These are the low 14 bits of the field that starts at byte 6.
pub open spec fn ipv4_is_fragment(bytes: Seq<u8>) -> bool {
    be16(bytes, 6) % 0x4000 != 0
}

/// The protocol of an IPv4 packet's payload.
pub open spec fn ipv4_protocol(bytes: Seq<u8>) -> u8 {
    bytes[9]
}

/// The length of an IPv6 packet's payload, as its header gives it.
pub open spec fn ipv6_payload_len(bytes: Seq<u8>) -> int {
    be16(bytes, 4)
}

/// The protocol of an IPv6 packet's payload.
pub open spec fn ipv6_protocol(bytes: Seq<u8>) -> u8 {
    bytes[6]
}

/// The length of a UDP datagram with its header, as the header gives it.
pub open spec fn udp_len(bytes: Seq<u8>) -> int {
    be16(bytes, 4)
}

/// The header length of a TCP segment in bytes, as its data offset field gives it.
pub open spec fn tcp_header_len(bytes: Seq<u8>) -> int {
    bytes[12] / 16 * 4
}

} // verus!
