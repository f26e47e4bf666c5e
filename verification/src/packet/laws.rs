//! What the decoders do, told by the bytes of the packets alone.
//!
//! Bytes are counted from zero, and lengths and protocol numbers are those of the protocols.

use vstd::prelude::*;

use crate::packet::convert::{ip_version_error, ip_version_result};
use crate::packet::decode::{
    cast_result, ip_error, ipv4_payload_error, ipv6_payload_error, ipvx_error, ipvx_len,
    ipvx_result, tcp_error, udp_error, DecodeError, Ipvx,
};
use crate::packet::kinds::{
    be16, ip_version, ipv4_header_len, le32, Ip, Ipv4, Ipv6, Tcp, Udp, IPV4_HEADER_LEN,
    IPV6_HEADER_LEN, PROTOCOL_TCP, PROTOCOL_UDP, TCP_HEADER_LEN, UDP_HEADER_LEN,
};
use crate::packet::wg::{
    data_is_keepalive, data_receiver_idx, WgCookieReply, WgData, WgHandshakeInit, WgHandshakeResp,
    COOKIE_REPLY_LEN, DATA_OVERHEAD, HANDSHAKE_INIT_LEN, HANDSHAKE_RESP_LEN,
};
use crate::packet::{Packet, PoD};

verus! {

/// The first half of an IP header says which version it is of: 4 for IPv4 and 6 for IPv6.
pub open spec fn starts_as_ipv4(bytes: Seq<u8>) -> bool {
    bytes.len() >= 20 && 0x40 <= bytes[0] <= 0x4f
}

/// See [`starts_as_ipv4`].
pub open spec fn starts_as_ipv6(bytes: Seq<u8>) -> bool {
    bytes.len() >= 20 && 0x60 <= bytes[0] <= 0x6f
}

/// Two bytes make a number with the first as its high half, and four make one with the first as its
/// lowest quarter.
pub proof fn law_byte_order(bytes: Seq<u8>, i: int)
    ensures
        be16(bytes, i) == 256 * bytes[i] + bytes[i + 1],
        le32(bytes, i) == bytes[i] + 256 * (bytes[i + 1] + 256 * (bytes[i + 2] + 256 * bytes[i
            + 3])),
{
}

/// What is shorter than 20 bytes is no IP packet, and nothing else is refused as one.
pub proof fn law_ip_packets_have_a_header(bytes: Seq<u8>)
    ensures
        bytes.len() < 20 <==> ip_error(bytes) == Some(DecodeError::TooShort),
        bytes.len() >= 20 <==> ip_error(bytes) is None,
        bytes.len() < 20 ==> ipvx_error(bytes) == Some(DecodeError::TooShort),
{
}

/// An IPv4 packet is as long as the two bytes behind its first two say. It is accepted where that
/// is no less than a header and no more than there is, and cut to exactly that length: one that has
/// its length keeps all its bytes.
pub proof fn law_ipv4_length(bytes: Seq<u8>)
    requires
        starts_as_ipv4(bytes),
    ensures
        ({
            let total = 256 * bytes[2] + bytes[3];
            &&& 20 <= total <= bytes.len() ==> ipvx_error(bytes) is None
            &&& !(20 <= total <= bytes.len()) ==> ipvx_error(bytes) == Some(
                DecodeError::BadIpLength,
            )
            &&& ipvx_len(bytes) == total
            &&& total == bytes.len() ==> bytes.take(ipvx_len(bytes)) == bytes
        }),
{
    let total = 256 * bytes[2] + bytes[3];
    if total == bytes.len() {
        assert(bytes.take(ipvx_len(bytes)) == bytes);
    }
}

/// An IPv6 packet is 40 bytes longer than the two bytes behind its first four say. It is accepted
/// where that is no more than there is, and cut to exactly that length.
pub proof fn law_ipv6_length(bytes: Seq<u8>)
    requires
        starts_as_ipv6(bytes),
    ensures
        ({
            let total = 40 + 256 * bytes[4] + bytes[5];
            &&& bytes.len() < 40 ==> ipvx_error(bytes) == Some(DecodeError::TooShort)
            &&& total <= bytes.len() ==> ipvx_error(bytes) is None
            &&& 40 <= bytes.len() < total ==> ipvx_error(bytes) == Some(DecodeError::BadIpLength)
            &&& ipvx_len(bytes) == total
            &&& total == bytes.len() ==> bytes.take(ipvx_len(bytes)) == bytes
        }),
{
    let total = 40 + 256 * bytes[4] + bytes[5];
    if total == bytes.len() {
        assert(bytes.take(ipvx_len(bytes)) == bytes);
    }
}

/// Packets of any other version are refused, with their version.
pub proof fn law_other_versions_are_refused(bytes: Seq<u8>)
    requires
        bytes.len() >= 20,
    ensures
        !starts_as_ipv4(bytes) && !starts_as_ipv6(bytes) <==> ipvx_error(bytes) is Some
            && ipvx_error(bytes)->0 is BadVersion,
        ipvx_error(bytes) matches Some(DecodeError::BadVersion(v)) ==> 16 * v <= bytes[0] < 16 * v
            + 16,
        starts_as_ipv4(bytes) <==> ip_version(bytes) == 4,
        starts_as_ipv6(bytes) <==> ip_version(bytes) == 6,
{
}

/// What the decoder gives for a packet: a packet of the version that its first byte names, with the
/// first bytes of the packet up to its length and its way back to the pool.
pub proof fn law_decoded_packet<T: ?Sized>(packet: Packet<T>, result: Result<Ipvx, DecodeError>)
    requires
        ipvx_result(packet, result),
    ensures
        ({
            let total4 = 256 * packet@[2] + packet@[3];
            let total6 = 40 + 256 * packet@[4] + packet@[5];
            &&& result is Ok && result->Ok_0 is V4 <==> starts_as_ipv4(packet@) && 20 <= total4
                <= packet@.len()
            &&& result is Ok && result->Ok_0 is V6 <==> starts_as_ipv6(packet@) && total6
                <= packet@.len()
            &&& result matches Ok(Ipvx::V4(p)) ==> p@ == packet@.subrange(0, total4) && p.pool()
                == packet.pool()
            &&& result matches Ok(Ipvx::V6(p)) ==> p@ == packet@.subrange(0, total6) && p.pool()
                == packet.pool()
            &&& result matches Err(e) ==> ipvx_error(packet@) == Some(e)
        }),
{
}

/// What asking for one version of IP gives: the same packet where it is of that version, and an
/// error where it is of the other.
pub proof fn law_asked_for_version<T: ?Sized>(
    packet: Packet<T>,
    four: Result<Packet<Ipv4>, DecodeError>,
    six: Result<Packet<Ipv6>, DecodeError>,
)
    requires
        ip_version_result(packet, ip_version_error(packet@, 4), four),
        ip_version_result(packet, ip_version_error(packet@, 6), six),
    ensures
        ({
            let total4 = 256 * packet@[2] + packet@[3];
            let total6 = 40 + 256 * packet@[4] + packet@[5];
            &&& four is Ok <==> starts_as_ipv4(packet@) && 20 <= total4 <= packet@.len()
            &&& six is Ok <==> starts_as_ipv6(packet@) && total6 <= packet@.len()
            &&& four matches Ok(p) ==> {
                &&& p@ == packet@.subrange(0, total4)
                &&& p.pool() == packet.pool()
                &&& six == Err::<Packet<Ipv6>, _>(DecodeError::OtherVersion)
            }
            &&& six matches Ok(p) ==> {
                &&& p@ == packet@.subrange(0, total6)
                &&& p.pool() == packet.pool()
                &&& four == Err::<Packet<Ipv4>, _>(DecodeError::OtherVersion)
            }
            &&& four is Err && six is Err ==> four->Err_0 == six->Err_0 && ipvx_error(packet@)
                == Some(four->Err_0)
        }),
{
}

/// A datagram has a header of 8 bytes, and the length that the two bytes behind its first four say.
pub proof fn law_udp_datagrams(payload: Seq<u8>)
    ensures
        udp_error(payload) is None <==> payload.len() >= 8 && 256 * payload[4] + payload[5]
            == payload.len(),
        udp_error(payload) == Some(DecodeError::TooShort) <==> payload.len() < 8,
        udp_error(payload) is None || udp_error(payload) == Some(DecodeError::TooShort)
            || udp_error(payload) == Some(DecodeError::BadUdpLength),
{
}

/// A segment has a header of at least 20 bytes, whose length in words of four bytes is the high
/// half of its thirteenth byte and does not exceed the segment.
pub proof fn law_tcp_segments(payload: Seq<u8>)
    ensures
        tcp_error(payload) is None <==> payload.len() >= 20 && 20 <= 4 * (payload[12] / 16)
            <= payload.len(),
        tcp_error(payload) == Some(DecodeError::TooShort) <==> payload.len() < 20,
        tcp_error(payload) is None || tcp_error(payload) == Some(DecodeError::TooShort)
            || tcp_error(payload) == Some(DecodeError::BadDataOffset),
{
}

/// The payload of an IPv4 packet is looked at only where its tenth byte names the protocol and the
/// packet is whole: no more fragments follow it, and it starts at the beginning.
pub proof fn law_ipv4_payload(bytes: Seq<u8>, protocol: u8, inner: Option<DecodeError>)
    requires
        bytes.len() >= 20,
    ensures
        ({
            let whole = bytes[6] % 64 == 0 && bytes[7] == 0;
            let error = ipv4_payload_error(bytes, protocol, inner);
            &&& bytes[9] != protocol ==> error == Some(DecodeError::WrongProtocol)
            &&& bytes[9] == protocol && !whole ==> error == Some(DecodeError::Fragment)
            &&& bytes[9] == protocol && whole ==> error == inner
        }),
{
}

/// The payload of an IPv6 packet is looked at only where its seventh byte names the protocol.
pub proof fn law_ipv6_payload(bytes: Seq<u8>, protocol: u8, inner: Option<DecodeError>)
    requires
        bytes.len() >= 40,
    ensures
        ({
            let error = ipv6_payload_error(bytes, protocol, inner);
            &&& bytes[6] != protocol ==> error == Some(DecodeError::WrongProtocol)
            &&& bytes[6] == protocol ==> error == inner
        }),
{
}

/// Which IPv4 packets carry a datagram or a segment, told by their bytes.
pub proof fn law_ipv4_carries(bytes: Seq<u8>)
    requires
        bytes.len() >= 20,
    ensures
        ({
            let whole = bytes[6] % 64 == 0 && bytes[7] == 0;
            let payload = bytes.skip(IPV4_HEADER_LEN as int);
            &&& ipv4_payload_error(bytes, PROTOCOL_UDP, udp_error(payload)) is None <==> {
                &&& bytes[9] == 17
                &&& whole
                &&& bytes.len() >= 28
                &&& 256 * bytes[24] + bytes[25] == bytes.len() - 20
            }
            &&& ipv4_payload_error(bytes, PROTOCOL_TCP, tcp_error(payload)) is None <==> {
                &&& bytes[9] == 6
                &&& whole
                &&& bytes.len() >= 40
                &&& 20 <= 4 * (bytes[32] / 16) <= bytes.len() - 20
            }
        }),
{
    let payload = bytes.skip(IPV4_HEADER_LEN as int);
    law_udp_datagrams(payload);
    law_tcp_segments(payload);
}

/// Which IPv6 packets carry a datagram or a segment, told by their bytes.
pub proof fn law_ipv6_carries(bytes: Seq<u8>)
    requires
        bytes.len() >= 40,
    ensures
        ({
            let payload = bytes.skip(IPV6_HEADER_LEN as int);
            &&& ipv6_payload_error(bytes, PROTOCOL_UDP, udp_error(payload)) is None <==> {
                &&& bytes[6] == 17
                &&& bytes.len() >= 48
                &&& 256 * bytes[44] + bytes[45] == bytes.len() - 40
            }
            &&& ipv6_payload_error(bytes, PROTOCOL_TCP, tcp_error(payload)) is None <==> {
                &&& bytes[6] == 6
                &&& bytes.len() >= 60
                &&& 20 <= 4 * (bytes[52] / 16) <= bytes.len() - 40
            }
        }),
{
    let payload = bytes.skip(IPV6_HEADER_LEN as int);
    law_udp_datagrams(payload);
    law_tcp_segments(payload);
}

/// A cast that succeeds changes nothing but the kind, and it fails exactly where there is a reason.
pub proof fn law_casts_keep_packets<T: ?Sized, Y: PoD + ?Sized>(
    packet: Packet<T>,
    error: Option<DecodeError>,
    result: Result<Packet<Y>, DecodeError>,
)
    requires
        cast_result(packet, error, result),
    ensures
        result is Ok <==> error is None,
        result matches Ok(p) ==> p@ == packet@ && p.pool() == packet.pool() && Y::valid(p@),
        result matches Err(e) ==> error == Some(e),
{
}

/// What is known of the length of a packet by its kind.
pub proof fn law_lengths_by_kind(bytes: Seq<u8>)
    ensures
        <[u8] as PoD>::valid(bytes),
        Ip::valid(bytes) <==> bytes.len() >= 20,
        Ipv4::<[u8]>::valid(bytes) <==> bytes.len() >= 20,
        Ipv6::<[u8]>::valid(bytes) <==> bytes.len() >= 40,
        Udp::<[u8]>::valid(bytes) <==> bytes.len() >= 8,
        Tcp::valid(bytes) <==> bytes.len() >= 20,
        Ipv4::<Udp>::valid(bytes) <==> bytes.len() >= 28,
        Ipv6::<Udp>::valid(bytes) <==> bytes.len() >= 48,
        Ipv4::<Tcp>::valid(bytes) <==> bytes.len() >= 40,
        Ipv6::<Tcp>::valid(bytes) <==> bytes.len() >= 60,
        WgHandshakeInit::valid(bytes) <==> bytes.len() == 148,
        WgHandshakeResp::valid(bytes) <==> bytes.len() == 92,
        WgCookieReply::valid(bytes) <==> bytes.len() == 64,
        WgData::valid(bytes) <==> bytes.len() >= 32,
{
}

/// A data message names its session in the four bytes behind its first four, lowest first. It is a
/// keepalive where it is all header and tag.
pub proof fn law_data_messages(bytes: Seq<u8>)
    ensures
        data_receiver_idx(bytes) == bytes[4] + 256 * (bytes[5] + 256 * (bytes[6] + 256 * bytes[7])),
        data_is_keepalive(bytes) <==> bytes.len() == 16 + 16,
{
}

/// The lengths and numbers of the protocols.
pub proof fn law_protocol_constants(bytes: Seq<u8>)
    ensures
        IPV4_HEADER_LEN == 20,
        IPV6_HEADER_LEN == 40,
        UDP_HEADER_LEN == 8,
        TCP_HEADER_LEN == 20,
        PROTOCOL_TCP == 6,
        PROTOCOL_UDP == 17,
        HANDSHAKE_INIT_LEN == 148,
        HANDSHAKE_RESP_LEN == 92,
        COOKIE_REPLY_LEN == 64,
        DATA_OVERHEAD == 32,
        ipv4_header_len(bytes) == 4 * (bytes[0] % 16),
{
}

/// A packet is its bytes and its way back to a pool, whatever its kind: a packet taken for one of
/// another kind is the same.
pub proof fn law_packets_are_bytes<T: ?Sized, Y: ?Sized>(packet: Packet<T>)
    ensures
        packet.model().bytes == packet@,
        packet.model().pool == packet.pool(),
        packet.recast::<Y>().model() == packet.model(),
{
    packet.lemma_recast::<Y>();
}

/// Padding in front of a packet is stripped again by as many bytes, whatever it holds.
pub proof fn law_padding_in_front_comes_off(
    packet: Packet,
    n: usize,
    padded: Packet,
    stripped: Packet,
)
    requires
        call_ensures(Packet::<[u8]>::prepend_random, (packet, n), padded),
        call_ensures(Packet::<[u8]>::slice_from, (padded, n), stripped),
    ensures
        padded@.len() == packet@.len() + n,
        stripped@ == packet@,
{
}

/// Stripping a packet takes bytes off its front and keeps the rest.
pub proof fn law_slice_from(packet: Packet, n: usize, rest: Packet)
    requires
        call_ensures(Packet::<[u8]>::slice_from, (packet, n), rest),
        n <= packet@.len(),
    ensures
        rest@ == packet@.subrange(n as int, packet@.len() as int),
        rest.pool() == packet.pool(),
{
}

/// Cutting a packet keeps its front, and leaves a packet alone that is no longer than that.
pub proof fn law_truncate(new_len: usize)
    ensures
        forall|p: &mut Packet| #[trigger]
            call_ensures(Packet::<[u8]>::truncate, (p, new_len), ()) ==> {
                &&& new_len < (*p)@.len() ==> (*final(p))@ == (*p)@.subrange(0, new_len as int)
                &&& new_len >= (*p)@.len() ==> (*final(p))@ == (*p)@
                &&& (*final(p)).pool() == (*p).pool()
            },
{
    assert forall|p: &mut Packet| #[trigger]
        call_ensures(Packet::<[u8]>::truncate, (p, new_len), ()) && new_len
            == (*p)@.len() implies (*final(p))@ == (*p)@ by {
        assert((*p)@.take(new_len as int) == (*p)@);
    }
}

/// A packet holds what was copied into it, and shows it.
pub proof fn law_copies<T: PoD + ?Sized, Y: PoD + ?Sized>(
    bytes: &[u8],
    payload: &[u8],
    copied: Packet<T>,
    overwritten: Packet<Y>,
    untyped: Packet,
    shown: &[u8],
    len: usize,
    empty: bool,
)
    requires
        call_ensures(Packet::<T>::copy_from, (bytes,), copied),
        call_ensures(Packet::<T>::overwrite_with::<Y>, (copied, payload), overwritten),
        call_ensures(Packet::<Y>::into_bytes, (overwritten,), untyped),
        call_ensures(Packet::<[u8]>::as_bytes, (&untyped,), shown),
        call_ensures(Packet::<[u8]>::len, (&untyped,), len),
        call_ensures(Packet::<[u8]>::is_empty, (&untyped,), empty),
    ensures
        copied@ == bytes@,
        overwritten@ == payload@,
        untyped@ == payload@,
        shown@ == payload@,
        len == payload@.len(),
        empty <==> payload@.len() == 0,
        copied.pool() is None,
        untyped.pool() is None,
{
}

/// The payload of a packet is what is behind its header.
pub proof fn law_payloads<T: PoD + ?Sized>(
    four: Packet<Ipv4<T>>,
    six: Packet<Ipv6<T>>,
    datagram: Packet<Udp<T>>,
    in_four: Packet<T>,
    in_six: Packet<T>,
    in_datagram: Packet<T>,
)
    requires
        four.wf(),
        six.wf(),
        datagram.wf(),
        call_ensures(Packet::<Ipv4<T>>::into_payload, (four,), in_four),
        call_ensures(Packet::<Ipv6<T>>::into_payload, (six,), in_six),
        call_ensures(Packet::<Udp<T>>::into_payload, (datagram,), in_datagram),
    ensures
        in_four@ == four@.subrange(20, four@.len() as int),
        in_six@ == six@.subrange(40, six@.len() as int),
        in_datagram@ == datagram@.subrange(8, datagram@.len() as int),
        in_four.pool() == four.pool(),
        in_six.pool() == six.pool(),
        in_datagram.pool() == datagram.pool(),
{
}

/// Decoding a packet as IP: in one step or in two, it gives what its bytes say.
pub proof fn law_decoding(
    packet: Packet,
    ip: Result<Packet<Ip>, DecodeError>,
    stepwise: Result<Ipvx, DecodeError>,
    direct: Result<Ipvx, DecodeError>,
)
    requires
        call_ensures(Packet::<[u8]>::try_into_ip, (packet,), ip),
        ip matches Ok(p) ==> call_ensures(Packet::<Ip>::try_into_ipvx, (p,), stepwise),
        call_ensures(Packet::<[u8]>::try_into_ipvx, (packet,), direct),
    ensures
        ip is Ok <==> packet@.len() >= 20,
        ip matches Ok(p) ==> p@ == packet@ && p.pool() == packet.pool(),
        ip matches Err(e) ==> e is TooShort && direct is Err && direct->Err_0 is TooShort,
        ipvx_result(packet, direct),
        ip is Ok ==> ipvx_result(packet, stepwise),
{
}

/// Decoding the payload of an IPv4 packet: it succeeds where the bytes say so, and keeps the
/// packet.
pub proof fn law_decoding_ipv4_payload(
    packet: Packet<Ipv4>,
    udp: Result<Packet<Ipv4<Udp>>, DecodeError>,
    tcp: Result<Packet<Ipv4<Tcp>>, DecodeError>,
)
    requires
        packet.wf(),
        call_ensures(Packet::<Ipv4>::try_into_udp, (packet,), udp),
        call_ensures(Packet::<Ipv4>::try_into_tcp, (packet,), tcp),
    ensures
        ({
            let b = packet@;
            let whole = b[6] % 64 == 0 && b[7] == 0;
            &&& udp is Ok <==> b[9] == 17 && whole && b.len() >= 28 && 256 * b[24] + b[25]
                == b.len() - 20
            &&& tcp is Ok <==> b[9] == 6 && whole && b.len() >= 40 && 20 <= 4 * (b[32] / 16)
                <= b.len() - 20
            &&& udp matches Ok(p) ==> p@ == b && p.pool() == packet.pool()
            &&& tcp matches Ok(p) ==> p@ == b && p.pool() == packet.pool()
            &&& b[9] != 17 ==> udp->Err_0 is WrongProtocol
            &&& b[9] != 6 ==> tcp->Err_0 is WrongProtocol
            &&& b[9] == 17 && !whole ==> udp->Err_0 is Fragment
            &&& b[9] == 6 && !whole ==> tcp->Err_0 is Fragment
        }),
{
    law_ipv4_carries(packet@);
}

/// Decoding the payload of an IPv6 packet: it succeeds where the bytes say so, and keeps the
/// packet.
pub proof fn law_decoding_ipv6_payload(
    packet: Packet<Ipv6>,
    udp: Result<Packet<Ipv6<Udp>>, DecodeError>,
    tcp: Result<Packet<Ipv6<Tcp>>, DecodeError>,
)
    requires
        packet.wf(),
        call_ensures(Packet::<Ipv6>::try_into_udp, (packet,), udp),
        call_ensures(Packet::<Ipv6>::try_into_tcp, (packet,), tcp),
    ensures
        ({
            let b = packet@;
            &&& udp is Ok <==> b[6] == 17 && b.len() >= 48 && 256 * b[44] + b[45] == b.len() - 40
            &&& tcp is Ok <==> b[6] == 6 && b.len() >= 60 && 20 <= 4 * (b[52] / 16) <= b.len() - 40
            &&& udp matches Ok(p) ==> p@ == b && p.pool() == packet.pool()
            &&& tcp matches Ok(p) ==> p@ == b && p.pool() == packet.pool()
            &&& b[6] != 17 ==> udp->Err_0 is WrongProtocol
            &&& b[6] != 6 ==> tcp->Err_0 is WrongProtocol
        }),
{
    law_ipv6_carries(packet@);
}

/// What a data message shows of itself.
pub proof fn law_data_readings(packet: Packet<WgData>, idx: u32, keepalive: bool)
    requires
        packet.wf(),
        call_ensures(Packet::<WgData>::receiver_idx, (&packet,), idx),
        call_ensures(Packet::<WgData>::is_keepalive, (&packet,), keepalive),
    ensures
        idx == packet@[4] + 256 * (packet@[5] + 256 * (packet@[6] + 256 * packet@[7])),
        keepalive <==> packet@.len() == 32,
{
}

} // verus!
