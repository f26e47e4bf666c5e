//! Recognising the kind of a packet by its bytes.

use vstd::prelude::*;

use crate::packet::kinds::{
    ip_version, ipv4_is_fragment, ipv4_protocol, ipv4_total_len, ipv6_payload_len, ipv6_protocol,
    read_be16, tcp_header_len, udp_len, Ip, Ipv4, Ipv6, Tcp, Udp, IPV4_HEADER_LEN,
    IPV6_HEADER_LEN, PROTOCOL_TCP, PROTOCOL_UDP, TCP_HEADER_LEN, UDP_HEADER_LEN,
};
use crate::packet::{Packet, PoD};

verus! {

/// Why a packet is not of the kind that was asked for.
#[derive(Clone, Copy, Debug, PartialEq, Eq, Structural)]
pub enum DecodeError {
    /// The packet, or the payload in it, is shorter than the header of that kind.
    TooShort,
    /// The IP version field is neither 4 nor 6.
    BadVersion(u8),
    /// The packet is shorter than its IP header says, or the header says less than its own length.
    BadIpLength,
    /// The packet is an IP packet of the other version.
    OtherVersion,
    /// The payload is of another protocol.
    WrongProtocol,
    /// The packet is a fragment.
    Fragment,
    /// The UDP length field is not the length of the datagram.
    BadUdpLength,
    /// The TCP data offset points into the header or beyond the segment.
    BadDataOffset,
}

/// An IP packet of a known version.
#[derive(Debug)]
pub enum Ipvx {
    /// IPv4.
    V4(Packet<Ipv4>),
    /// IPv6.
    V6(Packet<Ipv6>),
}

/// Why `bytes` are no packet that [`Packet::try_into_ip`] accepts.
pub open spec fn ip_error(bytes: Seq<u8>) -> Option<DecodeError> {
    if bytes.len() < IPV4_HEADER_LEN {
        Some(DecodeError::TooShort)
    } else {
        None
    }
}

/// Why `bytes` are no packet that [`Packet::try_into_ipvx`] accepts.
pub open spec fn ipvx_error(bytes: Seq<u8>) -> Option<DecodeError> {
    if bytes.len() < IPV4_HEADER_LEN {
        Some(DecodeError::TooShort)
    } else if ip_version(bytes) == 4 {
        if IPV4_HEADER_LEN <= ipv4_total_len(bytes) <= bytes.len() {
            None
        } else {
            Some(DecodeError::BadIpLength)
        }
    } else if ip_version(bytes) == 6 {
        if bytes.len() < IPV6_HEADER_LEN {
            Some(DecodeError::TooShort)
        } else if IPV6_HEADER_LEN + ipv6_payload_len(bytes) <= bytes.len() {
            None
        } else {
            Some(DecodeError::BadIpLength)
        }
    } else {
        Some(DecodeError::BadVersion(ip_version(bytes)))
    }
}

/// Where an IP packet of either version ends, as its header says.
pub open spec fn ipvx_len(bytes: Seq<u8>) -> int {
    if ip_version(bytes) == 4 {
        ipv4_total_len(bytes)
    } else {
        IPV6_HEADER_LEN + ipv6_payload_len(bytes)
    }
}

/// What [`Packet::try_into_ipvx`] makes of `packet`: an error where [`ipvx_error`] gives one, and
/// else the packet of the version that its header names, cut to the length that its header gives.
pub open spec fn ipvx_result<T: ?Sized>(
    packet: Packet<T>,
    result: Result<Ipvx, DecodeError>,
) -> bool {
    match result {
        Err(e) => ipvx_error(packet@) == Some(e),
        Ok(Ipvx::V4(p)) => {
            &&& ipvx_error(packet@) is None
            &&& ip_version(packet@) == 4
            &&& p@ == packet@.take(ipvx_len(packet@))
            &&& p.pool() == packet.pool()
            &&& p.wf()
        },
        Ok(Ipvx::V6(p)) => {
            &&& ipvx_error(packet@) is None
            &&& ip_version(packet@) == 6
            &&& p@ == packet@.take(ipvx_len(packet@))
            &&& p.pool() == packet.pool()
            &&& p.wf()
        },
    }
}

/// Why `payload` is no UDP datagram.
pub open spec fn udp_error(payload: Seq<u8>) -> Option<DecodeError> {
    if payload.len() < UDP_HEADER_LEN {
        Some(DecodeError::TooShort)
    } else if udp_len(payload) != payload.len() {
        Some(DecodeError::BadUdpLength)
    } else {
        None
    }
}

/// Why `payload` is no TCP segment.
pub open spec fn tcp_error(payload: Seq<u8>) -> Option<DecodeError> {
    if payload.len() < TCP_HEADER_LEN {
        Some(DecodeError::TooShort)
    } else if TCP_HEADER_LEN <= tcp_header_len(payload) <= payload.len() {
        None
    } else {
        Some(DecodeError::BadDataOffset)
    }
}

/// Why the IPv4 packet `bytes` does not carry a whole payload of protocol `protocol`, where
/// `inner` says what is wrong with the payload itself.
pub open spec fn ipv4_payload_error(
    bytes: Seq<u8>,
    protocol: u8,
    inner: Option<DecodeError>,
) -> Option<DecodeError> {
    if ipv4_protocol(bytes) != protocol {
        Some(DecodeError::WrongProtocol)
    } else if ipv4_is_fragment(bytes) {
        Some(DecodeError::Fragment)
    } else {
        inner
    }
}

/// Why the IPv6 packet `bytes` does not carry a payload of protocol `protocol`, where `inner`
/// says what is wrong with the payload itself.
pub open spec fn ipv6_payload_error(
    bytes: Seq<u8>,
    protocol: u8,
    inner: Option<DecodeError>,
) -> Option<DecodeError> {
    if ipv6_protocol(bytes) != protocol {
        Some(DecodeError::WrongProtocol)
    } else {
        inner
    }
}

/// The packet comes back as one of kind `Y` with all its bytes, unless `error` names a reason.
pub open spec fn cast_result<T: ?Sized, Y: PoD + ?Sized>(
    packet: Packet<T>,
    error: Option<DecodeError>,
    result: Result<Packet<Y>, DecodeError>,
) -> bool {
    match result {
        Err(e) => error == Some(e),
        Ok(p) => error is None && p@ == packet@ && p.pool() == packet.pool() && p.wf(),
    }
}

/// Checks that `bytes` are a UDP datagram from byte `start` on.
fn check_udp(bytes: &[u8], start: usize) -> (error: Option<DecodeError>)
    requires
        start <= bytes@.len(),
        start <= IPV6_HEADER_LEN,
    ensures
        error == udp_error(bytes@.skip(start as int)),
{
    let len: usize = bytes.len() - start;
    if len < UDP_HEADER_LEN {
        return Some(DecodeError::TooShort);
    }
    if read_be16(bytes, start + 4) as usize != len {
        return Some(DecodeError::BadUdpLength);
    }
    None
}

/// Checks that `bytes` are a TCP segment from byte `start` on.
fn check_tcp(bytes: &[u8], start: usize) -> (error: Option<DecodeError>)
    requires
        start <= bytes@.len(),
        start <= IPV6_HEADER_LEN,
    ensures
        error == tcp_error(bytes@.skip(start as int)),
{
    let len: usize = bytes.len() - start;
    if len < TCP_HEADER_LEN {
        return Some(DecodeError::TooShort);
    }
    let header_len: usize = (bytes[start + 12] / 16) as usize * 4;
    if TCP_HEADER_LEN <= header_len && header_len <= len {
        None
    } else {
        Some(DecodeError::BadDataOffset)
    }
}

impl Packet<[u8]> {
    /// Tries to cast this untyped packet into an [`Ip`].
    ///
    /// This is a stepping stone to casting the packet into an [`Ipv4`] or an [`Ipv6`]. It fails
    /// where the packet is smaller than an IPv4 header.
    pub fn try_into_ip(self) -> (result: Result<Packet<Ip>, DecodeError>)
        ensures
            cast_result(self, ip_error(self@), result),
    {
        if self.len() < IPV4_HEADER_LEN {
            Err(DecodeError::TooShort)
        } else {
            Ok(self.cast())
        }
    }

    /// Tries to cast this untyped packet into either an [`Ipv4`] or an [`Ipv6`] packet.
    ///
    /// The packet is cut to the length that its header gives.
    pub fn try_into_ipvx(self) -> (result: Result<Ipvx, DecodeError>)
        ensures
            ipvx_result(self, result),
    {
        match self.try_into_ip() {
            Ok(ip) => ip.try_into_ipvx(),
            Err(e) => Err(e),
        }
    }
}

impl Packet<Ip> {
    /// Tries to cast this [`Ip`] packet into either an [`Ipv4`] or an [`Ipv6`] packet.
    ///
    /// The packet is cut to the length that its header gives. The header checksum is not
    /// checked: the tag of the data message that carried the packet already proves that nothing
    /// changed it in transit.
    pub fn try_into_ipvx(self) -> (result: Result<Ipvx, DecodeError>)
        requires
            self.wf(),
        ensures
            ipvx_result(self, result),
    {
        let bytes = self.as_bytes();
        let version = bytes[0] / 16;
        let len = bytes.len();
        if version == 4 {
            let total_len = read_be16(bytes, 2) as usize;
            if total_len < IPV4_HEADER_LEN || len < total_len {
                return Err(DecodeError::BadIpLength);
            }
            let mut packet = self.into_bytes();
            packet.truncate(total_len);
            Ok(Ipvx::V4(packet.cast()))
        } else if version == 6 {
            if len < IPV6_HEADER_LEN {
                return Err(DecodeError::TooShort);
            }
            let payload_len = read_be16(bytes, 4) as usize;
            if len - IPV6_HEADER_LEN < payload_len {
                return Err(DecodeError::BadIpLength);
            }
            let mut packet = self.into_bytes();
            packet.truncate(IPV6_HEADER_LEN + payload_len);
            Ok(Ipvx::V6(packet.cast()))
        } else {
            Err(DecodeError::BadVersion(version))
        }
    }
}

impl Packet<Ipv4> {
    /// The checks that a payload of any protocol has to pass before its own.
    fn check_payload(&self, protocol: u8) -> (error: Option<DecodeError>)
        requires
            self.wf(),
        ensures
            error == ipv4_payload_error(self@, protocol, None),
    {
        let bytes = self.as_bytes();
        if bytes[9] != protocol {
            Some(DecodeError::WrongProtocol)
        } else if read_be16(bytes, 6) % 0x4000 != 0 {
            Some(DecodeError::Fragment)
        } else {
            None
        }
    }

    /// Tries to cast this [`Ipv4`] packet into a [`Udp`] packet.
    ///
    /// It succeeds on a packet that is no fragment and whose payload is one UDP datagram.
    pub fn try_into_udp(self) -> (result: Result<Packet<Ipv4<Udp>>, DecodeError>)
        requires
            self.wf(),
        ensures
            cast_result(
                self,
                ipv4_payload_error(
                    self@,
                    PROTOCOL_UDP,
                    udp_error(self@.skip(IPV4_HEADER_LEN as int)),
                ),
                result,
            ),
    {
        if let Some(e) = self.check_payload(PROTOCOL_UDP) {
            return Err(e);
        }
        if let Some(e) = check_udp(self.as_bytes(), IPV4_HEADER_LEN) {
            return Err(e);
        }
        Ok(self.cast())
    }

    /// Tries to cast this [`Ipv4`] packet into a [`Tcp`] packet.
    ///
    /// It succeeds on a packet that is no fragment and whose payload is a TCP segment.
    pub fn try_into_tcp(self) -> (result: Result<Packet<Ipv4<Tcp>>, DecodeError>)
        requires
            self.wf(),
        ensures
            cast_result(
                self,
                ipv4_payload_error(
                    self@,
                    PROTOCOL_TCP,
                    tcp_error(self@.skip(IPV4_HEADER_LEN as int)),
                ),
                result,
            ),
    {
        if let Some(e) = self.check_payload(PROTOCOL_TCP) {
            return Err(e);
        }
        if let Some(e) = check_tcp(self.as_bytes(), IPV4_HEADER_LEN) {
            return Err(e);
        }
        Ok(self.cast())
    }
}

impl Packet<Ipv6> {
    /// Tries to cast this [`Ipv6`] packet into a [`Udp`] packet.
    ///
    /// It succeeds on a packet whose payload is one UDP datagram.
    pub fn try_into_udp(self) -> (result: Result<Packet<Ipv6<Udp>>, DecodeError>)
        requires
            self.wf(),
        ensures
            cast_result(
                self,
                ipv6_payload_error(
                    self@,
                    PROTOCOL_UDP,
                    udp_error(self@.skip(IPV6_HEADER_LEN as int)),
                ),
                result,
            ),
    {
        if self.as_bytes()[6] != PROTOCOL_UDP {
            return Err(DecodeError::WrongProtocol);
        }
        if let Some(e) = check_udp(self.as_bytes(), IPV6_HEADER_LEN) {
            return Err(e);
        }
        Ok(self.cast())
    }

    /// Tries to cast this [`Ipv6`] packet into a [`Tcp`] packet.
    ///
    /// It succeeds on a packet whose payload is a TCP segment.
    pub fn try_into_tcp(self) -> (result: Result<Packet<Ipv6<Tcp>>, DecodeError>)
        requires
            self.wf(),
        ensures
            cast_result(
                self,
                ipv6_payload_error(
                    self@,
                    PROTOCOL_TCP,
                    tcp_error(self@.skip(IPV6_HEADER_LEN as int)),
                ),
                result,
            ),
    {
        if self.as_bytes()[6] != PROTOCOL_TCP {
            return Err(DecodeError::WrongProtocol);
        }
        if let Some(e) = check_tcp(self.as_bytes(), IPV6_HEADER_LEN) {
            return Err(e);
        }
        Ok(self.cast())
    }
}

/// Decoding what a decoder gave changes nothing: a packet that was cut to the length in its header
/// is of the same version, and its header still gives its length.
pub proof fn law_decoding_is_idempotent(bytes: Seq<u8>)
    requires
        ipvx_error(bytes) is None,
    ensures
        ({
            let cut = bytes.take(ipvx_len(bytes));
            &&& ipvx_error(cut) is None
            &&& ip_version(cut) == ip_version(bytes)
            &&& ipvx_len(cut) == cut.len()
            &&& cut.take(ipvx_len(cut)) == cut
        }),
{
    let cut = bytes.take(ipvx_len(bytes));
    assert(cut.take(ipvx_len(cut)) == cut);
}

/// What is too short for an IP packet is refused for that, whatever its bytes are.
pub proof fn law_short_packets_are_refused(bytes: Seq<u8>)
    ensures
        ip_error(bytes) matches Some(e) ==> ipvx_error(bytes) == Some(e),
{
}

} // verus!
