//! Conversions between kinds of packets.
//!
//! Forgetting what is known of a packet always succeeds and keeps its bytes. Conversions to IP
//! packets of one version go through the decoder.

use core::convert::{From, TryFrom};
use vstd::prelude::*;
use vstd::std_specs::convert::{FromSpecImpl, TryFromSpecImpl};

use crate::packet::decode::{ipvx_error, ipvx_len, DecodeError, Ipvx};
use crate::packet::kinds::{ip_version, Ip, Ipv4, Ipv6, Tcp, Udp};
use crate::packet::{Packet, PoD};

verus! {

/// Every kind of packet is a pile of bytes.
impl<P: PoD> From<Packet<P>> for Packet<[u8]> {
    fn from(value: Packet<P>) -> (packet: Packet<[u8]>)
        ensures
            packet@ == value@,
            packet.pool() == value.pool(),
    {
        value.cast()
    }
}

impl<P: PoD> FromSpecImpl<Packet<P>> for Packet<[u8]> {
    open spec fn obeys_from_spec() -> bool {
        true
    }

    open spec fn from_spec(value: Packet<P>) -> Packet<[u8]> {
        value.recast()
    }
}

impl From<Packet<Ipv4<Udp>>> for Packet<Ipv4> {
    fn from(value: Packet<Ipv4<Udp>>) -> (packet: Packet<Ipv4>)
        ensures
            packet@ == value@,
            packet.pool() == value.pool(),
            value.wf() ==> packet.wf(),
    {
        value.cast()
    }
}

impl FromSpecImpl<Packet<Ipv4<Udp>>> for Packet<Ipv4> {
    open spec fn obeys_from_spec() -> bool {
        true
    }

    open spec fn from_spec(value: Packet<Ipv4<Udp>>) -> Packet<Ipv4> {
        value.recast()
    }
}

impl From<Packet<Ipv6<Udp>>> for Packet<Ipv6> {
    fn from(value: Packet<Ipv6<Udp>>) -> (packet: Packet<Ipv6>)
        ensures
            packet@ == value@,
            packet.pool() == value.pool(),
            value.wf() ==> packet.wf(),
    {
        value.cast()
    }
}

impl FromSpecImpl<Packet<Ipv6<Udp>>> for Packet<Ipv6> {
    open spec fn obeys_from_spec() -> bool {
        true
    }

    open spec fn from_spec(value: Packet<Ipv6<Udp>>) -> Packet<Ipv6> {
        value.recast()
    }
}

impl From<Packet<Ipv4<Tcp>>> for Packet<Ipv4> {
    fn from(value: Packet<Ipv4<Tcp>>) -> (packet: Packet<Ipv4>)
        ensures
            packet@ == value@,
            packet.pool() == value.pool(),
            value.wf() ==> packet.wf(),
    {
        value.cast()
    }
}

impl FromSpecImpl<Packet<Ipv4<Tcp>>> for Packet<Ipv4> {
    open spec fn obeys_from_spec() -> bool {
        true
    }

    open spec fn from_spec(value: Packet<Ipv4<Tcp>>) -> Packet<Ipv4> {
        value.recast()
    }
}

impl From<Packet<Ipv6<Tcp>>> for Packet<Ipv6> {
    fn from(value: Packet<Ipv6<Tcp>>) -> (packet: Packet<Ipv6>)
        ensures
            packet@ == value@,
            packet.pool() == value.pool(),
            value.wf() ==> packet.wf(),
    {
        value.cast()
    }
}

impl FromSpecImpl<Packet<Ipv6<Tcp>>> for Packet<Ipv6> {
    open spec fn obeys_from_spec() -> bool {
        true
    }

    open spec fn from_spec(value: Packet<Ipv6<Tcp>>) -> Packet<Ipv6> {
        value.recast()
    }
}

impl From<Packet<Ipv4<Udp>>> for Packet<Ip> {
    fn from(value: Packet<Ipv4<Udp>>) -> (packet: Packet<Ip>)
        ensures
            packet@ == value@,
            packet.pool() == value.pool(),
            value.wf() ==> packet.wf(),
    {
        value.cast()
    }
}

impl FromSpecImpl<Packet<Ipv4<Udp>>> for Packet<Ip> {
    open spec fn obeys_from_spec() -> bool {
        true
    }

    open spec fn from_spec(value: Packet<Ipv4<Udp>>) -> Packet<Ip> {
        value.recast()
    }
}

impl From<Packet<Ipv6<Udp>>> for Packet<Ip> {
    fn from(value: Packet<Ipv6<Udp>>) -> (packet: Packet<Ip>)
        ensures
            packet@ == value@,
            packet.pool() == value.pool(),
            value.wf() ==> packet.wf(),
    {
        value.cast()
    }
}

impl FromSpecImpl<Packet<Ipv6<Udp>>> for Packet<Ip> {
    open spec fn obeys_from_spec() -> bool {
        true
    }

    open spec fn from_spec(value: Packet<Ipv6<Udp>>) -> Packet<Ip> {
        value.recast()
    }
}

impl From<Packet<Ipv4<Tcp>>> for Packet<Ip> {
    fn from(value: Packet<Ipv4<Tcp>>) -> (packet: Packet<Ip>)
        ensures
            packet@ == value@,
            packet.pool() == value.pool(),
            value.wf() ==> packet.wf(),
    {
        value.cast()
    }
}

impl FromSpecImpl<Packet<Ipv4<Tcp>>> for Packet<Ip> {
    open spec fn obeys_from_spec() -> bool {
        true
    }

    open spec fn from_spec(value: Packet<Ipv4<Tcp>>) -> Packet<Ip> {
        value.recast()
    }
}

impl From<Packet<Ipv6<Tcp>>> for Packet<Ip> {
    fn from(value: Packet<Ipv6<Tcp>>) -> (packet: Packet<Ip>)
        ensures
            packet@ == value@,
            packet.pool() == value.pool(),
            value.wf() ==> packet.wf(),
    {
        value.cast()
    }
}

impl FromSpecImpl<Packet<Ipv6<Tcp>>> for Packet<Ip> {
    open spec fn obeys_from_spec() -> bool {
        true
    }

    open spec fn from_spec(value: Packet<Ipv6<Tcp>>) -> Packet<Ip> {
        value.recast()
    }
}

impl From<Packet<Ipv4>> for Packet<Ip> {
    fn from(value: Packet<Ipv4>) -> (packet: Packet<Ip>)
        ensures
            packet@ == value@,
            packet.pool() == value.pool(),
            value.wf() ==> packet.wf(),
    {
        value.cast()
    }
}

impl FromSpecImpl<Packet<Ipv4>> for Packet<Ip> {
    open spec fn obeys_from_spec() -> bool {
        true
    }

    open spec fn from_spec(value: Packet<Ipv4>) -> Packet<Ip> {
        value.recast()
    }
}

impl From<Packet<Ipv6>> for Packet<Ip> {
    fn from(value: Packet<Ipv6>) -> (packet: Packet<Ip>)
        ensures
            packet@ == value@,
            packet.pool() == value.pool(),
            value.wf() ==> packet.wf(),
    {
        value.cast()
    }
}

impl FromSpecImpl<Packet<Ipv6>> for Packet<Ip> {
    open spec fn obeys_from_spec() -> bool {
        true
    }

    open spec fn from_spec(value: Packet<Ipv6>) -> Packet<Ip> {
        value.recast()
    }
}

/// Why `bytes` are no IP packet of version `version`.
pub open spec fn ip_version_error(bytes: Seq<u8>, version: u8) -> Option<DecodeError> {
    match ipvx_error(bytes) {
        Some(e) => Some(e),
        None => if ip_version(bytes) == version {
            None
        } else {
            Some(DecodeError::OtherVersion)
        },
    }
}

/// The packet comes back cut to the length that its header gives, unless `error` names a reason.
pub open spec fn ip_version_result<T: ?Sized, Y: PoD + ?Sized>(
    packet: Packet<T>,
    error: Option<DecodeError>,
    result: Result<Packet<Y>, DecodeError>,
) -> bool {
    match result {
        Err(e) => error == Some(e),
        Ok(p) => {
            &&& error is None
            &&& p@ == packet@.take(ipvx_len(packet@))
            &&& p.pool() == packet.pool()
            &&& p.wf()
        },
    }
}

impl TryFrom<Packet<[u8]>> for Packet<Ipv4> {
    type Error = DecodeError;

    fn try_from(packet: Packet<[u8]>) -> (result: Result<Self, DecodeError>)
        ensures
            ip_version_result(packet, ip_version_error(packet@, 4), result),
    {
        match packet.try_into_ipvx() {
            Ok(Ipvx::V4(p)) => Ok(p),
            Ok(Ipvx::V6(_)) => Err(DecodeError::OtherVersion),
            Err(e) => Err(e),
        }
    }
}

impl TryFromSpecImpl<Packet<[u8]>> for Packet<Ipv4> {
    open spec fn obeys_try_from_spec() -> bool {
        false
    }

    open spec fn try_from_spec(packet: Packet<[u8]>) -> Result<Self, DecodeError> {
        arbitrary()
    }
}

impl TryFrom<Packet<[u8]>> for Packet<Ipv6> {
    type Error = DecodeError;

    fn try_from(packet: Packet<[u8]>) -> (result: Result<Self, DecodeError>)
        ensures
            ip_version_result(packet, ip_version_error(packet@, 6), result),
    {
        match packet.try_into_ipvx() {
            Ok(Ipvx::V6(p)) => Ok(p),
            Ok(Ipvx::V4(_)) => Err(DecodeError::OtherVersion),
            Err(e) => Err(e),
        }
    }
}

impl TryFromSpecImpl<Packet<[u8]>> for Packet<Ipv6> {
    open spec fn obeys_try_from_spec() -> bool {
        false
    }

    open spec fn try_from_spec(packet: Packet<[u8]>) -> Result<Self, DecodeError> {
        arbitrary()
    }
}

impl TryFrom<Packet<Ip>> for Packet<Ipv4> {
    type Error = DecodeError;

    fn try_from(packet: Packet<Ip>) -> (result: Result<Self, DecodeError>)
        ensures
            ip_version_result(packet, ip_version_error(packet@, 4), result),
    {
        match packet.into_bytes().try_into_ipvx() {
            Ok(Ipvx::V4(p)) => Ok(p),
            Ok(Ipvx::V6(_)) => Err(DecodeError::OtherVersion),
            Err(e) => Err(e),
        }
    }
}

impl TryFromSpecImpl<Packet<Ip>> for Packet<Ipv4> {
    open spec fn obeys_try_from_spec() -> bool {
        false
    }

    open spec fn try_from_spec(packet: Packet<Ip>) -> Result<Self, DecodeError> {
        arbitrary()
    }
}

impl TryFrom<Packet<Ip>> for Packet<Ipv6> {
    type Error = DecodeError;

    fn try_from(packet: Packet<Ip>) -> (result: Result<Self, DecodeError>)
        ensures
            ip_version_result(packet, ip_version_error(packet@, 6), result),
    {
        match packet.into_bytes().try_into_ipvx() {
            Ok(Ipvx::V6(p)) => Ok(p),
            Ok(Ipvx::V4(_)) => Err(DecodeError::OtherVersion),
            Err(e) => Err(e),
        }
    }
}

impl TryFromSpecImpl<Packet<Ip>> for Packet<Ipv6> {
    open spec fn obeys_try_from_spec() -> bool {
        false
    }

    open spec fn try_from_spec(packet: Packet<Ip>) -> Result<Self, DecodeError> {
        arbitrary()
    }
}

} // verus!
