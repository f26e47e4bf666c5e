//! Packets: their buffers, their kinds, and what the decoders make of them.

use std::sync::{Arc, Mutex};

use bytes::{Bytes, BytesMut};
use gotatun::device::packet_count;
use gotatun::noise::padding::pad_to_x16;
use gotatun::noise::Tunn;
use gotatun::packet::kinds::{read_be16, read_le32};
use gotatun::packet::wg::DATA_OVERHEAD;
use gotatun::packet::{
    DecodeError, Ip, Ipv4, Ipv6, Ipvx, Packet, ReturnToPool, Tcp, Udp, WgData,
};
use gotatun::time::Duration;

/// A pool that keeps what comes back to it.
#[derive(Clone, Default)]
struct Pool(Arc<Mutex<Vec<BytesMut>>>);

/// The empty end of a buffer, which goes back to its pool when it is dropped.
struct Share(BytesMut, Pool);

impl AsRef<[u8]> for Share {
    fn as_ref(&self) -> &[u8] {
        &[]
    }
}

impl Drop for Share {
    fn drop(&mut self) {
        let end = std::mem::take(&mut self.0);
        self.1 .0.lock().unwrap().push(end);
    }
}

impl Pool {
    fn packet(&self, bytes: &[u8]) -> Packet {
        let mut buffer = BytesMut::from(bytes);
        let end = buffer.split_off(buffer.capacity());
        let handle = Bytes::from_owner(Share(end, self.clone()));
        Packet::new_from_pool(ReturnToPool::new(handle), buffer)
    }

    fn returned(&self) -> usize {
        self.0.lock().unwrap().len()
    }
}

fn raw(bytes: &[u8]) -> Packet {
    Packet::copy_from(bytes)
}

/// An IPv4 header without options, in front of `payload`.
fn ipv4(protocol: u8, payload: &[u8]) -> Vec<u8> {
    let mut bytes = vec![0u8; 20];
    bytes[0] = 0x45;
    bytes[2..4].copy_from_slice(&(20 + payload.len() as u16).to_be_bytes());
    bytes[9] = protocol;
    bytes.extend_from_slice(payload);
    bytes
}

/// An IPv6 header in front of `payload`.
fn ipv6(protocol: u8, payload: &[u8]) -> Vec<u8> {
    let mut bytes = vec![0u8; 40];
    bytes[0] = 0x60;
    bytes[4..6].copy_from_slice(&(payload.len() as u16).to_be_bytes());
    bytes[6] = protocol;
    bytes.extend_from_slice(payload);
    bytes
}

fn udp(payload: &[u8]) -> Vec<u8> {
    let mut bytes = vec![0x16, 0x2e, 0, 23, 0, 0, 0, 0];
    bytes[4..6].copy_from_slice(&(8 + payload.len() as u16).to_be_bytes());
    bytes.extend_from_slice(payload);
    bytes
}

fn tcp(payload: &[u8]) -> Vec<u8> {
    let mut bytes = vec![0u8; 20];
    bytes[12] = 0x50;
    bytes.extend_from_slice(payload);
    bytes
}

fn v4(bytes: &[u8]) -> Packet<Ipv4> {
    match raw(bytes).try_into_ipvx() {
        Ok(Ipvx::V4(packet)) => packet,
        other => panic!("expected an IPv4 packet, got {other:?}"),
    }
}

fn v6(bytes: &[u8]) -> Packet<Ipv6> {
    match raw(bytes).try_into_ipvx() {
        Ok(Ipvx::V6(packet)) => packet,
        other => panic!("expected an IPv6 packet, got {other:?}"),
    }
}

#[test]
fn a_copy_holds_the_bytes() {
    let packet = raw(&[1, 2, 3]);
    assert_eq!(packet.as_bytes(), &[1, 2, 3]);
    assert_eq!(packet.len(), 3);
    assert!(!packet.is_empty());
    assert!(packet.return_to_pool().is_none());
    let copy = packet.clone();
    drop(packet);
    assert_eq!(copy.as_bytes(), &[1, 2, 3]);
}

#[test]
fn the_default_packet_is_empty() {
    let packet = Packet::default();
    assert!(packet.is_empty());
    assert_eq!(packet.len(), 0);
    assert_eq!(packet.as_ref(), &[] as &[u8]);
}

#[test]
fn overwriting_keeps_the_pool() {
    let pool = Pool::default();
    let packet = pool.packet(&[9u8; 100]);
    let header = [4u8; DATA_OVERHEAD];
    let data: Packet<WgData> = packet.overwrite_with(&header);
    assert_eq!(data.as_bytes(), &header);
    assert!(data.return_to_pool().is_some());
    assert!(data.clone().return_to_pool().is_none());
    let bytes = data.into_bytes();
    assert!(bytes.return_to_pool().is_some());
    assert_eq!(pool.returned(), 0);
    drop(bytes);
    assert_eq!(pool.returned(), 1);
}

#[test]
fn buffers_go_back_to_their_pool_on_drop() {
    let pool = Pool::default();
    // Whatever kind the packet had last, and whatever was cut off it.
    drop(pool.packet(&[1, 2, 3]).slice_from(1));
    assert_eq!(pool.returned(), 1);
    let ip = pool.packet(&ipv4(17, &[5, 6])).try_into_ip().unwrap();
    let v4 = Packet::<Ipv4>::try_from(ip).unwrap();
    assert_eq!(pool.returned(), 1);
    drop(v4.into_payload());
    assert_eq!(pool.returned(), 2);
    // A packet that is refused is dropped, too.
    assert!(pool.packet(&[0; 3]).try_into_ip().is_err());
    assert_eq!(pool.returned(), 3);
    // The last one to share a buffer has all of it.
    let mut end = pool.packet(&[9; 64]).into_bytes();
    end.truncate(0);
    drop(end);
    assert!(pool.0.lock().unwrap()[3].try_reclaim(64));
}

#[test]
fn packets_beyond_a_full_queue_go_back_to_their_pool() {
    let pool = Pool::default();
    let mut tunn: Tunn<()> = Tunn::new([1; 32], [2; 32], None, None);
    for _ in 0..300 {
        tunn.handle_outgoing_packet(pool.packet(&[7; 16]), None);
    }
    assert_eq!(pool.returned(), 44);
    tunn.reset(Duration::from_secs(1));
    assert_eq!(pool.returned(), 300);
}

#[test]
fn overwriting_can_grow_the_buffer() {
    let longer: Vec<u8> = (0..200).collect();
    let packet: Packet = raw(&[1]).overwrite_with(&longer);
    assert_eq!(packet.as_bytes(), &longer[..]);
}

#[test]
fn truncating_keeps_the_front() {
    let mut packet = raw(&[1, 2, 3, 4]);
    packet.truncate(9);
    assert_eq!(packet.as_bytes(), &[1, 2, 3, 4]);
    packet.truncate(2);
    assert_eq!(packet.as_bytes(), &[1, 2]);
    packet.truncate(0);
    assert!(packet.is_empty());
}

#[test]
fn the_buffer_can_be_changed_in_place() {
    let mut packet = raw(&[1, 2, 3]);
    packet.buf_mut().extend_from_slice(&[4, 5]);
    assert_eq!(packet.as_bytes(), &[1, 2, 3, 4, 5]);
    packet[0] = 9;
    assert_eq!(&packet[..], &[9, 2, 3, 4, 5]);
}

#[test]
fn random_padding_in_front_is_stripped_again() {
    let packet = raw(&[1, 2, 3]).prepend_random(64);
    assert_eq!(packet.len(), 67);
    assert_eq!(&packet.as_bytes()[64..], &[1, 2, 3]);
    // Zeros in all 64 places would be no chance.
    assert_ne!(&packet.as_bytes()[..64], &[0u8; 64]);
    assert_eq!(packet.slice_from(64).as_bytes(), &[1, 2, 3]);
}

#[test]
fn no_padding_leaves_the_packet_alone() {
    let pool = Pool::default();
    let packet = pool.packet(&[5]).prepend_random(0);
    assert_eq!(packet.as_bytes(), &[5]);
    assert!(packet.return_to_pool().is_some());
    assert_eq!(pool.returned(), 0);
}

#[test]
fn padding_in_front_needs_a_buffer_of_its_own() {
    let pool = Pool::default();
    let packet = pool.packet(&[5]).prepend_random(1);
    assert!(packet.return_to_pool().is_none());
    assert_eq!(pool.returned(), 1);
}

#[test]
fn padding_fills_up_to_sixteen() {
    for (len, mtu, expected) in [
        (0, 1420, 0),
        (1, 1420, 16),
        (15, 1420, 16),
        (16, 1420, 16),
        (17, 1420, 32),
        (1415, 1420, 1420),
        (1417, 1420, 1420),
        (1420, 1420, 1420),
        (1425, 1420, 1425),
        (3, 0, 3),
        (32, 0, 32),
        (65535, 65535, 65535),
    ] {
        let bytes = vec![7u8; len];
        let padded = pad_to_x16(raw(&bytes), mtu);
        assert_eq!(padded.len(), expected, "{len} bytes, mtu {mtu}");
        assert_eq!(&padded.as_bytes()[..len], &bytes[..]);
        assert!(padded.as_bytes()[len..].iter().all(|b| *b == 0));
    }
}

#[test]
fn numbers_are_read_in_their_byte_order() {
    assert_eq!(read_be16(&[0xff, 0x12, 0x34], 1), 0x1234);
    assert_eq!(read_le32(&[0x78, 0x56, 0x34, 0x12], 0), 0x1234_5678);
    assert_eq!(read_le32(&[0xff; 4], 0), u32::MAX);
}

#[test]
fn data_messages_name_their_session() {
    let mut bytes = [0u8; 40];
    bytes[4..8].copy_from_slice(&0xdead_beef_u32.to_le_bytes());
    let data: Packet<WgData> = Packet::copy_from(&bytes);
    assert_eq!(data.receiver_idx(), 0xdead_beef);
    assert!(!data.is_keepalive());
    let keepalive: Packet<WgData> = Packet::copy_from(&bytes[..32]);
    assert!(keepalive.is_keepalive());
}

#[test]
fn short_packets_are_no_ip_packets() {
    assert!(matches!(
        raw(&[0x45; 19]).try_into_ip(),
        Err(DecodeError::TooShort)
    ));
    assert!(matches!(
        raw(&[]).try_into_ipvx(),
        Err(DecodeError::TooShort)
    ));
    assert!(raw(&[0x45; 20]).try_into_ip().is_ok());
}

#[test]
fn other_versions_are_refused() {
    for first in [0x00, 0x35, 0x55, 0x75, 0xf5] {
        let mut bytes = ipv4(17, &[]);
        bytes[0] = first;
        assert!(matches!(
            raw(&bytes).try_into_ipvx(),
            Err(DecodeError::BadVersion(v)) if v == first >> 4
        ));
    }
}

#[test]
fn ipv4_packets_are_cut_to_their_length() {
    let mut bytes = ipv4(17, &[1, 2, 3]);
    bytes.extend_from_slice(&[0; 9]);
    assert_eq!(v4(&bytes).as_bytes(), &bytes[..23]);
    // Decoding the result again changes nothing.
    let again = v4(v4(&bytes).as_bytes());
    assert_eq!(again.as_bytes(), &bytes[..23]);
}

#[test]
fn ipv4_packets_have_the_length_they_claim() {
    let mut bytes = ipv4(17, &[1, 2, 3]);
    bytes[3] = 24;
    assert!(matches!(
        raw(&bytes).try_into_ipvx(),
        Err(DecodeError::BadIpLength)
    ));
    bytes[3] = 19;
    assert!(matches!(
        raw(&bytes).try_into_ipvx(),
        Err(DecodeError::BadIpLength)
    ));
    bytes[3] = 20;
    assert_eq!(v4(&bytes).len(), 20);
}

#[test]
fn ipv6_packets_are_cut_to_their_length() {
    let mut bytes = ipv6(17, &[1, 2, 3]);
    bytes.extend_from_slice(&[0; 9]);
    assert_eq!(v6(&bytes).as_bytes(), &bytes[..43]);
}

#[test]
fn ipv6_packets_have_the_length_they_claim() {
    let mut bytes = ipv6(17, &[1, 2, 3]);
    bytes[5] = 4;
    assert!(matches!(
        raw(&bytes).try_into_ipvx(),
        Err(DecodeError::BadIpLength)
    ));
    assert!(matches!(
        raw(&bytes[..39]).try_into_ipvx(),
        Err(DecodeError::TooShort)
    ));
}

#[test]
fn decoding_in_two_steps_is_the_same() {
    let bytes = ipv6(6, &[1, 2, 3]);
    let ip = raw(&bytes).try_into_ip().unwrap();
    match ip.try_into_ipvx() {
        Ok(Ipvx::V6(packet)) => assert_eq!(packet.as_bytes(), v6(&bytes).as_bytes()),
        other => panic!("expected an IPv6 packet, got {other:?}"),
    }
}

#[test]
fn udp_is_found_in_ipv4() {
    let bytes = ipv4(17, &udp(&[1, 2, 3, 4]));
    let packet = v4(&bytes).try_into_udp().unwrap();
    assert_eq!(packet.as_bytes(), &bytes[..]);
    let datagram = packet.into_payload();
    assert_eq!(datagram.as_bytes(), &bytes[20..]);
    assert_eq!(datagram.into_payload().as_bytes(), &[1, 2, 3, 4]);
}

#[test]
fn udp_is_found_in_ipv6() {
    let bytes = ipv6(17, &udp(&[1, 2, 3, 4]));
    let packet = v6(&bytes).try_into_udp().unwrap();
    assert_eq!(packet.into_payload().as_bytes(), &bytes[40..]);
}

#[test]
fn bad_udp_is_refused() {
    let good = ipv4(17, &udp(&[1, 2]));
    let mut other_protocol = good.clone();
    other_protocol[9] = 6;
    assert!(matches!(
        v4(&other_protocol).try_into_udp(),
        Err(DecodeError::WrongProtocol)
    ));
    let mut fragment = good.clone();
    fragment[6] = 0x20;
    assert!(matches!(
        v4(&fragment).try_into_udp(),
        Err(DecodeError::Fragment)
    ));
    let mut fragment = good.clone();
    fragment[7] = 1;
    assert!(matches!(
        v4(&fragment).try_into_udp(),
        Err(DecodeError::Fragment)
    ));
    let mut unfragmentable = good.clone();
    unfragmentable[6] = 0x40;
    assert!(v4(&unfragmentable).try_into_udp().is_ok());
    let mut longer = good.clone();
    longer[25] += 1;
    assert!(matches!(
        v4(&longer).try_into_udp(),
        Err(DecodeError::BadUdpLength)
    ));
    assert!(matches!(
        v4(&ipv4(17, &[0; 7])).try_into_udp(),
        Err(DecodeError::TooShort)
    ));
    assert!(matches!(
        v6(&ipv6(6, &udp(&[]))).try_into_udp(),
        Err(DecodeError::WrongProtocol)
    ));
    assert!(matches!(
        v6(&ipv6(17, &[0; 7])).try_into_udp(),
        Err(DecodeError::TooShort)
    ));
    assert!(matches!(
        v6(&ipv6(17, &[0; 8])).try_into_udp(),
        Err(DecodeError::BadUdpLength)
    ));
}

#[test]
fn tcp_is_found_in_either_version() {
    let bytes = ipv4(6, &tcp(&[9]));
    assert_eq!(v4(&bytes).try_into_tcp().unwrap().as_bytes(), &bytes[..]);
    let bytes = ipv6(6, &tcp(&[9]));
    let segment: Packet<Tcp> = v6(&bytes).try_into_tcp().unwrap().into_payload();
    assert_eq!(segment.as_bytes(), &bytes[40..]);
}

#[test]
fn bad_tcp_is_refused() {
    assert!(matches!(
        v4(&ipv4(17, &tcp(&[]))).try_into_tcp(),
        Err(DecodeError::WrongProtocol)
    ));
    assert!(matches!(
        v4(&ipv4(6, &[0x50; 19])).try_into_tcp(),
        Err(DecodeError::TooShort)
    ));
    for (offset, good) in [(0x40, false), (0x50, true), (0x60, true), (0x70, false)] {
        let mut bytes = tcp(&[0; 4]);
        bytes[12] = offset;
        assert_eq!(v4(&ipv4(6, &bytes)).try_into_tcp().is_ok(), good);
        assert_eq!(v6(&ipv6(6, &bytes)).try_into_tcp().is_ok(), good);
        if !good {
            assert!(matches!(
                v6(&ipv6(6, &bytes)).try_into_tcp(),
                Err(DecodeError::BadDataOffset)
            ));
        }
    }
    let mut fragment = ipv4(6, &tcp(&[]));
    fragment[6] = 0x20;
    assert!(matches!(
        v4(&fragment).try_into_tcp(),
        Err(DecodeError::Fragment)
    ));
}

#[test]
fn forgetting_the_kind_keeps_the_bytes() {
    let bytes = ipv4(17, &udp(&[1]));
    let packet: Packet<Ipv4<Udp>> = v4(&bytes).try_into_udp().unwrap();
    let packet: Packet<Ipv4> = packet.into();
    let packet: Packet<Ip> = packet.into();
    let packet: Packet = packet.into();
    assert_eq!(packet.as_bytes(), &bytes[..]);
    let packet: Packet<Ip> = v6(&ipv6(6, &tcp(&[]))).try_into_tcp().unwrap().into();
    assert_eq!(packet.len(), 60);
}

#[test]
fn one_version_can_be_asked_for() {
    let four = ipv4(17, &[]);
    let six = ipv6(17, &[]);
    assert!(Packet::<Ipv4>::try_from(raw(&four)).is_ok());
    assert!(Packet::<Ipv6>::try_from(raw(&six)).is_ok());
    assert!(matches!(
        Packet::<Ipv6>::try_from(raw(&four)),
        Err(DecodeError::OtherVersion)
    ));
    assert!(matches!(
        Packet::<Ipv4>::try_from(raw(&six)),
        Err(DecodeError::OtherVersion)
    ));
    let ip = raw(&four).try_into_ip().unwrap();
    assert_eq!(Packet::<Ipv4>::try_from(ip).unwrap().as_bytes(), &four[..]);
    let ip = raw(&six).try_into_ip().unwrap();
    assert_eq!(Packet::<Ipv6>::try_from(ip).unwrap().as_bytes(), &six[..]);
    let ip = raw(&six).try_into_ip().unwrap();
    assert!(matches!(
        Packet::<Ipv4>::try_from(ip),
        Err(DecodeError::OtherVersion)
    ));
    assert!(matches!(
        Packet::<Ipv4>::try_from(raw(&[0x45; 3])),
        Err(DecodeError::TooShort)
    ));
}

#[test]
fn packets_are_counted() {
    let packets = (0..5)
        .map(|n| raw(&ipv4(17, &vec![0; n])).try_into_ip().unwrap())
        .collect::<Vec<_>>();
    assert_eq!(packet_count(&packets), 5);
    assert_eq!(packet_count(&Vec::new()), 0);
}
