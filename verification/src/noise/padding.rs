//! Padding of outgoing packets.

use vstd::prelude::*;

use crate::packet::{Packet, PacketModel};

verus! {

/// The length that a packet is padded to: the next multiple of 16, but no more than `mtu`, and
/// never less than it has.
pub open spec fn padded_len(len: int, mtu: int) -> int {
    let multiple = (len + 15) / 16 * 16;
    let clamped = if multiple <= mtu {
        multiple
    } else {
        mtu
    };
    if clamped >= len {
        clamped
    } else {
        len
    }
}

/// A packet with zeros behind it up to its padded length.
pub open spec fn padded(packet: PacketModel, mtu: int) -> PacketModel {
    PacketModel {
        bytes: packet.bytes + Seq::new(
            (padded_len(packet.bytes.len() as int, mtu) - packet.bytes.len()) as nat,
            |i: int| 0u8,
        ),
        ..packet
    }
}

/// Pads a packet with zeros to a multiple of 16 bytes.
///
/// The padding is clamped to not exceed `tun_mtu`. A packet that already does, as it can where
/// the MTU has just changed, comes back as it is.
pub fn pad_to_x16(packet: Packet, tun_mtu: u16) -> (result: Packet)
    ensures
        result.model() == padded(packet.model(), tun_mtu as int),
        packet@.len() % 16 == 0 ==> result == packet,
{
    let len = packet.len();
    let mtu = tun_mtu as usize;
    if len % 16 == 0 {
        assert(packet@ + Seq::new(0, |i: int| 0u8) == packet@);
        return packet;
    }
    let padded_packet_len: usize = if len >= mtu {
        len
    } else {
        let multiple: usize = len - len % 16 + 16;
        if multiple <= mtu {
            multiple
        } else {
            mtu
        }
    };
    let mut result = packet;
    result.resize(padded_packet_len, 0);
    assert(result@ == padded(packet.model(), tun_mtu as int).bytes);
    result
}

/// The length of a padded packet: the least multiple of 16 that is no less than it was, where that
/// is no more than the MTU, and else the larger of the MTU and what it was. Nothing but zeros is
/// added.
pub proof fn law_padded_length(packet: PacketModel, mtu: int, multiple: int, i: int)
    requires
        mtu >= 0,
        multiple % 16 == 0,
        packet.bytes.len() <= multiple < packet.bytes.len() + 16,
    ensures
        ({
            let len = packet.bytes.len() as int;
            let result = padded(packet, mtu);
            &&& multiple <= mtu ==> result.bytes.len() == multiple
            &&& multiple > mtu && mtu >= len ==> result.bytes.len() == mtu
            &&& multiple > mtu && mtu < len ==> result.bytes.len() == len
            &&& padded_len(len, mtu) == result.bytes.len()
            &&& 0 <= i < len ==> result.bytes[i] == packet.bytes[i]
            &&& len <= i < result.bytes.len() ==> result.bytes[i] == 0
            &&& result.pool == packet.pool
        }),
{
}

/// Padding a packet that was padded to the same MTU changes nothing.
pub proof fn law_padding_is_idempotent(packet: PacketModel, mtu: int)
    requires
        mtu >= 0,
    ensures
        padded(padded(packet, mtu), mtu) == padded(packet, mtu),
{
    assert(padded(padded(packet, mtu), mtu).bytes == padded(packet, mtu).bytes);
}

} // verus!
