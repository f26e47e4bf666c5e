//! Traffic between two devices.

use vstd::prelude::*;

use crate::packet::{Ip, Packet};

verus! {

/// The number of packets that are sent through the tunnel.
pub fn packet_count(packets: &Vec<Packet<Ip>>) -> (count: usize)
    ensures
        count == packets@.len(),
{
    packets.len()
}

} // verus!
