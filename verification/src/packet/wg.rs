//! The four messages of WireGuard.
//!
//! Multi-byte fields of WireGuard messages are little-endian.

use vstd::prelude::*;

use crate::packet::kinds::{le32, read_le32};
use crate::packet::{Packet, PoD};

verus! {

/// Length of a handshake initiation, in bytes.
pub const HANDSHAKE_INIT_LEN: usize = 148;

/// Length of a handshake response, in bytes.
pub const HANDSHAKE_RESP_LEN: usize = 92;

/// Length of a cookie reply, in bytes.
pub const COOKIE_REPLY_LEN: usize = 64;

/// What a data message adds to the packet in it, in bytes: a header of 16 bytes in front and the
/// tag of 16 bytes that authenticates the packet behind.
pub const DATA_OVERHEAD: usize = 32;

/// A handshake initiation.
#[derive(Debug)]
pub struct WgHandshakeInit;

/// A handshake response.
#[derive(Debug)]
pub struct WgHandshakeResp;

/// A cookie reply.
#[derive(Debug)]
pub struct WgCookieReply;

/// A data message: an encrypted packet.
#[derive(Debug)]
pub struct WgData;

impl PoD for WgHandshakeInit {
    open spec fn valid(bytes: Seq<u8>) -> bool {
        bytes.len() == HANDSHAKE_INIT_LEN
    }
}

impl PoD for WgHandshakeResp {
    open spec fn valid(bytes: Seq<u8>) -> bool {
        bytes.len() == HANDSHAKE_RESP_LEN
    }
}

impl PoD for WgCookieReply {
    open spec fn valid(bytes: Seq<u8>) -> bool {
        bytes.len() == COOKIE_REPLY_LEN
    }
}

impl PoD for WgData {
    open spec fn valid(bytes: Seq<u8>) -> bool {
        DATA_OVERHEAD <= bytes.len()
    }
}

/// The index of the session that a data message is meant for.
pub open spec fn data_receiver_idx(bytes: Seq<u8>) -> int {
    le32(bytes, 4)
}

/// Whether a data message is a keepalive: one with an empty packet in it.
pub open spec fn data_is_keepalive(bytes: Seq<u8>) -> bool {
    bytes.len() == DATA_OVERHEAD
}

impl Packet<WgData> {
    /// The index of the session that this message is meant for.
    pub fn receiver_idx(&self) -> (idx: u32)
        requires
            self.wf(),
        ensures
            idx == data_receiver_idx(self@),
    {
        read_le32(self.as_bytes(), 4)
    }

    /// Whether this message is a keepalive: one with an empty packet in it.
    pub fn is_keepalive(&self) -> (b: bool)
        ensures
            b == data_is_keepalive(self@),
    {
        self.len() == DATA_OVERHEAD
    }
}

/// A WireGuard message of some kind.
#[derive(Debug)]
pub enum WgKind {
    /// A handshake initiation.
    HandshakeInit(Packet<WgHandshakeInit>),
    /// A handshake response.
    HandshakeResp(Packet<WgHandshakeResp>),
    /// A cookie reply.
    CookieReply(Packet<WgCookieReply>),
    /// A data message.
    Data(Packet<WgData>),
}

impl WgKind {
    /// The bytes of the message make a message of its kind.
    pub open spec fn wf(&self) -> bool {
        match *self {
            WgKind::HandshakeInit(p) => p.wf(),
            WgKind::HandshakeResp(p) => p.wf(),
            WgKind::CookieReply(p) => p.wf(),
            WgKind::Data(p) => p.wf(),
        }
    }
}

} // verus!
