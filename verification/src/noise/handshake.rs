//! What the tunnel knows of its handshake.

use vstd::prelude::*;

verus! {

/// How far a handshake has come.
#[derive(Clone, Copy, Debug, PartialEq, Eq, Structural)]
pub enum HandshakeState {
    /// No initiation of ours awaits its response.
    Idle,
    /// An initiation was sent and awaits its response.
    InitSent,
    /// The handshake was given up.
    Expired,
}

/// What changes of a handshake as messages come and go.
#[derive(Clone, Copy, Debug, PartialEq, Eq, Structural)]
pub struct HandshakeStatus {
    /// How far the handshake has come.
    pub state: HandshakeState,
    /// Whether a cookie of the peer is at hand for the next initiation.
    pub has_cookie: bool,
    /// The round-trip time of the last handshake in milliseconds, once one was measured.
    pub last_rtt: Option<u32>,
}

impl HandshakeStatus {
    /// The status of a handshake with nothing behind it.
    pub fn new() -> (status: HandshakeStatus)
        ensures
            status == fresh_status(),
    {
        HandshakeStatus { state: HandshakeState::Idle, has_cookie: false, last_rtt: None }
    }
}

/// The status of a handshake with nothing behind it.
pub open spec fn fresh_status() -> HandshakeStatus {
    HandshakeStatus { state: HandshakeState::Idle, has_cookie: false, last_rtt: None }
}

/// The keys that go into handshakes, and where the current one stands.
pub struct Handshake {
    /// Our private key.
    pub static_private: [u8; 32],
    /// Our public key.
    pub static_public: [u8; 32],
    /// The peer's public key.
    pub peer_static_public: [u8; 32],
    /// The key that both sides mix in, if they agreed on one.
    pub preshared_key: Option<[u8; 32]>,
    /// Where the current handshake stands.
    pub status: HandshakeStatus,
}

impl Handshake {
    /// A handshake that has not started.
    pub fn new(
        static_private: [u8; 32],
        static_public: [u8; 32],
        peer_static_public: [u8; 32],
        preshared_key: Option<[u8; 32]>,
    ) -> (handshake: Handshake)
        ensures
            handshake == (Handshake {
                static_private,
                static_public,
                peer_static_public,
                preshared_key,
                status: fresh_status(),
            }),
    {
        Handshake {
            static_private,
            static_public,
            peer_static_public,
            preshared_key,
            status: HandshakeStatus::new(),
        }
    }

    /// Whether an initiation awaits its response.
    pub fn is_in_progress(&self) -> (b: bool)
        ensures
            b == (self.status.state is InitSent),
    {
        match self.status.state {
            HandshakeState::InitSent => true,
            _ => false,
        }
    }

    /// Whether the handshake was given up.
    pub fn is_expired(&self) -> (b: bool)
        ensures
            b == (self.status.state is Expired),
    {
        match self.status.state {
            HandshakeState::Expired => true,
            _ => false,
        }
    }
}

} // verus!
