//! Established sessions.

use vstd::prelude::*;

verus! {

/// A session that a handshake has established.
///
/// The tunnel finds a session by its index and keeps its keys, of some type `K`, until the
/// session expires or is replaced. It never looks at the keys.
pub struct Session<K> {
    /// The index by which the peer addresses data messages to this session.
    pub receiving_index: u32,
    /// What seals and opens data messages.
    pub keys: K,
}

} // verus!
