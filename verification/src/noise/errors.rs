//! What can go wrong in a tunnel.

use vstd::prelude::*;

verus! {

/// An error of the WireGuard protocol.
#[derive(Clone, Copy, Debug, PartialEq, Eq, Structural)]
pub enum WireGuardError {
    /// No session matches a data message.
    NoCurrentSession,
    /// The connection has expired: a new one has to be started.
    ConnectionExpired,
    /// A message does not authenticate.
    InvalidAeadTag,
    /// The handshake or the session refused a message for another reason, told apart by a number
    /// of theirs.
    Refused(u32),
}

} // verus!
