//! Noise protocol state of a WireGuard tunnel.
//!
//! [`Tunn`] holds the sessions, the timers and the queue of one tunnel and decides what happens
//! next. It is driven by an owner that has what the tunnel lacks: a clock, the network, and the
//! cryptography of handshakes and sessions.
//!
//! - [`errors`]: what can go wrong.
//! - [`handshake`] and [`session`]: what the tunnel knows of its handshake and its sessions.
//! - [`timers`] and [`random`]: when things are due.
//! - [`padding`]: the padding of outgoing packets.
//! - [`tunn`]: the tunnel itself.
//! - [`model`]: the tunnel in mathematical values.
//! - [`laws`]: what can be relied on, whatever happens.
//! - [`timer_laws`], [`tunn_laws`] and [`update_laws`]: what timers, events and the passing of time
//!   do, by what is there before and after.
//! - [`operation_laws`]: which operation brings what about, and what it gives.

pub mod errors;
pub mod handshake;
pub mod laws;
pub mod model;
pub mod operation_laws;
pub mod padding;
pub mod random;
pub mod session;
pub mod timer_laws;
pub mod timers;
pub mod tunn;
pub mod tunn_laws;
pub mod update_laws;
pub mod x25519;

pub use crate::noise::timers::TimerParams;
pub use crate::noise::tunn::{Tunn, TunnResult};

use vstd::prelude::*;

verus! {

/// How many sessions a tunnel keeps.
pub const N_SESSIONS: usize = 8;

/// How many packets wait for a session at most.
pub const MAX_QUEUE_DEPTH: usize = 256;

} // verus!
