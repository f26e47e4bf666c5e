//! The core of a WireGuard tunnel: packets, timers and the noise state of a point-to-point
//! connection, verified.

pub mod device;
pub mod noise;
pub mod packet;
pub mod time;
