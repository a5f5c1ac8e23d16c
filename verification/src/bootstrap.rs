//! The private Mach bootstrap channel between a parent and the helper that it spawns.

pub mod channel;
pub mod environment;
pub mod error;
pub mod handshake;
pub mod identity;
pub mod lifecycle;
pub mod port;
pub mod spawn;
pub mod timing;
pub mod vnext;
