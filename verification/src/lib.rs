//! Verified core of a same-host, parent/child shared-memory transport for macOS.

pub mod auth;
pub mod bootstrap;
pub mod broker;
pub mod bytes;
pub mod digest;
pub mod mach;
pub mod order;
pub mod supervisor;
pub mod wait_status;
