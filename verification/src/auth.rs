//! Authentication of exact Mach messages by disposable one-job workers.

pub mod message;
pub mod pool;
pub mod route;
pub mod worker;
pub mod worker_entry;
pub mod worker_frame;
pub mod worker_spawn;
