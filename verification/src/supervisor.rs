//! Bounded, effect-ordered wire contract of the same-user supervisor.
//!
//! Nothing here touches Mach, processes, files or signals. A message reaches a connection only
//! after its own audit trailer has been authenticated, and only a request admitted by an
//! installed policy may reach a launcher.

pub mod broker_plan;
pub mod connection;
pub mod deadline;
pub mod frame;
pub mod payload;
pub mod peer;
pub mod policy;
pub mod record;
pub mod target;
