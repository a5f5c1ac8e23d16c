//! The broker process: its start pipe, the plan that is staged on it, and the launcher that it
//! traces.

pub mod entry;
pub mod gate;
pub mod image;
pub mod launcher;
pub mod report;
pub mod stage;
