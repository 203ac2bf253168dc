//! NVMe controllers: their state machine, the per-core I/O channels that
//! hold a queue pair each, the reset sweep over those channels, and the
//! builders of controller options and transport ids.

pub mod channel;
pub mod controller;
pub mod options;
pub mod transport;
pub mod registry;
