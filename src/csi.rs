//! The CSI node plugin: request types, the kernel mount-table model and the
//! decisions taken by each Node RPC.

pub mod error;
pub mod filesystem_vol;
pub mod mount;
pub mod node;
pub mod types;
