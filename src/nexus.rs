//! Nexus children, their on-disk labels, per-child error accounting and the
//! nexus that mirrors I/O across its children.

pub mod label;
pub mod child;
pub mod error_store;
pub mod nexus_bdev;
pub mod nexus_rpc;
