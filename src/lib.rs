//! Storage-node data-plane core: CSI node staging decisions, device URI
//! resolution, the NVMe controller reset state machine, nexus children with
//! their GPT labels, per-child error accounting and error-driven fault-out.

pub mod bdev;
pub mod csi;
pub mod event;
pub mod guid;
pub mod nexus;
pub mod nvmx;
pub mod pool;
pub mod rebuild;
pub mod text;
