//! Requests and replies of the CSI Node RPCs, reduced to the fields that the
//! node plugin reads.

use vstd::prelude::*;

verus! {

/// The gRPC status codes that the node plugin replies with.
#[derive(Clone, Copy, Debug, PartialEq, Eq, Structural)]
pub enum Code {
    InvalidArgument,
    NotFound,
    AlreadyExists,
    Internal,
    Unavailable,
    Unimplemented,
    Unknown,
}

/// A failed RPC: a status code and a human-readable message.
#[derive(Debug)]
pub struct Status {
    pub code: Code,
    pub message: String,
}

/// A filesystem volume: the filesystem wanted and the mount flags.
#[derive(Debug)]
pub struct MountVolume {
    pub fs_type: String,
    pub mount_flags: Vec<String>,
}

/// How a volume is to be accessed: as a mounted filesystem or a raw block
/// device.
#[derive(Debug)]
pub enum AccessType {
    Mount(MountVolume),
    Block,
}

/// The raw access mode carried by a request, as its protocol number.
#[derive(Debug)]
pub struct AccessMode {
    pub mode: i32,
}

/// The capability a request asks a volume to have.
#[derive(Debug)]
pub struct VolumeCapability {
    pub access_type: Option<AccessType>,
    pub access_mode: Option<AccessMode>,
}

/// The access modes that the protocol defines.
#[derive(Clone, Copy, Debug, PartialEq, Eq, Structural)]
pub enum Mode {
    Unknown,
    SingleNodeWriter,
    SingleNodeReaderOnly,
    MultiNodeReaderOnly,
    MultiNodeSingleWriter,
    MultiNodeMultiWriter,
}

/// The mode that a protocol number stands for, if any.
pub open spec fn mode_of(n: i32) -> Option<Mode> {
    if n == 0 {
        Some(Mode::Unknown)
    } else if n == 1 {
        Some(Mode::SingleNodeWriter)
    } else if n == 2 {
        Some(Mode::SingleNodeReaderOnly)
    } else if n == 3 {
        Some(Mode::MultiNodeReaderOnly)
    } else if n == 4 {
        Some(Mode::MultiNodeSingleWriter)
    } else if n == 5 {
        Some(Mode::MultiNodeMultiWriter)
    } else {
        None
    }
}

impl Mode {
    /// The mode that a protocol number stands for, if any.
    pub fn from_i32(n: i32) -> (r: Option<Mode>)
        ensures
            r == mode_of(n),
    {
        if n == 0 {
            Some(Mode::Unknown)
        } else if n == 1 {
            Some(Mode::SingleNodeWriter)
        } else if n == 2 {
            Some(Mode::SingleNodeReaderOnly)
        } else if n == 3 {
            Some(Mode::MultiNodeReaderOnly)
        } else if n == 4 {
            Some(Mode::MultiNodeSingleWriter)
        } else if n == 5 {
            Some(Mode::MultiNodeMultiWriter)
        } else {
            None
        }
    }

    /// The name of the mode.
    pub fn name(&self) -> &'static str {
        match self {
            Mode::Unknown => "Unknown",
            Mode::SingleNodeWriter => "SingleNodeWriter",
            Mode::SingleNodeReaderOnly => "SingleNodeReaderOnly",
            Mode::MultiNodeReaderOnly => "MultiNodeReaderOnly",
            Mode::MultiNodeSingleWriter => "MultiNodeSingleWriter",
            Mode::MultiNodeMultiWriter => "MultiNodeMultiWriter",
        }
    }
}

/// NodeStageVolume: attach a volume to this node and, for a filesystem
/// volume, mount it below the staging path.
#[derive(Debug)]
pub struct NodeStageVolumeRequest {
    pub volume_id: String,
    pub staging_target_path: String,
    pub volume_capability: Option<VolumeCapability>,
    pub publish_context: Vec<(String, String)>,
}

/// NodeUnstageVolume: undo what NodeStageVolume did.
#[derive(Debug)]
pub struct NodeUnstageVolumeRequest {
    pub volume_id: String,
    pub staging_target_path: String,
}

/// NodePublishVolume: expose a staged volume at a workload's target path.
#[derive(Debug)]
pub struct NodePublishVolumeRequest {
    pub volume_id: String,
    pub staging_target_path: String,
    pub target_path: String,
    pub volume_capability: Option<VolumeCapability>,
    pub readonly: bool,
    pub publish_context: Vec<(String, String)>,
}

/// NodeUnpublishVolume: remove a volume from a workload's target path.
#[derive(Debug)]
pub struct NodeUnpublishVolumeRequest {
    pub volume_id: String,
    pub target_path: String,
}

/// The reply to NodeGetInfo.
#[derive(Debug)]
pub struct NodeGetInfoResponse {
    pub node_id: String,
    pub max_volumes_per_node: i64,
}

/// The RPC capabilities that a node can advertise.
#[derive(Clone, Copy, Debug, PartialEq, Eq, Structural)]
pub enum NodeCapability {
    StageUnstageVolume,
    GetVolumeStats,
    ExpandVolume,
}

} // verus!
