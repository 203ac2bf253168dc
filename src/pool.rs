//! The pool and replica gRPC methods: which protocol a replica is shared
//! over, what each call does given what exists, and the status that a pool
//! error becomes.

use vstd::prelude::*;
use crate::csi::types::Code;

verus! {

/// The protocol a replica is shared over.
#[derive(Clone, Copy, Debug, PartialEq, Eq, Structural)]
pub enum Protocol {
    /// not shared
    Off,
    Nvmf,
    Iscsi,
    Invalid,
}

/// The protocol that a wire number stands for.
pub open spec fn protocol_of(n: i32) -> Protocol {
    if n == 0 {
        Protocol::Off
    } else if n == 1 {
        Protocol::Nvmf
    } else if n == 2 {
        Protocol::Iscsi
    } else {
        Protocol::Invalid
    }
}

impl Protocol {
    /// The protocol that a wire number stands for.
    pub fn from_i32(n: i32) -> (r: Protocol)
        ensures
            r == protocol_of(n),
    {
        if n == 0 {
            Protocol::Off
        } else if n == 1 {
            Protocol::Nvmf
        } else if n == 2 {
            Protocol::Iscsi
        } else {
            Protocol::Invalid
        }
    }

    /// The wire number of the protocol.
    pub fn to_i32(&self) -> (r: i32)
        ensures
            *self != Protocol::Invalid ==> protocol_of(r) == *self,
            *self == Protocol::Invalid ==> r == i32::MAX,
    {
        match self {
            Protocol::Off => 0,
            Protocol::Nvmf => 1,
            Protocol::Iscsi => 2,
            Protocol::Invalid => i32::MAX,
        }
    }
}

/// The kinds of pool errors.
#[derive(Clone, Copy, Debug, PartialEq, Eq, Structural)]
pub enum LvsError {
    Import,
    Create,
    Invalid,
    Destroy,
    RepCreate,
    RepDestroy,
    LvolShare,
    InvalidBdev,
}

/// The status code that a pool error is reported with: a bad request for
/// import, create and invalid-argument errors, an internal error otherwise.
pub fn status_code(e: LvsError) -> (r: Code)
    ensures
        r == match e {
            LvsError::Import | LvsError::Create | LvsError::Invalid => Code::InvalidArgument,
            _ => Code::Internal,
        },
{
    match e {
        LvsError::Import | LvsError::Create | LvsError::Invalid => Code::InvalidArgument,
        _ => Code::Internal,
    }
}

/// What a replica creation does.
#[derive(Clone, Copy, Debug, PartialEq, Eq, Structural)]
pub enum CreateReplica {
    /// the replica exists: it is returned as it is
    Existing,
    /// make the replica, then share it over NVMf if asked; a replica that
    /// fails to be shared is destroyed again
    Create { share_nvmf: bool },
}

/// Decide a replica creation: the pool must exist, an existing replica is
/// returned, and only no sharing or NVMf sharing may be asked for.
pub fn create_replica(pool_exists: bool, replica_exists: bool, share: i32) -> (r: Result<CreateReplica, Code>)
    ensures
        !pool_exists ==> r == Err::<CreateReplica, Code>(Code::NotFound),
        pool_exists && replica_exists ==> r == Ok::<CreateReplica, Code>(CreateReplica::Existing),
        pool_exists && !replica_exists ==> r == match protocol_of(share) {
            Protocol::Off => Ok(CreateReplica::Create { share_nvmf: false }),
            Protocol::Nvmf => Ok(CreateReplica::Create { share_nvmf: true }),
            _ => Err(Code::InvalidArgument),
        },
{
    if !pool_exists {
        return Err(Code::NotFound);
    }
    if replica_exists {
        return Ok(CreateReplica::Existing);
    }
    match Protocol::from_i32(share) {
        Protocol::Off => Ok(CreateReplica::Create { share_nvmf: false }),
        Protocol::Nvmf => Ok(CreateReplica::Create { share_nvmf: true }),
        _ => Err(Code::InvalidArgument),
    }
}

/// What sharing a replica does.
#[derive(Clone, Copy, Debug, PartialEq, Eq, Structural)]
pub enum ShareReplica {
    /// already shared over the protocol asked for
    AlreadyShared,
    /// stop sharing; the replica is then reached as `bdev:///<name>`
    Unshare,
    /// share over NVMf
    ShareNvmf,
}

/// Decide sharing a replica, given whether it exists and how it is shared:
/// a missing replica is an invalid device, and iSCSI is not supported.
pub fn share_replica(exists: bool, shared: Option<Protocol>, share: i32) -> (r: Result<ShareReplica, LvsError>)
    ensures
        !exists ==> r == Err::<ShareReplica, LvsError>(LvsError::InvalidBdev),
        exists && shared == Some(protocol_of(share)) ==> r == Ok::<ShareReplica, LvsError>(ShareReplica::AlreadyShared),
        exists && shared != Some(protocol_of(share)) ==> r == match protocol_of(share) {
            Protocol::Off => Ok(ShareReplica::Unshare),
            Protocol::Nvmf => Ok(ShareReplica::ShareNvmf),
            _ => Err(LvsError::LvolShare),
        },
{
    if !exists {
        return Err(LvsError::InvalidBdev);
    }
    let p = Protocol::from_i32(share);
    if shared == Some(p) {
        return Ok(ShareReplica::AlreadyShared);
    }
    match p {
        Protocol::Off => Ok(ShareReplica::Unshare),
        Protocol::Nvmf => Ok(ShareReplica::ShareNvmf),
        _ => Err(LvsError::LvolShare),
    }
}

} // verus!
