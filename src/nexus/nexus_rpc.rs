//! The JSON-RPC methods on nexuses: names made from UUIDs, lookups, listing
//! and the replies to create, destroy, publish and child operations.

use vstd::prelude::*;
use crate::guid::{hyphenated, parse_uuid, uuid_hyphenated, uuid_of};
use crate::nexus::child::{state_name, NexusChild};
use crate::nexus::nexus_bdev::{status_name, status_of, Nexus};
use crate::text::{join2, starts_with, str_eq};

verus! {

/// JSON-RPC error codes.
#[derive(Clone, Copy, Debug, PartialEq, Eq, Structural)]
pub enum JsonRpcCode {
    InvalidParams,
    NotFound,
    InternalError,
}

/// A failed JSON-RPC call.
#[derive(Debug)]
pub struct JsonRpcError {
    pub code: JsonRpcCode,
    pub message: String,
}

/// The name of the nexus with a given UUID.
pub open spec fn nexus_name(v: u128) -> Seq<char> {
    "nexus-"@ + hyphenated(v)
}

/// The name of the nexus of a UUID: `nexus-` and the UUID in its
/// hyphenated form; `InvalidParams` if the string is not a UUID.
pub fn uuid_to_name(uuid: &str) -> (r: Result<String, JsonRpcError>)
    ensures
        match uuid_of(uuid@) {
            Some(v) => r matches Ok(n) && n@ == nexus_name(v),
            None => r matches Err(e) && e.code == JsonRpcCode::InvalidParams,
        },
{
    match parse_uuid(uuid) {
        Some(v) => Ok(join2("nexus-", uuid_hyphenated(v).as_str())),
        None => Err(JsonRpcError { code: JsonRpcCode::InvalidParams, message: String::from_str("Invalid UUID") }),
    }
}

/// The UUID part of a nexus name: the name without its `nexus-` prefix.
pub open spec fn uuid_part(name: Seq<char>) -> Seq<char> {
    if name.len() >= 6 && name.subrange(0, 6) == "nexus-"@ {
        name.subrange(6, name.len() as int)
    } else {
        name
    }
}

/// The UUID part of a nexus name. A name that does not start with `nexus-`
/// was not made by these methods and is returned whole.
pub fn name_to_uuid(name: &str) -> (r: &str)
    ensures
        r@ == uuid_part(name@),
{
    proof {
        reveal_strlit("nexus-");
    }
    if starts_with(name, "nexus-") {
        name.substring_char(6, name.unicode_len())
    } else {
        name
    }
}

/// The index of the nexus with the given UUID among `instances`;
/// `InvalidParams` for a string that is not a UUID, `NotFound` where no
/// nexus has that name.
pub fn nexus_lookup(uuid: &str, instances: &Vec<Nexus>) -> (r: Result<usize, JsonRpcError>)
    ensures
        match uuid_of(uuid@) {
            None => r matches Err(e) && e.code == JsonRpcCode::InvalidParams,
            Some(v) => match r {
                Ok(i) => i < instances@.len() && instances@[i as int].name@ == nexus_name(v),
                Err(e) => e.code == JsonRpcCode::NotFound && forall|j: int|
                    0 <= j < instances@.len() ==> (#[trigger] instances@[j]).name@ != nexus_name(v),
            },
        },
{
    let name = match uuid_to_name(uuid) {
        Ok(n) => n,
        Err(e) => {
            return Err(e);
        },
    };
    let mut i: usize = 0;
    while i < instances.len()
        invariant
            i <= instances@.len(),
            uuid_of(uuid@) matches Some(v) && name@ == nexus_name(v),
            forall|j: int| 0 <= j < i ==> (#[trigger] instances@[j]).name@ != name@,
        decreases instances@.len() - i,
    {
        if str_eq(instances[i].name.as_str(), name.as_str()) {
            return Ok(i);
        }
        i = i + 1;
    }
    Err(JsonRpcError { code: JsonRpcCode::NotFound, message: join2("Nexus not found: ", uuid) })
}

/// A child as listed.
#[derive(Debug)]
pub struct RpcChild {
    pub uri: String,
    pub state: String,
}

/// A nexus as listed.
#[derive(Debug)]
pub struct RpcNexus {
    pub uuid: String,
    pub size: u128,
    pub state: String,
    pub children: Vec<RpcChild>,
    pub device_path: String,
}

fn list_children(children: &Vec<NexusChild>) -> (r: Vec<RpcChild>)
    ensures
        r@.len() == children@.len(),
        forall|i: int| 0 <= i < r@.len() ==> (#[trigger] r@[i]).uri@ == children@[i].name@ && r@[i].state@ == state_name(
            children@[i].state,
        ),
{
    let mut r: Vec<RpcChild> = Vec::new();
    let mut i: usize = 0;
    while i < children.len()
        invariant
            i <= children@.len(),
            r@.len() == i,
            forall|k: int| 0 <= k < i ==> (#[trigger] r@[k]).uri@ == children@[k].name@ && r@[k].state@ == state_name(
                children@[k].state,
            ),
        decreases children@.len() - i,
    {
        r.push(RpcChild { uri: children[i].name.clone(), state: String::from_str(children[i].state.name()) });
        i = i + 1;
    }
    r
}

/// How a nexus is listed.
pub open spec fn listed(r: RpcNexus, n: Nexus) -> bool {
    &&& r.uuid@ == uuid_part(n.name@)
    &&& r.size == n.block_size as int * n.num_blocks as int
    &&& r.state@ == status_name(status_of(n.children@))
    &&& r.device_path@ == match n.share_path {
        Some(p) => p@,
        None => Seq::empty(),
    }
    &&& r.children@.len() == n.children@.len()
    &&& forall|k: int| 0 <= k < r.children@.len() ==> (#[trigger] r.children@[k]).uri@ == n.children@[k].name@
        && r.children@[k].state@ == state_name(n.children@[k].state)
}

/// The listing of every nexus: its UUID (the name without its `nexus-`
/// prefix), size in bytes, status, children and share path (empty when it
/// is not shared).
pub fn list_nexus(instances: &Vec<Nexus>) -> (r: Vec<RpcNexus>)
    ensures
        r@.len() == instances@.len(),
        forall|i: int| 0 <= i < r@.len() ==> listed(#[trigger] r@[i], instances@[i]),
{
    let mut r: Vec<RpcNexus> = Vec::new();
    let mut i: usize = 0;
    while i < instances.len()
        invariant
            i <= instances@.len(),
            r@.len() == i,
            forall|k: int| 0 <= k < i ==> listed(#[trigger] r@[k], instances@[k]),
        decreases instances@.len() - i,
    {
        let n = &instances[i];
        assert(n.block_size as int * n.num_blocks as int <= u128::MAX) by (nonlinear_arith)
            requires
                n.block_size <= u32::MAX,
                n.num_blocks <= u64::MAX,
        ;
        let device_path = match &n.share_path {
            Some(p) => p.clone(),
            None => String::new(),
        };
        r.push(RpcNexus {
            uuid: String::from_str(name_to_uuid(n.name.as_str())),
            size: n.block_size as u128 * n.num_blocks as u128,
            state: String::from_str(n.status().name()),
            children: list_children(&n.children),
            device_path,
        });
        i = i + 1;
    }
    r
}

/// The block size of nexuses made through these methods.
pub const NEXUS_BLOCK_SIZE: u64 = 4096;

/// What a create call asks for: the nexus name, block size and block count.
pub fn create_nexus_args(uuid: &str, size: u64) -> (r: Result<(String, u64, u64), JsonRpcError>)
    ensures
        match uuid_of(uuid@) {
            Some(v) => r matches Ok((n, bs, blocks)) && n@ == nexus_name(v) && bs == NEXUS_BLOCK_SIZE && blocks
                == size / NEXUS_BLOCK_SIZE,
            None => r matches Err(e) && e.code == JsonRpcCode::InvalidParams,
        },
{
    match uuid_to_name(uuid) {
        Ok(name) => Ok((name, NEXUS_BLOCK_SIZE, size / NEXUS_BLOCK_SIZE)),
        Err(e) => Err(e),
    }
}

/// How creating, or changing a child of, a nexus failed.
#[derive(Clone, Copy, Debug, PartialEq, Eq, Structural)]
pub enum NexusError {
    Exists,
    ChildExists,
    NotFound,
    Failed,
}

/// The reply to a create call: an existing nexus is no error.
pub fn create_nexus_reply(r: Result<(), NexusError>) -> (reply: Result<(), JsonRpcError>)
    ensures
        match r {
            Ok(()) => reply is Ok,
            Err(NexusError::Exists) => reply is Ok,
            Err(_) => reply matches Err(e) && e.code == JsonRpcCode::InternalError,
        },
{
    match r {
        Ok(()) => Ok(()),
        Err(NexusError::Exists) => Ok(()),
        Err(NexusError::ChildExists) => Err(JsonRpcError {
            code: JsonRpcCode::InternalError,
            message: String::from_str("child bdev already exists"),
        }),
        Err(_) => Err(JsonRpcError {
            code: JsonRpcCode::InternalError,
            message: String::from_str("failed to create nexus"),
        }),
    }
}

/// The reply to taking a child offline or online: a child that is not
/// there is no error.
pub fn child_op_reply(r: Result<(), NexusError>) -> (reply: Result<(), JsonRpcError>)
    ensures
        match r {
            Ok(()) => reply is Ok,
            Err(NexusError::NotFound) => reply is Ok,
            Err(_) => reply matches Err(e) && e.code == JsonRpcCode::InternalError,
        },
{
    match r {
        Ok(()) => Ok(()),
        Err(NexusError::NotFound) => Ok(()),
        Err(_) => Err(JsonRpcError { code: JsonRpcCode::InternalError, message: String::from_str("Internal error") }),
    }
}

} // verus!
