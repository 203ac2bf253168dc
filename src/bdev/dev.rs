//! The lifecycle of a backend device: creation is idempotent, destruction
//! needs the device, and an attached device is waited for until the host
//! shows it.

use vstd::prelude::*;
use crate::bdev::uri::{BdevErrorKind, NexusBdevError, Uri, UriView};

verus! {

/// The name that a descriptor gives its device.
pub open spec fn name_of(u: UriView) -> Seq<char> {
    match u {
        UriView::Aio { name, .. } => name,
        UriView::Loopback { name, .. } => name,
        UriView::Iscsi { name, .. } => name,
        UriView::Nvmf { name, .. } => name,
    }
}

impl Uri {
    /// Create the device: where one of that name is registered already,
    /// its name; otherwise the name of the device that the runtime made
    /// (`created`), or `BdevNotFound` if it made none.
    pub fn create(&self, registered: bool, created: Option<String>) -> (r: Result<String, NexusBdevError>)
        ensures
            registered ==> (r matches Ok(n) && n@ == name_of(self@)),
            !registered ==> match created {
                Some(c) => r matches Ok(n) && n@ == c@,
                None => r matches Err(e) && e.kind_of() == BdevErrorKind::NotFound,
            },
    {
        if registered {
            return Ok(self.get_name());
        }
        match created {
            Some(name) => Ok(name),
            None => Err(NexusBdevError::BdevNotFound { name: self.get_name() }),
        }
    }

    /// Destroy the device: `BdevNotFound` where none of that name is
    /// registered; otherwise the runtime's answer, where `None` means that
    /// the request was cancelled and a non-zero errno that it failed.
    pub fn destroy(&self, registered: bool, outcome: Option<i32>) -> (r: Result<(), NexusBdevError>)
        ensures
            !registered ==> (r matches Err(e) && e.kind_of() == BdevErrorKind::NotFound),
            registered ==> match outcome {
                None => r matches Err(e) && e.kind_of() == BdevErrorKind::Cancel,
                Some(errno) => if errno == 0 {
                    r is Ok
                } else {
                    r matches Err(NexusBdevError::DestroyBdev { errno: e, .. }) && e == errno
                },
            },
    {
        if !registered {
            return Err(NexusBdevError::BdevNotFound { name: self.get_name() });
        }
        match outcome {
            None => Err(NexusBdevError::CancelBdev { name: self.get_name() }),
            Some(errno) => if errno == 0 {
                Ok(())
            } else {
                Err(NexusBdevError::DestroyBdev { name: self.get_name(), errno })
            },
        }
    }
}

/// The interval between two looks for an attached device, in milliseconds.
pub const WAIT_INTERVAL_MS: u64 = 100;

/// How many times an attached device is looked for.
pub const WAIT_RETRIES: u32 = 100;

/// What to do after looking for an attached device.
#[derive(Debug)]
pub enum WaitStep {
    /// the device is there, at this path
    Found(String),
    /// sleep for the interval, then look again with this many looks left
    Retry(u32),
    /// the budget is spent
    GiveUp,
}

/// One look of `wait_for_device`: `found` is what the look turned up and
/// `retries` the looks left before it.
pub fn wait_for_device_step(found: Option<String>, retries: u32) -> (r: WaitStep)
    ensures
        match found {
            Some(p) => r matches WaitStep::Found(q) && q@ == p@,
            None => if retries > 1 {
                r matches WaitStep::Retry(n) && n == retries - 1
            } else {
                r is GiveUp
            },
        },
{
    match found {
        Some(path) => WaitStep::Found(path),
        None => if retries > 1 {
            WaitStep::Retry(retries - 1)
        } else {
            WaitStep::GiveUp
        },
    }
}

} // verus!
