//! The I/O channel of a controller on one core: a queue pair (qpair) in a
//! poll group, polled by a completion poller.
//!
//! Order matters when resources are released: the poller stops, the qpair
//! leaves the poll group, and the qpair itself goes by aborting its
//! requests, disconnecting and freeing, in that order.

use vstd::prelude::*;
use crate::nvmx::controller::{NvmeController, NvmeControllerState, ENODEV, ENOMEM};

verus! {

/// A queue pair, as the runtime's handle, and the controller it belongs to.
#[derive(Clone, Copy, Debug, PartialEq, Eq, Structural)]
pub struct IoQpair {
    pub qpair: u64,
    pub ctrlr_handle: u64,
}

/// A poll group, as the runtime's handle.
#[derive(Clone, Copy, Debug, PartialEq, Eq, Structural)]
pub struct PollGroup {
    pub handle: u64,
}

/// The runtime's answers when a qpair is set up: the qpair it allocated (if
/// any), then the result of adding it to the poll group, then of connecting
/// it. A later answer is looked at only when the earlier ones succeeded.
#[derive(Clone, Copy, Debug, PartialEq, Eq, Structural)]
pub struct QpairSetup {
    pub qpair: Option<u64>,
    pub add_rc: i32,
    pub connect_rc: i32,
}

/// The qpair that a setup yields when every step succeeds.
pub open spec fn fresh_qpair(s: QpairSetup, ctrlr_handle: u64) -> Option<IoQpair> {
    match s.qpair {
        Some(q) => Some(IoQpair { qpair: q, ctrlr_handle }),
        None => None,
    }
}

/// The status of reinitialising a channel with `setup`: ENODEV for a
/// channel that is shut down, ENOMEM when no qpair was allocated, else the
/// first failing step's status, zero when every step succeeds.
pub open spec fn reinit_rc(shutdown: bool, setup: QpairSetup) -> int {
    if shutdown {
        -ENODEV
    } else if setup.qpair is None {
        -ENOMEM
    } else if setup.add_rc != 0 {
        setup.add_rc as int
    } else {
        setup.connect_rc as int
    }
}

/// One step of releasing a channel's resources.
#[derive(Clone, Copy, Debug, PartialEq, Eq, Structural)]
pub enum ReleaseStep {
    StopPoller,
    RemoveFromPollGroup(IoQpair),
    AbortRequests(IoQpair),
    Disconnect(IoQpair),
    Free(IoQpair),
    DestroyPollGroup(PollGroup),
}

impl IoQpair {
    /// How a qpair is released: its requests are aborted, then it is
    /// disconnected, then freed.
    pub fn release_steps(&self) -> (r: Vec<ReleaseStep>)
        ensures
            r@ == seq![ReleaseStep::AbortRequests(*self), ReleaseStep::Disconnect(*self), ReleaseStep::Free(*self)],
    {
        let mut r: Vec<ReleaseStep> = Vec::new();
        r.push(ReleaseStep::AbortRequests(*self));
        r.push(ReleaseStep::Disconnect(*self));
        r.push(ReleaseStep::Free(*self));
        assert(r@ =~= seq![ReleaseStep::AbortRequests(*self), ReleaseStep::Disconnect(*self), ReleaseStep::Free(*self)]);
        r
    }
}

/// The per-core state of a controller's I/O channel.
#[derive(Debug)]
pub struct NvmeIoChannelInner {
    pub poll_group: PollGroup,
    pub qpair: Option<IoQpair>,
    /// A reset is undone by reinitialisation; a shutdown is for good.
    pub is_shutdown: bool,
}

impl NvmeIoChannelInner {
    /// Reset the channel, dropping its qpair; it is unusable until it is
    /// reinitialised.
    pub fn reset(&mut self) -> (rc: i32)
        ensures
            rc == 0,
            final(self).qpair is None,
            final(self).poll_group == old(self).poll_group,
            final(self).is_shutdown == old(self).is_shutdown,
    {
        if self.qpair.is_some() {
            self.qpair = None;
        }
        0
    }

    /// Whether the channel has been shut down.
    pub fn is_shutdown(&self) -> (r: bool)
        ensures
            r == self.is_shutdown,
    {
        self.is_shutdown
    }

    /// Shut the channel down for good, dropping its qpair.
    pub fn shutdown(&mut self) -> (rc: i32)
        ensures
            rc == 0,
            final(self).is_shutdown,
            final(self).poll_group == old(self).poll_group,
            old(self).is_shutdown ==> final(self).qpair == old(self).qpair,
            !old(self).is_shutdown ==> final(self).qpair is None,
    {
        if self.is_shutdown {
            return 0;
        }
        let rc = self.reset();
        if rc == 0 {
            self.is_shutdown = true;
        }
        rc
    }

    /// Reinitialise the channel after a reset with a new qpair for the
    /// controller `ctrlr_handle`, unless it has been shut down (ENODEV).
    /// `setup` is the runtime's answer: a failed allocation gives ENOMEM, a
    /// failed add or connect its own status.
    pub fn reinitialize(&mut self, ctrlr_name: &str, ctrlr_handle: u64, setup: QpairSetup) -> (rc: i32)
        ensures
            final(self).poll_group == old(self).poll_group,
            final(self).is_shutdown == old(self).is_shutdown,
            old(self).is_shutdown ==> rc == -ENODEV && final(self).qpair == old(self).qpair,
            !old(self).is_shutdown ==> rc == (if setup.qpair is None {
                -ENOMEM
            } else if setup.add_rc != 0 {
                setup.add_rc as int
            } else {
                setup.connect_rc as int
            }),
            !old(self).is_shutdown && rc == 0 ==> final(self).qpair == fresh_qpair(setup, ctrlr_handle)
                && final(self).qpair is Some,
            !old(self).is_shutdown && rc != 0 ==> final(self).qpair is None,
    {
        if self.is_shutdown {
            return -ENODEV;
        }
        // a reset channel has no qpair; one left over is dropped
        if self.qpair.is_some() {
            self.qpair = None;
        }
        let qpair = match setup.qpair {
            Some(q) => IoQpair { qpair: q, ctrlr_handle },
            None => {
                return -ENOMEM;
            },
        };
        if setup.add_rc != 0 {
            return setup.add_rc;
        }
        if setup.connect_rc != 0 {
            // the qpair leaves the poll group again
            return setup.connect_rc;
        }
        self.qpair = Some(qpair);
        0
    }

    /// Release the channel: the steps, in order. The poller stops; the
    /// qpair, if any, leaves the poll group and is released; then the poll
    /// group is destroyed.
    pub fn destroy(self) -> (r: Vec<ReleaseStep>)
        ensures
            match self.qpair {
                Some(q) => r@ == seq![
                    ReleaseStep::StopPoller,
                    ReleaseStep::RemoveFromPollGroup(q),
                    ReleaseStep::AbortRequests(q),
                    ReleaseStep::Disconnect(q),
                    ReleaseStep::Free(q),
                    ReleaseStep::DestroyPollGroup(self.poll_group),
                ],
                None => r@ == seq![ReleaseStep::StopPoller, ReleaseStep::DestroyPollGroup(self.poll_group)],
            },
    {
        let mut r: Vec<ReleaseStep> = Vec::new();
        r.push(ReleaseStep::StopPoller);
        match self.qpair {
            Some(q) => {
                r.push(ReleaseStep::RemoveFromPollGroup(q));
                let mut rest = q.release_steps();
                r.append(&mut rest);
                r.push(ReleaseStep::DestroyPollGroup(self.poll_group));
                assert(r@ =~= seq![
                    ReleaseStep::StopPoller,
                    ReleaseStep::RemoveFromPollGroup(q),
                    ReleaseStep::AbortRequests(q),
                    ReleaseStep::Disconnect(q),
                    ReleaseStep::Free(q),
                    ReleaseStep::DestroyPollGroup(self.poll_group),
                ]);
            },
            None => {
                r.push(ReleaseStep::DestroyPollGroup(self.poll_group));
                assert(r@ =~= seq![ReleaseStep::StopPoller, ReleaseStep::DestroyPollGroup(self.poll_group)]);
            },
        }
        r
    }
}

/// What a channel's completion poller reports, given the number of
/// completions that its poll group processed: whether it did any work.
pub fn nvme_poll(completions: i64) -> (r: i32)
    ensures
        r == if completions > 0 { 1i32 } else { 0i32 },
{
    if completions > 0 {
        1
    } else {
        0
    }
}

/// The runtime's answers when a channel is built: the qpair it
/// allocated, the poll group it made, then the results of adding the qpair
/// to the group and of connecting it. A later answer is looked at only when
/// the earlier ones succeeded.
#[derive(Clone, Copy, Debug, PartialEq, Eq, Structural)]
pub struct ChannelSetup {
    pub qpair: Option<u64>,
    pub poll_group: Option<u64>,
    pub add_rc: i32,
    pub connect_rc: i32,
}

/// The first step of creating a controller's I/O channel on this core,
/// before anything is allocated: the controller registered under the
/// channel's device id (if any) must be running. The result is the
/// controller's handle, which `create` needs to build the channel; a
/// missing or stopped controller gives status 1, and then nothing is built.
pub fn create_check(controller: Option<&NvmeController>) -> (r: Result<u64, i32>)
    requires
        controller matches Some(c) ==> c.wf(),
    ensures
        match r {
            Ok(h) => controller matches Some(c) && c.state == NvmeControllerState::Running && c.inner is Some
                && h == c.inner->Some_0.ctrlr,
            Err(rc) => rc == 1 && (controller is None || controller->Some_0.state != NvmeControllerState::Running),
        },
{
    let c = match controller {
        Some(c) => c,
        None => {
            return Err(1);
        },
    };
    if c.get_state() != NvmeControllerState::Running {
        return Err(1);
    }
    match &c.inner {
        Some(inner) => Ok(inner.ctrlr),
        None => Err(1),
    }
}

/// Build the I/O channel of the controller with handle `ctrlr_handle`
/// (given by `create_check`), from the runtime's answers: the qpair joins
/// the poll group before it is connected. Any failed step gives status 1.
pub fn create(ctrlr_handle: u64, setup: ChannelSetup) -> (r: Result<NvmeIoChannelInner, i32>)
    ensures
        match r {
            Ok(ch) => setup.qpair is Some && setup.poll_group is Some && setup.add_rc == 0 && setup.connect_rc == 0
                && ch.qpair == Some(IoQpair { qpair: setup.qpair->Some_0, ctrlr_handle }) && ch.poll_group == (
            PollGroup { handle: setup.poll_group->Some_0 }) && !ch.is_shutdown,
            Err(rc) => rc == 1 && (setup.qpair is None || setup.poll_group is None || setup.add_rc != 0
                || setup.connect_rc != 0),
        },
{
    let qpair = match setup.qpair {
        Some(q) => IoQpair { qpair: q, ctrlr_handle },
        None => {
            return Err(1);
        },
    };
    let poll_group = match setup.poll_group {
        Some(g) => PollGroup { handle: g },
        None => {
            return Err(1);
        },
    };
    if setup.add_rc != 0 {
        return Err(1);
    }
    if setup.connect_rc != 0 {
        // the qpair leaves the poll group again
        return Err(1);
    }
    Ok(NvmeIoChannelInner { poll_group, qpair: Some(qpair), is_shutdown: false })
}

} // verus!
