//! An NVMe controller and its reset.
//!
//! ```text
//!    Running --reset--> Resetting
//!       ^                  |  every channel: drop its qpair
//!       |                  v
//!       |           hardware reset --failed--> completion(err)
//!       |                  |  every channel: new qpair, connect
//!       +---- completion <-+
//! ```

use vstd::prelude::*;
use crate::nvmx::channel::{fresh_qpair, reinit_rc, NvmeIoChannelInner, QpairSetup};

verus! {

/// Linux error numbers that the controller reports.
pub const EBUSY: i32 = 16;
pub const ENOMEM: i32 = 12;
pub const ENODEV: i32 = 19;

/// The number of reset contexts that may be in use at once.
pub const RESET_CTX_POOL_SIZE: u64 = 1024 - 1;

/// The state of a controller.
#[derive(Clone, Copy, Debug, PartialEq, Eq, Structural)]
pub enum NvmeControllerState {
    Initializing,
    Running,
    Resetting,
    Destroying,
}

/// The name of a controller state.
pub open spec fn state_name(s: NvmeControllerState) -> Seq<char> {
    match s {
        NvmeControllerState::Initializing => "Initializing"@,
        NvmeControllerState::Running => "Running"@,
        NvmeControllerState::Resetting => "Resetting"@,
        NvmeControllerState::Destroying => "Destroying"@,
    }
}

impl NvmeControllerState {
    /// The name of the state.
    pub fn name(&self) -> (r: &'static str)
        ensures
            r@ == state_name(*self),
    {
        match self {
            NvmeControllerState::Initializing => "Initializing",
            NvmeControllerState::Running => "Running",
            NvmeControllerState::Resetting => "Resetting",
            NvmeControllerState::Destroying => "Destroying",
        }
    }
}

/// The transitions a controller may take: forward only, but for Running
/// and Resetting, which alternate.
pub open spec fn transition_ok(from: NvmeControllerState, to: NvmeControllerState) -> bool {
    match (from, to) {
        (NvmeControllerState::Initializing, NvmeControllerState::Running) => true,
        (NvmeControllerState::Running, NvmeControllerState::Resetting) => true,
        (NvmeControllerState::Resetting, NvmeControllerState::Running) => true,
        (NvmeControllerState::Destroying, _) => false,
        (_, NvmeControllerState::Destroying) => true,
        _ => false,
    }
}

/// Errors of the controller layer.
#[derive(Debug)]
pub enum CoreError {
    /// a reset could not be started; `errno` says why
    ResetDispatch { errno: i32 },
    /// no I/O channel could be made for the named controller
    GetIoChannel { name: String },
}

/// A namespace of a controller, as the runtime's handle.
#[derive(Clone, Copy, Debug, PartialEq, Eq, Structural)]
pub struct NvmeNamespace {
    pub handle: u64,
}

/// What a controller holds once attached: the runtime's handle and its
/// namespaces (the first one only, for now).
#[derive(Debug)]
pub struct NvmeControllerInner {
    pub ctrlr: u64,
    pub namespaces: Vec<NvmeNamespace>,
}

/// An NVMe controller.
#[derive(Debug)]
pub struct NvmeController {
    pub name: String,
    pub id: u64,
    pub prchk_flags: u32,
    pub state: NvmeControllerState,
    pub inner: Option<NvmeControllerInner>,
}

/// Where a reset stands. Its steps come in this order only: every
/// channel drops its qpair; then the controller is reset; then, if that
/// worked, every channel that is not shut down gets a new qpair; then the
/// reset completes.
#[derive(Clone, Copy, Debug, PartialEq, Eq, Structural)]
pub enum ResetPhase {
    DestroyChannels,
    HardwareReset,
    CreateChannels,
    Complete(i32),
}

/// A reset in progress: the controller's name and handle, and its phase.
#[derive(Debug)]
pub struct ResetCtx {
    pub name: String,
    pub spdk_handle: u64,
    pub phase: ResetPhase,
}

/// The pool of reset contexts: a reset that finds it exhausted fails at
/// once.
#[derive(Debug)]
pub struct ResetCtxPool {
    pub capacity: u64,
    pub in_use: u64,
}

impl ResetCtxPool {
    pub open spec fn wf(&self) -> bool {
        self.in_use <= self.capacity
    }

    /// A pool of `RESET_CTX_POOL_SIZE` contexts, none in use.
    pub fn new() -> (r: ResetCtxPool)
        ensures
            r.wf(),
            r.capacity == RESET_CTX_POOL_SIZE,
            r.in_use == 0,
    {
        ResetCtxPool { capacity: RESET_CTX_POOL_SIZE, in_use: 0 }
    }
}

/// What follows the sweep that dropped every qpair.
#[derive(Clone, Copy, Debug, PartialEq, Eq, Structural)]
pub enum ResetStep {
    /// recreate every channel's qpair
    Recreate,
    /// complete the reset with this status
    Complete(i32),
}

impl NvmeController {
    /// The id is zero until the controller has been attached; an attached
    /// controller that is not being destroyed has its handle.
    pub open spec fn wf(&self) -> bool {
        &&& (self.state == NvmeControllerState::Initializing ==> self.id == 0 && self.inner is None)
        &&& (self.state == NvmeControllerState::Running || self.state == NvmeControllerState::Resetting)
            ==> self.id != 0 && self.inner is Some
    }

    /// A new controller with the given name, not attached yet.
    pub fn new(name: &str, prchk_flags: u32) -> (r: Option<NvmeController>)
        ensures
            r matches Some(c) && c.wf() && c.name@ == name@ && c.id == 0 && c.prchk_flags
                == prchk_flags && c.state == NvmeControllerState::Initializing && c.inner is None,
    {
        Some(NvmeController {
            name: String::from_str(name),
            id: 0,
            prchk_flags,
            state: NvmeControllerState::Initializing,
            inner: None,
        })
    }

    /// The name of the controller.
    pub fn get_name(&self) -> (r: String)
        ensures
            r@ == self.name@,
    {
        self.name.clone()
    }

    /// The protection flags that the controller was made with.
    pub fn flags(&self) -> (r: u32)
        ensures
            r == self.prchk_flags,
    {
        self.prchk_flags
    }

    /// The id of the controller, once it has one.
    pub fn id(&self) -> (r: u64)
        requires
            self.id != 0,
        ensures
            r == self.id,
    {
        self.id
    }

    /// The state of the controller.
    pub fn get_state(&self) -> (r: NvmeControllerState)
        ensures
            r == self.state,
    {
        self.state
    }

    /// Move to another state along an allowed transition.
    pub fn set_state(&mut self, new_state: NvmeControllerState)
        requires
            old(self).wf(),
            transition_ok(old(self).state, new_state),
            new_state == NvmeControllerState::Running ==> old(self).id != 0 && old(self).inner is Some,
        ensures
            final(self).wf(),
            final(self).state == new_state,
            final(self).name@ == old(self).name@,
            final(self).id == old(self).id,
            final(self).prchk_flags == old(self).prchk_flags,
            final(self).inner == old(self).inner,
    {
        self.state = new_state;
    }

    /// Complete the attachment of the controller: it takes the runtime's
    /// handle as its id, records its first namespace, if the controller
    /// reports one, and starts running.
    pub fn attached(&mut self, ctrlr: u64, namespace: Option<NvmeNamespace>)
        requires
            old(self).wf(),
            old(self).state == NvmeControllerState::Initializing,
            ctrlr != 0,
        ensures
            final(self).wf(),
            final(self).state == NvmeControllerState::Running,
            final(self).id == ctrlr,
            final(self).name@ == old(self).name@,
            final(self).prchk_flags == old(self).prchk_flags,
            final(self).inner matches Some(i) && i.ctrlr == ctrlr && match namespace {
                Some(ns) => i.namespaces@ == seq![ns],
                None => i.namespaces@.len() == 0,
            },
    {
        self.id = ctrlr;
        let mut namespaces: Vec<NvmeNamespace> = Vec::new();
        if let Some(ns) = namespace {
            namespaces.push(ns);
            assert(namespaces@ =~= seq![ns]);
        }
        self.inner = Some(NvmeControllerInner { ctrlr, namespaces });
        self.state = NvmeControllerState::Running;
    }

    /// The first namespace of an attached controller, if it has one.
    pub fn namespace(&self) -> (r: Option<NvmeNamespace>)
        requires
            self.inner is Some,
        ensures
            match r {
                Some(ns) => self.inner->Some_0.namespaces@.len() > 0 && ns == self.inner->Some_0.namespaces@[0],
                None => self.inner->Some_0.namespaces@.len() == 0,
            },
    {
        match &self.inner {
            Some(inner) => if inner.namespaces.len() > 0 {
                Some(inner.namespaces[0])
            } else {
                None
            },
            None => None,
        }
    }

    /// The runtime's handle of the controller, or zero before attachment.
    pub fn ctrlr_as_ptr(&self) -> (r: u64)
        ensures
            r == match self.inner {
                Some(i) => i.ctrlr,
                None => 0,
            },
    {
        match &self.inner {
            Some(inner) => inner.ctrlr,
            None => 0,
        }
    }

    /// Start a reset: refused with EBUSY unless the controller is running,
    /// and with ENOMEM when every reset context is in use. Otherwise the
    /// controller is resetting and holds a context. `failover` is accepted
    /// but not supported.
    pub fn reset(&mut self, pool: &mut ResetCtxPool, failover: bool) -> (r: Result<ResetCtx, CoreError>)
        requires
            old(self).wf(),
            old(pool).wf(),
        ensures
            final(self).wf(),
            final(pool).wf(),
            final(pool).capacity == old(pool).capacity,
            final(self).name@ == old(self).name@,
            final(self).id == old(self).id,
            final(self).prchk_flags == old(self).prchk_flags,
            final(self).inner == old(self).inner,
            old(self).state != NvmeControllerState::Running ==> (r matches Err(CoreError::ResetDispatch { errno })
                && errno == EBUSY) && *final(self) == *old(self) && *final(pool) == *old(pool),
            old(self).state == NvmeControllerState::Running && old(pool).in_use == old(pool).capacity ==> (r matches Err(
                CoreError::ResetDispatch { errno },
            ) && errno == ENOMEM) && *final(self) == *old(self) && *final(pool) == *old(pool),
            old(self).state == NvmeControllerState::Running && old(pool).in_use < old(pool).capacity ==> (r matches Ok(
                ctx,
            ) && ctx.name@ == old(self).name@ && ctx.spdk_handle == old(self).inner->Some_0.ctrlr && ctx.phase
                == ResetPhase::DestroyChannels) && final(self).state == NvmeControllerState::Resetting && final(pool).in_use == old(pool).in_use + 1,
    {
        match self.state {
            NvmeControllerState::Running => {},
            _ => {
                return Err(CoreError::ResetDispatch { errno: EBUSY });
            },
        }
        if pool.in_use >= pool.capacity {
            return Err(CoreError::ResetDispatch { errno: ENOMEM });
        }
        pool.in_use = pool.in_use + 1;
        let ctx = ResetCtx { name: self.name.clone(), spdk_handle: self.ctrlr_as_ptr(), phase: ResetPhase::DestroyChannels };
        self.state = NvmeControllerState::Resetting;
        Ok(ctx)
    }

    /// Finish a reset that has come to its end: the controller runs again,
    /// the context goes back to the pool, and the result is what the
    /// completion callback is told, once: whether the reset succeeded.
    pub fn complete_reset(&mut self, pool: &mut ResetCtxPool, ctx: ResetCtx) -> (success: bool)
        requires
            ctx.phase is Complete,
            old(self).wf(),
            old(self).state == NvmeControllerState::Resetting,
            old(pool).wf(),
            old(pool).in_use > 0,
        ensures
            final(self).wf(),
            final(self).state == NvmeControllerState::Running,
            final(self).name@ == old(self).name@,
            final(self).id == old(self).id,
            final(self).prchk_flags == old(self).prchk_flags,
            final(self).inner == old(self).inner,
            final(pool).wf(),
            final(pool).capacity == old(pool).capacity,
            final(pool).in_use == old(pool).in_use - 1,
            success == (ctx.phase->Complete_0 == 0),
    {
        self.state = NvmeControllerState::Running;
        pool.in_use = pool.in_use - 1;
        match ctx.phase {
            ResetPhase::Complete(status) => status == 0,
            _ => false,
        }
    }
}

/// What the admin-queue poller reports, given the number of admin
/// completions the runtime processed (negative on error): whether it did
/// any work.
pub fn nvme_poll_adminq(completions: i32) -> (r: i32)
    ensures
        r == if completions == 0 { 0i32 } else { 1i32 },
{
    if completions == 0 {
        0
    } else {
        1
    }
}

/// Drop the qpair of every channel, in turn, as the first step of a reset;
/// the status of the sweep, which moves the reset on to the hardware reset.
pub fn reset_destroy_channels(ctx: &mut ResetCtx, channels: &mut Vec<NvmeIoChannelInner>) -> (status: i32)
    requires
        old(ctx).phase == ResetPhase::DestroyChannels,
    ensures
        status == 0,
        final(ctx).phase == ResetPhase::HardwareReset,
        final(ctx).name == old(ctx).name,
        final(ctx).spdk_handle == old(ctx).spdk_handle,
        final(channels)@.len() == old(channels)@.len(),
        forall|i: int| 0 <= i < final(channels)@.len() ==> (#[trigger] final(channels)@[i]).qpair is None
            && final(channels)@[i].is_shutdown == old(channels)@[i].is_shutdown
            && final(channels)@[i].poll_group == old(channels)@[i].poll_group,
{
    let mut i: usize = 0;
    while i < channels.len()
        invariant
            i <= channels@.len(),
            channels@.len() == old(channels)@.len(),
            forall|j: int| 0 <= j < i ==> (#[trigger] channels@[j]).qpair is None
                && channels@[j].is_shutdown == old(channels)@[j].is_shutdown
                && channels@[j].poll_group == old(channels)@[j].poll_group,
            forall|j: int| i <= j < channels@.len() ==> #[trigger] channels@[j] == old(channels)@[j],
        decreases channels@.len() - i,
    {
        let mut ch = channels.remove(i);
        let rc = ch.reset();
        channels.insert(i, ch);
        i = i + 1;
    }
    ctx.phase = ResetPhase::HardwareReset;
    0
}

/// What follows the sweep that dropped the qpairs, given its status and
/// the result of the hardware reset, which is made only now, after every
/// channel has dropped its qpair.
pub fn reset_destroy_channels_done(ctx: &mut ResetCtx, status: i32, hardware_reset_rc: i32) -> (r: ResetStep)
    requires
        old(ctx).phase == ResetPhase::HardwareReset,
    ensures
        r == if status != 0 {
            ResetStep::Complete(status)
        } else if hardware_reset_rc != 0 {
            ResetStep::Complete(hardware_reset_rc)
        } else {
            ResetStep::Recreate
        },
        final(ctx).phase == match r {
            ResetStep::Recreate => ResetPhase::CreateChannels,
            ResetStep::Complete(s) => ResetPhase::Complete(s),
        },
        final(ctx).name == old(ctx).name,
        final(ctx).spdk_handle == old(ctx).spdk_handle,
{
    let r = if status != 0 {
        ResetStep::Complete(status)
    } else if hardware_reset_rc != 0 {
        ResetStep::Complete(hardware_reset_rc)
    } else {
        ResetStep::Recreate
    };
    ctx.phase = match r {
        ResetStep::Recreate => ResetPhase::CreateChannels,
        ResetStep::Complete(s) => ResetPhase::Complete(s),
    };
    r
}

/// Whether every channel is shut down or holds the qpair that its setup
/// made, connected.
pub open spec fn all_fresh(channels: Seq<NvmeIoChannelInner>, setups: Seq<QpairSetup>, handle: u64) -> bool {
    forall|i: int|
        0 <= i < channels.len() ==> (#[trigger] channels[i]).is_shutdown || (channels[i].qpair == fresh_qpair(
            setups[i],
            handle,
        ) && channels[i].qpair is Some)
}

/// Whether the setup of every channel that is not shut down succeeds.
pub open spec fn setups_succeed(channels: Seq<NvmeIoChannelInner>, setups: Seq<QpairSetup>) -> bool {
    forall|i: int| 0 <= i < channels.len() ==> (#[trigger] channels[i]).is_shutdown || reinit_rc(false, setups[i]) == 0
}

/// Give every channel that is not shut down a new qpair, in turn, after the
/// hardware reset succeeded; `setups[i]` is the runtime's answer for
/// channel `i`. A channel that is shut down is passed over. The sweep stops
/// at the first channel that fails, and its status is that channel's; it
/// completes the reset.
pub fn reset_create_channels(ctx: &mut ResetCtx, channels: &mut Vec<NvmeIoChannelInner>, setups: &Vec<QpairSetup>) -> (status: i32)
    requires
        old(ctx).phase == ResetPhase::CreateChannels,
        setups@.len() == old(channels)@.len(),
    ensures
        final(ctx).phase == ResetPhase::Complete(status),
        final(ctx).name == old(ctx).name,
        final(ctx).spdk_handle == old(ctx).spdk_handle,
        final(channels)@.len() == old(channels)@.len(),
        forall|i: int| 0 <= i < final(channels)@.len() ==> (#[trigger] final(channels)@[i]).is_shutdown == old(channels)@[i].is_shutdown,
        status == 0 ==> all_fresh(final(channels)@, setups@, old(ctx).spdk_handle),
        (status == 0) == setups_succeed(old(channels)@, setups@),
        status != 0 ==> exists|k: int| 0 <= k < old(channels)@.len() && !(#[trigger] old(channels)@[k]).is_shutdown
            && status == reinit_rc(false, setups@[k]),
{
    let mut i: usize = 0;
    while i < channels.len()
        invariant
            i <= channels@.len(),
            channels@.len() == old(channels)@.len(),
            setups@.len() == channels@.len(),
            ctx.phase == ResetPhase::CreateChannels,
            ctx.name == old(ctx).name,
            ctx.spdk_handle == old(ctx).spdk_handle,
            forall|j: int| 0 <= j < channels@.len() ==> (#[trigger] channels@[j]).is_shutdown == old(channels)@[j].is_shutdown,
            forall|j: int| 0 <= j < i ==> (#[trigger] channels@[j]).is_shutdown || (channels@[j].qpair == fresh_qpair(setups@[j], ctx.spdk_handle)
                && channels@[j].qpair is Some),
            forall|j: int| 0 <= j < i ==> (#[trigger] old(channels)@[j]).is_shutdown || reinit_rc(false, setups@[j]) == 0,
        decreases channels@.len() - i,
    {
        if !channels[i].is_shutdown() {
            let mut ch = channels.remove(i);
            let rc = ch.reinitialize(ctx.name.as_str(), ctx.spdk_handle, setups[i]);
            channels.insert(i, ch);
            if rc != 0 {
                ctx.phase = ResetPhase::Complete(rc);
                assert(rc == reinit_rc(false, setups@[i as int]));
                return rc;
            }
        }
        i = i + 1;
    }
    ctx.phase = ResetPhase::Complete(0);
    0
}

impl NvmeController {
    /// A whole reset of a running controller over its channels, given the
    /// runtime's answers: `hardware_reset_rc` for the controller, and
    /// `setups[i]` for channel `i`. It runs the steps in their order: every
    /// channel drops its qpair, the hardware reset, a new qpair for every
    /// channel that is not shut down, the completion. A running controller
    /// with a free context is always reset; the controller then runs again,
    /// and the result is the one status handed to the completion callback.
    /// After a successful reset every channel is shut down or holds a
    /// freshly connected qpair.
    pub fn reset_channels(
        &mut self,
        pool: &mut ResetCtxPool,
        channels: &mut Vec<NvmeIoChannelInner>,
        failover: bool,
        hardware_reset_rc: i32,
        setups: &Vec<QpairSetup>,
    ) -> (r: Result<bool, CoreError>)
        requires
            old(self).wf(),
            old(pool).wf(),
            setups@.len() == old(channels)@.len(),
        ensures
            final(self).wf(),
            final(pool).wf(),
            final(self).id == old(self).id,
            old(self).state != NvmeControllerState::Running ==> (r matches Err(CoreError::ResetDispatch { errno })
                && errno == EBUSY),
            old(self).state == NvmeControllerState::Running && old(pool).in_use == old(pool).capacity ==> (r matches Err(
                CoreError::ResetDispatch { errno },
            ) && errno == ENOMEM),
            old(self).state == NvmeControllerState::Running && old(pool).in_use < old(pool).capacity ==> r is Ok,
            r is Err ==> *final(self) == *old(self) && *final(pool) == *old(pool) && *final(channels) == *old(channels),
            r is Ok ==> final(self).state == NvmeControllerState::Running && final(pool).in_use == old(pool).in_use,
            r is Ok ==> final(channels)@.len() == old(channels)@.len(),
            r is Ok ==> (r == Ok::<bool, CoreError>(true) <==> hardware_reset_rc == 0 && setups_succeed(old(channels)@, setups@)),
            r == Ok::<bool, CoreError>(true) ==> all_fresh(final(channels)@, setups@, old(self).inner->Some_0.ctrlr),
    {
        let mut ctx = match self.reset(pool, failover) {
            Ok(ctx) => ctx,
            Err(e) => {
                return Err(e);
            },
        };
        let ghost start = channels@;
        let status = reset_destroy_channels(&mut ctx, channels);
        match reset_destroy_channels_done(&mut ctx, status, hardware_reset_rc) {
            ResetStep::Complete(_) => Ok(self.complete_reset(pool, ctx)),
            ResetStep::Recreate => {
                let ghost mid = channels@;
                reset_create_channels(&mut ctx, channels, setups);
                proof {
                    assert forall|i: int| 0 <= i < start.len() implies ((#[trigger] start[i]).is_shutdown
                        || reinit_rc(false, setups@[i]) == 0) == (mid[i].is_shutdown || reinit_rc(false, setups@[i]) == 0) by {
                        assert(mid[i].is_shutdown == start[i].is_shutdown);
                    }
                }
                Ok(self.complete_reset(pool, ctx))
            },
        }
    }
}

} // verus!
