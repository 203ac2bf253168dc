//! The nexus: a logical volume that mirrors writes to every healthy child
//! and steers each read to one of them. A child whose error store says so
//! is faulted out and the nexus degrades.

use vstd::prelude::*;
use crate::nexus::child::{ChildState, IoRequest, NexusChild};
use crate::nexus::error_store::{newest, recent, window_start, ActionType, ErrorRecord, ErrorStore, IoType};

verus! {

/// The aggregate state of a nexus.
#[derive(Clone, Copy, Debug, PartialEq, Eq, Structural)]
pub enum NexusStatus {
    /// every child is healthy
    Online,
    /// some child is healthy, not all
    Degraded,
    /// no child is healthy
    Faulted,
}

/// The name of a status.
pub open spec fn status_name(s: NexusStatus) -> Seq<char> {
    match s {
        NexusStatus::Online => "online"@,
        NexusStatus::Degraded => "degraded"@,
        NexusStatus::Faulted => "faulted"@,
    }
}

impl NexusStatus {
    /// The name of the status.
    pub fn name(&self) -> (r: &'static str)
        ensures
            r@ == status_name(*self),
    {
        match self {
            NexusStatus::Online => "online",
            NexusStatus::Degraded => "degraded",
            NexusStatus::Faulted => "faulted",
        }
    }
}

/// Whether a child takes I/O.
pub open spec fn healthy(c: NexusChild) -> bool {
    c.state == ChildState::Open
}

/// The status that a nexus with these children has.
pub open spec fn status_of(children: Seq<NexusChild>) -> NexusStatus {
    if children.len() > 0 && forall|i: int| 0 <= i < children.len() ==> healthy(#[trigger] children[i]) {
        NexusStatus::Online
    } else if exists|i: int| 0 <= i < children.len() && healthy(#[trigger] children[i]) {
        NexusStatus::Degraded
    } else {
        NexusStatus::Faulted
    }
}

/// The error-store options of a nexus.
#[derive(Clone, Copy, Debug, PartialEq, Eq, Structural)]
pub struct ErrStoreOpts {
    pub enable_err_store: bool,
    pub err_store_size: usize,
    pub action: ActionType,
    pub retention_ns: u64,
    pub max_errors: u32,
}

/// A nexus and its children, each with its error store.
#[derive(Debug)]
pub struct Nexus {
    pub name: String,
    pub block_size: u32,
    pub num_blocks: u64,
    pub children: Vec<NexusChild>,
    pub stores: Vec<ErrorStore>,
    pub opts: ErrStoreOpts,
    /// where the next read starts looking for a healthy child
    pub next_read: usize,
    /// the device path under which the nexus is shared, if it is
    pub share_path: Option<String>,
}

/// The `j`-th child in turn from `start`, wrapping round at `n`.
pub open spec fn turn(start: int, j: int, n: int) -> int {
    if j < n - start {
        start + j
    } else {
        j - (n - start)
    }
}

/// The records of a child's store after an I/O with `outcome` completed:
/// a failure is recorded when the store is enabled.
pub open spec fn entries_after(s: ErrorStore, opts: ErrStoreOpts, io_type: IoType, outcome: Result<(), i32>, now: u64) -> Seq<ErrorRecord> {
    if outcome is Err && opts.enable_err_store {
        newest(
            recent(s.entries@, window_start(now, opts.retention_ns)).push(
                ErrorRecord { timestamp: now, io_type, errno: outcome->Err_0 },
            ),
            s.capacity as nat,
        )
    } else {
        s.entries@
    }
}

/// Whether a child is faulted out when an I/O with `outcome` completes and
/// its store then holds `entries`: the I/O failed, the store is enabled and
/// set to fault, the child is healthy, and more than `max_errors` records
/// lie in the retention window.
pub open spec fn faults_out(c: NexusChild, entries: Seq<ErrorRecord>, opts: ErrStoreOpts, outcome: Result<(), i32>, now: u64) -> bool {
    outcome is Err && opts.enable_err_store && healthy(c) && opts.action == ActionType::Fault && recent(
        entries,
        window_start(now, opts.retention_ns),
    ).len() > opts.max_errors
}

/// The effect on one child, and on its store, of the completion of an I/O
/// with `outcome` at time `now`.
pub open spec fn io_effect(
    c: NexusChild,
    s: ErrorStore,
    c2: NexusChild,
    s2: ErrorStore,
    opts: ErrStoreOpts,
    io_type: IoType,
    outcome: Result<(), i32>,
    now: u64,
) -> bool {
    let e = entries_after(s, opts, io_type, outcome, now);
    &&& s2.entries@ == e
    &&& s2.capacity == s.capacity
    &&& s2.action == s.action
    &&& s2.retention_ns == s.retention_ns
    &&& s2.max_errors == s.max_errors
    &&& c2 == if faults_out(c, e, opts, outcome, now) {
        NexusChild { state: ChildState::Faulted, ..c }
    } else {
        c
    }
}

impl Nexus {
    /// Each child has a store, and children and stores are well formed.
    pub open spec fn wf(&self) -> bool {
        &&& self.children@.len() == self.stores@.len()
        &&& forall|i: int| 0 <= i < self.children@.len() ==> (#[trigger] self.children@[i]).wf()
        &&& forall|i: int| 0 <= i < self.stores@.len() ==> (#[trigger] self.stores@[i]).wf()
        &&& forall|i: int|
            0 <= i < self.stores@.len() ==> (#[trigger] self.stores@[i]).action == self.opts.action
                && self.stores@[i].retention_ns == self.opts.retention_ns && self.stores@[i].max_errors
                == self.opts.max_errors
    }

    /// A nexus over `children`, each given an empty error store.
    pub fn new(name: String, block_size: u32, num_blocks: u64, children: Vec<NexusChild>, opts: ErrStoreOpts) -> (r: Nexus)
        requires
            forall|i: int| 0 <= i < children@.len() ==> (#[trigger] children@[i]).wf(),
        ensures
            r.wf(),
            r.children == children,
            r.name == name,
            r.block_size == block_size,
            r.num_blocks == num_blocks,
            r.opts == opts,
            r.share_path is None,
            forall|i: int| 0 <= i < r.stores@.len() ==> (#[trigger] r.stores@[i]).entries@.len() == 0,
    {
        let mut stores: Vec<ErrorStore> = Vec::new();
        let mut i: usize = 0;
        while i < children.len()
            invariant
                i <= children@.len(),
                stores@.len() == i,
                forall|j: int| 0 <= j < i ==> (#[trigger] stores@[j]).wf() && stores@[j].entries@.len() == 0
                    && stores@[j].action == opts.action && stores@[j].retention_ns == opts.retention_ns
                    && stores@[j].max_errors == opts.max_errors,
            decreases children@.len() - i,
        {
            stores.push(ErrorStore::new(opts.err_store_size, opts.action, opts.retention_ns, opts.max_errors));
            i = i + 1;
        }
        Nexus { name, block_size, num_blocks, children, stores, opts, next_read: 0, share_path: None }
    }

    /// The status of the nexus.
    pub fn status(&self) -> (r: NexusStatus)
        ensures
            r == status_of(self.children@),
    {
        let n = self.children.len();
        let mut healthy_count: usize = 0;
        let mut i: usize = 0;
        let mut any = false;
        let mut all = true;
        while i < n
            invariant
                n == self.children@.len(),
                i <= n,
                any == exists|j: int| 0 <= j < i && healthy(#[trigger] self.children@[j]),
                all == forall|j: int| 0 <= j < i ==> healthy(#[trigger] self.children@[j]),
            decreases n - i,
        {
            if self.children[i].state == ChildState::Open {
                any = true;
            } else {
                all = false;
            }
            i = i + 1;
        }
        if n > 0 && all {
            NexusStatus::Online
        } else if any {
            NexusStatus::Degraded
        } else {
            NexusStatus::Faulted
        }
    }

    /// The child that the next read goes to: the first healthy child at or
    /// after the read cursor, in turn; `None` when no child is healthy.
    pub fn read_target(&mut self) -> (r: Option<usize>)
        ensures
            final(self).children == old(self).children,
            final(self).stores == old(self).stores,
            final(self).opts == old(self).opts,
            final(self).name == old(self).name,
            final(self).share_path == old(self).share_path,
            match r {
                Some(i) => i < old(self).children@.len() && healthy(old(self).children@[i as int]),
                None => forall|j: int| 0 <= j < old(self).children@.len() ==> !healthy(#[trigger] old(self).children@[j]),
            },
    {
        let n = self.children.len();
        if n == 0 {
            return None;
        }
        let start = self.next_read % n;
        let mut found: Option<usize> = None;
        let mut k: usize = 0;
        while k < n && found.is_none()
            invariant
                n == self.children@.len(),
                n > 0,
                start < n,
                k <= n,
                found matches Some(i) ==> i < n && healthy(self.children@[i as int]),
                found is None ==> forall|j: int|
                    0 <= j < k ==> !healthy(self.children@[#[trigger] turn(start as int, j, n as int)]),
            decreases n - k,
        {
            let i = if k < n - start { start + k } else { k - (n - start) };
            if self.children[i].state == ChildState::Open {
                found = Some(i);
            }
            k = k + 1;
        }
        match found {
            Some(i) => {
                self.next_read = if i + 1 < n { i + 1 } else { 0 };
                Some(i)
            },
            None => {
                proof {
                    assert forall|t: int| 0 <= t < n implies !healthy(#[trigger] self.children@[t]) by {
                        let j = if t >= start { t - start } else { t + (n - start) };
                        assert(0 <= j < n);
                        assert(turn(start as int, j, n as int) == t);
                    }
                }
                None
            },
        }
    }

    /// A read of `len` bytes at `offset`: the child it is steered to (a
    /// healthy one, in turn) and that child's request; `None` when no child
    /// is healthy. Its completion goes to `complete_read`.
    pub fn read_at(&mut self, offset: u64, len: u64) -> (r: Option<(usize, IoRequest)>)
        requires
            old(self).wf(),
        ensures
            final(self).wf(),
            final(self).children == old(self).children,
            final(self).stores == old(self).stores,
            final(self).opts == old(self).opts,
            match r {
                Some((i, q)) => i < old(self).children@.len() && healthy(old(self).children@[i as int])
                    && old(self).children@[i as int].descriptor == Some(q.descriptor) && q.offset == offset && q.len == len,
                None => forall|j: int| 0 <= j < old(self).children@.len() ==> !healthy(#[trigger] old(self).children@[j]),
            },
    {
        match self.read_target() {
            None => None,
            Some(i) => {
                assert(self.children@[i as int].wf());
                match self.children[i].read_at(offset, len) {
                    Ok(q) => Some((i, q)),
                    Err(_) => None,
                }
            },
        }
    }

    /// The children that a write goes to: every healthy child, in order.
    pub fn write_targets(&self) -> (r: Vec<usize>)
        ensures
            forall|k: int| 0 <= k < r@.len() ==> r@[k] < self.children@.len() && healthy(#[trigger] self.children@[r@[k] as int]),
            forall|i: int| 0 <= i < self.children@.len() && healthy(#[trigger] self.children@[i]) ==> exists|k: int| 0 <= k < r@.len() && r@[k] as int == i,
            forall|a: int, b: int| 0 <= a < b < r@.len() ==> r@[a] < r@[b],
    {
        let mut r: Vec<usize> = Vec::new();
        let mut i: usize = 0;
        while i < self.children.len()
            invariant
                i <= self.children@.len(),
                forall|k: int| 0 <= k < r@.len() ==> #[trigger] r@[k] < i && healthy(self.children@[r@[k] as int]),
                forall|j: int| 0 <= j < i && healthy(#[trigger] self.children@[j]) ==> exists|k: int| 0 <= k < r@.len() && r@[k] as int == j,
                forall|a: int, b: int| 0 <= a < b < r@.len() ==> r@[a] < r@[b],
            decreases self.children@.len() - i,
        {
            let ghost before = r@;
            if self.children[i].state == ChildState::Open {
                r.push(i);
                proof {
                    assert(r@[r@.len() - 1] == i);
                    assert forall|k: int| 0 <= k < r@.len() implies #[trigger] r@[k] < i + 1 && healthy(self.children@[r@[k] as int]) by {
                        if k < before.len() {
                            assert(r@[k] == before[k]);
                        }
                    }
                    assert forall|j: int| 0 <= j < i + 1 && healthy(#[trigger] self.children@[j]) implies exists|k: int| 0 <= k < r@.len() && r@[k] as int == j by {
                        if j < i {
                            let k = choose|k: int| 0 <= k < before.len() && before[k] as int == j;
                            assert(r@[k] == before[k]);
                        } else {
                            assert(r@[r@.len() - 1] as int == j);
                        }
                    }
                }
            }
            i = i + 1;
        }
        r
    }

    /// Account for the completion of one child I/O at time `now`. Where the
    /// error store is enabled, a failure is recorded in the child's store;
    /// if the store then calls for it and
    /// the child is healthy, the child is faulted out, which is what the
    /// result says. A child is faulted out only with more than `max_errors`
    /// errors in the retention window at that moment.
    pub fn complete_io(&mut self, child: usize, io_type: IoType, outcome: Result<(), i32>, now: u64) -> (faulted: bool)
        requires
            old(self).wf(),
            child < old(self).children@.len(),
        ensures
            final(self).wf(),
            final(self).children@.len() == old(self).children@.len(),
            final(self).name == old(self).name,
            final(self).opts == old(self).opts,
            final(self).share_path == old(self).share_path,
            forall|j: int| 0 <= j < old(self).children@.len() && j != child ==> final(self).children@[j] == old(self).children@[j]
                && final(self).stores@[j] == old(self).stores@[j],
            outcome is Ok || !old(self).opts.enable_err_store ==> final(self).children == old(self).children
                && final(self).stores == old(self).stores,
            io_effect(
                old(self).children@[child as int],
                old(self).stores@[child as int],
                final(self).children@[child as int],
                final(self).stores@[child as int],
                old(self).opts,
                io_type,
                outcome,
                now,
            ),
            faulted == faults_out(
                old(self).children@[child as int],
                final(self).stores@[child as int].entries@,
                old(self).opts,
                outcome,
                now,
            ),
    {
        match outcome {
            Ok(()) => false,
            Err(errno) => {
                if !self.opts.enable_err_store {
                    return false;
                }
                let mut store = self.stores.remove(child);
                store.record(io_type, errno, now);
                let fault = self.children[child].state == ChildState::Open && store.should_fault(now);
                self.stores.insert(child, store);
                proof {
                    assert forall|i: int| 0 <= i < self.stores@.len() implies (#[trigger] self.stores@[i]).wf()
                        && self.stores@[i].action == self.opts.action by {
                        if i != child {
                            assert(self.stores@[i] == old(self).stores@[i]);
                        }
                    }
                }
                if fault {
                    let mut c = self.children.remove(child);
                    c.fault();
                    self.children.insert(child, c);
                    proof {
                        assert forall|j: int| 0 <= j < self.children@.len() && j != child implies self.children@[j]
                            == old(self).children@[j] by {}
                    }
                }
                fault
            },
        }
    }

    /// Account for the completion of a write that went to `targets` (the
    /// healthy children when it was issued), where `outcomes[k]` is the
    /// answer of child `targets[k]`. The write succeeds only if every one of
    /// them acknowledged it, so that on success every child that was healthy
    /// holds the data at the written offset; each failure is accounted for
    /// as `complete_io` does.
    pub fn complete_write(&mut self, targets: &Vec<usize>, outcomes: &Vec<Result<(), i32>>, now: u64) -> (ok: bool)
        requires
            old(self).wf(),
            outcomes@.len() == targets@.len(),
            forall|k: int| 0 <= k < targets@.len() ==> targets@[k] < old(self).children@.len(),
            forall|a: int, b: int| 0 <= a < targets@.len() && 0 <= b < targets@.len() && a != b ==> targets@[a] != targets@[b],
            forall|i: int| 0 <= i < old(self).children@.len() && healthy(#[trigger] old(self).children@[i]) ==> exists|k: int| 0 <= k < targets@.len() && targets@[k] as int == i,
        ensures
            final(self).wf(),
            final(self).children@.len() == old(self).children@.len(),
            final(self).name == old(self).name,
            final(self).opts == old(self).opts,
            final(self).share_path == old(self).share_path,
            ok == forall|k: int| 0 <= k < outcomes@.len() ==> (#[trigger] outcomes@[k]) is Ok,
            ok ==> forall|i: int| 0 <= i < old(self).children@.len() && healthy(#[trigger] old(self).children@[i])
                ==> exists|k: int| 0 <= k < targets@.len() && targets@[k] as int == i && (#[trigger] outcomes@[k]) is Ok,
            ok ==> final(self).children == old(self).children,
            forall|k: int| 0 <= k < targets@.len() ==> io_effect(
                old(self).children@[targets@[k] as int],
                old(self).stores@[targets@[k] as int],
                final(self).children@[targets@[k] as int],
                final(self).stores@[targets@[k] as int],
                old(self).opts,
                IoType::Write,
                #[trigger] outcomes@[k],
                now,
            ),
            forall|i: int| 0 <= i < old(self).children@.len() && (forall|k: int| 0 <= k < targets@.len() ==> targets@[k] as int != i)
                ==> #[trigger] final(self).children@[i] == old(self).children@[i] && final(self).stores@[i] == old(self).stores@[i],
    {
        let mut ok = true;
        let mut k: usize = 0;
        while k < targets.len()
            invariant
                self.wf(),
                self.children@.len() == old(self).children@.len(),
                self.name == old(self).name,
                self.opts == old(self).opts,
                self.share_path == old(self).share_path,
                outcomes@.len() == targets@.len(),
                forall|j: int| 0 <= j < targets@.len() ==> targets@[j] < old(self).children@.len(),
                forall|a: int, b: int| 0 <= a < targets@.len() && 0 <= b < targets@.len() && a != b ==> targets@[a] != targets@[b],
                k <= targets@.len(),
                ok == forall|j: int| 0 <= j < k ==> (#[trigger] outcomes@[j]) is Ok,
                ok ==> self.children == old(self).children,
                forall|j: int| 0 <= j < k ==> io_effect(
                    old(self).children@[targets@[j] as int],
                    old(self).stores@[targets@[j] as int],
                    self.children@[targets@[j] as int],
                    self.stores@[targets@[j] as int],
                    old(self).opts,
                    IoType::Write,
                    #[trigger] outcomes@[j],
                    now,
                ),
                forall|i: int| 0 <= i < old(self).children@.len() && (forall|j: int| 0 <= j < k ==> targets@[j] as int != i)
                    ==> #[trigger] self.children@[i] == old(self).children@[i] && self.stores@[i] == old(self).stores@[i],
            decreases targets@.len() - k,
        {
            if outcomes[k].is_err() {
                ok = false;
            }
            let ghost before = *self;
            let t = targets[k];
            assert(forall|j: int| 0 <= j < k ==> targets@[j] as int != t as int);
            self.complete_io(t, IoType::Write, outcomes[k], now);
            proof {
                assert forall|j: int| 0 <= j < k + 1 implies io_effect(
                    old(self).children@[targets@[j] as int],
                    old(self).stores@[targets@[j] as int],
                    self.children@[targets@[j] as int],
                    self.stores@[targets@[j] as int],
                    old(self).opts,
                    IoType::Write,
                    #[trigger] outcomes@[j],
                    now,
                ) by {
                    if j < k {
                        assert(targets@[j] != targets@[k as int]);
                        assert(self.children@[targets@[j] as int] == before.children@[targets@[j] as int]);
                        assert(self.stores@[targets@[j] as int] == before.stores@[targets@[j] as int]);
                    }
                }
                assert forall|i: int| 0 <= i < old(self).children@.len() && (forall|j: int| 0 <= j < k + 1 ==> targets@[j] as int != i)
                    implies #[trigger] self.children@[i] == old(self).children@[i] && self.stores@[i] == old(self).stores@[i] by {
                    assert(targets@[k as int] as int != i);
                    assert(forall|j: int| 0 <= j < k ==> targets@[j] as int != i);
                }
            }
            k = k + 1;
        }
        proof {
            if ok {
                assert forall|i: int| 0 <= i < old(self).children@.len() && healthy(#[trigger] old(self).children@[i])
                    implies exists|k: int| 0 <= k < targets@.len() && targets@[k] as int == i && (#[trigger] outcomes@[k]) is Ok by {
                    let k = choose|k: int| 0 <= k < targets@.len() && targets@[k] as int == i;
                    assert(outcomes@[k] is Ok);
                }
            }
        }
        ok
    }

    /// Account for the completion of a read from `child` at time `now`: a
    /// failure is recorded in the child's store where that is enabled, and
    /// the child is faulted out exactly when the store then calls for it
    /// (the result says so).
    pub fn complete_read(&mut self, child: usize, outcome: Result<(), i32>, now: u64) -> (faulted: bool)
        requires
            old(self).wf(),
            child < old(self).children@.len(),
        ensures
            final(self).wf(),
            final(self).children@.len() == old(self).children@.len(),
            final(self).name == old(self).name,
            final(self).opts == old(self).opts,
            final(self).share_path == old(self).share_path,
            forall|j: int| 0 <= j < old(self).children@.len() && j != child ==> final(self).children@[j] == old(self).children@[j]
                && final(self).stores@[j] == old(self).stores@[j],
            outcome is Ok || !old(self).opts.enable_err_store ==> final(self).children == old(self).children
                && final(self).stores == old(self).stores,
            io_effect(
                old(self).children@[child as int],
                old(self).stores@[child as int],
                final(self).children@[child as int],
                final(self).stores@[child as int],
                old(self).opts,
                IoType::Read,
                outcome,
                now,
            ),
            faulted == faults_out(
                old(self).children@[child as int],
                final(self).stores@[child as int].entries@,
                old(self).opts,
                outcome,
                now,
            ),
    {
        self.complete_io(child, IoType::Read, outcome, now)
    }
}

} // verus!
