//! A bounded record of a child's recent I/O errors, which decides when the
//! child is to be faulted out.

use vstd::prelude::*;

verus! {

/// What to do when a child has had too many errors.
#[derive(Clone, Copy, Debug, PartialEq, Eq, Structural)]
pub enum ActionType {
    Fault,
    Ignore,
}

/// The kind of I/O that failed.
#[derive(Clone, Copy, Debug, PartialEq, Eq, Structural)]
pub enum IoType {
    Read,
    Write,
    Unmap,
    Flush,
    Reset,
}

/// One failed I/O.
#[derive(Clone, Copy, Debug, PartialEq, Eq, Structural)]
pub struct ErrorRecord {
    pub timestamp: u64,
    pub io_type: IoType,
    pub errno: i32,
}

/// The records of `s` made at `since` or later, in order.
pub open spec fn recent(s: Seq<ErrorRecord>, since: u64) -> Seq<ErrorRecord>
    decreases s.len(),
{
    if s.len() == 0 {
        s
    } else if s.last().timestamp >= since {
        recent(s.drop_last(), since).push(s.last())
    } else {
        recent(s.drop_last(), since)
    }
}

/// The last `cap` records of `s`.
pub open spec fn newest(s: Seq<ErrorRecord>, cap: nat) -> Seq<ErrorRecord> {
    if s.len() > cap {
        s.subrange(s.len() - cap, s.len() as int)
    } else {
        s
    }
}

/// The start of the window of `window` nanoseconds that ends at `now`.
pub open spec fn window_start(now: u64, window: u64) -> u64 {
    if now >= window {
        (now - window) as u64
    } else {
        0
    }
}

/// The error store of one child: at most `capacity` records, oldest first,
/// and the policy that decides on fault-out.
#[derive(Debug)]
pub struct ErrorStore {
    pub capacity: usize,
    pub entries: Vec<ErrorRecord>,
    pub action: ActionType,
    pub retention_ns: u64,
    pub max_errors: u32,
}

fn keep_recent(s: &Vec<ErrorRecord>, since: u64) -> (r: Vec<ErrorRecord>)
    ensures
        r@ == recent(s@, since),
{
    let mut r: Vec<ErrorRecord> = Vec::new();
    let mut i: usize = 0;
    while i < s.len()
        invariant
            i <= s@.len(),
            r@ == recent(s@.subrange(0, i as int), since),
        decreases s@.len() - i,
    {
        assert(s@.subrange(0, i + 1).drop_last() =~= s@.subrange(0, i as int));
        if s[i].timestamp >= since {
            r.push(s[i]);
        }
        i = i + 1;
    }
    assert(s@.subrange(0, s@.len() as int) =~= s@);
    r
}

impl ErrorStore {
    /// The store never holds more than its capacity.
    pub open spec fn wf(&self) -> bool {
        self.entries@.len() <= self.capacity
    }

    /// An empty store.
    pub fn new(capacity: usize, action: ActionType, retention_ns: u64, max_errors: u32) -> (r: ErrorStore)
        ensures
            r.wf(),
            r.entries@.len() == 0,
            r.capacity == capacity,
            r.action == action,
            r.retention_ns == retention_ns,
            r.max_errors == max_errors,
    {
        ErrorStore { capacity, entries: Vec::new(), action, retention_ns, max_errors }
    }

    /// Record a failed I/O at time `now`. Records older than the retention
    /// window are dropped first; then, if the store is full, the oldest.
    pub fn record(&mut self, io_type: IoType, errno: i32, now: u64)
        requires
            old(self).wf(),
        ensures
            final(self).wf(),
            final(self).entries@ == newest(
                recent(old(self).entries@, window_start(now, old(self).retention_ns)).push(
                    ErrorRecord { timestamp: now, io_type, errno },
                ),
                old(self).capacity as nat,
            ),
            final(self).capacity == old(self).capacity,
            final(self).action == old(self).action,
            final(self).retention_ns == old(self).retention_ns,
            final(self).max_errors == old(self).max_errors,
    {
        let since = if now >= self.retention_ns { now - self.retention_ns } else { 0 };
        let mut kept = keep_recent(&self.entries, since);
        proof {
            lemma_recent_len(self.entries@, since);
        }
        kept.push(ErrorRecord { timestamp: now, io_type, errno });
        let ghost all = kept@;
        if kept.len() > self.capacity {
            let skip = kept.len() - self.capacity;
            let mut out: Vec<ErrorRecord> = Vec::new();
            let mut i: usize = skip;
            while i < kept.len()
                invariant
                    skip <= i <= kept@.len(),
                    kept@ == all,
                    out@ == all.subrange(skip as int, i as int),
                decreases kept@.len() - i,
            {
                out.push(kept[i]);
                assert(out@ =~= all.subrange(skip as int, i + 1));
                i = i + 1;
            }
            self.entries = out;
        } else {
            self.entries = kept;
        }
    }

    /// The number of records made at `now - window` or later.
    pub fn count_since(&self, now: u64, window: u64) -> (r: usize)
        ensures
            r == recent(self.entries@, window_start(now, window)).len(),
    {
        let since = if now >= window { now - window } else { 0 };
        let kept = keep_recent(&self.entries, since);
        kept.len()
    }

    /// Whether the child is to be faulted out at time `now`: the policy says
    /// so and more than `max_errors` records lie in the retention window.
    pub fn should_fault(&self, now: u64) -> (r: bool)
        ensures
            r == (self.action == ActionType::Fault && recent(
                self.entries@,
                window_start(now, self.retention_ns),
            ).len() > self.max_errors),
    {
        match self.action {
            ActionType::Fault => self.count_since(now, self.retention_ns) > self.max_errors as usize,
            ActionType::Ignore => false,
        }
    }

    /// Forget every record.
    pub fn clear(&mut self)
        ensures
            final(self).wf(),
            final(self).entries@.len() == 0,
            final(self).capacity == old(self).capacity,
            final(self).action == old(self).action,
            final(self).retention_ns == old(self).retention_ns,
            final(self).max_errors == old(self).max_errors,
    {
        self.entries = Vec::new();
    }
}

/// Keeping the recent records keeps no more than there were.
pub proof fn lemma_recent_len(s: Seq<ErrorRecord>, since: u64)
    ensures
        recent(s, since).len() <= s.len(),
    decreases s.len(),
{
    if s.len() > 0 {
        lemma_recent_len(s.drop_last(), since);
    }
}

} // verus!
