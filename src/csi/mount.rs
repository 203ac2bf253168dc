//! The kernel's mount table as the node plugin sees it, the actions that
//! change it, and a model of their effect.

use vstd::prelude::*;
use crate::text::{split, split_on, views};

verus! {

/// One record of the kernel's mount table.
#[derive(Debug)]
pub struct MountRecord {
    pub source: String,
    pub dest: String,
    pub fstype: String,
    pub options: Vec<String>,
}

/// The plain-value view of a mount record.
pub ghost struct MountView {
    pub source: Seq<char>,
    pub dest: Seq<char>,
    pub fstype: Seq<char>,
    pub options: Seq<Seq<char>>,
}

/// The views of a list of strings.
pub open spec fn strs(v: Seq<String>) -> Seq<Seq<char>> {
    v.map_values(|s: String| s@)
}

impl View for MountRecord {
    type V = MountView;

    open spec fn view(&self) -> MountView {
        MountView {
            source: self.source@,
            dest: self.dest@,
            fstype: self.fstype@,
            options: strs(self.options@),
        }
    }
}

/// The views of a mount table.
pub open spec fn table(v: Seq<MountRecord>) -> Seq<MountView> {
    v.map_values(|m: MountRecord| m@)
}

/// Whether a record matches the source and target that are given.
pub open spec fn matches(m: MountView, source: Option<Seq<char>>, target: Option<Seq<char>>) -> bool {
    (source is None || m.source == source->Some_0) && (target is None || m.dest == target->Some_0)
}

/// The index of the last record that matches, which is the one visible at
/// its mount point.
pub open spec fn last_match(ms: Seq<MountView>, source: Option<Seq<char>>, target: Option<Seq<char>>) -> Option<int>
    decreases ms.len(),
{
    if ms.len() == 0 {
        None
    } else if matches(ms.last(), source, target) {
        Some(ms.len() - 1)
    } else {
        last_match(ms.drop_last(), source, target)
    }
}

/// Whether some record matches.
pub open spec fn has_mount(ms: Seq<MountView>, source: Option<Seq<char>>, target: Option<Seq<char>>) -> bool {
    last_match(ms, source, target) is Some
}

/// What `last_match` finds: a matching record with none after it, or no
/// matching record at all.
pub proof fn lemma_last_match(ms: Seq<MountView>, source: Option<Seq<char>>, target: Option<Seq<char>>)
    ensures
        match last_match(ms, source, target) {
            Some(i) => 0 <= i < ms.len() && matches(ms[i], source, target) && forall|j: int|
                i < j < ms.len() ==> !matches(#[trigger] ms[j], source, target),
            None => forall|j: int| 0 <= j < ms.len() ==> !matches(#[trigger] ms[j], source, target),
        },
    decreases ms.len(),
{
    if ms.len() > 0 && !matches(ms.last(), source, target) {
        lemma_last_match(ms.drop_last(), source, target);
        assert forall|j: int| 0 <= j < ms.len() - 1 implies ms.drop_last()[j] == ms[j] by {}
    }
}

/// The index of the last record of `mounts` whose source is `source` (where
/// given) and whose mount point is `target` (where given).
pub fn find_mount(mounts: &Vec<MountRecord>, source: Option<&str>, target: Option<&str>) -> (r: Option<usize>)
    ensures
        match r {
            Some(i) => last_match(table(mounts@), opt_view(source), opt_view(target)) == Some(i as int),
            None => last_match(table(mounts@), opt_view(source), opt_view(target)) is None,
        },
{
    let ghost ms = table(mounts@);
    let mut i: usize = mounts.len();
    assert(ms.subrange(0, i as int) =~= ms);
    while i > 0
        invariant
            i <= mounts@.len(),
            ms == table(mounts@),
            last_match(ms, opt_view(source), opt_view(target)) == last_match(
                ms.subrange(0, i as int),
                opt_view(source),
                opt_view(target),
            ),
        decreases i,
    {
        assert(ms.subrange(0, i as int).drop_last() =~= ms.subrange(0, i - 1));
        let m = &mounts[i - 1];
        let src_ok = match source {
            Some(s) => crate::text::str_eq(m.source.as_str(), s),
            None => true,
        };
        let dst_ok = match target {
            Some(t) => crate::text::str_eq(m.dest.as_str(), t),
            None => true,
        };
        if src_ok && dst_ok {
            return Some(i - 1);
        }
        i = i - 1;
    }
    assert(ms.subrange(0, 0) =~= Seq::<MountView>::empty());
    None
}

/// The view of an optional string.
pub open spec fn opt_view(s: Option<&str>) -> Option<Seq<char>> {
    match s {
        Some(v) => Some(v@),
        None => None,
    }
}

/// Whether every flag is among the options.
pub open spec fn flags_within(flags: Seq<Seq<char>>, options: Seq<Seq<char>>) -> bool {
    forall|i: int| 0 <= i < flags.len() ==> options.contains(#[trigger] flags[i])
}

/// Whether every flag of `flags` is among `options`.
pub fn subset(flags: &Vec<String>, options: &Vec<String>) -> (r: bool)
    ensures
        r == flags_within(strs(flags@), strs(options@)),
{
    let mut i: usize = 0;
    while i < flags.len()
        invariant
            i <= flags@.len(),
            forall|j: int| 0 <= j < i ==> strs(options@).contains(#[trigger] flags@[j]@),
        decreases flags@.len() - i,
    {
        if !crate::text::contains_str(options, flags[i].as_str()) {
            assert(!strs(options@).contains(flags@[i as int]@)) by {
                if strs(options@).contains(flags@[i as int]@) {
                    let k = choose|k: int| 0 <= k < strs(options@).len() && strs(options@)[k] == flags@[i as int]@;
                    assert(options@[k]@ == flags@[i as int]@);
                }
            }
            assert(strs(flags@)[i as int] == flags@[i as int]@);
            return false;
        }
        proof {
            let k = choose|k: int| 0 <= k < options@.len() && #[trigger] options@[k]@ == flags@[i as int]@;
            assert(strs(options@)[k] == flags@[i as int]@);
        }
        i = i + 1;
    }
    assert forall|j: int| 0 <= j < strs(flags@).len() implies strs(options@).contains(#[trigger] strs(flags@)[j]) by {
        assert(strs(flags@)[j] == flags@[j]@);
    }
    true
}

/// Whether mount options say read-only.
pub open spec fn is_readonly(options: Seq<Seq<char>>) -> bool {
    options.contains("ro"@)
}

/// Whether the options of a mount say read-only.
pub fn readonly(options: &Vec<String>) -> (r: bool)
    ensures
        r == is_readonly(strs(options@)),
{
    let r = crate::text::contains_str(options, "ro");
    proof {
        if r {
            let k = choose|k: int| 0 <= k < options@.len() && #[trigger] options@[k]@ == "ro"@;
            assert(strs(options@)[k] == "ro"@);
        } else {
            assert forall|k: int| 0 <= k < strs(options@).len() implies strs(options@)[k] != "ro"@ by {
                assert(options@[k]@ != "ro"@);
            }
        }
    }
    r
}

/// One step that a Node RPC asks the host to take. Where an action works on
/// "the device", it is the device of the plan that it belongs to.
#[derive(Debug)]
pub enum NodeAction {
    /// Create a directory and its parents.
    CreateDir { path: String },
    /// Create the parent directories of a path.
    CreateParentDir { path: String },
    /// Remove an empty directory; a failure is only logged.
    RemoveDir { path: String },
    /// Remove a file; a failure is only logged.
    RemoveFile { path: String },
    /// Attach the volume's device to this node.
    Attach,
    /// Wait for the attached device to appear, polling 100 times at 100 ms.
    WaitForDevice,
    /// Detach the volume's device from this node.
    Detach,
    /// Make a filesystem of the given type on the device unless it has one.
    PrepareDevice { fstype: String },
    /// Mount the device's filesystem at `target`.
    MountFs { target: String, fstype: String, options: Vec<String> },
    /// Bind-mount what is mounted at `source` onto `target`.
    BindMount { source: String, target: String },
    /// Remount the bind mount at `target` with new options.
    BindRemount { target: String, options: Vec<String> },
    /// Create a block special file at `path`.
    Mknod { path: String },
    /// Bind-mount the device onto the block special file at `target`.
    MountBlockDevice { target: String, readonly: bool },
    /// Unmount what is mounted at `target`.
    Unmount { target: String },
}

/// The plain-value view of an action.
pub ghost enum ActionView {
    CreateDir { path: Seq<char> },
    CreateParentDir { path: Seq<char> },
    RemoveDir { path: Seq<char> },
    RemoveFile { path: Seq<char> },
    Attach,
    WaitForDevice,
    Detach,
    PrepareDevice { fstype: Seq<char> },
    MountFs { target: Seq<char>, fstype: Seq<char>, options: Seq<Seq<char>> },
    BindMount { source: Seq<char>, target: Seq<char> },
    BindRemount { target: Seq<char>, options: Seq<Seq<char>> },
    Mknod { path: Seq<char> },
    MountBlockDevice { target: Seq<char>, readonly: bool },
    Unmount { target: Seq<char> },
}

impl View for NodeAction {
    type V = ActionView;

    open spec fn view(&self) -> ActionView {
        match self {
            NodeAction::CreateDir { path } => ActionView::CreateDir { path: path@ },
            NodeAction::CreateParentDir { path } => ActionView::CreateParentDir { path: path@ },
            NodeAction::RemoveDir { path } => ActionView::RemoveDir { path: path@ },
            NodeAction::RemoveFile { path } => ActionView::RemoveFile { path: path@ },
            NodeAction::Attach => ActionView::Attach,
            NodeAction::WaitForDevice => ActionView::WaitForDevice,
            NodeAction::Detach => ActionView::Detach,
            NodeAction::PrepareDevice { fstype } => ActionView::PrepareDevice { fstype: fstype@ },
            NodeAction::MountFs { target, fstype, options } => ActionView::MountFs {
                target: target@,
                fstype: fstype@,
                options: strs(options@),
            },
            NodeAction::BindMount { source, target } => ActionView::BindMount {
                source: source@,
                target: target@,
            },
            NodeAction::BindRemount { target, options } => ActionView::BindRemount {
                target: target@,
                options: strs(options@),
            },
            NodeAction::Mknod { path } => ActionView::Mknod { path: path@ },
            NodeAction::MountBlockDevice { target, readonly } => ActionView::MountBlockDevice {
                target: target@,
                readonly: *readonly,
            },
            NodeAction::Unmount { target } => ActionView::Unmount { target: target@ },
        }
    }
}

/// What a Node RPC asks the host to do: the actions in order, and the
/// device path that they work on where it is already known (otherwise it is
/// the one that `WaitForDevice` finds).
#[derive(Debug)]
pub struct Plan {
    pub device: Option<String>,
    pub actions: Vec<NodeAction>,
}

/// The plain-value view of a plan.
pub ghost struct PlanView {
    pub device: Option<Seq<char>>,
    pub actions: Seq<ActionView>,
}

impl View for Plan {
    type V = PlanView;

    open spec fn view(&self) -> PlanView {
        PlanView {
            device: match self.device {
                Some(d) => Some(d@),
                None => None,
            },
            actions: self.actions@.map_values(|a: NodeAction| a@),
        }
    }
}

/// A plan with nothing to do.
pub open spec fn empty_plan() -> PlanView {
    PlanView { device: None, actions: Seq::empty() }
}

/// A plan with nothing to do.
pub fn nothing() -> (r: Plan)
    ensures
        r@ == empty_plan(),
{
    let r = Plan { device: None, actions: Vec::new() };
    assert(r@.actions =~= Seq::<ActionView>::empty());
    r
}

/// What the node holds that the Node RPCs look at: the mount table, the
/// volume's device (if attached) and the directories that exist.
pub ghost struct NodeWorld {
    pub mounts: Seq<MountView>,
    pub device: Option<Seq<char>>,
    pub dirs: Set<Seq<char>>,
}

/// The mount table after unmounting at `target`: the visible record there,
/// if any, is gone.
pub open spec fn unmount(ms: Seq<MountView>, target: Seq<char>) -> Seq<MountView> {
    match last_match(ms, None, Some(target)) {
        Some(i) => ms.remove(i),
        None => ms,
    }
}

/// The effect of one action that succeeded, where `dev` is the plan's device.
pub open spec fn apply(w: NodeWorld, a: ActionView, dev: Seq<char>) -> NodeWorld {
    match a {
        ActionView::CreateDir { path } => NodeWorld { dirs: w.dirs.insert(path), ..w },
        ActionView::RemoveDir { path } => NodeWorld { dirs: w.dirs.remove(path), ..w },
        ActionView::WaitForDevice => NodeWorld { device: Some(dev), ..w },
        ActionView::Detach => NodeWorld { device: None, ..w },
        ActionView::MountFs { target, fstype, options } => NodeWorld {
            mounts: w.mounts.push(MountView { source: dev, dest: target, fstype, options }),
            ..w
        },
        ActionView::BindMount { source, target } => match last_match(w.mounts, None, Some(source)) {
            Some(i) => NodeWorld { mounts: w.mounts.push(MountView { dest: target, ..w.mounts[i] }), ..w },
            None => w,
        },
        ActionView::BindRemount { target, options } => match last_match(w.mounts, None, Some(target)) {
            Some(i) => NodeWorld {
                mounts: w.mounts.update(i, MountView { options, ..w.mounts[i] }),
                ..w
            },
            None => w,
        },
        ActionView::MountBlockDevice { target, readonly } => NodeWorld {
            mounts: w.mounts.push(
                MountView {
                    source: dev,
                    dest: target,
                    fstype: Seq::empty(),
                    options: if readonly { seq!["ro"@] } else { Seq::empty() },
                },
            ),
            ..w
        },
        ActionView::Unmount { target } => NodeWorld { mounts: unmount(w.mounts, target), ..w },
        _ => w,
    }
}

/// The effect of a sequence of actions that all succeeded.
pub open spec fn run(w: NodeWorld, actions: Seq<ActionView>, dev: Seq<char>) -> NodeWorld
    decreases actions.len(),
{
    if actions.len() == 0 {
        w
    } else {
        run(apply(w, actions[0], dev), actions.drop_first(), dev)
    }
}

/// The effect of a plan that succeeded, where `found` is the path that
/// `WaitForDevice` turned up (used only where the plan knows no device).
pub open spec fn run_plan(w: NodeWorld, p: PlanView, found: Seq<char>) -> NodeWorld {
    run(w, p.actions, if p.device is Some { p.device->Some_0 } else { found })
}

/// Mounting, unmounting and mounting again at a mount point where nothing
/// was mounted, with the same device, filesystem and flags, leaves the same
/// mount records as mounting once.
pub proof fn lemma_mount_unmount_mount(w: NodeWorld, dev: Seq<char>, target: Seq<char>, fstype: Seq<char>, options: Seq<Seq<char>>)
    requires
        !has_mount(w.mounts, None, Some(target)),
    ensures
        ({
            let m = ActionView::MountFs { target, fstype, options };
            let once = apply(w, m, dev);
            let again = apply(apply(once, ActionView::Unmount { target }, dev), m, dev);
            again.mounts == once.mounts
        }),
{
    let r = MountView { source: dev, dest: target, fstype, options };
    let ms = w.mounts.push(r);
    lemma_last_match(w.mounts, None, Some(target));
    assert(ms.drop_last() =~= w.mounts);
    assert(last_match(ms, None, Some(target)) == Some(w.mounts.len() as int));
    assert(ms.remove(w.mounts.len() as int) =~= w.mounts);
}

/// How many records are mounted at `t`.
pub open spec fn count_at(ms: Seq<MountView>, t: Seq<char>) -> nat
    decreases ms.len(),
{
    if ms.len() == 0 {
        0
    } else if ms.last().dest == t {
        count_at(ms.drop_last(), t) + 1
    } else {
        count_at(ms.drop_last(), t)
    }
}

/// `n` unmounts at `t`.
pub open spec fn unmounts(t: Seq<char>, n: nat) -> Seq<ActionView> {
    Seq::new(n, |i: int| ActionView::Unmount { target: t })
}

/// No record is mounted at `t` exactly when none is counted there.
pub proof fn lemma_count_zero(ms: Seq<MountView>, t: Seq<char>)
    ensures
        (count_at(ms, t) == 0) == !has_mount(ms, None, Some(t)),
    decreases ms.len(),
{
    if ms.len() > 0 {
        lemma_count_zero(ms.drop_last(), t);
    }
}

/// Each unmount at `t` removes one record there.
pub proof fn lemma_unmount_count(ms: Seq<MountView>, t: Seq<char>)
    requires
        count_at(ms, t) > 0,
    ensures
        count_at(unmount(ms, t), t) == count_at(ms, t) - 1,
    decreases ms.len(),
{
    if ms.last().dest == t {
        assert(ms.remove(ms.len() - 1) =~= ms.drop_last());
    } else {
        let d = ms.drop_last();
        lemma_unmount_count(d, t);
        let i = last_match(d, None, Some(t))->Some_0;
        lemma_count_zero(d, t);
        lemma_last_match(d, None, Some(t));
        assert(ms.remove(i) =~= d.remove(i).push(ms.last()));
        assert(ms.remove(i).drop_last() =~= d.remove(i));
    }
}

/// Running two sequences of actions one after the other.
pub proof fn lemma_run_concat(w: NodeWorld, a: Seq<ActionView>, b: Seq<ActionView>, dev: Seq<char>)
    ensures
        run(w, a + b, dev) == run(run(w, a, dev), b, dev),
    decreases a.len(),
{
    if a.len() > 0 {
        assert((a + b).drop_first() =~= a.drop_first() + b);
        assert((a + b)[0] == a[0]);
        lemma_run_concat(apply(w, a[0], dev), a.drop_first(), b, dev);
    } else {
        assert(a + b =~= b);
    }
}

/// Unmounting at `t` as many times as records are mounted there leaves
/// none there, and changes nothing but the mounts.
pub proof fn lemma_unmount_all(w: NodeWorld, t: Seq<char>, dev: Seq<char>)
    ensures
        !has_mount(run(w, unmounts(t, count_at(w.mounts, t)), dev).mounts, None, Some(t)),
        run(w, unmounts(t, count_at(w.mounts, t)), dev).device == w.device,
        run(w, unmounts(t, count_at(w.mounts, t)), dev).dirs == w.dirs,
    decreases count_at(w.mounts, t),
{
    let n = count_at(w.mounts, t);
    if n == 0 {
        lemma_count_zero(w.mounts, t);
        assert(unmounts(t, 0) =~= Seq::<ActionView>::empty());
    } else {
        let w1 = apply(w, ActionView::Unmount { target: t }, dev);
        lemma_unmount_count(w.mounts, t);
        assert(unmounts(t, n) =~= seq![ActionView::Unmount { target: t }] + unmounts(t, (n - 1) as nat));
        lemma_run_concat(w, seq![ActionView::Unmount { target: t }], unmounts(t, (n - 1) as nat), dev);
        reveal_with_fuel(run, 2);
        assert(seq![ActionView::Unmount { target: t }].drop_first() =~= Seq::<ActionView>::empty());
        assert(run(w, seq![ActionView::Unmount { target: t }], dev) == w1);
        lemma_unmount_all(w1, t, dev);
    }
}

/// The record that a line of the kernel's mount table describes: source,
/// mount point, filesystem type and comma-separated options, separated by
/// spaces; `None` for a line with fewer fields.
pub open spec fn record_of(line: Seq<char>) -> Option<MountView> {
    let f = split_on(line, ' ');
    if f.len() >= 4 {
        Some(MountView { source: f[0], dest: f[1], fstype: f[2], options: split_on(f[3], ',') })
    } else {
        None
    }
}

/// The records that the lines describe, in order.
pub open spec fn records_of(lines: Seq<Seq<char>>) -> Seq<MountView>
    decreases lines.len(),
{
    if lines.len() == 0 {
        Seq::empty()
    } else {
        match record_of(lines.last()) {
            Some(m) => records_of(lines.drop_last()).push(m),
            None => records_of(lines.drop_last()),
        }
    }
}

/// Read the kernel's mount table from its text, one record per line.
pub fn parse_mounts(text: &str) -> (r: Vec<MountRecord>)
    ensures
        table(r@) == records_of(split_on(text@, '\n')),
{
    let lines = split(text, '\n');
    let ghost ls = split_on(text@, '\n');
    let mut r: Vec<MountRecord> = Vec::new();
    let mut i: usize = 0;
    while i < lines.len()
        invariant
            i <= lines@.len(),
            views(lines@) == ls,
            table(r@) == records_of(ls.subrange(0, i as int)),
        decreases lines@.len() - i,
    {
        assert(ls.subrange(0, i + 1).drop_last() =~= ls.subrange(0, i as int));
        assert(ls.subrange(0, i + 1).last() == lines@[i as int]@);
        let fields = split(lines[i].as_str(), ' ');
        if fields.len() >= 4 {
            let options = split(fields[3].as_str(), ',');
            let m = MountRecord {
                source: fields[0].clone(),
                dest: fields[1].clone(),
                fstype: fields[2].clone(),
                options,
            };
            proof {
                assert(views(fields@)[0] == fields@[0]@);
                assert(views(fields@)[1] == fields@[1]@);
                assert(views(fields@)[2] == fields@[2]@);
                assert(views(fields@)[3] == fields@[3]@);
                assert(strs(options@) == views(options@));
            }
            let ghost before = r@;
            r.push(m);
            assert(table(r@) =~= table(before).push(m@));
        }
        i = i + 1;
    }
    assert(ls.subrange(0, lines@.len() as int) =~= ls);
    r
}

} // verus!
