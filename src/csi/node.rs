//! The CSI Node service. Each RPC is a decision over what the host reports
//! (the mount table, whether the volume's device is present, what the target
//! path is) that yields either a status or a plan of actions for the host to
//! carry out; the host stops at the first action that fails and replies with
//! the code that `failure_code` gives for it.

use vstd::prelude::*;
use crate::csi::mount::{
    count_at, empty_plan, lemma_run_concat, lemma_unmount_all, run, unmounts, find_mount, flags_within, has_mount, is_readonly, last_match, nothing, readonly,
    run_plan, strs, subset, table, ActionView, MountRecord, MountView, NodeAction, NodeWorld, Plan,
    PlanView,
};
use crate::csi::types::{
    mode_of, AccessType, Code, Mode, NodeCapability, NodeGetInfoResponse,
    NodePublishVolumeRequest, NodeStageVolumeRequest, NodeUnpublishVolumeRequest,
    NodeUnstageVolumeRequest, Status, VolumeCapability,
};
use crate::guid::{parse_uuid, uuid_of};
use crate::text::{clone_strings, contains_str, join2, join3, last_value, lookup_value, pairs_view, str_eq};

verus! {

/// The node plugin: the node's name and the filesystems it can mount, the
/// first being the default.
#[derive(Clone, Debug)]
pub struct Node {
    pub node_name: String,
    pub filesystems: Vec<String>,
}

/// What the host found when it looked for the volume's device.
#[derive(Debug)]
pub enum DeviceLookup {
    Found(String),
    Missing,
    /// The URI could not be parsed or the lookup failed.
    Failed(String),
}

/// What exists at a publish target path.
#[derive(Clone, Copy, Debug, PartialEq, Eq, Structural)]
pub enum TargetKind {
    Missing,
    Directory,
    RegularFile,
    /// Anything else, such as a block special file.
    Other,
}

/// The outcome of an RPC: a plan, or the code of the failure.
pub open spec fn outcome(r: Result<Plan, Status>) -> Result<PlanView, Code> {
    match r {
        Ok(p) => Ok(p@),
        Err(s) => Err(s.code),
    }
}

/// The staging path of a filesystem volume: the `fs_mnt` subdirectory of the
/// staging path. Block volumes have no staging mount, so the presence of
/// this directory tells the two kinds apart at unstage.
pub open spec fn fs_staging(staging: Seq<char>) -> Seq<char> {
    if staging.len() == 0 {
        "fs_mnt"@
    } else if staging.last() == '/' {
        staging + "fs_mnt"@
    } else {
        staging + "/fs_mnt"@
    }
}

/// Construct the filesystem volume staging path.
pub fn make_fs_staging_path(staging_path: &str) -> (r: Result<String, String>)
    ensures
        r matches Ok(p) && p@ == fs_staging(staging_path@),
{
    let n = staging_path.unicode_len();
    if n == 0 {
        Ok(String::from_str("fs_mnt"))
    } else if staging_path.get_char(n - 1) == '/' {
        Ok(join2(staging_path, "fs_mnt"))
    } else {
        Ok(join2(staging_path, "/fs_mnt"))
    }
}

/// Whether the access mode of a capability is consistent with the read-only
/// flag: writer modes always are, reader-only modes only when read-only, and
/// an unknown, unsupported or missing mode never is.
pub open spec fn access_mode_ok(cap: Option<VolumeCapability>, readonly: bool) -> bool {
    match cap {
        Some(c) => match c.access_mode {
            Some(a) => match mode_of(a.mode) {
                Some(Mode::SingleNodeWriter) => true,
                Some(Mode::MultiNodeSingleWriter) => true,
                Some(Mode::SingleNodeReaderOnly) => readonly,
                Some(Mode::MultiNodeReaderOnly) => readonly,
                _ => false,
            },
            None => false,
        },
        None => false,
    }
}

/// Check that the access mode of the capability is consistent with the
/// read-only status.
pub fn check_access_mode(volume_capability: &Option<VolumeCapability>, readonly: bool) -> (r: Result<(), String>)
    ensures
        r is Ok <==> access_mode_ok(*volume_capability, readonly),
{
    match volume_capability {
        Some(capability) => match &capability.access_mode {
            Some(access) => match Mode::from_i32(access.mode) {
                Some(mode) => match mode {
                    Mode::SingleNodeWriter | Mode::MultiNodeSingleWriter => Ok(()),
                    Mode::SingleNodeReaderOnly | Mode::MultiNodeReaderOnly => {
                        if readonly {
                            Ok(())
                        } else {
                            Err(join3(
                                "volume capability: invalid combination of access mode (",
                                mode.name(),
                                ") and mount flag (rw)",
                            ))
                        }
                    },
                    Mode::Unknown => Err(String::from_str("volume capability: unknown access mode")),
                    _ => Err(join2("volume capability: unsupported access mode: ", mode.name())),
                },
                None => Err(String::from_str("volume capability: invalid access mode")),
            },
            None => Err(String::from_str("volume capability: missing access mode")),
        },
        None => Err(String::from_str("missing volume capability")),
    }
}

/// The access type of a capability, if both are given.
pub open spec fn access_type_of(cap: Option<VolumeCapability>) -> Option<AccessType> {
    match cap {
        Some(c) => c.access_type,
        None => None,
    }
}

/// Retrieve the access type from the capability.
pub fn get_access_type(volume_capability: &Option<VolumeCapability>) -> (r: Result<&AccessType, String>)
    ensures
        match r {
            Ok(a) => access_type_of(*volume_capability) == Some(*a),
            Err(_) => access_type_of(*volume_capability) is None,
        },
{
    match volume_capability {
        Some(capability) => match &capability.access_type {
            Some(access) => Ok(access),
            None => Err(String::from_str("volume capability: missing access type")),
        },
        None => Err(String::from_str("missing volume capability")),
    }
}

/// The filesystem to use: the requested one if the node supports it, or the
/// node's default where none is requested.
pub open spec fn resolve_fstype(filesystems: Seq<Seq<char>>, wanted: Seq<char>) -> Option<Seq<char>> {
    if wanted.len() == 0 {
        if filesystems.len() > 0 {
            Some(filesystems[0])
        } else {
            None
        }
    } else if filesystems.contains(wanted) {
        Some(wanted)
    } else {
        None
    }
}

pub(crate) fn resolve(filesystems: &Vec<String>, wanted: &str) -> (r: Option<String>)
    ensures
        match r {
            Some(t) => resolve_fstype(strs(filesystems@), wanted@) == Some(t@),
            None => resolve_fstype(strs(filesystems@), wanted@) is None,
        },
{
    if wanted.unicode_len() == 0 {
        if filesystems.len() > 0 {
            Some(filesystems[0].clone())
        } else {
            None
        }
    } else if contains_str(filesystems, wanted) {
        proof {
            let k = choose|k: int| 0 <= k < filesystems@.len() && #[trigger] filesystems@[k]@ == wanted@;
            assert(strs(filesystems@)[k] == wanted@);
        }
        Some(String::from_str(wanted))
    } else {
        proof {
            assert forall|k: int| 0 <= k < strs(filesystems@).len() implies strs(filesystems@)[k] != wanted@ by {
                assert(filesystems@[k]@ != wanted@);
            }
        }
        None
    }
}

/// A failed RPC with a message naming the operation and the volume.
fn failure(code: Code, op: &str, volume_id: &str, detail: &str) -> (r: Status)
    ensures
        r.code == code,
{
    let head = join3("Failed to ", op, " volume ");
    let tail = join2(": ", detail);
    Status { code, message: join3(head.as_str(), volume_id, tail.as_str()) }
}

/// One unmount at `target` for each record mounted there.
fn unmount_all(mounts: &Vec<MountRecord>, target: &String) -> (r: Vec<NodeAction>)
    ensures
        r@.map_values(|a: NodeAction| a@) == unmounts(target@, count_at(table(mounts@), target@)),
{
    let ghost ms = table(mounts@);
    let mut n: usize = 0;
    let mut i: usize = 0;
    assert(ms.subrange(0, 0) =~= Seq::<MountView>::empty());
    while i < mounts.len()
        invariant
            ms == table(mounts@),
            i <= mounts@.len(),
            n <= i,
            n == count_at(ms.subrange(0, i as int), target@),
        decreases mounts@.len() - i,
    {
        assert(ms.subrange(0, i + 1).drop_last() =~= ms.subrange(0, i as int));
        if str_eq(mounts[i].dest.as_str(), target.as_str()) {
            n = n + 1;
        }
        i = i + 1;
    }
    assert(ms.subrange(0, mounts@.len() as int) =~= ms);
    let mut r: Vec<NodeAction> = Vec::new();
    let mut k: usize = 0;
    while k < n
        invariant
            k <= n,
            r@.len() == k,
            r@.map_values(|a: NodeAction| a@) == unmounts(target@, k as nat),
        decreases n - k,
    {
        let ghost before = r@;
        let t = target.clone();
        assert(t@ == target@);
        r.push(NodeAction::Unmount { target: t });
        proof {
            assert forall|j: int| 0 <= j < k + 1 implies (#[trigger] r@[j])@ == (ActionView::Unmount { target: target@ }) by {
                if j < k {
                    assert(r@[j] == before[j]);
                    assert(before.map_values(|a: NodeAction| a@)[j] == unmounts(target@, k as nat)[j]);
                }
            }
            assert(r@.map_values(|a: NodeAction| a@) =~= unmounts(target@, (k + 1) as nat));
        }
        k = k + 1;
    }
    r
}

fn plan_of(device: Option<String>, actions: Vec<NodeAction>) -> (r: Plan)
    ensures
        r.device == device,
        r.actions == actions,
{
    Plan { device, actions }
}

/// What NodeStageVolume decides, given the device lookup for the volume's
/// URI and the mount table.
pub open spec fn stage_spec(node: Node, req: NodeStageVolumeRequest, dev: DeviceLookup, ms: Seq<MountView>) -> Result<PlanView, Code> {
    if req.volume_id@.len() == 0 || req.staging_target_path@.len() == 0 || !access_mode_ok(
        req.volume_capability,
        true,
    ) || last_value(pairs_view(req.publish_context@), "uri"@) is None {
        Err(Code::InvalidArgument)
    } else if dev is Failed {
        Err(Code::Internal)
    } else {
        match access_type_of(req.volume_capability) {
            None => Err(Code::InvalidArgument),
            Some(AccessType::Mount(m)) => {
                let fs = fs_staging(req.staging_target_path@);
                match resolve_fstype(strs(node.filesystems@), m.fs_type@) {
                    None => Err(Code::InvalidArgument),
                    Some(t) => {
                        let mount = ActionView::MountFs { target: fs, fstype: t, options: strs(m.mount_flags@) };
                        match dev {
                            DeviceLookup::Found(d) => if has_mount(ms, Some(d@), Some(fs)) {
                                Ok(empty_plan())
                            } else if has_mount(ms, Some(d@), None) || has_mount(ms, None, Some(fs)) {
                                Err(Code::AlreadyExists)
                            } else {
                                Ok(PlanView {
                                    device: Some(d@),
                                    actions: seq![
                                        ActionView::CreateDir { path: fs },
                                        ActionView::PrepareDevice { fstype: t },
                                        mount,
                                    ],
                                })
                            },
                            _ => if has_mount(ms, None, Some(fs)) {
                                Err(Code::AlreadyExists)
                            } else {
                                Ok(PlanView {
                                    device: None,
                                    actions: seq![
                                        ActionView::CreateDir { path: fs },
                                        ActionView::Attach,
                                        ActionView::WaitForDevice,
                                        ActionView::PrepareDevice { fstype: t },
                                        mount,
                                    ],
                                })
                            },
                        }
                    },
                }
            },
            Some(AccessType::Block) => match dev {
                DeviceLookup::Found(_) => Ok(empty_plan()),
                _ => Ok(PlanView { device: None, actions: seq![ActionView::Attach, ActionView::WaitForDevice] }),
            },
        }
    }
}

/// What NodeUnstageVolume decides, given the device found for the volume id,
/// whether the filesystem staging directory exists, and the mount table.
/// Every record mounted at the filesystem staging path is unmounted, one
/// unmount each, so that nothing is left mounted there.
pub open spec fn unstage_spec(req: NodeUnstageVolumeRequest, dev: DeviceLookup, staging_exists: bool, ms: Seq<MountView>) -> Result<PlanView, Code> {
    if req.volume_id@.len() == 0 || req.staging_target_path@.len() == 0 {
        Err(Code::InvalidArgument)
    } else if uuid_of(req.volume_id@) is None || dev is Failed {
        Err(Code::Internal)
    } else {
        let fs = fs_staging(req.staging_target_path@);
        match dev {
            DeviceLookup::Found(d) => if staging_exists && has_mount(ms, Some(d@), Some(fs)) {
                Ok(PlanView {
                    device: Some(d@),
                    actions: unmounts(fs, count_at(ms, fs)) + seq![ActionView::Detach],
                })
            } else if staging_exists && (has_mount(ms, Some(d@), None) || has_mount(ms, None, Some(fs))) {
                Err(Code::AlreadyExists)
            } else {
                Ok(PlanView {
                    device: Some(d@),
                    actions: seq![ActionView::Detach, ActionView::RemoveDir { path: fs }],
                })
            },
            _ => if !staging_exists {
                Ok(empty_plan())
            } else if has_mount(ms, None, Some(fs)) {
                Ok(PlanView {
                    device: None,
                    actions: unmounts(fs, count_at(ms, fs)) + seq![ActionView::RemoveDir { path: fs }],
                })
            } else {
                Ok(PlanView { device: None, actions: seq![ActionView::RemoveDir { path: fs }] })
            },
        }
    }
}

/// What NodePublishVolume decides, given the device lookup for the volume's
/// URI (used by block volumes only) and the mount table.
pub open spec fn publish_spec(node: Node, req: NodePublishVolumeRequest, dev: DeviceLookup, ms: Seq<MountView>) -> Result<PlanView, Code> {
    let target = req.target_path@;
    if !access_mode_ok(req.volume_capability, req.readonly) || req.volume_id@.len() == 0
        || target.len() == 0 || req.staging_target_path@.len() == 0 || last_value(
        pairs_view(req.publish_context@),
        "uri"@,
    ) is None {
        Err(Code::InvalidArgument)
    } else {
        match access_type_of(req.volume_capability) {
            None => Err(Code::InvalidArgument),
            Some(AccessType::Mount(m)) => {
                let fs = fs_staging(req.staging_target_path@);
                let flags = strs(m.mount_flags@);
                match last_match(ms, None, Some(fs)) {
                    None => Err(Code::InvalidArgument),
                    Some(si) => {
                        let staged = ms[si];
                        if (m.fs_type@.len() > 0 && m.fs_type@ != staged.fstype) || !strs(
                            node.filesystems@,
                        ).contains(staged.fstype) || (is_readonly(staged.options) && !req.readonly) {
                            Err(Code::InvalidArgument)
                        } else {
                            match last_match(ms, None, Some(target)) {
                                Some(ti) => if ms[ti].source != staged.source || !flags_within(
                                    flags,
                                    ms[ti].options,
                                ) || req.readonly != is_readonly(ms[ti].options) {
                                    Err(Code::AlreadyExists)
                                } else {
                                    Ok(empty_plan())
                                },
                                None => Ok(PlanView {
                                    device: None,
                                    actions: seq![
                                        ActionView::CreateDir { path: target },
                                        ActionView::BindMount { source: fs, target },
                                    ] + if req.readonly && !is_readonly(staged.options) {
                                        seq![ActionView::BindRemount { target, options: flags.push("ro"@) }]
                                    } else {
                                        Seq::empty()
                                    },
                                }),
                            }
                        }
                    },
                }
            },
            Some(AccessType::Block) => match dev {
                DeviceLookup::Found(d) => Ok(PlanView {
                    device: Some(d@),
                    actions: seq![
                        ActionView::CreateParentDir { path: target },
                        ActionView::Mknod { path: target },
                        ActionView::MountBlockDevice { target, readonly: req.readonly },
                    ],
                }),
                _ => Err(Code::Internal),
            },
        }
    }
}

/// What NodeUnpublishVolume decides, given what exists at the target path
/// and the mount table.
pub open spec fn unpublish_spec(req: NodeUnpublishVolumeRequest, kind: TargetKind, ms: Seq<MountView>) -> Result<PlanView, Code> {
    let t = req.target_path@;
    if req.volume_id@.len() == 0 || t.len() == 0 {
        Err(Code::InvalidArgument)
    } else {
        match kind {
            TargetKind::Missing => Ok(empty_plan()),
            TargetKind::RegularFile => Err(Code::Unknown),
            TargetKind::Directory => if has_mount(ms, None, Some(t)) {
                Ok(PlanView {
                    device: None,
                    actions: seq![ActionView::Unmount { target: t }, ActionView::RemoveDir { path: t }],
                })
            } else {
                Ok(PlanView { device: None, actions: seq![ActionView::RemoveDir { path: t }] })
            },
            TargetKind::Other => if has_mount(ms, None, Some(t)) {
                Ok(PlanView {
                    device: None,
                    actions: seq![ActionView::Unmount { target: t }, ActionView::RemoveFile { path: t }],
                })
            } else {
                Ok(PlanView { device: None, actions: seq![ActionView::RemoveFile { path: t }] })
            },
        }
    }
}

/// The code that a failed action turns into; `None` where the failure is
/// only logged.
pub open spec fn failure_code_of(a: ActionView) -> Option<Code> {
    match a {
        ActionView::RemoveDir { .. } => None,
        ActionView::RemoveFile { .. } => None,
        ActionView::WaitForDevice => Some(Code::Unavailable),
        _ => Some(Code::Internal),
    }
}

/// The code that the RPC replies with when `action` fails, or `None` where
/// the failure is only logged and the plan goes on.
pub fn failure_code(action: &NodeAction) -> (r: Option<Code>)
    ensures
        r == failure_code_of(action@),
{
    match action {
        NodeAction::RemoveDir { .. } => None,
        NodeAction::RemoveFile { .. } => None,
        NodeAction::WaitForDevice => Some(Code::Unavailable),
        _ => Some(Code::Internal),
    }
}

/// The best-effort clean-up to attempt when `action` fails: a read-only
/// remount that fails leaves the bind mount behind, which is unmounted.
pub fn cleanup_after_failure(action: &NodeAction) -> (r: Option<NodeAction>)
    ensures
        match action@ {
            ActionView::BindRemount { target, .. } => r matches Some(c) && c@ == ActionView::Unmount { target },
            _ => r is None,
        },
{
    match action {
        NodeAction::BindRemount { target, .. } => Some(NodeAction::Unmount { target: target.clone() }),
        _ => None,
    }
}

/// Whether a device lookup and a mount table are what the host reports of
/// `w`, the lookup having worked.
pub open spec fn observes(w: NodeWorld, dev: DeviceLookup, mounts: Seq<MountRecord>) -> bool {
    table(mounts) == w.mounts && match dev {
        DeviceLookup::Found(d) => w.device == Some(d@),
        DeviceLookup::Missing => w.device is None,
        DeviceLookup::Failed(_) => false,
    }
}

/// Staging is idempotent: once a NodeStageVolume has succeeded and its plan
/// has been carried out, the same request finds the volume staged and
/// replies OK with nothing to do, so the mounts stay as they are.
pub proof fn lemma_stage_idempotent(
    node: Node,
    req: NodeStageVolumeRequest,
    w: NodeWorld,
    dev: DeviceLookup,
    mounts: Seq<MountRecord>,
    found: Seq<char>,
    dev2: DeviceLookup,
    mounts2: Seq<MountRecord>,
)
    requires
        observes(w, dev, mounts),
        stage_spec(node, req, dev, table(mounts)) is Ok,
        observes(run_plan(w, stage_spec(node, req, dev, table(mounts))->Ok_0, found), dev2, mounts2),
    ensures
        stage_spec(node, req, dev2, table(mounts2)) == Ok::<PlanView, Code>(empty_plan()),
{
    reveal_with_fuel(run, 6);
    let p = stage_spec(node, req, dev, table(mounts))->Ok_0;
    let w1 = run_plan(w, p, found);
    if let Some(AccessType::Mount(m)) = access_type_of(req.volume_capability) {
        let fs = fs_staging(req.staging_target_path@);
        let t = resolve_fstype(strs(node.filesystems@), m.fs_type@)->Some_0;
        if p.actions.len() > 0 {
            let cur = w1.device->Some_0;
            let r = MountView { source: cur, dest: fs, fstype: t, options: strs(m.mount_flags@) };
            assert(w1.mounts.last() == r);
            assert(w1.mounts.drop_last().push(r) == w1.mounts);
            assert(last_match(w1.mounts, Some(cur), Some(fs)) is Some);
        }
    }
}

/// Unstaging is idempotent: once a NodeUnstageVolume has succeeded and its
/// plan has been carried out, the same request replies OK with a plan that
/// leaves the mounts as they are.
pub proof fn lemma_unstage_idempotent(
    req: NodeUnstageVolumeRequest,
    w: NodeWorld,
    dev: DeviceLookup,
    mounts: Seq<MountRecord>,
    found: Seq<char>,
    dev2: DeviceLookup,
    mounts2: Seq<MountRecord>,
)
    requires
        observes(w, dev, mounts),
        unstage_spec(req, dev, w.dirs.contains(fs_staging(req.staging_target_path@)), table(mounts)) is Ok,
        observes(
            run_plan(
                w,
                unstage_spec(req, dev, w.dirs.contains(fs_staging(req.staging_target_path@)), table(mounts))->Ok_0,
                found,
            ),
            dev2,
            mounts2,
        ),
    ensures
        ({
            let fs = fs_staging(req.staging_target_path@);
            let w1 = run_plan(w, unstage_spec(req, dev, w.dirs.contains(fs), table(mounts))->Ok_0, found);
            unstage_spec(req, dev2, w1.dirs.contains(fs), table(mounts2)) matches Ok(p2) && run_plan(
                w1,
                p2,
                found,
            ).mounts == w1.mounts
        }),
{
    reveal_with_fuel(run, 3);
    let fs = fs_staging(req.staging_target_path@);
    let p = unstage_spec(req, dev, w.dirs.contains(fs), table(mounts))->Ok_0;
    let cur = if p.device is Some { p.device->Some_0 } else { found };
    let n = count_at(w.mounts, fs);
    lemma_unmount_all(w, fs, cur);
    let wu = run(w, unmounts(fs, n), cur);
    if p.actions.len() > 0 && p.actions == unmounts(fs, n) + seq![ActionView::Detach] {
        lemma_run_concat(w, unmounts(fs, n), seq![ActionView::Detach], cur);
    } else if p.actions.len() > 0 && p.actions == unmounts(fs, n) + seq![ActionView::RemoveDir { path: fs }] {
        lemma_run_concat(w, unmounts(fs, n), seq![ActionView::RemoveDir { path: fs }], cur);
    }
}

impl Node {
    /// NodeStageVolume. `device` is what the host found for the URI of the
    /// publish context; `mounts` is the mount table.
    pub fn node_stage_volume(
        &self,
        req: &NodeStageVolumeRequest,
        device: &DeviceLookup,
        mounts: &Vec<MountRecord>,
    ) -> (r: Result<Plan, Status>)
        ensures
            outcome(r) == stage_spec(*self, *req, *device, table(mounts@)),
    {
        let volume_id = req.volume_id.as_str();
        if volume_id.unicode_len() == 0 {
            return Err(failure(Code::InvalidArgument, "stage", "", "missing volume id"));
        }
        if req.staging_target_path.as_str().unicode_len() == 0 {
            return Err(failure(Code::InvalidArgument, "stage", volume_id, "missing staging path"));
        }
        // relax the check a bit by pretending all stage mounts are read-only
        if let Err(error) = check_access_mode(&req.volume_capability, true) {
            return Err(failure(Code::InvalidArgument, "stage", volume_id, error.as_str()));
        }
        let uri = lookup_value(&req.publish_context, "uri");
        if uri.is_none() {
            return Err(failure(Code::InvalidArgument, "stage", volume_id, "URI attribute missing from publish context"));
        }
        if let DeviceLookup::Failed(error) = device {
            return Err(failure(Code::Internal, "stage", volume_id, error.as_str()));
        }
        let access = match get_access_type(&req.volume_capability) {
            Ok(a) => a,
            Err(error) => {
                return Err(failure(Code::InvalidArgument, "stage", volume_id, error.as_str()));
            },
        };
        match access {
            AccessType::Mount(mnt) => {
                let fs = match make_fs_staging_path(req.staging_target_path.as_str()) {
                    Ok(p) => p,
                    Err(error) => {
                        return Err(failure(Code::Internal, "stage", volume_id, error.as_str()));
                    },
                };
                let fstype = match resolve(&self.filesystems, mnt.fs_type.as_str()) {
                    Some(t) => t,
                    None => {
                        return Err(failure(Code::InvalidArgument, "stage", volume_id, "unsupported filesystem type"));
                    },
                };
                let ghost mount_view = ActionView::MountFs {
                    target: fs@,
                    fstype: fstype@,
                    options: strs(mnt.mount_flags@),
                };
                let flags = clone_strings(&mnt.mount_flags);
                assert(strs(flags@) =~= strs(mnt.mount_flags@));
                match device {
                    DeviceLookup::Found(path) => {
                        if find_mount(mounts, Some(path.as_str()), Some(fs.as_str())).is_some() {
                            return Ok(nothing());
                        }
                        if find_mount(mounts, Some(path.as_str()), None).is_some() {
                            return Err(failure(Code::AlreadyExists, "stage", volume_id, "device is already mounted elsewhere"));
                        }
                        if find_mount(mounts, None, Some(fs.as_str())).is_some() {
                            return Err(failure(Code::AlreadyExists, "stage", volume_id, "another device is already mounted onto the staging path"));
                        }
                        let mut actions: Vec<NodeAction> = Vec::new();
                        actions.push(NodeAction::CreateDir { path: fs.clone() });
                        actions.push(NodeAction::PrepareDevice { fstype: fstype.clone() });
                        actions.push(NodeAction::MountFs { target: fs, fstype, options: flags });
                        let r = plan_of(Some(path.clone()), actions);
                        assert(r@.actions =~= seq![
                            ActionView::CreateDir { path: fs@ },
                            ActionView::PrepareDevice { fstype: fstype@ },
                            mount_view,
                        ]);
                        Ok(r)
                    },
                    _ => {
                        if find_mount(mounts, None, Some(fs.as_str())).is_some() {
                            return Err(failure(Code::AlreadyExists, "stage", volume_id, "another device is already mounted onto the staging path"));
                        }
                        let mut actions: Vec<NodeAction> = Vec::new();
                        actions.push(NodeAction::CreateDir { path: fs.clone() });
                        actions.push(NodeAction::Attach);
                        actions.push(NodeAction::WaitForDevice);
                        actions.push(NodeAction::PrepareDevice { fstype: fstype.clone() });
                        actions.push(NodeAction::MountFs { target: fs, fstype, options: flags });
                        let r = plan_of(None, actions);
                        assert(r@.actions =~= seq![
                            ActionView::CreateDir { path: fs@ },
                            ActionView::Attach,
                            ActionView::WaitForDevice,
                            ActionView::PrepareDevice { fstype: fstype@ },
                            mount_view,
                        ]);
                        Ok(r)
                    },
                }
            },
            AccessType::Block => {
                match device {
                    DeviceLookup::Found(_) => Ok(nothing()),
                    _ => {
                        // attach is idempotent, so it does not restart the attach process
                        let mut actions: Vec<NodeAction> = Vec::new();
                        actions.push(NodeAction::Attach);
                        actions.push(NodeAction::WaitForDevice);
                        let r = plan_of(None, actions);
                        assert(r@.actions =~= seq![ActionView::Attach, ActionView::WaitForDevice]);
                        Ok(r)
                    },
                }
            },
        }
    }
}


impl Node {
    /// NodeUnstageVolume. `device` is what the host found for the volume id;
    /// `staging_exists` says whether the filesystem staging path exists.
    pub fn node_unstage_volume(
        &self,
        req: &NodeUnstageVolumeRequest,
        device: &DeviceLookup,
        staging_exists: bool,
        mounts: &Vec<MountRecord>,
    ) -> (r: Result<Plan, Status>)
        ensures
            outcome(r) == unstage_spec(*req, *device, staging_exists, table(mounts@)),
    {
        let volume_id = req.volume_id.as_str();
        if volume_id.unicode_len() == 0 {
            return Err(failure(Code::InvalidArgument, "unstage", "", "missing volume id"));
        }
        if req.staging_target_path.as_str().unicode_len() == 0 {
            return Err(failure(Code::InvalidArgument, "unstage", volume_id, "missing staging path"));
        }
        let fs = match make_fs_staging_path(req.staging_target_path.as_str()) {
            Ok(p) => p,
            Err(error) => {
                return Err(failure(Code::Internal, "unstage", volume_id, error.as_str()));
            },
        };
        if parse_uuid(volume_id).is_none() {
            return Err(failure(Code::Internal, "unstage", volume_id, "not a valid UUID"));
        }
        match device {
            DeviceLookup::Failed(error) => {
                Err(failure(Code::Internal, "unstage", volume_id, error.as_str()))
            },
            DeviceLookup::Found(path) => {
                if staging_exists {
                    if find_mount(mounts, Some(path.as_str()), Some(fs.as_str())).is_some() {
                        let mut actions = unmount_all(mounts, &fs);
                        let ghost head = actions@.map_values(|a: NodeAction| a@);
                        actions.push(NodeAction::Detach);
                        let r = plan_of(Some(path.clone()), actions);
                        assert(r@.actions =~= head + seq![ActionView::Detach]);
                        return Ok(r);
                    }
                    if find_mount(mounts, Some(path.as_str()), None).is_some() {
                        return Err(failure(Code::AlreadyExists, "unstage", volume_id, "device is mounted elsewhere"));
                    }
                    if find_mount(mounts, None, Some(fs.as_str())).is_some() {
                        return Err(failure(Code::AlreadyExists, "unstage", volume_id, "another device is mounted onto the staging path"));
                    }
                }
                // detach is required for filesystem and block volumes alike
                let mut actions: Vec<NodeAction> = Vec::new();
                actions.push(NodeAction::Detach);
                actions.push(NodeAction::RemoveDir { path: fs.clone() });
                let r = plan_of(Some(path.clone()), actions);
                assert(r@.actions =~= seq![ActionView::Detach, ActionView::RemoveDir { path: fs@ }]);
                Ok(r)
            },
            DeviceLookup::Missing => {
                // Some devices (nbd) are not found by their id; where a
                // mount is present it is removed and nothing is detached.
                if !staging_exists {
                    return Ok(nothing());
                }
                if find_mount(mounts, None, Some(fs.as_str())).is_some() {
                    let mut actions = unmount_all(mounts, &fs);
                    let ghost head = actions@.map_values(|a: NodeAction| a@);
                    actions.push(NodeAction::RemoveDir { path: fs.clone() });
                    let r = plan_of(None, actions);
                    assert(r@.actions =~= head + seq![ActionView::RemoveDir { path: fs@ }]);
                    Ok(r)
                } else {
                    let mut actions: Vec<NodeAction> = Vec::new();
                    actions.push(NodeAction::RemoveDir { path: fs.clone() });
                    let r = plan_of(None, actions);
                    assert(r@.actions =~= seq![ActionView::RemoveDir { path: fs@ }]);
                    Ok(r)
                }
            },
        }
    }

    /// NodePublishVolume. `device` is what the host found for the URI of the
    /// publish context (read for block volumes only); `mounts` is the mount
    /// table.
    pub fn node_publish_volume(
        &self,
        req: &NodePublishVolumeRequest,
        device: &DeviceLookup,
        mounts: &Vec<MountRecord>,
    ) -> (r: Result<Plan, Status>)
        ensures
            outcome(r) == publish_spec(*self, *req, *device, table(mounts@)),
    {
        let volume_id = req.volume_id.as_str();
        let target = req.target_path.as_str();
        if let Err(error) = check_access_mode(&req.volume_capability, req.readonly) {
            return Err(failure(Code::InvalidArgument, "publish", volume_id, error.as_str()));
        }
        if volume_id.unicode_len() == 0 {
            return Err(failure(Code::InvalidArgument, "publish", "", "missing volume id"));
        }
        if target.unicode_len() == 0 {
            return Err(failure(Code::InvalidArgument, "publish", volume_id, "missing target path"));
        }
        // the staging path is not optional, as staging is advertised
        if req.staging_target_path.as_str().unicode_len() == 0 {
            return Err(failure(Code::InvalidArgument, "publish", volume_id, "missing staging path"));
        }
        if lookup_value(&req.publish_context, "uri").is_none() {
            return Err(failure(Code::InvalidArgument, "publish", volume_id, "URI attribute missing from publish context"));
        }
        let access = match get_access_type(&req.volume_capability) {
            Ok(a) => a,
            Err(error) => {
                return Err(failure(Code::InvalidArgument, "publish", volume_id, error.as_str()));
            },
        };
        match access {
            AccessType::Mount(mnt) => {
                let fs = match make_fs_staging_path(req.staging_target_path.as_str()) {
                    Ok(p) => p,
                    Err(error) => {
                        return Err(failure(Code::Internal, "publish", volume_id, error.as_str()));
                    },
                };
                let si = match find_mount(mounts, None, Some(fs.as_str())) {
                    Some(i) => i,
                    None => {
                        return Err(failure(Code::InvalidArgument, "publish", volume_id, "no mount for staging path"));
                    },
                };
                proof {
                    crate::csi::mount::lemma_last_match(table(mounts@), None, Some(fs@));
                }
                let staged = &mounts[si];
                assert(table(mounts@)[si as int] == staged@);
                if mnt.fs_type.as_str().unicode_len() > 0 && !str_eq(mnt.fs_type.as_str(), staged.fstype.as_str()) {
                    return Err(failure(Code::InvalidArgument, "publish", volume_id, "filesystem type does not match staged volume"));
                }
                if !contains_str(&self.filesystems, staged.fstype.as_str()) {
                    proof {
                        assert forall|k: int| 0 <= k < strs(self.filesystems@).len() implies strs(self.filesystems@)[k] != staged.fstype@ by {
                            assert(self.filesystems@[k]@ != staged.fstype@);
                        }
                    }
                    return Err(failure(Code::InvalidArgument, "publish", volume_id, "unsupported filesystem type"));
                }
                proof {
                    let k = choose|k: int| 0 <= k < self.filesystems@.len() && #[trigger] self.filesystems@[k]@ == staged.fstype@;
                    assert(strs(self.filesystems@)[k] == staged.fstype@);
                }
                let staged_ro = readonly(&staged.options);
                if staged_ro && !req.readonly {
                    return Err(failure(Code::InvalidArgument, "publish", volume_id, "volume is staged as \"ro\" but publish requires \"rw\""));
                }
                if let Some(ti) = find_mount(mounts, None, Some(target)) {
                    proof {
                        crate::csi::mount::lemma_last_match(table(mounts@), None, Some(target@));
                    }
                    let existing = &mounts[ti];
                    assert(table(mounts@)[ti as int] == existing@);
                    if !str_eq(existing.source.as_str(), staged.source.as_str()) {
                        return Err(failure(Code::AlreadyExists, "publish", volume_id, "target directory is already in use"));
                    }
                    if !subset(&mnt.mount_flags, &existing.options) || req.readonly != readonly(&existing.options) {
                        return Err(failure(Code::AlreadyExists, "publish", volume_id, "target directory is already mounted but with incompatible flags"));
                    }
                    return Ok(nothing());
                }
                let mut actions: Vec<NodeAction> = Vec::new();
                actions.push(NodeAction::CreateDir { path: String::from_str(target) });
                actions.push(NodeAction::BindMount { source: fs.clone(), target: String::from_str(target) });
                let ghost head = seq![
                    ActionView::CreateDir { path: target@ },
                    ActionView::BindMount { source: fs@, target: target@ },
                ];
                assert(actions@.map_values(|a: NodeAction| a@) =~= head);
                if req.readonly && !staged_ro {
                    let mut options = clone_strings(&mnt.mount_flags);
                    options.push(String::from_str("ro"));
                    assert(strs(options@) =~= strs(mnt.mount_flags@).push("ro"@));
                    actions.push(NodeAction::BindRemount { target: String::from_str(target), options });
                    let r = plan_of(None, actions);
                    assert(r@.actions =~= head + seq![ActionView::BindRemount { target: target@, options: strs(mnt.mount_flags@).push("ro"@) }]);
                    Ok(r)
                } else {
                    let r = plan_of(None, actions);
                    assert(r@.actions =~= head + Seq::<ActionView>::empty());
                    Ok(r)
                }
            },
            AccessType::Block => {
                // block volumes are not staged: the device is bind-mounted
                // onto a block special file, possibly at several targets
                match device {
                    DeviceLookup::Found(path) => {
                        let mut actions: Vec<NodeAction> = Vec::new();
                        actions.push(NodeAction::CreateParentDir { path: String::from_str(target) });
                        actions.push(NodeAction::Mknod { path: String::from_str(target) });
                        actions.push(NodeAction::MountBlockDevice { target: String::from_str(target), readonly: req.readonly });
                        let r = plan_of(Some(path.clone()), actions);
                        assert(r@.actions =~= seq![
                            ActionView::CreateParentDir { path: target@ },
                            ActionView::Mknod { path: target@ },
                            ActionView::MountBlockDevice { target: target@, readonly: req.readonly },
                        ]);
                        Ok(r)
                    },
                    DeviceLookup::Missing => Err(failure(Code::Internal, "publish", volume_id, "unable to retrieve device path")),
                    DeviceLookup::Failed(error) => Err(failure(Code::Internal, "publish", volume_id, error.as_str())),
                }
            },
        }
    }

    /// NodeUnpublishVolume. `kind` is what exists at the target path.
    pub fn node_unpublish_volume(
        &self,
        req: &NodeUnpublishVolumeRequest,
        kind: TargetKind,
        mounts: &Vec<MountRecord>,
    ) -> (r: Result<Plan, Status>)
        ensures
            outcome(r) == unpublish_spec(*req, kind, table(mounts@)),
    {
        let volume_id = req.volume_id.as_str();
        let target = req.target_path.as_str();
        if volume_id.unicode_len() == 0 {
            return Err(failure(Code::InvalidArgument, "unpublish", "", "missing volume id"));
        }
        if target.unicode_len() == 0 {
            return Err(failure(Code::InvalidArgument, "unpublish", volume_id, "missing target path"));
        }
        match kind {
            // a previous unpublish has succeeded
            TargetKind::Missing => Ok(nothing()),
            TargetKind::RegularFile => Err(Status {
                code: Code::Unknown,
                message: join3(join3("Failed to unpublish volume ", volume_id, ": ").as_str(), target, " is a file."),
            }),
            TargetKind::Directory => {
                let mut actions: Vec<NodeAction> = Vec::new();
                if find_mount(mounts, None, Some(target)).is_some() {
                    actions.push(NodeAction::Unmount { target: String::from_str(target) });
                    actions.push(NodeAction::RemoveDir { path: String::from_str(target) });
                    let r = plan_of(None, actions);
                    assert(r@.actions =~= seq![ActionView::Unmount { target: target@ }, ActionView::RemoveDir { path: target@ }]);
                    Ok(r)
                } else {
                    actions.push(NodeAction::RemoveDir { path: String::from_str(target) });
                    let r = plan_of(None, actions);
                    assert(r@.actions =~= seq![ActionView::RemoveDir { path: target@ }]);
                    Ok(r)
                }
            },
            TargetKind::Other => {
                let mut actions: Vec<NodeAction> = Vec::new();
                if find_mount(mounts, None, Some(target)).is_some() {
                    actions.push(NodeAction::Unmount { target: String::from_str(target) });
                    actions.push(NodeAction::RemoveFile { path: String::from_str(target) });
                    let r = plan_of(None, actions);
                    assert(r@.actions =~= seq![ActionView::Unmount { target: target@ }, ActionView::RemoveFile { path: target@ }]);
                    Ok(r)
                } else {
                    actions.push(NodeAction::RemoveFile { path: String::from_str(target) });
                    let r = plan_of(None, actions);
                    assert(r@.actions =~= seq![ActionView::RemoveFile { path: target@ }]);
                    Ok(r)
                }
            },
        }
    }

    /// NodeGetInfo, where `nbd_devices` is the number of NBD device nodes
    /// that the host has, which caps the volumes this node can take.
    pub fn node_get_info(&self, nbd_devices: i64) -> (r: NodeGetInfoResponse)
        ensures
            r.node_id@ == "mayastor://"@ + self.node_name@,
            r.max_volumes_per_node == nbd_devices,
    {
        NodeGetInfoResponse {
            node_id: join2("mayastor://", self.node_name.as_str()),
            max_volumes_per_node: nbd_devices,
        }
    }

    /// NodeGetCapabilities: staging and unstaging only.
    pub fn node_get_capabilities(&self) -> (r: Vec<NodeCapability>)
        ensures
            r@ == seq![NodeCapability::StageUnstageVolume],
    {
        let mut caps: Vec<NodeCapability> = Vec::new();
        caps.push(NodeCapability::StageUnstageVolume);
        assert(caps@ =~= seq![NodeCapability::StageUnstageVolume]);
        caps
    }

    /// NodeGetVolumeStats is not implemented.
    pub fn node_get_volume_stats(&self) -> (r: Status)
        ensures
            r.code == Code::Unimplemented,
    {
        Status { code: Code::Unimplemented, message: String::from_str("Method not implemented") }
    }

    /// NodeExpandVolume is not implemented.
    pub fn node_expand_volume(&self) -> (r: Status)
        ensures
            r.code == Code::Unimplemented,
    {
        Status { code: Code::Unimplemented, message: String::from_str("Method not implemented") }
    }
}

} // verus!
