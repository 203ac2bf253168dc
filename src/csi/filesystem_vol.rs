//! Staging and unstaging of filesystem volumes onto a given path.

use vstd::prelude::*;
use crate::csi::mount::{
    find_mount, has_mount, lemma_last_match, last_match, run, run_plan, strs, table, ActionView, MountRecord, MountView,
    NodeAction, NodeWorld, Plan, PlanView,
};
use crate::csi::node::{outcome, resolve, resolve_fstype};
use crate::csi::types::{Code, MountVolume, Status};
use crate::text::{clone_strings, join2, join3};

verus! {

/// What `publish_fs_volume` decides, given the mount table.
pub open spec fn publish_fs_spec(
    target: Seq<char>,
    device: Seq<char>,
    mnt: MountVolume,
    filesystems: Seq<Seq<char>>,
    ms: Seq<MountView>,
) -> Result<PlanView, Code> {
    match resolve_fstype(filesystems, mnt.fs_type@) {
        None => Err(Code::InvalidArgument),
        Some(t) => if has_mount(ms, Some(device), Some(target)) {
            Ok(PlanView { device: None, actions: seq![ActionView::CreateDir { path: target }] })
        } else if has_mount(ms, Some(device), None) || has_mount(ms, None, Some(target)) {
            Err(Code::AlreadyExists)
        } else {
            Ok(PlanView {
                device: Some(device),
                actions: seq![
                    ActionView::CreateDir { path: target },
                    ActionView::PrepareDevice { fstype: t },
                    ActionView::MountFs { target, fstype: t, options: strs(mnt.mount_flags@) },
                ],
            })
        },
    }
}

fn status(code: Code, volume_id: &str, detail: &str) -> (r: Status)
    ensures
        r.code == code,
{
    Status { code, message: join3("Failed to stage volume ", volume_id, join2(": ", detail).as_str()) }
}

/// Mount the filesystem of `device_path` at `target_path`, with the
/// filesystem that `mnt` asks for (or the first of `filesystems`).
pub fn publish_fs_volume(
    volume_id: &str,
    target_path: &str,
    device_path: String,
    mnt: &MountVolume,
    filesystems: &Vec<String>,
    mounts: &Vec<MountRecord>,
) -> (r: Result<Plan, Status>)
    ensures
        outcome(r) == publish_fs_spec(target_path@, device_path@, *mnt, strs(filesystems@), table(mounts@)),
{
    let fstype = match resolve(filesystems, mnt.fs_type.as_str()) {
        Some(t) => t,
        None => {
            return Err(status(Code::InvalidArgument, volume_id, "unsupported filesystem type"));
        },
    };
    let mut actions: Vec<NodeAction> = Vec::new();
    actions.push(NodeAction::CreateDir { path: String::from_str(target_path) });
    if find_mount(mounts, Some(device_path.as_str()), Some(target_path)).is_some() {
        let r = Plan { device: None, actions };
        assert(r@.actions =~= seq![ActionView::CreateDir { path: target_path@ }]);
        return Ok(r);
    }
    if find_mount(mounts, Some(device_path.as_str()), None).is_some() {
        return Err(status(Code::AlreadyExists, volume_id, "device is already mounted elsewhere"));
    }
    if find_mount(mounts, None, Some(target_path)).is_some() {
        return Err(status(Code::AlreadyExists, volume_id, "another device is already mounted onto the target"));
    }
    let flags = clone_strings(&mnt.mount_flags);
    assert(strs(flags@) =~= strs(mnt.mount_flags@));
    actions.push(NodeAction::PrepareDevice { fstype: fstype.clone() });
    actions.push(NodeAction::MountFs { target: String::from_str(target_path), fstype: fstype.clone(), options: flags });
    let r = Plan { device: Some(device_path), actions };
    assert(r@.actions =~= seq![
        ActionView::CreateDir { path: target_path@ },
        ActionView::PrepareDevice { fstype: fstype@ },
        ActionView::MountFs { target: target_path@, fstype: fstype@, options: strs(mnt.mount_flags@) },
    ]);
    Ok(r)
}

/// What `unpublish_fs_volume` decides, given the mount table.
pub open spec fn unpublish_fs_spec(target: Seq<char>, ms: Seq<MountView>) -> PlanView {
    if has_mount(ms, None, Some(target)) {
        PlanView {
            device: None,
            actions: seq![ActionView::Unmount { target }, ActionView::RemoveDir { path: target }],
        }
    } else {
        PlanView { device: None, actions: seq![ActionView::RemoveDir { path: target }] }
    }
}

/// Unmount what is mounted at `target_path` and remove the directory; with
/// nothing mounted there, only the directory is removed.
pub fn unpublish_fs_volume(volume_id: &str, target_path: &str, mounts: &Vec<MountRecord>) -> (r: Result<Plan, Status>)
    ensures
        r matches Ok(p) && p@ == unpublish_fs_spec(target_path@, table(mounts@)),
{
    let mut actions: Vec<NodeAction> = Vec::new();
    if find_mount(mounts, None, Some(target_path)).is_some() {
        actions.push(NodeAction::Unmount { target: String::from_str(target_path) });
        actions.push(NodeAction::RemoveDir { path: String::from_str(target_path) });
        let r = Plan { device: None, actions };
        assert(r@.actions =~= seq![ActionView::Unmount { target: target_path@ }, ActionView::RemoveDir { path: target_path@ }]);
        Ok(r)
    } else {
        // nothing is mounted: idempotency makes this a success
        actions.push(NodeAction::RemoveDir { path: String::from_str(target_path) });
        let r = Plan { device: None, actions };
        assert(r@.actions =~= seq![ActionView::RemoveDir { path: target_path@ }]);
        Ok(r)
    }
}

/// Publishing, unpublishing and publishing again with the same arguments,
/// each carried out, at a target where nothing was mounted and with a
/// device mounted nowhere: the second publish succeeds and leaves the same
/// mount records as the first.
pub proof fn lemma_publish_unpublish_publish(
    w: NodeWorld,
    target: Seq<char>,
    device: Seq<char>,
    mnt: MountVolume,
    filesystems: Seq<Seq<char>>,
    found: Seq<char>,
)
    requires
        !has_mount(w.mounts, None, Some(target)),
        !has_mount(w.mounts, Some(device), None),
        publish_fs_spec(target, device, mnt, filesystems, w.mounts) is Ok,
    ensures
        ({
            let w1 = run_plan(w, publish_fs_spec(target, device, mnt, filesystems, w.mounts)->Ok_0, found);
            let w2 = run_plan(w1, unpublish_fs_spec(target, w1.mounts), found);
            publish_fs_spec(target, device, mnt, filesystems, w2.mounts) matches Ok(p3) && run_plan(w2, p3, found).mounts
                == w1.mounts
        }),
{
    reveal_with_fuel(run, 4);
    lemma_last_match(w.mounts, None, Some(target));
    lemma_last_match(w.mounts, Some(device), Some(target));
    lemma_last_match(w.mounts, Some(device), None);
    assert(!has_mount(w.mounts, Some(device), Some(target)));
    let p1 = publish_fs_spec(target, device, mnt, filesystems, w.mounts)->Ok_0;
    let w1 = run_plan(w, p1, found);
    let t = resolve_fstype(filesystems, mnt.fs_type@)->Some_0;
    let r = MountView { source: device, dest: target, fstype: t, options: strs(mnt.mount_flags@) };
    assert(w1.mounts == w.mounts.push(r));
    assert(w1.mounts.drop_last() =~= w.mounts);
    assert(has_mount(w1.mounts, None, Some(target)));
    lemma_last_match(w.mounts, None, Some(target));
    assert(last_match(w1.mounts, None, Some(target)) == Some(w.mounts.len() as int));
    assert(w1.mounts.remove(w.mounts.len() as int) =~= w.mounts);
    let w2 = run_plan(w1, unpublish_fs_spec(target, w1.mounts), found);
    assert(w2.mounts == w.mounts);
}

} // verus!
