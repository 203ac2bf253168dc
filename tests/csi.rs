use mayastor::csi::error::DeviceError;
use mayastor::csi::filesystem_vol::{publish_fs_volume, unpublish_fs_volume};
use mayastor::csi::mount::{find_mount, subset, MountRecord, NodeAction, Plan};
use mayastor::csi::node::{
    check_access_mode, cleanup_after_failure, failure_code, get_access_type, make_fs_staging_path,
    DeviceLookup, Node, TargetKind,
};
use mayastor::csi::types::{
    AccessMode, AccessType, Code, MountVolume, NodeCapability, NodePublishVolumeRequest,
    NodeStageVolumeRequest, NodeUnpublishVolumeRequest, NodeUnstageVolumeRequest, VolumeCapability,
};

const VOLUME: &str = "00000000-0000-0000-0000-000000000001";
const URI: &str = "aio:///tmp/d1.img?blk_size=512";

fn node() -> Node {
    Node { node_name: "node1".to_string(), filesystems: vec!["xfs".to_string(), "ext4".to_string()] }
}

fn mount_cap(fstype: &str, mode: i32) -> Option<VolumeCapability> {
    Some(VolumeCapability {
        access_type: Some(AccessType::Mount(MountVolume { fs_type: fstype.to_string(), mount_flags: vec![] })),
        access_mode: Some(AccessMode { mode }),
    })
}

fn block_cap() -> Option<VolumeCapability> {
    Some(VolumeCapability { access_type: Some(AccessType::Block), access_mode: Some(AccessMode { mode: 1 }) })
}

fn record(source: &str, dest: &str, fstype: &str, options: &[&str]) -> MountRecord {
    MountRecord {
        source: source.to_string(),
        dest: dest.to_string(),
        fstype: fstype.to_string(),
        options: options.iter().map(|o| o.to_string()).collect(),
    }
}

fn stage_request(staging: &str) -> NodeStageVolumeRequest {
    NodeStageVolumeRequest {
        volume_id: VOLUME.to_string(),
        staging_target_path: staging.to_string(),
        volume_capability: mount_cap("xfs", 1),
        publish_context: vec![("uri".to_string(), URI.to_string())],
    }
}

fn is_empty(p: &Plan) -> bool {
    p.device.is_none() && p.actions.is_empty()
}

#[test]
fn idempotent_stage() {
    let n = node();
    let req = stage_request("/s");
    let plan = n.node_stage_volume(&req, &DeviceLookup::Missing, &vec![]).unwrap();
    assert!(plan.device.is_none());
    assert_eq!(plan.actions.len(), 5);
    assert!(matches!(&plan.actions[0], NodeAction::CreateDir { path } if path == "/s/fs_mnt"));
    assert!(matches!(&plan.actions[1], NodeAction::Attach));
    assert!(matches!(&plan.actions[2], NodeAction::WaitForDevice));
    assert!(matches!(&plan.actions[3], NodeAction::PrepareDevice { fstype } if fstype == "xfs"));
    assert!(matches!(&plan.actions[4], NodeAction::MountFs { target, fstype, options }
        if target == "/s/fs_mnt" && fstype == "xfs" && options.is_empty()));

    // the host attached /dev/sdx and mounted it at /s/fs_mnt
    let mounts = vec![record("/dev/sdx", "/s/fs_mnt", "xfs", &["rw"])];
    let again = n.node_stage_volume(&req, &DeviceLookup::Found("/dev/sdx".to_string()), &mounts).unwrap();
    assert!(is_empty(&again));
}

#[test]
fn stage_present_device_is_formatted_and_mounted() {
    let plan = node().node_stage_volume(&stage_request("/s/"), &DeviceLookup::Found("/dev/nbd0".to_string()), &vec![]).unwrap();
    assert_eq!(plan.device.as_deref(), Some("/dev/nbd0"));
    assert_eq!(plan.actions.len(), 3);
    assert!(matches!(&plan.actions[0], NodeAction::CreateDir { path } if path == "/s/fs_mnt"));
    assert!(matches!(&plan.actions[2], NodeAction::MountFs { target, .. } if target == "/s/fs_mnt"));
}

#[test]
fn staged_elsewhere_conflict() {
    let n = node();
    let mounts = vec![record("/dev/nbd0", "/sA/fs_mnt", "xfs", &["rw"])];
    let found = DeviceLookup::Found("/dev/nbd0".to_string());
    assert!(is_empty(&n.node_stage_volume(&stage_request("/sA"), &found, &mounts).unwrap()));
    let err = n.node_stage_volume(&stage_request("/sB"), &found, &mounts).unwrap_err();
    assert_eq!(err.code, Code::AlreadyExists);
}

#[test]
fn stage_onto_occupied_staging_path() {
    let mounts = vec![record("/dev/other", "/s/fs_mnt", "xfs", &["rw"])];
    let err = node().node_stage_volume(&stage_request("/s"), &DeviceLookup::Missing, &mounts).unwrap_err();
    assert_eq!(err.code, Code::AlreadyExists);
}

#[test]
fn stage_rejects_bad_requests() {
    let n = node();
    let mut req = stage_request("/s");
    req.volume_id = String::new();
    assert_eq!(n.node_stage_volume(&req, &DeviceLookup::Missing, &vec![]).unwrap_err().code, Code::InvalidArgument);
    let mut req = stage_request("");
    assert_eq!(n.node_stage_volume(&req, &DeviceLookup::Missing, &vec![]).unwrap_err().code, Code::InvalidArgument);
    req = stage_request("/s");
    req.publish_context.clear();
    assert_eq!(n.node_stage_volume(&req, &DeviceLookup::Missing, &vec![]).unwrap_err().code, Code::InvalidArgument);
    req = stage_request("/s");
    req.volume_capability = mount_cap("btrfs", 1);
    assert_eq!(n.node_stage_volume(&req, &DeviceLookup::Missing, &vec![]).unwrap_err().code, Code::InvalidArgument);
    req = stage_request("/s");
    req.volume_capability = mount_cap("xfs", 0);
    assert_eq!(n.node_stage_volume(&req, &DeviceLookup::Missing, &vec![]).unwrap_err().code, Code::InvalidArgument);
    req = stage_request("/s");
    let failed = DeviceLookup::Failed("bad uri".to_string());
    assert_eq!(n.node_stage_volume(&req, &failed, &vec![]).unwrap_err().code, Code::Internal);
}

#[test]
fn stage_block_volume() {
    let mut req = stage_request("/s");
    req.volume_capability = block_cap();
    let plan = node().node_stage_volume(&req, &DeviceLookup::Missing, &vec![]).unwrap();
    assert_eq!(plan.actions.len(), 2);
    assert!(matches!(&plan.actions[0], NodeAction::Attach));
    assert!(matches!(&plan.actions[1], NodeAction::WaitForDevice));
    let plan = node().node_stage_volume(&req, &DeviceLookup::Found("/dev/nbd1".to_string()), &vec![]).unwrap();
    assert!(is_empty(&plan));
}

fn unstage_request() -> NodeUnstageVolumeRequest {
    NodeUnstageVolumeRequest { volume_id: VOLUME.to_string(), staging_target_path: "/s".to_string() }
}

#[test]
fn unstage_twice() {
    let n = node();
    let mounts = vec![record("/dev/sdx", "/s/fs_mnt", "xfs", &["rw"])];
    let plan = n.node_unstage_volume(&unstage_request(), &DeviceLookup::Found("/dev/sdx".to_string()), true, &mounts).unwrap();
    assert_eq!(plan.actions.len(), 2);
    assert!(matches!(&plan.actions[0], NodeAction::Unmount { target } if target == "/s/fs_mnt"));
    assert!(matches!(&plan.actions[1], NodeAction::Detach));
    // unmounted and detached; the directory is still there
    let plan = n.node_unstage_volume(&unstage_request(), &DeviceLookup::Missing, true, &vec![]).unwrap();
    assert_eq!(plan.actions.len(), 1);
    assert!(matches!(&plan.actions[0], NodeAction::RemoveDir { path } if path == "/s/fs_mnt"));
    let plan = n.node_unstage_volume(&unstage_request(), &DeviceLookup::Missing, false, &vec![]).unwrap();
    assert!(is_empty(&plan));
}

#[test]
fn unstage_rejects_invalid_uuid() {
    let mut req = unstage_request();
    req.volume_id = "not-a-uuid".to_string();
    let err = node().node_unstage_volume(&req, &DeviceLookup::Missing, false, &vec![]).unwrap_err();
    assert_eq!(err.code, Code::Internal);
}

#[test]
fn unstage_block_volume_detaches() {
    let plan = node().node_unstage_volume(&unstage_request(), &DeviceLookup::Found("/dev/nbd0".to_string()), false, &vec![]).unwrap();
    assert_eq!(plan.actions.len(), 2);
    assert!(matches!(&plan.actions[0], NodeAction::Detach));
}

#[test]
fn unstage_device_mounted_elsewhere() {
    let mounts = vec![record("/dev/sdx", "/elsewhere", "xfs", &["rw"])];
    let err = node().node_unstage_volume(&unstage_request(), &DeviceLookup::Found("/dev/sdx".to_string()), true, &mounts).unwrap_err();
    assert_eq!(err.code, Code::AlreadyExists);
}

fn publish_request(cap: Option<VolumeCapability>, target: &str, readonly: bool) -> NodePublishVolumeRequest {
    NodePublishVolumeRequest {
        volume_id: VOLUME.to_string(),
        staging_target_path: "/s".to_string(),
        target_path: target.to_string(),
        volume_capability: cap,
        readonly,
        publish_context: vec![("uri".to_string(), URI.to_string())],
    }
}

#[test]
fn block_mode_publish() {
    let req = publish_request(block_cap(), "/t", false);
    let plan = node().node_publish_volume(&req, &DeviceLookup::Found("/dev/nbd0".to_string()), &vec![]).unwrap();
    assert_eq!(plan.device.as_deref(), Some("/dev/nbd0"));
    assert_eq!(plan.actions.len(), 3);
    assert!(matches!(&plan.actions[0], NodeAction::CreateParentDir { path } if path == "/t"));
    assert!(matches!(&plan.actions[1], NodeAction::Mknod { path } if path == "/t"));
    assert!(matches!(&plan.actions[2], NodeAction::MountBlockDevice { target, readonly } if target == "/t" && !*readonly));
    let err = node().node_publish_volume(&req, &DeviceLookup::Missing, &vec![]).unwrap_err();
    assert_eq!(err.code, Code::Internal);
}

#[test]
fn publish_filesystem_volume() {
    let n = node();
    let staged = vec![record("/dev/sdx", "/s/fs_mnt", "xfs", &["rw"])];
    let req = publish_request(mount_cap("xfs", 1), "/t", false);
    let plan = n.node_publish_volume(&req, &DeviceLookup::Missing, &staged).unwrap();
    assert_eq!(plan.actions.len(), 2);
    assert!(matches!(&plan.actions[0], NodeAction::CreateDir { path } if path == "/t"));
    assert!(matches!(&plan.actions[1], NodeAction::BindMount { source, target } if source == "/s/fs_mnt" && target == "/t"));

    let ro = publish_request(mount_cap("", 1), "/t", true);
    let plan = n.node_publish_volume(&ro, &DeviceLookup::Missing, &staged).unwrap();
    assert_eq!(plan.actions.len(), 3);
    assert!(matches!(&plan.actions[2], NodeAction::BindRemount { target, options } if target == "/t" && options == &vec!["ro".to_string()]));
    assert!(matches!(cleanup_after_failure(&plan.actions[2]), Some(NodeAction::Unmount { target }) if target == "/t"));

    // published already, from the same source, with compatible flags
    let mut published = staged.clone_records();
    published.push(record("/dev/sdx", "/t", "xfs", &["rw"]));
    assert!(is_empty(&n.node_publish_volume(&req, &DeviceLookup::Missing, &published).unwrap()));

    // in use by another source
    let mut taken = staged.clone_records();
    taken.push(record("/dev/other", "/t", "xfs", &["rw"]));
    assert_eq!(n.node_publish_volume(&req, &DeviceLookup::Missing, &taken).unwrap_err().code, Code::AlreadyExists);

    // mounted with other flags
    let mut ro_target = staged.clone_records();
    ro_target.push(record("/dev/sdx", "/t", "xfs", &["ro"]));
    assert_eq!(n.node_publish_volume(&req, &DeviceLookup::Missing, &ro_target).unwrap_err().code, Code::AlreadyExists);
}

trait CloneRecords {
    fn clone_records(&self) -> Vec<MountRecord>;
}

impl CloneRecords for Vec<MountRecord> {
    fn clone_records(&self) -> Vec<MountRecord> {
        self.iter().map(|m| record(&m.source, &m.dest, &m.fstype, &m.options.iter().map(|s| s.as_str()).collect::<Vec<_>>())).collect()
    }
}

#[test]
fn publish_rejects_inconsistent_requests() {
    let n = node();
    let staged = vec![record("/dev/sdx", "/s/fs_mnt", "xfs", &["ro"])];
    // nothing staged
    let req = publish_request(mount_cap("xfs", 1), "/t", false);
    assert_eq!(n.node_publish_volume(&req, &DeviceLookup::Missing, &vec![]).unwrap_err().code, Code::InvalidArgument);
    // staged read-only, published read-write
    assert_eq!(n.node_publish_volume(&req, &DeviceLookup::Missing, &staged).unwrap_err().code, Code::InvalidArgument);
    // filesystem differs from the staged one
    let req = publish_request(mount_cap("ext4", 1), "/t", true);
    assert_eq!(n.node_publish_volume(&req, &DeviceLookup::Missing, &staged).unwrap_err().code, Code::InvalidArgument);
    // reader-only mode asks for read-only
    let req = publish_request(mount_cap("xfs", 2), "/t", false);
    assert_eq!(n.node_publish_volume(&req, &DeviceLookup::Missing, &staged).unwrap_err().code, Code::InvalidArgument);
    // empty target
    let req = publish_request(mount_cap("xfs", 1), "", false);
    assert_eq!(n.node_publish_volume(&req, &DeviceLookup::Missing, &staged).unwrap_err().code, Code::InvalidArgument);
}

fn unpublish_request(target: &str) -> NodeUnpublishVolumeRequest {
    NodeUnpublishVolumeRequest { volume_id: VOLUME.to_string(), target_path: target.to_string() }
}

#[test]
fn unpublish_on_missing_target() {
    let plan = node().node_unpublish_volume(&unpublish_request("/t"), TargetKind::Missing, &vec![]).unwrap();
    assert!(is_empty(&plan));
}

#[test]
fn unpublish_target_kinds() {
    let n = node();
    let mounts = vec![record("/dev/sdx", "/t", "xfs", &["rw"])];
    let plan = n.node_unpublish_volume(&unpublish_request("/t"), TargetKind::Directory, &mounts).unwrap();
    assert_eq!(plan.actions.len(), 2);
    assert!(matches!(&plan.actions[0], NodeAction::Unmount { target } if target == "/t"));
    assert!(matches!(&plan.actions[1], NodeAction::RemoveDir { path } if path == "/t"));
    let plan = n.node_unpublish_volume(&unpublish_request("/t"), TargetKind::Directory, &vec![]).unwrap();
    assert_eq!(plan.actions.len(), 1);
    let plan = n.node_unpublish_volume(&unpublish_request("/t"), TargetKind::Other, &mounts).unwrap();
    assert!(matches!(&plan.actions[1], NodeAction::RemoveFile { path } if path == "/t"));
    let err = n.node_unpublish_volume(&unpublish_request("/t"), TargetKind::RegularFile, &vec![]).unwrap_err();
    assert_eq!(err.code, Code::Unknown);
    let err = n.node_unpublish_volume(&unpublish_request(""), TargetKind::Missing, &vec![]).unwrap_err();
    assert_eq!(err.code, Code::InvalidArgument);
}

#[test]
fn mount_unmount_mount_gives_same_mount() {
    let flags = vec!["noatime".to_string()];
    let mnt = MountVolume { fs_type: "ext4".to_string(), mount_flags: flags };
    let fs = vec!["xfs".to_string(), "ext4".to_string()];
    let first = publish_fs_volume(VOLUME, "/m", "/dev/sdx".to_string(), &mnt, &fs, &vec![]).unwrap();
    let mounted = vec![record("/dev/sdx", "/m", "ext4", &["noatime"])];
    let undo = unpublish_fs_volume(VOLUME, "/m", &mounted).unwrap();
    assert!(matches!(&undo.actions[0], NodeAction::Unmount { target } if target == "/m"));
    let second = publish_fs_volume(VOLUME, "/m", "/dev/sdx".to_string(), &mnt, &fs, &vec![]).unwrap();
    assert_eq!(first.actions.len(), 3);
    assert_eq!(second.actions.len(), 3);
    match (&first.actions[2], &second.actions[2]) {
        (NodeAction::MountFs { target: a, fstype: b, options: c }, NodeAction::MountFs { target: x, fstype: y, options: z }) => {
            assert_eq!((a, b, c), (x, y, z));
            assert_eq!(a, "/m");
            assert_eq!(b, "ext4");
        }
        _ => panic!("expected mounts"),
    }
    // mounted already: nothing but the directory
    let again = publish_fs_volume(VOLUME, "/m", "/dev/sdx".to_string(), &mnt, &fs, &mounted).unwrap();
    assert_eq!(again.actions.len(), 1);
    let err = publish_fs_volume(VOLUME, "/other", "/dev/sdx".to_string(), &mnt, &fs, &mounted).unwrap_err();
    assert_eq!(err.code, Code::AlreadyExists);
}

#[test]
fn access_modes() {
    assert!(check_access_mode(&mount_cap("xfs", 1), false).is_ok());
    assert!(check_access_mode(&mount_cap("xfs", 4), false).is_ok());
    assert!(check_access_mode(&mount_cap("xfs", 2), false).is_err());
    assert!(check_access_mode(&mount_cap("xfs", 2), true).is_ok());
    assert!(check_access_mode(&mount_cap("xfs", 3), true).is_ok());
    assert!(check_access_mode(&mount_cap("xfs", 0), true).is_err());
    assert!(check_access_mode(&mount_cap("xfs", 5), true).is_err());
    assert!(check_access_mode(&mount_cap("xfs", 42), true).is_err());
    assert!(check_access_mode(&None, true).is_err());
    let no_mode = Some(VolumeCapability { access_type: Some(AccessType::Block), access_mode: None });
    assert!(check_access_mode(&no_mode, true).is_err());
    assert!(matches!(get_access_type(&block_cap()), Ok(AccessType::Block)));
    let no_type = Some(VolumeCapability { access_type: None, access_mode: Some(AccessMode { mode: 1 }) });
    assert!(get_access_type(&no_type).is_err());
}

#[test]
fn staging_paths() {
    assert_eq!(make_fs_staging_path("/s").unwrap(), "/s/fs_mnt");
    assert_eq!(make_fs_staging_path("/s/").unwrap(), "/s/fs_mnt");
    assert_eq!(make_fs_staging_path("").unwrap(), "fs_mnt");
}

#[test]
fn node_info_and_capabilities() {
    let n = node();
    let info = n.node_get_info(16);
    assert_eq!(info.node_id, "mayastor://node1");
    assert_eq!(info.max_volumes_per_node, 16);
    assert_eq!(n.node_get_capabilities(), vec![NodeCapability::StageUnstageVolume]);
    assert_eq!(n.node_get_volume_stats().code, Code::Unimplemented);
    assert_eq!(n.node_expand_volume().code, Code::Unimplemented);
}

#[test]
fn failure_codes() {
    assert_eq!(failure_code(&NodeAction::WaitForDevice), Some(Code::Unavailable));
    assert_eq!(failure_code(&NodeAction::Attach), Some(Code::Internal));
    assert_eq!(failure_code(&NodeAction::RemoveDir { path: "/x".to_string() }), None);
    assert_eq!(failure_code(&NodeAction::RemoveFile { path: "/x".to_string() }), None);
}

#[test]
fn mount_table_lookup() {
    let mounts = vec![
        record("/dev/a", "/x", "xfs", &["rw"]),
        record("/dev/b", "/x", "xfs", &["ro"]),
        record("/dev/a", "/y", "ext4", &["rw", "noatime"]),
    ];
    assert_eq!(find_mount(&mounts, None, Some("/x")), Some(1));
    assert_eq!(find_mount(&mounts, Some("/dev/a"), None), Some(2));
    assert_eq!(find_mount(&mounts, Some("/dev/a"), Some("/x")), Some(0));
    assert_eq!(find_mount(&mounts, Some("/dev/c"), None), None);
    assert!(subset(&vec!["noatime".to_string()], &mounts[2].options));
    assert!(!subset(&vec!["sync".to_string()], &mounts[2].options));
}

#[test]
fn device_error_message() {
    let e = DeviceError::new("attach failed");
    assert_eq!(e.message(), "attach failed");
    let f = DeviceError::from("detach failed".to_string());
    assert_eq!(f.message(), "detach failed");
}

#[test]
fn kernel_mount_table() {
    let text = "proc /proc proc rw,nosuid 0 0\n/dev/sdx /s/fs_mnt xfs rw,relatime 0 0\nbroken line\n";
    let mounts = mayastor::csi::mount::parse_mounts(text);
    assert_eq!(mounts.len(), 2);
    assert_eq!(mounts[1].source, "/dev/sdx");
    assert_eq!(mounts[1].dest, "/s/fs_mnt");
    assert_eq!(mounts[1].fstype, "xfs");
    assert_eq!(mounts[1].options, vec!["rw".to_string(), "relatime".to_string()]);
    assert_eq!(find_mount(&mounts, Some("/dev/sdx"), Some("/s/fs_mnt")), Some(1));
}

#[test]
fn unstage_unmounts_stacked_mounts() {
    let n = node();
    let mounts = vec![
        record("/dev/sdx", "/s/fs_mnt", "xfs", &["rw"]),
        record("/dev/sdx", "/s/fs_mnt", "xfs", &["rw"]),
    ];
    let plan = n.node_unstage_volume(&unstage_request(), &DeviceLookup::Found("/dev/sdx".to_string()), true, &mounts).unwrap();
    assert_eq!(plan.actions.len(), 3);
    assert!(matches!(&plan.actions[0], NodeAction::Unmount { target } if target == "/s/fs_mnt"));
    assert!(matches!(&plan.actions[1], NodeAction::Unmount { target } if target == "/s/fs_mnt"));
    assert!(matches!(&plan.actions[2], NodeAction::Detach));
    let plan = n.node_unstage_volume(&unstage_request(), &DeviceLookup::Missing, true, &mounts).unwrap();
    assert_eq!(plan.actions.len(), 3);
    assert!(matches!(&plan.actions[2], NodeAction::RemoveDir { path } if path == "/s/fs_mnt"));
}
