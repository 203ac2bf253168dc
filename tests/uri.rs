use mayastor::bdev::dev::{wait_for_device_step, WaitStep, WAIT_RETRIES};
use mayastor::bdev::uri::{segments, BdevErrorKind, Uri};
use mayastor::event::Error;
use mayastor::pool::{create_replica, share_replica, status_code, CreateReplica, LvsError, Protocol, ShareReplica};
use mayastor::csi::types::Code;
use mayastor::rebuild::{handler, RebuildCommand};

fn kind(uri: &str) -> BdevErrorKind {
    Uri::parse(uri).err().unwrap().kind()
}

#[test]
fn aio_uri() {
    match Uri::parse("aio:///tmp/disk1.img?blk_size=512").unwrap() {
        Uri::Aio(a) => {
            assert_eq!(a.name, "/tmp/disk1.img");
            assert_eq!(a.alias, "aio:///tmp/disk1.img?blk_size=512");
            assert_eq!(a.blk_size, 512);
            assert_eq!(a.uuid, None);
        }
        other => panic!("unexpected {:?}", other),
    }
    match Uri::parse("uring:///tmp/disk2.img?blk_size=4096&uuid=11111111-76b6-4fcf-864d-1027d4038756&foo=bar").unwrap() {
        Uri::Aio(a) => {
            assert_eq!(a.blk_size, 4096);
            assert_eq!(a.uuid, Some(0x11111111_76b6_4fcf_864d_1027d4038756));
        }
        other => panic!("unexpected {:?}", other),
    }
    match Uri::parse("aio:///tmp/d.img").unwrap() {
        Uri::Aio(a) => assert_eq!(a.blk_size, 512),
        other => panic!("unexpected {:?}", other),
    }
}

#[test]
fn loopback_uri() {
    for uri in ["bdev:///EE_error_device", "loopback:///EE_error_device"] {
        match Uri::parse(uri).unwrap() {
            Uri::Loopback(l) => {
                assert_eq!(l.name, "EE_error_device");
                assert_eq!(l.alias, uri);
            }
            other => panic!("unexpected {:?}", other),
        }
    }
    assert_eq!(kind("loopback:///"), BdevErrorKind::UriInvalid);
    assert_eq!(kind("loopback:///a/b"), BdevErrorKind::UriInvalid);
}

#[test]
fn nvmf_and_iscsi_uris() {
    match Uri::parse("nvmf://127.0.0.1:8420/nqn.2019-05.io.openebs:disk0").unwrap() {
        Uri::Nvmf(n) => {
            assert_eq!(n.host, "127.0.0.1");
            assert_eq!(n.port, 8420);
            assert_eq!(n.subnqn, "nqn.2019-05.io.openebs:disk0");
            assert_eq!(n.name, "127.0.0.1:8420/nqn.2019-05.io.openebs:disk0");
        }
        other => panic!("unexpected {:?}", other),
    }
    match Uri::parse("nvmf://10.0.0.1/nqn.x").unwrap() {
        Uri::Nvmf(n) => assert_eq!(n.port, 4420),
        other => panic!("unexpected {:?}", other),
    }
    match Uri::parse("iscsi://192.168.0.1:3261/iqn.2019-05.io.openebs:disk0/1").unwrap() {
        Uri::Iscsi(i) => {
            assert_eq!(i.host, "192.168.0.1");
            assert_eq!(i.port, 3261);
            assert_eq!(i.iqn, "iqn.2019-05.io.openebs:disk0");
            assert_eq!(i.lun, 1);
        }
        other => panic!("unexpected {:?}", other),
    }
    assert_eq!(kind("nvmf://127.0.0.1/a/b"), BdevErrorKind::UriInvalid);
    assert_eq!(kind("iscsi://127.0.0.1/iqn/x"), BdevErrorKind::IntParam);
}

#[test]
fn uri_errors() {
    assert_eq!(kind("not a uri"), BdevErrorKind::UrlParse);
    assert_eq!(kind("foo:///x"), BdevErrorKind::SchemeUnsupported);
    assert_eq!(kind("aio:///tmp/d.img?blk_size=abc"), BdevErrorKind::IntParam);
    assert_eq!(kind("aio:///tmp/d.img?blk_size=4294967296"), BdevErrorKind::IntParam);
    assert_eq!(kind("aio:///tmp/d.img?uuid=zzz"), BdevErrorKind::UuidParam);
    assert_eq!(kind("aio:///"), BdevErrorKind::UriInvalid);
}

#[test]
fn path_segments() {
    assert_eq!(segments("/a/b"), vec!["a".to_string(), "b".to_string()]);
    assert!(segments("/").is_empty());
    assert!(segments("a").is_empty());
    assert_eq!(segments("/a//"), vec!["a".to_string(), String::new(), String::new()]);
}

#[test]
fn device_lifecycle() {
    let u = Uri::parse("aio:///tmp/d.img").unwrap();
    assert_eq!(u.create(true, None).unwrap(), "/tmp/d.img");
    assert_eq!(u.create(false, Some("made".to_string())).unwrap(), "made");
    assert_eq!(u.create(false, None).err().unwrap().kind(), BdevErrorKind::NotFound);
    assert_eq!(u.destroy(false, Some(0)).err().unwrap().kind(), BdevErrorKind::NotFound);
    assert!(u.destroy(true, Some(0)).is_ok());
    assert_eq!(u.destroy(true, None).err().unwrap().kind(), BdevErrorKind::Cancel);
    assert_eq!(u.destroy(true, Some(-16)).err().unwrap().kind(), BdevErrorKind::Destroy);
}

#[test]
fn waiting_for_a_device() {
    assert!(matches!(wait_for_device_step(Some("/dev/sdb".to_string()), 3), WaitStep::Found(p) if p == "/dev/sdb"));
    assert!(matches!(wait_for_device_step(None, WAIT_RETRIES), WaitStep::Retry(99)));
    assert!(matches!(wait_for_device_step(None, 1), WaitStep::GiveUp));
}

#[test]
fn replica_decisions() {
    assert_eq!(create_replica(false, false, 0), Err(Code::NotFound));
    assert_eq!(create_replica(true, true, 2), Ok(CreateReplica::Existing));
    assert_eq!(create_replica(true, false, 1), Ok(CreateReplica::Create { share_nvmf: true }));
    assert_eq!(create_replica(true, false, 0), Ok(CreateReplica::Create { share_nvmf: false }));
    assert_eq!(create_replica(true, false, 2), Err(Code::InvalidArgument));
    assert_eq!(share_replica(false, None, 1), Err(LvsError::InvalidBdev));
    assert_eq!(share_replica(true, Some(Protocol::Nvmf), 1), Ok(ShareReplica::AlreadyShared));
    assert_eq!(share_replica(true, Some(Protocol::Nvmf), 0), Ok(ShareReplica::Unshare));
    assert_eq!(share_replica(true, Some(Protocol::Off), 1), Ok(ShareReplica::ShareNvmf));
    assert_eq!(share_replica(true, None, 2), Err(LvsError::LvolShare));
    assert_eq!(status_code(LvsError::Import), Code::InvalidArgument);
    assert_eq!(status_code(LvsError::RepCreate), Code::Internal);
    assert_eq!(Protocol::from_i32(7), Protocol::Invalid);
    assert_eq!(Protocol::Iscsi.to_i32(), 2);
    assert_eq!(Protocol::Invalid.to_i32(), i32::MAX);
}

#[test]
fn rebuild_commands() {
    assert_eq!(handler("start").unwrap(), RebuildCommand::Start);
    assert_eq!(handler("progress").unwrap(), RebuildCommand::Progress);
    assert_eq!(handler("explode").unwrap_err(), "command explode does not exist");
    assert_eq!(Error::InvalidThread, Error::InvalidThread);
}
