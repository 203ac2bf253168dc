use mayastor::nexus::child::{
    Bdev, ChildError, ChildIoError, ChildState, Descriptor, HeaderStep, LabelProbe, NexusChild, OpenFailure,
};
use mayastor::nexus::error_store::{ActionType, ErrorStore, IoType};
use mayastor::nexus::label::{parse_table, GptHeader, TableError};
use mayastor::nexus::nexus_bdev::{ErrStoreOpts, Nexus, NexusStatus};
use mayastor::nexus::nexus_rpc::{
    child_op_reply, create_nexus_args, create_nexus_reply, list_nexus, name_to_uuid, nexus_lookup, uuid_to_name,
    JsonRpcCode, NexusError,
};

const MIB: u64 = 1024 * 1024;

fn bdev(name: &str, blocks: u64) -> Option<Bdev> {
    Some(Bdev { name: name.to_string(), block_len: 512, num_blocks: blocks })
}

fn open_child(uri: &str, parent: &str, handle: u64) -> NexusChild {
    let mut c = NexusChild::new(uri.to_string(), parent.to_string(), bdev(uri, 64 * MIB / 512));
    c.open(48 * MIB, Ok(Descriptor { handle })).unwrap();
    c
}

#[test]
fn child_open_and_close() {
    let mut c = NexusChild::new("aio:///tmp/d1.img".to_string(), "nexus0".to_string(), bdev("d1", 131072));
    assert_eq!(c.state, ChildState::Init);
    assert!(!c.can_rw());
    let name = c.open(64 * MIB, Ok(Descriptor { handle: 3 })).unwrap();
    assert_eq!(name, "aio:///tmp/d1.img");
    assert_eq!(c.state, ChildState::Open);
    assert_eq!(c.descriptor, Some(Descriptor { handle: 3 }));
    assert!(c.can_rw());
    assert!(c.claimed);
    assert_eq!(c.open(MIB, Ok(Descriptor { handle: 4 })), Err(ChildError::ChildNotClosed));
    assert_eq!(c.claim_to_release(), Some("d1".to_string()));
    assert_eq!(c.close(), ChildState::Closed);
    assert!(!c.claimed);
    assert_eq!(c.claim_to_release(), None);
    assert_eq!(c.descriptor, None);
    assert!(!c.can_rw());
    assert_eq!(c.destroy(), Some("d1".to_string()));
    // a closed child opens again
    assert!(c.open(MIB, Ok(Descriptor { handle: 5 })).is_ok());
    assert_eq!(c.state, ChildState::Open);
}

#[test]
fn child_too_small() {
    let mut c = NexusChild::new("aio:///tmp/d1.img".to_string(), "nexus0".to_string(), bdev("d1", 2048));
    let err = c.open(2 * MIB, Ok(Descriptor { handle: 3 })).unwrap_err();
    assert_eq!(err, ChildError::ChildTooSmall { child_size: MIB as u128, parent_size: 2 * MIB });
    assert_eq!(c.state, ChildState::ConfigInvalid);
    assert_eq!(c.descriptor, None);
}

#[test]
fn child_open_failures() {
    let mut c = NexusChild::new("x".to_string(), "n".to_string(), None);
    assert_eq!(c.open(0, Ok(Descriptor { handle: 1 })), Err(ChildError::OpenWithoutBdev));
    let mut c = NexusChild::new("x".to_string(), "n".to_string(), bdev("x", 8));
    assert_eq!(c.open(512, Err(OpenFailure::Open { errno: -16 })), Err(ChildError::OpenChild { errno: -16 }));
    assert_eq!(c.state, ChildState::Init);
    let d = Descriptor { handle: 9 };
    assert_eq!(c.open(512, Err(OpenFailure::Claim { descriptor: d, errno: -1 })), Err(ChildError::ClaimChild { errno: -1 }));
    assert_eq!(c.state, ChildState::Faulted);
    assert_eq!(c.descriptor, Some(d));
    assert_eq!(c.claim_to_release(), None);
}

#[test]
fn child_io_requests() {
    let mut c = open_child("aio:///d", "n", 8);
    let w = c.write_at(4096, 512).unwrap();
    assert_eq!((w.descriptor.handle, w.offset, w.len), (8, 4096, 512));
    assert_eq!(c.write_done(Ok(512)).unwrap(), 512);
    match c.read_done(Err(-5)) {
        Err(ChildIoError::ReadError { name, errno }) => {
            assert_eq!(name, "aio:///d");
            assert_eq!(errno, -5);
        }
        other => panic!("unexpected {:?}", other),
    }
    assert!(matches!(c.write_done(Err(-5)), Err(ChildIoError::WriteError { .. })));
    c.close();
    match c.read_at(0, 512) {
        Err(ChildIoError::InvalidDescriptor { name }) => assert_eq!(name, "aio:///d"),
        other => panic!("unexpected {:?}", other),
    }
}

fn put_u32(b: &mut [u8], o: usize, v: u32) {
    b[o..o + 4].copy_from_slice(&v.to_le_bytes());
}

fn put_u64(b: &mut [u8], o: usize, v: u64) {
    b[o..o + 8].copy_from_slice(&v.to_le_bytes());
}

/// A partition table of `n` entries of 128 bytes; entry `i` starts at LBA
/// 2048 * (i + 1).
fn table(n: usize) -> Vec<u8> {
    let mut t = vec![0u8; 128 * n];
    for i in 0..n {
        t[128 * i] = 0xaf;
        put_u64(&mut t, 128 * i + 32, 2048 * (i as u64 + 1));
        put_u64(&mut t, 128 * i + 40, 2048 * (i as u64 + 2) - 1);
        t[128 * i + 56] = b'p';
        t[128 * i + 58] = b'0' + i as u8;
    }
    t
}

/// A valid GPT header block of 512 bytes for `table`.
fn header(table: &[u8], n: u32) -> Vec<u8> {
    let mut b = vec![0u8; 512];
    b[0..8].copy_from_slice(b"EFI PART");
    put_u32(&mut b, 8, 0x0001_0000);
    put_u32(&mut b, 12, 92);
    put_u64(&mut b, 24, 1);
    put_u64(&mut b, 32, 131071);
    put_u64(&mut b, 72, 2);
    put_u32(&mut b, 80, n);
    put_u32(&mut b, 84, 128);
    put_u32(&mut b, 88, crc::crc32::checksum_ieee(&table[..128 * n as usize]));
    let crc = crc::crc32::checksum_ieee(&b[..92]);
    put_u32(&mut b, 16, crc);
    b
}

#[test]
fn gpt_header_checks() {
    let t = table(4);
    let h = header(&t, 4);
    let parsed = GptHeader::from_slice(&h).unwrap();
    assert_eq!(parsed.lba_table, 2);
    assert_eq!(parsed.num_entries, 4);
    assert_eq!(parsed.entry_size, 128);
    assert_eq!(parsed.header_size, 92);
    let mut bad = h.clone();
    bad[40] ^= 1;
    assert!(GptHeader::from_slice(&bad).is_err());
    assert!(GptHeader::from_slice(&h[..60]).is_err());
    let mut sig = h.clone();
    sig[0] = b'X';
    assert!(GptHeader::from_slice(&sig).is_err());
}

#[test]
fn partition_table_keeps_two_entries() {
    let t = table(4);
    let h = GptHeader::from_slice(&header(&t, 4)).unwrap();
    let parts = parse_table(&h, &t).unwrap();
    assert_eq!(parts.len(), 2);
    assert_eq!(parts[0].ent_start, 2048);
    assert_eq!(parts[1].ent_start, 4096);
    assert_eq!(parts[1].ent_end, 6143);
    assert_eq!(parts[0].ent_type, 0xaf);
    assert_eq!(parts[1].ent_name[0], 'p' as u16);
    assert_eq!(parts[1].ent_name[1], '1' as u16);
    let mut corrupt = t.clone();
    corrupt[200] ^= 0xff;
    assert_eq!(parse_table(&h, &corrupt).err(), Some(TableError::Checksum));
    assert_eq!(parse_table(&h, &t[..256]).err(), Some(TableError::Invalid));
    let one = table(1);
    let h1 = GptHeader::from_slice(&header(&one, 1)).unwrap();
    assert_eq!(parse_table(&h1, &one).unwrap().len(), 1);
}

fn probe(primary: Vec<u8>, backup: Vec<u8>, t: &[u8]) -> (GptHeader, Vec<u64>) {
    let c = open_child("aio:///d", "n", 1);
    let g = c.probe_label().unwrap();
    assert_eq!(g.primary().offset, 512);
    let h = match g.on_primary(Ok(primary)).unwrap() {
        HeaderStep::Found(h) => h,
        HeaderStep::ReadBackup(span) => {
            assert_eq!(span.offset, (g.num_blocks - 1) * 512);
            g.on_backup(Ok(backup)).unwrap()
        }
    };
    let span = g.table_read(&h).unwrap();
    assert_eq!(span.offset, 2 * 512);
    assert_eq!(span.len, 512 * (128 * h.num_entries as u64 / 512 + 1));
    let label = g.on_table(h, Ok(t[..span.len.min(t.len() as u64) as usize].to_vec())).unwrap();
    (label.primary, label.partitions.iter().map(|p| p.ent_start).collect())
}

#[test]
fn gpt_probe_falls_back_to_backup() {
    let t = table(4);
    let good = header(&t, 4);
    let mut invalid = good.clone();
    invalid[17] ^= 0x55;
    let both_valid = probe(good.clone(), good.clone(), &t);
    let from_backup = probe(invalid, good, &t);
    assert_eq!(both_valid, from_backup);
    assert_eq!(both_valid.1, vec![2048, 4096]);
}

#[test]
fn gpt_probe_failures() {
    let c = open_child("aio:///d", "n", 1);
    let g = c.probe_label().unwrap();
    let junk = vec![0u8; 512];
    assert!(matches!(g.on_primary(Ok(junk.clone())), Ok(HeaderStep::ReadBackup(_))));
    assert!(matches!(g.on_backup(Ok(junk)), Err(ChildError::LabelInvalid)));
    assert!(matches!(g.on_primary(Err(ChildIoError::ReadError { name: "d".to_string(), errno: -5 })), Err(ChildError::LabelRead)));
    let t = table(4);
    let h = GptHeader::from_slice(&header(&t, 4)).unwrap();
    assert!(matches!(g.on_table(h, Err(ChildIoError::ReadError { name: "d".to_string(), errno: -5 })), Err(ChildError::PartitionTableRead)));
    let mut closed = open_child("aio:///d", "n", 1);
    closed.close();
    assert_eq!(closed.probe_label().err(), Some(ChildError::ChildReadOnly));
    let tiny = LabelProbe { block_size: 512, num_blocks: 2 };
    assert_eq!(tiny.backup().offset, 512);
}

#[test]
fn error_store_window_and_capacity() {
    let mut s = ErrorStore::new(3, ActionType::Fault, 1000, 1);
    s.record(IoType::Read, -5, 100);
    s.record(IoType::Write, -5, 200);
    assert_eq!(s.count_since(200, 1000), 2);
    assert_eq!(s.count_since(200, 50), 1);
    assert!(s.should_fault(200));
    // records older than the retention window go on the next insert
    s.record(IoType::Read, -5, 1250);
    assert_eq!(s.entries.len(), 1);
    s.record(IoType::Read, -5, 1251);
    s.record(IoType::Read, -5, 1252);
    s.record(IoType::Read, -5, 1253);
    assert_eq!(s.entries.len(), 3);
    assert_eq!(s.entries[0].timestamp, 1251);
    s.clear();
    assert_eq!(s.count_since(1253, 1000), 0);
    let ignore = ErrorStore::new(8, ActionType::Ignore, 1000, 0);
    assert!(!ignore.should_fault(0));
}

fn fault_opts() -> ErrStoreOpts {
    ErrStoreOpts { enable_err_store: true, err_store_size: 256, action: ActionType::Fault, retention_ns: 1_000_000_000, max_errors: 4 }
}

/// Two reads of the nexus; the error device fails each read that reaches it.
fn err_read_nexus_both(n: &mut Nexus, now: &mut u64) -> (bool, bool) {
    let mut results = [false; 2];
    for r in results.iter_mut() {
        let (target, request) = n.read_at(0, 512).unwrap();
        assert_eq!((request.offset, request.len), (0, 512));
        let ok = target != 0;
        n.complete_read(target, if ok { Ok(()) } else { Err(-5) }, *now);
        *r = ok;
        *now += 1_000_000;
    }
    (results[0], results[1])
}

#[test]
fn nexus_fault_child_test() {
    let children = vec![open_child("bdev:///EE_error_device", "error_fault_child_test_nexus", 1), open_child("aio:///tmp/disk1.img?blk_size=512", "error_fault_child_test_nexus", 2)];
    let mut n = Nexus::new("error_fault_child_test_nexus".to_string(), 512, 64 * 1024 * 1024 / 512, children, fault_opts());
    assert_eq!(n.status(), NexusStatus::Online);
    let mut now = 10u64;
    for _ in 0..3 {
        let (a, b) = err_read_nexus_both(&mut n, &mut now);
        assert_ne!(a, b);
    }
    for _ in 0..2 {
        // the second round takes the error count past the maximum of 4
        let (a, b) = err_read_nexus_both(&mut n, &mut now);
        assert_ne!(a, b);
    }
    assert_eq!(n.status(), NexusStatus::Degraded);
    assert_eq!(n.children[0].state, ChildState::Faulted);
    assert_eq!(n.stores[0].count_since(now, 1_000_000_000), 5);
    // both reads go to the remaining child
    let (a, b) = err_read_nexus_both(&mut n, &mut now);
    assert!(a && b);
    let targets = n.write_targets();
    assert_eq!(targets, vec![1]);
    assert!(n.complete_write(&targets, &vec![Ok(())], now));
}

#[test]
fn nexus_write_fans_out() {
    let children = vec![open_child("a", "n", 1), open_child("b", "n", 2), open_child("c", "n", 3)];
    let mut n = Nexus::new("n".to_string(), 512, 1024, children, fault_opts());
    let targets = n.write_targets();
    assert_eq!(targets, vec![0, 1, 2]);
    assert!(n.complete_write(&targets, &vec![Ok(()), Ok(()), Ok(())], 1));
    assert!(!n.complete_write(&targets, &vec![Ok(()), Err(-5), Ok(())], 2));
    assert_eq!(n.status(), NexusStatus::Online);
    for t in 3..8 {
        n.complete_write(&vec![0, 1, 2], &vec![Ok(()), Err(-5), Ok(())], t);
    }
    assert_eq!(n.children[1].state, ChildState::Faulted);
    assert_eq!(n.write_targets(), vec![0, 2]);
    assert_eq!(n.status(), NexusStatus::Degraded);
}

#[test]
fn nexus_without_healthy_children() {
    let mut c = open_child("a", "n", 1);
    c.close();
    let mut n = Nexus::new("n".to_string(), 512, 1024, vec![c], fault_opts());
    assert_eq!(n.status(), NexusStatus::Faulted);
    assert_eq!(n.read_target(), None);
    assert!(n.write_targets().is_empty());
}

#[test]
fn nexus_rpc_names() {
    let name = uuid_to_name("11111111-76B6-4fcf-864d-1027d4038756").ok().unwrap();
    assert_eq!(name, "nexus-11111111-76b6-4fcf-864d-1027d4038756");
    assert_eq!(uuid_to_name("nope").err().unwrap().code, JsonRpcCode::InvalidParams);
    assert_eq!(name_to_uuid("nexus-11111111-76b6-4fcf-864d-1027d4038756"), "11111111-76b6-4fcf-864d-1027d4038756");
    assert_eq!(name_to_uuid("nexus0"), "nexus0");
    let (n, bs, blocks) = create_nexus_args("11111111-76b6-4fcf-864d-1027d4038756", 64 * MIB).ok().unwrap();
    assert_eq!(n, "nexus-11111111-76b6-4fcf-864d-1027d4038756");
    assert_eq!((bs, blocks), (4096, 16384));
}

#[test]
fn nexus_rpc_lookup_and_list() {
    let children = vec![open_child("aio:///a", "x", 1)];
    let mut n = Nexus::new("nexus-11111111-76b6-4fcf-864d-1027d4038756".to_string(), 4096, 16, children, fault_opts());
    n.share_path = Some("/dev/nbd0".to_string());
    let instances = vec![n];
    assert_eq!(nexus_lookup("11111111-76b6-4fcf-864d-1027d4038756", &instances).ok(), Some(0));
    assert_eq!(nexus_lookup("22222222-76b6-4fcf-864d-1027d4038756", &instances).err().unwrap().code, JsonRpcCode::NotFound);
    let listed = list_nexus(&instances);
    assert_eq!(listed[0].uuid, "11111111-76b6-4fcf-864d-1027d4038756");
    assert_eq!(listed[0].size, 65536);
    assert_eq!(listed[0].state, "online");
    assert_eq!(listed[0].children[0].uri, "aio:///a");
    assert_eq!(listed[0].children[0].state, "open");
    assert_eq!(listed[0].device_path, "/dev/nbd0");
}

#[test]
fn nexus_rpc_replies() {
    assert!(create_nexus_reply(Err(NexusError::Exists)).is_ok());
    assert_eq!(create_nexus_reply(Err(NexusError::ChildExists)).err().unwrap().message, "child bdev already exists");
    assert_eq!(create_nexus_reply(Err(NexusError::Failed)).err().unwrap().code, JsonRpcCode::InternalError);
    assert!(child_op_reply(Err(NexusError::NotFound)).is_ok());
    assert!(child_op_reply(Err(NexusError::Failed)).is_err());
}

#[test]
fn disabled_error_store_never_faults() {
    let mut opts = fault_opts();
    opts.enable_err_store = false;
    let mut n = Nexus::new("n".to_string(), 512, 1024, vec![open_child("a", "n", 1)], opts);
    for t in 0..10 {
        assert!(!n.complete_read(0, Err(-5), t));
    }
    assert_eq!(n.status(), NexusStatus::Online);
    assert_eq!(n.stores[0].entries.len(), 0);
}
