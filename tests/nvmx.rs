use mayastor::nvmx::channel::{create, create_check, nvme_poll, ChannelSetup, IoQpair, NvmeIoChannelInner, PollGroup, QpairSetup, ReleaseStep};
use mayastor::nvmx::controller::{
    nvme_poll_adminq, reset_create_channels, reset_destroy_channels, reset_destroy_channels_done, CoreError, ResetPhase, NvmeController, NvmeControllerState, NvmeNamespace, ResetCtxPool,
    ResetStep, EBUSY, ENODEV, ENOMEM, RESET_CTX_POOL_SIZE,
};
use mayastor::nvmx::registry::{NvmeControllerRegistry, RegistryError};
use mayastor::nvmx::{options, transport};

#[test]
fn nvme_default_controller_options() {
    let opts = options::Builder::new()
        .with_admin_timeout_ms(1)
        .with_fabrics_connect_timeout_us(1)
        .with_transport_retry_count(1)
        .build();

    assert_eq!(opts.admin_timeout_ms, 1);
    assert_eq!(opts.fabrics_connect_timeout_us, 1);
    assert_eq!(opts.transport_retry_count, 1);
}

#[test]
fn controller_options_keep_defaults() {
    let opts = options::Builder::new().with_keep_alive_timeout_ms(7).disable_error_logging(true).build();
    assert_eq!(opts.keep_alive_timeout_ms, 7);
    assert_eq!(opts.admin_timeout_ms, 30_000);
    assert_eq!(opts.transport_retry_count, 4);
}

#[test]
fn test_transport_id() {
    let transport = transport::Builder::new()
        .with_subnqn("nqn.2021-01-01:test.nqn")
        .with_svcid("4420")
        .with_traddr("127.0.0.1")
        .build();

    assert_eq!(transport.traddr(), "127.0.0.1");
    assert_eq!(transport.subnqn(), "nqn.2021-01-01:test.nqn");
    assert_eq!(transport.svcid(), "4420");
    assert_eq!(transport.trtype(), "tcp");
}

fn running_controller() -> NvmeController {
    let mut c = NvmeController::new("127.0.0.1:4420/nqn.test", 0).unwrap();
    assert_eq!(c.get_state(), NvmeControllerState::Initializing);
    c.attached(0xdead_0000, Some(NvmeNamespace { handle: 7 }));
    c
}

fn channel(c: &NvmeController, q: u64) -> NvmeIoChannelInner {
    let handle = create_check(Some(c)).unwrap();
    create(handle, ChannelSetup { qpair: Some(q), poll_group: Some(100 + q), add_rc: 0, connect_rc: 0 }).unwrap()
}

#[test]
fn controller_attach() {
    let c = running_controller();
    assert_eq!(c.get_state(), NvmeControllerState::Running);
    assert_eq!(c.id(), 0xdead_0000);
    assert_eq!(c.get_name(), "127.0.0.1:4420/nqn.test");
    assert_eq!(c.flags(), 0);
    assert_eq!(c.namespace(), Some(NvmeNamespace { handle: 7 }));
    assert_eq!(c.ctrlr_as_ptr(), 0xdead_0000);
    assert_eq!(NvmeControllerState::Resetting.name(), "Resetting");
}

#[test]
fn reset_under_in_flight_io() {
    let mut c = running_controller();
    let mut pool = ResetCtxPool::new();
    let mut channels: Vec<NvmeIoChannelInner> = (1..=4).map(|q| channel(&c, q)).collect();
    let setups: Vec<QpairSetup> = (11..=14).map(|q| QpairSetup { qpair: Some(q), add_rc: 0, connect_rc: 0 }).collect();
    let status = c.reset_channels(&mut pool, &mut channels, false, 0, &setups).ok().unwrap();
    // one completion, successful
    assert!(status);
    assert_eq!(c.get_state(), NvmeControllerState::Running);
    assert_eq!(pool.in_use, 0);
    for (i, ch) in channels.iter().enumerate() {
        assert_eq!(ch.qpair, Some(IoQpair { qpair: 11 + i as u64, ctrlr_handle: 0xdead_0000 }));
        assert!(!ch.is_shutdown());
    }
}

#[test]
fn reset_refused_unless_running() {
    let mut c = NvmeController::new("c", 0).unwrap();
    let mut pool = ResetCtxPool::new();
    match c.reset(&mut pool, false) {
        Err(CoreError::ResetDispatch { errno }) => assert_eq!(errno, EBUSY),
        _ => panic!("reset of a controller that is not running"),
    }
    let mut c = running_controller();
    let _ctx = c.reset(&mut pool, true).ok().unwrap();
    assert_eq!(c.get_state(), NvmeControllerState::Resetting);
    match c.reset(&mut pool, false) {
        Err(CoreError::ResetDispatch { errno }) => assert_eq!(errno, EBUSY),
        _ => panic!("second reset"),
    }
}

#[test]
fn reset_pool_exhausted() {
    let mut c = running_controller();
    let mut pool = ResetCtxPool { capacity: RESET_CTX_POOL_SIZE, in_use: RESET_CTX_POOL_SIZE };
    match c.reset(&mut pool, false) {
        Err(CoreError::ResetDispatch { errno }) => assert_eq!(errno, ENOMEM),
        _ => panic!("reset with no context left"),
    }
    assert_eq!(c.get_state(), NvmeControllerState::Running);
    assert_eq!(RESET_CTX_POOL_SIZE, 1023);
}

#[test]
fn hardware_reset_failure_completes_with_error() {
    let mut c = running_controller();
    let mut pool = ResetCtxPool::new();
    let mut channels = vec![channel(&c, 1)];
    let setups = vec![QpairSetup { qpair: Some(2), add_rc: 0, connect_rc: 0 }];
    let status = c.reset_channels(&mut pool, &mut channels, false, -5, &setups).ok().unwrap();
    assert!(!status);
    assert_eq!(c.get_state(), NvmeControllerState::Running);
    assert_eq!(channels[0].qpair, None);

    // the same reset, step by step
    let mut ctx = c.reset(&mut pool, false).ok().unwrap();
    assert_eq!(ctx.phase, ResetPhase::DestroyChannels);
    assert_eq!(reset_destroy_channels(&mut ctx, &mut channels), 0);
    assert_eq!(ctx.phase, ResetPhase::HardwareReset);
    assert_eq!(reset_destroy_channels_done(&mut ctx, 0, -5), ResetStep::Complete(-5));
    assert_eq!(ctx.phase, ResetPhase::Complete(-5));
    assert!(!c.complete_reset(&mut pool, ctx));
    assert_eq!(c.get_state(), NvmeControllerState::Running);
    let mut ctx = c.reset(&mut pool, false).ok().unwrap();
    reset_destroy_channels(&mut ctx, &mut channels);
    assert_eq!(reset_destroy_channels_done(&mut ctx, 0, 0), ResetStep::Recreate);
    assert_eq!(reset_create_channels(&mut ctx, &mut channels, &setups), 0);
    assert_eq!(ctx.phase, ResetPhase::Complete(0));
    assert!(c.complete_reset(&mut pool, ctx));
    assert_eq!(channels[0].qpair, Some(IoQpair { qpair: 2, ctrlr_handle: 0xdead_0000 }));
}

#[test]
fn shutdown_channel_is_not_reinitialised() {
    let c = running_controller();
    let mut ch = channel(&c, 1);
    assert_eq!(ch.shutdown(), 0);
    assert!(ch.is_shutdown());
    assert_eq!(ch.qpair, None);
    let rc = ch.reinitialize("c", 0xdead_0000, QpairSetup { qpair: Some(9), add_rc: 0, connect_rc: 0 });
    assert_eq!(rc, -ENODEV);
    assert_eq!(ch.qpair, None);
}

#[test]
fn reinitialise_failures() {
    let c = running_controller();
    let mut ch = channel(&c, 1);
    assert_eq!(ch.reset(), 0);
    assert_eq!(ch.reinitialize("c", 1, QpairSetup { qpair: None, add_rc: 0, connect_rc: 0 }), -ENOMEM);
    assert_eq!(ch.reinitialize("c", 1, QpairSetup { qpair: Some(3), add_rc: -22, connect_rc: 0 }), -22);
    assert_eq!(ch.reinitialize("c", 1, QpairSetup { qpair: Some(3), add_rc: 0, connect_rc: -111 }), -111);
    assert_eq!(ch.qpair, None);
    assert_eq!(ch.reinitialize("c", 1, QpairSetup { qpair: Some(3), add_rc: 0, connect_rc: 0 }), 0);
    assert_eq!(ch.qpair, Some(IoQpair { qpair: 3, ctrlr_handle: 1 }));
}

#[test]
fn channel_creation_needs_running_controller() {
    let c = NvmeController::new("c", 0).unwrap();
    assert_eq!(create_check(Some(&c)), Err(1));
    assert_eq!(create_check(None), Err(1));
    let c = running_controller();
    assert_eq!(create_check(Some(&c)), Ok(0xdead_0000));
    let bad = ChannelSetup { qpair: Some(1), poll_group: None, add_rc: 0, connect_rc: 0 };
    assert_eq!(create(0xdead_0000, bad).err(), Some(1));
    let failed_connect = ChannelSetup { qpair: Some(1), poll_group: Some(2), add_rc: 0, connect_rc: -111 };
    assert_eq!(create(0xdead_0000, failed_connect).err(), Some(1));
    let setup = ChannelSetup { qpair: Some(1), poll_group: Some(2), add_rc: 0, connect_rc: 0 };
    let ch = create(0xdead_0000, setup).unwrap();
    assert_eq!(ch.poll_group, PollGroup { handle: 2 });
    assert_eq!(ch.qpair, Some(IoQpair { qpair: 1, ctrlr_handle: 0xdead_0000 }));
}

#[test]
fn channel_release_order() {
    let c = running_controller();
    let ch = channel(&c, 5);
    let q = IoQpair { qpair: 5, ctrlr_handle: 0xdead_0000 };
    assert_eq!(
        ch.destroy(),
        vec![
            ReleaseStep::StopPoller,
            ReleaseStep::RemoveFromPollGroup(q),
            ReleaseStep::AbortRequests(q),
            ReleaseStep::Disconnect(q),
            ReleaseStep::Free(q),
            ReleaseStep::DestroyPollGroup(PollGroup { handle: 105 }),
        ]
    );
}

#[test]
fn controller_registry() {
    let mut reg = NvmeControllerRegistry::new();
    assert_eq!(reg.insert_controller(NvmeController::new("a", 0).unwrap()), Ok(0));
    assert_eq!(reg.insert_controller(running_controller()), Ok(1));
    assert_eq!(reg.insert_controller(NvmeController::new("a", 1).unwrap()), Err(RegistryError::Exists));
    assert_eq!(reg.lookup_by_name("127.0.0.1:4420/nqn.test"), Some(1));
    assert_eq!(reg.lookup_by_id(0xdead_0000), Some(1));
    assert_eq!(reg.lookup_by_id(0), None);
    assert_eq!(reg.lookup_by_name("b"), None);
    assert_eq!(reg.remove_controller("a", 0).err(), Some(RegistryError::Busy));
    reg.controllers[0].set_state(NvmeControllerState::Destroying);
    assert_eq!(reg.remove_controller("a", 2).err(), Some(RegistryError::Busy));
    assert_eq!(reg.remove_controller("a", 0).unwrap().name, "a");
    assert_eq!(reg.remove_controller("a", 0).err(), Some(RegistryError::NotFound));
    assert_eq!(reg.controllers.len(), 1);
}

#[test]
fn registry_attach_and_pollers() {
    let mut reg = NvmeControllerRegistry::new();
    reg.insert_controller(NvmeController::new("c0", 0).unwrap()).unwrap();
    assert_eq!(reg.lookup_by_id(0xbeef), None);
    assert_eq!(reg.attached("c0", 0xbeef, None), Ok(0));
    assert_eq!(reg.lookup_by_id(0xbeef), Some(0));
    assert_eq!(reg.controllers[0].get_state(), NvmeControllerState::Running);
    assert_eq!(reg.controllers[0].namespace(), None);
    assert_eq!(reg.attached("c0", 0xbeef, None), Err(RegistryError::Busy));
    assert_eq!(reg.attached("c1", 0xbeef, None), Err(RegistryError::NotFound));
    assert_eq!(nvme_poll(3), 1);
    assert_eq!(nvme_poll(0), 0);
    assert_eq!(nvme_poll_adminq(0), 0);
    assert_eq!(nvme_poll_adminq(-6), 1);
}

#[test]
fn reset_passes_over_shut_down_channels() {
    let mut c = running_controller();
    let mut pool = ResetCtxPool::new();
    let mut channels: Vec<NvmeIoChannelInner> = (1..=3).map(|q| channel(&c, q)).collect();
    channels[1].shutdown();
    let setups: Vec<QpairSetup> = (11..=13).map(|q| QpairSetup { qpair: Some(q), add_rc: 0, connect_rc: 0 }).collect();
    assert_eq!(c.reset_channels(&mut pool, &mut channels, false, 0, &setups).ok(), Some(true));
    assert_eq!(channels[0].qpair, Some(IoQpair { qpair: 11, ctrlr_handle: 0xdead_0000 }));
    assert!(channels[1].is_shutdown());
    assert_eq!(channels[1].qpair, None);
    assert_eq!(channels[2].qpair, Some(IoQpair { qpair: 13, ctrlr_handle: 0xdead_0000 }));
}

#[test]
fn reset_stops_at_failed_channel() {
    let mut c = running_controller();
    let mut pool = ResetCtxPool::new();
    let mut channels: Vec<NvmeIoChannelInner> = (1..=2).map(|q| channel(&c, q)).collect();
    let setups = vec![QpairSetup { qpair: None, add_rc: 0, connect_rc: 0 }, QpairSetup { qpair: Some(2), add_rc: 0, connect_rc: 0 }];
    assert_eq!(c.reset_channels(&mut pool, &mut channels, false, 0, &setups).ok(), Some(false));
    assert_eq!(c.get_state(), NvmeControllerState::Running);
    assert_eq!(pool.in_use, 0);
}
