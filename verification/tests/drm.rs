use waysight::backend::drm::device::{
    after_step, change_for, device_open_flags, find_primary_gpu, first_step, Connection,
    ConnectorReading, ConnectorState, Device, DeviceError, DeviceSetup, GpuCandidate, GpuError,
    OutputChange, ScanEvent, SetupNext, SetupStep, StepReport,
};
use waysight::backend::drm::{initialize, DeviceProbe, DeviceReport, DrmInitError, DrmProbe};

fn reading(connector: u32, connected: bool, crtc: Option<u32>) -> ConnectorReading {
    let connection = if connected { Connection::Connected } else { Connection::Disconnected };
    ConnectorReading { connector, connection, crtc }
}

fn unknown(connector: u32) -> ConnectorReading {
    ConnectorReading { connector, connection: Connection::Unknown, crtc: None }
}

fn ready_device(node: u64) -> Device {
    Device::new(node, &DeviceSetup::Ready { render_node: None }).ok().unwrap()
}

fn gpu(path: &str, node: Option<u64>) -> GpuCandidate {
    GpuCandidate { path: path.to_string(), primary_node: node }
}

fn probe(node: u64, setup: DeviceSetup, connectors: Vec<ConnectorReading>) -> DeviceProbe {
    DeviceProbe { node, setup, connectors }
}

#[test]
fn device_nodes_are_opened_with_the_four_flags() {
    let flags = device_open_flags();
    assert!(flags.read_write && flags.close_on_exec && flags.no_controlling_tty && flags.non_blocking);
}

#[test]
fn new_device_renders_through_the_named_node() {
    let device = Device::new(226, &DeviceSetup::Ready { render_node: Some(128) }).ok().unwrap();
    assert_eq!(device.device_node, 226);
    assert_eq!(device.render_node, 128);
    assert!(device.connectors.is_empty());
}

#[test]
fn new_device_falls_back_to_its_own_node() {
    let device = ready_device(226);
    assert_eq!(device.device_node, 226);
    assert_eq!(device.render_node, 226);
}

fn run_setup(reports: Vec<StepReport>) -> (DeviceSetup, usize) {
    let mut step = first_step();
    let mut taken = 0;
    for report in reports {
        taken += 1;
        match after_step(step, report) {
            SetupNext::Take(next) => step = next,
            SetupNext::Finished(setup) => return (setup, taken),
        }
    }
    panic!("the bring-up did not end");
}

fn done(n: usize) -> Vec<StepReport> {
    (0..n).map(|_| StepReport::Done).collect()
}

#[test]
fn bring_up_takes_its_steps_in_order() {
    assert_eq!(first_step(), SetupStep::OpenNode);
    let order = [
        SetupStep::OpenNode,
        SetupStep::MakeDrmDevice,
        SetupStep::MakeAllocator,
        SetupStep::MakeDisplay,
        SetupStep::FindDisplayDevice,
        SetupStep::AskRenderNode,
    ];
    for i in 0..5 {
        match after_step(order[i], StepReport::Done) {
            SetupNext::Take(next) => assert_eq!(next, order[i + 1]),
            SetupNext::Finished(_) => panic!("ended too early"),
        }
    }
    assert!(matches!(
        after_step(SetupStep::AskRenderNode, StepReport::Done),
        SetupNext::Finished(DeviceSetup::Ready { render_node: None })
    ));
}

#[test]
fn bring_up_ends_at_the_first_resource_that_fails() {
    for k in 0..3 {
        let mut reports = done(k);
        reports.push(StepReport::Failed(format!("step {}", k)));
        reports.extend(done(5 - k));
        let (setup, taken) = run_setup(reports);
        assert_eq!(taken, k + 1);
        match (k, setup) {
            (0, DeviceSetup::OpenFailed(m)) => assert_eq!(m, "step 0"),
            (1, DeviceSetup::DrmFailed(m)) => assert_eq!(m, "step 1"),
            (2, DeviceSetup::GbmFailed(m)) => assert_eq!(m, "step 2"),
            _ => panic!("wrong end for a failure at step {}", k),
        }
    }
}

#[test]
fn failed_display_falls_back_to_the_own_node() {
    let mut reports = done(3);
    reports.push(StepReport::Failed("no egl".to_string()));
    let (setup, taken) = run_setup(reports);
    assert_eq!(taken, 4);
    assert!(matches!(setup, DeviceSetup::Ready { render_node: None }));
    let device = Device::new(226, &setup).ok().unwrap();
    assert_eq!(device.device_node, 226);
    assert_eq!(device.render_node, 226);
    assert!(device.connectors.is_empty());
}

#[test]
fn render_node_search_never_fails_the_device() {
    let mut reports = done(4);
    reports.push(StepReport::Failed("no egl device".to_string()));
    let (setup, taken) = run_setup(reports);
    assert_eq!(taken, 5);
    assert!(matches!(setup, DeviceSetup::Ready { render_node: None }));

    let mut reports = done(5);
    reports.push(StepReport::Failed("bad query".to_string()));
    assert!(matches!(run_setup(reports), (DeviceSetup::Ready { render_node: None }, 6)));

    assert!(matches!(run_setup(done(6)), (DeviceSetup::Ready { render_node: None }, 6)));

    let mut reports = done(5);
    reports.push(StepReport::Found(128));
    assert!(matches!(run_setup(reports), (DeviceSetup::Ready { render_node: Some(128) }, 6)));
}

#[test]
fn a_node_named_too_early_counts_as_done() {
    assert!(matches!(
        after_step(SetupStep::OpenNode, StepReport::Found(3)),
        SetupNext::Take(SetupStep::MakeDrmDevice)
    ));
    assert!(matches!(
        after_step(SetupStep::FindDisplayDevice, StepReport::Found(3)),
        SetupNext::Take(SetupStep::AskRenderNode)
    ));
}

#[test]
fn each_failed_step_gives_its_error() {
    match Device::new(1, &DeviceSetup::OpenFailed("a".to_string())) {
        Err(DeviceError::OpenDevFile(m)) => assert_eq!(m, "a"),
        _ => panic!("expected OpenDevFile"),
    }
    match Device::new(1, &DeviceSetup::DrmFailed("b".to_string())) {
        Err(DeviceError::NewDevice(m)) => assert_eq!(m, "b"),
        _ => panic!("expected NewDevice"),
    }
    match Device::new(1, &DeviceSetup::GbmFailed("c".to_string())) {
        Err(DeviceError::GbmDevice(m)) => assert_eq!(m, "c"),
        _ => panic!("expected GbmDevice"),
    }
}

#[test]
fn device_error_messages() {
    assert_eq!(
        DeviceError::OpenDevFile("denied".to_string()).message(),
        "Failed to open device with session: denied"
    );
    assert_eq!(DeviceError::NewDevice("x".to_string()).message(), "Unable to add drm device: x");
    assert_eq!(DeviceError::GbmDevice("y".to_string()).message(), "Unable to add gbm device: y");
}

#[test]
fn first_scan_reports_what_is_connected() {
    let mut device = ready_device(1);
    let readings = vec![
        reading(10, true, Some(40)),
        reading(11, false, None),
        reading(12, true, None),
    ];
    let events = device.scan_connectors(&readings);
    assert_eq!(
        events,
        vec![
            ScanEvent::Connected { connector: 10, crtc: Some(40) },
            ScanEvent::Connected { connector: 12, crtc: None },
        ]
    );
    assert_eq!(device.connectors.len(), 3);
    assert_eq!(
        device.connectors.get(&10),
        Some(&ConnectorState { connected: true, bound_crtc: Some(40) })
    );
    assert_eq!(
        device.connectors.get(&11),
        Some(&ConnectorState { connected: false, bound_crtc: None })
    );
}

#[test]
fn second_scan_without_change_is_quiet() {
    let mut device = ready_device(1);
    let readings = vec![
        reading(10, true, Some(40)),
        reading(11, false, None),
        reading(12, true, None),
    ];
    assert_eq!(device.scan_connectors(&readings).len(), 2);
    let known = device.connectors.clone();
    assert_eq!(device.scan_connectors(&readings), vec![]);
    assert_eq!(device.connectors, known);
    assert_eq!(device.on_device_changed(&readings), vec![]);
}

#[test]
fn unplugged_come_before_plugged() {
    let mut device = ready_device(1);
    device.scan_connectors(&vec![reading(10, false, None), reading(11, true, Some(41))]);
    let events = device
        .scan_connectors(&vec![reading(10, true, Some(40)), reading(11, false, None)]);
    assert_eq!(
        events,
        vec![
            ScanEvent::Disconnected { connector: 11, crtc: Some(41) },
            ScanEvent::Connected { connector: 10, crtc: Some(40) },
        ]
    );
}

#[test]
fn connector_without_reading_stays_as_it_was() {
    let mut device = ready_device(1);
    device.scan_connectors(&vec![reading(10, true, Some(40)), reading(11, true, Some(41))]);
    let events = device.scan_connectors(&vec![reading(11, true, Some(41))]);
    assert_eq!(events, vec![]);
    assert_eq!(
        device.connectors.get(&10),
        Some(&ConnectorState { connected: true, bound_crtc: Some(40) })
    );
}

#[test]
fn connector_of_unknown_state_is_known_as_not_connected() {
    let mut device = ready_device(1);
    assert_eq!(device.scan_connectors(&vec![unknown(10)]), vec![]);
    assert_eq!(
        device.connectors.get(&10),
        Some(&ConnectorState { connected: false, bound_crtc: None })
    );
    assert_eq!(
        device.scan_connectors(&vec![reading(10, true, Some(40))]),
        vec![ScanEvent::Connected { connector: 10, crtc: Some(40) }]
    );
}

#[test]
fn connect_after_unknown_is_reported_again() {
    let mut device = ready_device(1);
    device.scan_connectors(&vec![reading(10, true, Some(40))]);
    assert_eq!(device.scan_connectors(&vec![unknown(10)]), vec![]);
    assert_eq!(
        device.scan_connectors(&vec![reading(10, true, Some(40))]),
        vec![ScanEvent::Connected { connector: 10, crtc: Some(40) }]
    );
}

#[test]
fn disconnect_after_unknown_is_not_reported() {
    let mut device = ready_device(1);
    device.scan_connectors(&vec![reading(10, true, Some(40))]);
    assert_eq!(device.scan_connectors(&vec![unknown(10)]), vec![]);
    assert_eq!(device.scan_connectors(&vec![reading(10, false, None)]), vec![]);
    assert_eq!(device.scan_connectors(&vec![unknown(10), unknown(10)]), vec![]);
}

#[test]
fn empty_scan_finds_nothing() {
    let mut device = ready_device(1);
    assert_eq!(device.scan_connectors(&vec![]), vec![]);
    assert!(device.connectors.is_empty());
}

#[test]
fn connector_read_twice_in_one_scan_is_taken_in_turn() {
    let mut device = ready_device(1);
    let readings = vec![reading(10, true, Some(40)), reading(10, false, None)];
    let events = device.scan_connectors(&readings);
    assert_eq!(
        events,
        vec![
            ScanEvent::Disconnected { connector: 10, crtc: Some(40) },
            ScanEvent::Connected { connector: 10, crtc: Some(40) },
        ]
    );
    // Such a scan is not quiet the second time: the connector is read as
    // connected again after it was left as not connected.
    assert_eq!(device.scan_connectors(&readings).len(), 2);
}

#[test]
fn output_changes_follow_the_events() {
    assert_eq!(
        change_for(&ScanEvent::Connected { connector: 1, crtc: Some(2) }),
        OutputChange::Create { connector: 1, crtc: 2 }
    );
    assert_eq!(
        change_for(&ScanEvent::Disconnected { connector: 1, crtc: Some(2) }),
        OutputChange::Destroy { connector: 1, crtc: 2 }
    );
    assert_eq!(
        change_for(&ScanEvent::Connected { connector: 3, crtc: None }),
        OutputChange::Unusable { connector: 3 }
    );
    assert_eq!(
        change_for(&ScanEvent::Disconnected { connector: 4, crtc: None }),
        OutputChange::Unusable { connector: 4 }
    );
}

#[test]
fn device_change_creates_and_destroys_outputs() {
    let mut device = ready_device(1);
    let changes = device
        .on_device_changed(&vec![reading(10, true, Some(40)), reading(11, true, None)]);
    assert_eq!(
        changes,
        vec![
            OutputChange::Create { connector: 10, crtc: 40 },
            OutputChange::Unusable { connector: 11 },
        ]
    );
    let changes = device
        .on_device_changed(&vec![reading(10, false, None), reading(11, false, None)]);
    assert_eq!(
        changes,
        vec![
            OutputChange::Destroy { connector: 10, crtc: 40 },
            OutputChange::Unusable { connector: 11 },
        ]
    );
}

#[test]
fn primary_gpu_is_the_hinted_one() {
    let hint = Ok(Some(gpu("/dev/dri/card1", Some(11))));
    let gpus = Ok(vec![gpu("/dev/dri/card0", Some(10)), gpu("/dev/dri/card1", Some(11))]);
    assert!(matches!(find_primary_gpu(&hint, &gpus), Ok(11)));
    assert!(matches!(find_primary_gpu(&hint, &Err("udev is down".to_string())), Ok(11)));
}

#[test]
fn primary_gpu_falls_back_to_the_first_listed() {
    let gpus = Ok(vec![gpu("/dev/dri/card0", Some(10)), gpu("/dev/dri/card1", Some(11))]);
    assert!(matches!(find_primary_gpu(&Ok(None), &gpus), Ok(10)));
    assert!(matches!(find_primary_gpu(&Err("no answer".to_string()), &gpus), Ok(10)));
}

#[test]
fn no_gpu_at_all_is_an_error() {
    assert!(matches!(find_primary_gpu(&Ok(None), &Ok(vec![])), Err(GpuError::NoGpuFound)));
    assert!(matches!(
        find_primary_gpu(&Ok(None), &Err("udev is down".to_string())),
        Err(GpuError::NoGpuFound)
    ));
    assert!(matches!(
        find_primary_gpu(&Err("a".to_string()), &Err("b".to_string())),
        Err(GpuError::NoGpuFound)
    ));
}

#[test]
fn chosen_gpu_without_primary_node_is_an_error() {
    let gpus = Ok(vec![gpu("/dev/dri/card0", None), gpu("/dev/dri/card1", Some(11))]);
    match find_primary_gpu(&Ok(None), &gpus) {
        Err(GpuError::NoPrimaryNode(path)) => assert_eq!(path, "/dev/dri/card0"),
        _ => panic!("expected NoPrimaryNode"),
    }
    match find_primary_gpu(&Ok(Some(gpu("/dev/dri/renderD128", None))), &gpus) {
        Err(GpuError::NoPrimaryNode(path)) => assert_eq!(path, "/dev/dri/renderD128"),
        _ => panic!("expected NoPrimaryNode"),
    }
}

#[test]
fn initialize_without_session_fails() {
    let p = DrmProbe {
        session: Err("no seat".to_string()),
        primary_hint: Ok(Some(gpu("/dev/dri/card0", Some(10)))),
        gpus: Ok(vec![]),
        devices: vec![],
    };
    match initialize(&p) {
        Err(DrmInitError::OpenSession(cause)) => assert_eq!(cause, "no seat"),
        _ => panic!("expected OpenSession"),
    }
}

#[test]
fn initialize_without_gpu_fails() {
    let p = DrmProbe {
        session: Ok("seat0".to_string()),
        primary_hint: Ok(None),
        gpus: Ok(vec![]),
        devices: vec![],
    };
    assert!(matches!(initialize(&p), Err(DrmInitError::PrimaryGpu(GpuError::NoGpuFound))));
}

#[test]
fn second_gpu_failing_leaves_the_first_running() {
    let p = DrmProbe {
        session: Ok("seat0".to_string()),
        primary_hint: Err("the platform could not say".to_string()),
        gpus: Ok(vec![gpu("/dev/dri/card0", Some(100)), gpu("/dev/dri/card1", Some(101))]),
        devices: vec![
            probe(
                100,
                DeviceSetup::Ready { render_node: Some(228) },
                vec![reading(10, true, Some(40))],
            ),
            probe(101, DeviceSetup::GbmFailed("out of memory".to_string()), vec![]),
        ],
    };
    let startup = initialize(&p).ok().unwrap();
    assert_eq!(startup.backend.seat, "seat0");
    assert_eq!(startup.backend.primary_gpu, 100);
    assert_eq!(startup.backend.devices.len(), 1);
    let device = startup.backend.devices.get(&100).unwrap();
    assert_eq!(device.render_node, 228);
    assert_eq!(
        device.connectors.get(&10),
        Some(&ConnectorState { connected: true, bound_crtc: Some(40) })
    );
    assert_eq!(startup.reports.len(), 2);
    match &startup.reports[0] {
        DeviceReport::Added { node, changes } => {
            assert_eq!(*node, 100);
            assert_eq!(changes, &vec![OutputChange::Create { connector: 10, crtc: 40 }]);
        }
        _ => panic!("expected the first device to be added"),
    }
    match &startup.reports[1] {
        DeviceReport::Skipped { node, error } => {
            assert_eq!(*node, 101);
            assert_eq!(error.message(), "Unable to add gbm device: out of memory");
        }
        _ => panic!("expected the second device to be skipped"),
    }
}

#[test]
fn first_gpu_failing_leaves_the_second_running() {
    let p = DrmProbe {
        session: Ok("seat0".to_string()),
        primary_hint: Ok(Some(gpu("/dev/dri/card1", Some(101)))),
        gpus: Ok(vec![]),
        devices: vec![
            probe(100, DeviceSetup::OpenFailed("denied".to_string()), vec![]),
            probe(101, DeviceSetup::Ready { render_node: None }, vec![]),
        ],
    };
    let startup = initialize(&p).ok().unwrap();
    assert_eq!(startup.backend.devices.len(), 1);
    assert!(startup.backend.devices.contains_key(&101));
    assert!(matches!(startup.reports[0], DeviceReport::Skipped { node: 100, .. }));
    assert!(matches!(startup.reports[1], DeviceReport::Added { node: 101, .. }));
}

#[test]
fn initialize_with_no_devices_starts_empty() {
    let p = DrmProbe {
        session: Ok("seat0".to_string()),
        primary_hint: Ok(Some(gpu("/dev/dri/card0", Some(100)))),
        gpus: Ok(vec![]),
        devices: vec![],
    };
    let startup = initialize(&p).ok().unwrap();
    assert!(startup.backend.devices.is_empty());
    assert!(startup.reports.is_empty());
}

#[test]
fn hotplug_rescans_the_device_on_file() {
    let p = DrmProbe {
        session: Ok("seat0".to_string()),
        primary_hint: Ok(Some(gpu("/dev/dri/card0", Some(100)))),
        gpus: Ok(vec![]),
        devices: vec![probe(
            100,
            DeviceSetup::Ready { render_node: None },
            vec![reading(10, true, Some(40))],
        )],
    };
    let mut backend = initialize(&p).ok().unwrap().backend;
    assert_eq!(backend.on_device_changed(100, &vec![reading(10, true, Some(40))]), Some(vec![]));
    assert_eq!(
        backend.on_device_changed(100, &vec![reading(10, false, None)]),
        Some(vec![OutputChange::Destroy { connector: 10, crtc: 40 }])
    );
    assert_eq!(backend.on_device_changed(999, &vec![reading(10, true, None)]), None);
    assert_eq!(backend.devices.len(), 1);
}

#[test]
fn added_and_removed_devices() {
    let p = DrmProbe {
        session: Ok("seat0".to_string()),
        primary_hint: Ok(Some(gpu("/dev/dri/card0", Some(100)))),
        gpus: Ok(vec![]),
        devices: vec![],
    };
    let mut backend = initialize(&p).ok().unwrap().backend;
    let report = backend.add_device(&probe(
        100,
        DeviceSetup::Ready { render_node: None },
        vec![reading(1, true, Some(2))],
    ));
    assert!(matches!(report, DeviceReport::Added { node: 100, .. }));
    let report = backend.add_device(&probe(100, DeviceSetup::DrmFailed("gone".to_string()), vec![]));
    assert!(matches!(report, DeviceReport::Skipped { node: 100, .. }));
    assert_eq!(backend.devices.len(), 1);
    let record = backend.remove_device(100).unwrap();
    assert_eq!(record.device_node, 100);
    assert!(backend.devices.is_empty());
    assert!(backend.remove_device(100).is_none());
}
