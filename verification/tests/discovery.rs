use vrlh_power_manager_core::{
    enroll, has_managed_name, should_inspect, Device, DeviceFlow, DeviceInfo, DeviceList,
    DeviceLocalStatus, DeviceRemoteStatus, Error, Event, GattCharacteristic, GattService, Request,
    ScanEvent, ScanPhase, ScanRequest, ScanSession, Sighting, LHV2_GATT_POWER_CHARACTERISTIC,
    LHV2_GATT_POWER_SERVICE,
};

fn lighthouse(id: u64, name: &str) -> Device {
    Device::new(id, format!("00:00:00:00:00:{id:02X}"), name.to_string())
}

fn opened(duration_secs: u64) -> ScanSession {
    let mut devices = DeviceList::new();
    ScanSession::open(&mut devices, duration_secs, false).session
}

fn scanning(duration_secs: u64) -> ScanSession {
    let mut session = opened(duration_secs);
    assert_eq!(
        session.step(ScanEvent::Listening(true)),
        ScanRequest::StartScan { secs: duration_secs }
    );
    assert_eq!(session.step(ScanEvent::ScanStarted(true)), ScanRequest::Nothing);
    session
}

#[test]
fn managed_names_begin_with_the_prefix() {
    assert!(has_managed_name("LHB-base1"));
    assert!(has_managed_name("LHB-"));
    assert!(has_managed_name("LHB-\u{e9}\u{4e2d}"));
    assert!(!has_managed_name("Other"));
    assert!(!has_managed_name(""));
    assert!(!has_managed_name("LHB"));
    assert!(!has_managed_name("lhb-base1"));
    assert!(!has_managed_name("LHB_base1"));
    assert!(!has_managed_name(" LHB-base1"));
    assert!(!has_managed_name("xLHB-"));
    assert!(!has_managed_name("\u{141}HB-1"));
    assert!(!has_managed_name("HTC BS 1234"));
}

#[test]
fn the_name_filter_agrees_with_starts_with() {
    for name in ["LHB-1", "LHB", "LH", "L", "", "LHB-LHB-", "-LHB", "LHb-", "\u{1f600}LHB-"] {
        assert_eq!(has_managed_name(name), name.starts_with("LHB-"));
    }
}

#[test]
fn a_foreign_peripheral_is_ignored_and_never_entered() {
    let mut devices = DeviceList::new();
    let sighting = enroll(
        &mut devices,
        2,
        "00:00:00:00:00:02".to_string(),
        Some("Other".to_string()),
    );
    assert_eq!(
        sighting,
        Sighting::Ignored(DeviceInfo {
            id: 2,
            addr: "00:00:00:00:00:02".to_string(),
            name: "Other".to_string(),
            local: Some(DeviceLocalStatus::Ignored),
            remote: None,
        })
    );
    assert!(devices.is_empty());
    assert!(!devices.contains(2));
    assert!(should_inspect(&devices, 2));
}

#[test]
fn a_nameless_peripheral_is_ignored_under_its_address() {
    let mut devices = DeviceList::new();
    match enroll(&mut devices, 3, "00:11:22:33:44:55".to_string(), None) {
        Sighting::Ignored(info) => {
            assert_eq!(info.name, "[00:11:22:33:44:55]");
            assert_eq!(info.addr, "00:11:22:33:44:55");
            assert_eq!(info.id, 3);
            assert_eq!(info.local, Some(DeviceLocalStatus::Ignored));
            assert_eq!(info.remote, None);
        }
        other => panic!("not ignored: {other:?}"),
    }
    assert!(devices.is_empty());
}

#[test]
fn a_managed_device_is_entered_once() {
    let mut devices = DeviceList::new();
    assert!(should_inspect(&devices, 1));
    let first = enroll(
        &mut devices,
        1,
        "00:00:00:00:00:01".to_string(),
        Some("LHB-base1".to_string()),
    );
    assert_eq!(first, Sighting::Managed(lighthouse(1, "LHB-base1")));
    assert_eq!(devices.get_device(1), Some(lighthouse(1, "LHB-base1")));
    assert!(!should_inspect(&devices, 1));
    let second = enroll(
        &mut devices,
        1,
        "00:00:00:00:00:01".to_string(),
        Some("LHB-renamed".to_string()),
    );
    assert_eq!(second, Sighting::Known);
    assert_eq!(devices.len(), 1);
    assert_eq!(devices.get_device(1), Some(lighthouse(1, "LHB-base1")));
}

#[test]
fn a_known_identity_with_a_foreign_name_is_still_ignored() {
    let mut devices = DeviceList::new();
    devices.insert_if_absent(1, lighthouse(1, "LHB-base1"));
    let sighting = enroll(
        &mut devices,
        1,
        "00:00:00:00:00:01".to_string(),
        Some("Renamed".to_string()),
    );
    assert!(matches!(sighting, Sighting::Ignored(_)));
    assert_eq!(devices.snapshot_values(), vec![lighthouse(1, "LHB-base1")]);
}

#[test]
fn opening_a_session_reports_the_devices_that_were_kept() {
    let mut devices = DeviceList::new();
    let mut known = lighthouse(1, "LHB-base1");
    known.record_local_status(DeviceLocalStatus::Disconnected);
    known.record_remote_status(DeviceRemoteStatus::Standby);
    devices.insert_if_absent(1, known.clone());
    let opening = ScanSession::open(&mut devices, 5, false);
    assert_eq!(opening.request, ScanRequest::Listen);
    assert!(opening.stale.is_empty());
    assert_eq!(
        opening.reports,
        vec![DeviceInfo::from_device_statuses(
            &known,
            DeviceLocalStatus::Disconnected,
            DeviceRemoteStatus::Standby
        )]
    );
    assert_eq!(devices.get_device(1), Some(known));
    assert_eq!(opening.session.phase(), ScanPhase::Listening);
    assert_eq!(opening.session.duration_secs(), 5);
    assert_eq!(opening.session.outstanding(), 0);
    assert!(!opening.session.is_idle());
}

#[test]
fn opening_a_fresh_session_lets_the_old_devices_go() {
    let mut devices = DeviceList::new();
    devices.insert_if_absent(1, lighthouse(1, "LHB-a"));
    devices.insert_if_absent(2, lighthouse(2, "LHB-b"));
    let opening = ScanSession::open(&mut devices, 10, true);
    assert_eq!(opening.request, ScanRequest::Listen);
    assert_eq!(opening.stale, vec![lighthouse(1, "LHB-a"), lighthouse(2, "LHB-b")]);
    assert!(opening.reports.is_empty());
    assert!(devices.is_empty());
}

#[test]
fn a_session_listens_before_it_scans() {
    let mut session = opened(5);
    assert_eq!(session.step(ScanEvent::ScanStarted(true)), ScanRequest::Nothing);
    assert_eq!(session.phase(), ScanPhase::Listening);
    assert_eq!(session.step(ScanEvent::Listening(true)), ScanRequest::StartScan { secs: 5 });
    assert_eq!(session.phase(), ScanPhase::Starting);
    assert_eq!(
        session.step(ScanEvent::Discovered { id: 1, elapsed_secs: 0 }),
        ScanRequest::Nothing
    );
    assert_eq!(session.step(ScanEvent::ScanStarted(true)), ScanRequest::Nothing);
    assert_eq!(session.phase(), ScanPhase::Scanning);
}

#[test]
fn a_session_that_cannot_start_is_closed_with_the_failure() {
    let mut deaf = opened(5);
    assert_eq!(
        deaf.step(ScanEvent::Listening(false)),
        ScanRequest::Close(Err(Error::TransportError))
    );
    assert!(deaf.is_idle());

    let mut blind = opened(5);
    blind.step(ScanEvent::Listening(true));
    assert_eq!(
        blind.step(ScanEvent::ScanStarted(false)),
        ScanRequest::Close(Err(Error::TransportError))
    );
    assert!(blind.is_idle());
}

#[test]
fn the_scan_stops_at_the_deadline_and_not_before() {
    let mut session = scanning(5);
    assert_eq!(session.step(ScanEvent::Deadline { elapsed_secs: 4 }), ScanRequest::Nothing);
    assert_eq!(session.phase(), ScanPhase::Scanning);
    assert_eq!(session.step(ScanEvent::Unrelated { elapsed_secs: 4 }), ScanRequest::Nothing);
    assert_eq!(session.step(ScanEvent::Deadline { elapsed_secs: 5 }), ScanRequest::StopScan);
    assert_eq!(session.phase(), ScanPhase::Stopping);
    assert_eq!(session.step(ScanEvent::Deadline { elapsed_secs: 6 }), ScanRequest::Nothing);
    assert_eq!(session.step(ScanEvent::ScanStopped(true)), ScanRequest::Close(Ok(())));
    assert!(session.is_idle());
    assert_eq!(session.step(ScanEvent::Listening(true)), ScanRequest::Nothing);
}

#[test]
fn a_late_discovery_stops_the_scan_and_is_dropped() {
    let mut session = scanning(5);
    assert_eq!(
        session.step(ScanEvent::Discovered { id: 9, elapsed_secs: 5 }),
        ScanRequest::StopScan
    );
    assert_eq!(session.outstanding(), 0);
    let mut other = scanning(5);
    assert_eq!(other.step(ScanEvent::Unrelated { elapsed_secs: 8 }), ScanRequest::StopScan);
}

#[test]
fn a_scan_of_no_length_stops_at_once() {
    let mut session = scanning(0);
    assert_eq!(
        session.step(ScanEvent::Discovered { id: 1, elapsed_secs: 0 }),
        ScanRequest::StopScan
    );
}

#[test]
fn the_end_of_the_event_stream_stops_the_scan() {
    let mut session = scanning(5);
    assert_eq!(session.step(ScanEvent::StreamEnded), ScanRequest::StopScan);
    assert_eq!(
        session.step(ScanEvent::ScanStopped(false)),
        ScanRequest::Close(Err(Error::TransportError))
    );
}

#[test]
fn the_channel_closes_when_the_last_task_is_done() {
    let mut session = scanning(5);
    assert_eq!(
        session.step(ScanEvent::Discovered { id: 1, elapsed_secs: 1 }),
        ScanRequest::Inspect(1)
    );
    assert_eq!(
        session.step(ScanEvent::Discovered { id: 2, elapsed_secs: 2 }),
        ScanRequest::Inspect(2)
    );
    assert_eq!(
        session.step(ScanEvent::Discovered { id: 3, elapsed_secs: 2 }),
        ScanRequest::Inspect(3)
    );
    assert_eq!(session.outstanding(), 3);
    assert_eq!(session.step(ScanEvent::TaskFinished), ScanRequest::Nothing);
    assert_eq!(session.outstanding(), 2);
    assert_eq!(session.step(ScanEvent::Deadline { elapsed_secs: 5 }), ScanRequest::StopScan);
    assert_eq!(session.outstanding(), 2);
    assert_eq!(session.step(ScanEvent::TaskFinished), ScanRequest::Nothing);
    assert_eq!(session.step(ScanEvent::ScanStopped(true)), ScanRequest::Nothing);
    assert_eq!(session.phase(), ScanPhase::Draining);
    assert_eq!(
        session.step(ScanEvent::Discovered { id: 4, elapsed_secs: 6 }),
        ScanRequest::Nothing
    );
    assert_eq!(session.step(ScanEvent::TaskFinished), ScanRequest::Close(Ok(())));
    assert!(session.is_idle());
    assert_eq!(session.outstanding(), 0);
    assert_eq!(session.step(ScanEvent::TaskFinished), ScanRequest::Nothing);
}

#[test]
fn a_failed_stop_is_the_result_of_the_session_after_draining() {
    let mut session = scanning(5);
    session.step(ScanEvent::Discovered { id: 1, elapsed_secs: 1 });
    session.step(ScanEvent::Deadline { elapsed_secs: 5 });
    assert_eq!(session.step(ScanEvent::ScanStopped(false)), ScanRequest::Nothing);
    assert_eq!(
        session.step(ScanEvent::TaskFinished),
        ScanRequest::Close(Err(Error::TransportError))
    );
}

#[test]
fn a_task_that_was_never_handed_out_cannot_finish() {
    let mut session = scanning(5);
    assert_eq!(session.step(ScanEvent::TaskFinished), ScanRequest::Nothing);
    assert_eq!(session.outstanding(), 0);
    assert_eq!(session.phase(), ScanPhase::Scanning);
}

#[test]
fn one_scan_with_a_duplicate_and_a_foreign_peripheral() {
    let services = vec![GattService {
        uuid: LHV2_GATT_POWER_SERVICE,
        primary: true,
        characteristics: vec![GattCharacteristic {
            uuid: LHV2_GATT_POWER_CHARACTERISTIC,
            service_uuid: LHV2_GATT_POWER_SERVICE,
        }],
    }];
    let advertised = |id: u64| -> Option<String> {
        match id {
            1 => Some("LHB-base1".to_string()),
            _ => Some("Other".to_string()),
        }
    };

    let mut devices = DeviceList::new();
    let opening = ScanSession::open(&mut devices, 5, false);
    let mut session = opening.session;
    assert!(opening.reports.is_empty());
    assert_eq!(opening.request, ScanRequest::Listen);
    assert_eq!(session.step(ScanEvent::Listening(true)), ScanRequest::StartScan { secs: 5 });
    assert_eq!(session.step(ScanEvent::ScanStarted(true)), ScanRequest::Nothing);

    let mut messages: Vec<DeviceInfo> = Vec::new();
    let mut stops: Vec<u64> = Vec::new();
    let timeline = vec![
        ScanEvent::Discovered { id: 1, elapsed_secs: 1 },
        ScanEvent::Discovered { id: 1, elapsed_secs: 2 },
        ScanEvent::Discovered { id: 2, elapsed_secs: 3 },
        ScanEvent::Deadline { elapsed_secs: 5 },
    ];
    for event in timeline {
        match session.step(event) {
            ScanRequest::Inspect(id) => {
                if should_inspect(&devices, id) {
                    let address = format!("00:00:00:00:00:{id:02X}");
                    match enroll(&mut devices, id, address, advertised(id)) {
                        Sighting::Managed(device) => {
                            let mut flow = DeviceFlow::verification(device);
                            let script = vec![
                                Event::Begin,
                                Event::ConnectionState(Some(false)),
                                Event::Connected(true),
                                Event::Services(Some(services.clone_services())),
                                Event::Value(Some(vec![0x0B])),
                                Event::Disconnected(true),
                            ];
                            for outcome in script {
                                if let Some(info) = flow.step(outcome).message {
                                    messages.push(info);
                                }
                            }
                            assert!(flow.is_finished());
                            assert!(devices.settle(id, flow));
                        }
                        Sighting::Ignored(info) => messages.push(info),
                        Sighting::Known => {}
                    }
                }
                session.step(ScanEvent::TaskFinished);
            }
            ScanRequest::StopScan => {
                if let ScanEvent::Deadline { elapsed_secs } = event {
                    stops.push(elapsed_secs);
                }
            }
            ScanRequest::Nothing => {}
            other => panic!("not expected during a scan: {other:?}"),
        }
    }
    assert_eq!(stops, vec![5]);
    assert_eq!(session.step(ScanEvent::ScanStopped(true)), ScanRequest::Close(Ok(())));

    let of_first: Vec<&DeviceInfo> = messages.iter().filter(|info| info.id == 1).collect();
    assert_eq!(
        of_first.iter().map(|info| info.local.clone()).collect::<Vec<_>>(),
        vec![
            Some(DeviceLocalStatus::Initializing),
            Some(DeviceLocalStatus::Connected),
            None,
            Some(DeviceLocalStatus::Disconnected),
        ]
    );
    assert_eq!(of_first[2].remote, Some(DeviceRemoteStatus::Active));
    let initializing = messages
        .iter()
        .filter(|info| info.local == Some(DeviceLocalStatus::Initializing))
        .count();
    assert_eq!(initializing, 1);
    let of_second: Vec<&DeviceInfo> = messages.iter().filter(|info| info.id == 2).collect();
    assert_eq!(of_second.len(), 1);
    assert_eq!(of_second[0].local, Some(DeviceLocalStatus::Ignored));
    assert_eq!(of_second[0].remote, None);
    assert_eq!(of_second[0].name, "Other");
    assert_eq!(messages.len(), 5);

    assert_eq!(devices.len(), 1);
    assert!(devices.contains(1));
    assert!(!devices.contains(2));
    assert_eq!(
        devices.get_device(1).unwrap().get_last_statuses(),
        (DeviceLocalStatus::Disconnected, DeviceRemoteStatus::Active)
    );
}

trait CloneServices {
    fn clone_services(&self) -> Vec<GattService>;
}

impl CloneServices for Vec<GattService> {
    fn clone_services(&self) -> Vec<GattService> {
        self.iter()
            .map(|service| GattService {
                uuid: service.uuid,
                primary: service.primary,
                characteristics: service.characteristics.clone(),
            })
            .collect()
    }
}

#[test]
fn a_request_to_connect_follows_only_a_report_of_no_connection() {
    let events = vec![
        Event::Begin,
        Event::ConnectionState(Some(true)),
        Event::Connected(true),
        Event::Disconnected(true),
    ];
    let mut flow = DeviceFlow::verification(lighthouse(1, "LHB-base1"));
    for event in events {
        assert_ne!(flow.step(event).request, Request::Connect);
    }
}
