use blescan::HEART_RATE_SERVICE_UUID;
use blescan::device::{AdvertisedProperties, DeviceData};
use blescan::scan::{
    dispatch_event, pause_tick, process_event, service_filter, AdapterEvent, DeviceEvent,
    PauseDecision,
};

fn hr_properties(name: Option<&str>, services: Vec<u128>) -> AdvertisedProperties {
    AdvertisedProperties {
        local_name: name.map(|n| n.to_string()),
        tx_power_level: None,
        address: "AA:BB:CC:DD:EE:FF".to_string(),
        rssi: Some(-60),
        manufacturer_data: vec![],
        services,
        service_data: vec![],
    }
}

#[test]
fn filter_requires_heart_rate_service() {
    assert!(!service_filter(&vec![]));
    assert!(!service_filter(&vec![0x1234, 0x5678]));
    assert!(service_filter(&vec![HEART_RATE_SERVICE_UUID]));
    assert!(service_filter(&vec![0x1234, HEART_RATE_SERVICE_UUID, 0x5678]));
}

#[test]
fn heart_rate_uuid_matches_text_form() {
    let parsed = uuid::Uuid::parse_str("0000180d-0000-1000-8000-00805f9b34fb").unwrap();
    assert_eq!(parsed.as_u128(), HEART_RATE_SERVICE_UUID);
}

#[test]
fn scenario_heart_rate_device_then_empty_update() {
    let (tx, mut rx) = tokio::sync::mpsc::unbounded_channel();
    let ev = AdapterEvent::DeviceDiscovered(DeviceEvent {
        id: "dev-1".to_string(),
        properties: Some(hr_properties(Some("HRM-1"), vec![HEART_RATE_SERVICE_UUID])),
    });
    let sent = dispatch_event(&tx, ev);
    assert!(sent.is_some());
    match rx.try_recv().expect("one device message") {
        DeviceData::DeviceInfo(rec) => {
            assert_eq!(rec.id, "dev-1");
            assert_eq!(rec.name.as_deref(), Some("HRM-1"));
            assert_eq!(rec.address, "AA:BB:CC:DD:EE:FF");
            assert!(rec.services.contains(&HEART_RATE_SERVICE_UUID));
            assert!(rec.has_device);
        }
        _ => panic!("expected a device record"),
    }
    let ev2 = AdapterEvent::DeviceUpdated(DeviceEvent {
        id: "dev-1".to_string(),
        properties: Some(hr_properties(None, vec![])),
    });
    assert!(dispatch_event(&tx, ev2).is_none());
    assert!(rx.try_recv().is_err());
}

#[test]
fn event_without_target_service_is_skipped() {
    let (tx, mut rx) = tokio::sync::mpsc::unbounded_channel();
    let ev = AdapterEvent::DeviceDiscovered(DeviceEvent {
        id: "dev-2".to_string(),
        properties: Some(hr_properties(Some("Other"), vec![0xabcd])),
    });
    assert!(dispatch_event(&tx, ev).is_none());
    assert!(rx.try_recv().is_err());
}

#[test]
fn event_without_properties_is_skipped() {
    let m = process_event(AdapterEvent::DeviceUpdated(DeviceEvent {
        id: "dev-3".to_string(),
        properties: None,
    }));
    assert!(m.is_none());
}

#[test]
fn other_events_are_ignored() {
    assert!(process_event(AdapterEvent::Other).is_none());
}

#[test]
fn messages_arrive_in_production_order() {
    let (tx, mut rx) = tokio::sync::mpsc::unbounded_channel();
    for id in ["first", "second", "third"] {
        let ev = AdapterEvent::DeviceDiscovered(DeviceEvent {
            id: id.to_string(),
            properties: Some(hr_properties(Some(id), vec![HEART_RATE_SERVICE_UUID])),
        });
        assert!(dispatch_event(&tx, ev).is_some());
    }
    for id in ["first", "second", "third"] {
        match rx.try_recv().expect("a message in order") {
            DeviceData::DeviceInfo(rec) => assert_eq!(rec.id, id),
            _ => panic!("expected a device record"),
        }
    }
    assert!(rx.try_recv().is_err());
}

#[test]
fn pause_stops_scan_only_once() {
    let mut scanning = true;
    assert_eq!(pause_tick(true, &mut scanning), PauseDecision::StopAndWait);
    assert!(!scanning);
    assert_eq!(pause_tick(true, &mut scanning), PauseDecision::Wait);
    assert_eq!(pause_tick(true, &mut scanning), PauseDecision::Wait);
    assert!(!scanning);
}

#[test]
fn clearing_pause_resumes_exactly_once() {
    let mut scanning = true;
    assert_eq!(pause_tick(true, &mut scanning), PauseDecision::StopAndWait);
    assert_eq!(pause_tick(true, &mut scanning), PauseDecision::Wait);
    assert_eq!(pause_tick(false, &mut scanning), PauseDecision::Resume);
    assert!(scanning);
    assert_eq!(pause_tick(false, &mut scanning), PauseDecision::Proceed);
    assert!(scanning);
}
