use blescan::device::{DeviceData, GattCharacteristic};
use blescan::retrieve::{
    begin_retrieval, deliver_characteristics, flatten_characteristics, resolve_connect,
    ConnectOutcome, CONNECT_TIMEOUT_SECS,
};

fn expect_error(m: DeviceData) -> String {
    match m {
        DeviceData::Error(e) => e,
        _ => panic!("expected a failure message"),
    }
}

#[test]
fn missing_device_is_reported() {
    let (tx, mut rx) = tokio::sync::mpsc::unbounded_channel();
    let m = begin_retrieval(&tx, false).expect("a failure message");
    assert_eq!(expect_error(m), "device not found");
    assert_eq!(expect_error(rx.try_recv().expect("delivered")), "device not found");
    assert!(rx.try_recv().is_err());
}

#[test]
fn live_device_proceeds_silently() {
    let (tx, mut rx) = tokio::sync::mpsc::unbounded_channel();
    assert!(begin_retrieval(&tx, true).is_none());
    assert!(rx.try_recv().is_err());
}

#[test]
fn connect_error_is_reported_with_details() {
    let (tx, mut rx) = tokio::sync::mpsc::unbounded_channel();
    let m = resolve_connect(&tx, ConnectOutcome::Failed("handshake refused".to_string()))
        .expect("a failure message");
    assert_eq!(expect_error(m), "connection error: handshake refused");
    assert_eq!(
        expect_error(rx.try_recv().expect("delivered")),
        "connection error: handshake refused"
    );
}

#[test]
fn connect_timeout_is_reported() {
    let (tx, mut rx) = tokio::sync::mpsc::unbounded_channel();
    let m = resolve_connect(&tx, ConnectOutcome::TimedOut).expect("a failure message");
    assert_eq!(expect_error(m), "connection timed out");
    assert_eq!(expect_error(rx.try_recv().expect("delivered")), "connection timed out");
}

#[test]
fn successful_connect_emits_nothing_yet() {
    let (tx, mut rx) = tokio::sync::mpsc::unbounded_channel();
    assert!(resolve_connect(&tx, ConnectOutcome::Connected).is_none());
    assert!(rx.try_recv().is_err());
}

#[test]
fn simulated_connect_that_never_completes_times_out() {
    let rt = tokio::runtime::Runtime::new().unwrap();
    assert_eq!(CONNECT_TIMEOUT_SECS, 10);
    let bound = std::time::Duration::from_millis(50);
    let outcome = rt.block_on(async {
        match tokio::time::timeout(bound, std::future::pending::<Result<(), String>>()).await {
            Ok(Ok(())) => ConnectOutcome::Connected,
            Ok(Err(e)) => ConnectOutcome::Failed(e),
            Err(_) => ConnectOutcome::TimedOut,
        }
    });
    let (tx, mut rx) = tokio::sync::mpsc::unbounded_channel();
    let m = resolve_connect(&tx, outcome).expect("a failure message");
    assert_eq!(expect_error(m), "connection timed out");
    assert_eq!(expect_error(rx.try_recv().expect("delivered")), "connection timed out");
}

fn sample_tree() -> Vec<GattCharacteristic> {
    vec![
        GattCharacteristic {
            uuid: 0x2a37,
            properties: 0x10,
            descriptor_uuids: vec![0x2902, 0x2901],
            service_uuid: 0x180d,
        },
        GattCharacteristic {
            uuid: 0x2a38,
            properties: 0x02,
            descriptor_uuids: vec![],
            service_uuid: 0x180d,
        },
    ]
}

#[test]
fn flatten_preserves_order_and_fields() {
    let found = sample_tree();
    let flat = flatten_characteristics(&found);
    assert_eq!(flat.len(), 2);
    assert_eq!(flat[0].uuid, 0x2a37);
    assert_eq!(flat[0].properties, 0x10);
    assert_eq!(flat[0].descriptors, vec![0x2902, 0x2901]);
    assert_eq!(flat[0].service, 0x180d);
    assert_eq!(flat[1].uuid, 0x2a38);
    assert_eq!(flat[1].descriptors, Vec::<u128>::new());
}

#[test]
fn characteristics_arrive_as_one_complete_batch() {
    let (tx, mut rx) = tokio::sync::mpsc::unbounded_channel();
    let found = sample_tree();
    let m = deliver_characteristics(&tx, &found);
    match m {
        DeviceData::Characteristics(batch) => assert_eq!(batch.len(), 2),
        _ => panic!("expected a characteristics batch"),
    }
    match rx.try_recv().expect("the one terminal message") {
        DeviceData::Characteristics(batch) => {
            assert_eq!(batch.len(), 2);
            assert_eq!(batch[0].uuid, 0x2a37);
            assert_eq!(batch[1].uuid, 0x2a38);
        }
        _ => panic!("expected a characteristics batch"),
    }
    assert!(rx.try_recv().is_err());
}
