use opendeck_n4::device::{handle_error, DeviceTask, SinkEvent, StateUpdate, TaskPhase};
use opendeck_n4::error::DeviceError;
use opendeck_n4::mappings::{CandidateDevice, Kind};
use opendeck_n4::registry::Registry;
use opendeck_n4::watcher::{
    device_info_to_candidate, get_candidates, on_device_connected, on_device_disconnected,
    serial_to_id, DeviceDescriptor,
};

fn n4pro_candidate(serial: &str) -> CandidateDevice {
    CandidateDevice {
        id: format!("n4-{serial}"),
        vendor_id: 0x5548,
        product_id: 0x1023,
        serial: String::from(serial),
        kind: Kind::N4Pro,
    }
}

#[test]
fn serial_to_id_prefixes_the_namespace() {
    assert_eq!(serial_to_id(&String::from("ABC123")), "n4-ABC123");
    assert_eq!(serial_to_id(&String::from("")), "n4-");
}

#[test]
fn descriptor_without_serial_or_unknown_ids_is_no_candidate() {
    let no_serial = DeviceDescriptor { vendor_id: 0x5548, product_id: 0x1023, serial_number: None };
    assert!(device_info_to_candidate(&no_serial).is_none());

    let unknown = DeviceDescriptor {
        vendor_id: 0x1234,
        product_id: 0x5678,
        serial_number: Some(String::from("S")),
    };
    assert!(device_info_to_candidate(&unknown).is_none());
}

#[test]
fn matching_descriptor_becomes_a_candidate() {
    let d = DeviceDescriptor {
        vendor_id: 0x0300,
        product_id: 0x3004,
        serial_number: Some(String::from("XYZ")),
    };
    let c = device_info_to_candidate(&d).expect("must be a candidate");
    assert_eq!(c.id, "n4-XYZ");
    assert_eq!(c.kind, Kind::Akp05E);
    assert_eq!(c.vendor_id, 0x0300);
    assert_eq!(c.product_id, 0x3004);
    assert_eq!(c.serial, "XYZ");
}

#[test]
fn get_candidates_filters_in_scan_order() {
    let scan = vec![
        DeviceDescriptor {
            vendor_id: 0x5548,
            product_id: 0x1023,
            serial_number: Some(String::from("A")),
        },
        DeviceDescriptor { vendor_id: 0x5548, product_id: 0x1023, serial_number: None },
        DeviceDescriptor {
            vendor_id: 0x9999,
            product_id: 0x9999,
            serial_number: Some(String::from("B")),
        },
        DeviceDescriptor {
            vendor_id: 0x1500,
            product_id: 0x3002,
            serial_number: Some(String::from("C")),
        },
    ];
    let candidates = get_candidates(&scan);
    assert_eq!(candidates.len(), 2);
    assert_eq!(candidates[0].id, "n4-A");
    assert_eq!(candidates[0].kind, Kind::N4Pro);
    assert_eq!(candidates[1].id, "n4-C");
    assert_eq!(candidates[1].kind, Kind::CN003);
}

#[test]
fn content_error_continues_and_leaves_state_alone() {
    let mut reg = Registry::new();
    let id = String::from("n4-S1");
    reg.insert_signal(&id);
    reg.insert_device(&id);

    for err in [DeviceError::BadData, DeviceError::Image] {
        assert!(handle_error(&mut reg, &id, &err), "content errors continue");
        assert!(reg.contains_device(&id));
        assert_eq!(reg.signals.len(), 1);
        assert!(!reg.signals[0].fired);
    }
}

#[test]
fn fatal_error_cleans_up_once_and_is_idempotent() {
    let mut reg = Registry::new();
    let id = String::from("n4-S1");
    reg.insert_signal(&id);
    reg.insert_device(&id);

    assert!(!handle_error(&mut reg, &id, &DeviceError::Hid), "fatal errors stop");
    assert!(!reg.contains_device(&id));
    assert_eq!(reg.signals.len(), 1);
    assert_eq!(reg.signals[0].id, id);
    assert!(reg.signals[0].fired, "the cancellation signal must fire");

    // Second invocation on the same id: still "stop", nothing else moves.
    assert!(!handle_error(&mut reg, &id, &DeviceError::Hid));
    assert_eq!(reg.devices.len(), 0);
    assert_eq!(reg.signals.len(), 1);
    assert!(reg.signals[0].fired);
}

#[test]
fn device_registers_with_its_geometry_and_routes_a_key_down() {
    // End to end: connect, register, decode one display-key report, and see
    // exactly one key-down at the remapped external index.
    let mut reg = Registry::new();
    let candidate = n4pro_candidate("SER123");
    reg.insert_signal(&candidate.id);

    let mut task = DeviceTask::start(candidate);
    assert_eq!(task.phase, TaskPhase::Connecting);

    task.on_connect_result(&mut reg, None);
    assert_eq!(task.phase, TaskPhase::Initializing);

    let ev = task.on_init_result(&mut reg, None).expect("registration event");
    match ev {
        SinkEvent::RegisterDevice { id, name, rows, cols, encoders, device_type } => {
            assert_eq!(id, "n4-SER123");
            assert_eq!(name, "VSDInside N4 Pro");
            assert_eq!(rows, 2);
            assert_eq!(cols, 5);
            assert_eq!(encoders, 4);
            assert_eq!(device_type, 7);
        },
        other => panic!("expected a registration, got {other:?}"),
    }
    assert!(reg.contains_device(&String::from("n4-SER123")));

    task.enter_running();

    // A raw report for display key code 0x05 with a non-zero state.
    let mut enc = opendeck_n4::inputs::EncoderStates::new();
    let decoded = opendeck_n4::inputs::process_input_n1(&mut enc, 0x05, 0x01);
    let vector = match decoded {
        opendeck_n4::inputs::DeviceInput::ButtonStateChange(v) => v,
        other => panic!("expected a button vector, got {other:?}"),
    };
    let pressed: Vec<usize> =
        vector.iter().enumerate().filter(|(_, &b)| b).map(|(i, _)| i).collect();
    assert_eq!(pressed, vec![4], "exactly one pressed key");

    // The transport reader's diffing (external) turns that into a key-down.
    let sink_ev = task.on_reader_update(&StateUpdate::ButtonDown(pressed[0] as u8));
    assert_eq!(
        sink_ev,
        Some(SinkEvent::KeyDown { id: String::from("n4-SER123"), key: 4 + 6 })
    );
}

#[test]
fn running_task_routes_encoder_events_and_drops_unmapped_keys() {
    let mut reg = Registry::new();
    let mut task = DeviceTask::start(n4pro_candidate("S"));
    task.on_connect_result(&mut reg, None);
    task.on_init_result(&mut reg, None);
    task.enter_running();

    assert_eq!(task.on_reader_update(&StateUpdate::ButtonDown(17)), None);
    assert_eq!(
        task.on_reader_update(&StateUpdate::ButtonUp(15)),
        Some(SinkEvent::KeyUp { id: String::from("n4-S"), key: 0 })
    );
    assert_eq!(
        task.on_reader_update(&StateUpdate::EncoderDown(0)),
        Some(SinkEvent::EncoderDown { id: String::from("n4-S"), encoder: 0 })
    );
    assert_eq!(
        task.on_reader_update(&StateUpdate::EncoderTwist(0, -1)),
        Some(SinkEvent::EncoderChange { id: String::from("n4-S"), encoder: 0, delta: -1 })
    );
}

#[test]
fn failed_connect_runs_cleanup_and_never_registers() {
    let mut reg = Registry::new();
    let candidate = n4pro_candidate("GONE");
    reg.insert_signal(&candidate.id);
    let mut task = DeviceTask::start(candidate);
    task.on_connect_result(&mut reg, Some(&DeviceError::DeviceNotFound));
    assert_eq!(task.phase, TaskPhase::Terminated);
    assert!(!reg.contains_device(&String::from("n4-GONE")));
    assert!(reg.signals[0].fired);
}

#[test]
fn content_error_keeps_the_event_loop_running() {
    let mut reg = Registry::new();
    let mut task = DeviceTask::start(n4pro_candidate("S"));
    task.on_connect_result(&mut reg, None);
    task.on_init_result(&mut reg, None);
    task.enter_running();

    assert!(task.on_reader_error(&mut reg, &DeviceError::BadData));
    assert_eq!(task.phase, TaskPhase::Running);

    assert!(task.on_keepalive_error(&mut reg, &DeviceError::Image));
    assert_eq!(task.phase, TaskPhase::Running);

    assert!(!task.on_keepalive_error(&mut reg, &DeviceError::Hid));
    assert_eq!(task.phase, TaskPhase::ShuttingDown);
    assert!(!task.wants_shutdown_call(&reg));
    task.on_shutdown_complete();
    assert_eq!(task.phase, TaskPhase::Terminated);
}

#[test]
fn keepalive_stops_once_the_device_entry_is_gone() {
    let mut reg = Registry::new();
    let mut task = DeviceTask::start(n4pro_candidate("S"));
    task.on_connect_result(&mut reg, None);
    task.on_init_result(&mut reg, None);
    task.enter_running();

    assert!(task.on_keepalive_check(&reg));
    reg.remove_device(&String::from("n4-S"));
    assert!(!task.on_keepalive_check(&reg));
    assert_eq!(task.phase, TaskPhase::ShuttingDown);
}

#[test]
fn cancellation_moves_a_running_task_to_shutdown() {
    let mut reg = Registry::new();
    let mut task = DeviceTask::start(n4pro_candidate("S"));
    task.on_connect_result(&mut reg, None);
    task.on_init_result(&mut reg, None);
    task.enter_running();
    task.on_cancelled();
    assert_eq!(task.phase, TaskPhase::ShuttingDown);
    assert!(task.wants_shutdown_call(&reg), "entry still present during teardown");
}

#[test]
fn hot_plug_connect_spawns_once_per_device() {
    let mut reg = Registry::new();
    let d = DeviceDescriptor {
        vendor_id: 0x6603,
        product_id: 0x1007,
        serial_number: Some(String::from("N1")),
    };
    let spawned = on_device_connected(&mut reg, &d).expect("first plug spawns");
    assert_eq!(spawned.id, "n4-N1");
    assert_eq!(reg.signals.len(), 1);
    assert!(!reg.signals[0].fired);

    // Once the device task registered the handle, a duplicate event is skipped.
    reg.insert_device(&spawned.id);
    assert!(on_device_connected(&mut reg, &d).is_none());

    // A non-candidate is skipped too.
    let stranger =
        DeviceDescriptor { vendor_id: 0x1111, product_id: 0x2222, serial_number: Some(String::from("X")) };
    assert!(on_device_connected(&mut reg, &stranger).is_none());
}

#[test]
fn hot_unplug_fires_the_signal_removes_the_entry_and_deregisters() {
    // End to end: a registered device's serial disappears; its signal fires,
    // its registry entry goes away, and a deregistration is owed.
    let mut reg = Registry::new();
    let d = DeviceDescriptor {
        vendor_id: 0x0B00,
        product_id: 0x1003,
        serial_number: Some(String::from("M1")),
    };
    let spawned = on_device_connected(&mut reg, &d).expect("spawns");
    let mut task = DeviceTask::start(spawned);
    task.on_connect_result(&mut reg, None);
    task.on_init_result(&mut reg, None);
    task.enter_running();
    assert!(reg.contains_device(&String::from("n4-M1")));

    let out = on_device_disconnected(&mut reg, Some(&String::from("M1")));
    assert!(out.cancelled, "the signal must fire");
    assert!(out.deregister, "a deregistration call is owed");
    assert!(!reg.contains_device(&String::from("n4-M1")));
    assert_eq!(reg.signals.len(), 0);

    // The cancelled task winds down and touches nothing further.
    task.on_cancelled();
    assert!(!task.wants_shutdown_call(&reg));
    task.on_shutdown_complete();
    assert_eq!(task.phase, TaskPhase::Terminated);
}

#[test]
fn unplug_without_serial_is_ignored() {
    let mut reg = Registry::new();
    let id = String::from("n4-KEEP");
    reg.insert_signal(&id);
    reg.insert_device(&id);
    let out = on_device_disconnected(&mut reg, None);
    assert!(!out.cancelled);
    assert!(!out.deregister);
    assert!(reg.contains_device(&id));
    assert_eq!(reg.signals.len(), 1);
}
