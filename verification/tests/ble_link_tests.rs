use flow8_midi::ble::{count_dump_chunk, pick_flow8_device, snapshot_response, ScannedDevice, STATE_DUMP_CHUNKS};

fn dev(name: Option<&str>, svc: bool) -> ScannedDevice {
    ScannedDevice { local_name: name.map(|s| s.to_string()), advertises_service: svc }
}

#[test]
fn scan_takes_the_first_device_named_flow_or_advertising_the_service() {
    let devices = vec![dev(None, false), dev(Some("Speaker"), false), dev(Some("flow 8 le"), false), dev(None, true)];
    assert_eq!(pick_flow8_device(&devices), Some(2));
    let by_service = vec![dev(Some("Speaker"), false), dev(None, true)];
    assert_eq!(pick_flow8_device(&by_service), Some(1));
    assert_eq!(pick_flow8_device(&vec![dev(Some("Speaker"), false)]), None);
    assert_eq!(pick_flow8_device(&vec![]), None);
}

#[test]
fn dump_wait_ends_after_four_state_chunks() {
    let mut chunks = 0u32;
    let mut done = false;
    for (i, n) in [vec![0x38u8, 1], vec![0x27], vec![], vec![0x38], vec![0x38], vec![0x38]].iter().enumerate() {
        let (c, d) = count_dump_chunk(chunks, n);
        chunks = c;
        done = d;
        if done {
            assert_eq!(i, 5);
            break;
        }
    }
    assert!(done);
    assert_eq!(chunks, STATE_DUMP_CHUNKS);
}

#[test]
fn only_a_names_answer_carries_snapshot_names() {
    assert!(snapshot_response(&[0x38, 0x01]).is_none());
    assert!(snapshot_response(&[]).is_none());
    let payload = [0x27u8, 0x01, 0x03, b'A', b'b', b'c', 0x00, 0x00];
    let names = snapshot_response(&payload).unwrap();
    assert_eq!(names[0], Some("Abc".to_string()));
    assert_eq!(names[1], None);
}
