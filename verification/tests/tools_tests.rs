use flow8_midi::analyze::{decode_name_ascii_skip, decode_name_msb7, restore_msb_byte};
use flow8_midi::app_config::{apply_to_controller, config_from_controller, AppConfig};
use flow8_midi::ble::{
    auth_packet, checksum, config_request_packet, dump_trigger_packet, frame_packet,
    parse_snapshot_names, session_start_packet, subscribe_retry_delay, BleStatus,
};
use flow8_midi::calibration::{build_calibration_steps, CalibPhase, CalibrationState, StepAction};
use flow8_midi::controller::{FLOW8Controller, SyncInterval};
use flow8_midi::digest::{
    build_ordered_labels, build_steps, collect_file_param_pairs, collect_param_pairs, dump_diffs,
    fmt_offsets, is_bool_param, offset_to_bit, sanitize_filename, try_extract_bool, union_sorted,
};
use flow8_midi::extract::{combinations, combinations_indexed, try_extract_from_5, try_extract_param};
use flow8_midi::hexfile::{parse_hex_dump, parse_hex_file};
use flow8_midi::logger::{LogBuffer, LogEntry, LogLevel, RING_BUFFER_CAPACITY};
use flow8_midi::midi_devices::{describe_port, find_flow8, is_flow8_ble_device, is_flow8_port, order_flow8_first};
use flow8_midi::sysex::format_hex_dump;
use flow8_midi::text::{text_contains, trim_end_matches};
use flow8_midi::tray::{TrayEvent, TrayManager};
use flow8_midi::widgets::{blink_on, format_comp, format_last_sync, format_percent, sync_recently_clicked};

#[test]
fn ble_packets_match_protocol() {
    assert_eq!(auth_packet(), vec![0x39, 0x01, 0xFD, 0x06, 0x2B, 0x06, 0x39, 0xF1, 0x7F, 0xE7, 0xB7, 0x27, 0x8B, 0x8F, 0x35, 0x5A, 0x49, 0x5C, 0x2A]);
    assert_eq!(session_start_packet(), vec![0x37, 0x01, 0x38]);
    assert_eq!(config_request_packet(), vec![0x07, 0x01, 0x08]);
    assert_eq!(dump_trigger_packet(), vec![0x4B, 0x01, 0x4C]);
    let p = frame_packet(0x10, &[0xFF, 0x02]);
    assert_eq!(p, vec![0x10, 0x01, 0xFF, 0x02, 0x12]);
    assert_eq!(checksum(&p[..4]), p[4]);
}

#[test]
fn snapshot_names_parsing() {
    let mut data = vec![0x27, 0x01, 3, b'A', b'b', b'c', 0, 2, b' ', b' ', 3, b' ', b'X', b' ', 2, 0xFF, 0xFE];
    data.push(0x00);
    let names = parse_snapshot_names(&data);
    assert_eq!(names, vec![Some("Abc".to_string()), None, None, Some("X".to_string()), None]);
    assert!(parse_snapshot_names(&[0x38, 0x01, 0x00]).is_empty());
    assert!(parse_snapshot_names(&[0x27, 0x01]).is_empty());
    // a slot that runs past the payload ends the list
    assert_eq!(parse_snapshot_names(&[0x27, 0x01, 1, b'Q', 5, b'a', 0]), vec![Some("Q".to_string())]);
    // white space around a name goes, a name of white space only is no name
    let spaced = [0x27, 0x01, 7, b' ', b'\t', b'M', b'i', b'x', 0xC2, 0xA0, 3, b' ', b'\n', b' ', 0];
    assert_eq!(parse_snapshot_names(&spaced), vec![Some("Mix".to_string()), None]);
}

#[test]
fn subscribe_retries_back_off() {
    assert_eq!(subscribe_retry_delay(0), Some(0));
    assert_eq!(subscribe_retry_delay(1), Some(500));
    assert_eq!(subscribe_retry_delay(2), Some(1000));
    assert_eq!(subscribe_retry_delay(3), None);
}

#[test]
fn snapshot_names_stop_at_fifteen() {
    let mut data = vec![0x27, 0x01];
    for _ in 0..20 {
        data.push(0);
    }
    data.push(0);
    assert_eq!(parse_snapshot_names(&data).len(), 15);
}

#[test]
fn ble_status_text() {
    assert_eq!(BleStatus::Authenticating.to_string(), "BT Authenticating...");
    assert!(BleStatus::Scanning.is_active());
    assert!(!BleStatus::Error.is_active());
}

#[test]
fn calibration_steps_shape() {
    let steps = build_calibration_steps();
    assert_eq!(steps.len(), 519);
    assert_eq!(steps[0].label, "baseline");
    assert_eq!(steps[1].label, "ch1_level_min");
    assert_eq!(steps[1].action, StepAction::SetParam { midi_ch: 0, cc: 7, value: 0 });
    assert_eq!(steps[2].label, "ch1_level_max");
    assert_eq!(steps[3].label, "ch2_level_min");
    assert_eq!(steps[211].label, "ch1_phantom_min");
    assert_eq!(steps[215].label, "main_level_min");
    assert_eq!(steps[215].action, StepAction::SetParam { midi_ch: 7, cc: 7, value: 0 });
    assert_eq!(steps[343].label, "fx1_preset_min");
    assert_eq!(steps[343].action, StepAction::SetPreset { midi_ch: 13, program: 0 });
    assert_eq!(steps[347].label, "restore_ch0_level");
    assert_eq!(steps[518].label, "final_state");
}

#[test]
fn calibration_state_machine() {
    let mut cal = CalibrationState::new();
    assert!(!cal.is_running());
    cal.start();
    assert!(cal.is_running());
    let a = cal.tick(0);
    assert!(a.trigger_dump);
    assert_eq!(cal.phase, CalibPhase::WaitingDump(0, 0));
    cal.on_dump_received(vec![1, 2, 3]);
    assert_eq!(cal.dumps.len(), 1);
    assert_eq!(cal.dumps[0].label, "baseline");
    assert_eq!(cal.phase, CalibPhase::SendCC(1));
    let a = cal.tick(100);
    assert_eq!(a.send_cc, Some((0, 7, 0)));
    assert_eq!(cal.phase, CalibPhase::Settling(1, 100));
    cal.tick(899);
    assert_eq!(cal.phase, CalibPhase::Settling(1, 100));
    cal.tick(900);
    assert_eq!(cal.phase, CalibPhase::RequestDump(1));
    cal.tick(1000);
    cal.tick(6000);
    assert_eq!(cal.phase, CalibPhase::SendCC(2));
    assert_eq!(cal.dumps.len(), 1);
}

#[test]
fn digest_labels_and_pairs() {
    let labels = build_ordered_labels();
    assert_eq!(labels.len(), 1 + 210 + 120 + 8 + 4 + 4 + 1);
    assert_eq!(labels[0], "baseline");
    assert_eq!(labels[211], "main_level_min");
    assert_eq!(labels[labels.len() - 1], "final_state");
    let pairs = collect_param_pairs(&labels);
    assert_eq!(pairs.len(), 173);
    assert_eq!(pairs[0].name, "ch1_level");
    assert_eq!(pairs[0].min_idx, 1);
    assert_eq!(pairs[0].max_idx, 2);
}

#[test]
fn file_pairs_carry_dumps() {
    let labels: Vec<String> = ["baseline", "x_min", "x_max", "y_min"].iter().map(|s| s.to_string()).collect();
    let dumps = vec![Some(vec![1]), None, Some(vec![3]), Some(vec![4])];
    let pairs = collect_file_param_pairs(&labels, &dumps);
    assert_eq!(pairs.len(), 1);
    assert_eq!(pairs[0].name, "x");
    assert_eq!(pairs[0].prev_dump, Some(vec![1]));
    assert_eq!(pairs[0].min_dump, None);
    assert_eq!(pairs[0].max_dump, Some(vec![3]));
}

#[test]
fn cli_steps() {
    let steps = build_steps();
    assert_eq!(steps.len(), 519);
    assert_eq!(steps[211].label, "main_level_min");
    assert!(steps[211].request_dump);
    assert_eq!(steps[339].label, "fx1_preset_min");
    assert_eq!(steps[339].send_pc, Some((13, 0)));
    assert_eq!(steps[343].label, "ch1_phantom_min");
    assert_eq!(steps[347].label, "restore_ch0_level");
    assert!(!steps[347].request_dump);
    assert!(steps[518].request_dump);
}

#[test]
fn diffs_and_offsets() {
    let mut a = vec![0u8; 40];
    let mut b = vec![0u8; 40];
    a[3] = 1;
    b[0x21] = 5;
    b[0x25] = 5;
    assert_eq!(dump_diffs(&a, &b), vec![0x21, 0x25]);
    assert_eq!(union_sorted(&vec![1, 4, 9], &vec![2, 4, 10]), vec![1, 2, 4, 9, 10]);
    assert_eq!(fmt_offsets(&[0x21, 0x1234]), "0x0021, 0x1234");
    assert_eq!(fmt_offsets(&[]), "");
    let mn = vec![0u8; 40];
    let mut mx = vec![0u8; 40];
    mx[0x21] = 1;
    let p = try_extract_bool(&[0x25, 0x21], &mn, &mx).unwrap();
    assert_eq!(p.offset, 0x21);
    assert!(!p.inverted);
    let q = try_extract_bool(&[0x21], &mx, &mn).unwrap();
    assert!(q.inverted);
    assert!(try_extract_bool(&[0x25], &mn, &mx).is_none());
}

#[test]
fn small_helpers() {
    assert_eq!(offset_to_bit(1), Some(0));
    assert_eq!(offset_to_bit(-1), Some(2));
    assert_eq!(offset_to_bit(-7), Some(8));
    assert_eq!(offset_to_bit(0), None);
    assert!(is_bool_param("ch1_mute"));
    assert!(!is_bool_param("ch1_level"));
    assert_eq!(sanitize_filename("ch5-6_level/min é"), "ch5-6_level_min_é");
    assert_eq!(trim_end_matches("x_min_min", "_min"), "x");
    assert!(text_contains("hello world", "o w"));
    assert!(!text_contains("hello", "world"));
}

#[test]
fn combinations_in_order() {
    assert_eq!(combinations(&[1, 2, 3], 2), vec![vec![1, 2], vec![1, 3], vec![2, 3]]);
    assert_eq!(combinations(&[1, 2], 3), Vec::<Vec<usize>>::new());
    assert_eq!(combinations(&[1, 2], 0), vec![Vec::<usize>::new()]);
    assert_eq!(combinations_indexed(&[(1, 0), (2, 1), (3, 2)], 2).len(), 3);
}

#[test]
fn float_location_found() {
    // carrier at 10, data at 11..15; the maximum dump holds 2.0 (00 00 00 40)
    let mut mn = vec![0u8; 20];
    let mut mx = vec![0u8; 20];
    mn[13] = 0x00;
    mn[10] = 0b0000_0100;
    mn[14] = 0x3F;
    mx[14] = 0x40;
    let offs = [10usize, 11, 12, 13, 14];
    let p = try_extract_from_5(&offs, &mn, &mx).expect("found");
    assert_eq!(p.msb_off, 10);
    assert_eq!(p.data_offs, [11, 12, 13, 14]);
    // the first fit leaves every high bit clear: 0.5 .. 2.0, carrier bits 0, 1, 3, 4
    assert_eq!(f32::from_bits(p.min_bits), 0.5);
    assert_eq!(f32::from_bits(p.max_bits), 2.0);
    assert_eq!(p.bit_indices, [0, 1, 3, 4]);
    let q = try_extract_param(&offs, &mn, &mx).unwrap();
    assert_eq!(q.msb_off, 10);
    assert!(try_extract_param(&[10, 11], &mn, &mx).is_none());
}

#[test]
fn hex_files_read_back() {
    let data: Vec<u8> = (0..=255u8).collect();
    let text = format_hex_dump(&data);
    assert_eq!(parse_hex_file(&text), Some(data.clone()));
    assert_eq!(parse_hex_dump(&text), data);
    assert_eq!(parse_hex_file(""), None);
    assert_eq!(parse_hex_file("no colon here\n"), None);
    assert_eq!(parse_hex_dump("no colon here\n0000: 0a +0B zz 100 | x\r\n"), vec![0x0A, 0x0B]);
}

#[test]
fn log_ring_buffer() {
    let mut log = LogBuffer::new();
    log.log("10:00:00.000".to_string(), "hello".to_string());
    log.log_with_level(LogLevel::Warn, "10:00:01.000".to_string(), "careful".to_string());
    assert_eq!(log.entry_count(), 2);
    let recent = log.get_recent_entries(1);
    assert_eq!(recent.len(), 1);
    assert_eq!(recent[0].to_string(), "[10:00:01.000] [WARN] careful");
    let report = log.export_log("OS: test");
    assert_eq!(report, "--- Debug Report ---\nOS: test\n\n[10:00:00.000] [INFO] hello\n[10:00:01.000] [WARN] careful\n--- End of Report ---\n");
    for i in 0..RING_BUFFER_CAPACITY {
        log.push_to_buffer(LogEntry { timestamp: String::new(), level: LogLevel::Debug, message: i.to_string() });
    }
    assert_eq!(log.entry_count(), RING_BUFFER_CAPACITY);
    assert_eq!(log.get_recent_entries(1)[0].message, (RING_BUFFER_CAPACITY - 1).to_string());
    assert_eq!(log.get_recent_entries(5000).len(), RING_BUFFER_CAPACITY);
}

#[test]
fn widget_texts() {
    assert_eq!(format_comp(150), "100%");
    assert_eq!(format_comp(42), "42%");
    assert_eq!(format_percent(127), "100%");
    assert_eq!(format_percent(100), "100%");
    assert_eq!(format_percent(50), "50%");
    assert_eq!(format_last_sync(None, 0), "Never synced");
    assert_eq!(format_last_sync(Some(1000), 50_000), "Last sync: less than 1m ago");
    assert_eq!(format_last_sync(Some(1000), 200_000), "Last sync: 3m ago");
    assert!(sync_recently_clicked(Some(100), 900));
    assert!(!sync_recently_clicked(Some(100), 1100));
    assert!(blink_on(2));
    assert!(!blink_on(3));
}

#[test]
fn midi_port_names() {
    assert!(is_flow8_port("Behringer FLOW 8"));
    assert!(is_flow8_port("flow 8 midi"));
    assert!(!is_flow8_port("FLOW8"));
    assert!(is_flow8_ble_device("Flow 8 LE"));
    let devices = vec![
        describe_port(0, "Other".to_string()),
        describe_port(1, "FLOW 8".to_string()),
        describe_port(2, "Synth".to_string()),
    ];
    assert_eq!(find_flow8(&devices), Some(1));
    let ordered = order_flow8_first(devices);
    let names: Vec<&str> = ordered.iter().map(|d| d.name.as_str()).collect();
    assert_eq!(names, vec!["FLOW 8", "Other", "Synth"]);
}

#[test]
fn settings_apply_and_store() {
    let mut c = FLOW8Controller::new();
    let config = AppConfig { theme: Some("Dark".to_string()), sync_interval: Some("5 min".to_string()), close_to_tray_on_close: Some(true) };
    apply_to_controller(&config, &mut c);
    assert_eq!(c.sync_interval, SyncInterval::Minutes5);
    assert!(c.close_to_tray_on_close);
    let bad = AppConfig { theme: None, sync_interval: Some("7 min".to_string()), close_to_tray_on_close: None };
    apply_to_controller(&bad, &mut c);
    assert_eq!(c.sync_interval, SyncInterval::Minutes5);
    let stored = config_from_controller(&c, "Light".to_string());
    assert_eq!(stored.sync_interval.as_deref(), Some("5 min"));
    assert_eq!(stored.theme.as_deref(), Some("Light"));
    assert_eq!(stored.close_to_tray_on_close, Some(true));
    let d = AppConfig::default();
    assert!(d.theme.is_none());
}

#[test]
fn name_decoders() {
    let mut d = vec![0u8; 40];
    d[20] = 0x01;
    d[21] = b'K';
    d[22] = b'i';
    d[23] = 0;
    let (name, bytes) = decode_name_msb7(&d, 20);
    assert_eq!(name, "Ki");
    assert_eq!(bytes, b"Ki".to_vec());
    assert_eq!(decode_name_ascii_skip(&d, 20), "Ki");
    assert_eq!(restore_msb_byte(&d, 21), Some(b'K'));
}

#[test]
fn tray_stub() {
    match TrayManager::new() {
        Err(e) => assert_eq!(e, "System tray is only supported on Windows in this implementation"),
        Ok(_) => panic!("no tray expected"),
    }
    assert_ne!(TrayEvent::RestoreRequested, TrayEvent::ExitRequested);
}
