use flow8_midi::controller::FLOW8Controller;
use flow8_midi::dump::{apply_dump_to_controller, float_readings, float_slot_of, CcScale, FloatTarget, FLOAT_SLOT_COUNT};
use flow8_midi::sysex::{
    decode_float_bits, decode_lowcut, decode_sysex_name, format_hex_dump, lowcut_hz_to_cc,
    restore_sysex_byte, validate_sysex_dump, FloatParam, LowCutParam,
};

fn valid_dump(len: usize) -> Vec<u8> {
    let mut d = vec![0u8; len];
    d[0] = 0xF0;
    d[1] = 0x00;
    d[2] = 0x20;
    d[3] = 0x32;
    d[4] = 0x21;
    d[len - 1] = 0xF7;
    d
}

#[test]
fn validate_accepts_flow8_dump() {
    let d = valid_dump(120);
    let dump = validate_sysex_dump(&d).expect("valid");
    assert_eq!(dump.raw, d);
}

#[test]
fn validate_rejects_each_fault() {
    assert!(validate_sysex_dump(&valid_dump(99)).is_none());
    let mut d = valid_dump(120);
    d[0] = 0xF1;
    assert!(validate_sysex_dump(&d).is_none());
    let mut d = valid_dump(120);
    d[119] = 0;
    assert!(validate_sysex_dump(&d).is_none());
    let mut d = valid_dump(120);
    d[2] = 0x21;
    assert!(validate_sysex_dump(&d).is_none());
    let mut d = valid_dump(120);
    d[4] = 0x22;
    assert!(validate_sysex_dump(&d).is_none());
}

#[test]
fn restore_bytes() {
    let mut d = vec![0u8; 20];
    d[5] = 0b0000_0101;
    d[6] = 0x11;
    d[7] = 0x22;
    d[8] = 0x33;
    assert_eq!(restore_sysex_byte(&d, 5), None);
    assert_eq!(restore_sysex_byte(&d, 6), Some(0x91));
    assert_eq!(restore_sysex_byte(&d, 7), Some(0x22));
    assert_eq!(restore_sysex_byte(&d, 8), Some(0xB3));
    assert_eq!(restore_sysex_byte(&d, 1), Some(0));
}

#[test]
fn decode_name_skips_metadata() {
    let mut d = vec![0u8; 40];
    // positions 20..34: byte 26 is a carrier (26 + 2 = 28 = 4 * 7)
    d[20] = 0x01;
    d[21] = b'V';
    d[22] = b'o';
    d[23] = b'x';
    d[24] = 0;
    assert_eq!(decode_sysex_name(&d, 20), "Vox");
}

#[test]
fn lowcut_decoding_and_scaling() {
    let d = vec![0x14u8, 0x01, 0, 0];
    assert_eq!(decode_lowcut(&d, &LowCutParam { lo_off: 0, hi_off: 1 }), Some(0x14 + 128));
    assert_eq!(decode_lowcut(&d, &LowCutParam { lo_off: 0, hi_off: 4 }), None);
    assert_eq!(lowcut_hz_to_cc(20), 0);
    assert_eq!(lowcut_hz_to_cc(600), 127);
    assert_eq!(lowcut_hz_to_cc(310), 64);
    assert_eq!(lowcut_hz_to_cc(10), 0);
    assert_eq!(lowcut_hz_to_cc(2000), 127);
}

#[test]
fn lowcut_matches_float_rounding_everywhere() {
    for hz in 0u16..=1000 {
        let clamped = hz.clamp(20, 600);
        let ratio = (clamped - 20) as f32 / 580.0f32;
        let expected = (ratio * 127.0).round() as u8;
        assert_eq!(lowcut_hz_to_cc(hz), expected, "hz = {}", hz);
    }
}

#[test]
fn float_bits_with_high_bits() {
    // 1.0f32 = 0x3F80_0000: bytes 00 00 80 3F; the 0x80 byte needs its high bit.
    let mut d = vec![0u8; 8];
    d[0] = 0b0000_0100;
    d[1] = 0x00;
    d[2] = 0x00;
    d[3] = 0x00;
    d[4] = 0x3F;
    let p = FloatParam { msb_off: 0, data_offs: [1, 2, 3, 4], bit_indices: [0, 1, 2, 3] };
    assert_eq!(decode_float_bits(&d, &p), Some(0x3F80_0000));
    assert_eq!(f32::from_bits(0x3F80_0000), 1.0);
    let mut inf = d.clone();
    inf[4] = 0x7F;
    inf[0] = 0b0000_1100;
    assert_eq!(decode_float_bits(&inf, &p), None);
}

#[test]
fn hex_dump_format() {
    let data: Vec<u8> = (0u8..20).chain([b'A', b'z'].into_iter()).collect();
    let text = format_hex_dump(&data);
    let lines: Vec<&str> = text.lines().collect();
    assert_eq!(lines.len(), 2);
    assert_eq!(lines[0], "0000: 00 01 02 03 04 05 06 07 08 09 0A 0B 0C 0D 0E 0F  | ................");
    let second = format!("0010: {:48} | ....Az", "10 11 12 13 41 7A");
    assert_eq!(lines[1], second);
    assert!(format_hex_dump(&[]).is_empty());
}

#[test]
fn slots_cover_all_parameters() {
    assert_eq!(FLOAT_SLOT_COUNT, 142);
    assert_eq!(float_slot_of(0).target, FloatTarget::ChannelLevel);
    assert_eq!(float_slot_of(13).target, FloatTarget::ChannelGain);
    assert_eq!(float_slot_of(13).index, 6);
    assert_eq!(float_slot_of(96).target, FloatTarget::BusLimiter);
    assert_eq!(float_slot_of(141).target, FloatTarget::BusBand(8));
    assert_eq!(float_slot_of(141).index, 4);
}

#[test]
fn apply_dump_sets_values() {
    let mut c = FLOW8Controller::new();
    let mut d = valid_dump(3100);
    // channel 1 mute, channel 1 phantom, FX 1 preset 3 with parameters
    d[0x04CC] = 1;
    d[0x0737] = 1;
    d[0x0BC9] = 3;
    d[0x0BC5] = 50;
    d[0x0BC6] = 100;
    let dump = validate_sysex_dump(&d).unwrap();
    let readings = float_readings(&dump, &c);
    // every float in a zero dump is 0.0, finite: all enabled slots read
    assert!(readings.iter().all(|r| r.bits == 0));
    assert!(readings.iter().any(|r| r.scale == CcScale::Decibels));
    let mut ccs: Vec<Option<u8>> = vec![None; FLOAT_SLOT_COUNT];
    ccs[0] = Some(77);
    ccs[13] = Some(9);
    apply_dump_to_controller(&dump, &mut c, &ccs);
    assert_eq!(c.channels[0].channel_strip.level, 77);
    assert!(c.channels[0].channel_strip.level_synced);
    assert!(!c.channels[6].channel_strip.gain_synced);
    assert!(c.channels[0].is_muted);
    assert!(c.channels[0].mute_synced);
    assert!(c.channels[0].phantom_pwr.is_on);
    assert!(!c.channels[1].is_muted);
    assert_eq!(c.fx_slots[0].preset, 2);
    assert_eq!(c.fx_slots[0].param1, 63);
    assert_eq!(c.fx_slots[0].param2, 127);
    assert_eq!(c.channels[0].channel_strip.low_cut, 0);
    assert!(c.channels[0].channel_strip.low_cut_synced);
    assert!(c.channels[0].name_synced);
    assert_eq!(c.last_sysex_dump, Some(d));
}

#[test]
fn complete_dump_leaves_the_interface_synced() {
    let mut c = FLOW8Controller::new();
    assert!(!c.is_globally_synced());
    let mut d = valid_dump(0x0C00);
    d[0x0BC9] = 3;
    d[0x0BD1] = 5;
    let dump = validate_sysex_dump(&d).expect("valid");
    let readings = float_readings(&dump, &c);
    let mut ccs = vec![None; FLOAT_SLOT_COUNT];
    for r in &readings {
        ccs[r.slot] = Some(64);
    }
    apply_dump_to_controller(&dump, &mut c, &ccs);
    assert!(c.is_globally_synced());
    assert_eq!(c.fx_slots[0].preset, 2);
    assert_eq!(c.fx_slots[1].preset, 4);
}

#[test]
fn short_dump_leaves_parameters_unsynced() {
    let mut c = FLOW8Controller::new();
    let dump = validate_sysex_dump(&valid_dump(120)).expect("valid");
    let ccs = vec![None; FLOAT_SLOT_COUNT];
    apply_dump_to_controller(&dump, &mut c, &ccs);
    assert!(!c.is_globally_synced());
}
