use flow8_midi::calib_digest::{
    digest_text, file_digest_entry, float_search_offsets, generate_file_rust_tables, generate_rust_tables, DigestStyle,
    PairFinding, PairResult, SkipReason,
};
use flow8_midi::calibration::{CalibrationState, LabelledDump};
use flow8_midi::digest::{generate_rust_bool_tables, BoolExtractedParam, FileParamPair};
use flow8_midi::extract::ExtractedParam;

fn dump(label: &str, data: Vec<u8>) -> LabelledDump {
    LabelledDump { label: label.to_string(), data }
}

#[test]
fn report_lists_differences_against_baseline_and_previous_step() {
    let mut cal = CalibrationState::new();
    assert_eq!(cal.report_text(), None);
    let base = vec![0u8; 0x22];
    let mut changed = base.clone();
    changed[0x21] = 5;
    cal.dumps.push(dump("baseline", base));
    cal.dumps.push(dump("x", changed));
    let expected = "# SysEx Calibration Report\n\nBaseline: 34 bytes\nSteps: 2\n\n## x\n\n\
Data differences (excluding header): 1\n\n| Offset | Baseline | This |\n|--------|----------|------|\n\
| 0x0021 | 0x00 | 0x05 |\n\nIncremental diff (vs previous step): 1 bytes\n\n| Offset | Prev | This |\n\
|--------|------|------|\n| 0x0021 | 0x00 | 0x05 |\n\n";
    assert_eq!(cal.report_text().unwrap(), expected);
}

#[test]
fn report_notes_a_size_mismatch() {
    let mut cal = CalibrationState::new();
    cal.dumps.push(dump("baseline", vec![0u8; 0x22]));
    cal.dumps.push(dump("short", vec![0u8; 0x10]));
    let r = cal.report_text().unwrap();
    assert!(r.ends_with("## short\n\nSize mismatch: baseline=34, this=16\n\n"));
}

#[test]
fn report_header_bytes_are_ignored() {
    let mut cal = CalibrationState::new();
    let base = vec![0u8; 0x22];
    let mut changed = base.clone();
    changed[0x05] = 9;
    cal.dumps.push(dump("baseline", base));
    cal.dumps.push(dump("y", changed));
    assert!(cal.report_text().unwrap().ends_with("## y\n\nData differences (excluding header): 0\n\n"));
}

#[test]
fn digest_finds_a_mute_switch() {
    let mut cal = CalibrationState::new();
    let zeros = vec![0u8; 0x30];
    let mut on = zeros.clone();
    on[0x25] = 1;
    cal.dumps.push(dump("baseline", zeros.clone()));
    cal.dumps.push(dump("ch1_mute_min", zeros));
    cal.dumps.push(dump("ch1_mute_max", on));
    let entries = cal.digest_entries();
    assert_eq!(entries.len(), 1);
    assert_eq!(entries[0].name, "ch1_mute");
    match &entries[0].finding {
        PairFinding::Compared { min_diffs, max_diffs, union, result } => {
            assert!(min_diffs.is_empty());
            assert_eq!(max_diffs, &vec![0x25]);
            assert_eq!(union, &vec![0x25]);
            match result {
                PairResult::Switch(Some(p)) => {
                    assert_eq!(p.offset, 0x25);
                    assert!(!p.inverted);
                    assert_eq!(p.name, "ch1_mute");
                }
                other => panic!("unexpected {:?}", other),
            }
        }
        other => panic!("unexpected {:?}", other),
    }
    let text = digest_text(&entries, 3, &vec![String::new()], &vec![String::new()], DigestStyle::Calibration);
    assert!(text.starts_with(
        "# SysEx Calibration Digest\n\nAuto-extracted from 3 dumps (1 param pairs).\n\n## ch1_mute\n\n\
Min diff (0 bytes): \nMax diff (1 bytes): 0x0025\nUnion (1 offsets): 0x0025\n\nOK (bool): offset=0x0025\n\n\
---\n\n# Generated Rust Code\n\n```rust\n// 0/7 extracted\nconst CHANNEL_LEVELS: [FloatParam; 7] = [\n    // MISSING: ch1_level\n"
    ));
    assert!(text.contains("\n# Boolean Parameters\n\n```rust\n// 1/7 extracted\nconst CHANNEL_MUTES: [BoolParam; 7] = [\n    BoolParam { offset: 0x0025, inverted: false }, // ch1\n"));
    assert!(!text.contains("Failed Extractions"));
}

#[test]
fn digest_reports_too_few_offsets_and_bad_indices() {
    let mut cal = CalibrationState::new();
    let zeros = vec![0u8; 0x30];
    let mut one = zeros.clone();
    one[0x28] = 3;
    cal.dumps.push(dump("baseline", zeros.clone()));
    cal.dumps.push(dump("ch1_level_min", zeros));
    cal.dumps.push(dump("ch1_level_max", one));
    let entries = cal.digest_entries();
    assert!(matches!(entries[0].finding, PairFinding::Compared { result: PairResult::OffsetCount(1), .. }));
    let text = digest_text(&entries, 3, &vec![String::new()], &vec![String::new()], DigestStyle::Calibration);
    assert!(text.contains("WARNING: Expected ~5 offsets, got 1. Skipping.\n\n"));
    assert!(text.ends_with("\n# Failed Extractions\n\n- ch1_level\n"));
}

#[test]
fn file_digest_skips_missing_dumps() {
    let pair = FileParamPair { name: "ch1_gain".to_string(), prev_dump: None, min_dump: None, max_dump: None };
    assert!(float_search_offsets(&pair).is_none());
    let e = file_digest_entry(&pair, None);
    assert!(matches!(e.finding, PairFinding::Skipped(SkipReason::NoPrevious)));
    let pair2 = FileParamPair {
        name: "ch1_gain".to_string(),
        prev_dump: Some(vec![0u8; 0x30]),
        min_dump: Some(vec![0u8; 0x30]),
        max_dump: None,
    };
    assert!(matches!(file_digest_entry(&pair2, None).finding, PairFinding::Skipped(SkipReason::MissingMax)));
    let text = digest_text(&vec![e], 0, &vec![String::new()], &vec![String::new()], DigestStyle::Files);
    assert!(text.starts_with("# SysEx Calibration Digest\n\nExtracted from 0 dumps (1 param pairs).\n\n## ch1_gain\n\nSKIP: No previous dump available\n\n---\n\n# Generated Rust Code\n\nCopy these tables into `src/sysex_parser.rs`.\n\n"));
    assert!(text.ends_with("\n# Failed Extractions (1/1)\n\n- ch1_gain\n"));
}

#[test]
fn file_digest_hands_changed_offsets_to_the_float_search() {
    let zeros = vec![0u8; 0x30];
    let mut mn = zeros.clone();
    mn[0x22] = 1;
    let mut mx = mn.clone();
    mx[0x21] = 2;
    let pair = FileParamPair { name: "ch2_gain".to_string(), prev_dump: Some(zeros.clone()), min_dump: Some(mn), max_dump: Some(mx) };
    assert_eq!(float_search_offsets(&pair), Some(vec![0x21, 0x22]));
    let found = ExtractedParam {
        name: String::new(),
        msb_off: 0x20,
        data_offs: [0x21, 0x22, 0x23, 0x24],
        bit_indices: [0, 1, 2, 3],
        min_bits: 0,
        max_bits: 0x3F80_0000,
    };
    let e = file_digest_entry(&pair, Some(found));
    match &e.finding {
        PairFinding::Compared { result: PairResult::Float(Some(p)), .. } => {
            assert_eq!(p.name, "ch2_gain");
            assert_eq!(p.msb_off, 0x20);
        }
        other => panic!("unexpected {:?}", other),
    }
    let text = digest_text(&vec![e], 3, &vec!["0.0000 .. 1.0000".to_string()], &vec!["0.0..1.0".to_string()], DigestStyle::Files);
    assert!(text.contains("OK: msb=0x0020 data=[0x0021, 0x0022, 0x0023, 0x0024] bits=[0, 1, 2, 3]\n   float range: 0.0000 .. 1.0000\n\n"));
    assert!(text.contains("// 1/7 extracted\nconst CHANNEL_GAINS: [FloatParam; 7] = [\n    // MISSING: ch1_gain\n    FloatParam { msb_off: 0x0020, data_offs: [0x0021, 0x0022, 0x0023, 0x0024], bit_indices: [0, 1, 2, 3] }, // ch2 (0.0..1.0)\n"));
    let mut mute = pair;
    mute.name = "ch2_mute".to_string();
    assert!(float_search_offsets(&mute).is_none());
}

#[test]
fn float_tables_list_every_target() {
    let code = generate_rust_tables(&[], &[]);
    assert!(code.starts_with("```rust\n// 0/7 extracted\nconst CHANNEL_LEVELS: [FloatParam; 7] = [\n    // MISSING: ch1_level\n"));
    assert!(code.ends_with("const BUS_LIMITERS: [FloatParam; 5] = [\n    // MISSING: main_limiter\n    // MISSING: mon1_limiter\n    // MISSING: mon2_limiter\n    // MISSING: fx1_limiter\n    // MISSING: fx2_limiter\n];\n```\n\n"));
    assert_eq!(code.matches("```rust").count(), 16);
}

#[test]
fn file_float_tables_list_buses_bands_and_effects() {
    let code = generate_file_rust_tables(&[], &[]);
    assert_eq!(code.matches("```rust").count(), 28);
    let levels = code.find("const BUS_LEVELS: [FloatParam; 5]").unwrap();
    let limiters = code.find("const BUS_LIMITERS: [FloatParam; 5]").unwrap();
    let balances = code.find("const BUS_BALANCES: [FloatParam; 5]").unwrap();
    assert!(levels < limiters && limiters < balances);
    assert!(code.contains("```rust\n// 0/5 extracted\nconst NINE_BAND_62HZ: [FloatParam; 5] = [\n    // MISSING: main_9band_62hz\n"));
    assert!(code.contains("const NINE_BAND_16KHZ: [FloatParam; 5] = [\n"));
    assert!(code.ends_with("```rust\n// 0/2 extracted\nconst FX_PRESETS: [FloatParam; 2] = [\n    // MISSING: fx1_preset\n    // MISSING: fx2_preset\n];\n```\n\n"));
    let found = ExtractedParam {
        name: "mon1_9band_1khz".to_string(),
        msb_off: 0x40,
        data_offs: [0x41, 0x42, 0x43, 0x44],
        bit_indices: [0, 1, 2, 3],
        min_bits: 0,
        max_bits: 0x3F80_0000,
    };
    let code = generate_file_rust_tables(&[found], &["-12.0..12.0".to_string()]);
    assert!(code.contains("// 1/5 extracted\nconst NINE_BAND_1KHZ: [FloatParam; 5] = [\n    // MISSING: main_9band_1khz\n    FloatParam { msb_off: 0x0040, data_offs: [0x0041, 0x0042, 0x0043, 0x0044], bit_indices: [0, 1, 2, 3] }, // mon1 (-12.0..12.0)\n"));
    let text = digest_text(&vec![], 3, &vec![], &vec![], DigestStyle::Files);
    assert!(text.contains("const NINE_BAND_62HZ: [FloatParam; 5]"));
    assert!(text.contains("const FX_PARAM1: [FloatParam; 2]"));
}

#[test]
fn bool_tables_mark_inverted_switches() {
    let params = vec![BoolExtractedParam { name: "ch2_phantom".to_string(), offset: 0x1234, inverted: true }];
    let code = generate_rust_bool_tables(&params);
    assert!(code.ends_with("```rust\n// 1/2 extracted\nconst CHANNEL_PHANTOMS: [BoolParam; 2] = [\n    // MISSING: ch1_phantom\n    BoolParam { offset: 0x1234, inverted: true }, // inverted // ch2\n];\n```\n\n"));
}

#[test]
fn hex_dump_files_read_back_as_the_dump() {
    for len in [1usize, 15, 16, 17, 33, 300] {
        let data: Vec<u8> = (0..len).map(|i| (i * 37 % 256) as u8).collect();
        let text = flow8_midi::sysex::format_hex_dump(&data);
        assert_eq!(flow8_midi::hexfile::parse_hex_file(&text), Some(data.clone()));
        assert_eq!(flow8_midi::hexfile::parse_hex_dump(&text), data);
    }
    let special = vec![b'|', b':', b'\n', b'\r', 0x7C, 0x3A, 0xFF, 0x00];
    let text = flow8_midi::sysex::format_hex_dump(&special);
    assert_eq!(flow8_midi::hexfile::parse_hex_file(&text), Some(special));
    assert_eq!(flow8_midi::hexfile::parse_hex_file(&flow8_midi::sysex::format_hex_dump(&[])), None);
}
