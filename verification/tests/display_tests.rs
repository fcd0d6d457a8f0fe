use flow8_midi::widgets::{
    format_eq, format_gain, format_level, format_limiter, format_lowcut, format_pan, format_send,
    phantom_awaiting_confirm,
};

fn cc_to_range(cc: u8, min: f32, max: f32) -> f32 {
    min + (cc as f32 / 127.0) * (max - min)
}

fn float_level(cc: u8) -> String {
    if cc == 0 {
        return "OFF".to_string();
    }
    let db = -70.0 + ((cc as f32 - 1.0) / 126.0) * (10.0 - -70.0);
    format!("{:.1} dB", db)
}

fn float_pan(cc: u8) -> String {
    let pan = cc_to_range(cc, -1.0, 1.0);
    if pan.abs() < 0.02 {
        "C".to_string()
    } else if pan < 0.0 {
        format!("L {:.0}%", pan.abs() * 100.0)
    } else {
        format!("R {:.0}%", pan * 100.0)
    }
}

fn float_eq(cc: u8) -> String {
    let db = cc_to_range(cc, -15.0, 15.0);
    if db.abs() < 0.3 {
        "0 dB".to_string()
    } else {
        format!("{:+.1} dB", db)
    }
}

fn float_limiter(cc: u8) -> String {
    let db = cc_to_range(cc, -30.0, 0.0);
    if db.abs() < 0.3 {
        "0 dB".to_string()
    } else {
        format!("{:.1} dB", db)
    }
}

#[test]
fn level_matches_float_formula_for_every_midi_value() {
    for cc in 0u8..=127 {
        assert_eq!(format_level(cc), float_level(cc), "cc {}", cc);
        assert_eq!(format_send(cc), float_level(cc), "cc {}", cc);
    }
}

#[test]
fn gain_matches_float_formula_for_every_midi_value() {
    for cc in 0u8..=127 {
        assert_eq!(format_gain(cc), format!("{:.1} dB", cc_to_range(cc, -20.0, 60.0)), "cc {}", cc);
    }
}

#[test]
fn pan_matches_float_formula_for_every_midi_value() {
    for cc in 0u8..=127 {
        assert_eq!(format_pan(cc), float_pan(cc), "cc {}", cc);
    }
}

#[test]
fn eq_matches_float_formula_for_every_midi_value() {
    for cc in 0u8..=127 {
        assert_eq!(format_eq(cc), float_eq(cc), "cc {}", cc);
    }
}

#[test]
fn lowcut_matches_float_formula_for_every_midi_value() {
    for cc in 0u8..=127 {
        assert_eq!(format_lowcut(cc), format!("{:.0} Hz", cc_to_range(cc, 20.0, 600.0)), "cc {}", cc);
    }
}

#[test]
fn limiter_matches_float_formula_for_every_midi_value() {
    for cc in 0u8..=127 {
        assert_eq!(format_limiter(cc), float_limiter(cc), "cc {}", cc);
    }
}

#[test]
fn display_values_at_the_ends_of_the_ranges() {
    assert_eq!(format_level(0), "OFF");
    assert_eq!(format_level(1), "-70.0 dB");
    assert_eq!(format_level(127), "10.0 dB");
    assert_eq!(format_gain(0), "-20.0 dB");
    assert_eq!(format_gain(127), "60.0 dB");
    assert_eq!(format_pan(0), "L 100%");
    assert_eq!(format_pan(64), "C");
    assert_eq!(format_pan(127), "R 100%");
    assert_eq!(format_eq(0), "-15.0 dB");
    assert_eq!(format_eq(127), "+15.0 dB");
    assert_eq!(format_eq(63), "0 dB");
    assert_eq!(format_lowcut(0), "20 Hz");
    assert_eq!(format_lowcut(127), "600 Hz");
    assert_eq!(format_limiter(0), "-30.0 dB");
    assert_eq!(format_limiter(127), "0 dB");
}

#[test]
fn phantom_button_waits_half_a_second_for_confirmation() {
    assert!(!phantom_awaiting_confirm(None, 1000));
    assert!(phantom_awaiting_confirm(Some(1000), 1499));
    assert!(!phantom_awaiting_confirm(Some(1000), 1500));
    assert!(phantom_awaiting_confirm(Some(2000), 1000));
}
