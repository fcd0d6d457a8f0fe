use vstd::prelude::*;
use vstd::string::StringExecFns;

use crate::controller::millis_since;
use crate::text::{decimal, push_decimal};

verus! {

/// A compressor amount as a percentage: the MIDI value, at most 100.
pub fn format_comp(cc: u8) -> (s: String)
    ensures
        s@ == decimal((if cc < 100 { cc } else { 100 }) as nat) + "%"@,
{
    let pct = if cc < 100 {
        cc
    } else {
        100
    };
    let mut s = String::new();
    push_decimal(&mut s, pct as u64);
    s.append("%");
    s
}

/// An FX parameter value as a percentage: the MIDI value, at most 100 (101 to 127 mean 100%).
pub fn format_percent(cc: u8) -> (s: String)
    ensures
        s@ == decimal((if cc < 100 { cc } else { 100 }) as nat) + "%"@,
{
    let pct = if cc < 100 {
        cc
    } else {
        100
    };
    let mut s = String::new();
    push_decimal(&mut s, pct as u64);
    s.append("%");
    s
}

/// How long ago the last sync was, as the navigation bar says it.
pub open spec fn last_sync_text(last_sync: Option<u64>, now: u64) -> Seq<char> {
    match last_sync {
        None => "Never synced"@,
        Some(t) => {
            let secs = millis_since(t, now) / 1000;
            if secs < 60 {
                "Last sync: less than 1m ago"@
            } else {
                "Last sync: "@ + decimal((secs / 60) as nat) + "m ago"@
            }
        },
    }
}

pub fn format_last_sync(last_sync: Option<u64>, now: u64) -> (s: String)
    ensures
        s@ == last_sync_text(last_sync, now),
{
    match last_sync {
        None => String::from_str("Never synced"),
        Some(t) => {
            let secs = now.saturating_sub(t) / 1000;
            if secs < 60 {
                String::from_str("Last sync: less than 1m ago")
            } else {
                let mut s = String::from_str("Last sync: ");
                push_decimal(&mut s, secs / 60);
                s.append("m ago");
                s
            }
        },
    }
}

/// Whether the sync button was clicked less than a second before `now` (it then stays
/// highlighted).
pub fn sync_recently_clicked(last_click: Option<u64>, now: u64) -> (r: bool)
    ensures
        r == (last_click matches Some(t) && millis_since(t, now) < 1000),
{
    match last_click {
        Some(t) => now.saturating_sub(t) < 1000,
        None => false,
    }
}

/// Whether a 48V button waits for its confirming click: its first click was less than the
/// double click time before `now`.
pub fn phantom_awaiting_confirm(last_click: Option<u64>, now: u64) -> (r: bool)
    ensures
        r == (last_click matches Some(t) && millis_since(t, now) < crate::controller::DOUBLE_CLICK_MS),
{
    match last_click {
        Some(t) => now.saturating_sub(t) < crate::controller::DOUBLE_CLICK_MS,
        None => false,
    }
}

/// Whether the blinking Bluetooth light is lit at this tick: three ticks on, two off.
pub fn blink_on(tick_counter: u32) -> (r: bool)
    ensures
        r == (tick_counter % 5 < 3),
{
    tick_counter % 5 < 3
}


// ── MIDI values shown as the mixer's units ────────────────────────────────
// The ranges are those of the mixer's MIDI implementation chart. Each display value is
// `min + cc / cc_max * (max - min)` rounded to the digits shown; none of the 128 MIDI
// values lands on a tie between two roundings, so the nearest integer of the exact
// fraction is the rounding.

/// The integer nearest to `n / d`, halves rounded up.
pub open spec fn nearest(n: nat, d: nat) -> int {
    ((2 * n + d) / (2 * d)) as int
}

/// A value in tenths written with one decimal, with a minus sign when negative.
pub open spec fn tenths_text(t: int) -> Seq<char> {
    let a = if t < 0 { -t } else { t };
    (if t < 0 { "-"@ } else { seq![] }) + decimal((a / 10) as nat) + "."@ + decimal((a % 10) as nat)
}

/// The level of a fader in tenths of a dB: 1..=127 spread over -70..=+10 dB.
pub open spec fn level_tenths(cc: u8) -> int {
    -700 + nearest((400 * (cc - 1)) as nat, 63)
}

pub open spec fn gain_tenths(cc: u8) -> int {
    -200 + nearest((800 * cc) as nat, 127)
}

pub open spec fn eq_tenths(cc: u8) -> int {
    -150 + nearest((300 * cc) as nat, 127)
}

pub open spec fn limiter_tenths(cc: u8) -> int {
    -300 + nearest((300 * cc) as nat, 127)
}

fn round_div(n: u32, d: u32) -> (r: u32)
    requires
        0 < d <= 1000,
        n <= 1_000_000,
    ensures
        r == nearest(n as nat, d as nat),
        r <= n + 1,
{
    let r = (2 * n + d) / (2 * d);
    assert(r <= n + 1) by (nonlinear_arith)
        requires
            r == (2 * n + d) / (2 * d),
            d > 0,
            n >= 0,
    ;
    r
}

fn push_tenths(out: &mut String, t: i32)
    requires
        -1_000_000 <= t <= 1_000_000,
    ensures
        final(out)@ == old(out)@ + tenths_text(t as int),
{
    let a: u32 = if t < 0 {
        out.append("-");
        (-t) as u32
    } else {
        t as u32
    };
    push_decimal(out, (a / 10) as u64);
    out.append(".");
    push_decimal(out, (a % 10) as u64);
}

/// A fader or send level: "OFF" at 0, else dB with one decimal.
pub fn format_level(cc: u8) -> (s: String)
    ensures
        s@ == (if cc == 0 { "OFF"@ } else { tenths_text(level_tenths(cc)) + " dB"@ }),
{
    if cc == 0 {
        return String::from_str("OFF");
    }
    let t = round_div(400 * (cc as u32 - 1), 63) as i32 - 700;
    let mut s = String::new();
    push_tenths(&mut s, t);
    s.append(" dB");
    s
}

/// An input gain in dB, -20..=+60.
pub fn format_gain(cc: u8) -> (s: String)
    ensures
        s@ == tenths_text(gain_tenths(cc)) + " dB"@,
{
    let t = round_div(800 * cc as u32, 127) as i32 - 200;
    let mut s = String::new();
    push_tenths(&mut s, t);
    s.append(" dB");
    s
}

/// A pan position: "C" near the centre, else the side and its percentage.
pub open spec fn pan_text(cc: u8) -> Seq<char> {
    if cc == 63 || cc == 64 {
        "C"@
    } else if cc < 63 {
        "L "@ + decimal(nearest((100 * (127 - 2 * cc)) as nat, 127) as nat) + "%"@
    } else {
        "R "@ + decimal(nearest((100 * (2 * cc - 127)) as nat, 127) as nat) + "%"@
    }
}

pub fn format_pan(cc: u8) -> (s: String)
    ensures
        s@ == pan_text(cc),
{
    if cc == 63 || cc == 64 {
        return String::from_str("C");
    }
    let mut s = String::new();
    if cc < 63 {
        s.append("L ");
        push_decimal(&mut s, round_div(100 * (127 - 2 * cc as u32), 127) as u64);
    } else {
        s.append("R ");
        push_decimal(&mut s, round_div(100 * (2 * cc as u32 - 127), 127) as u64);
    }
    s.append("%");
    s
}

/// An equaliser band's gain: "0 dB" near zero, else signed dB with one decimal.
pub open spec fn eq_text(cc: u8) -> Seq<char> {
    if cc == 63 || cc == 64 {
        "0 dB"@
    } else if cc < 63 {
        tenths_text(eq_tenths(cc)) + " dB"@
    } else {
        "+"@ + tenths_text(eq_tenths(cc)) + " dB"@
    }
}

pub fn format_eq(cc: u8) -> (s: String)
    ensures
        s@ == eq_text(cc),
{
    if cc == 63 || cc == 64 {
        return String::from_str("0 dB");
    }
    let mut s = String::new();
    if cc > 64 {
        s.append("+");
    }
    let t = round_div(300 * cc as u32, 127) as i32 - 150;
    push_tenths(&mut s, t);
    s.append(" dB");
    s
}

/// A low-cut frequency in whole Hz, 20..=600.
pub fn format_lowcut(cc: u8) -> (s: String)
    ensures
        s@ == decimal((20 + nearest((580 * cc) as nat, 127)) as nat) + " Hz"@,
{
    let mut s = String::new();
    push_decimal(&mut s, 20 + round_div(580 * cc as u32, 127) as u64);
    s.append(" Hz");
    s
}

/// A send level, shown as a fader level is.
pub fn format_send(cc: u8) -> (s: String)
    ensures
        s@ == (if cc == 0 { "OFF"@ } else { tenths_text(level_tenths(cc)) + " dB"@ }),
{
    format_level(cc)
}

/// A limiter threshold: "0 dB" at the top, else dB with one decimal, -30..=0.
pub fn format_limiter(cc: u8) -> (s: String)
    ensures
        s@ == (if cc >= 126 { "0 dB"@ } else { tenths_text(limiter_tenths(cc)) + " dB"@ }),
{
    if cc >= 126 {
        return String::from_str("0 dB");
    }
    let t = round_div(300 * cc as u32, 127) as i32 - 300;
    let mut s = String::new();
    push_tenths(&mut s, t);
    s.append(" dB");
    s
}


proof fn lemma_nearest(n: nat, d: nat)
    requires
        d > 0,
    ensures
        -(d as int) < 2 * d * nearest(n, d) - 2 * n <= d,
{
    let x = (2 * n + d) as int;
    let m = (2 * d) as int;
    vstd::arithmetic::div_mod::lemma_fundamental_div_mod(x, m);
    assert(x == m * (x / m) + x % m);
    assert(0 <= x % m < m);
    assert(nearest(n, d) == x / m);
}

/// Every value the interface shows is the nearest one, in the digits shown, to the value
/// the mixer's chart gives the MIDI value: a fader (1..127) spans -70..+10 dB, a gain
/// -20..+60 dB, an EQ band -15..+15 dB, a limiter -30..0 dB (all in tenths of a dB), a
/// low cut 20..600 Hz, and a pan 100 % left to 100 % right; a compressor or an effect
/// parameter is its MIDI value in percent, at most 100.
pub proof fn law_display_values_follow_chart(cc: u8)
    ensures
        cc >= 1 ==> -63 < 2 * (63 * (level_tenths(cc) + 700) - 400 * (cc - 1)) <= 63,
        -127 < 2 * (127 * (gain_tenths(cc) + 200) - 800 * cc) <= 127,
        -127 < 2 * (127 * (eq_tenths(cc) + 150) - 300 * cc) <= 127,
        -127 < 2 * (127 * (limiter_tenths(cc) + 300) - 300 * cc) <= 127,
        -127 < 2 * (127 * nearest((580 * cc) as nat, 127) - 580 * cc) <= 127,
        cc < 63 ==> -127 < 2 * (127 * nearest((100 * (127 - 2 * cc)) as nat, 127) - 100 * (127 - 2 * cc)) <= 127,
        cc > 64 ==> -127 < 2 * (127 * nearest((100 * (2 * cc - 127)) as nat, 127) - 100 * (2 * cc - 127)) <= 127,
{
    if cc >= 1 {
        lemma_nearest((400 * (cc - 1)) as nat, 63);
    }
    lemma_nearest((800 * cc) as nat, 127);
    lemma_nearest((300 * cc) as nat, 127);
    lemma_nearest((580 * cc) as nat, 127);
    if cc < 63 {
        lemma_nearest((100 * (127 - 2 * cc)) as nat, 127);
    }
    if cc > 64 {
        lemma_nearest((100 * (2 * cc - 127)) as nat, 127);
    }
}
} // verus!
