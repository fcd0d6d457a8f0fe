use vstd::prelude::*;
use vstd::string::StringExecFns;

use crate::calibration::{
    push_section, section_steps, steps_view, CalibStep, CalibrationState, LabelledDump, Section,
    StepAction,
};
use crate::text::{
    decimal, ends_with, push_hex_padded, hex_padded, starts_with, text_ends_with, text_starts_with,
    trim_end_all, trim_end_matches,
};

verus! {

// ── Dump names ──────────────────────────────────────────────────────────

/// Whether a character is a letter or a digit in Unicode's sense (`char::is_alphanumeric`).
pub uninterp spec fn alphanumeric(c: char) -> bool;

/// Classifies a character with `char::is_alphanumeric`. Trusted: the result is the named
/// property of the character (Unicode's Alphabetic or Numeric); which characters have it
/// is not stated.
#[verifier::external_body]
fn is_alphanumeric(c: char) -> (r: bool)
    ensures
        r == alphanumeric(c),
{
    c.is_alphanumeric()
}

/// A label made safe as a file name: letters, digits, '-' and '_' are kept, anything else
/// becomes '_'.
pub open spec fn sanitized(s: Seq<char>) -> Seq<char> {
    s.map_values(|c: char| if alphanumeric(c) || c == '-' || c == '_' { c } else { '_' })
}

pub fn sanitize_filename(s: &str) -> (r: String)
    ensures
        r@ == sanitized(s@),
{
    let n = s.unicode_len();
    let mut out: Vec<char> = Vec::new();
    let mut i: usize = 0;
    while i < n
        invariant
            n == s@.len(),
            i <= n,
            out@ == sanitized(s@.subrange(0, i as int)),
        decreases n - i,
    {
        let c = s.get_char(i);
        let kept = if is_alphanumeric(c) || c == '-' || c == '_' {
            c
        } else {
            '_'
        };
        out.push(kept);
        assert(sanitized(s@.subrange(0, i + 1)) =~= sanitized(s@.subrange(0, i as int)).push(kept));
        i = i + 1;
    }
    assert(s@.subrange(0, n as int) =~= s@);
    chars_to_string(&out)
}

/// The text of a list of characters.
pub fn chars_to_string(chars: &Vec<char>) -> (s: String)
    ensures
        s@ == chars@,
{
    let mut s = String::new();
    let mut i: usize = 0;
    while i < chars.len()
        invariant
            i <= chars@.len(),
            s@ == chars@.subrange(0, i as int),
        decreases chars@.len() - i,
    {
        s.append(char_str(chars[i]).as_str());
        assert(s@ =~= chars@.subrange(0, i + 1));
        i = i + 1;
    }
    assert(chars@.subrange(0, chars@.len() as int) =~= chars@);
    s
}

/// The one-character text of `c`. Trusted: `char::to_string` gives that character alone.
#[verifier::external_body]
fn char_str(c: char) -> (s: String)
    ensures
        s@ == seq![c],
{
    c.to_string()
}

/// The labels of the dumps the digest reads, in the order they were taken: the baseline,
/// the channel, bus and effect sweeps, the presets and the phantom switches, and the
/// final state.
pub open spec fn digest_labels() -> Seq<Seq<char>> {
    seq!["baseline"@] + labels_of(section_steps(Section::ChannelSweep)) + labels_of(
        section_steps(Section::BusSweep),
    ) + labels_of(section_steps(Section::FxSweep)) + labels_of(section_steps(Section::PresetSweep))
        + labels_of(section_steps(Section::PhantomSweep)) + seq!["final_state"@]
}

pub open spec fn labels_of(steps: Seq<(StepAction, Seq<char>)>) -> Seq<Seq<char>> {
    steps.map_values(|s: (StepAction, Seq<char>)| s.1)
}

/// The labels of the dumps taken.
pub open spec fn dump_labels(d: Seq<LabelledDump>) -> Seq<Seq<char>> {
    d.map_values(|x: LabelledDump| x.label@)
}

pub open spec fn strings_view(v: Seq<String>) -> Seq<Seq<char>> {
    v.map_values(|s: String| s@)
}

fn push_labels(labels: &mut Vec<String>, s: Section)
    ensures
        strings_view(final(labels)@) == strings_view(old(labels)@) + labels_of(section_steps(s)),
{
    let mut steps: Vec<CalibStep> = Vec::new();
    push_section(&mut steps, s);
    assert(steps_view(steps@) =~= section_steps(s));
    let ghost start = strings_view(labels@);
    let mut i: usize = 0;
    while i < steps.len()
        invariant
            i <= steps@.len(),
            steps_view(steps@) == section_steps(s),
            strings_view(labels@) == start + labels_of(section_steps(s)).take(i as int),
        decreases steps@.len() - i,
    {
        let ghost before = labels@;
        labels.push(steps[i].label.clone());
        assert(strings_view(labels@) =~= strings_view(before).push(steps@[i as int].label@));
        assert(steps_view(steps@)[i as int] == (steps@[i as int].action, steps@[i as int].label@));
        assert(labels_of(section_steps(s)).take(i + 1) =~= labels_of(section_steps(s)).take(i as int).push(steps@[i as int].label@));
        i = i + 1;
    }
    assert(labels_of(section_steps(s)).take(steps@.len() as int) =~= labels_of(section_steps(s)));
}

/// The labels of the dumps the digest reads, in order.
pub fn build_ordered_labels() -> (labels: Vec<String>)
    ensures
        strings_view(labels@) == digest_labels(),
{
    let mut labels: Vec<String> = Vec::new();
    labels.push(String::from_str("baseline"));
    assert(strings_view(labels@) =~= seq!["baseline"@]);
    push_labels(&mut labels, Section::ChannelSweep);
    push_labels(&mut labels, Section::BusSweep);
    push_labels(&mut labels, Section::FxSweep);
    push_labels(&mut labels, Section::PresetSweep);
    push_labels(&mut labels, Section::PhantomSweep);
    let ghost before = labels@;
    labels.push(String::from_str("final_state"));
    assert(strings_view(labels@) =~= strings_view(before).push("final_state"@));
    assert(strings_view(labels@) =~= digest_labels());
    labels
}

// ── The command line sweep ──────────────────────────────────────────────

/// A step of the command line calibration: the change to send, and whether a dump is
/// taken afterwards (the restoring steps take none).
#[derive(Debug)]
pub struct SweepStep {
    pub label: String,
    pub send_cc: Option<(u8, u8, u8)>,
    pub send_pc: Option<(u8, u8)>,
    pub request_dump: bool,
}

pub open spec fn sweep_step_view(s: SweepStep) -> (Seq<char>, Option<(u8, u8, u8)>, Option<(u8, u8)>, bool) {
    (s.label@, s.send_cc, s.send_pc, s.request_dump)
}

/// A calibration step as a command line step.
pub open spec fn cli_step(s: (StepAction, Seq<char>), request_dump: bool) -> (Seq<char>, Option<(u8, u8, u8)>, Option<(u8, u8)>, bool) {
    match s.0 {
        StepAction::SetParam { midi_ch, cc, value } => (s.1, Some((midi_ch, cc, value)), None, request_dump),
        StepAction::SetPreset { midi_ch, program } => (s.1, None, Some((midi_ch, program)), request_dump),
        StepAction::Baseline => (s.1, None, None, request_dump),
    }
}

pub open spec fn cli_section(s: Section, request_dump: bool) -> Seq<(Seq<char>, Option<(u8, u8, u8)>, Option<(u8, u8)>, bool)> {
    section_steps(s).map_values(|x: (StepAction, Seq<char>)| cli_step(x, request_dump))
}

/// The command line sweep: baseline, the channel, bus and effect sweeps, the presets and
/// the phantom switches (each followed by a dump), then everything set back to the middle
/// (no dumps), and a final dump.
pub open spec fn cli_steps() -> Seq<(Seq<char>, Option<(u8, u8, u8)>, Option<(u8, u8)>, bool)> {
    seq![("baseline"@, None, None, true)] + cli_section(Section::ChannelSweep, true) + cli_section(
        Section::BusSweep,
        true,
    ) + cli_section(Section::FxSweep, true) + cli_section(Section::PresetSweep, true)
        + cli_section(Section::PhantomSweep, true) + cli_section(Section::ChannelRestore, false)
        + cli_section(Section::PhantomRestore, false) + cli_section(Section::BusRestore, false)
        + cli_section(Section::FxRestore, false) + seq![("final_state"@, None, None, true)]
}

fn push_cli_section(out: &mut Vec<SweepStep>, s: Section, request_dump: bool)
    ensures
        final(out)@.map_values(|x: SweepStep| sweep_step_view(x)) == old(out)@.map_values(|x: SweepStep| sweep_step_view(x)) + cli_section(s, request_dump),
{
    let mut steps: Vec<CalibStep> = Vec::new();
    push_section(&mut steps, s);
    assert(steps_view(steps@) =~= section_steps(s));
    let ghost start = out@.map_values(|x: SweepStep| sweep_step_view(x));
    let mut i: usize = 0;
    while i < steps.len()
        invariant
            i <= steps@.len(),
            steps_view(steps@) == section_steps(s),
            out@.map_values(|x: SweepStep| sweep_step_view(x)) == start + cli_section(s, request_dump).take(i as int),
        decreases steps@.len() - i,
    {
        let ghost before = out@;
        let step = &steps[i];
        let (send_cc, send_pc) = match step.action {
            StepAction::SetParam { midi_ch, cc, value } => (Some((midi_ch, cc, value)), None),
            StepAction::SetPreset { midi_ch, program } => (None, Some((midi_ch, program))),
            StepAction::Baseline => (None, None),
        };
        let x = SweepStep { label: step.label.clone(), send_cc, send_pc, request_dump };
        out.push(x);
        assert(steps_view(steps@)[i as int] == (steps@[i as int].action, steps@[i as int].label@));
        assert(out@.map_values(|x: SweepStep| sweep_step_view(x)) =~= before.map_values(|x: SweepStep| sweep_step_view(x)).push(sweep_step_view(x)));
        assert(cli_section(s, request_dump).take(i + 1) =~= cli_section(s, request_dump).take(i as int).push(sweep_step_view(x)));
        i = i + 1;
    }
    assert(cli_section(s, request_dump).take(steps@.len() as int) =~= cli_section(s, request_dump));
}

/// The steps of the command line calibration.
pub fn build_steps() -> (steps: Vec<SweepStep>)
    ensures
        steps@.map_values(|x: SweepStep| sweep_step_view(x)) == cli_steps(),
{
    let mut steps: Vec<SweepStep> = Vec::new();
    steps.push(SweepStep { label: String::from_str("baseline"), send_cc: None, send_pc: None, request_dump: true });
    assert(steps@.map_values(|x: SweepStep| sweep_step_view(x)) =~= seq![("baseline"@, None, None, true)]);
    push_cli_section(&mut steps, Section::ChannelSweep, true);
    push_cli_section(&mut steps, Section::BusSweep, true);
    push_cli_section(&mut steps, Section::FxSweep, true);
    push_cli_section(&mut steps, Section::PresetSweep, true);
    push_cli_section(&mut steps, Section::PhantomSweep, true);
    push_cli_section(&mut steps, Section::ChannelRestore, false);
    push_cli_section(&mut steps, Section::PhantomRestore, false);
    push_cli_section(&mut steps, Section::BusRestore, false);
    push_cli_section(&mut steps, Section::FxRestore, false);
    let ghost before = steps@;
    let last = SweepStep { label: String::from_str("final_state"), send_cc: None, send_pc: None, request_dump: true };
    steps.push(last);
    assert(steps@.map_values(|x: SweepStep| sweep_step_view(x)) =~= before.map_values(|x: SweepStep| sweep_step_view(x)).push(("final_state"@, None, None, true)));
    assert(steps@.map_values(|x: SweepStep| sweep_step_view(x)) =~= cli_steps());
    steps
}

// ── Comparing dumps ─────────────────────────────────────────────────────

/// The offsets from 0x20 on at which two dumps differ, in ascending order (the first 32
/// bytes are the header).
pub open spec fn diff_offsets(a: Seq<u8>, b: Seq<u8>) -> Seq<usize> {
    Seq::new(b.len(), |j: int| j as usize).filter(|j: usize| 0x20 <= j && j < a.len() && a[j as int] != b[j as int])
}

/// The offsets at which `b` differs from `a`, from 0x20 on, for dumps of equal length.
pub fn dump_diffs(a: &Vec<u8>, b: &Vec<u8>) -> (r: Vec<usize>)
    requires
        a@.len() == b@.len(),
    ensures
        r@ == diff_offsets(a@, b@),
        ascending(r@),
        forall|k: int| 0 <= k < r@.len() ==> 0x20 <= #[trigger] r@[k] < a@.len() && a@[r@[k] as int] != b@[r@[k] as int],
{
    let ghost all = Seq::new(b@.len(), |j: int| j as usize);
    let ghost p = |j: usize| 0x20 <= j && j < a@.len() && a@[j as int] != b@[j as int];
    let mut r: Vec<usize> = Vec::new();
    let mut j: usize = 0;
    while j < b.len()
        invariant
            a@.len() == b@.len(),
            j <= b@.len(),
            all == Seq::new(b@.len(), |j: int| j as usize),
            p == (|j: usize| 0x20 <= j && j < a@.len() && a@[j as int] != b@[j as int]),
            r@ == all.take(j as int).filter(p),
            ascending(r@),
            forall|k: int| 0 <= k < r@.len() ==> 0x20 <= #[trigger] r@[k] < j && a@[r@[k] as int] != b@[r@[k] as int],
        decreases b@.len() - j,
    {
        proof {
            all.take(j as int).lemma_filter_push(all[j as int], p);
            assert(all.take(j + 1) =~= all.take(j as int).push(all[j as int]));
        }
        if j >= 0x20 && a[j] != b[j] {
            r.push(j);
        }
        j = j + 1;
    }
    assert(all.take(b@.len() as int) =~= all);
    r
}

/// A strictly ascending list.
pub open spec fn ascending(s: Seq<usize>) -> bool {
    forall|i: int, j: int| 0 <= i < j < s.len() ==> s[i] < s[j]
}

/// The union of two ascending lists, in ascending order, without repeats.
pub fn union_sorted(a: &Vec<usize>, b: &Vec<usize>) -> (r: Vec<usize>)
    requires
        ascending(a@),
        ascending(b@),
    ensures
        ascending(r@),
        r@.to_set() == a@.to_set() + b@.to_set(),
{
    let mut r: Vec<usize> = Vec::new();
    let mut i: usize = 0;
    let mut j: usize = 0;
    assert(a@.take(0).to_set() =~= Set::<usize>::empty());
    assert(b@.take(0).to_set() =~= Set::<usize>::empty());
    assert(r@.to_set() =~= Set::<usize>::empty());
    while i < a.len() || j < b.len()
        invariant
            ascending(a@),
            ascending(b@),
            ascending(r@),
            i <= a@.len(),
            j <= b@.len(),
            r@.to_set() == a@.take(i as int).to_set() + b@.take(j as int).to_set(),
            r@.len() > 0 ==> (i < a@.len() ==> r@.last() < a@[i as int]) && (j < b@.len() ==> r@.last() < b@[j as int]),
        decreases a@.len() - i + b@.len() - j,
    {
        let ghost ri = r@;
        let ghost at = a@.take(i as int);
        let ghost bt = b@.take(j as int);
        if j >= b.len() || (i < a.len() && a[i] < b[j]) {
            r.push(a[i]);
            assert(a@.take(i + 1) =~= at.push(a@[i as int]));
            proof {
                ri.lemma_push_to_set_commute(a@[i as int]);
                at.lemma_push_to_set_commute(a@[i as int]);
            }
            assert(r@.to_set() =~= a@.take(i + 1).to_set() + bt.to_set());
            i = i + 1;
        } else if i >= a.len() || b[j] < a[i] {
            r.push(b[j]);
            assert(b@.take(j + 1) =~= bt.push(b@[j as int]));
            proof {
                ri.lemma_push_to_set_commute(b@[j as int]);
                bt.lemma_push_to_set_commute(b@[j as int]);
            }
            assert(r@.to_set() =~= at.to_set() + b@.take(j + 1).to_set());
            j = j + 1;
        } else {
            r.push(a[i]);
            assert(a@.take(i + 1) =~= at.push(a@[i as int]));
            assert(b@.take(j + 1) =~= bt.push(b@[j as int]));
            proof {
                ri.lemma_push_to_set_commute(a@[i as int]);
                at.lemma_push_to_set_commute(a@[i as int]);
                bt.lemma_push_to_set_commute(b@[j as int]);
            }
            assert(r@.to_set() =~= a@.take(i + 1).to_set() + b@.take(j + 1).to_set());
            i = i + 1;
            j = j + 1;
        }
    }
    assert(a@.take(a@.len() as int) =~= a@);
    assert(b@.take(b@.len() as int) =~= b@);
    r
}

/// Offsets as "0x0123, 0x0456, ...".
pub open spec fn offsets_text(offsets: Seq<usize>) -> Seq<char>
    decreases offsets.len(),
{
    if offsets.len() == 0 {
        Seq::empty()
    } else if offsets.len() == 1 {
        "0x"@ + hex_padded(offsets[0] as nat, 4)
    } else {
        offsets_text(offsets.drop_last()) + ", 0x"@ + hex_padded(offsets.last() as nat, 4)
    }
}

pub fn fmt_offsets(offsets: &[usize]) -> (s: String)
    ensures
        s@ == offsets_text(offsets@),
{
    let mut s = String::new();
    let mut i: usize = 0;
    while i < offsets.len()
        invariant
            i <= offsets@.len(),
            s@ == offsets_text(offsets@.take(i as int)),
        decreases offsets@.len() - i,
    {
        assert(offsets@.take(i + 1).drop_last() =~= offsets@.take(i as int));
        if i == 0 {
            s.append("0x");
        } else {
            s.append(", 0x");
        }
        push_hex_padded(&mut s, offsets[i] as u64, 4);
        i = i + 1;
    }
    assert(offsets@.take(offsets@.len() as int) =~= offsets@);
    s
}

/// What a switch parameter's digest found: where it sits, and whether 1 means off.
#[derive(Debug)]
pub struct BoolExtractedParam {
    pub name: String,
    pub offset: usize,
    pub inverted: bool,
}

/// Whether the bytes at `off` flip between 0 and 1 from the minimum to the maximum dump.
pub open spec fn flips(min_dump: Seq<u8>, max_dump: Seq<u8>, off: int) -> bool {
    (min_dump[off] == 0 && max_dump[off] == 1) || (min_dump[off] == 1 && max_dump[off] == 0)
}

/// The first of the offsets, from position `k` on, whose byte flips between 0 and 1, and
/// whether the minimum dump holds 1 there.
pub open spec fn first_switch(offs: Seq<usize>, min_dump: Seq<u8>, max_dump: Seq<u8>, k: int) -> Option<(usize, bool)>
    decreases offs.len() - k,
{
    if k < 0 || k >= offs.len() {
        None
    } else if flips(min_dump, max_dump, offs[k] as int) {
        Some((offs[k], min_dump[offs[k] as int] == 1))
    } else {
        first_switch(offs, min_dump, max_dump, k + 1)
    }
}

/// The first offset of `max_diffs` whose byte flips between 0 and 1: that is the switch
/// (inverted when the minimum dump holds 1). No name is given yet.
pub fn try_extract_bool(max_diffs: &[usize], min_dump: &[u8], max_dump: &[u8]) -> (r: Option<BoolExtractedParam>)
    requires
        forall|k: int| 0 <= k < max_diffs@.len() ==> #[trigger] max_diffs@[k] < min_dump@.len() && max_diffs@[k] < max_dump@.len(),
    ensures
        match first_switch(max_diffs@, min_dump@, max_dump@, 0) {
            Some((o, inv)) => r matches Some(p) && p.offset == o && p.inverted == inv && p.name@.len() == 0,
            None => r is None,
        },
{
    let mut k: usize = 0;
    while k < max_diffs.len()
        invariant
            forall|k: int| 0 <= k < max_diffs@.len() ==> #[trigger] max_diffs@[k] < min_dump@.len() && max_diffs@[k] < max_dump@.len(),
            k <= max_diffs@.len(),
            first_switch(max_diffs@, min_dump@, max_dump@, 0) == first_switch(max_diffs@, min_dump@, max_dump@, k as int),
        decreases max_diffs@.len() - k,
    {
        let off = max_diffs[k];
        let min_val = min_dump[off];
        let max_val = max_dump[off];
        if (min_val == 0 && max_val == 1) || (min_val == 1 && max_val == 0) {
            return Some(BoolExtractedParam { name: String::new(), offset: off, inverted: min_val == 1 });
        }
        k = k + 1;
    }
    None
}

/// The bit of the carrier byte that belongs to a data byte `d` places away: 1..=7 after
/// it gives bits 0..=6, 1..=7 before it gives bits 2..=8.
pub open spec fn bit_for_distance(d: int) -> Option<u8> {
    if 1 <= d <= 7 {
        Some((d - 1) as u8)
    } else if -7 <= d <= -1 {
        Some((-d + 1) as u8)
    } else {
        None
    }
}

pub fn offset_to_bit(d: isize) -> (r: Option<u8>)
    ensures
        r == bit_for_distance(d as int),
{
    if 1 <= d && d <= 7 {
        Some((d - 1) as u8)
    } else if -7 <= d && d <= -1 {
        Some((-d + 1) as u8)
    } else {
        None
    }
}

/// Whether a parameter name is that of a switch (mute, solo or phantom power).
pub open spec fn is_switch_name(name: Seq<char>) -> bool {
    crate::text::contains_text(name, "_mute"@) || crate::text::contains_text(name, "_solo"@)
        || crate::text::contains_text(name, "_phantom"@)
}

pub fn is_bool_param(name: &str) -> (r: bool)
    ensures
        r == is_switch_name(name@),
{
    crate::text::text_contains(name, "_mute") || crate::text::text_contains(name, "_solo")
        || crate::text::text_contains(name, "_phantom")
}

// ── Pairing the minimum and maximum dumps ───────────────────────────────

/// The parameter pairs among a list of labels, looked for from position `i` on: a label
/// ending in "_min" followed by one ending in "_max" that starts with the same parameter
/// name forms a pair (name, position of the minimum, position of the maximum), and the
/// search goes on after it; otherwise it moves one label on.
pub open spec fn pairs_from(labels: Seq<Seq<char>>, i: int) -> Seq<(Seq<char>, int, int)>
    decreases labels.len() - i,
{
    if i < 0 || i + 1 >= labels.len() {
        seq![]
    } else {
        let mn = labels[i];
        let mx = labels[i + 1];
        let name = trim_end_all(mn, "_min"@);
        if ends_with(mn, "_min"@) && ends_with(mx, "_max"@) && starts_with(mx, name) {
            seq![(name, i, i + 1)] + pairs_from(labels, i + 2)
        } else {
            pairs_from(labels, i + 1)
        }
    }
}

/// A parameter whose minimum and maximum dumps were both taken.
#[derive(Debug)]
pub struct ParamPair {
    pub name: String,
    pub min_idx: usize,
    pub max_idx: usize,
}

pub open spec fn pair_view(p: ParamPair) -> (Seq<char>, int, int) {
    (p.name@, p.min_idx as int, p.max_idx as int)
}

/// The parameter pairs of a list of dump labels (the first label, the baseline, is never
/// part of a pair).
pub fn collect_param_pairs(labels: &Vec<String>) -> (pairs: Vec<ParamPair>)
    ensures
        pairs@.map_values(|p: ParamPair| pair_view(p)) == pairs_from(strings_view(labels@), 1),
{
    let ghost lv = strings_view(labels@);
    let mut pairs: Vec<ParamPair> = Vec::new();
    let mut i: usize = 1;
    while labels.len() > 0 && i < labels.len() - 1
        invariant
            lv == strings_view(labels@),
            1 <= i,
            pairs@.map_values(|p: ParamPair| pair_view(p)) + pairs_from(lv, i as int) == pairs_from(lv, 1),
        decreases labels@.len() - i,
    {
        let ghost before = pairs@.map_values(|p: ParamPair| pair_view(p));
        let min_label = labels[i].as_str();
        let max_label = labels[i + 1].as_str();
        assert(lv[i as int] == labels@[i as int]@);
        assert(lv[i + 1] == labels@[i + 1]@);
        if text_ends_with(min_label, "_min") && text_ends_with(max_label, "_max") {
            let name = trim_end_matches(min_label, "_min");
            if text_starts_with(max_label, name.as_str()) {
                let p = ParamPair { name, min_idx: i, max_idx: i + 1 };
                pairs.push(p);
                assert(pairs@.map_values(|p: ParamPair| pair_view(p)) =~= before.push(pair_view(p)));
                assert(before.push(pair_view(p)) + pairs_from(lv, i + 2) =~= before + pairs_from(lv, i as int));
                i = i + 2;
                continue;
            }
        }
        i = i + 1;
    }
    assert(pairs_from(lv, i as int) =~= Seq::<(Seq<char>, int, int)>::empty());
    assert(pairs@.map_values(|p: ParamPair| pair_view(p)) =~= pairs_from(lv, 1));
    pairs
}

/// The dumps of a parameter pair read from files: the dump before the minimum, the
/// minimum and the maximum, each missing when its file was.
#[derive(Debug)]
pub struct FileParamPair {
    pub name: String,
    pub prev_dump: Option<Vec<u8>>,
    pub min_dump: Option<Vec<u8>>,
    pub max_dump: Option<Vec<u8>>,
}

pub open spec fn dump_view(d: Option<Vec<u8>>) -> Option<Seq<u8>> {
    match d {
        Some(v) => Some(v@),
        None => None,
    }
}

fn copy_dump(d: &Option<Vec<u8>>) -> (r: Option<Vec<u8>>)
    ensures
        dump_view(r) == dump_view(*d),
{
    match d {
        Some(v) => Some(vstd::slice::slice_to_vec(v.as_slice())),
        None => None,
    }
}

/// The parameter pairs of the labels, each with its dumps.
pub fn collect_file_param_pairs(labels: &Vec<String>, dumps: &Vec<Option<Vec<u8>>>) -> (pairs: Vec<FileParamPair>)
    requires
        dumps@.len() == labels@.len(),
    ensures
        pairs@.len() == pairs_from(strings_view(labels@), 1).len(),
        forall|k: int| 0 <= k < pairs@.len() ==> {
            let p = #[trigger] pairs_from(strings_view(labels@), 1)[k];
            &&& pairs@[k].name@ == p.0
            &&& dump_view(pairs@[k].prev_dump) == dump_view(dumps@[p.1 - 1])
            &&& dump_view(pairs@[k].min_dump) == dump_view(dumps@[p.1])
            &&& dump_view(pairs@[k].max_dump) == dump_view(dumps@[p.2])
        },
{
    let found = collect_param_pairs(labels);
    let ghost pv = found@.map_values(|p: ParamPair| pair_view(p));
    proof {
        lemma_pairs_in_range(strings_view(labels@), 1);
    }
    let mut pairs: Vec<FileParamPair> = Vec::new();
    let mut k: usize = 0;
    while k < found.len()
        invariant
            dumps@.len() == labels@.len(),
            pv == found@.map_values(|p: ParamPair| pair_view(p)),
            pv == pairs_from(strings_view(labels@), 1),
            forall|q: int| 0 <= q < pv.len() ==> 1 <= #[trigger] pv[q].1 && pv[q].1 + 1 == pv[q].2 && pv[q].2 < labels@.len(),
            k <= found@.len(),
            pairs@.len() == k,
            forall|q: int| 0 <= q < k ==> {
                let p = #[trigger] pv[q];
                &&& pairs@[q].name@ == p.0
                &&& dump_view(pairs@[q].prev_dump) == dump_view(dumps@[p.1 - 1])
                &&& dump_view(pairs@[q].min_dump) == dump_view(dumps@[p.1])
                &&& dump_view(pairs@[q].max_dump) == dump_view(dumps@[p.2])
            },
        decreases found@.len() - k,
    {
        let p = &found[k];
        assert(pv[k as int] == pair_view(found@[k as int]));
        let entry = FileParamPair {
            name: p.name.clone(),
            prev_dump: copy_dump(&dumps[p.min_idx - 1]),
            min_dump: copy_dump(&dumps[p.min_idx]),
            max_dump: copy_dump(&dumps[p.max_idx]),
        };
        pairs.push(entry);
        k = k + 1;
    }
    pairs
}

/// Every pair found from position `i` (at least 1) on lies inside the list, its maximum
/// right after its minimum.
pub proof fn lemma_pairs_in_range(labels: Seq<Seq<char>>, i: int)
    requires
        i >= 1,
    ensures
        forall|q: int| 0 <= q < pairs_from(labels, i).len() ==> i <= #[trigger] pairs_from(labels, i)[q].1 && pairs_from(labels, i)[q].1 + 1 == pairs_from(labels, i)[q].2 && pairs_from(labels, i)[q].2 < labels.len(),
    decreases labels.len() - i,
{
    if i + 1 < labels.len() {
        let mn = labels[i];
        let mx = labels[i + 1];
        let name = trim_end_all(mn, "_min"@);
        if ends_with(mn, "_min"@) && ends_with(mx, "_max"@) && starts_with(mx, name) {
            lemma_pairs_in_range(labels, i + 2);
            let rest = pairs_from(labels, i + 2);
            assert forall|q: int| 0 <= q < pairs_from(labels, i).len() implies i <= #[trigger] pairs_from(labels, i)[q].1 && pairs_from(labels, i)[q].1 + 1 == pairs_from(labels, i)[q].2 && pairs_from(labels, i)[q].2 < labels.len() by {
                if q > 0 {
                    assert(pairs_from(labels, i)[q] == rest[q - 1]);
                }
            }
        } else {
            lemma_pairs_in_range(labels, i + 1);
            assert(pairs_from(labels, i) == pairs_from(labels, i + 1));
        }
    } else {
        assert(pairs_from(labels, i).len() == 0);
    }
}

// ── Code for the switch tables ──────────────────────────────────────────

/// The first switch found under `name`, if any.
pub open spec fn find_named(params: Seq<BoolExtractedParam>, name: Seq<char>, i: int) -> Option<BoolExtractedParam>
    decreases params.len() - i,
{
    if i < 0 || i >= params.len() {
        None
    } else if params[i].name@ == name {
        Some(params[i])
    } else {
        find_named(params, name, i + 1)
    }
}

pub open spec fn bool_text(b: bool) -> Seq<char> {
    if b {
        "true"@
    } else {
        "false"@
    }
}

/// The table line of one target: the switch found under "prefix_suffix", or a note that
/// it is missing.
pub open spec fn bool_entry(params: Seq<BoolExtractedParam>, prefix: Seq<char>, suffix: Seq<char>) -> Seq<char> {
    let name = prefix + "_"@ + suffix;
    match find_named(params, name, 0) {
        Some(p) => "    BoolParam { offset: 0x"@ + hex_padded(p.offset as nat, 4) + ", inverted: "@ + bool_text(p.inverted)
            + " },"@ + (if p.inverted { " // inverted"@ } else { ""@ }) + " // "@ + prefix,
        None => "    // MISSING: "@ + name,
    }
}

pub open spec fn found_count(params: Seq<BoolExtractedParam>, prefixes: Seq<Seq<char>>, suffix: Seq<char>) -> nat
    decreases prefixes.len(),
{
    if prefixes.len() == 0 {
        0
    } else {
        found_count(params, prefixes.drop_last(), suffix) + if find_named(params, prefixes.last() + "_"@ + suffix, 0) is Some {
            1nat
        } else {
            0nat
        }
    }
}

pub open spec fn entry_lines_of(params: Seq<BoolExtractedParam>, prefixes: Seq<Seq<char>>, suffix: Seq<char>) -> Seq<char>
    decreases prefixes.len(),
{
    if prefixes.len() == 0 {
        seq![]
    } else {
        entry_lines_of(params, prefixes.drop_last(), suffix) + bool_entry(params, prefixes.last(), suffix) + "\n"@
    }
}

/// One generated table: a header with how many targets were found, the entries, the end.
pub open spec fn bool_table(params: Seq<BoolExtractedParam>, const_name: Seq<char>, suffix: Seq<char>, prefixes: Seq<Seq<char>>) -> Seq<char> {
    "```rust\n// "@ + decimal(found_count(params, prefixes, suffix)) + "/"@ + decimal(prefixes.len()) + " extracted\nconst "@ + const_name
        + ": [BoolParam; "@ + decimal(prefixes.len()) + "] = [\n"@ + entry_lines_of(params, prefixes, suffix) + "];\n```\n\n"@
}

pub open spec fn channel_tags() -> Seq<Seq<char>> {
    seq!["ch1"@, "ch2"@, "ch3"@, "ch4"@, "ch5-6"@, "ch7-8"@, "usb-bt"@]
}

/// The generated tables of mutes, solos and phantom switches.
pub open spec fn bool_tables_text(params: Seq<BoolExtractedParam>) -> Seq<char> {
    bool_table(params, "CHANNEL_MUTES"@, "mute"@, channel_tags()) + bool_table(params, "CHANNEL_SOLOS"@, "solo"@, channel_tags())
        + bool_table(params, "CHANNEL_PHANTOMS"@, "phantom"@, seq!["ch1"@, "ch2"@])
}

fn find_named_exec(params: &[BoolExtractedParam], name: &str) -> (r: Option<usize>)
    ensures
        match find_named(params@, name@, 0) {
            Some(p) => r matches Some(k) && k < params@.len() && params@[k as int] == p,
            None => r is None,
        },
{
    let mut i: usize = 0;
    while i < params.len()
        invariant
            i <= params@.len(),
            find_named(params@, name@, 0) == find_named(params@, name@, i as int),
        decreases params@.len() - i,
    {
        if crate::text::same_text(params[i].name.as_str(), name) {
            return Some(i);
        }
        i = i + 1;
    }
    None
}

fn push_bool_table(code: &mut String, params: &[BoolExtractedParam], const_name: &str, suffix: &str, prefixes: &[&str])
    ensures
        final(code)@ == old(code)@ + bool_table(params@, const_name@, suffix@, prefixes@.map_values(|p: &str| p@)),
{
    let ghost pv = prefixes@.map_values(|p: &str| p@);
    let mut entries = String::new();
    let mut found: usize = 0;
    let mut i: usize = 0;
    while i < prefixes.len()
        invariant
            i <= prefixes@.len(),
            pv == prefixes@.map_values(|p: &str| p@),
            entries@ == entry_lines_of(params@, pv.take(i as int), suffix@),
            found == found_count(params@, pv.take(i as int), suffix@),
            found <= i,
        decreases prefixes@.len() - i,
    {
        let prefix = prefixes[i];
        assert(pv.take(i + 1).drop_last() =~= pv.take(i as int));
        assert(pv.take(i + 1).last() == prefix@);
        let mut name = String::from_str(prefix);
        name.append("_");
        name.append(suffix);
        match find_named_exec(params, name.as_str()) {
            Some(k) => {
                let p = &params[k];
                entries.append("    BoolParam { offset: 0x");
                crate::text::push_hex_padded(&mut entries, p.offset as u64, 4);
                entries.append(", inverted: ");
                entries.append(if p.inverted { "true" } else { "false" });
                entries.append(" },");
                entries.append(if p.inverted { " // inverted" } else { "" });
                entries.append(" // ");
                entries.append(prefix);
                found = found + 1;
            },
            None => {
                entries.append("    // MISSING: ");
                entries.append(name.as_str());
            },
        }
        entries.append("\n");
        i = i + 1;
    }
    assert(pv.take(prefixes@.len() as int) =~= pv);
    code.append("```rust\n// ");
    crate::text::push_decimal(code, found as u64);
    code.append("/");
    crate::text::push_decimal(code, prefixes.len() as u64);
    code.append(" extracted\nconst ");
    code.append(const_name);
    code.append(": [BoolParam; ");
    crate::text::push_decimal(code, prefixes.len() as u64);
    code.append("] = [\n");
    code.append(entries.as_str());
    code.append("];\n```\n\n");
}

/// Rust source for the mute, solo and phantom switch tables, from the switches found.
pub fn generate_rust_bool_tables(params: &[BoolExtractedParam]) -> (code: String)
    ensures
        code@ == bool_tables_text(params@),
{
    let mut code = String::new();
    let ch: [&str; 7] = ["ch1", "ch2", "ch3", "ch4", "ch5-6", "ch7-8", "usb-bt"];
    let ph: [&str; 2] = ["ch1", "ch2"];
    assert(ch@.map_values(|p: &str| p@) =~= channel_tags());
    assert(ph@.map_values(|p: &str| p@) =~= seq!["ch1"@, "ch2"@]);
    push_bool_table(&mut code, params, "CHANNEL_MUTES", "mute", ch.as_slice());
    push_bool_table(&mut code, params, "CHANNEL_SOLOS", "solo", ch.as_slice());
    push_bool_table(&mut code, params, "CHANNEL_PHANTOMS", "phantom", ph.as_slice());
    code
}

// ── The calibration report ──────────────────────────────────────────────

/// Table rows "| 0xOOOO | 0xAA | 0xBB |" for the offsets, with the bytes of `a` and `b`.
pub open spec fn diff_rows(a: Seq<u8>, b: Seq<u8>, offs: Seq<usize>) -> Seq<char>
    decreases offs.len(),
{
    if offs.len() == 0 {
        seq![]
    } else {
        let o = offs.last() as int;
        diff_rows(a, b, offs.drop_last()) + "| 0x"@ + hex_padded(o as nat, 4) + " | 0x"@ + hex_padded(a[o] as nat, 2) + " | 0x"@
            + hex_padded(b[o] as nat, 2) + " |\n"@
    }
}

/// "Data differences" with the table of the offsets at which `data` differs from `base`.
pub open spec fn diff_part(base: Seq<u8>, data: Seq<u8>) -> Seq<char> {
    let diffs = diff_offsets(base, data);
    "Data differences (excluding header): "@ + decimal(diffs.len()) + "\n\n"@ + (if diffs.len() > 0 {
        "| Offset | Baseline | This |\n|--------|----------|------|\n"@ + diff_rows(base, data, diffs) + "\n"@
    } else {
        seq![]
    })
}

/// The incremental table against the dump before, when both have one length and differ.
pub open spec fn incremental_part(prev: Seq<u8>, data: Seq<u8>) -> Seq<char> {
    let inc = diff_offsets(prev, data);
    if prev.len() == data.len() && inc.len() > 0 {
        "Incremental diff (vs previous step): "@ + decimal(inc.len()) + " bytes\n\n"@
            + "| Offset | Prev | This |\n|--------|------|------|\n"@ + diff_rows(prev, data, inc) + "\n"@
    } else {
        seq![]
    }
}

/// The report's part on dump `i`: how it differs from the baseline, and from the dump
/// before it.
pub open spec fn report_section(dumps: Seq<LabelledDump>, i: int) -> Seq<char> {
    let base = dumps[0].data@;
    let data = dumps[i].data@;
    let head = "## "@ + dumps[i].label@ + "\n\n"@;
    if data.len() != base.len() {
        head + "Size mismatch: baseline="@ + decimal(base.len()) + ", this="@ + decimal(data.len()) + "\n\n"@
    } else {
        head + diff_part(base, data) + incremental_part(dumps[i - 1].data@, data)
    }
}

pub open spec fn report_sections(dumps: Seq<LabelledDump>, n: int) -> Seq<char>
    decreases n,
{
    if n <= 1 {
        seq![]
    } else {
        report_sections(dumps, n - 1) + report_section(dumps, n - 1)
    }
}

/// The calibration report: `None` without a baseline dump.
pub open spec fn report_text(dumps: Seq<LabelledDump>) -> Option<Seq<char>> {
    if dumps.len() == 0 {
        None
    } else {
        Some("# SysEx Calibration Report\n\n"@ + "Baseline: "@ + decimal(dumps[0].data@.len()) + " bytes\n"@ + "Steps: "@ + decimal(dumps.len())
            + "\n\n"@ + report_sections(dumps, dumps.len() as int))
    }
}

fn push_diff_rows(out: &mut String, a: &Vec<u8>, b: &Vec<u8>, offs: &Vec<usize>)
    requires
        forall|k: int| 0 <= k < offs@.len() ==> #[trigger] offs@[k] < a@.len() && offs@[k] < b@.len(),
    ensures
        final(out)@ == old(out)@ + diff_rows(a@, b@, offs@),
{
    let ghost start = out@;
    let mut k: usize = 0;
    while k < offs.len()
        invariant
            forall|k: int| 0 <= k < offs@.len() ==> #[trigger] offs@[k] < a@.len() && offs@[k] < b@.len(),
            k <= offs@.len(),
            out@ == start + diff_rows(a@, b@, offs@.take(k as int)),
        decreases offs@.len() - k,
    {
        assert(offs@.take(k + 1).drop_last() =~= offs@.take(k as int));
        let o = offs[k];
        out.append("| 0x");
        crate::text::push_hex_padded(out, o as u64, 4);
        out.append(" | 0x");
        crate::text::push_hex_padded(out, a[o] as u64, 2);
        out.append(" | 0x");
        crate::text::push_hex_padded(out, b[o] as u64, 2);
        out.append(" |\n");
        k = k + 1;
    }
    assert(offs@.take(offs@.len() as int) =~= offs@);
}

fn push_diff_part(out: &mut String, base: &Vec<u8>, data: &Vec<u8>)
    requires
        base@.len() == data@.len(),
    ensures
        final(out)@ == old(out)@ + diff_part(base@, data@),
{
    let ghost start = out@;
    let diffs = dump_diffs(base, data);
    out.append("Data differences (excluding header): ");
    crate::text::push_decimal(out, diffs.len() as u64);
    out.append("\n\n");
    let ghost mid = out@;
    if diffs.len() > 0 {
        out.append("| Offset | Baseline | This |\n|--------|----------|------|\n");
        push_diff_rows(out, base, data, &diffs);
        out.append("\n");
    }
    assert(out@ =~= start + diff_part(base@, data@));
}

fn push_incremental_part(out: &mut String, prev: &Vec<u8>, data: &Vec<u8>)
    ensures
        final(out)@ == old(out)@ + incremental_part(prev@, data@),
{
    if prev.len() == data.len() {
        let inc = dump_diffs(prev, data);
        if inc.len() > 0 {
            let ghost start = out@;
            out.append("Incremental diff (vs previous step): ");
            crate::text::push_decimal(out, inc.len() as u64);
            out.append(" bytes\n\n");
            out.append("| Offset | Prev | This |\n|--------|------|------|\n");
            push_diff_rows(out, prev, data, &inc);
            out.append("\n");
            assert(out@ =~= start + incremental_part(prev@, data@));
        } else {
            assert(incremental_part(prev@, data@) =~= Seq::<char>::empty());
            assert(out@ =~= old(out)@ + incremental_part(prev@, data@));
        }
    } else {
        assert(out@ =~= old(out)@ + incremental_part(prev@, data@));
    }
}

fn push_report_section(out: &mut String, dumps: &Vec<LabelledDump>, i: usize)
    requires
        1 <= i < dumps@.len(),
    ensures
        final(out)@ == old(out)@ + report_section(dumps@, i as int),
{
    let ghost start = out@;
    let base = &dumps[0].data;
    let data = &dumps[i].data;
    out.append("## ");
    out.append(dumps[i].label.as_str());
    out.append("\n\n");
    if data.len() != base.len() {
        out.append("Size mismatch: baseline=");
        crate::text::push_decimal(out, base.len() as u64);
        out.append(", this=");
        crate::text::push_decimal(out, data.len() as u64);
        out.append("\n\n");
        assert(out@ =~= start + report_section(dumps@, i as int));
        return;
    }
    let ghost head = out@;
    push_diff_part(out, base, data);
    push_incremental_part(out, &dumps[i - 1].data, data);
    assert(out@ =~= start + report_section(dumps@, i as int));
}

impl CalibrationState {
    /// The parameter pairs among the dumps taken so far.
    pub fn collect_param_pairs(&self) -> (pairs: Vec<ParamPair>)
        ensures
            pairs@.map_values(|p: ParamPair| pair_view(p)) == pairs_from(dump_labels(self.dumps@), 1),
    {
        let mut labels: Vec<String> = Vec::new();
        let mut i: usize = 0;
        while i < self.dumps.len()
            invariant
                i <= self.dumps@.len(),
                strings_view(labels@) == dump_labels(self.dumps@.take(i as int)),
            decreases self.dumps@.len() - i,
        {
            let ghost before = labels@;
            labels.push(self.dumps[i].label.clone());
            assert(strings_view(labels@) =~= strings_view(before).push(self.dumps@[i as int].label@));
            assert(dump_labels(self.dumps@.take(i + 1)) =~= dump_labels(self.dumps@.take(i as int)).push(self.dumps@[i as int].label@));
            i = i + 1;
        }
        assert(self.dumps@.take(self.dumps@.len() as int) =~= self.dumps@);
        collect_param_pairs(&labels)
    }

    /// The calibration report of the dumps taken: each dump against the baseline and the
    /// one before it. `None` when there is no baseline dump.
    pub fn report_text(&self) -> (r: Option<String>)
        ensures
            match report_text(self.dumps@) {
                Some(t) => r matches Some(s) && s@ == t,
                None => r is None,
            },
    {
        if self.dumps.len() == 0 {
            return None;
        }
        let mut out = String::from_str("# SysEx Calibration Report\n\n");
        out.append("Baseline: ");
        crate::text::push_decimal(&mut out, self.dumps[0].data.len() as u64);
        out.append(" bytes\n");
        out.append("Steps: ");
        crate::text::push_decimal(&mut out, self.dumps.len() as u64);
        out.append("\n\n");
        let ghost head = out@;
        let mut i: usize = 1;
        while i < self.dumps.len()
            invariant
                1 <= i <= self.dumps@.len(),
                out@ == head + report_sections(self.dumps@, i as int),
            decreases self.dumps@.len() - i,
        {
            push_report_section(&mut out, &self.dumps, i);
            i = i + 1;
        }
        Some(out)
    }
}

} // verus!
