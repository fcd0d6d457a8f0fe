use vstd::prelude::*;
use vstd::string::StringExecFns;

use crate::midi_chart::{bus_chart, channel_chart, charted, fx_chart};
use crate::text::{decimal, push_decimal};

verus! {

/// How long a parameter change is given to settle before its dump is requested (ms).
pub const SETTLE_TIME_MS: u64 = 800;

/// How long a requested dump is waited for before the step is given up (ms).
pub const DUMP_TIMEOUT_MS: u64 = 5000;

/// What one calibration step does to the mixer before its dump is taken.
#[derive(Debug, Clone, Copy, PartialEq, Eq, Structural)]
pub enum StepAction {
    Baseline,
    SetParam { midi_ch: u8, cc: u8, value: u8 },
    SetPreset { midi_ch: u8, program: u8 },
}

/// One step of the calibration sweep: an action and the label its dump is stored under.
#[derive(Debug)]
pub struct CalibStep {
    pub action: StepAction,
    pub label: String,
}

/// Where the calibration sweep stands; times are milliseconds on the monotonic clock.
#[derive(Debug, Clone, Copy, PartialEq, Eq, Structural)]
pub enum CalibPhase {
    Idle,
    SendCC(usize),
    Settling(usize, u64),
    RequestDump(usize),
    WaitingDump(usize, u64),
    Done,
}

/// What the application has to do after a calibration tick.
#[derive(Debug, Clone, Copy)]
pub struct CalibAction {
    pub send_cc: Option<(u8, u8, u8)>,
    pub send_pc: Option<(u8, u8)>,
    pub trigger_dump: bool,
}

/// A labelled dump taken during the sweep.
#[derive(Debug)]
pub struct LabelledDump {
    pub label: String,
    pub data: Vec<u8>,
}

/// The calibration sweep: it walks the steps, sends each parameter change, waits for it to
/// settle, asks the mixer for a dump and stores it under the step's label.
pub struct CalibrationState {
    pub phase: CalibPhase,
    pub steps: Vec<CalibStep>,
    pub dumps: Vec<LabelledDump>,
}

/// The step a phase refers to, if any.
pub open spec fn phase_step(p: CalibPhase) -> Option<int> {
    match p {
        CalibPhase::SendCC(s) => Some(s as int),
        CalibPhase::Settling(s, _) => Some(s as int),
        CalibPhase::RequestDump(s) => Some(s as int),
        CalibPhase::WaitingDump(s, _) => Some(s as int),
        _ => None,
    }
}

/// The phase after step `current` is finished: the next step's change is sent (or, for a
/// baseline step, its dump requested at once); after the last step the sweep is done.
pub open spec fn phase_after(steps: Seq<CalibStep>, current: int) -> CalibPhase {
    if current + 1 >= steps.len() {
        CalibPhase::Done
    } else if steps[current + 1].action == StepAction::Baseline {
        CalibPhase::RequestDump((current + 1) as usize)
    } else {
        CalibPhase::SendCC((current + 1) as usize)
    }
}

/// The MIDI message a step's action sends, as a control change or a program change.
pub open spec fn action_message(a: StepAction) -> CalibAction {
    match a {
        StepAction::SetParam { midi_ch, cc, value } => CalibAction {
            send_cc: Some((midi_ch, cc, value)),
            send_pc: None,
            trigger_dump: false,
        },
        StepAction::SetPreset { midi_ch, program } => CalibAction {
            send_cc: None,
            send_pc: Some((midi_ch, program)),
            trigger_dump: false,
        },
        StepAction::Baseline => CalibAction { send_cc: None, send_pc: None, trigger_dump: false },
    }
}

pub open spec fn no_action() -> CalibAction {
    CalibAction { send_cc: None, send_pc: None, trigger_dump: false }
}

impl CalibrationState {
    /// Every step that the phase names exists.
    pub open spec fn wf(&self) -> bool {
        phase_step(self.phase) matches Some(s) ==> 0 <= s < self.steps@.len()
    }

    pub fn new() -> (s: Self)
        ensures
            s.wf(),
            s.phase == CalibPhase::Idle,
            s.steps@.len() == 0,
            s.dumps@.len() == 0,
    {
        CalibrationState { phase: CalibPhase::Idle, steps: Vec::new(), dumps: Vec::new() }
    }

    /// Begins a new sweep: the steps are built afresh, earlier dumps dropped, and the
    /// baseline dump is requested first.
    pub fn start(&mut self)
        ensures
            final(self).wf(),
            steps_view(final(self).steps@) == calibration_steps(),
            final(self).dumps@.len() == 0,
            final(self).phase == CalibPhase::RequestDump(0),
    {
        self.steps = build_calibration_steps();
        self.dumps.clear();
        self.phase = CalibPhase::RequestDump(0);
        assert(steps_view(self.steps@).len() == self.steps@.len());
    }

    /// Whether a sweep is under way.
    pub fn is_running(&self) -> (r: bool)
        ensures
            r == !(self.phase == CalibPhase::Idle || self.phase == CalibPhase::Done),
    {
        !matches!(self.phase, CalibPhase::Idle | CalibPhase::Done)
    }

    /// The phase after step `current`; its dump is stored (or was given up) by the caller.
    pub fn advance_to_next(&mut self, current_step: usize)
        requires
            current_step < old(self).steps@.len(),
        ensures
            final(self).wf(),
            final(self).phase == phase_after(old(self).steps@, current_step as int),
            final(self).steps@ == old(self).steps@,
            final(self).dumps@ == old(self).dumps@,
    {
        if current_step >= self.steps.len() - 1 {
            self.phase = CalibPhase::Done;
            return;
        }
        let next = current_step + 1;
        match self.steps[next].action {
            StepAction::Baseline => {
                self.phase = CalibPhase::RequestDump(next);
            },
            StepAction::SetParam { .. } | StepAction::SetPreset { .. } => {
                self.phase = CalibPhase::SendCC(next);
            },
        }
    }

    /// Moves the sweep on at time `now` and says what the application has to send.
    pub fn tick(&mut self, now: u64) -> (action: CalibAction)
        requires
            old(self).wf(),
        ensures
            final(self).wf(),
            final(self).steps@ == old(self).steps@,
            final(self).dumps@ == old(self).dumps@,
            match old(self).phase {
                CalibPhase::SendCC(step) => {
                    &&& action == action_message(old(self).steps@[step as int].action)
                    &&& final(self).phase == CalibPhase::Settling(step, now)
                },
                CalibPhase::Settling(step, since) => {
                    &&& action == no_action()
                    &&& final(self).phase == (if now >= since && now - since >= SETTLE_TIME_MS {
                        CalibPhase::RequestDump(step)
                    } else {
                        old(self).phase
                    })
                },
                CalibPhase::RequestDump(step) => {
                    &&& action == (CalibAction { send_cc: None, send_pc: None, trigger_dump: true })
                    &&& final(self).phase == CalibPhase::WaitingDump(step, now)
                },
                CalibPhase::WaitingDump(step, since) => {
                    &&& action == no_action()
                    &&& final(self).phase == (if now >= since && now - since >= DUMP_TIMEOUT_MS {
                        phase_after(old(self).steps@, step as int)
                    } else {
                        old(self).phase
                    })
                },
                _ => action == no_action() && final(self).phase == old(self).phase,
            },
    {
        let mut action = CalibAction { send_cc: None, send_pc: None, trigger_dump: false };
        match self.phase {
            CalibPhase::SendCC(step) => {
                match self.steps[step].action {
                    StepAction::SetParam { midi_ch, cc, value } => {
                        action.send_cc = Some((midi_ch, cc, value));
                    },
                    StepAction::SetPreset { midi_ch, program } => {
                        action.send_pc = Some((midi_ch, program));
                    },
                    StepAction::Baseline => {},
                }
                self.phase = CalibPhase::Settling(step, now);
            },
            CalibPhase::Settling(step, since) => {
                if now.saturating_sub(since) >= SETTLE_TIME_MS {
                    self.phase = CalibPhase::RequestDump(step);
                }
            },
            CalibPhase::RequestDump(step) => {
                action.trigger_dump = true;
                self.phase = CalibPhase::WaitingDump(step, now);
            },
            CalibPhase::WaitingDump(step, since) => {
                if now.saturating_sub(since) >= DUMP_TIMEOUT_MS {
                    self.advance_to_next(step);
                }
            },
            _ => {},
        }
        action
    }

    /// Stores a dump that arrived while one was awaited, under the current step's label,
    /// and moves to the next step; at any other time the dump is ignored.
    pub fn on_dump_received(&mut self, data: Vec<u8>)
        requires
            old(self).wf(),
        ensures
            final(self).wf(),
            final(self).steps@ == old(self).steps@,
            match old(self).phase {
                CalibPhase::WaitingDump(step, _) => {
                    &&& final(self).dumps@.len() == old(self).dumps@.len() + 1
                    &&& final(self).dumps@.drop_last() == old(self).dumps@
                    &&& final(self).dumps@.last().label@ == old(self).steps@[step as int].label@
                    &&& final(self).dumps@.last().data@ == data@
                    &&& final(self).phase == phase_after(old(self).steps@, step as int)
                },
                _ => *final(self) == *old(self),
            },
    {
        if let CalibPhase::WaitingDump(step, _) = self.phase {
            let label = self.steps[step].label.clone();
            self.dumps.push(LabelledDump { label, data });
            self.advance_to_next(step);
        }
    }
}

// ── The calibration sweep ───────────────────────────────────────────────

/// The control change numbers of the channel parameters the sweep moves, in order.
pub open spec fn channel_param_cc(k: int) -> u8 {
    if k == 0 {
        7u8
    } else if k == 1 {
        8u8
    } else if k == 2 {
        10u8
    } else if k == 3 {
        11u8
    } else if k == 4 {
        9u8
    } else if k == 5 {
        1u8
    } else if k == 6 {
        2u8
    } else if k == 7 {
        3u8
    } else if k == 8 {
        4u8
    } else if k == 9 {
        14u8
    } else if k == 10 {
        15u8
    } else if k == 11 {
        16u8
    } else if k == 12 {
        17u8
    } else if k == 13 {
        5u8
    } else {
        6u8
    }
}

/// The names of the channel parameters, in the same order.
pub open spec fn channel_param_name(k: int) -> Seq<char> {
    if k == 0 {
        "level"@
    } else if k == 1 {
        "gain"@
    } else if k == 2 {
        "pan"@
    } else if k == 3 {
        "comp"@
    } else if k == 4 {
        "lowcut"@
    } else if k == 5 {
        "eq_low"@
    } else if k == 6 {
        "eq_lowmid"@
    } else if k == 7 {
        "eq_himid"@
    } else if k == 8 {
        "eq_hi"@
    } else if k == 9 {
        "send_mon1"@
    } else if k == 10 {
        "send_mon2"@
    } else if k == 11 {
        "send_fx1"@
    } else if k == 12 {
        "send_fx2"@
    } else if k == 13 {
        "mute"@
    } else {
        "solo"@
    }
}

/// The control change numbers of the bus parameters the sweep moves, in order.
pub open spec fn bus_param_cc(k: int) -> u8 {
    if k == 0 {
        7u8
    } else if k == 1 {
        8u8
    } else if k == 2 {
        10u8
    } else if k == 3 {
        11u8
    } else if k == 4 {
        12u8
    } else if k == 5 {
        13u8
    } else if k == 6 {
        14u8
    } else if k == 7 {
        15u8
    } else if k == 8 {
        16u8
    } else if k == 9 {
        17u8
    } else if k == 10 {
        18u8
    } else {
        19u8
    }
}

/// The names of the bus parameters, in the same order.
pub open spec fn bus_param_name(k: int) -> Seq<char> {
    if k == 0 {
        "level"@
    } else if k == 1 {
        "limiter"@
    } else if k == 2 {
        "balance"@
    } else if k == 3 {
        "9band_62hz"@
    } else if k == 4 {
        "9band_125hz"@
    } else if k == 5 {
        "9band_250hz"@
    } else if k == 6 {
        "9band_500hz"@
    } else if k == 7 {
        "9band_1khz"@
    } else if k == 8 {
        "9band_2khz"@
    } else if k == 9 {
        "9band_4khz"@
    } else if k == 10 {
        "9band_8khz"@
    } else {
        "9band_16khz"@
    }
}

pub open spec fn fx_param_cc(k: int) -> u8 {
    if k == 0 {
        1u8
    } else {
        2u8
    }
}

pub open spec fn fx_param_name(k: int) -> Seq<char> {
    if k == 0 {
        "param1"@
    } else {
        "param2"@
    }
}

/// The labels of the channel strips in dump names.
pub open spec fn channel_tag(k: int) -> Seq<char> {
    if k == 0 {
        "ch1"@
    } else if k == 1 {
        "ch2"@
    } else if k == 2 {
        "ch3"@
    } else if k == 3 {
        "ch4"@
    } else if k == 4 {
        "ch5-6"@
    } else if k == 5 {
        "ch7-8"@
    } else {
        "usb-bt"@
    }
}

/// The labels of the buses in dump names.
pub open spec fn bus_tag(k: int) -> Seq<char> {
    if k == 0 {
        "main"@
    } else if k == 1 {
        "mon1"@
    } else if k == 2 {
        "mon2"@
    } else if k == 3 {
        "fx1"@
    } else {
        "fx2"@
    }
}

pub open spec fn fx_tag(k: int) -> Seq<char> {
    if k == 0 {
        "fx1"@
    } else {
        "fx2"@
    }
}

fn channel_param(k: usize) -> (r: (u8, &'static str))
    requires
        k < 15,
    ensures
        r.0 == channel_param_cc(k as int),
        r.1@ == channel_param_name(k as int),
{
    match k {
        0 => (7, "level"),
        1 => (8, "gain"),
        2 => (10, "pan"),
        3 => (11, "comp"),
        4 => (9, "lowcut"),
        5 => (1, "eq_low"),
        6 => (2, "eq_lowmid"),
        7 => (3, "eq_himid"),
        8 => (4, "eq_hi"),
        9 => (14, "send_mon1"),
        10 => (15, "send_mon2"),
        11 => (16, "send_fx1"),
        12 => (17, "send_fx2"),
        13 => (5, "mute"),
        _ => (6, "solo"),
    }
}

fn bus_param(k: usize) -> (r: (u8, &'static str))
    requires
        k < 12,
    ensures
        r.0 == bus_param_cc(k as int),
        r.1@ == bus_param_name(k as int),
{
    match k {
        0 => (7, "level"),
        1 => (8, "limiter"),
        2 => (10, "balance"),
        3 => (11, "9band_62hz"),
        4 => (12, "9band_125hz"),
        5 => (13, "9band_250hz"),
        6 => (14, "9band_500hz"),
        7 => (15, "9band_1khz"),
        8 => (16, "9band_2khz"),
        9 => (17, "9band_4khz"),
        10 => (18, "9band_8khz"),
        _ => (19, "9band_16khz"),
    }
}

fn fx_param(k: usize) -> (r: (u8, &'static str))
    requires
        k < 2,
    ensures
        r.0 == fx_param_cc(k as int),
        r.1@ == fx_param_name(k as int),
{
    match k {
        0 => (1, "param1"),
        _ => (2, "param2"),
    }
}

fn channel_tag_str(k: usize) -> (r: &'static str)
    requires
        k < 7,
    ensures
        r@ == channel_tag(k as int),
{
    match k {
        0 => "ch1",
        1 => "ch2",
        2 => "ch3",
        3 => "ch4",
        4 => "ch5-6",
        5 => "ch7-8",
        _ => "usb-bt",
    }
}

fn bus_tag_str(k: usize) -> (r: &'static str)
    requires
        k < 5,
    ensures
        r@ == bus_tag(k as int),
{
    match k {
        0 => "main",
        1 => "mon1",
        2 => "mon2",
        3 => "fx1",
        _ => "fx2",
    }
}

fn fx_tag_str(k: usize) -> (r: &'static str)
    requires
        k < 2,
    ensures
        r@ == fx_tag(k as int),
{
    match k {
        0 => "fx1",
        _ => "fx2",
    }
}

/// The parts of the sweep, in the order they run: each moves every parameter of a group
/// to its minimum and maximum, or back to the middle.
#[derive(Debug, Clone, Copy, PartialEq, Eq, Structural)]
pub enum Section {
    ChannelSweep,
    PhantomSweep,
    BusSweep,
    FxSweep,
    PresetSweep,
    ChannelRestore,
    PhantomRestore,
    BusRestore,
    FxRestore,
}

pub open spec fn section_rows(s: Section) -> int {
    match s {
        Section::ChannelSweep => 15,
        Section::PhantomSweep => 2,
        Section::BusSweep => 12,
        Section::FxSweep => 2,
        Section::PresetSweep => 2,
        Section::ChannelRestore => 7,
        Section::PhantomRestore => 2,
        Section::BusRestore => 5,
        Section::FxRestore => 2,
    }
}

pub open spec fn section_cols(s: Section) -> int {
    match s {
        Section::ChannelSweep => 14,
        Section::PhantomSweep => 2,
        Section::BusSweep => 10,
        Section::FxSweep => 4,
        Section::PresetSweep => 2,
        Section::ChannelRestore => 15,
        Section::PhantomRestore => 1,
        Section::BusRestore => 12,
        Section::FxRestore => 2,
    }
}

/// The value of the minimum (`v == 0`) or the maximum step of a sweep.
pub open spec fn sweep_value(v: int) -> u8 {
    if v == 0 {
        0
    } else {
        127
    }
}

pub open spec fn sweep_suffix(v: int) -> Seq<char> {
    if v == 0 {
        "_min"@
    } else {
        "_max"@
    }
}

/// The step in row `r` and column `c` of a section. In a sweep the rows are the parameters
/// and each target takes two columns (minimum, maximum); in a restore the rows are the
/// targets and the columns their parameters, set back to 64.
pub open spec fn section_step(s: Section, r: int, c: int) -> (StepAction, Seq<char>) {
    match s {
        Section::ChannelSweep => (
            StepAction::SetParam {
                midi_ch: (c / 2) as u8,
                cc: channel_param_cc(r),
                value: sweep_value(c % 2),
            },
            channel_tag(c / 2) + "_"@ + channel_param_name(r) + sweep_suffix(c % 2),
        ),
        Section::PhantomSweep => (
            StepAction::SetParam { midi_ch: r as u8, cc: 12, value: sweep_value(c) },
            channel_tag(r) + "_phantom"@ + sweep_suffix(c),
        ),
        Section::BusSweep => (
            StepAction::SetParam {
                midi_ch: (7 + c / 2) as u8,
                cc: bus_param_cc(r),
                value: sweep_value(c % 2),
            },
            bus_tag(c / 2) + "_"@ + bus_param_name(r) + sweep_suffix(c % 2),
        ),
        Section::FxSweep => (
            StepAction::SetParam {
                midi_ch: (13 + c / 2) as u8,
                cc: fx_param_cc(r),
                value: sweep_value(c % 2),
            },
            fx_tag(c / 2) + "_"@ + fx_param_name(r) + sweep_suffix(c % 2),
        ),
        Section::PresetSweep => (
            StepAction::SetPreset { midi_ch: (13 + r) as u8, program: if c == 0 { 0 } else { 15 } },
            fx_tag(r) + "_preset"@ + sweep_suffix(c),
        ),
        Section::ChannelRestore => (
            StepAction::SetParam { midi_ch: r as u8, cc: channel_param_cc(c), value: 64 },
            "restore_ch"@ + decimal(r as nat) + "_"@ + channel_param_name(c),
        ),
        Section::PhantomRestore => (
            StepAction::SetParam { midi_ch: r as u8, cc: 12, value: 0 },
            "restore_"@ + channel_tag(r) + "_phantom"@,
        ),
        Section::BusRestore => (
            StepAction::SetParam { midi_ch: (7 + r) as u8, cc: bus_param_cc(c), value: 64 },
            "restore_"@ + bus_tag(r) + "_"@ + bus_param_name(c),
        ),
        Section::FxRestore => (
            StepAction::SetParam { midi_ch: (13 + r) as u8, cc: fx_param_cc(c), value: 64 },
            "restore_"@ + fx_tag(r) + "_"@ + fx_param_name(c),
        ),
    }
}

/// The steps of a section, row by row.
pub open spec fn section_steps(s: Section) -> Seq<(StepAction, Seq<char>)> {
    Seq::new(
        (section_rows(s) * section_cols(s)) as nat,
        |k: int| section_step(s, k / section_cols(s), k % section_cols(s)),
    )
}

/// The whole sweep: a baseline dump, every section in turn, and a final dump.
pub open spec fn calibration_steps() -> Seq<(StepAction, Seq<char>)> {
    seq![(StepAction::Baseline, "baseline"@)] + section_steps(Section::ChannelSweep)
        + section_steps(Section::PhantomSweep) + section_steps(Section::BusSweep)
        + section_steps(Section::FxSweep) + section_steps(Section::PresetSweep)
        + section_steps(Section::ChannelRestore) + section_steps(Section::PhantomRestore)
        + section_steps(Section::BusRestore) + section_steps(Section::FxRestore)
        + seq![(StepAction::Baseline, "final_state"@)]
}

pub open spec fn step_view(s: CalibStep) -> (StepAction, Seq<char>) {
    (s.action, s.label@)
}

pub open spec fn steps_view(steps: Seq<CalibStep>) -> Seq<(StepAction, Seq<char>)> {
    steps.map_values(|s: CalibStep| step_view(s))
}

fn section_size(s: Section) -> (r: (usize, usize))
    ensures
        r.0 == section_rows(s),
        r.1 == section_cols(s),
{
    match s {
        Section::ChannelSweep => (15, 14),
        Section::PhantomSweep => (2, 2),
        Section::BusSweep => (12, 10),
        Section::FxSweep => (2, 4),
        Section::PresetSweep => (2, 2),
        Section::ChannelRestore => (7, 15),
        Section::PhantomRestore => (2, 1),
        Section::BusRestore => (5, 12),
        Section::FxRestore => (2, 2),
    }
}

fn sweep_suffix_str(v: usize) -> (s: &'static str)
    ensures
        s@ == sweep_suffix(v as int),
{
    if v == 0 {
        "_min"
    } else {
        "_max"
    }
}

fn sweep_value_exec(v: usize) -> (r: u8)
    ensures
        r == sweep_value(v as int),
{
    if v == 0 {
        0
    } else {
        127
    }
}

/// The step in row `r` and column `c` of section `s`.
fn section_step_exec(s: Section, r: usize, c: usize) -> (step: CalibStep)
    requires
        r < section_rows(s),
        c < section_cols(s),
    ensures
        step_view(step) == section_step(s, r as int, c as int),
{
    match s {
        Section::ChannelSweep => {
            let (cc, name) = channel_param(r);
            let mut label = String::from_str(channel_tag_str(c / 2));
            label.append("_");
            label.append(name);
            label.append(sweep_suffix_str(c % 2));
            CalibStep {
                action: StepAction::SetParam { midi_ch: (c / 2) as u8, cc, value: sweep_value_exec(c % 2) },
                label,
            }
        },
        Section::PhantomSweep => {
            let mut label = String::from_str(channel_tag_str(r));
            label.append("_phantom");
            label.append(sweep_suffix_str(c));
            CalibStep {
                action: StepAction::SetParam { midi_ch: r as u8, cc: 12, value: sweep_value_exec(c) },
                label,
            }
        },
        Section::BusSweep => {
            let (cc, name) = bus_param(r);
            let mut label = String::from_str(bus_tag_str(c / 2));
            label.append("_");
            label.append(name);
            label.append(sweep_suffix_str(c % 2));
            CalibStep {
                action: StepAction::SetParam {
                    midi_ch: (7 + c / 2) as u8,
                    cc,
                    value: sweep_value_exec(c % 2),
                },
                label,
            }
        },
        Section::FxSweep => {
            let (cc, name) = fx_param(r);
            let mut label = String::from_str(fx_tag_str(c / 2));
            label.append("_");
            label.append(name);
            label.append(sweep_suffix_str(c % 2));
            CalibStep {
                action: StepAction::SetParam {
                    midi_ch: (13 + c / 2) as u8,
                    cc,
                    value: sweep_value_exec(c % 2),
                },
                label,
            }
        },
        Section::PresetSweep => {
            let mut label = String::from_str(fx_tag_str(r));
            label.append("_preset");
            label.append(sweep_suffix_str(c));
            CalibStep {
                action: StepAction::SetPreset {
                    midi_ch: (13 + r) as u8,
                    program: if c == 0 {
                        0
                    } else {
                        15
                    },
                },
                label,
            }
        },
        Section::ChannelRestore => {
            let (cc, name) = channel_param(c);
            let mut label = String::from_str("restore_ch");
            push_decimal(&mut label, r as u64);
            label.append("_");
            label.append(name);
            CalibStep { action: StepAction::SetParam { midi_ch: r as u8, cc, value: 64 }, label }
        },
        Section::PhantomRestore => {
            let mut label = String::from_str("restore_");
            label.append(channel_tag_str(r));
            label.append("_phantom");
            CalibStep { action: StepAction::SetParam { midi_ch: r as u8, cc: 12, value: 0 }, label }
        },
        Section::BusRestore => {
            let (cc, name) = bus_param(c);
            let mut label = String::from_str("restore_");
            label.append(bus_tag_str(r));
            label.append("_");
            label.append(name);
            CalibStep {
                action: StepAction::SetParam { midi_ch: (7 + r) as u8, cc, value: 64 },
                label,
            }
        },
        Section::FxRestore => {
            let (cc, name) = fx_param(c);
            let mut label = String::from_str("restore_");
            label.append(fx_tag_str(r));
            label.append("_");
            label.append(name);
            CalibStep {
                action: StepAction::SetParam { midi_ch: (13 + r) as u8, cc, value: 64 },
                label,
            }
        },
    }
}

proof fn lemma_grid_index(r: int, c: int, cols: int)
    requires
        0 <= r,
        0 <= c < cols,
    ensures
        (r * cols + c) / cols == r,
        (r * cols + c) % cols == c,
        r * cols + cols == (r + 1) * cols,
{
    vstd::arithmetic::div_mod::lemma_fundamental_div_mod_converse(r * cols + c, cols, r, c);
    assert(r * cols + cols == (r + 1) * cols) by (nonlinear_arith);
}

/// Appends the steps of one section.
pub fn push_section(steps: &mut Vec<CalibStep>, s: Section)
    ensures
        steps_view(final(steps)@) == steps_view(old(steps)@) + section_steps(s),
{
    let (rows, cols) = section_size(s);
    let ghost start = steps_view(old(steps)@);
    let ghost all = section_steps(s);
    let mut r: usize = 0;
    while r < rows
        invariant
            rows == section_rows(s),
            cols == section_cols(s),
            all == section_steps(s),
            r <= rows,
            steps_view(steps@) == start + all.take(r * cols),
        decreases rows - r,
    {
        let mut c: usize = 0;
        while c < cols
            invariant
                rows == section_rows(s),
                cols == section_cols(s),
                all == section_steps(s),
                r < rows,
                c <= cols,
                steps_view(steps@) == start + all.take(r * cols + c),
            decreases cols - c,
        {
            let step = section_step_exec(s, r, c);
            let ghost before = steps@;
            proof {
                lemma_grid_index(r as int, c as int, cols as int);
                assert(r * cols + c < rows * cols) by (nonlinear_arith)
                    requires
                        r < rows,
                        c < cols,
                ;
            }
            steps.push(step);
            assert(steps_view(steps@) =~= steps_view(before).push(step_view(step)));
            assert(all.take(r * cols + c + 1) =~= all.take(r * cols + c).push(all[r * cols + c]));
            c = c + 1;
        }
        proof {
            lemma_grid_index(r as int, 0, cols as int);
        }
        r = r + 1;
    }
    assert(all.take(rows * cols) =~= all);
}

/// The whole calibration sweep, step by step.
pub fn build_calibration_steps() -> (steps: Vec<CalibStep>)
    ensures
        steps_view(steps@) == calibration_steps(),
{
    let mut steps: Vec<CalibStep> = Vec::new();
    steps.push(CalibStep { action: StepAction::Baseline, label: String::from_str("baseline") });
    assert(steps_view(steps@) =~= seq![(StepAction::Baseline, "baseline"@)]);
    push_section(&mut steps, Section::ChannelSweep);
    push_section(&mut steps, Section::PhantomSweep);
    push_section(&mut steps, Section::BusSweep);
    push_section(&mut steps, Section::FxSweep);
    push_section(&mut steps, Section::PresetSweep);
    push_section(&mut steps, Section::ChannelRestore);
    push_section(&mut steps, Section::PhantomRestore);
    push_section(&mut steps, Section::BusRestore);
    push_section(&mut steps, Section::FxRestore);
    let ghost before = steps@;
    steps.push(CalibStep { action: StepAction::Baseline, label: String::from_str("final_state") });
    assert(steps_view(steps@) =~= steps_view(before).push((StepAction::Baseline, "final_state"@)));
    assert(steps_view(steps@) =~= calibration_steps());
    steps
}


// ── Laws of the sweep ──────────────────────────────────────────────────

/// Where a section's steps begin in the whole sweep.
pub open spec fn section_start(s: Section) -> int {
    match s {
        Section::ChannelSweep => 1,
        Section::PhantomSweep => 211,
        Section::BusSweep => 215,
        Section::FxSweep => 335,
        Section::PresetSweep => 343,
        Section::ChannelRestore => 347,
        Section::PhantomRestore => 452,
        Section::BusRestore => 454,
        Section::FxRestore => 514,
    }
}

proof fn lemma_section_entry(s: Section, r: int, c: int)
    requires
        0 <= r < section_rows(s),
        0 <= c < section_cols(s),
    ensures
        calibration_steps().len() == 519,
        calibration_steps()[section_start(s) + r * section_cols(s) + c] == section_step(s, r, c),
{
    let cols = section_cols(s);
    let k = r * cols + c;
    vstd::arithmetic::div_mod::lemma_fundamental_div_mod_converse(k, cols, r, c);
    assert(0 <= k < section_rows(s) * cols) by (nonlinear_arith)
        requires
            0 <= r < section_rows(s),
            0 <= c < cols,
            k == r * cols + c,
    ;
    assert(section_steps(s)[k] == section_step(s, r, c));
    let all = calibration_steps();
    let p0 = seq![(StepAction::Baseline, "baseline"@)];
    let p1 = p0 + section_steps(Section::ChannelSweep);
    let p2 = p1 + section_steps(Section::PhantomSweep);
    let p3 = p2 + section_steps(Section::BusSweep);
    let p4 = p3 + section_steps(Section::FxSweep);
    let p5 = p4 + section_steps(Section::PresetSweep);
    let p6 = p5 + section_steps(Section::ChannelRestore);
    let p7 = p6 + section_steps(Section::PhantomRestore);
    let p8 = p7 + section_steps(Section::BusRestore);
    let p9 = p8 + section_steps(Section::FxRestore);
    assert(all == p9 + seq![(StepAction::Baseline, "final_state"@)]);
    assert(p1.len() == 211);
    assert(p2.len() == 215);
    assert(p3.len() == 335);
    assert(p4.len() == 343);
    assert(p5.len() == 347);
    assert(p6.len() == 452);
    assert(p7.len() == 454);
    assert(p8.len() == 514);
    assert(p9.len() == 518);
    let i = section_start(s) + k;
    assert(all[i] == p9[i]);
    match s {
        Section::ChannelSweep => {
            assert(p9[i] == p1[i]);
        },
        Section::PhantomSweep => {
            assert(p9[i] == p2[i]);
        },
        Section::BusSweep => {
            assert(p9[i] == p3[i]);
        },
        Section::FxSweep => {
            assert(p9[i] == p4[i]);
        },
        Section::PresetSweep => {
            assert(p9[i] == p5[i]);
        },
        Section::ChannelRestore => {
            assert(p9[i] == p6[i]);
        },
        Section::PhantomRestore => {
            assert(p9[i] == p7[i]);
        },
        Section::BusRestore => {
            assert(p9[i] == p8[i]);
        },
        Section::FxRestore => {},
    }
}

/// Each step of the channel sweep moves the parameter its label names with the control
/// change that the mixer's chart gives that parameter: the step labelled
/// `<channel>_<parameter>_min` (or `_max`) sends that control change on the channel's MIDI
/// channel with value 0 (or 127).
pub proof fn law_channel_sweep_follows_chart(t: int, r: int, v: int)
    requires
        0 <= t < 7,
        0 <= r < 15,
        0 <= v < 2,
    ensures
        ({
            let (action, label) = calibration_steps()[1 + 14 * r + 2 * t + v];
            &&& label == channel_tag(t) + "_"@ + channel_param_name(r) + (if v == 0 { "_min"@ } else { "_max"@ })
            &&& action matches StepAction::SetParam { midi_ch, cc, value }
            &&& midi_ch == t
            &&& value == (if v == 0 { 0u8 } else { 127u8 })
            &&& charted(channel_chart(), channel_param_name(r), cc)
        }),
{
    lemma_section_entry(Section::ChannelSweep, r, 2 * t + v);
    assert((2 * t + v) / 2 == t && (2 * t + v) % 2 == v);
    lemma_channel_row_charted(r);
}

proof fn lemma_channel_row_charted(r: int)
    requires
        0 <= r < 15,
    ensures
        charted(channel_chart(), channel_param_name(r), channel_param_cc(r)),
{
    let ch = channel_chart();
    let k: int = if r == 0 { 6 } else if r == 1 { 7 } else if r == 2 { 9 } else if r == 3 { 10 }
        else if r == 4 { 8 } else if r == 5 { 0 } else if r == 6 { 1 } else if r == 7 { 2 }
        else if r == 8 { 3 } else if r == 9 { 12 } else if r == 10 { 13 } else if r == 11 { 14 }
        else if r == 12 { 15 } else if r == 13 { 4 } else { 5 };
    assert(ch[k] == (channel_param_name(r), channel_param_cc(r)));
}

/// Each step of the bus sweep moves the parameter its label names with the control change
/// that the mixer's chart gives it, on the bus's MIDI channel (7 Main to 11 FX 2).
pub proof fn law_bus_sweep_follows_chart(b: int, r: int, v: int)
    requires
        0 <= b < 5,
        0 <= r < 12,
        0 <= v < 2,
    ensures
        ({
            let (action, label) = calibration_steps()[215 + 10 * r + 2 * b + v];
            &&& label == bus_tag(b) + "_"@ + bus_param_name(r) + (if v == 0 { "_min"@ } else { "_max"@ })
            &&& action matches StepAction::SetParam { midi_ch, cc, value }
            &&& midi_ch == 7 + b
            &&& value == (if v == 0 { 0u8 } else { 127u8 })
            &&& charted(bus_chart(), bus_param_name(r), cc)
        }),
{
    lemma_section_entry(Section::BusSweep, r, 2 * b + v);
    assert((2 * b + v) / 2 == b && (2 * b + v) % 2 == v);
    lemma_bus_row_charted(r);
}

/// Each step of the effect parameter sweep moves the parameter its label names with the
/// control change that the mixer's chart gives it, on the processor's MIDI channel (13 or
/// 14).
pub proof fn law_fx_sweep_follows_chart(f: int, r: int, v: int)
    requires
        0 <= f < 2,
        0 <= r < 2,
        0 <= v < 2,
    ensures
        ({
            let (action, label) = calibration_steps()[335 + 4 * r + 2 * f + v];
            &&& label == fx_tag(f) + "_"@ + fx_param_name(r) + (if v == 0 { "_min"@ } else { "_max"@ })
            &&& action matches StepAction::SetParam { midi_ch, cc, value }
            &&& midi_ch == 13 + f
            &&& value == (if v == 0 { 0u8 } else { 127u8 })
            &&& charted(fx_chart(), fx_param_name(r), cc)
        }),
{
    lemma_section_entry(Section::FxSweep, r, 2 * f + v);
    assert((2 * f + v) / 2 == f && (2 * f + v) % 2 == v);
    lemma_fx_row_charted(r);
}

/// The phantom power steps switch the 48V of channels 1 and 2 off and on with the
/// chart's phantom control change; the preset steps choose an effect's first and last
/// preset; the phantom restore switches it off again.
pub proof fn law_switch_and_preset_steps(i: int, v: int)
    requires
        0 <= i < 2,
        0 <= v < 2,
    ensures
        ({
            let (action, label) = calibration_steps()[211 + 2 * i + v];
            &&& label == channel_tag(i) + "_phantom"@ + (if v == 0 { "_min"@ } else { "_max"@ })
            &&& action matches StepAction::SetParam { midi_ch, cc, value }
            &&& midi_ch == i
            &&& value == (if v == 0 { 0u8 } else { 127u8 })
            &&& charted(channel_chart(), "phantom"@, cc)
        }),
        ({
            let (action, label) = calibration_steps()[343 + 2 * i + v];
            &&& label == fx_tag(i) + "_preset"@ + (if v == 0 { "_min"@ } else { "_max"@ })
            &&& action == (StepAction::SetPreset { midi_ch: (13 + i) as u8, program: if v == 0 { 0u8 } else { 15u8 } })
        }),
        ({
            let (action, label) = calibration_steps()[452 + i];
            &&& label == "restore_"@ + channel_tag(i) + "_phantom"@
            &&& action matches StepAction::SetParam { midi_ch, cc, value }
            &&& midi_ch == i
            &&& value == 0
            &&& charted(channel_chart(), "phantom"@, cc)
        }),
{
    lemma_section_entry(Section::PhantomSweep, i, v);
    lemma_section_entry(Section::PresetSweep, i, v);
    lemma_section_entry(Section::PhantomRestore, i, 0);
    assert(channel_chart()[11] == ("phantom"@, 12u8));
}

/// The restore steps set every parameter of every channel, bus and effect processor back
/// to the middle (64), each with the control change that the mixer's chart gives the
/// parameter named in its label.
pub proof fn law_restores_follow_chart(r: int, c: int)
    ensures
        0 <= r < 7 && 0 <= c < 15 ==> {
            let (action, label) = calibration_steps()[347 + 15 * r + c];
            &&& label == "restore_ch"@ + decimal(r as nat) + "_"@ + channel_param_name(c)
            &&& action matches StepAction::SetParam { midi_ch, cc, value }
            &&& midi_ch == r
            &&& value == 64
            &&& charted(channel_chart(), channel_param_name(c), cc)
        },
        0 <= r < 5 && 0 <= c < 12 ==> {
            let (action, label) = calibration_steps()[454 + 12 * r + c];
            &&& label == "restore_"@ + bus_tag(r) + "_"@ + bus_param_name(c)
            &&& action matches StepAction::SetParam { midi_ch, cc, value }
            &&& midi_ch == 7 + r
            &&& value == 64
            &&& charted(bus_chart(), bus_param_name(c), cc)
        },
        0 <= r < 2 && 0 <= c < 2 ==> {
            let (action, label) = calibration_steps()[514 + 2 * r + c];
            &&& label == "restore_"@ + fx_tag(r) + "_"@ + fx_param_name(c)
            &&& action matches StepAction::SetParam { midi_ch, cc, value }
            &&& midi_ch == 13 + r
            &&& value == 64
            &&& charted(fx_chart(), fx_param_name(c), cc)
        },
{
    if 0 <= r < 7 && 0 <= c < 15 {
        lemma_section_entry(Section::ChannelRestore, r, c);
        lemma_channel_row_charted(c);
    }
    if 0 <= r < 5 && 0 <= c < 12 {
        lemma_section_entry(Section::BusRestore, r, c);
        lemma_bus_row_charted(c);
    }
    if 0 <= r < 2 && 0 <= c < 2 {
        lemma_section_entry(Section::FxRestore, r, c);
        lemma_fx_row_charted(c);
    }
}

proof fn lemma_bus_row_charted(r: int)
    requires
        0 <= r < 12,
    ensures
        charted(bus_chart(), bus_param_name(r), bus_param_cc(r)),
{
    assert(bus_chart()[r] == (bus_param_name(r), bus_param_cc(r)));
}

proof fn lemma_fx_row_charted(r: int)
    requires
        0 <= r < 2,
    ensures
        charted(fx_chart(), fx_param_name(r), fx_param_cc(r)),
{
    assert(fx_chart()[r] == (fx_param_name(r), fx_param_cc(r)));
}


/// The sweep is 519 steps long: a baseline dump first and a dump of the final state last,
/// both taken without changing anything.
pub proof fn law_sweep_starts_and_ends_with_plain_dumps()
    ensures
        calibration_steps().len() == 519,
        calibration_steps()[0] == (StepAction::Baseline, "baseline"@),
        calibration_steps()[518] == (StepAction::Baseline, "final_state"@),
{
    lemma_section_entry(Section::ChannelSweep, 0, 0);
}
} // verus!
