use vstd::prelude::*;

use crate::ble::BleStatus;
use crate::calibration::{calibration_steps, steps_view, CalibPhase};
use crate::channels::{
    bus_with_sync, channel_all_synced, channel_with_sync, BasicChannelStrip, Bus, BusId, BusIdx, BusStrip, Channel,
    ChannelId, ChannelSends, FourBandEQ, FxSlot, FxSlotId, NineBandEQ, PhantomPower,
};
use crate::controller::{millis_since, FLOW8Controller, SyncInterval, DOUBLE_CLICK_MS, SNAPSHOT_RESYNC_DELAY_MS};
use crate::midi_chart::{bus_chart, channel_chart, charted, fx_chart};
use crate::page::Page;
use crate::tray::TrayEvent;

verus! {

/// What the user did in the interface.
#[derive(Debug, Clone, Copy, PartialEq, Eq, Structural)]
pub enum InterfaceMessage {
    NavigateTo(Page),
    RetryConnection,
    Disconnect,
    Mute(ChannelId, bool),
    Solo(ChannelId, bool),
    Gain(ChannelId, u8),
    Level(ChannelId, u8),
    Balance(ChannelId, u8),
    LowCut(ChannelId, u8),
    Compressor(ChannelId, u8),
    PhantomPower(ChannelId),
    EqLow(ChannelId, u8),
    EqLowMid(ChannelId, u8),
    EqHiMid(ChannelId, u8),
    EqHi(ChannelId, u8),
    SendMon1(ChannelId, u8),
    SendMon2(ChannelId, u8),
    SendFx1(ChannelId, u8),
    SendFx2(ChannelId, u8),
    BusLevel(BusIdx, BusId, u8),
    BusBalance(BusIdx, BusId, u8),
    BusLimiter(BusIdx, BusId, u8),
    BusNineBandEq(BusIdx, BusId, u8, u8),
    FxPreset(FxSlotId, u8),
    FxParam1(FxSlotId, u8),
    FxParam2(FxSlotId, u8),
    FxMute,
    TapTempo,
    LoadSnapshot(u8),
    ResetMixer,
    SyncIntervalChanged(SyncInterval),
    CloseToTrayChanged(bool),
    OpenManual,
    OpenRepository,
    OpenDonation,
    CopyDebugLog,
    SaveDebugLog,
    CopyHexDump,
    BleConnect,
    BleRequestDump,
    CalibrateStart,
    DigestRun,
    TrayEvent(TrayEvent),
}

/// A MIDI message for the mixer (channels counted from 0).
#[derive(Debug, Clone, Copy, PartialEq, Eq, Structural)]
pub enum MidiCommand {
    ControlChange { channel: u8, controller: u8, value: u8 },
    ProgramChange { channel: u8, program: u8 },
    NoteOn { channel: u8, note: u8, velocity: u8 },
}

/// The bytes of a MIDI message: the status byte (kind and channel), then its data bytes.
pub open spec fn midi_bytes(c: MidiCommand) -> Seq<u8> {
    match c {
        MidiCommand::ControlChange { channel, controller, value } => seq![0xB0u8 | channel, controller, value],
        MidiCommand::ProgramChange { channel, program } => seq![0xC0u8 | channel, program],
        MidiCommand::NoteOn { channel, note, velocity } => seq![0x90u8 | channel, note, velocity],
    }
}

impl MidiCommand {
    /// The bytes to send for this message.
    pub fn to_bytes(&self) -> (b: Vec<u8>)
        ensures
            b@ == midi_bytes(*self),
    {
        let b = match *self {
            MidiCommand::ControlChange { channel, controller, value } => vec![0xB0u8 | channel, controller, value],
            MidiCommand::ProgramChange { channel, program } => vec![0xC0u8 | channel, program],
            MidiCommand::NoteOn { channel, note, velocity } => vec![0x90u8 | channel, note, velocity],
        };
        assert(b@ =~= midi_bytes(*self));
        b
    }
}

/// The pages the interface links to.
#[derive(Debug, Clone, Copy, PartialEq, Eq, Structural)]
pub enum Link {
    Manual,
    Repository,
    Donation,
}

pub open spec fn link_url(l: Link) -> Seq<char> {
    match l {
        Link::Manual => "https://github.com/abelroes/flow-8-midi/blob/main/docs/MANUAL.md"@,
        Link::Repository => "https://github.com/abelroes/flow-8-midi"@,
        Link::Donation => "https://buymeacoffee.com/abelroes"@,
    }
}

impl Link {
    pub fn url(&self) -> (s: &'static str)
        ensures
            s@ == link_url(*self),
    {
        match *self {
            Link::Manual => "https://github.com/abelroes/flow-8-midi/blob/main/docs/MANUAL.md",
            Link::Repository => "https://github.com/abelroes/flow-8-midi",
            Link::Donation => "https://buymeacoffee.com/abelroes",
        }
    }
}

/// Work that a message leaves to the application, in the order it is to be done.
#[derive(Debug, Clone, Copy, PartialEq, Eq, Structural)]
pub enum Effect {
    /// Send this message, if a MIDI output is connected.
    Midi(MidiCommand),
    /// Look for the mixer among the MIDI ports and connect to it.
    ConnectMidi,
    /// Drop the Bluetooth link and stop listening to it.
    CloseBle,
    /// Begin a Bluetooth connection (see `start_ble_connection`).
    StartBle,
    /// Ask the mixer for a state dump over Bluetooth; on success `record_dump_sent`.
    TriggerDump,
    /// Store the user's settings.
    PersistSettings,
    /// Open a page in the browser.
    Open(Link),
    CopyDebugLog,
    SaveDebugLog,
    /// Copy the hex dump of the last SysEx dump to the clipboard.
    CopyHexDump,
    /// Run the file based calibration digest.
    RunDigest,
}

/// What the application knows of its links when a message arrives.
#[derive(Debug, Clone, Copy, PartialEq, Eq, Structural)]
pub struct Links {
    pub midi_connected: bool,
    pub ble_connected: bool,
}

/// The messages that name existing channels, buses and effects, and whose MIDI numbers
/// stay within a byte.
pub open spec fn message_in_range(m: InterfaceMessage) -> bool {
    match m {
        InterfaceMessage::Mute(ch, _) => ch < 7,
        InterfaceMessage::Solo(ch, _) => ch < 7,
        InterfaceMessage::Gain(ch, _) => ch < 7,
        InterfaceMessage::Level(ch, _) => ch < 7,
        InterfaceMessage::Balance(ch, _) => ch < 7,
        InterfaceMessage::LowCut(ch, _) => ch < 7,
        InterfaceMessage::Compressor(ch, _) => ch < 7,
        InterfaceMessage::PhantomPower(ch) => ch < 7,
        InterfaceMessage::EqLow(ch, _) => ch < 7,
        InterfaceMessage::EqLowMid(ch, _) => ch < 7,
        InterfaceMessage::EqHiMid(ch, _) => ch < 7,
        InterfaceMessage::EqHi(ch, _) => ch < 7,
        InterfaceMessage::SendMon1(ch, _) => ch < 7,
        InterfaceMessage::SendMon2(ch, _) => ch < 7,
        InterfaceMessage::SendFx1(ch, _) => ch < 7,
        InterfaceMessage::SendFx2(ch, _) => ch < 7,
        InterfaceMessage::BusLevel(idx, _, _) => idx < 5,
        InterfaceMessage::BusBalance(idx, _, _) => idx < 5,
        InterfaceMessage::BusLimiter(idx, _, _) => idx < 5,
        InterfaceMessage::BusNineBandEq(idx, _, band, _) => idx < 5 && band <= 244,
        InterfaceMessage::FxPreset(fx, preset) => fx < 2 && preset < 255,
        InterfaceMessage::FxParam1(fx, _) => fx < 2,
        InterfaceMessage::FxParam2(fx, _) => fx < 2,
        InterfaceMessage::LoadSnapshot(n) => n < 255,
        _ => true,
    }
}

/// Checks `message_in_range`.
pub fn is_in_range(m: &InterfaceMessage) -> (r: bool)
    ensures
        r == message_in_range(*m),
{
    match *m {
        InterfaceMessage::Mute(ch, _) => ch < 7,
        InterfaceMessage::Solo(ch, _) => ch < 7,
        InterfaceMessage::Gain(ch, _) => ch < 7,
        InterfaceMessage::Level(ch, _) => ch < 7,
        InterfaceMessage::Balance(ch, _) => ch < 7,
        InterfaceMessage::LowCut(ch, _) => ch < 7,
        InterfaceMessage::Compressor(ch, _) => ch < 7,
        InterfaceMessage::PhantomPower(ch) => ch < 7,
        InterfaceMessage::EqLow(ch, _) => ch < 7,
        InterfaceMessage::EqLowMid(ch, _) => ch < 7,
        InterfaceMessage::EqHiMid(ch, _) => ch < 7,
        InterfaceMessage::EqHi(ch, _) => ch < 7,
        InterfaceMessage::SendMon1(ch, _) => ch < 7,
        InterfaceMessage::SendMon2(ch, _) => ch < 7,
        InterfaceMessage::SendFx1(ch, _) => ch < 7,
        InterfaceMessage::SendFx2(ch, _) => ch < 7,
        InterfaceMessage::BusLevel(idx, _, _) => idx < 5,
        InterfaceMessage::BusBalance(idx, _, _) => idx < 5,
        InterfaceMessage::BusLimiter(idx, _, _) => idx < 5,
        InterfaceMessage::BusNineBandEq(idx, _, band, _) => idx < 5 && band <= 244,
        InterfaceMessage::FxPreset(fx, preset) => fx < 2 && preset < 255,
        InterfaceMessage::FxParam1(fx, _) => fx < 2,
        InterfaceMessage::FxParam2(fx, _) => fx < 2,
        InterfaceMessage::LoadSnapshot(n) => n < 255,
        _ => true,
    }
}

pub open spec fn cc(channel: u8, controller: u8, value: u8) -> Option<MidiCommand> {
    Some(MidiCommand::ControlChange { channel, controller, value })
}

pub open spec fn on_off(flag: bool) -> u8 {
    if flag {
        127
    } else {
        0
    }
}

/// The MIDI message a user action sends to the mixer. Inputs use their own channel; buses
/// use 7 (Main) to 11 (FX 2); the effects 13 and 14; global functions 15.
pub open spec fn midi_for(m: InterfaceMessage) -> Option<MidiCommand> {
    match m {
        InterfaceMessage::Mute(ch, muted) => cc(ch, 5, on_off(!muted)),
        InterfaceMessage::Solo(ch, soloed) => cc(ch, 6, on_off(!soloed)),
        InterfaceMessage::Gain(ch, v) => cc(ch, 8, v),
        InterfaceMessage::Level(ch, v) => cc(ch, 7, v),
        InterfaceMessage::Balance(ch, v) => cc(ch, 10, v),
        InterfaceMessage::LowCut(ch, v) => cc(ch, 9, v),
        InterfaceMessage::Compressor(ch, v) => cc(ch, 11, v),
        InterfaceMessage::EqLow(ch, v) => cc(ch, 1, v),
        InterfaceMessage::EqLowMid(ch, v) => cc(ch, 2, v),
        InterfaceMessage::EqHiMid(ch, v) => cc(ch, 3, v),
        InterfaceMessage::EqHi(ch, v) => cc(ch, 4, v),
        InterfaceMessage::SendMon1(ch, v) => cc(ch, 14, v),
        InterfaceMessage::SendMon2(ch, v) => cc(ch, 15, v),
        InterfaceMessage::SendFx1(ch, v) => cc(ch, 16, v),
        InterfaceMessage::SendFx2(ch, v) => cc(ch, 17, v),
        InterfaceMessage::BusLevel(_, bus, v) => cc(bus, 7, v),
        InterfaceMessage::BusBalance(_, bus, v) => cc(bus, 10, v),
        InterfaceMessage::BusLimiter(_, bus, v) => cc(bus, 8, v),
        InterfaceMessage::BusNineBandEq(_, bus, band, v) => cc(bus, (11 + band) as u8, v),
        InterfaceMessage::FxPreset(fx, preset) => Some(
            MidiCommand::ProgramChange { channel: (13 + fx) as u8, program: (preset + 1) as u8 },
        ),
        InterfaceMessage::FxParam1(fx, v) => cc((13 + fx) as u8, 1, v),
        InterfaceMessage::FxParam2(fx, v) => cc((13 + fx) as u8, 2, v),
        InterfaceMessage::TapTempo => Some(MidiCommand::NoteOn { channel: 15, note: 0, velocity: 127 }),
        InterfaceMessage::LoadSnapshot(n) => Some(
            MidiCommand::ProgramChange { channel: 15, program: (n + 1) as u8 },
        ),
        InterfaceMessage::ResetMixer => Some(MidiCommand::ProgramChange { channel: 15, program: 16 }),
        _ => None,
    }
}

fn control_change(channel: u8, controller: u8, value: u8) -> (r: Option<MidiCommand>)
    ensures
        r == cc(channel, controller, value),
{
    Some(MidiCommand::ControlChange { channel, controller, value })
}

fn on_off_value(flag: bool) -> (r: u8)
    ensures
        r == on_off(flag),
{
    if flag {
        127
    } else {
        0
    }
}

/// The MIDI message that a user action sends to the mixer, if any.
pub fn match_midi_command(message: &InterfaceMessage) -> (r: Option<MidiCommand>)
    requires
        message_in_range(*message),
    ensures
        r == midi_for(*message),
{
    match *message {
        InterfaceMessage::Mute(ch, muted) => control_change(ch, 5, on_off_value(!muted)),
        InterfaceMessage::Solo(ch, soloed) => control_change(ch, 6, on_off_value(!soloed)),
        InterfaceMessage::Gain(ch, v) => control_change(ch, 8, v),
        InterfaceMessage::Level(ch, v) => control_change(ch, 7, v),
        InterfaceMessage::Balance(ch, v) => control_change(ch, 10, v),
        InterfaceMessage::LowCut(ch, v) => control_change(ch, 9, v),
        InterfaceMessage::Compressor(ch, v) => control_change(ch, 11, v),
        InterfaceMessage::EqLow(ch, v) => control_change(ch, 1, v),
        InterfaceMessage::EqLowMid(ch, v) => control_change(ch, 2, v),
        InterfaceMessage::EqHiMid(ch, v) => control_change(ch, 3, v),
        InterfaceMessage::EqHi(ch, v) => control_change(ch, 4, v),
        InterfaceMessage::SendMon1(ch, v) => control_change(ch, 14, v),
        InterfaceMessage::SendMon2(ch, v) => control_change(ch, 15, v),
        InterfaceMessage::SendFx1(ch, v) => control_change(ch, 16, v),
        InterfaceMessage::SendFx2(ch, v) => control_change(ch, 17, v),
        InterfaceMessage::BusLevel(_, bus, v) => control_change(bus, 7, v),
        InterfaceMessage::BusBalance(_, bus, v) => control_change(bus, 10, v),
        InterfaceMessage::BusLimiter(_, bus, v) => control_change(bus, 8, v),
        InterfaceMessage::BusNineBandEq(_, bus, band, v) => control_change(bus, 11 + band, v),
        InterfaceMessage::FxPreset(fx, preset) => Some(
            MidiCommand::ProgramChange { channel: 13 + fx, program: preset + 1 },
        ),
        InterfaceMessage::FxParam1(fx, v) => control_change(13 + fx, 1, v),
        InterfaceMessage::FxParam2(fx, v) => control_change(13 + fx, 2, v),
        InterfaceMessage::TapTempo => Some(MidiCommand::NoteOn { channel: 15, note: 0, velocity: 127 }),
        InterfaceMessage::LoadSnapshot(n) => Some(MidiCommand::ProgramChange { channel: 15, program: n + 1 }),
        InterfaceMessage::ResetMixer => Some(MidiCommand::ProgramChange { channel: 15, program: 16 }),
        _ => None,
    }
}

// ── The interface's response to a message ──────────────────────────────

/// Time from `earlier` to `now` in milliseconds; zero if the clock went back.
pub open spec fn elapsed(earlier: u64, now: u64) -> u64 {
    if now >= earlier {
        (now - earlier) as u64
    } else {
        0
    }
}

/// Whether a click at `now` completes a double click begun at `prev`.
pub open spec fn is_double_click(prev: Option<u64>, now: u64) -> bool {
    prev matches Some(p) && elapsed(p, now) < DOUBLE_CLICK_MS
}

/// `new` is `old` with channel `i` replaced by `c`.
pub open spec fn with_channel(old: FLOW8Controller, new: FLOW8Controller, i: int, c: Channel) -> bool {
    &&& new.channels@ == old.channels@.update(i, c)
    &&& new == (FLOW8Controller { channels: new.channels, ..old })
}

/// `new` is `old` with bus `i` replaced by `b`.
pub open spec fn with_bus(old: FLOW8Controller, new: FLOW8Controller, i: int, b: Bus) -> bool {
    &&& new.buses@ == old.buses@.update(i, b)
    &&& new == (FLOW8Controller { buses: new.buses, ..old })
}

/// `new` is `old` with effect slot `i` replaced by `f`.
pub open spec fn with_fx(old: FLOW8Controller, new: FLOW8Controller, i: int, f: FxSlot) -> bool {
    &&& new.fx_slots@ == old.fx_slots@.update(i, f)
    &&& new == (FLOW8Controller { fx_slots: new.fx_slots, ..old })
}

/// Every parameter of `new` is marked unsynced; the parameters themselves are those of `old`.
pub open spec fn all_unsynced(old: FLOW8Controller, new: FLOW8Controller) -> bool {
    &&& new.channels@.len() == old.channels@.len()
    &&& new.buses@.len() == old.buses@.len()
    &&& new.fx_slots@.len() == old.fx_slots@.len()
    &&& forall|i: int| 0 <= i < old.channels@.len() ==> #[trigger] new.channels@[i] == channel_with_sync(old.channels@[i], false)
    &&& forall|i: int| 0 <= i < old.buses@.len() ==> #[trigger] new.buses@[i] == bus_with_sync(old.buses@[i], false)
    &&& forall|i: int| 0 <= i < old.fx_slots@.len() ==> #[trigger] new.fx_slots@[i] == old.fx_slots@[i].with_sync(false)
}

/// The equaliser with band `band` (0 = 62 Hz .. 8 = 16 kHz) set to `v`, flags untouched.
pub open spec fn band_value(eq: NineBandEQ, band: int, v: u8) -> NineBandEQ {
    if band == 0 {
        NineBandEQ { freq_62_hz: v, ..eq }
    } else if band == 1 {
        NineBandEQ { freq_125_hz: v, ..eq }
    } else if band == 2 {
        NineBandEQ { freq_250_hz: v, ..eq }
    } else if band == 3 {
        NineBandEQ { freq_500_hz: v, ..eq }
    } else if band == 4 {
        NineBandEQ { freq_1_khz: v, ..eq }
    } else if band == 5 {
        NineBandEQ { freq_2_khz: v, ..eq }
    } else if band == 6 {
        NineBandEQ { freq_4_khz: v, ..eq }
    } else if band == 7 {
        NineBandEQ { freq_8_khz: v, ..eq }
    } else {
        NineBandEQ { freq_16_khz: v, ..eq }
    }
}

/// `new` is `old` with band `band` set to `v` and its synced mark set to `synced`.
pub open spec fn band_set(old: NineBandEQ, new: NineBandEQ, band: int, v: u8, synced: bool) -> bool {
    &&& new.bands_synced@ == old.bands_synced@.update(band, synced)
    &&& new == (NineBandEQ { bands_synced: new.bands_synced, ..band_value(old, band, v) })
}

/// Whether a calibration may begin: none is running, and both MIDI and Bluetooth are there.
pub open spec fn can_start_calibration(c: FLOW8Controller, links: Links) -> bool {
    &&& (c.calibration.phase == CalibPhase::Idle || c.calibration.phase == CalibPhase::Done)
    &&& links.midi_connected
    &&& links.ble_connected
}

pub open spec fn strip_with(c: Channel, s: BasicChannelStrip) -> Channel {
    Channel { channel_strip: s, ..c }
}

pub open spec fn eq_with(c: Channel, e: FourBandEQ) -> Channel {
    Channel { four_band_eq: e, ..c }
}

pub open spec fn sends_with(c: Channel, s: ChannelSends) -> Channel {
    Channel { sends: s, ..c }
}

/// The channel a channel message is about.
pub open spec fn channel_of(m: InterfaceMessage) -> Option<u8> {
    match m {
        InterfaceMessage::Mute(ch, _) => Some(ch),
        InterfaceMessage::Solo(ch, _) => Some(ch),
        InterfaceMessage::Gain(ch, _) => Some(ch),
        InterfaceMessage::Level(ch, _) => Some(ch),
        InterfaceMessage::Balance(ch, _) => Some(ch),
        InterfaceMessage::LowCut(ch, _) => Some(ch),
        InterfaceMessage::Compressor(ch, _) => Some(ch),
        InterfaceMessage::PhantomPower(ch) => Some(ch),
        InterfaceMessage::EqLow(ch, _) => Some(ch),
        InterfaceMessage::EqLowMid(ch, _) => Some(ch),
        InterfaceMessage::EqHiMid(ch, _) => Some(ch),
        InterfaceMessage::EqHi(ch, _) => Some(ch),
        InterfaceMessage::SendMon1(ch, _) => Some(ch),
        InterfaceMessage::SendMon2(ch, _) => Some(ch),
        InterfaceMessage::SendFx1(ch, _) => Some(ch),
        InterfaceMessage::SendFx2(ch, _) => Some(ch),
        _ => None,
    }
}

/// A channel after a channel message: the value is set and marked unsynced until the mixer
/// confirms it, mute and solo toggle (and are marked unsynced), and the 48V button toggles
/// on a double click (a single click only notes its time).
pub open spec fn channel_after(c: Channel, m: InterfaceMessage, now: u64) -> Channel {
    match m {
        InterfaceMessage::Mute(_, _) => Channel { is_muted: !c.is_muted, mute_synced: false, ..c },
        InterfaceMessage::Solo(_, _) => Channel { is_soloed: !c.is_soloed, solo_synced: false, ..c },
        InterfaceMessage::Gain(_, v) => strip_with(c, BasicChannelStrip { gain: v, gain_synced: false, ..c.channel_strip }),
        InterfaceMessage::Level(_, v) => strip_with(c, BasicChannelStrip { level: v, level_synced: false, ..c.channel_strip }),
        InterfaceMessage::Balance(_, v) => strip_with(c, BasicChannelStrip { balance: v, balance_synced: false, ..c.channel_strip }),
        InterfaceMessage::LowCut(_, v) => strip_with(c, BasicChannelStrip { low_cut: v, low_cut_synced: false, ..c.channel_strip }),
        InterfaceMessage::Compressor(_, v) => strip_with(c, BasicChannelStrip { compressor: v, compressor_synced: false, ..c.channel_strip }),
        InterfaceMessage::PhantomPower(_) => if is_double_click(c.phantom_last_click, now) {
            Channel {
                phantom_pwr: PhantomPower { is_on: !c.phantom_pwr.is_on, ..c.phantom_pwr },
                phantom_last_click: None,
                phantom_synced: false,
                ..c
            }
        } else {
            Channel { phantom_last_click: Some(now), ..c }
        },
        InterfaceMessage::EqLow(_, v) => eq_with(c, FourBandEQ { low: v, low_synced: false, ..c.four_band_eq }),
        InterfaceMessage::EqLowMid(_, v) => eq_with(c, FourBandEQ { low_mid: v, low_mid_synced: false, ..c.four_band_eq }),
        InterfaceMessage::EqHiMid(_, v) => eq_with(c, FourBandEQ { hi_mid: v, hi_mid_synced: false, ..c.four_band_eq }),
        InterfaceMessage::EqHi(_, v) => eq_with(c, FourBandEQ { hi: v, hi_synced: false, ..c.four_band_eq }),
        InterfaceMessage::SendMon1(_, v) => sends_with(c, ChannelSends { mon1: v, mon1_synced: false, ..c.sends }),
        InterfaceMessage::SendMon2(_, v) => sends_with(c, ChannelSends { mon2: v, mon2_synced: false, ..c.sends }),
        InterfaceMessage::SendFx1(_, v) => sends_with(c, ChannelSends { fx1: v, fx1_synced: false, ..c.sends }),
        InterfaceMessage::SendFx2(_, v) => sends_with(c, ChannelSends { fx2: v, fx2_synced: false, ..c.sends }),
        _ => c,
    }
}

/// The bus a bus message is about.
pub open spec fn bus_of(m: InterfaceMessage) -> Option<u8> {
    match m {
        InterfaceMessage::BusLevel(i, _, _) => Some(i),
        InterfaceMessage::BusBalance(i, _, _) => Some(i),
        InterfaceMessage::BusLimiter(i, _, _) => Some(i),
        _ => None,
    }
}

/// A bus after a level, balance or limiter message: the value is set and marked unsynced.
pub open spec fn bus_after(b: Bus, m: InterfaceMessage) -> Bus {
    match m {
        InterfaceMessage::BusLevel(_, _, v) => Bus { bus_strip: BusStrip { level: v, level_synced: false, ..b.bus_strip }, ..b },
        InterfaceMessage::BusBalance(_, _, v) => Bus { bus_strip: BusStrip { balance: v, balance_synced: false, ..b.bus_strip }, ..b },
        InterfaceMessage::BusLimiter(_, _, v) => Bus { bus_strip: BusStrip { limiter: v, limiter_synced: false, ..b.bus_strip }, ..b },
        _ => b,
    }
}

/// The effect slot an effect message is about.
pub open spec fn fx_of(m: InterfaceMessage) -> Option<u8> {
    match m {
        InterfaceMessage::FxPreset(i, _) => Some(i),
        InterfaceMessage::FxParam1(i, _) => Some(i),
        InterfaceMessage::FxParam2(i, _) => Some(i),
        _ => None,
    }
}

/// An effect slot after a preset or parameter message: the value is set and marked unsynced.
pub open spec fn fx_after(f: FxSlot, m: InterfaceMessage) -> FxSlot {
    match m {
        InterfaceMessage::FxPreset(_, v) => FxSlot { preset: v, preset_synced: false, ..f },
        InterfaceMessage::FxParam1(_, v) => FxSlot { param1: v, param1_synced: false, ..f },
        InterfaceMessage::FxParam2(_, v) => FxSlot { param2: v, param2_synced: false, ..f },
        _ => f,
    }
}

/// How a message changes the controller.
pub open spec fn interface_step(old: FLOW8Controller, new: FLOW8Controller, m: InterfaceMessage, now: u64, links: Links) -> bool {
    match channel_of(m) {
        Some(ch) => with_channel(old, new, ch as int, channel_after(old.channels@[ch as int], m, now)),
        None => match bus_of(m) {
            Some(i) => with_bus(old, new, i as int, bus_after(old.buses@[i as int], m)),
            None => match fx_of(m) {
                Some(i) => with_fx(old, new, i as int, fx_after(old.fx_slots@[i as int], m)),
                None => general_step(old, new, m, now, links),
            },
        },
    }
}

/// How the messages that are not about a single channel, bus or effect slot change the
/// controller.
pub open spec fn general_step(old: FLOW8Controller, new: FLOW8Controller, m: InterfaceMessage, now: u64, links: Links) -> bool {
    match m {
        InterfaceMessage::NavigateTo(p) => new == (FLOW8Controller { current_page: p, ..old }),
        InterfaceMessage::RetryConnection => new == (FLOW8Controller { connection_error: None, ..old }),
        InterfaceMessage::Disconnect => {
            &&& all_unsynced(old, new)
            &&& new == (FLOW8Controller {
                channels: new.channels,
                buses: new.buses,
                fx_slots: new.fx_slots,
                ble_status: BleStatus::Disconnected,
                last_sync_time: None,
                ..old
            })
        },
        InterfaceMessage::BusNineBandEq(i, _, band, v) => {
            let b = old.buses@[i as int];
            if band < 9 {
                &&& new.buses@.len() == old.buses@.len()
                &&& new == (FLOW8Controller { buses: new.buses, ..old })
                &&& forall|j: int| 0 <= j < old.buses@.len() && j != i ==> #[trigger] new.buses@[j] == old.buses@[j]
                &&& new.buses@[i as int] == (Bus { nine_band_eq: new.buses@[i as int].nine_band_eq, ..b })
                &&& band_set(b.nine_band_eq, new.buses@[i as int].nine_band_eq, band as int, v, false)
            } else {
                new == old
            }
        },
        InterfaceMessage::FxMute => new == (FLOW8Controller { fx_muted: !old.fx_muted, ..old }),
        InterfaceMessage::LoadSnapshot(_) | InterfaceMessage::ResetMixer => {
            &&& all_unsynced(old, new)
            &&& new == (FLOW8Controller {
                channels: new.channels,
                buses: new.buses,
                fx_slots: new.fx_slots,
                snapshot_resync_at: Some(now),
                ..old
            })
        },
        InterfaceMessage::SyncIntervalChanged(i) => new == (FLOW8Controller { sync_interval: i, ..old }),
        InterfaceMessage::CloseToTrayChanged(b) => new == (FLOW8Controller { close_to_tray_on_close: b, ..old }),
        InterfaceMessage::BleConnect => if is_double_click(old.ble_last_click, now) {
            new == (FLOW8Controller { ble_last_click: None, ..old })
        } else {
            new == (FLOW8Controller { ble_last_click: Some(now), ..old })
        },
        InterfaceMessage::BleRequestDump => new == (FLOW8Controller { sync_last_click: Some(now), ..old }),
        InterfaceMessage::CalibrateStart => if can_start_calibration(old, links) {
            &&& new == (FLOW8Controller { calibration: new.calibration, ..old })
            &&& new.calibration.phase == CalibPhase::RequestDump(0)
            &&& steps_view(new.calibration.steps@) == calibration_steps()
            &&& new.calibration.dumps@.len() == 0
        } else {
            new == old
        },
        _ => new == old,
    }
}

/// The work a message leaves to the application, besides its MIDI message.
pub open spec fn interface_effects(old: FLOW8Controller, m: InterfaceMessage, now: u64) -> Seq<Effect> {
    match m {
        InterfaceMessage::RetryConnection => seq![Effect::ConnectMidi],
        InterfaceMessage::Disconnect => seq![Effect::CloseBle],
        InterfaceMessage::PhantomPower(ch) => {
            let c = old.channels@[ch as int];
            if is_double_click(c.phantom_last_click, now) {
                seq![Effect::Midi(MidiCommand::ControlChange { channel: ch, controller: 12, value: on_off(!c.phantom_pwr.is_on) })]
            } else {
                seq![]
            }
        },
        InterfaceMessage::FxMute => seq![Effect::Midi(MidiCommand::ControlChange { channel: 15, controller: 1, value: on_off(!old.fx_muted) })],
        InterfaceMessage::SyncIntervalChanged(_) => seq![Effect::PersistSettings],
        InterfaceMessage::CloseToTrayChanged(_) => seq![Effect::PersistSettings],
        InterfaceMessage::OpenManual => seq![Effect::Open(Link::Manual)],
        InterfaceMessage::OpenRepository => seq![Effect::Open(Link::Repository)],
        InterfaceMessage::OpenDonation => seq![Effect::Open(Link::Donation)],
        InterfaceMessage::CopyDebugLog => seq![Effect::CopyDebugLog],
        InterfaceMessage::SaveDebugLog => seq![Effect::SaveDebugLog],
        InterfaceMessage::CopyHexDump => if old.last_sysex_dump.is_some() {
            seq![Effect::CopyHexDump]
        } else {
            seq![]
        },
        InterfaceMessage::BleConnect => if is_double_click(old.ble_last_click, now) {
            seq![Effect::StartBle]
        } else {
            seq![]
        },
        InterfaceMessage::BleRequestDump => seq![Effect::TriggerDump],
        InterfaceMessage::DigestRun => seq![Effect::RunDigest],
        _ => seq![],
    }
}

/// The MIDI message of a user action, as work for the application.
pub open spec fn midi_effects(m: InterfaceMessage) -> Seq<Effect> {
    match midi_for(m) {
        Some(c) => seq![Effect::Midi(c)],
        None => seq![],
    }
}

fn is_double_click_exec(prev: Option<u64>, now: u64) -> (r: bool)
    ensures
        r == is_double_click(prev, now),
{
    match prev {
        Some(p) => now.saturating_sub(p) < DOUBLE_CLICK_MS,
        None => false,
    }
}

/// The control change a channel message sends besides its own MIDI message: only a double
/// click on the 48V button has one.
pub open spec fn channel_extra_command(c: Channel, m: InterfaceMessage, now: u64) -> Option<MidiCommand> {
    if m is PhantomPower && is_double_click(c.phantom_last_click, now) {
        Some(MidiCommand::ControlChange {
            channel: channel_of(m).unwrap(),
            controller: 12,
            value: on_off(!c.phantom_pwr.is_on),
        })
    } else {
        None
    }
}

impl Channel {
    fn apply_strip_message(&mut self, message: InterfaceMessage)
        requires
            message is Gain || message is Level || message is Balance || message is LowCut
                || message is Compressor,
        ensures
            *final(self) == channel_after(*old(self), message, 0),
    {
        match message {
            InterfaceMessage::Gain(_, value) => {
                self.channel_strip.gain = value;
                self.channel_strip.gain_synced = false;
            },
            InterfaceMessage::Level(_, value) => {
                self.channel_strip.level = value;
                self.channel_strip.level_synced = false;
            },
            InterfaceMessage::Balance(_, value) => {
                self.channel_strip.balance = value;
                self.channel_strip.balance_synced = false;
            },
            InterfaceMessage::LowCut(_, value) => {
                self.channel_strip.low_cut = value;
                self.channel_strip.low_cut_synced = false;
            },
            InterfaceMessage::Compressor(_, value) => {
                self.channel_strip.compressor = value;
                self.channel_strip.compressor_synced = false;
            },
            _ => {},
        }
    }

    fn apply_eq_message(&mut self, message: InterfaceMessage)
        requires
            message is EqLow || message is EqLowMid || message is EqHiMid || message is EqHi,
        ensures
            *final(self) == channel_after(*old(self), message, 0),
    {
        match message {
            InterfaceMessage::EqLow(_, value) => {
                self.four_band_eq.low = value;
                self.four_band_eq.low_synced = false;
            },
            InterfaceMessage::EqLowMid(_, value) => {
                self.four_band_eq.low_mid = value;
                self.four_band_eq.low_mid_synced = false;
            },
            InterfaceMessage::EqHiMid(_, value) => {
                self.four_band_eq.hi_mid = value;
                self.four_band_eq.hi_mid_synced = false;
            },
            InterfaceMessage::EqHi(_, value) => {
                self.four_band_eq.hi = value;
                self.four_band_eq.hi_synced = false;
            },
            _ => {},
        }
    }

    fn apply_sends_message(&mut self, message: InterfaceMessage)
        requires
            message is SendMon1 || message is SendMon2 || message is SendFx1 || message is SendFx2,
        ensures
            *final(self) == channel_after(*old(self), message, 0),
    {
        match message {
            InterfaceMessage::SendMon1(_, value) => {
                self.sends.mon1 = value;
                self.sends.mon1_synced = false;
            },
            InterfaceMessage::SendMon2(_, value) => {
                self.sends.mon2 = value;
                self.sends.mon2_synced = false;
            },
            InterfaceMessage::SendFx1(_, value) => {
                self.sends.fx1 = value;
                self.sends.fx1_synced = false;
            },
            InterfaceMessage::SendFx2(_, value) => {
                self.sends.fx2 = value;
                self.sends.fx2_synced = false;
            },
            _ => {},
        }
    }

    /// Applies a channel message to this channel; a double click on the 48V button also
    /// gives the control change that switches it.
    #[verifier::spinoff_prover]
    #[verifier::rlimit(30)]
    fn apply_message(&mut self, message: InterfaceMessage, now: u64) -> (cmd: Option<MidiCommand>)
        requires
            channel_of(message) is Some,
        ensures
            *final(self) == channel_after(*old(self), message, now),
            cmd == channel_extra_command(*old(self), message, now),
    {
        match message {
            InterfaceMessage::Mute(_, _) => {
                self.is_muted = !self.is_muted;
                self.mute_synced = false;
                None
            },
            InterfaceMessage::Solo(_, _) => {
                self.is_soloed = !self.is_soloed;
                self.solo_synced = false;
                None
            },
            InterfaceMessage::PhantomPower(ch) => {
                if is_double_click_exec(self.phantom_last_click, now) {
                    self.phantom_pwr.is_on = !self.phantom_pwr.is_on;
                    self.phantom_last_click = None;
                    self.phantom_synced = false;
                    let value = on_off_value(self.phantom_pwr.is_on);
                    Some(MidiCommand::ControlChange { channel: ch, controller: 12, value })
                } else {
                    self.phantom_last_click = Some(now);
                    None
                }
            },
            InterfaceMessage::Gain(..) | InterfaceMessage::Level(..) | InterfaceMessage::Balance(..)
            | InterfaceMessage::LowCut(..) | InterfaceMessage::Compressor(..) => {
                self.apply_strip_message(message);
                None
            },
            InterfaceMessage::EqLow(..) | InterfaceMessage::EqLowMid(..)
            | InterfaceMessage::EqHiMid(..) | InterfaceMessage::EqHi(..) => {
                self.apply_eq_message(message);
                None
            },
            _ => {
                self.apply_sends_message(message);
                None
            },
        }
    }
}

impl Bus {
    fn apply_message(&mut self, message: InterfaceMessage)
        ensures
            *final(self) == bus_after(*old(self), message),
    {
        match message {
            InterfaceMessage::BusLevel(_, _, value) => {
                self.bus_strip.level = value;
                self.bus_strip.level_synced = false;
            },
            InterfaceMessage::BusBalance(_, _, value) => {
                self.bus_strip.balance = value;
                self.bus_strip.balance_synced = false;
            },
            InterfaceMessage::BusLimiter(_, _, value) => {
                self.bus_strip.limiter = value;
                self.bus_strip.limiter_synced = false;
            },
            _ => {},
        }
    }
}

impl FxSlot {
    fn apply_message(&mut self, message: InterfaceMessage)
        ensures
            *final(self) == fx_after(*old(self), message),
    {
        match message {
            InterfaceMessage::FxPreset(_, value) => {
                self.preset = value;
                self.preset_synced = false;
            },
            InterfaceMessage::FxParam1(_, value) => {
                self.param1 = value;
                self.param1_synced = false;
            },
            InterfaceMessage::FxParam2(_, value) => {
                self.param2 = value;
                self.param2_synced = false;
            },
            _ => {},
        }
    }
}

fn channel_index(m: &InterfaceMessage) -> (r: Option<u8>)
    ensures
        r == channel_of(*m),
{
    match *m {
        InterfaceMessage::Mute(ch, _) => Some(ch),
        InterfaceMessage::Solo(ch, _) => Some(ch),
        InterfaceMessage::Gain(ch, _) => Some(ch),
        InterfaceMessage::Level(ch, _) => Some(ch),
        InterfaceMessage::Balance(ch, _) => Some(ch),
        InterfaceMessage::LowCut(ch, _) => Some(ch),
        InterfaceMessage::Compressor(ch, _) => Some(ch),
        InterfaceMessage::PhantomPower(ch) => Some(ch),
        InterfaceMessage::EqLow(ch, _) => Some(ch),
        InterfaceMessage::EqLowMid(ch, _) => Some(ch),
        InterfaceMessage::EqHiMid(ch, _) => Some(ch),
        InterfaceMessage::EqHi(ch, _) => Some(ch),
        InterfaceMessage::SendMon1(ch, _) => Some(ch),
        InterfaceMessage::SendMon2(ch, _) => Some(ch),
        InterfaceMessage::SendFx1(ch, _) => Some(ch),
        InterfaceMessage::SendFx2(ch, _) => Some(ch),
        _ => None,
    }
}

fn bus_index(m: &InterfaceMessage) -> (r: Option<u8>)
    ensures
        r == bus_of(*m),
{
    match *m {
        InterfaceMessage::BusLevel(i, _, _) => Some(i),
        InterfaceMessage::BusBalance(i, _, _) => Some(i),
        InterfaceMessage::BusLimiter(i, _, _) => Some(i),
        _ => None,
    }
}

fn fx_index(m: &InterfaceMessage) -> (r: Option<u8>)
    ensures
        r == fx_of(*m),
{
    match *m {
        InterfaceMessage::FxPreset(i, _) => Some(i),
        InterfaceMessage::FxParam1(i, _) => Some(i),
        InterfaceMessage::FxParam2(i, _) => Some(i),
        _ => None,
    }
}

/// Sets one band of a nine band equaliser and marks it unsynced; bands past the ninth are
/// ignored.
fn set_nine_band(eq: &mut NineBandEQ, band: u8, value: u8)
    ensures
        band < 9 ==> band_set(*old(eq), *final(eq), band as int, value, false),
        band >= 9 ==> *final(eq) == *old(eq),
{
    match band {
        0 => eq.freq_62_hz = value,
        1 => eq.freq_125_hz = value,
        2 => eq.freq_250_hz = value,
        3 => eq.freq_500_hz = value,
        4 => eq.freq_1_khz = value,
        5 => eq.freq_2_khz = value,
        6 => eq.freq_4_khz = value,
        7 => eq.freq_8_khz = value,
        8 => eq.freq_16_khz = value,
        _ => {},
    }
    if (band as usize) < 9 {
        eq.bands_synced[band as usize] = false;
    }
}

/// Sets one band of a bus equaliser (the `BusNineBandEq` message).
fn update_nine_band(controller: &mut FLOW8Controller, i: u8, band: u8, value: u8)
    requires
        old(controller).wf(),
        i < 5,
    ensures
        final(controller).wf(),
        general_step(*old(controller), *final(controller), InterfaceMessage::BusNineBandEq(i, 7, band, value), 0, Links { midi_connected: false, ble_connected: false }),
{
    let ghost before = *controller;
    if band < 9 {
        let bus = &mut controller.buses[i as usize];
        set_nine_band(&mut bus.nine_band_eq, band, value);
        assert(controller.buses@ == before.buses@.update(i as int, controller.buses@[i as int]));
        assert(controller.buses@[i as int] == (Bus {
            nine_band_eq: controller.buses@[i as int].nine_band_eq,
            ..before.buses@[i as int]
        }));
        assert(band_set(before.buses@[i as int].nine_band_eq, controller.buses@[i as int].nine_band_eq, band as int, value, false));
        assert(*controller == (FLOW8Controller { buses: controller.buses, ..before }));
    }
}

/// The rest of `update_interface`: navigation, links, settings, Bluetooth and calibration.
#[verifier::spinoff_prover]
fn update_general(controller: &mut FLOW8Controller, message: InterfaceMessage, now: u64, links: Links) -> (effects: Vec<Effect>)
    requires
        old(controller).wf(),
        message_in_range(message),
        channel_of(message) is None,
        bus_of(message) is None,
        fx_of(message) is None,
    ensures
        final(controller).wf(),
        general_step(*old(controller), *final(controller), message, now, links),
        effects@ == interface_effects(*old(controller), message, now),
{
    let mut effects: Vec<Effect> = Vec::new();
    let ghost before = *controller;
    match message {
        InterfaceMessage::NavigateTo(page) => {
            controller.current_page = page;
        },
        InterfaceMessage::RetryConnection => {
            controller.connection_error = None;
            effects.push(Effect::ConnectMidi);
        },
        InterfaceMessage::Disconnect => {
            controller.ble_status = BleStatus::Disconnected;
            controller.last_sync_time = None;
            controller.mark_all_unsynced();
            effects.push(Effect::CloseBle);
        },
        InterfaceMessage::LoadSnapshot(_) | InterfaceMessage::ResetMixer => {
            controller.mark_all_unsynced();
            controller.snapshot_resync_at = Some(now);
        },
        InterfaceMessage::SyncIntervalChanged(interval) => {
            controller.sync_interval = interval;
            effects.push(Effect::PersistSettings);
        },
        InterfaceMessage::CloseToTrayChanged(enabled) => {
            controller.close_to_tray_on_close = enabled;
            effects.push(Effect::PersistSettings);
        },
        InterfaceMessage::OpenManual => effects.push(Effect::Open(Link::Manual)),
        InterfaceMessage::OpenRepository => effects.push(Effect::Open(Link::Repository)),
        InterfaceMessage::OpenDonation => effects.push(Effect::Open(Link::Donation)),
        InterfaceMessage::CopyDebugLog => effects.push(Effect::CopyDebugLog),
        InterfaceMessage::SaveDebugLog => effects.push(Effect::SaveDebugLog),
        InterfaceMessage::CopyHexDump => {
            if controller.last_sysex_dump.is_some() {
                effects.push(Effect::CopyHexDump);
            }
        },
        InterfaceMessage::BleConnect => {
            if is_double_click_exec(controller.ble_last_click, now) {
                controller.ble_last_click = None;
                effects.push(Effect::StartBle);
            } else {
                controller.ble_last_click = Some(now);
            }
        },
        InterfaceMessage::BleRequestDump => {
            controller.sync_last_click = Some(now);
            effects.push(Effect::TriggerDump);
        },
        InterfaceMessage::CalibrateStart => {
            if !controller.calibration.is_running() && links.midi_connected && links.ble_connected {
                controller.calibration.start();
            }
        },
        InterfaceMessage::DigestRun => effects.push(Effect::RunDigest),
        InterfaceMessage::BusNineBandEq(i, _, band, value) => {
            update_nine_band(controller, i, band, value);
        },
        InterfaceMessage::FxMute => {
            controller.fx_muted = !controller.fx_muted;
            let value = on_off_value(controller.fx_muted);
            effects.push(Effect::Midi(MidiCommand::ControlChange { channel: 15, controller: 1, value }));
        },
        _ => {},
    }
    assert(effects@ =~= interface_effects(before, message, now));
    effects
}

/// How the interface answers a user action at time `now`: the controller is changed as
/// `interface_step` says, and the work left to the application is returned.
pub fn update_interface(controller: &mut FLOW8Controller, message: InterfaceMessage, now: u64, links: Links) -> (effects: Vec<Effect>)
    requires
        old(controller).wf(),
        message_in_range(message),
    ensures
        final(controller).wf(),
        interface_step(*old(controller), *final(controller), message, now, links),
        effects@ == interface_effects(*old(controller), message, now),
{
    let ghost before = *controller;
    if let Some(ch) = channel_index(&message) {
        let mut effects: Vec<Effect> = Vec::new();
        if let Some(cmd) = controller.channels[ch as usize].apply_message(message, now) {
            effects.push(Effect::Midi(cmd));
        }
        assert(effects@ =~= interface_effects(before, message, now));
        effects
    } else if let Some(i) = bus_index(&message) {
        controller.buses[i as usize].apply_message(message);
        assert(interface_effects(before, message, now) =~= Seq::<Effect>::empty());
        Vec::new()
    } else if let Some(i) = fx_index(&message) {
        controller.fx_slots[i as usize].apply_message(message);
        assert(interface_effects(before, message, now) =~= Seq::<Effect>::empty());
        Vec::new()
    } else {
        update_general(controller, message, now, links)
    }
}

/// A user action: its MIDI message for the mixer first, then what `update_interface` does.
pub fn update(controller: &mut FLOW8Controller, message: InterfaceMessage, now: u64, links: Links) -> (effects: Vec<Effect>)
    requires
        old(controller).wf(),
        message_in_range(message),
    ensures
        final(controller).wf(),
        interface_step(*old(controller), *final(controller), message, now, links),
        effects@ == midi_effects(message) + interface_effects(*old(controller), message, now),
{
    let mut effects: Vec<Effect> = Vec::new();
    if let Some(command) = match_midi_command(&message) {
        effects.push(Effect::Midi(command));
    }
    let mut rest = update_interface(controller, message, now, links);
    let ghost first = effects@;
    effects.append(&mut rest);
    assert(first =~= midi_effects(message));
    effects
}

// ── Laws of the interface ───────────────────────────────────────────────

/// Muting a channel twice gives back its mute state and leaves everything else as it was;
/// the mute now waits for the mixer's confirmation.
pub proof fn law_mute_twice_restores(s0: FLOW8Controller, s1: FLOW8Controller, s2: FLOW8Controller, ch: u8, a: bool, b: bool, t1: u64, t2: u64, l1: Links, l2: Links)
    requires
        s0.wf(),
        ch < 7,
        interface_step(s0, s1, InterfaceMessage::Mute(ch, a), t1, l1),
        interface_step(s1, s2, InterfaceMessage::Mute(ch, b), t2, l2),
    ensures
        s2.channels@ == s0.channels@.update(ch as int, Channel { mute_synced: false, ..s0.channels@[ch as int] }),
        s2 == (FLOW8Controller { channels: s2.channels, ..s0 }),
{
    assert(s2.channels@ =~= s0.channels@.update(ch as int, Channel { mute_synced: false, ..s0.channels@[ch as int] }));
}

/// Switching the effects mute twice gives back the first state.
pub proof fn law_fx_mute_twice_restores(s0: FLOW8Controller, s1: FLOW8Controller, s2: FLOW8Controller, t1: u64, t2: u64, l1: Links, l2: Links)
    requires
        interface_step(s0, s1, InterfaceMessage::FxMute, t1, l1),
        interface_step(s1, s2, InterfaceMessage::FxMute, t2, l2),
    ensures
        s2 == s0,
{
}

/// After a snapshot is loaded, the mixer reset or Bluetooth disconnected, the interface no
/// longer counts as synced with the mixer.
pub proof fn law_unsynced_after_snapshot_reset_disconnect(s0: FLOW8Controller, s1: FLOW8Controller, m: InterfaceMessage, now: u64, links: Links)
    requires
        s0.wf(),
        m is LoadSnapshot || m is ResetMixer || m is Disconnect,
        interface_step(s0, s1, m, now, links),
    ensures
        !s1.globally_synced(),
{
    assert(!channel_all_synced(s1.channels@[0]));
}

/// The 48V switch toggles only on a double click: a first click notes its time and leaves
/// the switch alone; a second click less than 500 ms later toggles it (and sends the
/// control change that switches the mixer) and forgets the first click.
pub proof fn law_phantom_double_click(s0: FLOW8Controller, s1: FLOW8Controller, s2: FLOW8Controller, ch: u8, t1: u64, t2: u64, l1: Links, l2: Links)
    requires
        s0.wf(),
        ch < 7,
        s0.channels@[ch as int].phantom_last_click is None,
        interface_step(s0, s1, InterfaceMessage::PhantomPower(ch), t1, l1),
        interface_step(s1, s2, InterfaceMessage::PhantomPower(ch), t2, l2),
    ensures
        s1.channels@[ch as int].phantom_pwr == s0.channels@[ch as int].phantom_pwr,
        interface_effects(s0, InterfaceMessage::PhantomPower(ch), t1).len() == 0,
        t2 >= t1 && t2 - t1 < DOUBLE_CLICK_MS ==> {
            &&& s2.channels@[ch as int].phantom_pwr.is_on == !s0.channels@[ch as int].phantom_pwr.is_on
            &&& s2.channels@[ch as int].phantom_last_click is None
            &&& interface_effects(s1, InterfaceMessage::PhantomPower(ch), t2) == seq![Effect::Midi(MidiCommand::ControlChange {
                channel: ch,
                controller: 12,
                value: on_off(!s0.channels@[ch as int].phantom_pwr.is_on),
            })]
        },
        t2 >= t1 + DOUBLE_CLICK_MS ==> s2.channels@[ch as int].phantom_pwr == s0.channels@[ch as int].phantom_pwr,
{
}

/// A level set from the interface holds the value sent and shows as unsynced until the
/// mixer confirms it, so the interface as a whole no longer counts as synced; every other
/// channel stays as it was.
pub proof fn law_set_level_marks_unsynced(s0: FLOW8Controller, s1: FLOW8Controller, ch: u8, v: u8, now: u64, links: Links)
    requires
        s0.wf(),
        ch < 7,
        interface_step(s0, s1, InterfaceMessage::Level(ch, v), now, links),
    ensures
        s1.channels@[ch as int].channel_strip.level == v,
        !s1.channels@[ch as int].channel_strip.level_synced,
        !s1.globally_synced(),
        forall|j: int| 0 <= j < 7 && j != ch ==> #[trigger] s1.channels@[j] == s0.channels@[j],
{
    assert(!channel_all_synced(s1.channels@[ch as int]));
}


/// Loading a snapshot (or resetting the mixer) schedules a re-sync that falls due exactly
/// when half a second has passed since.
pub proof fn law_snapshot_resync_delay(s0: FLOW8Controller, s1: FLOW8Controller, m: InterfaceMessage, t: u64, links: Links, later: u64)
    requires
        s0.wf(),
        m is LoadSnapshot || m is ResetMixer,
        interface_step(s0, s1, m, t, links),
    ensures
        s1.resync_due(later) == (millis_since(t, later) >= SNAPSHOT_RESYNC_DELAY_MS),
{
}

/// The Bluetooth indicator connects only on a double click: a first click notes its time
/// and starts nothing; a second click less than 500 ms later starts the connection and
/// forgets the first click.
pub proof fn law_ble_connect_double_click(s0: FLOW8Controller, s1: FLOW8Controller, s2: FLOW8Controller, t1: u64, t2: u64, l1: Links, l2: Links)
    requires
        s0.ble_last_click is None,
        interface_step(s0, s1, InterfaceMessage::BleConnect, t1, l1),
        interface_step(s1, s2, InterfaceMessage::BleConnect, t2, l2),
    ensures
        interface_effects(s0, InterfaceMessage::BleConnect, t1).len() == 0,
        s1.ble_last_click == Some(t1),
        t2 >= t1 && t2 - t1 < DOUBLE_CLICK_MS ==> {
            &&& interface_effects(s1, InterfaceMessage::BleConnect, t2) == seq![Effect::StartBle]
            &&& s2.ble_last_click is None
        },
        t2 >= t1 + DOUBLE_CLICK_MS ==> interface_effects(s1, InterfaceMessage::BleConnect, t2).len() == 0,
{
}


/// The name, in the mixer's MIDI chart, of the parameter that a channel message moves.
pub open spec fn channel_message_param(m: InterfaceMessage) -> Option<Seq<char>> {
    match m {
        InterfaceMessage::Mute(..) => Some("mute"@),
        InterfaceMessage::Solo(..) => Some("solo"@),
        InterfaceMessage::Level(..) => Some("level"@),
        InterfaceMessage::Gain(..) => Some("gain"@),
        InterfaceMessage::LowCut(..) => Some("lowcut"@),
        InterfaceMessage::Balance(..) => Some("pan"@),
        InterfaceMessage::Compressor(..) => Some("comp"@),
        InterfaceMessage::EqLow(..) => Some("eq_low"@),
        InterfaceMessage::EqLowMid(..) => Some("eq_lowmid"@),
        InterfaceMessage::EqHiMid(..) => Some("eq_himid"@),
        InterfaceMessage::EqHi(..) => Some("eq_hi"@),
        InterfaceMessage::SendMon1(..) => Some("send_mon1"@),
        InterfaceMessage::SendMon2(..) => Some("send_mon2"@),
        InterfaceMessage::SendFx1(..) => Some("send_fx1"@),
        InterfaceMessage::SendFx2(..) => Some("send_fx2"@),
        _ => None,
    }
}

/// The value a knob or fader message carries.
pub open spec fn message_value(m: InterfaceMessage) -> Option<u8> {
    match m {
        InterfaceMessage::Level(_, v) => Some(v),
        InterfaceMessage::Gain(_, v) => Some(v),
        InterfaceMessage::Balance(_, v) => Some(v),
        InterfaceMessage::LowCut(_, v) => Some(v),
        InterfaceMessage::Compressor(_, v) => Some(v),
        InterfaceMessage::EqLow(_, v) => Some(v),
        InterfaceMessage::EqLowMid(_, v) => Some(v),
        InterfaceMessage::EqHiMid(_, v) => Some(v),
        InterfaceMessage::EqHi(_, v) => Some(v),
        InterfaceMessage::SendMon1(_, v) => Some(v),
        InterfaceMessage::SendMon2(_, v) => Some(v),
        InterfaceMessage::SendFx1(_, v) => Some(v),
        InterfaceMessage::SendFx2(_, v) => Some(v),
        InterfaceMessage::BusLevel(_, _, v) => Some(v),
        InterfaceMessage::BusBalance(_, _, v) => Some(v),
        InterfaceMessage::BusLimiter(_, _, v) => Some(v),
        InterfaceMessage::FxParam1(_, v) => Some(v),
        InterfaceMessage::FxParam2(_, v) => Some(v),
        _ => None,
    }
}

/// Every channel action reaches the mixer as a control change on the channel's own MIDI
/// channel, with the control change that the mixer's chart gives the parameter it moves:
/// a knob or fader passes its value on, mute and solo send 127 to switch on and 0 to
/// switch off.
pub proof fn law_channel_midi_follows_chart(m: InterfaceMessage)
    requires
        channel_message_param(m) is Some,
    ensures
        midi_for(m) matches Some(MidiCommand::ControlChange { channel, controller, value })
            && Some(channel) == channel_of(m)
            && charted(channel_chart(), channel_message_param(m).unwrap(), controller)
            && (message_value(m) matches Some(v) ==> value == v)
            && (m matches InterfaceMessage::Mute(_, muted) ==> value == (if muted { 0u8 } else { 127u8 }))
            && (m matches InterfaceMessage::Solo(_, soloed) ==> value == (if soloed { 0u8 } else { 127u8 })),
{
    let c = channel_chart();
    match m {
        InterfaceMessage::EqLow(..) => assert(c[0] == ("eq_low"@, 1u8)),
        InterfaceMessage::EqLowMid(..) => assert(c[1] == ("eq_lowmid"@, 2u8)),
        InterfaceMessage::EqHiMid(..) => assert(c[2] == ("eq_himid"@, 3u8)),
        InterfaceMessage::EqHi(..) => assert(c[3] == ("eq_hi"@, 4u8)),
        InterfaceMessage::Mute(..) => assert(c[4] == ("mute"@, 5u8)),
        InterfaceMessage::Solo(..) => assert(c[5] == ("solo"@, 6u8)),
        InterfaceMessage::Level(..) => assert(c[6] == ("level"@, 7u8)),
        InterfaceMessage::Gain(..) => assert(c[7] == ("gain"@, 8u8)),
        InterfaceMessage::LowCut(..) => assert(c[8] == ("lowcut"@, 9u8)),
        InterfaceMessage::Balance(..) => assert(c[9] == ("pan"@, 10u8)),
        InterfaceMessage::Compressor(..) => assert(c[10] == ("comp"@, 11u8)),
        InterfaceMessage::SendMon1(..) => assert(c[12] == ("send_mon1"@, 14u8)),
        InterfaceMessage::SendMon2(..) => assert(c[13] == ("send_mon2"@, 15u8)),
        InterfaceMessage::SendFx1(..) => assert(c[14] == ("send_fx1"@, 16u8)),
        InterfaceMessage::SendFx2(..) => assert(c[15] == ("send_fx2"@, 17u8)),
        _ => {},
    }
}

/// Bus and effect actions reach the mixer as the control change that the mixer's chart
/// gives the parameter they move, on the MIDI channel of the bus or processor, with the
/// value set; a bus EQ band is control change 11 for 62 Hz up to 19 for 16 kHz.
pub proof fn law_bus_and_fx_midi_follow_chart(m: InterfaceMessage)
    ensures
        m matches InterfaceMessage::BusLevel(_, bus, v) ==> midi_for(m) matches Some(MidiCommand::ControlChange { channel, controller, value })
            && channel == bus && value == v && charted(bus_chart(), "level"@, controller),
        m matches InterfaceMessage::BusBalance(_, bus, v) ==> midi_for(m) matches Some(MidiCommand::ControlChange { channel, controller, value })
            && channel == bus && value == v && charted(bus_chart(), "balance"@, controller),
        m matches InterfaceMessage::BusLimiter(_, bus, v) ==> midi_for(m) matches Some(MidiCommand::ControlChange { channel, controller, value })
            && channel == bus && value == v && charted(bus_chart(), "limiter"@, controller),
        m matches InterfaceMessage::BusNineBandEq(_, bus, band, v) ==> (band < 9 ==> (midi_for(m) matches Some(MidiCommand::ControlChange { channel, controller, value })
            && channel == bus && value == v && controller == bus_chart()[3 + band].1)),
        m matches InterfaceMessage::FxParam1(fx, v) ==> (fx < 2 ==> (midi_for(m) matches Some(MidiCommand::ControlChange { channel, controller, value })
            && channel == 13 + fx && value == v && charted(fx_chart(), "param1"@, controller))),
        m matches InterfaceMessage::FxParam2(fx, v) ==> (fx < 2 ==> (midi_for(m) matches Some(MidiCommand::ControlChange { channel, controller, value })
            && channel == 13 + fx && value == v && charted(fx_chart(), "param2"@, controller))),
{
    assert(bus_chart()[0] == ("level"@, 7u8));
    assert(bus_chart()[1] == ("limiter"@, 8u8));
    assert(bus_chart()[2] == ("balance"@, 10u8));
    assert(fx_chart()[0] == ("param1"@, 1u8));
    assert(fx_chart()[1] == ("param2"@, 2u8));
}

/// The values a channel's knobs and faders hold, in a fixed order.
pub open spec fn channel_values(c: Channel) -> Seq<u8> {
    seq![
        c.channel_strip.level,
        c.channel_strip.gain,
        c.channel_strip.balance,
        c.channel_strip.low_cut,
        c.channel_strip.compressor,
        c.four_band_eq.low,
        c.four_band_eq.low_mid,
        c.four_band_eq.hi_mid,
        c.four_band_eq.hi,
        c.sends.mon1,
        c.sends.mon2,
        c.sends.fx1,
        c.sends.fx2,
    ]
}

/// Where, in `channel_values`, the value a message moves sits.
pub open spec fn value_position(m: InterfaceMessage) -> Option<int> {
    match m {
        InterfaceMessage::Level(..) => Some(0),
        InterfaceMessage::Gain(..) => Some(1),
        InterfaceMessage::Balance(..) => Some(2),
        InterfaceMessage::LowCut(..) => Some(3),
        InterfaceMessage::Compressor(..) => Some(4),
        InterfaceMessage::EqLow(..) => Some(5),
        InterfaceMessage::EqLowMid(..) => Some(6),
        InterfaceMessage::EqHiMid(..) => Some(7),
        InterfaceMessage::EqHi(..) => Some(8),
        InterfaceMessage::SendMon1(..) => Some(9),
        InterfaceMessage::SendMon2(..) => Some(10),
        InterfaceMessage::SendFx1(..) => Some(11),
        InterfaceMessage::SendFx2(..) => Some(12),
        _ => None,
    }
}

/// A knob or fader moved in the interface sets exactly its own value on its own channel:
/// the channel's other values, and every other channel, stay as they were.
pub proof fn law_knob_sets_only_its_value(s0: FLOW8Controller, s1: FLOW8Controller, m: InterfaceMessage, now: u64, links: Links)
    requires
        s0.wf(),
        message_in_range(m),
        value_position(m) is Some,
        interface_step(s0, s1, m, now, links),
    ensures
        ({
            let ch = channel_of(m).unwrap() as int;
            &&& channel_values(s1.channels@[ch]) == channel_values(s0.channels@[ch]).update(value_position(m).unwrap(), message_value(m).unwrap())
            &&& forall|j: int| 0 <= j < s0.channels@.len() && j != ch ==> #[trigger] s1.channels@[j] == s0.channels@[j]
            &&& s1.channels@.len() == s0.channels@.len()
        }),
{
    let ch = channel_of(m).unwrap() as int;
    assert(channel_values(s1.channels@[ch]) =~= channel_values(s0.channels@[ch]).update(value_position(m).unwrap(), message_value(m).unwrap()));
}

/// Switching a bus's value from the interface sets exactly that value of that bus.
pub proof fn law_bus_knob_sets_only_its_value(s0: FLOW8Controller, s1: FLOW8Controller, m: InterfaceMessage, now: u64, links: Links)
    requires
        s0.wf(),
        message_in_range(m),
        bus_of(m) is Some,
        interface_step(s0, s1, m, now, links),
    ensures
        ({
            let i = bus_of(m).unwrap() as int;
            let (b0, b1) = (s0.buses@[i].bus_strip, s1.buses@[i].bus_strip);
            &&& (m is BusLevel ==> b1.level == message_value(m).unwrap() && b1.balance == b0.balance && b1.limiter == b0.limiter)
            &&& (m is BusBalance ==> b1.balance == message_value(m).unwrap() && b1.level == b0.level && b1.limiter == b0.limiter)
            &&& (m is BusLimiter ==> b1.limiter == message_value(m).unwrap() && b1.level == b0.level && b1.balance == b0.balance)
            &&& s1.buses@[i].nine_band_eq == s0.buses@[i].nine_band_eq
            &&& forall|j: int| 0 <= j < s0.buses@.len() && j != i ==> #[trigger] s1.buses@[j] == s0.buses@[j]
        }),
{
}

/// Setting an effect's preset or parameter from the interface sets exactly that value.
pub proof fn law_fx_knob_sets_only_its_value(s0: FLOW8Controller, s1: FLOW8Controller, m: InterfaceMessage, now: u64, links: Links)
    requires
        s0.wf(),
        message_in_range(m),
        fx_of(m) is Some,
        interface_step(s0, s1, m, now, links),
    ensures
        ({
            let i = fx_of(m).unwrap() as int;
            let (f0, f1) = (s0.fx_slots@[i], s1.fx_slots@[i]);
            &&& (m matches InterfaceMessage::FxPreset(_, p) ==> f1.preset == p && f1.param1 == f0.param1 && f1.param2 == f0.param2)
            &&& (m matches InterfaceMessage::FxParam1(_, v) ==> f1.param1 == v && f1.preset == f0.preset && f1.param2 == f0.param2)
            &&& (m matches InterfaceMessage::FxParam2(_, v) ==> f1.param2 == v && f1.preset == f0.preset && f1.param1 == f0.param1)
            &&& forall|j: int| 0 <= j < s0.fx_slots@.len() && j != i ==> #[trigger] s1.fx_slots@[j] == s0.fx_slots@[j]
        }),
{
}


/// The global and effect-preset actions, as the mixer's chart has them: effect preset `p`
/// (counted from 0) is program change p + 1 on the processor's MIDI channel (13 or 14);
/// snapshot `n` (from 0) is program change n + 1 on channel 15, and program 16 there
/// resets the mixer; tap tempo is a note 0 at full velocity on channel 15.
pub proof fn law_program_and_note_messages(m: InterfaceMessage)
    requires
        message_in_range(m),
    ensures
        m matches InterfaceMessage::FxPreset(fx, p) ==> midi_for(m) == Some(MidiCommand::ProgramChange { channel: (13 + fx) as u8, program: (p + 1) as u8 }),
        m matches InterfaceMessage::LoadSnapshot(n) ==> midi_for(m) == Some(MidiCommand::ProgramChange { channel: 15, program: (n + 1) as u8 }),
        m is ResetMixer ==> midi_for(m) == Some(MidiCommand::ProgramChange { channel: 15, program: 16 }),
        m is TapTempo ==> midi_for(m) == Some(MidiCommand::NoteOn { channel: 15, note: 0, velocity: 127 }),
{
}
} // verus!
