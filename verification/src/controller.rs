use vstd::prelude::*;
use vstd::string::StringExecFns;

use crate::ble::BleStatus;
use crate::channels::{
    bus_all_synced, bus_with_sync, channel_all_synced, channel_with_sync, AudioConnection,
    BasicChannelStrip, Bus, BusStrip, BusType, Channel, ChannelSends, ChannelType, FourBandEQ,
    FxSlot, NineBandEQ, PhantomPower, PhantomPowerType,
};
use crate::calibration::{phase_after, CalibPhase, CalibrationState};
use crate::sysex::{is_flow8_dump, validate_sysex_dump, SysExDump};
use crate::tray::TrayEvent;
use crate::page::Page;

verus! {

/// Number of input channel strips (Ch 1 .. Ch 7 / USB-BT).
pub const CHANNEL_COUNT: usize = 7;

/// Number of output buses (Main, Mon 1, Mon 2, FX 1, FX 2).
pub const BUS_COUNT: usize = 5;

/// Number of effect processors.
pub const FX_SLOT_COUNT: usize = 2;

/// Two clicks closer than this (milliseconds) make a double click.
pub const DOUBLE_CLICK_MS: u64 = 500;

/// How long after a snapshot load or a reset the mixer is asked for its state again.
pub const SNAPSHOT_RESYNC_DELAY_MS: u64 = 500;

/// How often the application asks the mixer for its state over Bluetooth.
#[derive(Copy, Clone, Debug, PartialEq, Eq, Structural)]
pub enum SyncInterval {
    Never,
    Seconds30,
    Minutes1,
    Minutes2,
    Minutes5,
    Minutes10,
    Minutes15,
}

/// The period of an interval in seconds; `None` for `Never`.
pub open spec fn interval_secs(i: SyncInterval) -> Option<u64> {
    match i {
        SyncInterval::Never => None,
        SyncInterval::Seconds30 => Some(30),
        SyncInterval::Minutes1 => Some(60),
        SyncInterval::Minutes2 => Some(120),
        SyncInterval::Minutes5 => Some(300),
        SyncInterval::Minutes10 => Some(600),
        SyncInterval::Minutes15 => Some(900),
    }
}

/// The name of an interval as the settings page shows it and the settings file stores it.
pub open spec fn interval_label(i: SyncInterval) -> Seq<char> {
    match i {
        SyncInterval::Never => "Never"@,
        SyncInterval::Seconds30 => "30s"@,
        SyncInterval::Minutes1 => "1 min"@,
        SyncInterval::Minutes2 => "2 min"@,
        SyncInterval::Minutes5 => "5 min"@,
        SyncInterval::Minutes10 => "10 min"@,
        SyncInterval::Minutes15 => "15 min"@,
    }
}

/// Every interval, in the order the settings page lists them.
pub open spec fn all_intervals() -> Seq<SyncInterval> {
    seq![
        SyncInterval::Never,
        SyncInterval::Seconds30,
        SyncInterval::Minutes1,
        SyncInterval::Minutes2,
        SyncInterval::Minutes5,
        SyncInterval::Minutes10,
        SyncInterval::Minutes15,
    ]
}

impl SyncInterval {
    pub fn as_secs(&self) -> (r: Option<u64>)
        ensures
            r == interval_secs(*self),
    {
        match *self {
            SyncInterval::Never => None,
            SyncInterval::Seconds30 => Some(30),
            SyncInterval::Minutes1 => Some(60),
            SyncInterval::Minutes2 => Some(120),
            SyncInterval::Minutes5 => Some(300),
            SyncInterval::Minutes10 => Some(600),
            SyncInterval::Minutes15 => Some(900),
        }
    }

    pub fn to_string(&self) -> (s: String)
        ensures
            s@ == interval_label(*self),
    {
        match *self {
            SyncInterval::Never => String::from_str("Never"),
            SyncInterval::Seconds30 => String::from_str("30s"),
            SyncInterval::Minutes1 => String::from_str("1 min"),
            SyncInterval::Minutes2 => String::from_str("2 min"),
            SyncInterval::Minutes5 => String::from_str("5 min"),
            SyncInterval::Minutes10 => String::from_str("10 min"),
            SyncInterval::Minutes15 => String::from_str("15 min"),
        }
    }

    /// Every interval, in the order the settings page lists them.
    pub fn all() -> (v: Vec<SyncInterval>)
        ensures
            v@ == all_intervals(),
    {
        let v = vec![
            SyncInterval::Never,
            SyncInterval::Seconds30,
            SyncInterval::Minutes1,
            SyncInterval::Minutes2,
            SyncInterval::Minutes5,
            SyncInterval::Minutes10,
            SyncInterval::Minutes15,
        ];
        assert(v@ =~= all_intervals());
        v
    }
}

impl Default for SyncInterval {
    fn default() -> (i: Self)
        ensures
            i == SyncInterval::Never,
    {
        SyncInterval::Never
    }
}

/// The stored name of an interval back to the interval; `None` for a name no interval has.
pub fn parse_sync_interval(name: &str) -> (r: Option<SyncInterval>)
    ensures
        r matches Some(i) ==> interval_label(i) == name@,
        forall|i: SyncInterval| interval_label(i) == name@ ==> r == Some(i),
        r is None ==> forall|i: SyncInterval| interval_label(i) != name@,
{
    let all = SyncInterval::all();
    let mut k: usize = 0;
    while k < all.len()
        invariant
            all@ == all_intervals(),
            k <= all@.len(),
            forall|j: int| 0 <= j < k ==> interval_label(#[trigger] all@[j]) != name@,
        decreases all.len() - k,
    {
        let label = all[k].to_string();
        if crate::text::same_text(label.as_str(), name) {
            proof {
                assert forall|i: SyncInterval| interval_label(i) == name@ implies i == all@[k as int] by {
                    law_sync_interval_round_trip(all@[k as int], i);
                }
            }
            return Some(all[k]);
        }
        k = k + 1;
    }
    proof {
        assert forall|i: SyncInterval| interval_label(i) != name@ by {
            match i {
                SyncInterval::Never => assert(all@[0] == i),
                SyncInterval::Seconds30 => assert(all@[1] == i),
                SyncInterval::Minutes1 => assert(all@[2] == i),
                SyncInterval::Minutes2 => assert(all@[3] == i),
                SyncInterval::Minutes5 => assert(all@[4] == i),
                SyncInterval::Minutes10 => assert(all@[5] == i),
                SyncInterval::Minutes15 => assert(all@[6] == i),
            }
        }
    }
    None
}

// ── The controller ──────────────────────────────────────────────────────

/// The audio connection of channel strip `id`: two XLR inputs, two combo inputs, two line
/// inputs (stereo strips) and the USB/Bluetooth return.
pub open spec fn channel_connection(id: int) -> AudioConnection {
    if id <= 1 {
        AudioConnection::Xlr
    } else if id <= 3 {
        AudioConnection::ComboXlr
    } else if id <= 5 {
        AudioConnection::Line
    } else {
        AudioConnection::UsbBt
    }
}

/// The strip `id` as the application starts: nothing known of the mixer yet.
pub open spec fn is_initial_channel(c: Channel, id: int) -> bool {
    &&& c.id == id
    &&& c.name@ == Seq::<char>::empty()
    &&& !c.name_synced
    &&& !c.is_muted
    &&& !c.is_soloed
    &&& !c.mute_synced
    &&& !c.solo_synced
    &&& !c.phantom_pwr.is_on
    &&& c.phantom_pwr.phantom_power_type == (if id <= 1 {
        PhantomPowerType::Set48v
    } else {
        PhantomPowerType::Absent
    })
    &&& !c.phantom_synced
    &&& c.phantom_last_click.is_none()
    &&& c.channel_type == (if id <= 3 {
        ChannelType::Mono
    } else {
        ChannelType::Stereo
    })
    &&& c.audio_connection == channel_connection(id)
    &&& c.channel_strip == BasicChannelStrip::initial()
    &&& c.four_band_eq == FourBandEQ::initial()
    &&& c.sends == ChannelSends::initial()
}

/// The kind of bus `index` (0 Main, 1-2 monitors, 3-4 effect buses).
pub open spec fn bus_kind(index: int) -> BusType {
    if index == 0 {
        BusType::Main
    } else if index <= 2 {
        BusType::Monitor
    } else {
        BusType::Fx
    }
}

/// The bus at position `index` as the application starts; its MIDI channel is `7 + index`.
pub open spec fn is_initial_bus(b: Bus, index: int) -> bool {
    &&& b.id == 7 + index
    &&& b.index == index
    &&& b.bus_type == bus_kind(index)
    &&& b.bus_strip == BusStrip::initial()
    &&& b.nine_band_eq == NineBandEQ::initial()
}

/// The state of the interface: the mixer's parameters as far as the application knows
/// them, the links to the mixer and the user's settings.
///
/// Times are milliseconds on the application's monotonic clock.
pub struct FLOW8Controller {
    pub channels: Vec<Channel>,
    pub buses: Vec<Bus>,
    pub fx_slots: Vec<FxSlot>,
    pub fx_muted: bool,
    pub current_page: Page,
    pub connection_error: Option<String>,
    pub connected_device_name: Option<String>,
    pub ble_available: bool,
    pub ble_status: BleStatus,
    pub last_sync_time: Option<u64>,
    pub sync_last_click: Option<u64>,
    pub ble_last_click: Option<u64>,
    pub snapshot_resync_at: Option<u64>,
    pub snapshot_names: Vec<Option<String>>,
    pub sync_interval: SyncInterval,
    pub close_to_tray_on_close: bool,
    pub window_hidden_to_tray: bool,
    pub tick_counter: u32,
    pub last_sysex_dump: Option<Vec<u8>>,
    pub calibration: CalibrationState,
}

impl FLOW8Controller {
    /// The shape every controller keeps: seven channels, five buses, two effect slots.
    pub open spec fn wf(&self) -> bool {
        &&& self.channels@.len() == CHANNEL_COUNT
        &&& self.buses@.len() == BUS_COUNT
        &&& self.fx_slots@.len() == FX_SLOT_COUNT
        &&& self.calibration.wf()
    }

    /// Whether every parameter of every channel, bus and effect is confirmed by the mixer.
    pub open spec fn globally_synced(&self) -> bool {
        &&& forall|i: int| 0 <= i < self.channels@.len() ==> channel_all_synced(#[trigger] self.channels@[i])
        &&& forall|i: int| 0 <= i < self.buses@.len() ==> bus_all_synced(#[trigger] self.buses@[i])
        &&& forall|i: int| 0 <= i < self.fx_slots@.len() ==> (#[trigger] self.fx_slots@[i]).with_sync(true) == self.fx_slots@[i]
    }

    /// The controller as the application starts: no device, nothing synced, no Bluetooth.
    pub open spec fn is_initial(&self) -> bool {
        &&& self.wf()
        &&& forall|i: int| 0 <= i < CHANNEL_COUNT ==> is_initial_channel(#[trigger] self.channels@[i], i)
        &&& forall|i: int| 0 <= i < BUS_COUNT ==> is_initial_bus(#[trigger] self.buses@[i], i)
        &&& forall|i: int| 0 <= i < FX_SLOT_COUNT ==> #[trigger] self.fx_slots@[i] == (FxSlot {
                id: i as u8,
                preset: 0,
                param1: 0,
                param2: 0,
                preset_synced: false,
                param1_synced: false,
                param2_synced: false,
            })
        &&& !self.fx_muted
        &&& self.current_page == Page::DeviceSelect
        &&& self.connection_error.is_none()
        &&& self.connected_device_name.is_none()
        &&& !self.ble_available
        &&& self.ble_status == BleStatus::Unavailable
        &&& self.last_sync_time.is_none()
        &&& self.sync_last_click.is_none()
        &&& self.ble_last_click.is_none()
        &&& self.snapshot_resync_at.is_none()
        &&& self.snapshot_names@.len() == 0
        &&& self.sync_interval == SyncInterval::Never
        &&& !self.close_to_tray_on_close
        &&& !self.window_hidden_to_tray
        &&& self.tick_counter == 0
        &&& self.last_sysex_dump.is_none()
        &&& self.calibration.phase == CalibPhase::Idle
        &&& self.calibration.dumps@.len() == 0
    }

    /// A new controller in its initial state.
    pub fn new() -> (c: Self)
        ensures
            c.is_initial(),
    {
        let mut channels: Vec<Channel> = Vec::new();
        let mut id: u8 = 0;
        while id < 7
            invariant
                id <= 7,
                channels@.len() == id,
                forall|i: int| 0 <= i < id ==> is_initial_channel(#[trigger] channels@[i], i),
            decreases 7 - id,
        {
            let mut c = Channel::default();
            c.id = id;
            c.phantom_pwr = PhantomPower {
                is_on: false,
                phantom_power_type: if id <= 1 {
                    PhantomPowerType::Set48v
                } else {
                    PhantomPowerType::Absent
                },
            };
            c.channel_type = if id <= 3 {
                ChannelType::Mono
            } else {
                ChannelType::Stereo
            };
            c.audio_connection = if id <= 1 {
                AudioConnection::Xlr
            } else if id <= 3 {
                AudioConnection::ComboXlr
            } else if id <= 5 {
                AudioConnection::Line
            } else {
                AudioConnection::UsbBt
            };
            channels.push(c);
            id = id + 1;
        }
        let mut buses: Vec<Bus> = Vec::new();
        let mut index: u8 = 0;
        while index < 5
            invariant
                index <= 5,
                buses@.len() == index,
                forall|i: int| 0 <= i < index ==> is_initial_bus(#[trigger] buses@[i], i),
            decreases 5 - index,
        {
            let mut b = Bus::default();
            b.id = 7 + index;
            b.index = index;
            b.bus_type = if index == 0 {
                BusType::Main
            } else if index <= 2 {
                BusType::Monitor
            } else {
                BusType::Fx
            };
            buses.push(b);
            index = index + 1;
        }
        let fx_slots = vec![FxSlot::new(0), FxSlot::new(1)];
        FLOW8Controller {
            channels,
            buses,
            fx_slots,
            fx_muted: false,
            current_page: Page::DeviceSelect,
            connection_error: None,
            connected_device_name: None,
            ble_available: false,
            ble_status: BleStatus::Unavailable,
            last_sync_time: None,
            sync_last_click: None,
            ble_last_click: None,
            snapshot_resync_at: None,
            snapshot_names: Vec::new(),
            sync_interval: SyncInterval::Never,
            close_to_tray_on_close: false,
            window_hidden_to_tray: false,
            tick_counter: 0,
            last_sysex_dump: None,
            calibration: CalibrationState::new(),
        }
    }

    /// Marks every parameter of every channel, bus and effect as not confirmed by the mixer.
    pub fn mark_all_unsynced(&mut self)
        requires
            old(self).wf(),
        ensures
            final(self).wf(),
            *final(self) == (FLOW8Controller {
                channels: final(self).channels,
                buses: final(self).buses,
                fx_slots: final(self).fx_slots,
                ..*old(self)
            }),
            forall|i: int| 0 <= i < CHANNEL_COUNT ==> #[trigger] final(self).channels@[i] == channel_with_sync(old(self).channels@[i], false),
            forall|i: int| 0 <= i < BUS_COUNT ==> #[trigger] final(self).buses@[i] == bus_with_sync(old(self).buses@[i], false),
            forall|i: int| 0 <= i < FX_SLOT_COUNT ==> #[trigger] final(self).fx_slots@[i] == old(self).fx_slots@[i].with_sync(false),
    {
        let mut i: usize = 0;
        while i < 7
            invariant
                i <= 7,
                self.wf(),
                *self == (FLOW8Controller { channels: self.channels, ..*old(self) }),
                forall|j: int| 0 <= j < i ==> #[trigger] self.channels@[j] == channel_with_sync(old(self).channels@[j], false),
                forall|j: int| i <= j < 7 ==> #[trigger] self.channels@[j] == old(self).channels@[j],
            decreases 7 - i,
        {
            self.channels[i].mark_all_unsynced();
            i = i + 1;
        }
        let mut i: usize = 0;
        while i < 5
            invariant
                i <= 5,
                self.wf(),
                *self == (FLOW8Controller { channels: self.channels, buses: self.buses, ..*old(self) }),
                forall|j: int| 0 <= j < 7 ==> #[trigger] self.channels@[j] == channel_with_sync(old(self).channels@[j], false),
                forall|j: int| 0 <= j < i ==> #[trigger] self.buses@[j] == bus_with_sync(old(self).buses@[j], false),
                forall|j: int| i <= j < 5 ==> #[trigger] self.buses@[j] == old(self).buses@[j],
            decreases 5 - i,
        {
            self.buses[i].mark_all_unsynced();
            i = i + 1;
        }
        self.fx_slots[0].mark_all_unsynced();
        self.fx_slots[1].mark_all_unsynced();
    }

    /// Whether every parameter that the mixer has is confirmed by it.
    pub fn is_globally_synced(&self) -> (r: bool)
        ensures
            r == self.globally_synced(),
    {
        let mut i: usize = 0;
        while i < self.channels.len()
            invariant
                i <= self.channels@.len(),
                forall|j: int| 0 <= j < i ==> channel_all_synced(#[trigger] self.channels@[j]),
            decreases self.channels@.len() - i,
        {
            if !self.channels[i].is_all_synced() {
                return false;
            }
            i = i + 1;
        }
        let mut i: usize = 0;
        while i < self.buses.len()
            invariant
                i <= self.buses@.len(),
                forall|j: int| 0 <= j < self.channels@.len() ==> channel_all_synced(#[trigger] self.channels@[j]),
                forall|j: int| 0 <= j < i ==> bus_all_synced(#[trigger] self.buses@[j]),
            decreases self.buses@.len() - i,
        {
            if !self.buses[i].is_all_synced() {
                return false;
            }
            i = i + 1;
        }
        let mut i: usize = 0;
        while i < self.fx_slots.len()
            invariant
                i <= self.fx_slots@.len(),
                forall|j: int| 0 <= j < self.channels@.len() ==> channel_all_synced(#[trigger] self.channels@[j]),
                forall|j: int| 0 <= j < self.buses@.len() ==> bus_all_synced(#[trigger] self.buses@[j]),
                forall|j: int| 0 <= j < i ==> (#[trigger] self.fx_slots@[j]).with_sync(true) == self.fx_slots@[j],
            decreases self.fx_slots@.len() - i,
        {
            if !self.fx_slots[i].is_all_synced() {
                return false;
            }
            i = i + 1;
        }
        true
    }
}

// ── Links, ticks and windows ────────────────────────────────────────────

/// Milliseconds from `earlier` to `now` on the monotonic clock; zero if `now` is earlier.
pub open spec fn millis_since(earlier: u64, now: u64) -> u64 {
    if now >= earlier {
        (now - earlier) as u64
    } else {
        0
    }
}

/// How looking for the mixer among the MIDI outputs ended.
pub enum ConnectOutcome {
    /// No MIDI output has the mixer's name.
    NotFound,
    /// Connected to the output of this name.
    Connected(String),
    /// The mixer's output refused the connection, for this reason.
    Failed(String),
}

pub open spec fn not_found_text() -> Seq<char> {
    "FLOW 8 not found. Connect it via USB and try again."@
}

/// What to do with the main window when the user closes it.
#[derive(Debug, Clone, Copy, PartialEq, Eq, Structural)]
pub enum CloseAction {
    /// Hide it and show the tray icon.
    HideToTray,
    /// Shut the tray down and close the window.
    Exit,
}

impl FLOW8Controller {
    /// Counts one more interface tick (the counter wraps around).
    pub fn advance_tick_counter(&mut self)
        ensures
            *final(self) == (FLOW8Controller { tick_counter: old(self).tick_counter.wrapping_add(1), ..*old(self) }),
    {
        self.tick_counter = self.tick_counter.wrapping_add(1);
    }

    /// Decides whether a Bluetooth connection attempt starts: not without an adapter, and
    /// not while one is scanning, connecting or connected. When it starts, the status is
    /// `Scanning` and the caller runs the attempt.
    pub fn start_ble_connection(&mut self) -> (start: bool)
        ensures
            start == (old(self).ble_available && !(old(self).ble_status == BleStatus::Scanning
                || old(self).ble_status == BleStatus::Connecting
                || old(self).ble_status == BleStatus::Connected)),
            start ==> *final(self) == (FLOW8Controller { ble_status: BleStatus::Scanning, ..*old(self) }),
            !start ==> *final(self) == *old(self),
    {
        if !self.ble_available {
            return false;
        }
        if self.ble_status == BleStatus::Scanning || self.ble_status == BleStatus::Connecting
            || self.ble_status == BleStatus::Connected {
            return false;
        }
        self.ble_status = BleStatus::Scanning;
        true
    }

    /// Notes that the mixer was asked for a dump at `now`.
    pub fn record_dump_sent(&mut self, now: u64)
        ensures
            *final(self) == (FLOW8Controller { last_sync_time: Some(now), ..*old(self) }),
    {
        self.last_sync_time = Some(now);
    }

    /// Whether the re-sync after a snapshot load is due at `now` (500 ms after the load).
    pub open spec fn resync_due(&self, now: u64) -> bool {
        self.snapshot_resync_at matches Some(at) && millis_since(at, now) >= SNAPSHOT_RESYNC_DELAY_MS
    }

    /// Whether the re-sync after a snapshot load is due at `now`; a due re-sync is taken
    /// off the schedule.
    pub fn take_due_resync(&mut self, now: u64) -> (due: bool)
        ensures
            due == old(self).resync_due(now),
            due ==> *final(self) == (FLOW8Controller { snapshot_resync_at: None, ..*old(self) }),
            !due ==> *final(self) == *old(self),
    {
        match self.snapshot_resync_at {
            Some(at) => {
                if now.saturating_sub(at) >= SNAPSHOT_RESYNC_DELAY_MS {
                    self.snapshot_resync_at = None;
                    true
                } else {
                    false
                }
            },
            None => false,
        }
    }

    /// Whether an automatic sync is due at `now`: Bluetooth is connected, an interval is
    /// set, and no dump was asked for yet or the last one is at least the interval ago
    /// (counted in whole seconds).
    pub fn auto_sync_due(&self, now: u64) -> (due: bool)
        ensures
            due == (self.ble_status == BleStatus::Connected && (interval_secs(self.sync_interval) matches Some(secs) && (
            self.last_sync_time matches Some(t) ==> millis_since(t, now) / 1000 >= secs))),
    {
        if self.ble_status != BleStatus::Connected {
            return false;
        }
        match self.sync_interval.as_secs() {
            Some(secs) => match self.last_sync_time {
                Some(t) => now.saturating_sub(t) / 1000 >= secs,
                None => true,
            },
            None => false,
        }
    }

    /// Takes a SysEx message from the mixer. While a calibration runs it belongs to the
    /// calibration; otherwise it is returned as a dump when it is a FLOW 8 dump, for the
    /// caller to apply.
    pub fn receive_sysex(&mut self, data: Vec<u8>) -> (r: Option<SysExDump>)
        requires
            old(self).wf(),
        ensures
            final(self).wf(),
            old(self).calibration.phase == CalibPhase::Idle || old(self).calibration.phase == CalibPhase::Done ==> {
                &&& *final(self) == *old(self)
                &&& r.is_some() == is_flow8_dump(data@)
                &&& r matches Some(d) ==> d.raw@ == data@
            },
            !(old(self).calibration.phase == CalibPhase::Idle || old(self).calibration.phase == CalibPhase::Done) ==> {
                &&& r is None
                &&& *final(self) == (FLOW8Controller { calibration: final(self).calibration, ..*old(self) })
                &&& final(self).calibration.steps@ == old(self).calibration.steps@
                &&& match old(self).calibration.phase {
                    CalibPhase::WaitingDump(step, _) => {
                        &&& final(self).calibration.dumps@.len() == old(self).calibration.dumps@.len() + 1
                        &&& final(self).calibration.dumps@.last().data@ == data@
                        &&& final(self).calibration.dumps@.last().label@ == old(self).calibration.steps@[step as int].label@
                        &&& final(self).calibration.phase == phase_after(old(self).calibration.steps@, step as int)
                    },
                    _ => final(self).calibration == old(self).calibration,
                }
            },
    {
        if self.calibration.is_running() {
            self.calibration.on_dump_received(data);
            return None;
        }
        validate_sysex_dump(data.as_slice())
    }

    /// The user closed the main window: with the tray option on and a tray available the
    /// window goes to the tray, otherwise the application exits.
    pub fn on_close_requested(&mut self, has_tray: bool) -> (action: CloseAction)
        ensures
            (old(self).close_to_tray_on_close && has_tray) ==> action == CloseAction::HideToTray
                && *final(self) == (FLOW8Controller { window_hidden_to_tray: true, ..*old(self) }),
            !(old(self).close_to_tray_on_close && has_tray) ==> action == CloseAction::Exit
                && *final(self) == *old(self),
    {
        if self.close_to_tray_on_close && has_tray {
            self.window_hidden_to_tray = true;
            CloseAction::HideToTray
        } else {
            CloseAction::Exit
        }
    }

    /// The tray menu was used: either way the window no longer counts as hidden.
    pub fn on_tray_event(&mut self, event: TrayEvent)
        ensures
            *final(self) == (FLOW8Controller { window_hidden_to_tray: false, ..*old(self) }),
    {
        self.window_hidden_to_tray = false;
    }

    /// Records how connecting to the mixer's MIDI output ended: on success the mixer page
    /// opens and the device is named; otherwise the device page shows the error.
    pub fn record_connection(&mut self, outcome: ConnectOutcome)
        ensures
            match outcome {
                ConnectOutcome::NotFound => {
                    &&& final(self).connection_error matches Some(e) && e@ == not_found_text()
                    &&& *final(self) == (FLOW8Controller {
                        connection_error: final(self).connection_error,
                        current_page: Page::DeviceSelect,
                        ..*old(self)
                    })
                },
                ConnectOutcome::Connected(name) => *final(self) == (FLOW8Controller {
                    connected_device_name: Some(name),
                    connection_error: None,
                    current_page: Page::Mixer,
                    ..*old(self)
                }),
                ConnectOutcome::Failed(e) => *final(self) == (FLOW8Controller {
                    connection_error: Some(e),
                    current_page: Page::DeviceSelect,
                    ..*old(self)
                }),
            },
    {
        match outcome {
            ConnectOutcome::NotFound => {
                self.connection_error = Some(String::from_str("FLOW 8 not found. Connect it via USB and try again."));
                self.current_page = Page::DeviceSelect;
            },
            ConnectOutcome::Connected(name) => {
                self.connected_device_name = Some(name);
                self.connection_error = None;
                self.current_page = Page::Mixer;
            },
            ConnectOutcome::Failed(e) => {
                self.connection_error = Some(e);
                self.current_page = Page::DeviceSelect;
            },
        }
    }
}

/// The stored name of every interval reads back as that interval: settings survive a
/// save and a load.
pub proof fn law_sync_interval_round_trip(i: SyncInterval, j: SyncInterval)
    ensures
        interval_label(i) == interval_label(j) ==> i == j,
{
    reveal_strlit("Never");
    reveal_strlit("30s");
    reveal_strlit("1 min");
    reveal_strlit("2 min");
    reveal_strlit("5 min");
    reveal_strlit("10 min");
    reveal_strlit("15 min");
    if interval_label(i) == interval_label(j) && i != j {
        let a = interval_label(i);
        let b = interval_label(j);
        assert(a.len() != b.len() || a[0] != b[0] || a[1] != b[1]);
    }
}


/// The number written in decimal digits.
pub open spec fn digits_value(s: Seq<char>) -> int
    decreases s.len(),
{
    if s.len() == 0 {
        0
    } else {
        digits_value(s.drop_last()) * 10 + (s.last() as int - '0' as int)
    }
}

/// The period, in seconds, that a name such as "30s" or "5 min" gives; `None` for a name
/// that gives none (such as "Never").
pub open spec fn period_named(name: Seq<char>) -> Option<int> {
    let n = name.len();
    if n > 4 && name[n - 4] == ' ' && name[n - 3] == 'm' && name[n - 2] == 'i' && name[n - 1] == 'n' {
        Some(digits_value(name.take(n - 4)) * 60)
    } else if n > 1 && name[n - 1] == 's' {
        Some(digits_value(name.take(n - 1)))
    } else {
        None
    }
}

/// Every sync interval lasts the time its name says: "30s" is 30 seconds, "5 min" is 300,
/// and so on; "Never" has no period, so no automatic sync.
pub proof fn law_sync_interval_lasts_its_name(i: SyncInterval)
    ensures
        period_named(interval_label(i)) == (match interval_secs(i) {
            Some(s) => Some(s as int),
            None => None,
        }),
{
    reveal_strlit("Never");
    reveal_strlit("30s");
    reveal_strlit("1 min");
    reveal_strlit("2 min");
    reveal_strlit("5 min");
    reveal_strlit("10 min");
    reveal_strlit("15 min");
    let l = interval_label(i);
    reveal_with_fuel(digits_value, 3);
    match i {
        SyncInterval::Never => {},
        SyncInterval::Seconds30 => {
            assert(l.take(2) =~= seq!['3', '0']);
        },
        SyncInterval::Minutes10 => {
            assert(l.take(2) =~= seq!['1', '0']);
        },
        SyncInterval::Minutes15 => {
            assert(l.take(2) =~= seq!['1', '5']);
        },
        _ => {
            assert(l.take(1) =~= seq![l[0]]);
        },
    }
}
} // verus!
