use vstd::prelude::*;
use vstd::string::StringExecFns;

use crate::text::{decimal, push_decimal};

verus! {

pub type BusId = u8;

pub type BusIdx = u8;

pub type ChannelId = u8;

pub type FxSlotId = u8;

/// How a channel is wired on the mixer.
#[derive(Copy, Clone, Debug, PartialEq, Eq, Structural)]
pub enum AudioConnection {
    Xlr,
    Line,
    UsbBt,
    ComboXlr,
}

/// The label shown for each kind of connection.
pub open spec fn audio_connection_text(c: AudioConnection) -> Seq<char> {
    match c {
        AudioConnection::Xlr => "XLR"@,
        AudioConnection::Line => "Line"@,
        AudioConnection::UsbBt => "USB | BT"@,
        AudioConnection::ComboXlr => "Combo"@,
    }
}

impl AudioConnection {
    /// The label shown for this connection ("XLR", "Line", "USB | BT", "Combo").
    pub fn to_string(&self) -> (s: String)
        ensures
            s@ == audio_connection_text(*self),
    {
        match *self {
            AudioConnection::Xlr => String::from_str("XLR"),
            AudioConnection::Line => String::from_str("Line"),
            AudioConnection::UsbBt => String::from_str("USB | BT"),
            AudioConnection::ComboXlr => String::from_str("Combo"),
        }
    }
}

#[derive(Copy, Clone, Debug, PartialEq, Eq, Structural)]
pub enum ChannelType {
    Mono,
    Stereo,
}

#[derive(Copy, Clone, Debug, PartialEq, Eq, Structural)]
pub enum BusType {
    Main,
    Monitor,
    Fx,
}

#[derive(Copy, Clone, Debug)]
pub struct PhantomPower {
    pub is_on: bool,
    pub phantom_power_type: PhantomPowerType,
}

#[derive(Copy, Clone, Debug, PartialEq, Eq, Structural)]
pub enum PhantomPowerType {
    Absent,
    Set48v,
}

/// One input channel strip and what the interface knows of it.
///
/// `phantom_last_click` is the time (milliseconds on the application's monotonic clock)
/// of the first click of a pending double click on the 48V button.
#[derive(Clone, Debug)]
pub struct Channel {
    pub id: ChannelId,
    pub name: String,
    pub name_synced: bool,
    pub is_muted: bool,
    pub is_soloed: bool,
    pub mute_synced: bool,
    pub solo_synced: bool,
    pub phantom_pwr: PhantomPower,
    pub phantom_synced: bool,
    pub phantom_last_click: Option<u64>,
    pub channel_type: ChannelType,
    pub audio_connection: AudioConnection,
    pub channel_strip: BasicChannelStrip,
    pub four_band_eq: FourBandEQ,
    pub sends: ChannelSends,
}

impl Default for Channel {
    fn default() -> (c: Self)
        ensures
            c.id == 0,
            c.name@ == Seq::<char>::empty(),
            !c.name_synced,
            !c.is_muted,
            !c.is_soloed,
            !c.mute_synced,
            !c.solo_synced,
            !c.phantom_pwr.is_on,
            c.phantom_pwr.phantom_power_type == PhantomPowerType::Absent,
            !c.phantom_synced,
            c.phantom_last_click.is_none(),
            c.channel_type == ChannelType::Mono,
            c.audio_connection == AudioConnection::UsbBt,
            c.channel_strip == BasicChannelStrip::initial(),
            c.four_band_eq == FourBandEQ::initial(),
            c.sends == ChannelSends::initial(),
    {
        Self {
            id: 0,
            name: String::new(),
            name_synced: false,
            is_muted: false,
            is_soloed: false,
            mute_synced: false,
            solo_synced: false,
            phantom_pwr: PhantomPower { is_on: false, phantom_power_type: PhantomPowerType::Absent },
            phantom_synced: false,
            phantom_last_click: None,
            channel_type: ChannelType::Mono,
            audio_connection: AudioConnection::UsbBt,
            channel_strip: BasicChannelStrip::default(),
            four_band_eq: FourBandEQ::default(),
            sends: ChannelSends::default(),
        }
    }
}

/// The first physical input of a stereo strip: strips 0..=4 sit on inputs 1..=5, later
/// strips on pairs of inputs.
pub open spec fn stereo_start(id: u8) -> int {
    (if id <= 4 { id as int } else { 4 }) + (if id >= 4 { (id - 4) as int } else { 0 }) * 2 + 1
}

/// The physical input number(s) of a channel strip ("3" for a mono strip, "5/6" for a
/// stereo one).
pub open spec fn physical_number_text(c: Channel) -> Seq<char> {
    match c.channel_type {
        ChannelType::Mono => decimal((c.id + 1) as nat),
        ChannelType::Stereo => decimal(stereo_start(c.id) as nat) + "/"@ + decimal(
            (stereo_start(c.id) + 1) as nat,
        ),
    }
}

/// The heading of a channel strip.
pub open spec fn display_label_text(c: Channel) -> Seq<char> {
    if c.audio_connection == AudioConnection::UsbBt {
        audio_connection_text(c.audio_connection)
    } else {
        "Ch "@ + physical_number_text(c) + " · "@ + audio_connection_text(c.audio_connection)
    }
}

/// Whether a channel has gain, compressor and low cut: every input but USB/BT.
pub open spec fn has_input_stage(c: Channel) -> bool {
    c.audio_connection != AudioConnection::UsbBt
}

pub open spec fn channel_all_synced(c: Channel) -> bool {
    &&& c.name_synced
    &&& c.mute_synced
    &&& c.solo_synced
    &&& (c.phantom_pwr.phantom_power_type != PhantomPowerType::Set48v || c.phantom_synced)
    &&& c.channel_strip.level_synced
    &&& c.channel_strip.balance_synced
    &&& (!has_input_stage(c) || c.channel_strip.gain_synced)
    &&& (!has_input_stage(c) || c.channel_strip.compressor_synced)
    &&& (!has_input_stage(c) || c.channel_strip.low_cut_synced)
    &&& c.four_band_eq.all_synced()
    &&& c.sends.all_synced()
}

/// Every "synced" flag of the channel set to `flag`, every other field unchanged.
pub open spec fn channel_with_sync(c: Channel, flag: bool) -> Channel {
    Channel {
        name_synced: flag,
        mute_synced: flag,
        solo_synced: flag,
        phantom_synced: flag,
        channel_strip: c.channel_strip.with_sync(flag),
        four_band_eq: c.four_band_eq.with_sync(flag),
        sends: c.sends.with_sync(flag),
        ..c
    }
}

impl Channel {
    /// The heading of the strip: "USB | BT", or "Ch 1 · XLR", "Ch 5/6 · Line" and so on.
    pub fn display_label(&self) -> (s: String)
        requires
            self.channel_type == ChannelType::Mono ==> self.id < 255,
        ensures
            s@ == display_label_text(*self),
    {
        if matches!(self.audio_connection, AudioConnection::UsbBt) {
            return self.audio_connection.to_string();
        }
        let mut out = String::from_str("Ch ");
        let number = self.physical_number();
        out.append(number.as_str());
        out.append(" · ");
        let conn = self.audio_connection.to_string();
        out.append(conn.as_str());
        proof {
            reveal_strlit("Ch ");
            reveal_strlit(" · ");
        }
        assert(out@ =~= display_label_text(*self));
        out
    }

    fn physical_number(&self) -> (s: String)
        requires
            self.channel_type == ChannelType::Mono ==> self.id < 255,
        ensures
            s@ == physical_number_text(*self),
    {
        match self.channel_type {
            ChannelType::Mono => {
                let mut out = String::new();
                push_decimal(&mut out, (self.id + 1) as u64);
                out
            },
            ChannelType::Stereo => {
                let id = self.id as u16;
                let start: u16 = (if id < 4 { id } else { 4 }) + (if id >= 4 { id - 4 } else { 0 }) * 2
                    + 1;
                let mut out = String::new();
                push_decimal(&mut out, start as u64);
                out.append("/");
                push_decimal(&mut out, (start + 1) as u64);
                proof { reveal_strlit("/"); }
                assert(out@ =~= physical_number_text(*self));
                out
            },
        }
    }

    pub fn has_gain(&self) -> (r: bool)
        ensures
            r == has_input_stage(*self),
    {
        !matches!(self.audio_connection, AudioConnection::UsbBt)
    }

    pub fn has_compressor(&self) -> (r: bool)
        ensures
            r == has_input_stage(*self),
    {
        !matches!(self.audio_connection, AudioConnection::UsbBt)
    }

    pub fn has_low_cut(&self) -> (r: bool)
        ensures
            r == has_input_stage(*self),
    {
        !matches!(self.audio_connection, AudioConnection::UsbBt)
    }

    pub fn mark_all_synced(&mut self)
        ensures
            *final(self) == channel_with_sync(*old(self), true),
    {
        self.name_synced = true;
        self.mute_synced = true;
        self.solo_synced = true;
        self.phantom_synced = true;
        self.channel_strip.mark_all_synced();
        self.four_band_eq.mark_all_synced();
        self.sends.mark_all_synced();
    }

    pub fn mark_all_unsynced(&mut self)
        ensures
            *final(self) == channel_with_sync(*old(self), false),
    {
        self.name_synced = false;
        self.mute_synced = false;
        self.solo_synced = false;
        self.phantom_synced = false;
        self.channel_strip.mark_all_unsynced();
        self.four_band_eq.mark_all_unsynced();
        self.sends.mark_all_unsynced();
    }

    pub fn has_phantom(&self) -> (r: bool)
        ensures
            r == (self.phantom_pwr.phantom_power_type == PhantomPowerType::Set48v),
    {
        matches!(self.phantom_pwr.phantom_power_type, PhantomPowerType::Set48v)
    }

    /// Whether every parameter that this channel has is confirmed by the mixer.
    pub fn is_all_synced(&self) -> (r: bool)
        ensures
            r == channel_all_synced(*self),
    {
        self.name_synced && self.mute_synced && self.solo_synced && (!self.has_phantom()
            || self.phantom_synced) && self.channel_strip.is_all_synced(self)
            && self.four_band_eq.is_all_synced() && self.sends.is_all_synced()
    }
}

/// One output bus.
#[derive(Copy, Clone, Debug)]
pub struct Bus {
    pub id: BusId,
    pub index: BusIdx,
    pub bus_type: BusType,
    pub bus_strip: BusStrip,
    pub nine_band_eq: NineBandEQ,
}

impl Default for Bus {
    fn default() -> (b: Self)
        ensures
            b.id == 7,
            b.index == 0,
            b.bus_type == BusType::Main,
            b.bus_strip == BusStrip::initial(),
            b.nine_band_eq == NineBandEQ::initial(),
    {
        Self {
            id: 7,
            index: 0,
            bus_type: BusType::Main,
            bus_strip: BusStrip::default(),
            nine_band_eq: NineBandEQ::default(),
        }
    }
}

/// The heading of a bus strip: "Main", "Mon <index>" or "FX <index - 2>".
pub open spec fn bus_label_text(b: Bus) -> Seq<char> {
    match b.bus_type {
        BusType::Main => "Main"@,
        BusType::Monitor => "Mon "@ + decimal(b.index as nat),
        BusType::Fx => "FX "@ + decimal((b.index - 2) as nat),
    }
}

pub open spec fn bus_all_synced(b: Bus) -> bool {
    &&& b.bus_strip.level_synced
    &&& (b.bus_type != BusType::Main || b.bus_strip.balance_synced)
    &&& (b.bus_type == BusType::Fx || b.bus_strip.limiter_synced)
    &&& (b.bus_type == BusType::Fx || b.nine_band_eq.all_synced())
}

pub open spec fn bus_with_sync(b: Bus, flag: bool) -> Bus {
    Bus {
        bus_strip: b.bus_strip.with_sync(flag),
        nine_band_eq: b.nine_band_eq.with_sync(flag),
        ..b
    }
}

impl Bus {
    pub fn label(&self) -> (s: String)
        requires
            self.bus_type == BusType::Fx ==> self.index >= 2,
        ensures
            s@ == bus_label_text(*self),
    {
        match self.bus_type {
            BusType::Main => String::from_str("Main"),
            BusType::Monitor => {
                let mut out = String::from_str("Mon ");
                push_decimal(&mut out, self.index as u64);
                out
            },
            BusType::Fx => {
                let mut out = String::from_str("FX ");
                push_decimal(&mut out, (self.index - 2) as u64);
                out
            },
        }
    }

    pub fn has_balance(&self) -> (r: bool)
        ensures
            r == (self.bus_type == BusType::Main),
    {
        self.bus_type == BusType::Main
    }

    pub fn has_limiter(&self) -> (r: bool)
        ensures
            r == (self.bus_type != BusType::Fx),
    {
        self.bus_type != BusType::Fx
    }

    pub fn has_nine_band_eq(&self) -> (r: bool)
        ensures
            r == (self.bus_type != BusType::Fx),
    {
        self.bus_type != BusType::Fx
    }

    pub fn mark_all_synced(&mut self)
        ensures
            *final(self) == bus_with_sync(*old(self), true),
    {
        self.bus_strip.mark_all_synced();
        self.nine_band_eq.mark_all_synced();
    }

    pub fn mark_all_unsynced(&mut self)
        ensures
            *final(self) == bus_with_sync(*old(self), false),
    {
        self.bus_strip.mark_all_unsynced();
        self.nine_band_eq.mark_all_unsynced();
    }

    /// Whether every parameter that this bus has is confirmed by the mixer.
    pub fn is_all_synced(&self) -> (r: bool)
        ensures
            r == bus_all_synced(*self),
    {
        self.bus_strip.level_synced && (!self.has_balance() || self.bus_strip.balance_synced) && (
        !self.has_limiter() || self.bus_strip.limiter_synced) && (!self.has_nine_band_eq()
            || self.nine_band_eq.is_all_synced())
    }
}

/// Level, gain, balance, low cut and compressor of an input, as MIDI CC values.
#[derive(Copy, Clone, Debug)]
pub struct BasicChannelStrip {
    pub gain: u8,
    pub level: u8,
    pub balance: u8,
    pub low_cut: u8,
    pub compressor: u8,
    pub gain_synced: bool,
    pub level_synced: bool,
    pub balance_synced: bool,
    pub low_cut_synced: bool,
    pub compressor_synced: bool,
}

impl Default for BasicChannelStrip {
    fn default() -> (s: Self)
        ensures
            s == Self::initial(),
    {
        Self {
            gain: 64,
            level: 64,
            balance: 64,
            low_cut: 0,
            compressor: 0,
            gain_synced: false,
            level_synced: false,
            balance_synced: false,
            low_cut_synced: false,
            compressor_synced: false,
        }
    }
}

impl BasicChannelStrip {
    /// The strip as the interface starts: centred gain, level and balance, nothing synced.
    pub open spec fn initial() -> Self {
        BasicChannelStrip {
            gain: 64,
            level: 64,
            balance: 64,
            low_cut: 0,
            compressor: 0,
            gain_synced: false,
            level_synced: false,
            balance_synced: false,
            low_cut_synced: false,
            compressor_synced: false,
        }
    }

    pub open spec fn with_sync(self, flag: bool) -> Self {
        BasicChannelStrip {
            gain_synced: flag,
            level_synced: flag,
            balance_synced: flag,
            low_cut_synced: flag,
            compressor_synced: flag,
            ..self
        }
    }

    pub fn mark_all_synced(&mut self)
        ensures
            *final(self) == old(self).with_sync(true),
    {
        self.gain_synced = true;
        self.level_synced = true;
        self.balance_synced = true;
        self.low_cut_synced = true;
        self.compressor_synced = true;
    }

    pub fn mark_all_unsynced(&mut self)
        ensures
            *final(self) == old(self).with_sync(false),
    {
        self.gain_synced = false;
        self.level_synced = false;
        self.balance_synced = false;
        self.low_cut_synced = false;
        self.compressor_synced = false;
    }

    /// Whether the parameters that `channel` has are synced; gain, compressor and low cut
    /// count only on channels that have them.
    pub fn is_all_synced(&self, channel: &Channel) -> (r: bool)
        ensures
            r == (self.level_synced && self.balance_synced && (!has_input_stage(*channel)
                || self.gain_synced) && (!has_input_stage(*channel) || self.compressor_synced)
                && (!has_input_stage(*channel) || self.low_cut_synced)),
    {
        self.level_synced && self.balance_synced && (!channel.has_gain() || self.gain_synced) && (
        !channel.has_compressor() || self.compressor_synced) && (!channel.has_low_cut()
            || self.low_cut_synced)
    }
}

/// The send levels of an input to the monitor and FX buses, as MIDI CC values.
#[derive(Copy, Clone, Debug)]
pub struct ChannelSends {
    pub mon1: u8,
    pub mon2: u8,
    pub fx1: u8,
    pub fx2: u8,
    pub mon1_synced: bool,
    pub mon2_synced: bool,
    pub fx1_synced: bool,
    pub fx2_synced: bool,
}

impl Default for ChannelSends {
    fn default() -> (s: Self)
        ensures
            s == Self::initial(),
    {
        Self {
            mon1: 0,
            mon2: 0,
            fx1: 0,
            fx2: 0,
            mon1_synced: false,
            mon2_synced: false,
            fx1_synced: false,
            fx2_synced: false,
        }
    }
}

impl ChannelSends {
    pub open spec fn initial() -> Self {
        ChannelSends {
            mon1: 0,
            mon2: 0,
            fx1: 0,
            fx2: 0,
            mon1_synced: false,
            mon2_synced: false,
            fx1_synced: false,
            fx2_synced: false,
        }
    }

    pub open spec fn with_sync(self, flag: bool) -> Self {
        ChannelSends {
            mon1_synced: flag,
            mon2_synced: flag,
            fx1_synced: flag,
            fx2_synced: flag,
            ..self
        }
    }

    pub open spec fn all_synced(self) -> bool {
        self.mon1_synced && self.mon2_synced && self.fx1_synced && self.fx2_synced
    }

    pub fn mark_all_synced(&mut self)
        ensures
            *final(self) == old(self).with_sync(true),
    {
        self.mon1_synced = true;
        self.mon2_synced = true;
        self.fx1_synced = true;
        self.fx2_synced = true;
    }

    pub fn mark_all_unsynced(&mut self)
        ensures
            *final(self) == old(self).with_sync(false),
    {
        self.mon1_synced = false;
        self.mon2_synced = false;
        self.fx1_synced = false;
        self.fx2_synced = false;
    }

    pub fn is_all_synced(&self) -> (r: bool)
        ensures
            r == self.all_synced(),
    {
        self.mon1_synced && self.mon2_synced && self.fx1_synced && self.fx2_synced
    }
}

/// Level, balance and limiter of a bus, as MIDI CC values.
#[derive(Copy, Clone, Debug)]
pub struct BusStrip {
    pub level: u8,
    pub balance: u8,
    pub limiter: u8,
    pub level_synced: bool,
    pub balance_synced: bool,
    pub limiter_synced: bool,
}

impl Default for BusStrip {
    fn default() -> (s: Self)
        ensures
            s == Self::initial(),
    {
        Self {
            level: 64,
            balance: 64,
            limiter: 127,
            level_synced: false,
            balance_synced: false,
            limiter_synced: false,
        }
    }
}

impl BusStrip {
    pub open spec fn initial() -> Self {
        BusStrip {
            level: 64,
            balance: 64,
            limiter: 127,
            level_synced: false,
            balance_synced: false,
            limiter_synced: false,
        }
    }

    pub open spec fn with_sync(self, flag: bool) -> Self {
        BusStrip { level_synced: flag, balance_synced: flag, limiter_synced: flag, ..self }
    }

    pub fn mark_all_synced(&mut self)
        ensures
            *final(self) == old(self).with_sync(true),
    {
        self.level_synced = true;
        self.balance_synced = true;
        self.limiter_synced = true;
    }

    pub fn mark_all_unsynced(&mut self)
        ensures
            *final(self) == old(self).with_sync(false),
    {
        self.level_synced = false;
        self.balance_synced = false;
        self.limiter_synced = false;
    }

    pub fn is_all_synced(&self) -> (r: bool)
        ensures
            r == (self.level_synced && self.balance_synced && self.limiter_synced),
    {
        self.level_synced && self.balance_synced && self.limiter_synced
    }
}

/// The 4-band EQ of an input, as MIDI CC values (64 is flat).
#[derive(Copy, Clone, Debug)]
pub struct FourBandEQ {
    pub low: u8,
    pub low_mid: u8,
    pub hi_mid: u8,
    pub hi: u8,
    pub low_synced: bool,
    pub low_mid_synced: bool,
    pub hi_mid_synced: bool,
    pub hi_synced: bool,
}

impl Default for FourBandEQ {
    fn default() -> (s: Self)
        ensures
            s == Self::initial(),
    {
        Self {
            low: 64,
            low_mid: 64,
            hi_mid: 64,
            hi: 64,
            low_synced: false,
            low_mid_synced: false,
            hi_mid_synced: false,
            hi_synced: false,
        }
    }
}

impl FourBandEQ {
    pub open spec fn initial() -> Self {
        FourBandEQ {
            low: 64,
            low_mid: 64,
            hi_mid: 64,
            hi: 64,
            low_synced: false,
            low_mid_synced: false,
            hi_mid_synced: false,
            hi_synced: false,
        }
    }

    pub open spec fn with_sync(self, flag: bool) -> Self {
        FourBandEQ {
            low_synced: flag,
            low_mid_synced: flag,
            hi_mid_synced: flag,
            hi_synced: flag,
            ..self
        }
    }

    pub open spec fn all_synced(self) -> bool {
        self.low_synced && self.low_mid_synced && self.hi_mid_synced && self.hi_synced
    }

    pub fn mark_all_synced(&mut self)
        ensures
            *final(self) == old(self).with_sync(true),
    {
        self.low_synced = true;
        self.low_mid_synced = true;
        self.hi_mid_synced = true;
        self.hi_synced = true;
    }

    pub fn mark_all_unsynced(&mut self)
        ensures
            *final(self) == old(self).with_sync(false),
    {
        self.low_synced = false;
        self.low_mid_synced = false;
        self.hi_mid_synced = false;
        self.hi_synced = false;
    }

    pub fn is_all_synced(&self) -> (r: bool)
        ensures
            r == self.all_synced(),
    {
        self.low_synced && self.low_mid_synced && self.hi_mid_synced && self.hi_synced
    }
}

/// The 9-band graphic EQ of a bus, as MIDI CC values (64 is flat), with one sync flag
/// per band.
#[derive(Copy, Clone, Debug)]
pub struct NineBandEQ {
    pub freq_62_hz: u8,
    pub freq_125_hz: u8,
    pub freq_250_hz: u8,
    pub freq_500_hz: u8,
    pub freq_1_khz: u8,
    pub freq_2_khz: u8,
    pub freq_4_khz: u8,
    pub freq_8_khz: u8,
    pub freq_16_khz: u8,
    pub bands_synced: [bool; 9],
}

impl Default for NineBandEQ {
    fn default() -> (s: Self)
        ensures
            s == Self::initial(),
    {
        let s = Self {
            freq_62_hz: 64,
            freq_125_hz: 64,
            freq_250_hz: 64,
            freq_500_hz: 64,
            freq_1_khz: 64,
            freq_2_khz: 64,
            freq_4_khz: 64,
            freq_8_khz: 64,
            freq_16_khz: 64,
            bands_synced: Self::filled(false),
        };
        s
    }
}

impl NineBandEQ {
    pub open spec fn initial() -> Self {
        NineBandEQ {
            freq_62_hz: 64,
            freq_125_hz: 64,
            freq_250_hz: 64,
            freq_500_hz: 64,
            freq_1_khz: 64,
            freq_2_khz: 64,
            freq_4_khz: 64,
            freq_8_khz: 64,
            freq_16_khz: 64,
            bands_synced: Self::flags(false),
        }
    }

    /// The nine band flags all set to `flag`.
    pub open spec fn flags(flag: bool) -> [bool; 9] {
        [flag, flag, flag, flag, flag, flag, flag, flag, flag]
    }

    pub open spec fn with_sync(self, flag: bool) -> Self {
        NineBandEQ { bands_synced: Self::flags(flag), ..self }
    }

    pub open spec fn all_synced(self) -> bool {
        forall|i: int| 0 <= i < 9 ==> #[trigger] self.bands_synced@[i]
    }

    fn filled(flag: bool) -> (a: [bool; 9])
        ensures
            a == Self::flags(flag),
    {
        [flag, flag, flag, flag, flag, flag, flag, flag, flag]
    }

    pub fn mark_all_synced(&mut self)
        ensures
            *final(self) == old(self).with_sync(true),
    {
        self.bands_synced = Self::filled(true);
    }

    pub fn mark_all_unsynced(&mut self)
        ensures
            *final(self) == old(self).with_sync(false),
    {
        self.bands_synced = Self::filled(false);
    }

    pub fn is_all_synced(&self) -> (r: bool)
        ensures
            r == self.all_synced(),
    {
        let mut i: usize = 0;
        while i < 9
            invariant
                i <= 9,
                forall|j: int| 0 <= j < i ==> #[trigger] self.bands_synced@[j],
            decreases 9 - i,
        {
            if !self.bands_synced[i] {
                return false;
            }
            i = i + 1;
        }
        true
    }
}

/// What an FX preset is called and what its two parameters are called.
#[derive(Copy, Clone, Debug)]
pub struct FxPresetInfo {
    pub name: &'static str,
    pub param1_label: &'static str,
    pub param2_off: &'static str,
    pub param2_on: &'static str,
}

/// The presets of the first FX processor (reverbs, flanger, choruses) and of the second
/// (delays, echoes, flanger, choruses), each as (name, param 1, param 2 off, param 2 on).
pub open spec fn fx_preset(first_slot: bool, idx: int) -> FxPresetInfo {
    if first_slot {
        if idx == 0 { FxPresetInfo { name: "Ambience", param1_label: "Decay", param2_off: "Instrument", param2_on: "Vocal" } }
        else if idx == 1 { FxPresetInfo { name: "Perc-Rev1", param1_label: "Decay", param2_off: "Dull", param2_on: "Bright" } }
        else if idx == 2 { FxPresetInfo { name: "Perc-Rev2", param1_label: "Decay", param2_off: "Dull", param2_on: "Bright" } }
        else if idx == 3 { FxPresetInfo { name: "Guit-Rev1", param1_label: "Decay", param2_off: "Less Bass", param2_on: "More Bass" } }
        else if idx == 4 { FxPresetInfo { name: "Guit-Rev2", param1_label: "Decay", param2_off: "Less Bass", param2_on: "More Bass" } }
        else if idx == 5 { FxPresetInfo { name: "Chamber", param1_label: "Decay", param2_off: "Pre-D Off", param2_on: "Pre-D On" } }
        else if idx == 6 { FxPresetInfo { name: "Room", param1_label: "Decay", param2_off: "Instrument", param2_on: "Vocal" } }
        else if idx == 7 { FxPresetInfo { name: "Concert", param1_label: "Decay", param2_off: "Instrument", param2_on: "Vocal" } }
        else if idx == 8 { FxPresetInfo { name: "Church", param1_label: "Decay", param2_off: "Instrument", param2_on: "Vocal" } }
        else if idx == 9 { FxPresetInfo { name: "Cathedral", param1_label: "Decay", param2_off: "Small", param2_on: "Large" } }
        else if idx == 10 { FxPresetInfo { name: "Temple", param1_label: "Decay", param2_off: "Pre-D Off", param2_on: "Pre-D On" } }
        else if idx == 11 { FxPresetInfo { name: "Stadium", param1_label: "Decay", param2_off: "Pre-D Off", param2_on: "Pre-D On" } }
        else if idx == 12 { FxPresetInfo { name: "Flanger", param1_label: "Mod Speed", param2_off: "Mono", param2_on: "Stereo" } }
        else if idx == 13 { FxPresetInfo { name: "Soft Chor", param1_label: "Density", param2_off: "Trem Off", param2_on: "Trem On" } }
        else if idx == 14 { FxPresetInfo { name: "Warm Chor", param1_label: "Density", param2_off: "Trem Off", param2_on: "Trem On" } }
        else { FxPresetInfo { name: "Deep Chor", param1_label: "Density", param2_off: "Trem Off", param2_on: "Trem On" } }
    } else {
        if idx == 0 { FxPresetInfo { name: "Delay 1/1", param1_label: "Feedback", param2_off: "Dull", param2_on: "Bright" } }
        else if idx == 1 { FxPresetInfo { name: "Delay 1/2", param1_label: "Feedback", param2_off: "Dull", param2_on: "Bright" } }
        else if idx == 2 { FxPresetInfo { name: "Delay 1/3", param1_label: "Feedback", param2_off: "Dull", param2_on: "Bright" } }
        else if idx == 3 { FxPresetInfo { name: "Delay 2/1", param1_label: "Feedback", param2_off: "Dull", param2_on: "Bright" } }
        else if idx == 4 { FxPresetInfo { name: "Echo 1/1", param1_label: "Feedback", param2_off: "Soft", param2_on: "Strong" } }
        else if idx == 5 { FxPresetInfo { name: "Echo 1/2", param1_label: "Feedback", param2_off: "Soft", param2_on: "Strong" } }
        else if idx == 6 { FxPresetInfo { name: "Echo 1/3", param1_label: "Feedback", param2_off: "Soft", param2_on: "Strong" } }
        else if idx == 7 { FxPresetInfo { name: "Echo 2/1", param1_label: "Feedback", param2_off: "Soft", param2_on: "Strong" } }
        else if idx == 8 { FxPresetInfo { name: "Wide Echo", param1_label: "Feedback", param2_off: "Wide", param2_on: "Narrow" } }
        else if idx == 9 { FxPresetInfo { name: "Ping Pong", param1_label: "Feedback", param2_off: "Wide", param2_on: "Narrow" } }
        else if idx == 10 { FxPresetInfo { name: "Ping P 1/3", param1_label: "Feedback", param2_off: "Wide", param2_on: "Narrow" } }
        else if idx == 11 { FxPresetInfo { name: "Ping P R>L", param1_label: "Feedback", param2_off: "Wide", param2_on: "Narrow" } }
        else if idx == 12 { FxPresetInfo { name: "Flanger", param1_label: "Mod Speed", param2_off: "Mono", param2_on: "Stereo" } }
        else if idx == 13 { FxPresetInfo { name: "Soft Chor", param1_label: "Density", param2_off: "Trem Off", param2_on: "Trem On" } }
        else if idx == 14 { FxPresetInfo { name: "Warm Chor", param1_label: "Density", param2_off: "Trem Off", param2_on: "Trem On" } }
        else { FxPresetInfo { name: "Deep Chor", param1_label: "Density", param2_off: "Trem Off", param2_on: "Trem On" } }
    }
}

/// The preset `idx` (0..=15; larger values give the last) of one FX processor.
pub fn fx_preset_info(first_slot: bool, idx: u8) -> (info: FxPresetInfo)
    ensures
        info == fx_preset(first_slot, idx as int),
{
    if first_slot {
        match idx {
            0 => FxPresetInfo { name: "Ambience", param1_label: "Decay", param2_off: "Instrument", param2_on: "Vocal" },
            1 => FxPresetInfo { name: "Perc-Rev1", param1_label: "Decay", param2_off: "Dull", param2_on: "Bright" },
            2 => FxPresetInfo { name: "Perc-Rev2", param1_label: "Decay", param2_off: "Dull", param2_on: "Bright" },
            3 => FxPresetInfo { name: "Guit-Rev1", param1_label: "Decay", param2_off: "Less Bass", param2_on: "More Bass" },
            4 => FxPresetInfo { name: "Guit-Rev2", param1_label: "Decay", param2_off: "Less Bass", param2_on: "More Bass" },
            5 => FxPresetInfo { name: "Chamber", param1_label: "Decay", param2_off: "Pre-D Off", param2_on: "Pre-D On" },
            6 => FxPresetInfo { name: "Room", param1_label: "Decay", param2_off: "Instrument", param2_on: "Vocal" },
            7 => FxPresetInfo { name: "Concert", param1_label: "Decay", param2_off: "Instrument", param2_on: "Vocal" },
            8 => FxPresetInfo { name: "Church", param1_label: "Decay", param2_off: "Instrument", param2_on: "Vocal" },
            9 => FxPresetInfo { name: "Cathedral", param1_label: "Decay", param2_off: "Small", param2_on: "Large" },
            10 => FxPresetInfo { name: "Temple", param1_label: "Decay", param2_off: "Pre-D Off", param2_on: "Pre-D On" },
            11 => FxPresetInfo { name: "Stadium", param1_label: "Decay", param2_off: "Pre-D Off", param2_on: "Pre-D On" },
            12 => FxPresetInfo { name: "Flanger", param1_label: "Mod Speed", param2_off: "Mono", param2_on: "Stereo" },
            13 => FxPresetInfo { name: "Soft Chor", param1_label: "Density", param2_off: "Trem Off", param2_on: "Trem On" },
            14 => FxPresetInfo { name: "Warm Chor", param1_label: "Density", param2_off: "Trem Off", param2_on: "Trem On" },
            _ => FxPresetInfo { name: "Deep Chor", param1_label: "Density", param2_off: "Trem Off", param2_on: "Trem On" },
        }
    } else {
        match idx {
            0 => FxPresetInfo { name: "Delay 1/1", param1_label: "Feedback", param2_off: "Dull", param2_on: "Bright" },
            1 => FxPresetInfo { name: "Delay 1/2", param1_label: "Feedback", param2_off: "Dull", param2_on: "Bright" },
            2 => FxPresetInfo { name: "Delay 1/3", param1_label: "Feedback", param2_off: "Dull", param2_on: "Bright" },
            3 => FxPresetInfo { name: "Delay 2/1", param1_label: "Feedback", param2_off: "Dull", param2_on: "Bright" },
            4 => FxPresetInfo { name: "Echo 1/1", param1_label: "Feedback", param2_off: "Soft", param2_on: "Strong" },
            5 => FxPresetInfo { name: "Echo 1/2", param1_label: "Feedback", param2_off: "Soft", param2_on: "Strong" },
            6 => FxPresetInfo { name: "Echo 1/3", param1_label: "Feedback", param2_off: "Soft", param2_on: "Strong" },
            7 => FxPresetInfo { name: "Echo 2/1", param1_label: "Feedback", param2_off: "Soft", param2_on: "Strong" },
            8 => FxPresetInfo { name: "Wide Echo", param1_label: "Feedback", param2_off: "Wide", param2_on: "Narrow" },
            9 => FxPresetInfo { name: "Ping Pong", param1_label: "Feedback", param2_off: "Wide", param2_on: "Narrow" },
            10 => FxPresetInfo { name: "Ping P 1/3", param1_label: "Feedback", param2_off: "Wide", param2_on: "Narrow" },
            11 => FxPresetInfo { name: "Ping P R>L", param1_label: "Feedback", param2_off: "Wide", param2_on: "Narrow" },
            12 => FxPresetInfo { name: "Flanger", param1_label: "Mod Speed", param2_off: "Mono", param2_on: "Stereo" },
            13 => FxPresetInfo { name: "Soft Chor", param1_label: "Density", param2_off: "Trem Off", param2_on: "Trem On" },
            14 => FxPresetInfo { name: "Warm Chor", param1_label: "Density", param2_off: "Trem Off", param2_on: "Trem On" },
            _ => FxPresetInfo { name: "Deep Chor", param1_label: "Density", param2_off: "Trem Off", param2_on: "Trem On" },
        }
    }
}

/// One of the two FX processors: its preset and two parameters, as MIDI values.
#[derive(Copy, Clone, Debug)]
pub struct FxSlot {
    pub id: FxSlotId,
    pub preset: u8,
    pub param1: u8,
    pub param2: u8,
    pub preset_synced: bool,
    pub param1_synced: bool,
    pub param2_synced: bool,
}

impl FxSlot {
    pub open spec fn with_sync(self, flag: bool) -> Self {
        FxSlot { preset_synced: flag, param1_synced: flag, param2_synced: flag, ..self }
    }

    pub fn new(id: FxSlotId) -> (s: Self)
        ensures
            s == (FxSlot {
                id,
                preset: 0,
                param1: 0,
                param2: 0,
                preset_synced: false,
                param1_synced: false,
                param2_synced: false,
            }),
    {
        Self {
            id,
            preset: 0,
            param1: 0,
            param2: 0,
            preset_synced: false,
            param1_synced: false,
            param2_synced: false,
        }
    }

    /// The selected preset of this processor (slot 0 is FX 1, any other FX 2); a preset
    /// number past the table gives its last entry.
    pub fn preset_info(&self) -> (info: FxPresetInfo)
        ensures
            info == fx_preset(self.id == 0, if self.preset <= 15 { self.preset as int } else { 15 }),
    {
        let idx = if self.preset < 15 { self.preset } else { 15 };
        fx_preset_info(self.id == 0, idx)
    }

    /// All sixteen presets of this processor, in order.
    pub fn presets(&self) -> (table: [FxPresetInfo; 16])
        ensures
            forall|i: int| 0 <= i < 16 ==> #[trigger] table@[i] == fx_preset(self.id == 0, i),
    {
        let first = self.id == 0;
        let table = [
            fx_preset_info(first, 0),
            fx_preset_info(first, 1),
            fx_preset_info(first, 2),
            fx_preset_info(first, 3),
            fx_preset_info(first, 4),
            fx_preset_info(first, 5),
            fx_preset_info(first, 6),
            fx_preset_info(first, 7),
            fx_preset_info(first, 8),
            fx_preset_info(first, 9),
            fx_preset_info(first, 10),
            fx_preset_info(first, 11),
            fx_preset_info(first, 12),
            fx_preset_info(first, 13),
            fx_preset_info(first, 14),
            fx_preset_info(first, 15),
        ];
        table
    }

    /// Parameter 2 is a switch: 0 selects its first option, any value from 1 up its second.
    pub fn param2_is_on(&self) -> (r: bool)
        ensures
            r == (self.param2 != 0),
    {
        self.param2 != 0
    }

    pub fn mark_all_synced(&mut self)
        ensures
            *final(self) == old(self).with_sync(true),
    {
        self.preset_synced = true;
        self.param1_synced = true;
        self.param2_synced = true;
    }

    pub fn mark_all_unsynced(&mut self)
        ensures
            *final(self) == old(self).with_sync(false),
    {
        self.preset_synced = false;
        self.param1_synced = false;
        self.param2_synced = false;
    }

    pub fn is_all_synced(&self) -> (r: bool)
        ensures
            r == (self.preset_synced && self.param1_synced && self.param2_synced),
    {
        self.preset_synced && self.param1_synced && self.param2_synced
    }
}

} // verus!
