use vstd::prelude::*;

use crate::channels::{
    bus_all_synced, channel_all_synced, has_input_stage, PhantomPowerType, AudioConnection, BasicChannelStrip, Bus, BusStrip, BusType, Channel, ChannelSends,
    FourBandEQ, FxSlot, NineBandEQ, PhantomPower,
};
use crate::controller::FLOW8Controller;
use crate::sysex::{
    decode_float_bits, decode_lowcut, decode_sysex_name, float_bits, lowcut_cc, lowcut_hz,
    lowcut_hz_to_cc, param_bits_ok, BoolParam, FloatParam, FxSysExLayout, LowCutParam, SysExDump, NAMES_START,
    NAMES_STRIDE, NAME_SCAN_LEN,
};
use crate::text::utf8_lossy_text;
use crate::sysex::name_bytes;

verus! {

/// Number of float parameters a dump carries: twelve per channel, bus levels, balances and
/// limiters, and nine equaliser bands per bus.
pub const FLOAT_SLOT_COUNT: usize = 142;

/// What a float parameter of the dump sets.
#[derive(Debug, Clone, Copy, PartialEq, Eq, Structural)]
pub enum FloatTarget {
    ChannelLevel,
    ChannelGain,
    ChannelPan,
    ChannelCompressor,
    ChannelEqLow,
    ChannelEqLowMid,
    ChannelEqHiMid,
    ChannelEqHi,
    ChannelSendMon1,
    ChannelSendMon2,
    ChannelSendFx1,
    ChannelSendFx2,
    BusLevel,
    BusBalance,
    BusLimiter,
    BusBand(u8),
}

/// How a decoded value is turned into a MIDI value: decibels of a fader or send
/// (-70 .. +10 dB, anything lower is off), or a linear range.
#[derive(Debug, Clone, Copy, PartialEq, Eq, Structural)]
pub enum CcScale {
    Decibels,
    Gain,
    Pan,
    Compressor,
    Eq,
    Balance,
    Limiter,
}

/// One float parameter of the dump: what it sets, and on which channel or bus.
#[derive(Debug, Clone, Copy, PartialEq, Eq, Structural)]
pub struct FloatSlot {
    pub target: FloatTarget,
    pub index: usize,
}

/// A float parameter read from a dump: its slot number, how to scale it, and the IEEE 754
/// bit pattern of the value.
#[derive(Debug, Clone, Copy, PartialEq, Eq, Structural)]
pub struct FloatReading {
    pub slot: usize,
    pub scale: CcScale,
    pub bits: u32,
}

/// The channel parameter group `g` (0 level .. 11 FX 2 send).
pub open spec fn channel_target(g: int) -> FloatTarget {
    if g == 0 {
        FloatTarget::ChannelLevel
    } else if g == 1 {
        FloatTarget::ChannelGain
    } else if g == 2 {
        FloatTarget::ChannelPan
    } else if g == 3 {
        FloatTarget::ChannelCompressor
    } else if g == 4 {
        FloatTarget::ChannelEqLow
    } else if g == 5 {
        FloatTarget::ChannelEqLowMid
    } else if g == 6 {
        FloatTarget::ChannelEqHiMid
    } else if g == 7 {
        FloatTarget::ChannelEqHi
    } else if g == 8 {
        FloatTarget::ChannelSendMon1
    } else if g == 9 {
        FloatTarget::ChannelSendMon2
    } else if g == 10 {
        FloatTarget::ChannelSendFx1
    } else {
        FloatTarget::ChannelSendFx2
    }
}

/// The slots in the order the dump is read: the twelve channel groups of seven channels,
/// then bus levels (5), balances (5) and limiters (3), then the nine bands of five buses.
pub open spec fn float_slot(k: int) -> FloatSlot {
    if k < 84 {
        FloatSlot { target: channel_target(k / 7), index: (k % 7) as usize }
    } else if k < 89 {
        FloatSlot { target: FloatTarget::BusLevel, index: (k - 84) as usize }
    } else if k < 94 {
        FloatSlot { target: FloatTarget::BusBalance, index: (k - 89) as usize }
    } else if k < 97 {
        FloatSlot { target: FloatTarget::BusLimiter, index: (k - 94) as usize }
    } else {
        FloatSlot { target: FloatTarget::BusBand(((k - 97) / 5) as u8), index: ((k - 97) % 5) as usize }
    }
}

pub open spec fn target_scale(t: FloatTarget) -> CcScale {
    match t {
        FloatTarget::ChannelLevel => CcScale::Decibels,
        FloatTarget::ChannelGain => CcScale::Gain,
        FloatTarget::ChannelPan => CcScale::Pan,
        FloatTarget::ChannelCompressor => CcScale::Compressor,
        FloatTarget::ChannelEqLow => CcScale::Eq,
        FloatTarget::ChannelEqLowMid => CcScale::Eq,
        FloatTarget::ChannelEqHiMid => CcScale::Eq,
        FloatTarget::ChannelEqHi => CcScale::Eq,
        FloatTarget::ChannelSendMon1 => CcScale::Decibels,
        FloatTarget::ChannelSendMon2 => CcScale::Decibels,
        FloatTarget::ChannelSendFx1 => CcScale::Decibels,
        FloatTarget::ChannelSendFx2 => CcScale::Decibels,
        FloatTarget::BusLevel => CcScale::Decibels,
        FloatTarget::BusBalance => CcScale::Balance,
        FloatTarget::BusLimiter => CcScale::Limiter,
        FloatTarget::BusBand(_) => CcScale::Eq,
    }
}

/// Whether the controller has the parameter of slot `k`: gain and compressor only on the
/// inputs (not USB/BT), balance only on Main, limiter and equaliser not on the FX buses.
pub open spec fn slot_enabled(c: FLOW8Controller, k: int) -> bool {
    let s = float_slot(k);
    match s.target {
        FloatTarget::ChannelGain => c.channels@[s.index as int].audio_connection != AudioConnection::UsbBt,
        FloatTarget::ChannelCompressor => c.channels@[s.index as int].audio_connection != AudioConnection::UsbBt,
        FloatTarget::BusBalance => c.buses@[s.index as int].bus_type == BusType::Main,
        FloatTarget::BusLimiter => c.buses@[s.index as int].bus_type != BusType::Fx,
        FloatTarget::BusBand(_) => c.buses@[s.index as int].bus_type != BusType::Fx,
        _ => true,
    }
}

/// The reading of slot `k` of dump `d`, if the controller has that parameter and the
/// dump holds a finite value for it.
pub open spec fn slot_reading(d: Seq<u8>, c: FLOW8Controller, k: int) -> Option<FloatReading> {
    if !slot_enabled(c, k) {
        None
    } else {
        match float_bits(d, slot_param(k)) {
            Some(bits) => Some(FloatReading { slot: k as usize, scale: target_scale(float_slot(k).target), bits }),
            None => None,
        }
    }
}

/// Every reading of a dump, in slot order.
pub open spec fn dump_readings(d: Seq<u8>, c: FLOW8Controller) -> Seq<FloatReading> {
    Seq::new(FLOAT_SLOT_COUNT as nat, |k: int| k).filter_map(|k: int| slot_reading(d, c, k))
}

/// Where the float parameter of slot `k` sits in the dump (the slots in `float_slot`'s order).
pub open spec fn slot_param(k: int) -> FloatParam {
    if k < 12 {
        slot_param_0(k)
    } else if k < 24 {
        slot_param_1(k)
    } else if k < 36 {
        slot_param_2(k)
    } else if k < 48 {
        slot_param_3(k)
    } else if k < 60 {
        slot_param_4(k)
    } else if k < 72 {
        slot_param_5(k)
    } else if k < 84 {
        slot_param_6(k)
    } else if k < 96 {
        slot_param_7(k)
    } else if k < 108 {
        slot_param_8(k)
    } else if k < 120 {
        slot_param_9(k)
    } else if k < 132 {
        slot_param_10(k)
    } else {
        slot_param_11(k)
    }
}

pub open spec fn slot_param_0(k: int) -> FloatParam {
    if k == 0 {
        FloatParam { msb_off: 0x0067, data_offs: [0x0068, 0x0069, 0x006A, 0x006B], bit_indices: [0, 1, 2, 3] }
    } else if k == 1 {
        FloatParam { msb_off: 0x00B4, data_offs: [0x00B2, 0x00B3, 0x00B5, 0x00B6], bit_indices: [3, 2, 0, 1] }
    } else if k == 2 {
        FloatParam { msb_off: 0x00FA, data_offs: [0x00FD, 0x00FE, 0x00FF, 0x0100], bit_indices: [2, 3, 4, 5] }
    } else if k == 3 {
        FloatParam { msb_off: 0x0147, data_offs: [0x0148, 0x0149, 0x014A, 0x014B], bit_indices: [0, 1, 2, 3] }
    } else if k == 4 {
        FloatParam { msb_off: 0x0194, data_offs: [0x0192, 0x0193, 0x0195, 0x0196], bit_indices: [3, 2, 0, 1] }
    } else if k == 5 {
        FloatParam { msb_off: 0x01DA, data_offs: [0x01DD, 0x01DE, 0x01DF, 0x01E0], bit_indices: [2, 3, 4, 5] }
    } else if k == 6 {
        FloatParam { msb_off: 0x0227, data_offs: [0x0228, 0x0229, 0x022A, 0x022B], bit_indices: [0, 1, 2, 3] }
    } else if k == 7 {
        FloatParam { msb_off: 0x0739, data_offs: [0x0736, 0x073A, 0x073B, 0x073C], bit_indices: [4, 0, 1, 2] }
    } else if k == 8 {
        FloatParam { msb_off: 0x077A, data_offs: [0x077B, 0x077C, 0x077D, 0x077E], bit_indices: [0, 1, 2, 3] }
    } else if k == 9 {
        FloatParam { msb_off: 0x07BD, data_offs: [0x07BB, 0x07BC, 0x07BE, 0x07BF], bit_indices: [3, 2, 0, 1] }
    } else if k == 10 {
        FloatParam { msb_off: 0x07FD, data_offs: [0x07FA, 0x07FE, 0x07FF, 0x0800], bit_indices: [4, 0, 1, 2] }
    } else {
        FloatParam { msb_off: 0x083E, data_offs: [0x083F, 0x0840, 0x0841, 0x0842], bit_indices: [0, 1, 2, 3] }
    }
}

pub open spec fn slot_param_1(k: int) -> FloatParam {
    if k == 12 {
        FloatParam { msb_off: 0x0881, data_offs: [0x087F, 0x0880, 0x0882, 0x0883], bit_indices: [3, 2, 0, 1] }
    } else if k == 13 {
        FloatParam { msb_off: 0x08C1, data_offs: [0x08BE, 0x08C2, 0x08C3, 0x08C4], bit_indices: [4, 0, 1, 2] }
    } else if k == 14 {
        FloatParam { msb_off: 0x0506, data_offs: [0x0501, 0x0502, 0x0503, 0x0508], bit_indices: [6, 5, 4, 1] }
    } else if k == 15 {
        FloatParam { msb_off: 0x0506, data_offs: [0x0504, 0x0505, 0x0507, 0x050C], bit_indices: [3, 2, 0, 5] }
    } else if k == 16 {
        FloatParam { msb_off: 0x050C, data_offs: [0x050A, 0x050B, 0x050D, 0x0511], bit_indices: [3, 2, 0, 4] }
    } else if k == 17 {
        FloatParam { msb_off: 0x0514, data_offs: [0x050F, 0x0510, 0x0511, 0x0516], bit_indices: [6, 5, 4, 1] }
    } else if k == 18 {
        FloatParam { msb_off: 0x0514, data_offs: [0x0512, 0x0513, 0x0515, 0x051A], bit_indices: [3, 2, 0, 5] }
    } else if k == 19 {
        FloatParam { msb_off: 0x051A, data_offs: [0x0518, 0x0519, 0x051B, 0x051F], bit_indices: [3, 2, 0, 4] }
    } else if k == 20 {
        FloatParam { msb_off: 0x0522, data_offs: [0x051D, 0x051E, 0x051F, 0x0524], bit_indices: [6, 5, 4, 1] }
    } else if k == 21 {
        FloatParam { msb_off: 0x073D, data_offs: [0x073E, 0x073F, 0x0740, 0x0741], bit_indices: [0, 1, 2, 3] }
    } else if k == 22 {
        FloatParam { msb_off: 0x077C, data_offs: [0x077F, 0x0780, 0x0781, 0x0782], bit_indices: [2, 3, 4, 5] }
    } else {
        FloatParam { msb_off: 0x07C0, data_offs: [0x07C1, 0x07C2, 0x07C3, 0x07C4], bit_indices: [0, 1, 2, 3] }
    }
}

pub open spec fn slot_param_2(k: int) -> FloatParam {
    if k == 24 {
        FloatParam { msb_off: 0x0801, data_offs: [0x0802, 0x0803, 0x0804, 0x0805], bit_indices: [0, 1, 2, 3] }
    } else if k == 25 {
        FloatParam { msb_off: 0x0840, data_offs: [0x0843, 0x0844, 0x0845, 0x0846], bit_indices: [2, 3, 4, 5] }
    } else if k == 26 {
        FloatParam { msb_off: 0x0884, data_offs: [0x0885, 0x0886, 0x0887, 0x0888], bit_indices: [0, 1, 2, 3] }
    } else if k == 27 {
        FloatParam { msb_off: 0x0884, data_offs: [0x0885, 0x0886, 0x0887, 0x0888], bit_indices: [0, 1, 2, 3] }
    } else if k == 28 {
        FloatParam { msb_off: 0x0744, data_offs: [0x0742, 0x0743, 0x0749, 0x074A], bit_indices: [3, 2, 4, 5] }
    } else if k == 29 {
        FloatParam { msb_off: 0x078A, data_offs: [0x0785, 0x0786, 0x078B, 0x078C], bit_indices: [6, 5, 0, 1] }
    } else if k == 30 {
        FloatParam { msb_off: 0x07C9, data_offs: [0x07C5, 0x07C6, 0x07CC, 0x07CD], bit_indices: [5, 4, 2, 3] }
    } else if k == 31 {
        FloatParam { msb_off: 0x0808, data_offs: [0x0806, 0x0807, 0x080D, 0x080E], bit_indices: [3, 2, 4, 5] }
    } else if k == 32 {
        FloatParam { msb_off: 0x084E, data_offs: [0x0849, 0x084A, 0x084F, 0x0850], bit_indices: [6, 5, 0, 1] }
    } else if k == 33 {
        FloatParam { msb_off: 0x088D, data_offs: [0x0889, 0x088A, 0x0890, 0x0891], bit_indices: [5, 4, 2, 3] }
    } else if k == 34 {
        FloatParam { msb_off: 0x08CC, data_offs: [0x08CA, 0x08CB, 0x08D1, 0x08D2], bit_indices: [3, 2, 4, 5] }
    } else {
        FloatParam { msb_off: 0x074B, data_offs: [0x0747, 0x0748, 0x074E, 0x074F], bit_indices: [5, 4, 2, 3] }
    }
}

pub open spec fn slot_param_3(k: int) -> FloatParam {
    if k == 36 {
        FloatParam { msb_off: 0x078A, data_offs: [0x0788, 0x0789, 0x078F, 0x0790], bit_indices: [3, 2, 4, 5] }
    } else if k == 37 {
        FloatParam { msb_off: 0x07D0, data_offs: [0x07CB, 0x07CC, 0x07D1, 0x07D2], bit_indices: [6, 5, 0, 1] }
    } else if k == 38 {
        FloatParam { msb_off: 0x080F, data_offs: [0x080B, 0x080C, 0x0812, 0x0813], bit_indices: [5, 4, 2, 3] }
    } else if k == 39 {
        FloatParam { msb_off: 0x084E, data_offs: [0x084C, 0x084D, 0x0853, 0x0854], bit_indices: [3, 2, 4, 5] }
    } else if k == 40 {
        FloatParam { msb_off: 0x0894, data_offs: [0x088F, 0x0890, 0x0895, 0x0896], bit_indices: [6, 5, 0, 1] }
    } else if k == 41 {
        FloatParam { msb_off: 0x08D3, data_offs: [0x08CF, 0x08D0, 0x08D6, 0x08D7], bit_indices: [5, 4, 2, 3] }
    } else if k == 42 {
        FloatParam { msb_off: 0x0752, data_offs: [0x074D, 0x074E, 0x0753, 0x0754], bit_indices: [6, 5, 0, 1] }
    } else if k == 43 {
        FloatParam { msb_off: 0x0791, data_offs: [0x078D, 0x078E, 0x0794, 0x0795], bit_indices: [5, 4, 2, 3] }
    } else if k == 44 {
        FloatParam { msb_off: 0x07D0, data_offs: [0x07CE, 0x07CF, 0x07D5, 0x07D6], bit_indices: [3, 2, 4, 5] }
    } else if k == 45 {
        FloatParam { msb_off: 0x0816, data_offs: [0x0811, 0x0812, 0x0817, 0x0818], bit_indices: [6, 5, 0, 1] }
    } else if k == 46 {
        FloatParam { msb_off: 0x0855, data_offs: [0x0851, 0x0852, 0x0858, 0x0859], bit_indices: [5, 4, 2, 3] }
    } else {
        FloatParam { msb_off: 0x0894, data_offs: [0x0892, 0x0893, 0x0899, 0x089A], bit_indices: [3, 2, 4, 5] }
    }
}

pub open spec fn slot_param_4(k: int) -> FloatParam {
    if k == 48 {
        FloatParam { msb_off: 0x08DA, data_offs: [0x08D5, 0x08D6, 0x08DB, 0x08DC], bit_indices: [6, 5, 0, 1] }
    } else if k == 49 {
        FloatParam { msb_off: 0x0752, data_offs: [0x0750, 0x0751, 0x0757, 0x0758], bit_indices: [3, 2, 4, 5] }
    } else if k == 50 {
        FloatParam { msb_off: 0x0798, data_offs: [0x0793, 0x0794, 0x0799, 0x079A], bit_indices: [6, 5, 0, 1] }
    } else if k == 51 {
        FloatParam { msb_off: 0x07D7, data_offs: [0x07D3, 0x07D4, 0x07DA, 0x07DB], bit_indices: [5, 4, 2, 3] }
    } else if k == 52 {
        FloatParam { msb_off: 0x0816, data_offs: [0x0814, 0x0815, 0x081B, 0x081C], bit_indices: [3, 2, 4, 5] }
    } else if k == 53 {
        FloatParam { msb_off: 0x085C, data_offs: [0x0857, 0x0858, 0x085D, 0x085E], bit_indices: [6, 5, 0, 1] }
    } else if k == 54 {
        FloatParam { msb_off: 0x089B, data_offs: [0x0897, 0x0898, 0x089E, 0x089F], bit_indices: [5, 4, 2, 3] }
    } else if k == 55 {
        FloatParam { msb_off: 0x08DA, data_offs: [0x08D8, 0x08D9, 0x08DF, 0x08E0], bit_indices: [3, 2, 4, 5] }
    } else if k == 56 {
        FloatParam { msb_off: 0x0052, data_offs: [0x0050, 0x0051, 0x0053, 0x0054], bit_indices: [3, 2, 0, 1] }
    } else if k == 57 {
        FloatParam { msb_off: 0x0098, data_offs: [0x009B, 0x009C, 0x009D, 0x009E], bit_indices: [2, 3, 4, 5] }
    } else if k == 58 {
        FloatParam { msb_off: 0x00E5, data_offs: [0x00E6, 0x00E7, 0x00E8, 0x00E9], bit_indices: [0, 1, 2, 3] }
    } else {
        FloatParam { msb_off: 0x0132, data_offs: [0x0130, 0x0131, 0x0133, 0x0134], bit_indices: [3, 2, 0, 1] }
    }
}

pub open spec fn slot_param_5(k: int) -> FloatParam {
    if k == 60 {
        FloatParam { msb_off: 0x0178, data_offs: [0x017B, 0x017C, 0x017D, 0x017E], bit_indices: [2, 3, 4, 5] }
    } else if k == 61 {
        FloatParam { msb_off: 0x01C5, data_offs: [0x01C6, 0x01C7, 0x01C8, 0x01C9], bit_indices: [0, 1, 2, 3] }
    } else if k == 62 {
        FloatParam { msb_off: 0x0212, data_offs: [0x0210, 0x0211, 0x0213, 0x0214], bit_indices: [3, 2, 0, 1] }
    } else if k == 63 {
        FloatParam { msb_off: 0x0052, data_offs: [0x0053, 0x0054, 0x0057, 0x0058], bit_indices: [0, 1, 4, 5] }
    } else if k == 64 {
        FloatParam { msb_off: 0x0098, data_offs: [0x0096, 0x0097, 0x009D, 0x009E], bit_indices: [3, 2, 4, 5] }
    } else if k == 65 {
        FloatParam { msb_off: 0x00EC, data_offs: [0x00E8, 0x00E9, 0x00ED, 0x00EE], bit_indices: [5, 4, 0, 1] }
    } else if k == 66 {
        FloatParam { msb_off: 0x0132, data_offs: [0x0133, 0x0134, 0x0137, 0x0138], bit_indices: [0, 1, 4, 5] }
    } else if k == 67 {
        FloatParam { msb_off: 0x0178, data_offs: [0x0176, 0x0177, 0x017D, 0x017E], bit_indices: [3, 2, 4, 5] }
    } else if k == 68 {
        FloatParam { msb_off: 0x01CC, data_offs: [0x01C8, 0x01C9, 0x01CD, 0x01CE], bit_indices: [5, 4, 0, 1] }
    } else if k == 69 {
        FloatParam { msb_off: 0x0212, data_offs: [0x0213, 0x0214, 0x0217, 0x0218], bit_indices: [0, 1, 4, 5] }
    } else if k == 70 {
        FloatParam { msb_off: 0x0059, data_offs: [0x005A, 0x005B, 0x005C, 0x005D], bit_indices: [0, 1, 2, 3] }
    } else {
        FloatParam { msb_off: 0x00A6, data_offs: [0x00A4, 0x00A5, 0x00A7, 0x00A8], bit_indices: [3, 2, 0, 1] }
    }
}

pub open spec fn slot_param_6(k: int) -> FloatParam {
    if k == 72 {
        FloatParam { msb_off: 0x00EC, data_offs: [0x00EF, 0x00F0, 0x00F1, 0x00F2], bit_indices: [2, 3, 4, 5] }
    } else if k == 73 {
        FloatParam { msb_off: 0x0139, data_offs: [0x013A, 0x013B, 0x013C, 0x013D], bit_indices: [0, 1, 2, 3] }
    } else if k == 74 {
        FloatParam { msb_off: 0x0186, data_offs: [0x0184, 0x0185, 0x0187, 0x0188], bit_indices: [3, 2, 0, 1] }
    } else if k == 75 {
        FloatParam { msb_off: 0x01CC, data_offs: [0x01CF, 0x01D0, 0x01D1, 0x01D2], bit_indices: [2, 3, 4, 5] }
    } else if k == 76 {
        FloatParam { msb_off: 0x0219, data_offs: [0x021A, 0x021B, 0x021C, 0x021D], bit_indices: [0, 1, 2, 3] }
    } else if k == 77 {
        FloatParam { msb_off: 0x0060, data_offs: [0x005E, 0x005F, 0x0061, 0x0062], bit_indices: [3, 2, 0, 1] }
    } else if k == 78 {
        FloatParam { msb_off: 0x00A6, data_offs: [0x00A9, 0x00AA, 0x00AB, 0x00AC], bit_indices: [2, 3, 4, 5] }
    } else if k == 79 {
        FloatParam { msb_off: 0x00F3, data_offs: [0x00F4, 0x00F5, 0x00F6, 0x00F7], bit_indices: [0, 1, 2, 3] }
    } else if k == 80 {
        FloatParam { msb_off: 0x0140, data_offs: [0x013E, 0x013F, 0x0141, 0x0142], bit_indices: [3, 2, 0, 1] }
    } else if k == 81 {
        FloatParam { msb_off: 0x0186, data_offs: [0x0189, 0x018A, 0x018B, 0x018C], bit_indices: [2, 3, 4, 5] }
    } else if k == 82 {
        FloatParam { msb_off: 0x01D3, data_offs: [0x01D4, 0x01D5, 0x01D6, 0x01D7], bit_indices: [0, 1, 2, 3] }
    } else {
        FloatParam { msb_off: 0x0220, data_offs: [0x021E, 0x021F, 0x0221, 0x0222], bit_indices: [3, 2, 0, 1] }
    }
}

pub open spec fn slot_param_7(k: int) -> FloatParam {
    if k == 84 {
        FloatParam { msb_off: 0x04C7, data_offs: [0x04C8, 0x04C9, 0x04CA, 0x04CB], bit_indices: [0, 1, 2, 3] }
    } else if k == 85 {
        FloatParam { msb_off: 0x0338, data_offs: [0x033B, 0x033C, 0x033D, 0x033E], bit_indices: [2, 3, 4, 5] }
    } else if k == 86 {
        FloatParam { msb_off: 0x0338, data_offs: [0x0336, 0x0337, 0x033D, 0x033E], bit_indices: [3, 2, 4, 5] }
    } else if k == 87 {
        FloatParam { msb_off: 0x03D2, data_offs: [0x03D0, 0x03D1, 0x03D3, 0x03D4], bit_indices: [3, 2, 0, 1] }
    } else if k == 88 {
        FloatParam { msb_off: 0x0418, data_offs: [0x041B, 0x041C, 0x041D, 0x041E], bit_indices: [2, 3, 4, 5] }
    } else if k == 89 {
        FloatParam { msb_off: 0x054C, data_offs: [0x0547, 0x0548, 0x0549, 0x054E], bit_indices: [6, 5, 4, 1] }
    } else if k == 90 {
        FloatParam { msb_off: 0x0530, data_offs: [0x052E, 0x052F, 0x0531, 0x0536], bit_indices: [3, 2, 0, 5] }
    } else if k == 91 {
        FloatParam { msb_off: 0x0536, data_offs: [0x0534, 0x0535, 0x0537, 0x053B], bit_indices: [3, 2, 0, 4] }
    } else if k == 92 {
        FloatParam { msb_off: 0x053E, data_offs: [0x0539, 0x053A, 0x053B, 0x0540], bit_indices: [6, 5, 4, 1] }
    } else if k == 93 {
        FloatParam { msb_off: 0x053E, data_offs: [0x053C, 0x053D, 0x053F, 0x0544], bit_indices: [3, 2, 0, 5] }
    } else if k == 94 {
        FloatParam { msb_off: 0x0B42, data_offs: [0x0B45, 0x0B46, 0x0B47, 0x0B48], bit_indices: [2, 3, 4, 5] }
    } else {
        FloatParam { msb_off: 0x08FD, data_offs: [0x08FE, 0x08FF, 0x0900, 0x0901], bit_indices: [0, 1, 2, 3] }
    }
}

pub open spec fn slot_param_8(k: int) -> FloatParam {
    if k == 96 {
        FloatParam { msb_off: 0x08FD, data_offs: [0x08F9, 0x08FA, 0x0900, 0x0901], bit_indices: [5, 4, 2, 3] }
    } else if k == 97 {
        FloatParam { msb_off: 0x0B49, data_offs: [0x0B45, 0x0B46, 0x0B4C, 0x0B4D], bit_indices: [5, 4, 2, 3] }
    } else if k == 98 {
        FloatParam { msb_off: 0x0904, data_offs: [0x08FF, 0x0900, 0x0905, 0x0906], bit_indices: [6, 5, 0, 1] }
    } else if k == 99 {
        FloatParam { msb_off: 0x0904, data_offs: [0x08FF, 0x0900, 0x0901, 0x0906], bit_indices: [6, 5, 4, 1] }
    } else if k == 100 {
        FloatParam { msb_off: 0x09EB, data_offs: [0x09E7, 0x09E8, 0x09EE, 0x09EF], bit_indices: [5, 4, 2, 3] }
    } else if k == 101 {
        FloatParam { msb_off: 0x0A62, data_offs: [0x0A5D, 0x0A5E, 0x0A63, 0x0A64], bit_indices: [6, 5, 0, 1] }
    } else if k == 102 {
        FloatParam { msb_off: 0x0B50, data_offs: [0x0B4B, 0x0B4C, 0x0B51, 0x0B52], bit_indices: [6, 5, 0, 1] }
    } else if k == 103 {
        FloatParam { msb_off: 0x0904, data_offs: [0x0902, 0x0903, 0x0909, 0x090A], bit_indices: [3, 2, 4, 5] }
    } else if k == 104 {
        FloatParam { msb_off: 0x0904, data_offs: [0x0902, 0x0903, 0x0905, 0x090A], bit_indices: [3, 2, 0, 5] }
    } else if k == 105 {
        FloatParam { msb_off: 0x09F2, data_offs: [0x09ED, 0x09EE, 0x09F3, 0x09F4], bit_indices: [6, 5, 0, 1] }
    } else if k == 106 {
        FloatParam { msb_off: 0x0A62, data_offs: [0x0A60, 0x0A61, 0x0A67, 0x0A68], bit_indices: [3, 2, 4, 5] }
    } else {
        FloatParam { msb_off: 0x0B50, data_offs: [0x0B4E, 0x0B4F, 0x0B55, 0x0B56], bit_indices: [3, 2, 4, 5] }
    }
}

pub open spec fn slot_param_9(k: int) -> FloatParam {
    if k == 108 {
        FloatParam { msb_off: 0x090B, data_offs: [0x0907, 0x0908, 0x090E, 0x090F], bit_indices: [5, 4, 2, 3] }
    } else if k == 109 {
        FloatParam { msb_off: 0x0909, data_offs: [0x0907, 0x0908, 0x090B, 0x090F], bit_indices: [3, 2, 1, 5] }
    } else if k == 110 {
        FloatParam { msb_off: 0x09F2, data_offs: [0x09F0, 0x09F1, 0x09F7, 0x09F8], bit_indices: [3, 2, 4, 5] }
    } else if k == 111 {
        FloatParam { msb_off: 0x0A69, data_offs: [0x0A65, 0x0A66, 0x0A6C, 0x0A6D], bit_indices: [5, 4, 2, 3] }
    } else if k == 112 {
        FloatParam { msb_off: 0x0B57, data_offs: [0x0B53, 0x0B54, 0x0B5A, 0x0B5B], bit_indices: [5, 4, 2, 3] }
    } else if k == 113 {
        FloatParam { msb_off: 0x0912, data_offs: [0x090D, 0x090E, 0x0913, 0x0914], bit_indices: [6, 5, 0, 1] }
    } else if k == 114 {
        FloatParam { msb_off: 0x090E, data_offs: [0x090D, 0x090F, 0x0912, 0x0914], bit_indices: [2, 0, 3, 5] }
    } else if k == 115 {
        FloatParam { msb_off: 0x09F9, data_offs: [0x09F5, 0x09F6, 0x09FC, 0x09FD], bit_indices: [5, 4, 2, 3] }
    } else if k == 116 {
        FloatParam { msb_off: 0x0A70, data_offs: [0x0A6B, 0x0A6C, 0x0A71, 0x0A72], bit_indices: [6, 5, 0, 1] }
    } else if k == 117 {
        FloatParam { msb_off: 0x0B5E, data_offs: [0x0B59, 0x0B5A, 0x0B5F, 0x0B60], bit_indices: [6, 5, 0, 1] }
    } else if k == 118 {
        FloatParam { msb_off: 0x0912, data_offs: [0x0910, 0x0911, 0x0917, 0x0918], bit_indices: [3, 2, 4, 5] }
    } else {
        FloatParam { msb_off: 0x090E, data_offs: [0x090D, 0x090F, 0x0912, 0x0914], bit_indices: [2, 0, 3, 5] }
    }
}

pub open spec fn slot_param_10(k: int) -> FloatParam {
    if k == 120 {
        FloatParam { msb_off: 0x0A00, data_offs: [0x09FB, 0x09FC, 0x0A01, 0x0A02], bit_indices: [6, 5, 0, 1] }
    } else if k == 121 {
        FloatParam { msb_off: 0x0A70, data_offs: [0x0A6E, 0x0A6F, 0x0A75, 0x0A76], bit_indices: [3, 2, 4, 5] }
    } else if k == 122 {
        FloatParam { msb_off: 0x0B5E, data_offs: [0x0B5C, 0x0B5D, 0x0B63, 0x0B64], bit_indices: [3, 2, 4, 5] }
    } else if k == 123 {
        FloatParam { msb_off: 0x0919, data_offs: [0x0915, 0x0916, 0x091C, 0x091D], bit_indices: [5, 4, 2, 3] }
    } else if k == 124 {
        FloatParam { msb_off: 0x0917, data_offs: [0x0915, 0x0916, 0x0919, 0x091D], bit_indices: [3, 2, 1, 5] }
    } else if k == 125 {
        FloatParam { msb_off: 0x0A00, data_offs: [0x09FE, 0x09FF, 0x0A05, 0x0A06], bit_indices: [3, 2, 4, 5] }
    } else if k == 126 {
        FloatParam { msb_off: 0x0A77, data_offs: [0x0A73, 0x0A74, 0x0A7A, 0x0A7B], bit_indices: [5, 4, 2, 3] }
    } else if k == 127 {
        FloatParam { msb_off: 0x0B65, data_offs: [0x0B61, 0x0B62, 0x0B68, 0x0B69], bit_indices: [5, 4, 2, 3] }
    } else if k == 128 {
        FloatParam { msb_off: 0x0920, data_offs: [0x091B, 0x091C, 0x0921, 0x0922], bit_indices: [6, 5, 0, 1] }
    } else if k == 129 {
        FloatParam { msb_off: 0x091C, data_offs: [0x091B, 0x091D, 0x0920, 0x0922], bit_indices: [2, 0, 3, 5] }
    } else if k == 130 {
        FloatParam { msb_off: 0x0A07, data_offs: [0x0A03, 0x0A04, 0x0A0A, 0x0A0B], bit_indices: [5, 4, 2, 3] }
    } else {
        FloatParam { msb_off: 0x0A7E, data_offs: [0x0A79, 0x0A7A, 0x0A7F, 0x0A80], bit_indices: [6, 5, 0, 1] }
    }
}

pub open spec fn slot_param_11(k: int) -> FloatParam {
    if k == 132 {
        FloatParam { msb_off: 0x0B6C, data_offs: [0x0B67, 0x0B68, 0x0B6D, 0x0B6E], bit_indices: [6, 5, 0, 1] }
    } else if k == 133 {
        FloatParam { msb_off: 0x0920, data_offs: [0x091E, 0x091F, 0x0925, 0x0926], bit_indices: [3, 2, 4, 5] }
    } else if k == 134 {
        FloatParam { msb_off: 0x091C, data_offs: [0x091B, 0x091D, 0x0920, 0x0922], bit_indices: [2, 0, 3, 5] }
    } else if k == 135 {
        FloatParam { msb_off: 0x0A0E, data_offs: [0x0A09, 0x0A0A, 0x0A0F, 0x0A10], bit_indices: [6, 5, 0, 1] }
    } else if k == 136 {
        FloatParam { msb_off: 0x0A7E, data_offs: [0x0A7C, 0x0A7D, 0x0A83, 0x0A84], bit_indices: [3, 2, 4, 5] }
    } else if k == 137 {
        FloatParam { msb_off: 0x0B6C, data_offs: [0x0B6A, 0x0B6B, 0x0B71, 0x0B72], bit_indices: [3, 2, 4, 5] }
    } else if k == 138 {
        FloatParam { msb_off: 0x0927, data_offs: [0x0923, 0x0924, 0x092A, 0x092B], bit_indices: [5, 4, 2, 3] }
    } else if k == 139 {
        FloatParam { msb_off: 0x0925, data_offs: [0x0923, 0x0924, 0x0927, 0x092B], bit_indices: [3, 2, 1, 5] }
    } else if k == 140 {
        FloatParam { msb_off: 0x0A0E, data_offs: [0x0A0C, 0x0A0D, 0x0A13, 0x0A14], bit_indices: [3, 2, 4, 5] }
    } else {
        FloatParam { msb_off: 0x0A85, data_offs: [0x0A81, 0x0A82, 0x0A88, 0x0A89], bit_indices: [5, 4, 2, 3] }
    }
}

fn slot_param_exec_0(k: usize) -> (p: FloatParam)
    requires
        0 <= k < 12,
    ensures
        p == slot_param_0(k as int),
        param_bits_ok(p),
{
    match k {
        0 => FloatParam { msb_off: 0x0067, data_offs: [0x0068, 0x0069, 0x006A, 0x006B], bit_indices: [0, 1, 2, 3] },
        1 => FloatParam { msb_off: 0x00B4, data_offs: [0x00B2, 0x00B3, 0x00B5, 0x00B6], bit_indices: [3, 2, 0, 1] },
        2 => FloatParam { msb_off: 0x00FA, data_offs: [0x00FD, 0x00FE, 0x00FF, 0x0100], bit_indices: [2, 3, 4, 5] },
        3 => FloatParam { msb_off: 0x0147, data_offs: [0x0148, 0x0149, 0x014A, 0x014B], bit_indices: [0, 1, 2, 3] },
        4 => FloatParam { msb_off: 0x0194, data_offs: [0x0192, 0x0193, 0x0195, 0x0196], bit_indices: [3, 2, 0, 1] },
        5 => FloatParam { msb_off: 0x01DA, data_offs: [0x01DD, 0x01DE, 0x01DF, 0x01E0], bit_indices: [2, 3, 4, 5] },
        6 => FloatParam { msb_off: 0x0227, data_offs: [0x0228, 0x0229, 0x022A, 0x022B], bit_indices: [0, 1, 2, 3] },
        7 => FloatParam { msb_off: 0x0739, data_offs: [0x0736, 0x073A, 0x073B, 0x073C], bit_indices: [4, 0, 1, 2] },
        8 => FloatParam { msb_off: 0x077A, data_offs: [0x077B, 0x077C, 0x077D, 0x077E], bit_indices: [0, 1, 2, 3] },
        9 => FloatParam { msb_off: 0x07BD, data_offs: [0x07BB, 0x07BC, 0x07BE, 0x07BF], bit_indices: [3, 2, 0, 1] },
        10 => FloatParam { msb_off: 0x07FD, data_offs: [0x07FA, 0x07FE, 0x07FF, 0x0800], bit_indices: [4, 0, 1, 2] },
        _ => FloatParam { msb_off: 0x083E, data_offs: [0x083F, 0x0840, 0x0841, 0x0842], bit_indices: [0, 1, 2, 3] },
    }
}

fn slot_param_exec_1(k: usize) -> (p: FloatParam)
    requires
        12 <= k < 24,
    ensures
        p == slot_param_1(k as int),
        param_bits_ok(p),
{
    match k {
        12 => FloatParam { msb_off: 0x0881, data_offs: [0x087F, 0x0880, 0x0882, 0x0883], bit_indices: [3, 2, 0, 1] },
        13 => FloatParam { msb_off: 0x08C1, data_offs: [0x08BE, 0x08C2, 0x08C3, 0x08C4], bit_indices: [4, 0, 1, 2] },
        14 => FloatParam { msb_off: 0x0506, data_offs: [0x0501, 0x0502, 0x0503, 0x0508], bit_indices: [6, 5, 4, 1] },
        15 => FloatParam { msb_off: 0x0506, data_offs: [0x0504, 0x0505, 0x0507, 0x050C], bit_indices: [3, 2, 0, 5] },
        16 => FloatParam { msb_off: 0x050C, data_offs: [0x050A, 0x050B, 0x050D, 0x0511], bit_indices: [3, 2, 0, 4] },
        17 => FloatParam { msb_off: 0x0514, data_offs: [0x050F, 0x0510, 0x0511, 0x0516], bit_indices: [6, 5, 4, 1] },
        18 => FloatParam { msb_off: 0x0514, data_offs: [0x0512, 0x0513, 0x0515, 0x051A], bit_indices: [3, 2, 0, 5] },
        19 => FloatParam { msb_off: 0x051A, data_offs: [0x0518, 0x0519, 0x051B, 0x051F], bit_indices: [3, 2, 0, 4] },
        20 => FloatParam { msb_off: 0x0522, data_offs: [0x051D, 0x051E, 0x051F, 0x0524], bit_indices: [6, 5, 4, 1] },
        21 => FloatParam { msb_off: 0x073D, data_offs: [0x073E, 0x073F, 0x0740, 0x0741], bit_indices: [0, 1, 2, 3] },
        22 => FloatParam { msb_off: 0x077C, data_offs: [0x077F, 0x0780, 0x0781, 0x0782], bit_indices: [2, 3, 4, 5] },
        _ => FloatParam { msb_off: 0x07C0, data_offs: [0x07C1, 0x07C2, 0x07C3, 0x07C4], bit_indices: [0, 1, 2, 3] },
    }
}

fn slot_param_exec_2(k: usize) -> (p: FloatParam)
    requires
        24 <= k < 36,
    ensures
        p == slot_param_2(k as int),
        param_bits_ok(p),
{
    match k {
        24 => FloatParam { msb_off: 0x0801, data_offs: [0x0802, 0x0803, 0x0804, 0x0805], bit_indices: [0, 1, 2, 3] },
        25 => FloatParam { msb_off: 0x0840, data_offs: [0x0843, 0x0844, 0x0845, 0x0846], bit_indices: [2, 3, 4, 5] },
        26 => FloatParam { msb_off: 0x0884, data_offs: [0x0885, 0x0886, 0x0887, 0x0888], bit_indices: [0, 1, 2, 3] },
        27 => FloatParam { msb_off: 0x0884, data_offs: [0x0885, 0x0886, 0x0887, 0x0888], bit_indices: [0, 1, 2, 3] },
        28 => FloatParam { msb_off: 0x0744, data_offs: [0x0742, 0x0743, 0x0749, 0x074A], bit_indices: [3, 2, 4, 5] },
        29 => FloatParam { msb_off: 0x078A, data_offs: [0x0785, 0x0786, 0x078B, 0x078C], bit_indices: [6, 5, 0, 1] },
        30 => FloatParam { msb_off: 0x07C9, data_offs: [0x07C5, 0x07C6, 0x07CC, 0x07CD], bit_indices: [5, 4, 2, 3] },
        31 => FloatParam { msb_off: 0x0808, data_offs: [0x0806, 0x0807, 0x080D, 0x080E], bit_indices: [3, 2, 4, 5] },
        32 => FloatParam { msb_off: 0x084E, data_offs: [0x0849, 0x084A, 0x084F, 0x0850], bit_indices: [6, 5, 0, 1] },
        33 => FloatParam { msb_off: 0x088D, data_offs: [0x0889, 0x088A, 0x0890, 0x0891], bit_indices: [5, 4, 2, 3] },
        34 => FloatParam { msb_off: 0x08CC, data_offs: [0x08CA, 0x08CB, 0x08D1, 0x08D2], bit_indices: [3, 2, 4, 5] },
        _ => FloatParam { msb_off: 0x074B, data_offs: [0x0747, 0x0748, 0x074E, 0x074F], bit_indices: [5, 4, 2, 3] },
    }
}

fn slot_param_exec_3(k: usize) -> (p: FloatParam)
    requires
        36 <= k < 48,
    ensures
        p == slot_param_3(k as int),
        param_bits_ok(p),
{
    match k {
        36 => FloatParam { msb_off: 0x078A, data_offs: [0x0788, 0x0789, 0x078F, 0x0790], bit_indices: [3, 2, 4, 5] },
        37 => FloatParam { msb_off: 0x07D0, data_offs: [0x07CB, 0x07CC, 0x07D1, 0x07D2], bit_indices: [6, 5, 0, 1] },
        38 => FloatParam { msb_off: 0x080F, data_offs: [0x080B, 0x080C, 0x0812, 0x0813], bit_indices: [5, 4, 2, 3] },
        39 => FloatParam { msb_off: 0x084E, data_offs: [0x084C, 0x084D, 0x0853, 0x0854], bit_indices: [3, 2, 4, 5] },
        40 => FloatParam { msb_off: 0x0894, data_offs: [0x088F, 0x0890, 0x0895, 0x0896], bit_indices: [6, 5, 0, 1] },
        41 => FloatParam { msb_off: 0x08D3, data_offs: [0x08CF, 0x08D0, 0x08D6, 0x08D7], bit_indices: [5, 4, 2, 3] },
        42 => FloatParam { msb_off: 0x0752, data_offs: [0x074D, 0x074E, 0x0753, 0x0754], bit_indices: [6, 5, 0, 1] },
        43 => FloatParam { msb_off: 0x0791, data_offs: [0x078D, 0x078E, 0x0794, 0x0795], bit_indices: [5, 4, 2, 3] },
        44 => FloatParam { msb_off: 0x07D0, data_offs: [0x07CE, 0x07CF, 0x07D5, 0x07D6], bit_indices: [3, 2, 4, 5] },
        45 => FloatParam { msb_off: 0x0816, data_offs: [0x0811, 0x0812, 0x0817, 0x0818], bit_indices: [6, 5, 0, 1] },
        46 => FloatParam { msb_off: 0x0855, data_offs: [0x0851, 0x0852, 0x0858, 0x0859], bit_indices: [5, 4, 2, 3] },
        _ => FloatParam { msb_off: 0x0894, data_offs: [0x0892, 0x0893, 0x0899, 0x089A], bit_indices: [3, 2, 4, 5] },
    }
}

fn slot_param_exec_4(k: usize) -> (p: FloatParam)
    requires
        48 <= k < 60,
    ensures
        p == slot_param_4(k as int),
        param_bits_ok(p),
{
    match k {
        48 => FloatParam { msb_off: 0x08DA, data_offs: [0x08D5, 0x08D6, 0x08DB, 0x08DC], bit_indices: [6, 5, 0, 1] },
        49 => FloatParam { msb_off: 0x0752, data_offs: [0x0750, 0x0751, 0x0757, 0x0758], bit_indices: [3, 2, 4, 5] },
        50 => FloatParam { msb_off: 0x0798, data_offs: [0x0793, 0x0794, 0x0799, 0x079A], bit_indices: [6, 5, 0, 1] },
        51 => FloatParam { msb_off: 0x07D7, data_offs: [0x07D3, 0x07D4, 0x07DA, 0x07DB], bit_indices: [5, 4, 2, 3] },
        52 => FloatParam { msb_off: 0x0816, data_offs: [0x0814, 0x0815, 0x081B, 0x081C], bit_indices: [3, 2, 4, 5] },
        53 => FloatParam { msb_off: 0x085C, data_offs: [0x0857, 0x0858, 0x085D, 0x085E], bit_indices: [6, 5, 0, 1] },
        54 => FloatParam { msb_off: 0x089B, data_offs: [0x0897, 0x0898, 0x089E, 0x089F], bit_indices: [5, 4, 2, 3] },
        55 => FloatParam { msb_off: 0x08DA, data_offs: [0x08D8, 0x08D9, 0x08DF, 0x08E0], bit_indices: [3, 2, 4, 5] },
        56 => FloatParam { msb_off: 0x0052, data_offs: [0x0050, 0x0051, 0x0053, 0x0054], bit_indices: [3, 2, 0, 1] },
        57 => FloatParam { msb_off: 0x0098, data_offs: [0x009B, 0x009C, 0x009D, 0x009E], bit_indices: [2, 3, 4, 5] },
        58 => FloatParam { msb_off: 0x00E5, data_offs: [0x00E6, 0x00E7, 0x00E8, 0x00E9], bit_indices: [0, 1, 2, 3] },
        _ => FloatParam { msb_off: 0x0132, data_offs: [0x0130, 0x0131, 0x0133, 0x0134], bit_indices: [3, 2, 0, 1] },
    }
}

fn slot_param_exec_5(k: usize) -> (p: FloatParam)
    requires
        60 <= k < 72,
    ensures
        p == slot_param_5(k as int),
        param_bits_ok(p),
{
    match k {
        60 => FloatParam { msb_off: 0x0178, data_offs: [0x017B, 0x017C, 0x017D, 0x017E], bit_indices: [2, 3, 4, 5] },
        61 => FloatParam { msb_off: 0x01C5, data_offs: [0x01C6, 0x01C7, 0x01C8, 0x01C9], bit_indices: [0, 1, 2, 3] },
        62 => FloatParam { msb_off: 0x0212, data_offs: [0x0210, 0x0211, 0x0213, 0x0214], bit_indices: [3, 2, 0, 1] },
        63 => FloatParam { msb_off: 0x0052, data_offs: [0x0053, 0x0054, 0x0057, 0x0058], bit_indices: [0, 1, 4, 5] },
        64 => FloatParam { msb_off: 0x0098, data_offs: [0x0096, 0x0097, 0x009D, 0x009E], bit_indices: [3, 2, 4, 5] },
        65 => FloatParam { msb_off: 0x00EC, data_offs: [0x00E8, 0x00E9, 0x00ED, 0x00EE], bit_indices: [5, 4, 0, 1] },
        66 => FloatParam { msb_off: 0x0132, data_offs: [0x0133, 0x0134, 0x0137, 0x0138], bit_indices: [0, 1, 4, 5] },
        67 => FloatParam { msb_off: 0x0178, data_offs: [0x0176, 0x0177, 0x017D, 0x017E], bit_indices: [3, 2, 4, 5] },
        68 => FloatParam { msb_off: 0x01CC, data_offs: [0x01C8, 0x01C9, 0x01CD, 0x01CE], bit_indices: [5, 4, 0, 1] },
        69 => FloatParam { msb_off: 0x0212, data_offs: [0x0213, 0x0214, 0x0217, 0x0218], bit_indices: [0, 1, 4, 5] },
        70 => FloatParam { msb_off: 0x0059, data_offs: [0x005A, 0x005B, 0x005C, 0x005D], bit_indices: [0, 1, 2, 3] },
        _ => FloatParam { msb_off: 0x00A6, data_offs: [0x00A4, 0x00A5, 0x00A7, 0x00A8], bit_indices: [3, 2, 0, 1] },
    }
}

fn slot_param_exec_6(k: usize) -> (p: FloatParam)
    requires
        72 <= k < 84,
    ensures
        p == slot_param_6(k as int),
        param_bits_ok(p),
{
    match k {
        72 => FloatParam { msb_off: 0x00EC, data_offs: [0x00EF, 0x00F0, 0x00F1, 0x00F2], bit_indices: [2, 3, 4, 5] },
        73 => FloatParam { msb_off: 0x0139, data_offs: [0x013A, 0x013B, 0x013C, 0x013D], bit_indices: [0, 1, 2, 3] },
        74 => FloatParam { msb_off: 0x0186, data_offs: [0x0184, 0x0185, 0x0187, 0x0188], bit_indices: [3, 2, 0, 1] },
        75 => FloatParam { msb_off: 0x01CC, data_offs: [0x01CF, 0x01D0, 0x01D1, 0x01D2], bit_indices: [2, 3, 4, 5] },
        76 => FloatParam { msb_off: 0x0219, data_offs: [0x021A, 0x021B, 0x021C, 0x021D], bit_indices: [0, 1, 2, 3] },
        77 => FloatParam { msb_off: 0x0060, data_offs: [0x005E, 0x005F, 0x0061, 0x0062], bit_indices: [3, 2, 0, 1] },
        78 => FloatParam { msb_off: 0x00A6, data_offs: [0x00A9, 0x00AA, 0x00AB, 0x00AC], bit_indices: [2, 3, 4, 5] },
        79 => FloatParam { msb_off: 0x00F3, data_offs: [0x00F4, 0x00F5, 0x00F6, 0x00F7], bit_indices: [0, 1, 2, 3] },
        80 => FloatParam { msb_off: 0x0140, data_offs: [0x013E, 0x013F, 0x0141, 0x0142], bit_indices: [3, 2, 0, 1] },
        81 => FloatParam { msb_off: 0x0186, data_offs: [0x0189, 0x018A, 0x018B, 0x018C], bit_indices: [2, 3, 4, 5] },
        82 => FloatParam { msb_off: 0x01D3, data_offs: [0x01D4, 0x01D5, 0x01D6, 0x01D7], bit_indices: [0, 1, 2, 3] },
        _ => FloatParam { msb_off: 0x0220, data_offs: [0x021E, 0x021F, 0x0221, 0x0222], bit_indices: [3, 2, 0, 1] },
    }
}

fn slot_param_exec_7(k: usize) -> (p: FloatParam)
    requires
        84 <= k < 96,
    ensures
        p == slot_param_7(k as int),
        param_bits_ok(p),
{
    match k {
        84 => FloatParam { msb_off: 0x04C7, data_offs: [0x04C8, 0x04C9, 0x04CA, 0x04CB], bit_indices: [0, 1, 2, 3] },
        85 => FloatParam { msb_off: 0x0338, data_offs: [0x033B, 0x033C, 0x033D, 0x033E], bit_indices: [2, 3, 4, 5] },
        86 => FloatParam { msb_off: 0x0338, data_offs: [0x0336, 0x0337, 0x033D, 0x033E], bit_indices: [3, 2, 4, 5] },
        87 => FloatParam { msb_off: 0x03D2, data_offs: [0x03D0, 0x03D1, 0x03D3, 0x03D4], bit_indices: [3, 2, 0, 1] },
        88 => FloatParam { msb_off: 0x0418, data_offs: [0x041B, 0x041C, 0x041D, 0x041E], bit_indices: [2, 3, 4, 5] },
        89 => FloatParam { msb_off: 0x054C, data_offs: [0x0547, 0x0548, 0x0549, 0x054E], bit_indices: [6, 5, 4, 1] },
        90 => FloatParam { msb_off: 0x0530, data_offs: [0x052E, 0x052F, 0x0531, 0x0536], bit_indices: [3, 2, 0, 5] },
        91 => FloatParam { msb_off: 0x0536, data_offs: [0x0534, 0x0535, 0x0537, 0x053B], bit_indices: [3, 2, 0, 4] },
        92 => FloatParam { msb_off: 0x053E, data_offs: [0x0539, 0x053A, 0x053B, 0x0540], bit_indices: [6, 5, 4, 1] },
        93 => FloatParam { msb_off: 0x053E, data_offs: [0x053C, 0x053D, 0x053F, 0x0544], bit_indices: [3, 2, 0, 5] },
        94 => FloatParam { msb_off: 0x0B42, data_offs: [0x0B45, 0x0B46, 0x0B47, 0x0B48], bit_indices: [2, 3, 4, 5] },
        _ => FloatParam { msb_off: 0x08FD, data_offs: [0x08FE, 0x08FF, 0x0900, 0x0901], bit_indices: [0, 1, 2, 3] },
    }
}

fn slot_param_exec_8(k: usize) -> (p: FloatParam)
    requires
        96 <= k < 108,
    ensures
        p == slot_param_8(k as int),
        param_bits_ok(p),
{
    match k {
        96 => FloatParam { msb_off: 0x08FD, data_offs: [0x08F9, 0x08FA, 0x0900, 0x0901], bit_indices: [5, 4, 2, 3] },
        97 => FloatParam { msb_off: 0x0B49, data_offs: [0x0B45, 0x0B46, 0x0B4C, 0x0B4D], bit_indices: [5, 4, 2, 3] },
        98 => FloatParam { msb_off: 0x0904, data_offs: [0x08FF, 0x0900, 0x0905, 0x0906], bit_indices: [6, 5, 0, 1] },
        99 => FloatParam { msb_off: 0x0904, data_offs: [0x08FF, 0x0900, 0x0901, 0x0906], bit_indices: [6, 5, 4, 1] },
        100 => FloatParam { msb_off: 0x09EB, data_offs: [0x09E7, 0x09E8, 0x09EE, 0x09EF], bit_indices: [5, 4, 2, 3] },
        101 => FloatParam { msb_off: 0x0A62, data_offs: [0x0A5D, 0x0A5E, 0x0A63, 0x0A64], bit_indices: [6, 5, 0, 1] },
        102 => FloatParam { msb_off: 0x0B50, data_offs: [0x0B4B, 0x0B4C, 0x0B51, 0x0B52], bit_indices: [6, 5, 0, 1] },
        103 => FloatParam { msb_off: 0x0904, data_offs: [0x0902, 0x0903, 0x0909, 0x090A], bit_indices: [3, 2, 4, 5] },
        104 => FloatParam { msb_off: 0x0904, data_offs: [0x0902, 0x0903, 0x0905, 0x090A], bit_indices: [3, 2, 0, 5] },
        105 => FloatParam { msb_off: 0x09F2, data_offs: [0x09ED, 0x09EE, 0x09F3, 0x09F4], bit_indices: [6, 5, 0, 1] },
        106 => FloatParam { msb_off: 0x0A62, data_offs: [0x0A60, 0x0A61, 0x0A67, 0x0A68], bit_indices: [3, 2, 4, 5] },
        _ => FloatParam { msb_off: 0x0B50, data_offs: [0x0B4E, 0x0B4F, 0x0B55, 0x0B56], bit_indices: [3, 2, 4, 5] },
    }
}

fn slot_param_exec_9(k: usize) -> (p: FloatParam)
    requires
        108 <= k < 120,
    ensures
        p == slot_param_9(k as int),
        param_bits_ok(p),
{
    match k {
        108 => FloatParam { msb_off: 0x090B, data_offs: [0x0907, 0x0908, 0x090E, 0x090F], bit_indices: [5, 4, 2, 3] },
        109 => FloatParam { msb_off: 0x0909, data_offs: [0x0907, 0x0908, 0x090B, 0x090F], bit_indices: [3, 2, 1, 5] },
        110 => FloatParam { msb_off: 0x09F2, data_offs: [0x09F0, 0x09F1, 0x09F7, 0x09F8], bit_indices: [3, 2, 4, 5] },
        111 => FloatParam { msb_off: 0x0A69, data_offs: [0x0A65, 0x0A66, 0x0A6C, 0x0A6D], bit_indices: [5, 4, 2, 3] },
        112 => FloatParam { msb_off: 0x0B57, data_offs: [0x0B53, 0x0B54, 0x0B5A, 0x0B5B], bit_indices: [5, 4, 2, 3] },
        113 => FloatParam { msb_off: 0x0912, data_offs: [0x090D, 0x090E, 0x0913, 0x0914], bit_indices: [6, 5, 0, 1] },
        114 => FloatParam { msb_off: 0x090E, data_offs: [0x090D, 0x090F, 0x0912, 0x0914], bit_indices: [2, 0, 3, 5] },
        115 => FloatParam { msb_off: 0x09F9, data_offs: [0x09F5, 0x09F6, 0x09FC, 0x09FD], bit_indices: [5, 4, 2, 3] },
        116 => FloatParam { msb_off: 0x0A70, data_offs: [0x0A6B, 0x0A6C, 0x0A71, 0x0A72], bit_indices: [6, 5, 0, 1] },
        117 => FloatParam { msb_off: 0x0B5E, data_offs: [0x0B59, 0x0B5A, 0x0B5F, 0x0B60], bit_indices: [6, 5, 0, 1] },
        118 => FloatParam { msb_off: 0x0912, data_offs: [0x0910, 0x0911, 0x0917, 0x0918], bit_indices: [3, 2, 4, 5] },
        _ => FloatParam { msb_off: 0x090E, data_offs: [0x090D, 0x090F, 0x0912, 0x0914], bit_indices: [2, 0, 3, 5] },
    }
}

fn slot_param_exec_10(k: usize) -> (p: FloatParam)
    requires
        120 <= k < 132,
    ensures
        p == slot_param_10(k as int),
        param_bits_ok(p),
{
    match k {
        120 => FloatParam { msb_off: 0x0A00, data_offs: [0x09FB, 0x09FC, 0x0A01, 0x0A02], bit_indices: [6, 5, 0, 1] },
        121 => FloatParam { msb_off: 0x0A70, data_offs: [0x0A6E, 0x0A6F, 0x0A75, 0x0A76], bit_indices: [3, 2, 4, 5] },
        122 => FloatParam { msb_off: 0x0B5E, data_offs: [0x0B5C, 0x0B5D, 0x0B63, 0x0B64], bit_indices: [3, 2, 4, 5] },
        123 => FloatParam { msb_off: 0x0919, data_offs: [0x0915, 0x0916, 0x091C, 0x091D], bit_indices: [5, 4, 2, 3] },
        124 => FloatParam { msb_off: 0x0917, data_offs: [0x0915, 0x0916, 0x0919, 0x091D], bit_indices: [3, 2, 1, 5] },
        125 => FloatParam { msb_off: 0x0A00, data_offs: [0x09FE, 0x09FF, 0x0A05, 0x0A06], bit_indices: [3, 2, 4, 5] },
        126 => FloatParam { msb_off: 0x0A77, data_offs: [0x0A73, 0x0A74, 0x0A7A, 0x0A7B], bit_indices: [5, 4, 2, 3] },
        127 => FloatParam { msb_off: 0x0B65, data_offs: [0x0B61, 0x0B62, 0x0B68, 0x0B69], bit_indices: [5, 4, 2, 3] },
        128 => FloatParam { msb_off: 0x0920, data_offs: [0x091B, 0x091C, 0x0921, 0x0922], bit_indices: [6, 5, 0, 1] },
        129 => FloatParam { msb_off: 0x091C, data_offs: [0x091B, 0x091D, 0x0920, 0x0922], bit_indices: [2, 0, 3, 5] },
        130 => FloatParam { msb_off: 0x0A07, data_offs: [0x0A03, 0x0A04, 0x0A0A, 0x0A0B], bit_indices: [5, 4, 2, 3] },
        _ => FloatParam { msb_off: 0x0A7E, data_offs: [0x0A79, 0x0A7A, 0x0A7F, 0x0A80], bit_indices: [6, 5, 0, 1] },
    }
}

fn slot_param_exec_11(k: usize) -> (p: FloatParam)
    requires
        132 <= k < 142,
    ensures
        p == slot_param_11(k as int),
        param_bits_ok(p),
{
    match k {
        132 => FloatParam { msb_off: 0x0B6C, data_offs: [0x0B67, 0x0B68, 0x0B6D, 0x0B6E], bit_indices: [6, 5, 0, 1] },
        133 => FloatParam { msb_off: 0x0920, data_offs: [0x091E, 0x091F, 0x0925, 0x0926], bit_indices: [3, 2, 4, 5] },
        134 => FloatParam { msb_off: 0x091C, data_offs: [0x091B, 0x091D, 0x0920, 0x0922], bit_indices: [2, 0, 3, 5] },
        135 => FloatParam { msb_off: 0x0A0E, data_offs: [0x0A09, 0x0A0A, 0x0A0F, 0x0A10], bit_indices: [6, 5, 0, 1] },
        136 => FloatParam { msb_off: 0x0A7E, data_offs: [0x0A7C, 0x0A7D, 0x0A83, 0x0A84], bit_indices: [3, 2, 4, 5] },
        137 => FloatParam { msb_off: 0x0B6C, data_offs: [0x0B6A, 0x0B6B, 0x0B71, 0x0B72], bit_indices: [3, 2, 4, 5] },
        138 => FloatParam { msb_off: 0x0927, data_offs: [0x0923, 0x0924, 0x092A, 0x092B], bit_indices: [5, 4, 2, 3] },
        139 => FloatParam { msb_off: 0x0925, data_offs: [0x0923, 0x0924, 0x0927, 0x092B], bit_indices: [3, 2, 1, 5] },
        140 => FloatParam { msb_off: 0x0A0E, data_offs: [0x0A0C, 0x0A0D, 0x0A13, 0x0A14], bit_indices: [3, 2, 4, 5] },
        _ => FloatParam { msb_off: 0x0A85, data_offs: [0x0A81, 0x0A82, 0x0A88, 0x0A89], bit_indices: [5, 4, 2, 3] },
    }
}

fn slot_param_exec(k: usize) -> (p: FloatParam)
    requires
        k < FLOAT_SLOT_COUNT,
    ensures
        p == slot_param(k as int),
        param_bits_ok(p),
{
    if k < 12 {
        slot_param_exec_0(k)
    } else if k < 24 {
        slot_param_exec_1(k)
    } else if k < 36 {
        slot_param_exec_2(k)
    } else if k < 48 {
        slot_param_exec_3(k)
    } else if k < 60 {
        slot_param_exec_4(k)
    } else if k < 72 {
        slot_param_exec_5(k)
    } else if k < 84 {
        slot_param_exec_6(k)
    } else if k < 96 {
        slot_param_exec_7(k)
    } else if k < 108 {
        slot_param_exec_8(k)
    } else if k < 120 {
        slot_param_exec_9(k)
    } else if k < 132 {
        slot_param_exec_10(k)
    } else {
        slot_param_exec_11(k)
    }
}

fn channel_target_exec(g: usize) -> (t: FloatTarget)
    ensures
        t == channel_target(g as int),
{
    match g {
        0 => FloatTarget::ChannelLevel,
        1 => FloatTarget::ChannelGain,
        2 => FloatTarget::ChannelPan,
        3 => FloatTarget::ChannelCompressor,
        4 => FloatTarget::ChannelEqLow,
        5 => FloatTarget::ChannelEqLowMid,
        6 => FloatTarget::ChannelEqHiMid,
        7 => FloatTarget::ChannelEqHi,
        8 => FloatTarget::ChannelSendMon1,
        9 => FloatTarget::ChannelSendMon2,
        10 => FloatTarget::ChannelSendFx1,
        _ => FloatTarget::ChannelSendFx2,
    }
}

/// The slot with number `k`.
pub fn float_slot_of(k: usize) -> (s: FloatSlot)
    ensures
        s == float_slot(k as int),
{
    if k < 84 {
        FloatSlot { target: channel_target_exec(k / 7), index: k % 7 }
    } else if k < 89 {
        FloatSlot { target: FloatTarget::BusLevel, index: k - 84 }
    } else if k < 94 {
        FloatSlot { target: FloatTarget::BusBalance, index: k - 89 }
    } else if k < 97 {
        FloatSlot { target: FloatTarget::BusLimiter, index: k - 94 }
    } else {
        FloatSlot { target: FloatTarget::BusBand(((k - 97) / 5) as u8), index: (k - 97) % 5 }
    }
}

/// How the value of a target is scaled.
pub fn scale_of(t: FloatTarget) -> (c: CcScale)
    ensures
        c == target_scale(t),
{
    match t {
        FloatTarget::ChannelLevel => CcScale::Decibels,
        FloatTarget::ChannelGain => CcScale::Gain,
        FloatTarget::ChannelPan => CcScale::Pan,
        FloatTarget::ChannelCompressor => CcScale::Compressor,
        FloatTarget::ChannelEqLow => CcScale::Eq,
        FloatTarget::ChannelEqLowMid => CcScale::Eq,
        FloatTarget::ChannelEqHiMid => CcScale::Eq,
        FloatTarget::ChannelEqHi => CcScale::Eq,
        FloatTarget::ChannelSendMon1 => CcScale::Decibels,
        FloatTarget::ChannelSendMon2 => CcScale::Decibels,
        FloatTarget::ChannelSendFx1 => CcScale::Decibels,
        FloatTarget::ChannelSendFx2 => CcScale::Decibels,
        FloatTarget::BusLevel => CcScale::Decibels,
        FloatTarget::BusBalance => CcScale::Balance,
        FloatTarget::BusLimiter => CcScale::Limiter,
        FloatTarget::BusBand(_) => CcScale::Eq,
    }
}

fn is_slot_enabled(c: &FLOW8Controller, k: usize) -> (r: bool)
    requires
        c.wf(),
        k < FLOAT_SLOT_COUNT,
    ensures
        r == slot_enabled(*c, k as int),
{
    let s = float_slot_of(k);
    match s.target {
        FloatTarget::ChannelGain | FloatTarget::ChannelCompressor => c.channels[s.index].has_gain(),
        FloatTarget::BusBalance => c.buses[s.index].has_balance(),
        FloatTarget::BusLimiter | FloatTarget::BusBand(_) => c.buses[s.index].has_limiter(),
        _ => true,
    }
}

/// The float parameters of a dump that the controller has and that hold finite values,
/// as IEEE 754 bit patterns, in slot order; turning them into MIDI values is left to the
/// caller, which hands them back to `apply_dump_to_controller`.
pub fn float_readings(dump: &SysExDump, controller: &FLOW8Controller) -> (r: Vec<FloatReading>)
    requires
        controller.wf(),
    ensures
        r@ == dump_readings(dump.raw@, *controller),
{
    let ghost all = Seq::new(FLOAT_SLOT_COUNT as nat, |k: int| k);
    let ghost f = |k: int| slot_reading(dump.raw@, *controller, k);
    let mut r: Vec<FloatReading> = Vec::new();
    let mut k: usize = 0;
    while k < FLOAT_SLOT_COUNT
        invariant
            controller.wf(),
            k <= FLOAT_SLOT_COUNT,
            all == Seq::new(FLOAT_SLOT_COUNT as nat, |k: int| k),
            f == (|k: int| slot_reading(dump.raw@, *controller, k)),
            r@ == all.take(k as int).filter_map(f),
        decreases FLOAT_SLOT_COUNT - k,
    {
        proof {
            all.lemma_filter_map_take_succ(f, k as int);
        }
        if is_slot_enabled(controller, k) {
            let p = slot_param_exec(k);
            if let Some(bits) = decode_float_bits(dump.raw.as_slice(), &p) {
                let s = float_slot_of(k);
                r.push(FloatReading { slot: k, scale: scale_of(s.target), bits });
            }
        }
        k = k + 1;
    }
    assert(all.take(FLOAT_SLOT_COUNT as int) =~= all);
    r
}

// ── Applying a dump ─────────────────────────────────────────────────────

/// Where the low cut of channel `i` sits (the USB/BT return has none).
pub open spec fn low_cut_param(i: int) -> LowCutParam {
    if i == 0 {
        LowCutParam { lo_off: 0x0742, hi_off: 0x0743 }
    } else if i == 1 {
        LowCutParam { lo_off: 0x0784, hi_off: 0x0785 }
    } else if i == 2 {
        LowCutParam { lo_off: 0x07C5, hi_off: 0x07C6 }
    } else if i == 3 {
        LowCutParam { lo_off: 0x0806, hi_off: 0x0807 }
    } else if i == 4 {
        LowCutParam { lo_off: 0x0848, hi_off: 0x0849 }
    } else if i == 5 {
        LowCutParam { lo_off: 0x0889, hi_off: 0x088A }
    } else {
        LowCutParam { lo_off: 0, hi_off: 0 }
    }
}

fn low_cut_param_exec(i: usize) -> (p: LowCutParam)
    ensures
        p == low_cut_param(i as int),
{
    match i {
        0 => LowCutParam { lo_off: 0x0742, hi_off: 0x0743 },
        1 => LowCutParam { lo_off: 0x0784, hi_off: 0x0785 },
        2 => LowCutParam { lo_off: 0x07C5, hi_off: 0x07C6 },
        3 => LowCutParam { lo_off: 0x0806, hi_off: 0x0807 },
        4 => LowCutParam { lo_off: 0x0848, hi_off: 0x0849 },
        5 => LowCutParam { lo_off: 0x0889, hi_off: 0x088A },
        _ => LowCutParam { lo_off: 0, hi_off: 0 },
    }
}

/// Where the mute switch of channel `i` sits.
pub open spec fn mute_param(i: int) -> BoolParam {
    BoolParam {
        offset: if i <= 1 { (0x04CC + i) as usize } else { (0x04CD + i) as usize },
        inverted: false,
    }
}

/// Where the solo switch of channel `i` sits.
pub open spec fn solo_param(i: int) -> BoolParam {
    BoolParam {
        offset: if i <= 3 { (0x04DF + i) as usize } else { (0x04E0 + i) as usize },
        inverted: false,
    }
}

/// Where the phantom power switch of channel `i` (0 or 1) sits.
pub open spec fn phantom_param(i: int) -> BoolParam {
    BoolParam { offset: if i == 0 { 0x0737 } else { 0x0778 }, inverted: false }
}

fn mute_param_exec(i: usize) -> (p: BoolParam)
    requires
        i < 7,
    ensures
        p == mute_param(i as int),
{
    BoolParam { offset: if i <= 1 { 0x04CC + i } else { 0x04CD + i }, inverted: false }
}

fn solo_param_exec(i: usize) -> (p: BoolParam)
    requires
        i < 7,
    ensures
        p == solo_param(i as int),
{
    BoolParam { offset: if i <= 3 { 0x04DF + i } else { 0x04E0 + i }, inverted: false }
}

fn phantom_param_exec(i: usize) -> (p: BoolParam)
    ensures
        p == phantom_param(i as int),
{
    BoolParam { offset: if i == 0 { 0x0737 } else { 0x0778 }, inverted: false }
}

/// The state of a switch in the dump, if its byte lies inside it: a zero byte is off
/// (on, for an inverted switch).
pub open spec fn switch_state(d: Seq<u8>, p: BoolParam) -> Option<bool> {
    if p.offset >= d.len() {
        None
    } else if p.inverted {
        Some(d[p.offset as int] == 0)
    } else {
        Some(d[p.offset as int] != 0)
    }
}

fn read_switch(d: &[u8], p: BoolParam) -> (r: Option<bool>)
    ensures
        r == switch_state(d@, p),
{
    if p.offset >= d.len() {
        None
    } else if p.inverted {
        Some(d[p.offset] == 0)
    } else {
        Some(d[p.offset] != 0)
    }
}

/// Where the parameters of effect processor `j` sit.
pub open spec fn fx_layout(j: int) -> FxSysExLayout {
    if j == 0 {
        FxSysExLayout { param1_off: 0x0BC5, param2_off: 0x0BC6, preset_off: 0x0BC9 }
    } else {
        FxSysExLayout { param1_off: 0x0BCD, param2_off: 0x0BCF, preset_off: 0x0BD1 }
    }
}

fn fx_layout_exec(j: usize) -> (l: FxSysExLayout)
    ensures
        l == fx_layout(j as int),
{
    if j == 0 {
        FxSysExLayout { param1_off: 0x0BC5, param2_off: 0x0BC6, preset_off: 0x0BC9 }
    } else {
        FxSysExLayout { param1_off: 0x0BCD, param2_off: 0x0BCF, preset_off: 0x0BD1 }
    }
}

/// An effect parameter byte (0..100 %) as a MIDI value: scaled by 127/100, rounded down,
/// at most 127.
pub open spec fn fx_percent_cc(b: u8) -> u8 {
    if b * 127 / 100 > 127 {
        127
    } else {
        (b * 127 / 100) as u8
    }
}

/// The MIDI value the caller computed for slot `k`, if any.
pub open spec fn cc_at(ccs: Seq<Option<u8>>, k: int) -> Option<u8> {
    if 0 <= k < ccs.len() {
        ccs[k]
    } else {
        None
    }
}

/// The value that slot `k` sets: when the controller has the parameter and a value was given.
pub open spec fn slot_value(c: FLOW8Controller, ccs: Seq<Option<u8>>, k: int) -> Option<u8> {
    if slot_enabled(c, k) {
        cc_at(ccs, k)
    } else {
        None
    }
}

pub open spec fn pick(old: u8, v: Option<u8>) -> u8 {
    match v {
        Some(x) => x,
        None => old,
    }
}

pub open spec fn marked(old: bool, v: Option<u8>) -> bool {
    old || v is Some
}

pub open spec fn pick_bool(old: bool, v: Option<bool>) -> bool {
    match v {
        Some(x) => x,
        None => old,
    }
}

/// The low cut that a dump gives channel `i`, as a MIDI value.
pub open spec fn low_cut_value(c: FLOW8Controller, d: Seq<u8>, i: int) -> Option<u8> {
    if c.channels@[i].audio_connection == AudioConnection::UsbBt {
        None
    } else {
        match lowcut_hz(d, low_cut_param(i).lo_off as int, low_cut_param(i).hi_off as int) {
            Some(hz) => Some(lowcut_cc(hz)),
            None => None,
        }
    }
}

/// Channel `i` after a dump, but for its name: every value the dump gives is set and
/// marked synced, everything else is kept.
pub open spec fn channel_after_dump(c: FLOW8Controller, d: Seq<u8>, ccs: Seq<Option<u8>>, i: int) -> Channel {
    let ch = c.channels@[i];
    let cs = ch.channel_strip;
    let eq = ch.four_band_eq;
    let se = ch.sends;
    let lc = low_cut_value(c, d, i);
    let mute = switch_state(d, mute_param(i));
    let solo = switch_state(d, solo_param(i));
    let phantom = if i < 2 { switch_state(d, phantom_param(i)) } else { None };
    Channel {
        channel_strip: BasicChannelStrip {
            level: pick(cs.level, slot_value(c, ccs, i)),
            level_synced: marked(cs.level_synced, slot_value(c, ccs, i)),
            gain: pick(cs.gain, slot_value(c, ccs, 7 + i)),
            gain_synced: marked(cs.gain_synced, slot_value(c, ccs, 7 + i)),
            balance: pick(cs.balance, slot_value(c, ccs, 14 + i)),
            balance_synced: marked(cs.balance_synced, slot_value(c, ccs, 14 + i)),
            compressor: pick(cs.compressor, slot_value(c, ccs, 21 + i)),
            compressor_synced: marked(cs.compressor_synced, slot_value(c, ccs, 21 + i)),
            low_cut: pick(cs.low_cut, lc),
            low_cut_synced: marked(cs.low_cut_synced, lc),
        },
        four_band_eq: FourBandEQ {
            low: pick(eq.low, slot_value(c, ccs, 28 + i)),
            low_synced: marked(eq.low_synced, slot_value(c, ccs, 28 + i)),
            low_mid: pick(eq.low_mid, slot_value(c, ccs, 35 + i)),
            low_mid_synced: marked(eq.low_mid_synced, slot_value(c, ccs, 35 + i)),
            hi_mid: pick(eq.hi_mid, slot_value(c, ccs, 42 + i)),
            hi_mid_synced: marked(eq.hi_mid_synced, slot_value(c, ccs, 42 + i)),
            hi: pick(eq.hi, slot_value(c, ccs, 49 + i)),
            hi_synced: marked(eq.hi_synced, slot_value(c, ccs, 49 + i)),
        },
        sends: ChannelSends {
            mon1: pick(se.mon1, slot_value(c, ccs, 56 + i)),
            mon1_synced: marked(se.mon1_synced, slot_value(c, ccs, 56 + i)),
            mon2: pick(se.mon2, slot_value(c, ccs, 63 + i)),
            mon2_synced: marked(se.mon2_synced, slot_value(c, ccs, 63 + i)),
            fx1: pick(se.fx1, slot_value(c, ccs, 70 + i)),
            fx1_synced: marked(se.fx1_synced, slot_value(c, ccs, 70 + i)),
            fx2: pick(se.fx2, slot_value(c, ccs, 77 + i)),
            fx2_synced: marked(se.fx2_synced, slot_value(c, ccs, 77 + i)),
        },
        is_muted: pick_bool(ch.is_muted, mute),
        mute_synced: ch.mute_synced || mute is Some,
        is_soloed: pick_bool(ch.is_soloed, solo),
        solo_synced: ch.solo_synced || solo is Some,
        phantom_pwr: PhantomPower { is_on: pick_bool(ch.phantom_pwr.is_on, phantom), ..ch.phantom_pwr },
        phantom_synced: ch.phantom_synced || phantom is Some,
        ..ch
    }
}

/// Where the name of channel `i` starts.
pub open spec fn name_offset(i: int) -> int {
    NAMES_START + i * NAMES_STRIDE
}

/// Channel `i` after a dump: `channel_after_dump`, and the name from the dump when its
/// field lies inside the dump.
pub open spec fn channel_dumped(c: FLOW8Controller, new_ch: Channel, d: Seq<u8>, ccs: Seq<Option<u8>>, i: int) -> bool {
    let old_ch = c.channels@[i];
    &&& new_ch == (Channel { name: new_ch.name, name_synced: new_ch.name_synced, ..channel_after_dump(c, d, ccs, i) })
    &&& if name_offset(i) + NAME_SCAN_LEN <= d.len() {
        new_ch.name@ == utf8_lossy_text(name_bytes(d, name_offset(i))) && new_ch.name_synced
    } else {
        new_ch.name == old_ch.name && new_ch.name_synced == old_ch.name_synced
    }
}

/// Bus `i` after a dump: level, balance, limiter and the nine bands from the values given.
pub open spec fn bus_dumped(c: FLOW8Controller, new_b: Bus, ccs: Seq<Option<u8>>, i: int) -> bool {
    let b = c.buses@[i];
    let bs = b.bus_strip;
    let eq = b.nine_band_eq;
    let lim = if i < 3 { slot_value(c, ccs, 94 + i) } else { None };
    let neq = new_b.nine_band_eq;
    &&& new_b == (Bus {
        bus_strip: BusStrip {
            level: pick(bs.level, slot_value(c, ccs, 84 + i)),
            level_synced: marked(bs.level_synced, slot_value(c, ccs, 84 + i)),
            balance: pick(bs.balance, slot_value(c, ccs, 89 + i)),
            balance_synced: marked(bs.balance_synced, slot_value(c, ccs, 89 + i)),
            limiter: pick(bs.limiter, lim),
            limiter_synced: marked(bs.limiter_synced, lim),
        },
        nine_band_eq: neq,
        ..b
    })
    &&& neq.freq_62_hz == pick(eq.freq_62_hz, slot_value(c, ccs, 97 + i))
    &&& neq.freq_125_hz == pick(eq.freq_125_hz, slot_value(c, ccs, 102 + i))
    &&& neq.freq_250_hz == pick(eq.freq_250_hz, slot_value(c, ccs, 107 + i))
    &&& neq.freq_500_hz == pick(eq.freq_500_hz, slot_value(c, ccs, 112 + i))
    &&& neq.freq_1_khz == pick(eq.freq_1_khz, slot_value(c, ccs, 117 + i))
    &&& neq.freq_2_khz == pick(eq.freq_2_khz, slot_value(c, ccs, 122 + i))
    &&& neq.freq_4_khz == pick(eq.freq_4_khz, slot_value(c, ccs, 127 + i))
    &&& neq.freq_8_khz == pick(eq.freq_8_khz, slot_value(c, ccs, 132 + i))
    &&& neq.freq_16_khz == pick(eq.freq_16_khz, slot_value(c, ccs, 137 + i))
    &&& forall|band: int| 0 <= band < 9 ==> #[trigger] neq.bands_synced@[band] == marked(eq.bands_synced@[band], slot_value(c, ccs, 97 + band * 5 + i))
}

/// Effect processor `j` after a dump: when its bytes lie inside the dump, a preset byte of
/// 1..=16 selects that preset, and both parameters are set from their bytes.
pub open spec fn fx_after_dump(f: FxSlot, d: Seq<u8>, j: int) -> FxSlot {
    let l = fx_layout(j);
    if l.preset_off >= d.len() {
        f
    } else {
        let raw = d[l.preset_off as int];
        let f1 = if 1 <= raw <= 16 {
            FxSlot { preset: (raw - 1) as u8, preset_synced: true, ..f }
        } else {
            f
        };
        FxSlot {
            param1: fx_percent_cc(d[l.param1_off as int]),
            param1_synced: true,
            param2: fx_percent_cc(d[l.param2_off as int]),
            param2_synced: true,
            ..f1
        }
    }
}

/// The controller after a dump `d` and the MIDI values `ccs` computed for its readings.
pub open spec fn dump_applied(old: FLOW8Controller, new: FLOW8Controller, d: Seq<u8>, ccs: Seq<Option<u8>>) -> bool {
    &&& new.wf()
    &&& new == (FLOW8Controller {
        channels: new.channels,
        buses: new.buses,
        fx_slots: new.fx_slots,
        last_sysex_dump: new.last_sysex_dump,
        ..old
    })
    &&& new.last_sysex_dump matches Some(v) && v@ == d
    &&& forall|i: int| 0 <= i < 7 ==> channel_dumped(old, #[trigger] new.channels@[i], d, ccs, i)
    &&& forall|i: int| 0 <= i < 5 ==> bus_dumped(old, #[trigger] new.buses@[i], ccs, i)
    &&& forall|j: int| 0 <= j < 2 ==> #[trigger] new.fx_slots@[j] == fx_after_dump(old.fx_slots@[j], d, j)
}

fn value_for(c: &FLOW8Controller, ccs: &Vec<Option<u8>>, k: usize) -> (r: Option<u8>)
    requires
        c.wf(),
        k < FLOAT_SLOT_COUNT,
    ensures
        r == slot_value(*c, ccs@, k as int),
{
    if is_slot_enabled(c, k) && k < ccs.len() {
        ccs[k]
    } else {
        None
    }
}

fn pick_exec(old: u8, v: Option<u8>) -> (r: u8)
    ensures
        r == pick(old, v),
{
    match v {
        Some(x) => x,
        None => old,
    }
}

/// The values a dump gives channel `i`, worked out before the channel is changed.
struct ChannelPlan {
    strip: BasicChannelStrip,
    eq: FourBandEQ,
    sends: ChannelSends,
    mute: Option<bool>,
    solo: Option<bool>,
    phantom: Option<bool>,
    name: Option<String>,
}

spec fn plan_matches(p: ChannelPlan, c: FLOW8Controller, d: Seq<u8>, ccs: Seq<Option<u8>>, i: int) -> bool {
    let t = channel_after_dump(c, d, ccs, i);
    &&& p.strip == t.channel_strip
    &&& p.eq == t.four_band_eq
    &&& p.sends == t.sends
    &&& p.mute == switch_state(d, mute_param(i))
    &&& p.solo == switch_state(d, solo_param(i))
    &&& p.phantom == (if i < 2 { switch_state(d, phantom_param(i)) } else { None })
    &&& if name_offset(i) + NAME_SCAN_LEN <= d.len() {
        p.name matches Some(n) && n@ == utf8_lossy_text(name_bytes(d, name_offset(i)))
    } else {
        p.name is None
    }
}

fn plan_channel(c: &FLOW8Controller, d: &[u8], ccs: &Vec<Option<u8>>, i: usize) -> (p: ChannelPlan)
    requires
        c.wf(),
        i < 7,
        d.len() < usize::MAX - 2,
    ensures
        plan_matches(p, *c, d@, ccs@, i as int),
{
    let ch = &c.channels[i];
    let cs = ch.channel_strip;
    let lc = if ch.has_low_cut() {
        match decode_lowcut(d, &low_cut_param_exec(i)) {
            Some(hz) => Some(lowcut_hz_to_cc(hz)),
            None => None,
        }
    } else {
        None
    };
    let v_level = value_for(c, ccs, i);
    let v_gain = value_for(c, ccs, 7 + i);
    let v_pan = value_for(c, ccs, 14 + i);
    let v_comp = value_for(c, ccs, 21 + i);
    let strip = BasicChannelStrip {
        level: pick_exec(cs.level, v_level),
        level_synced: cs.level_synced || v_level.is_some(),
        gain: pick_exec(cs.gain, v_gain),
        gain_synced: cs.gain_synced || v_gain.is_some(),
        balance: pick_exec(cs.balance, v_pan),
        balance_synced: cs.balance_synced || v_pan.is_some(),
        compressor: pick_exec(cs.compressor, v_comp),
        compressor_synced: cs.compressor_synced || v_comp.is_some(),
        low_cut: pick_exec(cs.low_cut, lc),
        low_cut_synced: cs.low_cut_synced || lc.is_some(),
    };
    let e = ch.four_band_eq;
    let v_low = value_for(c, ccs, 28 + i);
    let v_low_mid = value_for(c, ccs, 35 + i);
    let v_hi_mid = value_for(c, ccs, 42 + i);
    let v_hi = value_for(c, ccs, 49 + i);
    let eq = FourBandEQ {
        low: pick_exec(e.low, v_low),
        low_synced: e.low_synced || v_low.is_some(),
        low_mid: pick_exec(e.low_mid, v_low_mid),
        low_mid_synced: e.low_mid_synced || v_low_mid.is_some(),
        hi_mid: pick_exec(e.hi_mid, v_hi_mid),
        hi_mid_synced: e.hi_mid_synced || v_hi_mid.is_some(),
        hi: pick_exec(e.hi, v_hi),
        hi_synced: e.hi_synced || v_hi.is_some(),
    };
    let se = ch.sends;
    let v_mon1 = value_for(c, ccs, 56 + i);
    let v_mon2 = value_for(c, ccs, 63 + i);
    let v_fx1 = value_for(c, ccs, 70 + i);
    let v_fx2 = value_for(c, ccs, 77 + i);
    let sends = ChannelSends {
        mon1: pick_exec(se.mon1, v_mon1),
        mon1_synced: se.mon1_synced || v_mon1.is_some(),
        mon2: pick_exec(se.mon2, v_mon2),
        mon2_synced: se.mon2_synced || v_mon2.is_some(),
        fx1: pick_exec(se.fx1, v_fx1),
        fx1_synced: se.fx1_synced || v_fx1.is_some(),
        fx2: pick_exec(se.fx2, v_fx2),
        fx2_synced: se.fx2_synced || v_fx2.is_some(),
    };
    let mute = read_switch(d, mute_param_exec(i));
    let solo = read_switch(d, solo_param_exec(i));
    let phantom = if i < 2 {
        read_switch(d, phantom_param_exec(i))
    } else {
        None
    };
    let name_off = NAMES_START + i * NAMES_STRIDE;
    let name = if name_off + NAME_SCAN_LEN <= d.len() {
        Some(decode_sysex_name(d, name_off))
    } else {
        None
    };
    ChannelPlan { strip, eq, sends, mute, solo, phantom, name }
}

fn apply_channel_plan(ch: &mut Channel, p: ChannelPlan)
    ensures
        *final(ch) == (Channel {
            name: final(ch).name,
            name_synced: final(ch).name_synced,
            channel_strip: p.strip,
            four_band_eq: p.eq,
            sends: p.sends,
            is_muted: pick_bool(old(ch).is_muted, p.mute),
            mute_synced: old(ch).mute_synced || p.mute is Some,
            is_soloed: pick_bool(old(ch).is_soloed, p.solo),
            solo_synced: old(ch).solo_synced || p.solo is Some,
            phantom_pwr: PhantomPower { is_on: pick_bool(old(ch).phantom_pwr.is_on, p.phantom), ..old(ch).phantom_pwr },
            phantom_synced: old(ch).phantom_synced || p.phantom is Some,
            ..*old(ch)
        }),
        p.name matches Some(n) ==> final(ch).name == n && final(ch).name_synced,
        p.name is None ==> final(ch).name == old(ch).name && final(ch).name_synced == old(ch).name_synced,
{
    ch.channel_strip = p.strip;
    ch.four_band_eq = p.eq;
    ch.sends = p.sends;
    if let Some(m) = p.mute {
        ch.is_muted = m;
        ch.mute_synced = true;
    }
    if let Some(s) = p.solo {
        ch.is_soloed = s;
        ch.solo_synced = true;
    }
    if let Some(on) = p.phantom {
        ch.phantom_pwr.is_on = on;
        ch.phantom_synced = true;
    }
    if let Some(n) = p.name {
        ch.name = n;
        ch.name_synced = true;
    }
}

/// Sets one band of an equaliser to `v`, if there is a value, and marks it synced.
fn set_band_value(eq: &mut NineBandEQ, band: usize, v: Option<u8>)
    requires
        band < 9,
    ensures
        v matches Some(x) ==> crate::interface::band_set(*old(eq), *final(eq), band as int, x, true),
        v is None ==> *final(eq) == *old(eq),
{
    if let Some(x) = v {
        match band {
            0 => eq.freq_62_hz = x,
            1 => eq.freq_125_hz = x,
            2 => eq.freq_250_hz = x,
            3 => eq.freq_500_hz = x,
            4 => eq.freq_1_khz = x,
            5 => eq.freq_2_khz = x,
            6 => eq.freq_4_khz = x,
            7 => eq.freq_8_khz = x,
            _ => eq.freq_16_khz = x,
        }
        eq.bands_synced[band] = true;
    }
}

/// The equaliser bands a dump gives bus `i`.
#[verifier::spinoff_prover]
fn plan_bus_eq(c: &FLOW8Controller, ccs: &Vec<Option<u8>>, i: usize) -> (eq: NineBandEQ)
    requires
        c.wf(),
        i < 5,
    ensures
        ({
            let e0 = c.buses@[i as int].nine_band_eq;
            &&& eq.freq_62_hz == pick(e0.freq_62_hz, slot_value(*c, ccs@, 97 + i))
            &&& eq.freq_125_hz == pick(e0.freq_125_hz, slot_value(*c, ccs@, 102 + i))
            &&& eq.freq_250_hz == pick(e0.freq_250_hz, slot_value(*c, ccs@, 107 + i))
            &&& eq.freq_500_hz == pick(e0.freq_500_hz, slot_value(*c, ccs@, 112 + i))
            &&& eq.freq_1_khz == pick(e0.freq_1_khz, slot_value(*c, ccs@, 117 + i))
            &&& eq.freq_2_khz == pick(e0.freq_2_khz, slot_value(*c, ccs@, 122 + i))
            &&& eq.freq_4_khz == pick(e0.freq_4_khz, slot_value(*c, ccs@, 127 + i))
            &&& eq.freq_8_khz == pick(e0.freq_8_khz, slot_value(*c, ccs@, 132 + i))
            &&& eq.freq_16_khz == pick(e0.freq_16_khz, slot_value(*c, ccs@, 137 + i))
            &&& forall|band: int| 0 <= band < 9 ==> #[trigger] eq.bands_synced@[band] == marked(e0.bands_synced@[band], slot_value(*c, ccs@, 97 + band * 5 + i))
        }),
{
    let mut eq = c.buses[i].nine_band_eq;
    let ghost e0 = eq;
    let mut band: usize = 0;
    while band < 9
        invariant
            c.wf(),
            i < 5,
            band <= 9,
            e0 == c.buses@[i as int].nine_band_eq,
            forall|b: int| 0 <= b < band ==> #[trigger] eq.bands_synced@[b] == marked(e0.bands_synced@[b], slot_value(*c, ccs@, 97 + b * 5 + i)),
            forall|b: int| band <= b < 9 ==> #[trigger] eq.bands_synced@[b] == e0.bands_synced@[b],
            band <= 0 ==> eq.freq_62_hz == e0.freq_62_hz,
            band > 0 ==> eq.freq_62_hz == pick(e0.freq_62_hz, slot_value(*c, ccs@, 97 + i)),
            band <= 1 ==> eq.freq_125_hz == e0.freq_125_hz,
            band > 1 ==> eq.freq_125_hz == pick(e0.freq_125_hz, slot_value(*c, ccs@, 102 + i)),
            band <= 2 ==> eq.freq_250_hz == e0.freq_250_hz,
            band > 2 ==> eq.freq_250_hz == pick(e0.freq_250_hz, slot_value(*c, ccs@, 107 + i)),
            band <= 3 ==> eq.freq_500_hz == e0.freq_500_hz,
            band > 3 ==> eq.freq_500_hz == pick(e0.freq_500_hz, slot_value(*c, ccs@, 112 + i)),
            band <= 4 ==> eq.freq_1_khz == e0.freq_1_khz,
            band > 4 ==> eq.freq_1_khz == pick(e0.freq_1_khz, slot_value(*c, ccs@, 117 + i)),
            band <= 5 ==> eq.freq_2_khz == e0.freq_2_khz,
            band > 5 ==> eq.freq_2_khz == pick(e0.freq_2_khz, slot_value(*c, ccs@, 122 + i)),
            band <= 6 ==> eq.freq_4_khz == e0.freq_4_khz,
            band > 6 ==> eq.freq_4_khz == pick(e0.freq_4_khz, slot_value(*c, ccs@, 127 + i)),
            band <= 7 ==> eq.freq_8_khz == e0.freq_8_khz,
            band > 7 ==> eq.freq_8_khz == pick(e0.freq_8_khz, slot_value(*c, ccs@, 132 + i)),
            band <= 8 ==> eq.freq_16_khz == e0.freq_16_khz,
            band > 8 ==> eq.freq_16_khz == pick(e0.freq_16_khz, slot_value(*c, ccs@, 137 + i)),
        decreases 9 - band,
    {
        let v = value_for(c, ccs, 97 + band * 5 + i);
        set_band_value(&mut eq, band, v);
        band = band + 1;
    }
    eq
}

/// The bus strip and equaliser a dump gives bus `i`, worked out before the bus is changed.
fn plan_bus(c: &FLOW8Controller, ccs: &Vec<Option<u8>>, i: usize) -> (r: (BusStrip, NineBandEQ))
    requires
        c.wf(),
        i < 5,
    ensures
        bus_dumped(*c, Bus { bus_strip: r.0, nine_band_eq: r.1, ..c.buses@[i as int] }, ccs@, i as int),
{
    let bs = c.buses[i].bus_strip;
    let v_level = value_for(c, ccs, 84 + i);
    let v_bal = value_for(c, ccs, 89 + i);
    let v_lim = if i < 3 {
        value_for(c, ccs, 94 + i)
    } else {
        None
    };
    let strip = BusStrip {
        level: pick_exec(bs.level, v_level),
        level_synced: bs.level_synced || v_level.is_some(),
        balance: pick_exec(bs.balance, v_bal),
        balance_synced: bs.balance_synced || v_bal.is_some(),
        limiter: pick_exec(bs.limiter, v_lim),
        limiter_synced: bs.limiter_synced || v_lim.is_some(),
    };
    let eq = plan_bus_eq(c, ccs, i);
    (strip, eq)
}

fn fx_percent_cc_exec(b: u8) -> (r: u8)
    ensures
        r == fx_percent_cc(b),
{
    let v: u16 = b as u16 * 127 / 100;
    if v > 127 {
        127
    } else {
        v as u8
    }
}

fn apply_fx_dump(f: &mut FxSlot, d: &[u8], j: usize)
    ensures
        *final(f) == fx_after_dump(*old(f), d@, j as int),
{
    let l = fx_layout_exec(j);
    if l.preset_off >= d.len() {
        return;
    }
    let raw = d[l.preset_off];
    if raw > 0 && raw <= 16 {
        f.preset = raw - 1;
        f.preset_synced = true;
    }
    f.param1 = fx_percent_cc_exec(d[l.param1_off]);
    f.param1_synced = true;
    f.param2 = fx_percent_cc_exec(d[l.param2_off]);
    f.param2_synced = true;
}

/// Brings the controller in line with a state dump of the mixer: channel names, every
/// float parameter for which `ccs` (indexed by slot, see `float_readings`) holds a MIDI
/// value, low cuts, mute, solo and phantom switches, and the effect processors; each value
/// set is marked synced. The dump is kept as the last one received.
pub fn apply_dump_to_controller(dump: &SysExDump, controller: &mut FLOW8Controller, ccs: &Vec<Option<u8>>)
    requires
        old(controller).wf(),
        dump.raw@.len() < usize::MAX - 2,
    ensures
        dump_applied(*old(controller), *final(controller), dump.raw@, ccs@),
{
    let ghost orig = *controller;
    let d = dump.raw.as_slice();
    let mut plans: Vec<ChannelPlan> = Vec::new();
    let mut i: usize = 0;
    while i < 7
        invariant
            *controller == orig,
            orig.wf(),
            d@ == dump.raw@,
            d.len() < usize::MAX - 2,
            i <= 7,
            plans@.len() == i,
            forall|j: int| 0 <= j < i ==> plan_matches(#[trigger] plans@[j], orig, d@, ccs@, j),
        decreases 7 - i,
    {
        let p = plan_channel(controller, d, ccs, i);
        plans.push(p);
        i = i + 1;
    }
    let mut bus_plans: Vec<(BusStrip, NineBandEQ)> = Vec::new();
    let mut i: usize = 0;
    while i < 5
        invariant
            *controller == orig,
            orig.wf(),
            i <= 5,
            bus_plans@.len() == i,
            forall|j: int| 0 <= j < i ==> bus_dumped(orig, Bus { bus_strip: (#[trigger] bus_plans@[j]).0, nine_band_eq: bus_plans@[j].1, ..orig.buses@[j] }, ccs@, j),
        decreases 5 - i,
    {
        let p = plan_bus(controller, ccs, i);
        bus_plans.push(p);
        i = i + 1;
    }
    let mut i: usize = 7;
    while i > 0
        invariant
            orig.wf(),
            controller.wf(),
            d@ == dump.raw@,
            i <= 7,
            plans@.len() == i,
            *controller == (FLOW8Controller { channels: controller.channels, ..orig }),
            forall|j: int| 0 <= j < i ==> plan_matches(#[trigger] plans@[j], orig, d@, ccs@, j),
            forall|j: int| 0 <= j < i ==> #[trigger] controller.channels@[j] == orig.channels@[j],
            forall|j: int| i <= j < 7 ==> channel_dumped(orig, #[trigger] controller.channels@[j], d@, ccs@, j),
        decreases i,
    {
        i = i - 1;
        let p = plans.pop().unwrap();
        apply_channel_plan(&mut controller.channels[i], p);
    }
    let mut i: usize = 0;
    while i < 5
        invariant
            orig.wf(),
            controller.wf(),
            i <= 5,
            bus_plans@.len() == 5,
            *controller == (FLOW8Controller { channels: controller.channels, buses: controller.buses, ..orig }),
            forall|j: int| 0 <= j < 7 ==> channel_dumped(orig, #[trigger] controller.channels@[j], d@, ccs@, j),
            forall|j: int| 0 <= j < 5 ==> bus_dumped(orig, Bus { bus_strip: (#[trigger] bus_plans@[j]).0, nine_band_eq: bus_plans@[j].1, ..orig.buses@[j] }, ccs@, j),
            forall|j: int| 0 <= j < i ==> bus_dumped(orig, #[trigger] controller.buses@[j], ccs@, j),
            forall|j: int| i <= j < 5 ==> #[trigger] controller.buses@[j] == orig.buses@[j],
        decreases 5 - i,
    {
        let (strip, eq) = bus_plans[i];
        let b = &mut controller.buses[i];
        b.bus_strip = strip;
        b.nine_band_eq = eq;
        i = i + 1;
    }
    apply_fx_dump(&mut controller.fx_slots[0], d, 0);
    apply_fx_dump(&mut controller.fx_slots[1], d, 1);
    controller.last_sysex_dump = Some(dump.raw.clone());
}


// ── A complete dump ─────────────────────────────────────────────────────

/// Slot `k` has a value whenever the controller has that parameter.
pub open spec fn slot_given(c: FLOW8Controller, ccs: Seq<Option<u8>>, k: int) -> bool {
    slot_enabled(c, k) ==> cc_at(ccs, k) is Some
}

/// The dump holds every parameter of channel `i` the controller has.
pub open spec fn channel_complete(c: FLOW8Controller, d: Seq<u8>, ccs: Seq<Option<u8>>, i: int) -> bool {
    &&& slot_given(c, ccs, i) && slot_given(c, ccs, 7 + i) && slot_given(c, ccs, 14 + i) && slot_given(c, ccs, 21 + i)
    &&& slot_given(c, ccs, 28 + i) && slot_given(c, ccs, 35 + i) && slot_given(c, ccs, 42 + i) && slot_given(c, ccs, 49 + i)
    &&& slot_given(c, ccs, 56 + i) && slot_given(c, ccs, 63 + i) && slot_given(c, ccs, 70 + i) && slot_given(c, ccs, 77 + i)
    &&& has_input_stage(c.channels@[i]) ==> low_cut_value(c, d, i) is Some
    &&& name_offset(i) + NAME_SCAN_LEN <= d.len()
    &&& switch_state(d, mute_param(i)) is Some
    &&& switch_state(d, solo_param(i)) is Some
    &&& c.channels@[i].phantom_pwr.phantom_power_type == PhantomPowerType::Set48v ==> i < 2 && switch_state(d, phantom_param(i)) is Some
}

/// The dump holds every parameter of bus `i` the controller has (only the first three
/// buses have limiters and equalisers in a dump).
pub open spec fn bus_complete(c: FLOW8Controller, ccs: Seq<Option<u8>>, i: int) -> bool {
    &&& slot_given(c, ccs, 84 + i) && slot_given(c, ccs, 89 + i)
    &&& c.buses@[i].bus_type != BusType::Fx ==> i < 3 && slot_given(c, ccs, 94 + i)
    &&& forall|band: int| 0 <= band < 9 ==> #[trigger] slot_given(c, ccs, 97 + band * 5 + i)
}

/// The dump holds effect processor `j`'s preset (1..=16) and parameters.
pub open spec fn fx_complete(d: Seq<u8>, j: int) -> bool {
    let l = fx_layout(j);
    &&& l.preset_off < d.len()
    &&& 1 <= d[l.preset_off as int] <= 16
}

/// The dump holds every parameter the controller has.
pub open spec fn dump_complete(c: FLOW8Controller, d: Seq<u8>, ccs: Seq<Option<u8>>) -> bool {
    &&& forall|i: int| 0 <= i < 7 ==> #[trigger] channel_complete(c, d, ccs, i)
    &&& forall|i: int| 0 <= i < 5 ==> #[trigger] bus_complete(c, ccs, i)
    &&& forall|j: int| 0 <= j < 2 ==> #[trigger] fx_complete(d, j)
}

proof fn lemma_complete_channel(old: FLOW8Controller, new_ch: Channel, d: Seq<u8>, ccs: Seq<Option<u8>>, i: int)
    requires
        old.wf(),
        0 <= i < 7,
        channel_dumped(old, new_ch, d, ccs, i),
        channel_complete(old, d, ccs, i),
    ensures
        channel_all_synced(new_ch),
{
    assert(slot_enabled(old, 7 + i) == has_input_stage(old.channels@[i]));
    assert(slot_enabled(old, 21 + i) == has_input_stage(old.channels@[i]));
    assert(new_ch.audio_connection == old.channels@[i].audio_connection);
    assert(new_ch.phantom_pwr.phantom_power_type == old.channels@[i].phantom_pwr.phantom_power_type);
}

proof fn lemma_complete_bus(old: FLOW8Controller, new_b: Bus, ccs: Seq<Option<u8>>, i: int)
    requires
        old.wf(),
        0 <= i < 5,
        bus_dumped(old, new_b, ccs, i),
        bus_complete(old, ccs, i),
    ensures
        bus_all_synced(new_b),
{
    assert(new_b.bus_type == old.buses@[i].bus_type);
    if new_b.bus_type != BusType::Fx {
        assert forall|band: int| 0 <= band < 9 implies #[trigger] new_b.nine_band_eq.bands_synced@[band] by {
            assert(slot_given(old, ccs, 97 + band * 5 + i));
            assert(float_slot(97 + band * 5 + i).index == i);
            assert(slot_enabled(old, 97 + band * 5 + i));
        }
    }
}

/// A dump that holds every parameter the controller has leaves the interface synced with
/// the mixer.
pub proof fn law_complete_dump_syncs(old: FLOW8Controller, new: FLOW8Controller, d: Seq<u8>, ccs: Seq<Option<u8>>)
    requires
        old.wf(),
        dump_applied(old, new, d, ccs),
        dump_complete(old, d, ccs),
    ensures
        new.globally_synced(),
{
    assert forall|i: int| 0 <= i < new.channels@.len() implies channel_all_synced(#[trigger] new.channels@[i]) by {
        assert(channel_complete(old, d, ccs, i));
        lemma_complete_channel(old, new.channels@[i], d, ccs, i);
    }
    assert forall|i: int| 0 <= i < new.buses@.len() implies bus_all_synced(#[trigger] new.buses@[i]) by {
        assert(bus_complete(old, ccs, i));
        lemma_complete_bus(old, new.buses@[i], ccs, i);
    }
    assert forall|j: int| 0 <= j < new.fx_slots@.len() implies (#[trigger] new.fx_slots@[j]).with_sync(true) == new.fx_slots@[j] by {
        assert(fx_complete(d, j));
    }
}


/// The mixer's switches come from their own bytes of the dump: channel `i` is muted when
/// its mute byte (0x04CC, 0x04CD, 0x04CF, 0x04D0, 0x04D1, 0x04D2, 0x04D3 for channels 1
/// to 7; 0x04CE belongs to no channel) is not 0, soloed likewise by its solo byte (0x04DF,
/// 0x04E0, 0x04E1, 0x04E2, 0x04E4, 0x04E5, 0x04E6), and channels 1 and 2 have 48V by the
/// bytes 0x0737 and 0x0778; each switch read is marked synced.
pub proof fn law_dump_switches_follow_mixer_layout(old: FLOW8Controller, new: FLOW8Controller, d: Seq<u8>, ccs: Seq<Option<u8>>, i: int)
    requires
        old.wf(),
        dump_applied(old, new, d, ccs),
        0 <= i < 7,
        d.len() > 0x0778,
    ensures
        new.channels@[i].is_muted == (d[seq![0x04CCint, 0x04CD, 0x04CF, 0x04D0, 0x04D1, 0x04D2, 0x04D3][i]] != 0),
        new.channels@[i].is_soloed == (d[seq![0x04DFint, 0x04E0, 0x04E1, 0x04E2, 0x04E4, 0x04E5, 0x04E6][i]] != 0),
        i < 2 ==> new.channels@[i].phantom_pwr.is_on == (d[if i == 0 { 0x0737int } else { 0x0778int }] != 0),
        new.channels@[i].mute_synced,
        new.channels@[i].solo_synced,
{
    assert(channel_dumped(old, new.channels@[i], d, ccs, i));
    let mutes = seq![0x04CCint, 0x04CD, 0x04CF, 0x04D0, 0x04D1, 0x04D2, 0x04D3];
    let solos = seq![0x04DFint, 0x04E0, 0x04E1, 0x04E2, 0x04E4, 0x04E5, 0x04E6];
    assert(mute_param(i).offset == mutes[i]);
    assert(solo_param(i).offset == solos[i]);
}

/// An effect processor takes its parameters from its own bytes of the dump (0x0BC5,
/// 0x0BC6 and preset 0x0BC9 for FX 1; 0x0BCD, 0x0BCF and 0x0BD1 for FX 2): each parameter
/// byte, a percentage, becomes the MIDI value byte * 127 / 100 (at most 127), and a preset
/// byte from 1 to 16 selects preset byte - 1, any other byte leaving the preset as it was.
pub proof fn law_dump_fx_follows_mixer_layout(old: FLOW8Controller, new: FLOW8Controller, d: Seq<u8>, ccs: Seq<Option<u8>>, j: int)
    requires
        old.wf(),
        dump_applied(old, new, d, ccs),
        0 <= j < 2,
        d.len() > 0x0BD1,
    ensures
        ({
            let p1 = d[if j == 0 { 0x0BC5int } else { 0x0BCDint }] as int;
            let p2 = d[if j == 0 { 0x0BC6int } else { 0x0BCFint }] as int;
            let pr = d[if j == 0 { 0x0BC9int } else { 0x0BD1int }] as int;
            let f = new.fx_slots@[j];
            &&& f.param1 == (if p1 * 127 / 100 > 127 { 127 } else { p1 * 127 / 100 })
            &&& f.param2 == (if p2 * 127 / 100 > 127 { 127 } else { p2 * 127 / 100 })
            &&& f.preset == (if 1 <= pr <= 16 { pr - 1 } else { old.fx_slots@[j].preset as int })
            &&& f.param1_synced && f.param2_synced
        }),
{
    assert(new.fx_slots@[j] == fx_after_dump(old.fx_slots@[j], d, j));
}

/// A channel with a low cut (channels 1 to 6) takes it from its two bytes of the dump
/// (0x0742/0x0743, 0x0784/0x0785, 0x07C5/0x07C6, 0x0806/0x0807, 0x0848/0x0849,
/// 0x0889/0x088A: low seven bits, then high), a frequency in Hz; the MIDI value is that
/// frequency, clamped to 20..600 Hz, mapped onto 0..127 and rounded to the nearest value
/// (halves up).
pub proof fn law_dump_low_cut_follows_mixer_layout(old: FLOW8Controller, new: FLOW8Controller, d: Seq<u8>, ccs: Seq<Option<u8>>, i: int)
    requires
        old.wf(),
        dump_applied(old, new, d, ccs),
        0 <= i < 6,
        old.channels@[i].audio_connection != AudioConnection::UsbBt,
        d.len() > 0x088A,
    ensures
        ({
            let lo = seq![0x0742int, 0x0784, 0x07C5, 0x0806, 0x0848, 0x0889][i];
            let hz = d[lo] + d[lo + 1] * 128;
            let f = if hz < 20 { 20 } else if hz > 600 { 600 } else { hz };
            let cc = new.channels@[i].channel_strip.low_cut as int;
            &&& cc * 1160 <= (f - 20) * 254 + 580 < cc * 1160 + 1160
            &&& new.channels@[i].channel_strip.low_cut_synced
        }),
{
    assert(channel_dumped(old, new.channels@[i], d, ccs, i));
    let lo = seq![0x0742int, 0x0784, 0x07C5, 0x0806, 0x0848, 0x0889][i];
    assert(low_cut_param(i).lo_off == lo && low_cut_param(i).hi_off == lo + 1);
    let hz = d[lo] + d[lo + 1] * 128;
    assert(0 <= hz < 65536);
    let f = if hz < 20 { 20 } else if hz > 600 { 600 } else { hz };
    let x = (f - 20) * 254 + 580;
    assert(0 <= x <= 580 * 254 + 580);
    let q = x / 1160;
    vstd::arithmetic::div_mod::lemma_fundamental_div_mod(x, 1160);
    assert(0 <= q <= 127);
    assert(lowcut_cc(hz as u16) == q as u8);
}

/// Channel `i`'s name comes from its own field of the dump: 14 bytes from 0x0554 + 30 * i,
/// decoded as UTF-8 (invalid sequences replaced), and is marked synced.
pub proof fn law_dump_names_follow_mixer_layout(old: FLOW8Controller, new: FLOW8Controller, d: Seq<u8>, ccs: Seq<Option<u8>>, i: int)
    requires
        old.wf(),
        dump_applied(old, new, d, ccs),
        0 <= i < 7,
        d.len() >= 0x0554 + 30 * 6 + 14,
    ensures
        new.channels@[i].name@ == utf8_lossy_text(name_bytes(d, 0x0554 + 30 * i)),
        new.channels@[i].name_synced,
{
    assert(channel_dumped(old, new.channels@[i], d, ccs, i));
}
} // verus!
