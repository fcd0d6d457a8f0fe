//! The mixer's MIDI implementation chart: which control change moves which parameter.
//! Both the interface and the calibration sweep are held to it.

use vstd::prelude::*;

verus! {

/// The input channels' control changes, each with the name of the parameter it moves.
pub open spec fn channel_chart() -> Seq<(Seq<char>, u8)> {
    seq![
        ("eq_low"@, 1u8),
        ("eq_lowmid"@, 2u8),
        ("eq_himid"@, 3u8),
        ("eq_hi"@, 4u8),
        ("mute"@, 5u8),
        ("solo"@, 6u8),
        ("level"@, 7u8),
        ("gain"@, 8u8),
        ("lowcut"@, 9u8),
        ("pan"@, 10u8),
        ("comp"@, 11u8),
        ("phantom"@, 12u8),
        ("send_mon1"@, 14u8),
        ("send_mon2"@, 15u8),
        ("send_fx1"@, 16u8),
        ("send_fx2"@, 17u8),
    ]
}

/// The buses' control changes (the nine EQ bands from 62 Hz up are 11 to 19).
pub open spec fn bus_chart() -> Seq<(Seq<char>, u8)> {
    seq![
        ("level"@, 7u8),
        ("limiter"@, 8u8),
        ("balance"@, 10u8),
        ("9band_62hz"@, 11u8),
        ("9band_125hz"@, 12u8),
        ("9band_250hz"@, 13u8),
        ("9band_500hz"@, 14u8),
        ("9band_1khz"@, 15u8),
        ("9band_2khz"@, 16u8),
        ("9band_4khz"@, 17u8),
        ("9band_8khz"@, 18u8),
        ("9band_16khz"@, 19u8),
    ]
}

/// The effect processors' control changes.
pub open spec fn fx_chart() -> Seq<(Seq<char>, u8)> {
    seq![("param1"@, 1u8), ("param2"@, 2u8)]
}

/// Whether the chart says that control change `cc` moves the parameter named `name`.
pub open spec fn charted(chart: Seq<(Seq<char>, u8)>, name: Seq<char>, cc: u8) -> bool {
    exists|k: int| 0 <= k < chart.len() && #[trigger] chart[k] == (name, cc)
}

} // verus!
