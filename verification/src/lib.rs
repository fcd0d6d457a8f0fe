use vstd::prelude::*;

pub mod analyze;
pub mod app_config;
pub mod ble;
pub mod calib_digest;
pub mod calibration;
pub mod channels;
pub mod controller;
pub mod digest;
pub mod hex_round_trip;
pub mod hexfile;
pub mod dump;
pub mod extract;
pub mod file_extract;
pub mod interface;
pub mod logger;
pub mod midi_chart;
pub mod midi_devices;
pub mod page;
pub mod sysex;
pub mod text;
pub mod tray;
pub mod widgets;

verus! {
} // verus!
