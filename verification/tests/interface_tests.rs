use flow8_midi::ble::BleStatus;
use flow8_midi::calibration::CalibPhase;
use flow8_midi::controller::{CloseAction, ConnectOutcome, FLOW8Controller, SyncInterval};
use flow8_midi::interface::{
    is_in_range, match_midi_command, update, update_interface, Effect, InterfaceMessage, Link,
    Links, MidiCommand,
};
use flow8_midi::tray::TrayEvent;

const NO_LINKS: Links = Links { midi_connected: false, ble_connected: false };

#[test]
fn mute_sends_cc5_and_toggles() {
    let mut c = FLOW8Controller::new();
    let fx = update(&mut c, InterfaceMessage::Mute(2, false), 0, NO_LINKS);
    assert_eq!(fx, vec![Effect::Midi(MidiCommand::ControlChange { channel: 2, controller: 5, value: 127 })]);
    assert!(c.channels[2].is_muted);
    update(&mut c, InterfaceMessage::Mute(2, true), 0, NO_LINKS);
    assert!(!c.channels[2].is_muted);
}

fn synced_controller() -> FLOW8Controller {
    let mut c = FLOW8Controller::new();
    for ch in c.channels.iter_mut() {
        ch.mark_all_synced();
    }
    for b in c.buses.iter_mut() {
        b.mark_all_synced();
    }
    for f in c.fx_slots.iter_mut() {
        f.mark_all_synced();
    }
    c
}

#[test]
fn level_sets_value_and_sync() {
    let mut c = synced_controller();
    assert!(c.is_globally_synced());
    let fx = update(&mut c, InterfaceMessage::Level(1, 99), 0, NO_LINKS);
    assert_eq!(fx, vec![Effect::Midi(MidiCommand::ControlChange { channel: 1, controller: 7, value: 99 })]);
    assert_eq!(c.channels[1].channel_strip.level, 99);
    assert!(!c.channels[1].channel_strip.level_synced);
    assert!(c.channels[0].channel_strip.level_synced);
    assert!(!c.is_globally_synced());
}

#[test]
fn interface_changes_wait_for_the_mixer() {
    let mut c = synced_controller();
    update(&mut c, InterfaceMessage::Mute(3, false), 0, NO_LINKS);
    assert!(!c.channels[3].mute_synced);
    update(&mut c, InterfaceMessage::EqHi(2, 40), 0, NO_LINKS);
    assert!(!c.channels[2].four_band_eq.hi_synced);
    update(&mut c, InterfaceMessage::SendFx1(4, 40), 0, NO_LINKS);
    assert!(!c.channels[4].sends.fx1_synced);
    update(&mut c, InterfaceMessage::BusLimiter(0, 8, 20), 0, NO_LINKS);
    assert!(!c.buses[0].bus_strip.limiter_synced);
    assert!(c.buses[0].bus_strip.level_synced);
    update(&mut c, InterfaceMessage::FxParam2(1, 1), 0, NO_LINKS);
    assert!(!c.fx_slots[1].param2_synced);
    assert!(c.fx_slots[1].param2_is_on());
    assert!(c.fx_slots[0].param2_synced);
}

#[test]
fn midi_mapping_table() {
    assert_eq!(match_midi_command(&InterfaceMessage::BusNineBandEq(1, 8, 3, 40)),
        Some(MidiCommand::ControlChange { channel: 8, controller: 14, value: 40 }));
    assert_eq!(match_midi_command(&InterfaceMessage::FxPreset(1, 4)),
        Some(MidiCommand::ProgramChange { channel: 14, program: 5 }));
    assert_eq!(match_midi_command(&InterfaceMessage::LoadSnapshot(0)),
        Some(MidiCommand::ProgramChange { channel: 15, program: 1 }));
    assert_eq!(match_midi_command(&InterfaceMessage::ResetMixer),
        Some(MidiCommand::ProgramChange { channel: 15, program: 16 }));
    assert_eq!(match_midi_command(&InterfaceMessage::TapTempo),
        Some(MidiCommand::NoteOn { channel: 15, note: 0, velocity: 127 }));
    assert_eq!(match_midi_command(&InterfaceMessage::FxMute), None);
    assert_eq!(match_midi_command(&InterfaceMessage::SendFx2(6, 3)),
        Some(MidiCommand::ControlChange { channel: 6, controller: 17, value: 3 }));
}

#[test]
fn midi_bytes() {
    assert_eq!(MidiCommand::ControlChange { channel: 3, controller: 7, value: 100 }.to_bytes(), vec![0xB3, 7, 100]);
    assert_eq!(MidiCommand::ProgramChange { channel: 15, program: 16 }.to_bytes(), vec![0xCF, 16]);
    assert_eq!(MidiCommand::NoteOn { channel: 15, note: 0, velocity: 127 }.to_bytes(), vec![0x9F, 0, 127]);
}

#[test]
fn range_check() {
    assert!(is_in_range(&InterfaceMessage::Gain(6, 1)));
    assert!(!is_in_range(&InterfaceMessage::Gain(7, 1)));
    assert!(!is_in_range(&InterfaceMessage::FxParam1(2, 1)));
    assert!(!is_in_range(&InterfaceMessage::LoadSnapshot(255)));
}

#[test]
fn phantom_needs_double_click() {
    let mut c = FLOW8Controller::new();
    let fx = update_interface(&mut c, InterfaceMessage::PhantomPower(0), 1000, NO_LINKS);
    assert!(fx.is_empty());
    assert!(!c.channels[0].phantom_pwr.is_on);
    assert_eq!(c.channels[0].phantom_last_click, Some(1000));
    let fx = update_interface(&mut c, InterfaceMessage::PhantomPower(0), 1300, NO_LINKS);
    assert_eq!(fx, vec![Effect::Midi(MidiCommand::ControlChange { channel: 0, controller: 12, value: 127 })]);
    assert!(c.channels[0].phantom_pwr.is_on);
    assert_eq!(c.channels[0].phantom_last_click, None);
}

#[test]
fn phantom_slow_clicks_do_not_toggle() {
    let mut c = FLOW8Controller::new();
    update_interface(&mut c, InterfaceMessage::PhantomPower(1), 1000, NO_LINKS);
    update_interface(&mut c, InterfaceMessage::PhantomPower(1), 1500, NO_LINKS);
    assert!(!c.channels[1].phantom_pwr.is_on);
    assert_eq!(c.channels[1].phantom_last_click, Some(1500));
}

#[test]
fn fx_mute_toggles_and_sends() {
    let mut c = FLOW8Controller::new();
    let fx = update(&mut c, InterfaceMessage::FxMute, 0, NO_LINKS);
    assert_eq!(fx, vec![Effect::Midi(MidiCommand::ControlChange { channel: 15, controller: 1, value: 127 })]);
    assert!(c.fx_muted);
    let fx = update(&mut c, InterfaceMessage::FxMute, 0, NO_LINKS);
    assert_eq!(fx, vec![Effect::Midi(MidiCommand::ControlChange { channel: 15, controller: 1, value: 0 })]);
}

#[test]
fn nine_band_sets_band() {
    let mut c = FLOW8Controller::new();
    update_interface(&mut c, InterfaceMessage::BusNineBandEq(1, 8, 8, 70), 0, NO_LINKS);
    assert_eq!(c.buses[1].nine_band_eq.freq_16_khz, 70);
    assert!(!c.buses[1].nine_band_eq.bands_synced[8]);
    let mut c = synced_controller();
    update_interface(&mut c, InterfaceMessage::BusNineBandEq(1, 8, 8, 70), 0, NO_LINKS);
    assert!(!c.buses[1].nine_band_eq.bands_synced[8]);
    assert!(c.buses[1].nine_band_eq.bands_synced[0]);
    update_interface(&mut c, InterfaceMessage::BusNineBandEq(1, 8, 9, 70), 0, NO_LINKS);
}

#[test]
fn snapshot_load_unsyncs_and_schedules_resync() {
    let mut c = FLOW8Controller::new();
    update_interface(&mut c, InterfaceMessage::Gain(0, 5), 0, NO_LINKS);
    let fx = update(&mut c, InterfaceMessage::LoadSnapshot(3), 2000, NO_LINKS);
    assert_eq!(fx, vec![Effect::Midi(MidiCommand::ProgramChange { channel: 15, program: 4 })]);
    assert!(!c.channels[0].channel_strip.gain_synced);
    assert_eq!(c.channels[0].channel_strip.gain, 5);
    assert_eq!(c.snapshot_resync_at, Some(2000));
    assert!(!c.take_due_resync(2400));
    assert!(c.take_due_resync(2500));
    assert_eq!(c.snapshot_resync_at, None);
}

#[test]
fn disconnect_effects() {
    let mut c = FLOW8Controller::new();
    c.ble_status = BleStatus::Connected;
    c.last_sync_time = Some(5);
    let fx = update_interface(&mut c, InterfaceMessage::Disconnect, 10, NO_LINKS);
    assert_eq!(fx, vec![Effect::CloseBle]);
    assert_eq!(c.ble_status, BleStatus::Disconnected);
    assert_eq!(c.last_sync_time, None);
}

#[test]
fn ble_connect_double_click_starts() {
    let mut c = FLOW8Controller::new();
    assert!(update_interface(&mut c, InterfaceMessage::BleConnect, 100, NO_LINKS).is_empty());
    assert_eq!(update_interface(&mut c, InterfaceMessage::BleConnect, 200, NO_LINKS), vec![Effect::StartBle]);
    assert!(!c.start_ble_connection());
    c.ble_available = true;
    c.ble_status = BleStatus::Disconnected;
    assert!(c.start_ble_connection());
    assert_eq!(c.ble_status, BleStatus::Scanning);
    assert!(!c.start_ble_connection());
}

#[test]
fn settings_effects() {
    let mut c = FLOW8Controller::new();
    assert_eq!(update_interface(&mut c, InterfaceMessage::SyncIntervalChanged(SyncInterval::Minutes5), 0, NO_LINKS), vec![Effect::PersistSettings]);
    assert_eq!(c.sync_interval, SyncInterval::Minutes5);
    assert_eq!(update_interface(&mut c, InterfaceMessage::OpenManual, 0, NO_LINKS), vec![Effect::Open(Link::Manual)]);
    assert_eq!(Link::Donation.url(), "https://buymeacoffee.com/abelroes");
    assert!(update_interface(&mut c, InterfaceMessage::CopyHexDump, 0, NO_LINKS).is_empty());
    c.last_sysex_dump = Some(vec![1, 2]);
    assert_eq!(update_interface(&mut c, InterfaceMessage::CopyHexDump, 0, NO_LINKS), vec![Effect::CopyHexDump]);
}

#[test]
fn auto_sync_timing() {
    let mut c = FLOW8Controller::new();
    c.ble_status = BleStatus::Connected;
    assert!(!c.auto_sync_due(0));
    c.sync_interval = SyncInterval::Seconds30;
    assert!(c.auto_sync_due(0));
    c.record_dump_sent(1_000);
    assert!(!c.auto_sync_due(30_999));
    assert!(c.auto_sync_due(31_000));
    c.ble_status = BleStatus::Scanning;
    assert!(!c.auto_sync_due(100_000));
}

#[test]
fn calibration_start_needs_links() {
    let mut c = FLOW8Controller::new();
    update_interface(&mut c, InterfaceMessage::CalibrateStart, 0, Links { midi_connected: true, ble_connected: false });
    assert_eq!(c.calibration.phase, CalibPhase::Idle);
    update_interface(&mut c, InterfaceMessage::CalibrateStart, 0, Links { midi_connected: true, ble_connected: true });
    assert_eq!(c.calibration.phase, CalibPhase::RequestDump(0));
    assert_eq!(c.calibration.steps.len(), 519);
}

#[test]
fn window_and_tray() {
    let mut c = FLOW8Controller::new();
    assert_eq!(c.on_close_requested(true), CloseAction::Exit);
    c.close_to_tray_on_close = true;
    assert_eq!(c.on_close_requested(false), CloseAction::Exit);
    assert_eq!(c.on_close_requested(true), CloseAction::HideToTray);
    assert!(c.window_hidden_to_tray);
    c.on_tray_event(TrayEvent::RestoreRequested);
    assert!(!c.window_hidden_to_tray);
}

#[test]
fn connection_outcomes() {
    let mut c = FLOW8Controller::new();
    c.record_connection(ConnectOutcome::NotFound);
    assert_eq!(c.connection_error.as_deref(), Some("FLOW 8 not found. Connect it via USB and try again."));
    c.record_connection(ConnectOutcome::Connected("FLOW 8".to_string()));
    assert_eq!(c.connection_error, None);
    assert_eq!(c.connected_device_name.as_deref(), Some("FLOW 8"));
    c.record_connection(ConnectOutcome::Failed("busy".to_string()));
    assert_eq!(c.connection_error.as_deref(), Some("busy"));
}

#[test]
fn tick_counter_wraps() {
    let mut c = FLOW8Controller::new();
    c.tick_counter = u32::MAX;
    c.advance_tick_counter();
    assert_eq!(c.tick_counter, 0);
}
