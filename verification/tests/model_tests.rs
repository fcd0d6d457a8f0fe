use flow8_midi::channels::{AudioConnection, Bus, BusType, Channel, ChannelType, FxSlot, PhantomPowerType};
use flow8_midi::controller::{parse_sync_interval, FLOW8Controller, SyncInterval};
use flow8_midi::page::Page;

fn channel(id: u8, ty: ChannelType, conn: AudioConnection) -> Channel {
    let mut c = Channel::default();
    c.id = id;
    c.channel_type = ty;
    c.audio_connection = conn;
    c
}

#[test]
fn display_label_mono_xlr() {
    let c = channel(0, ChannelType::Mono, AudioConnection::Xlr);
    assert_eq!(c.display_label(), "Ch 1 · XLR");
}

#[test]
fn display_label_stereo_pairs() {
    let c = channel(4, ChannelType::Stereo, AudioConnection::Line);
    assert_eq!(c.display_label(), "Ch 5/6 · Line");
    let c = channel(5, ChannelType::Stereo, AudioConnection::Line);
    assert_eq!(c.display_label(), "Ch 7/8 · Line");
}

#[test]
fn display_label_usb() {
    let c = channel(6, ChannelType::Stereo, AudioConnection::UsbBt);
    assert_eq!(c.display_label(), "USB | BT");
    assert!(!c.has_gain());
    assert!(!c.has_compressor());
    assert!(!c.has_low_cut());
}

#[test]
fn channel_sync_flags() {
    let mut c = channel(0, ChannelType::Mono, AudioConnection::Xlr);
    assert!(!c.is_all_synced());
    c.mark_all_synced();
    assert!(c.is_all_synced());
    c.mark_all_unsynced();
    assert!(!c.is_all_synced());
    assert!(!c.channel_strip.level_synced);
}

#[test]
fn bus_labels() {
    let mut b = Bus::default();
    assert_eq!(b.label(), "Main");
    b.bus_type = BusType::Monitor;
    b.index = 2;
    assert_eq!(b.label(), "Mon 2");
    b.bus_type = BusType::Fx;
    b.index = 3;
    assert_eq!(b.label(), "FX 1");
    assert!(!b.has_limiter());
    assert!(!b.has_nine_band_eq());
    assert!(!b.has_balance());
}

#[test]
fn bus_sync_flags() {
    let mut b = Bus::default();
    b.mark_all_synced();
    assert!(b.is_all_synced());
    b.mark_all_unsynced();
    assert!(!b.is_all_synced());
}

#[test]
fn fx_slot_presets() {
    let mut f = FxSlot::new(0);
    assert_eq!(f.presets().len(), 16);
    assert!(!f.param2_is_on());
    f.param2 = 1;
    assert!(f.param2_is_on());
    f.param2 = 64;
    assert!(f.param2_is_on());
    f.param2 = 0;
    assert!(!f.param2_is_on());
    f.preset = 200;
    let info = f.preset_info();
    assert_eq!(info.name, f.presets()[15].name);
    f.mark_all_synced();
    assert!(f.is_all_synced());
}

#[test]
fn new_controller_layout() {
    let c = FLOW8Controller::new();
    assert_eq!(c.channels.len(), 7);
    assert_eq!(c.buses.len(), 5);
    assert_eq!(c.fx_slots.len(), 2);
    assert_eq!(c.channels[0].phantom_pwr.phantom_power_type, PhantomPowerType::Set48v);
    assert_eq!(c.channels[2].phantom_pwr.phantom_power_type, PhantomPowerType::Absent);
    assert_eq!(c.channels[2].audio_connection, AudioConnection::ComboXlr);
    assert_eq!(c.channels[6].audio_connection, AudioConnection::UsbBt);
    assert_eq!(c.buses[0].bus_type, BusType::Main);
    assert_eq!(c.buses[4].bus_type, BusType::Fx);
    assert_eq!(c.buses[4].id, 11);
    assert_eq!(c.buses[4].label(), "FX 2");
    assert_eq!(c.current_page, Page::DeviceSelect);
    assert!(!c.is_globally_synced());
}

#[test]
fn mark_all_unsynced_clears_global_sync() {
    let mut c = FLOW8Controller::new();
    for ch in c.channels.iter_mut() {
        ch.mark_all_synced();
    }
    for b in c.buses.iter_mut() {
        b.mark_all_synced();
    }
    for f in c.fx_slots.iter_mut() {
        f.mark_all_synced();
    }
    assert!(c.is_globally_synced());
    c.mark_all_unsynced();
    assert!(!c.is_globally_synced());
}

#[test]
fn sync_interval_names_round_trip() {
    for i in SyncInterval::all() {
        assert_eq!(parse_sync_interval(&i.to_string()), Some(i));
    }
    assert_eq!(SyncInterval::Minutes2.as_secs(), Some(120));
    assert_eq!(SyncInterval::Never.as_secs(), None);
    assert_eq!(SyncInterval::Seconds30.to_string(), "30s");
    assert_eq!(parse_sync_interval("3 min"), None);
}

#[test]
fn page_titles() {
    assert_eq!(Page::Eq.to_string(), "EQ");
    assert_eq!(Page::Snapshots.to_string(), "Snapshots");
}
