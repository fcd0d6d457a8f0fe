use vstd::prelude::*;

use crate::controller::{interval_label, parse_sync_interval, FLOW8Controller, SyncInterval};

verus! {

/// The user's settings as the settings file stores them: names and flags, each optional
/// (a missing entry leaves the setting as it is).
pub struct AppConfig {
    pub theme: Option<String>,
    pub sync_interval: Option<String>,
    pub close_to_tray_on_close: Option<bool>,
}

impl Default for AppConfig {
    fn default() -> (c: Self)
        ensures
            c.theme is None,
            c.sync_interval is None,
            c.close_to_tray_on_close is None,
    {
        AppConfig { theme: None, sync_interval: None, close_to_tray_on_close: None }
    }
}

/// The interval a stored name gives the controller: the interval of that name, or the
/// current one when there is no entry or no interval has that name.
pub open spec fn configured_interval(config: Option<String>, current: SyncInterval) -> SyncInterval {
    match config {
        Some(name) => if exists|i: SyncInterval| interval_label(i) == name@ {
            choose|i: SyncInterval| interval_label(i) == name@
        } else {
            current
        },
        None => current,
    }
}

/// Applies the stored sync interval and close button setting to the controller (the
/// theme belongs to the window and is applied by the caller).
pub fn apply_to_controller(config: &AppConfig, controller: &mut FLOW8Controller)
    ensures
        *final(controller) == (FLOW8Controller {
            sync_interval: configured_interval(config.sync_interval, old(controller).sync_interval),
            close_to_tray_on_close: match config.close_to_tray_on_close {
                Some(b) => b,
                None => old(controller).close_to_tray_on_close,
            },
            ..*old(controller)
        }),
{
    if let Some(name) = &config.sync_interval {
        if let Some(interval) = parse_sync_interval(name.as_str()) {
            controller.sync_interval = interval;
        }
    }
    if let Some(close_to_tray) = config.close_to_tray_on_close {
        controller.close_to_tray_on_close = close_to_tray;
    }
}

/// The settings to store for a controller and the name of the current theme.
pub fn config_from_controller(controller: &FLOW8Controller, theme_name: String) -> (c: AppConfig)
    ensures
        c.theme == Some(theme_name),
        c.sync_interval matches Some(s) && s@ == interval_label(controller.sync_interval),
        c.close_to_tray_on_close == Some(controller.close_to_tray_on_close),
{
    AppConfig {
        theme: Some(theme_name),
        sync_interval: Some(controller.sync_interval.to_string()),
        close_to_tray_on_close: Some(controller.close_to_tray_on_close),
    }
}

/// Settings stored from a controller give it back its interval and close button setting.
pub proof fn law_config_round_trip(c: FLOW8Controller, stored: AppConfig, other: FLOW8Controller)
    requires
        stored.sync_interval matches Some(s) && s@ == interval_label(c.sync_interval),
        stored.close_to_tray_on_close == Some(c.close_to_tray_on_close),
    ensures
        configured_interval(stored.sync_interval, other.sync_interval) == c.sync_interval,
{
    assert(interval_label(c.sync_interval) == stored.sync_interval.unwrap()@);
    let i = choose|i: SyncInterval| interval_label(i) == stored.sync_interval.unwrap()@;
    crate::controller::law_sync_interval_round_trip(i, c.sync_interval);
}

} // verus!
