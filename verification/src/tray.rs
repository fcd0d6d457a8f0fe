use vstd::prelude::*;
use vstd::string::StringExecFns;

verus! {

/// What the user asked for from the system tray icon's menu.
#[derive(Debug, Clone, Copy, PartialEq, Eq, Structural)]
pub enum TrayEvent {
    RestoreRequested,
    ExitRequested,
}

/// The system tray on platforms that have none: it cannot be created, and its operations
/// do nothing.
pub struct TrayManager;

pub open spec fn tray_unsupported_text() -> Seq<char> {
    "System tray is only supported on Windows in this implementation"@
}

impl TrayManager {
    /// Always refused, with the reason.
    pub fn new() -> (r: Result<Self, String>)
        ensures
            r matches Err(e) && e@ == tray_unsupported_text(),
    {
        Err(String::from_str("System tray is only supported on Windows in this implementation"))
    }

    pub fn show_icon(&self) {
    }

    pub fn hide_icon(&self) {
    }

    pub fn shutdown(&self) {
    }

    /// No event ever arrives.
    pub fn try_recv(&self) -> (r: Option<TrayEvent>)
        ensures
            r is None,
    {
        None
    }
}

pub fn hide_app_window() {
}

pub fn show_app_window() {
}

} // verus!
