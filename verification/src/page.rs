use vstd::prelude::*;
use vstd::string::StringExecFns;

verus! {

/// The pages of the interface.
#[derive(Debug, Clone, Copy, PartialEq, Eq, Structural)]
pub enum Page {
    DeviceSelect,
    Mixer,
    Eq,
    Sends,
    Fx,
    Snapshots,
    Settings,
}

/// The title of each page.
pub open spec fn page_title(p: Page) -> Seq<char> {
    match p {
        Page::DeviceSelect => "Device"@,
        Page::Mixer => "Mixer"@,
        Page::Eq => "EQ"@,
        Page::Sends => "Sends"@,
        Page::Fx => "FX"@,
        Page::Snapshots => "Snapshots"@,
        Page::Settings => "Settings"@,
    }
}

impl Page {
    /// The title of the page, as shown on its tab.
    pub fn to_string(&self) -> (s: String)
        ensures
            s@ == page_title(*self),
    {
        match *self {
            Page::DeviceSelect => String::from_str("Device"),
            Page::Mixer => String::from_str("Mixer"),
            Page::Eq => String::from_str("EQ"),
            Page::Sends => String::from_str("Sends"),
            Page::Fx => String::from_str("FX"),
            Page::Snapshots => String::from_str("Snapshots"),
            Page::Settings => String::from_str("Settings"),
        }
    }
}

} // verus!
