//! Small enumerations shared across the engine.

use vstd::prelude::*;

verus! {

/// Severity attached to data points, command results and error messages.
#[derive(Clone, Copy, Debug, PartialEq, Eq, Structural)]
pub enum Criticality {
    NoData,
    Normal,
    Info,
    Warning,
    Error,
    Critical,
}

/// Per-request selection of how the response cache is consulted.
#[derive(Clone, Copy, Debug, PartialEq, Eq, Structural)]
pub enum CachePolicy {
    BypassCache,
    PreferCache,
    OnlyCache,
}

/// What kind of work a connector request asks the transport to do.
#[derive(Clone, Copy, Debug, PartialEq, Eq, Structural)]
pub enum RequestType {
    Command,
    Download,
    Upload,
}

/// Which UI surface the frontend should open for a command.
#[derive(Clone, Copy, Debug, PartialEq, Eq, Structural)]
pub enum CommandAction {
    NoAction,
    Dialog,
    TextView,
    LogView,
    Terminal,
}

/// Derived host availability as shown by the frontend.
#[derive(Clone, Copy, Debug, PartialEq, Eq, Structural)]
pub enum HostStatus {
    Up,
    Down,
}

/// Per-host behaviour flags from the configuration.
#[derive(Clone, Copy, Debug, PartialEq, Eq, Structural)]
pub enum HostSetting {
    UseSudo,
}

impl HostStatus {
    /// Parses the textual status used in data point values; anything but
    /// "up" is treated as down.
    pub fn from_value(value: &str) -> (r: HostStatus)
        ensures
            r == (if value@ == "up"@ {
                HostStatus::Up
            } else {
                HostStatus::Down
            }),
    {
        if crate::utils::str_eq(value, "up") {
            HostStatus::Up
        } else {
            HostStatus::Down
        }
    }
}

} // verus!
