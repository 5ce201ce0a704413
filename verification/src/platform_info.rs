//! What is known about a host's operating system. Starts unset and is
//! filled in by a bootstrap probe.

use vstd::prelude::*;

use crate::version::VersionNumber;

verus! {

#[derive(Clone, Copy, Debug, PartialEq, Eq, Structural)]
pub enum OperatingSystem {
    Unknown,
    Windows,
    Linux,
}

/// Flavor covers different Windows releases and Linux distributions.
#[derive(Clone, Copy, Debug, PartialEq, Eq, Structural)]
pub enum Flavor {
    Unknown,
    Server2012,
    Windows7,
    Windows10,
    Windows11,
    Debian,
    Ubuntu,
    ArchLinux,
    RHEL,
}

impl OperatingSystem {
    /// The textual name, as platform probes report it.
    pub fn name(&self) -> (r: &'static str)
        ensures
            r@ == self.spec_name(),
    {
        proof {
            reveal_strlit("Unknown");
            reveal_strlit("Windows");
            reveal_strlit("Linux");
        }
        match self {
            OperatingSystem::Unknown => "Unknown",
            OperatingSystem::Windows => "Windows",
            OperatingSystem::Linux => "Linux",
        }
    }

    pub open spec fn spec_name(&self) -> Seq<char> {
        match self {
            OperatingSystem::Unknown => "Unknown"@,
            OperatingSystem::Windows => "Windows"@,
            OperatingSystem::Linux => "Linux"@,
        }
    }

    /// Parses a probe's operating-system token; unrecognized input maps
    /// to `Unknown`.
    pub fn from_name(name: &str) -> (r: OperatingSystem)
        ensures
            r == Self::spec_from_name(name@),
    {
        if crate::utils::str_eq(name, "Linux") {
            OperatingSystem::Linux
        } else if crate::utils::str_eq(name, "Windows") {
            OperatingSystem::Windows
        } else {
            OperatingSystem::Unknown
        }
    }

    pub open spec fn spec_from_name(name: Seq<char>) -> OperatingSystem {
        if name == "Linux"@ {
            OperatingSystem::Linux
        } else if name == "Windows"@ {
            OperatingSystem::Windows
        } else {
            OperatingSystem::Unknown
        }
    }
}

/// `{os, os_version, os_flavor}` for one host.
#[derive(Clone, Copy, Debug, PartialEq, Eq, Structural)]
pub struct PlatformInfo {
    pub os: OperatingSystem,
    pub os_version: VersionNumber,
    pub os_flavor: Flavor,
}

impl PlatformInfo {
    pub open spec fn spec_unset(&self) -> bool {
        self.os == OperatingSystem::Unknown
    }

    pub fn new() -> (r: Self)
        ensures
            r.spec_unset(),
            r.os_version == VersionNumber::spec_zero(),
            r.os_flavor == Flavor::Unknown,
    {
        PlatformInfo {
            os: OperatingSystem::Unknown,
            os_version: VersionNumber::zero(),
            os_flavor: Flavor::Unknown,
        }
    }

    /// No bootstrap probe has filled the record in yet.
    pub fn is_unset(&self) -> (r: bool)
        ensures
            r == self.spec_unset(),
    {
        self.os == OperatingSystem::Unknown
    }

    pub fn is_set(&self) -> (r: bool)
        ensures
            r == !self.spec_unset(),
    {
        !(self.os == OperatingSystem::Unknown)
    }

    /// The host runs the given flavor at a version strictly above the one
    /// written in `version`; a version string that does not parse never
    /// matches.
    pub fn is_newer_than(&self, flavor: Flavor, version: &str) -> (r: bool)
        ensures
            r == match crate::version::spec_version_of(version@) {
                Some(v) => self.os_flavor == flavor && self.os_version.spec_newer_than(&v),
                None => false,
            },
    {
        match VersionNumber::from_str(version) {
            Some(v) => self.os_flavor == flavor && self.os_version.is_newer_than(&v),
            None => false,
        }
    }

    /// Like [`Self::is_newer_than`] but also true on an exact match.
    pub fn version_is_same_or_greater_than(&self, flavor: Flavor, version: &str) -> (r: bool)
        ensures
            r == match crate::version::spec_version_of(version@) {
                Some(v) => self.os_flavor == flavor && (self.os_version.spec_newer_than(&v)
                    || self.os_version == v),
                None => false,
            },
    {
        match VersionNumber::from_str(version) {
            Some(v) => self.os_flavor == flavor && self.os_version.is_same_or_newer_than(&v),
            None => false,
        }
    }
}

impl Default for PlatformInfo {
    fn default() -> (r: Self)
        ensures
            r.spec_unset(),
            r.os_version == VersionNumber::spec_zero(),
            r.os_flavor == Flavor::Unknown,
    {
        PlatformInfo::new()
    }
}

} // verus!
