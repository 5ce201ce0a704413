//! The runtime record of one managed machine.

use vstd::prelude::*;

use crate::enums::HostSetting;
use crate::platform_info::PlatformInfo;

verus! {

/// A managed remote (or local) machine, identified by a stable name.
/// Created from configuration; platform info is filled in later by a
/// bootstrap probe.
pub struct Host {
    pub name: String,
    pub address: String,
    pub fqdn: String,
    pub platform: PlatformInfo,
    pub settings: Vec<HostSetting>,
    pub groups: Vec<String>,
}

/// Spec-level contents of a [`Host`].
#[verifier::ext_equal]
pub struct HostView {
    pub name: Seq<char>,
    pub address: Seq<char>,
    pub fqdn: Seq<char>,
    pub platform: PlatformInfo,
    pub settings: Seq<HostSetting>,
    pub groups: Seq<Seq<char>>,
}

impl View for Host {
    type V = HostView;

    open spec fn view(&self) -> HostView {
        HostView {
            name: self.name@,
            address: self.address@,
            fqdn: self.fqdn@,
            platform: self.platform,
            settings: self.settings@,
            groups: self.groups.deep_view(),
        }
    }
}

impl Host {
    pub fn new(name: String, address: String, fqdn: String) -> (r: Host)
        ensures
            r@.name == name@,
            r@.address == address@,
            r@.fqdn == fqdn@,
            r@.platform.spec_unset(),
            r@.settings.len() == 0,
            r@.groups.len() == 0,
    {
        Host {
            name,
            address,
            fqdn,
            platform: PlatformInfo::new(),
            settings: Vec::new(),
            groups: Vec::new(),
        }
    }

    /// Whether a behaviour flag is set for this host.
    pub fn has_setting(&self, setting: HostSetting) -> (r: bool)
        ensures
            r == self@.settings.contains(setting),
    {
        let n = self.settings.len();
        let mut i: usize = 0;
        while i < n
            invariant
                0 <= i <= n,
                n == self@.settings.len(),
                forall|j: int| 0 <= j < i ==> self@.settings[j] != setting,
            decreases n - i,
        {
            if self.settings[i] == setting {
                return true;
            }
            i += 1;
        }
        false
    }
}

impl Clone for Host {
    fn clone(&self) -> (r: Self)
        ensures
            r@ == self@,
    {
        let settings = self.settings.clone();
        let groups = crate::utils::clone_string_vec(&self.groups);
        proof {
            assert(settings@ =~= self.settings@);
            assert(groups.deep_view() =~= self.groups.deep_view());
        }
        let r = Host {
            name: self.name.clone(),
            address: self.address.clone(),
            fqdn: self.fqdn.clone(),
            platform: self.platform,
            settings,
            groups,
        };
        proof {
            assert(r@ =~= self@);
        }
        r
    }
}

} // verus!
