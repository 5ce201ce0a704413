//! The configuration documents: main settings, hosts, and the host
//! templates that hosts may be merged with.
//!
//! Reading and deserializing the files is the embedding application's
//! job; the engine receives the plain values and applies the template
//! merge here.

use vstd::prelude::*;

use crate::enums::HostSetting;
use crate::string_map::{StringMap, ViewClone};

verus! {

/// The main configuration document.
pub struct Configuration {
    pub preferences: Preferences,
    pub display_options: DisplayOptions,
    pub cache_settings: CacheSettings,
}

/// General frontend and editor preferences.
pub struct Preferences {
    pub refresh_hosts_on_start: bool,
    pub use_remote_editor: bool,
    pub sudo_remote_editor: bool,
    pub remote_text_editor: String,
    pub text_editor: String,
    pub terminal: String,
    pub terminal_args: Vec<String>,
}

/// Display options of the main configuration document (distinct from the
/// per-module [`crate::frontend::DisplayOptions`]).
pub struct DisplayOptions {
    pub group_multivalue: bool,
    pub categories: StringMap<Category>,
}

/// Cache behaviour. Durations are in seconds.
#[derive(Clone, Copy, Debug, PartialEq, Eq, Structural)]
pub struct CacheSettings {
    /// Disables cache reads and writes entirely when false.
    pub enable_cache: bool,
    /// Serve an initial value from cache before the fresh value arrives.
    pub provide_initial_value: bool,
    /// Longer validity for entries that predate process start.
    pub initial_value_time_to_live: u64,
    /// Serve from cache whenever an entry is fresh.
    pub prefer_cache: bool,
    /// How long entries stay fresh.
    pub time_to_live: u64,
}

/// One display category.
pub struct Category {
    pub priority: u16,
    pub icon: Option<String>,
    pub color: Option<String>,
    pub command_order: Option<Vec<String>>,
    pub monitor_order: Option<Vec<String>>,
    pub collapsible_commands: Option<Vec<String>>,
}

/// Spec-level contents of a [`Category`].
#[verifier::ext_equal]
pub struct CategoryView {
    pub priority: u16,
    pub icon: Option<Seq<char>>,
    pub color: Option<Seq<char>>,
    pub command_order: Option<Seq<Seq<char>>>,
    pub monitor_order: Option<Seq<Seq<char>>>,
    pub collapsible_commands: Option<Seq<Seq<char>>>,
}

impl View for Category {
    type V = CategoryView;

    open spec fn view(&self) -> CategoryView {
        CategoryView {
            priority: self.priority,
            icon: self.icon.deep_view(),
            color: self.color.deep_view(),
            command_order: self.command_order.deep_view(),
            monitor_order: self.monitor_order.deep_view(),
            collapsible_commands: self.collapsible_commands.deep_view(),
        }
    }
}

/// A monitor's entry in a host or template document.
pub struct MonitorConfig {
    pub version: String,
    pub is_critical: Option<bool>,
    pub settings: StringMap<String>,
}

/// Spec-level contents of a [`MonitorConfig`].
#[verifier::ext_equal]
pub struct MonitorConfigView {
    pub version: Seq<char>,
    pub is_critical: Option<bool>,
    pub settings: Map<Seq<char>, Seq<char>>,
}

impl View for MonitorConfig {
    type V = MonitorConfigView;

    open spec fn view(&self) -> MonitorConfigView {
        MonitorConfigView {
            version: self.version@,
            is_critical: self.is_critical,
            settings: self.settings@,
        }
    }
}

impl MonitorConfig {
    /// The default version sentinel.
    pub fn default_version() -> (r: String)
        ensures
            r@ == "latest"@,
    {
        "latest".to_owned()
    }
}

impl ViewClone for MonitorConfig {
    fn view_clone(&self) -> (r: Self)
        ensures
            r@ == self@,
    {
        let r = MonitorConfig {
            version: self.version.clone(),
            is_critical: self.is_critical,
            settings: self.settings.view_clone(),
        };
        proof {
            assert(r@ =~= self@);
        }
        r
    }
}

/// A command's entry in a host or template document.
pub struct CommandConfig {
    pub version: String,
    pub settings: StringMap<String>,
}

/// Spec-level contents of a [`CommandConfig`].
#[verifier::ext_equal]
pub struct CommandConfigView {
    pub version: Seq<char>,
    pub settings: Map<Seq<char>, Seq<char>>,
}

impl View for CommandConfig {
    type V = CommandConfigView;

    open spec fn view(&self) -> CommandConfigView {
        CommandConfigView { version: self.version@, settings: self.settings@ }
    }
}

impl CommandConfig {
    /// The default version sentinel.
    pub fn default_version() -> (r: String)
        ensures
            r@ == "latest"@,
    {
        "latest".to_owned()
    }
}

impl ViewClone for CommandConfig {
    fn view_clone(&self) -> (r: Self)
        ensures
            r@ == self@,
    {
        let r = CommandConfig {
            version: self.version.clone(),
            settings: self.settings.view_clone(),
        };
        proof {
            assert(r@ =~= self@);
        }
        r
    }
}

/// A connector's entry in a host or template document.
pub struct ConnectorConfig {
    pub settings: StringMap<String>,
}

/// Spec-level contents of a [`ConnectorConfig`].
#[verifier::ext_equal]
pub struct ConnectorConfigView {
    pub settings: Map<Seq<char>, Seq<char>>,
}

impl View for ConnectorConfig {
    type V = ConnectorConfigView;

    open spec fn view(&self) -> ConnectorConfigView {
        ConnectorConfigView { settings: self.settings@ }
    }
}

impl ViewClone for ConnectorConfig {
    fn view_clone(&self) -> (r: Self)
        ensures
            r@ == self@,
    {
        let r = ConnectorConfig { settings: self.settings.view_clone() };
        proof {
            assert(r@ =~= self@);
        }
        r
    }
}

/// One host's entry in the hosts document, or a template's body in the
/// templates document.
pub struct Host {
    pub templates: Option<Vec<String>>,
    pub address: String,
    pub fqdn: String,
    pub monitors: StringMap<MonitorConfig>,
    pub commands: StringMap<CommandConfig>,
    pub connectors: StringMap<ConnectorConfig>,
    pub settings: Vec<HostSetting>,
}

/// Spec-level contents of a configuration [`Host`].
#[verifier::ext_equal]
pub struct HostView {
    pub templates: Option<Seq<Seq<char>>>,
    pub address: Seq<char>,
    pub fqdn: Seq<char>,
    pub monitors: Map<Seq<char>, MonitorConfigView>,
    pub commands: Map<Seq<char>, CommandConfigView>,
    pub connectors: Map<Seq<char>, ConnectorConfigView>,
    pub settings: Seq<HostSetting>,
}

impl View for Host {
    type V = HostView;

    open spec fn view(&self) -> HostView {
        HostView {
            templates: self.templates.deep_view(),
            address: self.address@,
            fqdn: self.fqdn@,
            monitors: self.monitors@,
            commands: self.commands@,
            connectors: self.connectors@,
            settings: self.settings@,
        }
    }
}

impl Host {
    /// The address used when the hosts document gives none.
    pub fn default_address() -> (r: String)
        ensures
            r@ == "0.0.0.0"@,
    {
        "0.0.0.0".to_owned()
    }

    /// The FQDN used when the hosts document gives none.
    pub fn default_fqdn() -> (r: String)
        ensures
            r@.len() == 0,
    {
        String::new()
    }
}

impl ViewClone for Host {
    fn view_clone(&self) -> (r: Self)
        ensures
            r@ == self@,
    {
        let templates = match &self.templates {
            Some(list) => Some(crate::utils::clone_string_vec(list)),
            None => None,
        };
        let r = Host {
            templates,
            address: self.address.clone(),
            fqdn: self.fqdn.clone(),
            monitors: self.monitors.view_clone(),
            commands: self.commands.view_clone(),
            connectors: self.connectors.view_clone(),
            settings: self.settings.clone(),
        };
        proof {
            assert(r.settings@ =~= self.settings@);
            assert(r@ =~= self@);
        }
        r
    }
}

/// The hosts document.
pub struct Hosts {
    pub hosts: StringMap<Host>,
}

/// The templates document.
pub struct Templates {
    pub templates: StringMap<Host>,
}

/// The template list of a host, empty when none is given.
pub open spec fn spec_template_list(h: HostView) -> Seq<Seq<char>> {
    match h.templates {
        Some(list) => list,
        None => Seq::empty(),
    }
}

impl HostView {
    /// One template merged under a host: on every key both define, the
    /// host's entry wins; template settings come before the host's.
    pub open spec fn spec_merge_under(self, t: HostView) -> HostView {
        HostView {
            templates: self.templates,
            address: self.address,
            fqdn: self.fqdn,
            monitors: t.monitors.union_prefer_right(self.monitors),
            commands: t.commands.union_prefer_right(self.commands),
            connectors: t.connectors.union_prefer_right(self.connectors),
            settings: t.settings + self.settings,
        }
    }
}

/// A host with its template list applied, last listed template first,
/// each merged under what has accumulated so far.
pub open spec fn spec_apply_templates(
    h: HostView,
    ts: Map<Seq<char>, HostView>,
    list: Seq<Seq<char>>,
) -> HostView
    decreases list.len(),
{
    if list.len() == 0 {
        h
    } else {
        spec_apply_templates(h.spec_merge_under(ts[list.last()]), ts, list.drop_last())
    }
}

/// Template application never overrides what the host defines itself:
/// for every key the host's own monitor, command or connector entry is
/// kept, and address and FQDN stay the host's.
pub proof fn lemma_template_merge_host_wins(
    h: HostView,
    ts: Map<Seq<char>, HostView>,
    list: Seq<Seq<char>>,
    k: Seq<char>,
)
    ensures
        spec_apply_templates(h, ts, list).address == h.address,
        spec_apply_templates(h, ts, list).fqdn == h.fqdn,
        h.monitors.contains_key(k) ==> spec_apply_templates(h, ts, list).monitors.contains_key(k)
            && spec_apply_templates(h, ts, list).monitors[k] == h.monitors[k],
        h.commands.contains_key(k) ==> spec_apply_templates(h, ts, list).commands.contains_key(k)
            && spec_apply_templates(h, ts, list).commands[k] == h.commands[k],
        h.connectors.contains_key(k) ==> spec_apply_templates(h, ts, list).connectors.contains_key(
            k,
        ) && spec_apply_templates(h, ts, list).connectors[k] == h.connectors[k],
    decreases list.len(),
{
    if list.len() > 0 {
        lemma_template_merge_host_wins(h.spec_merge_under(ts[list.last()]), ts, list.drop_last(), k);
    }
}

/// Every template named by any host exists in the templates document.
pub open spec fn spec_all_templates_present(
    hosts: Map<Seq<char>, HostView>,
    ts: Map<Seq<char>, HostView>,
) -> bool {
    forall|k: Seq<char>|
        hosts.contains_key(k) ==> (forall|i: int|
            0 <= i < spec_template_list(hosts[k]).len() ==> ts.contains_key(
                #[trigger] spec_template_list(hosts[k])[i],
            ))
}

/// Every host of the map, with its templates applied.
pub open spec fn spec_hosts_applied(
    hosts: Map<Seq<char>, HostView>,
    ts: Map<Seq<char>, HostView>,
) -> Map<Seq<char>, HostView> {
    Map::new(
        |k: Seq<char>| hosts.contains_key(k),
        |k: Seq<char>| spec_apply_templates(hosts[k], ts, spec_template_list(hosts[k])),
    )
}

impl Host {
    /// This host with its template list applied. Fails exactly when a
    /// listed template is missing from the templates document.
    pub fn with_templates_applied(&self, templates: &Templates) -> (r: Result<Host, String>)
        ensures
            match r {
                Ok(h) => h@ == spec_apply_templates(
                    self@,
                    templates.templates@,
                    spec_template_list(self@),
                ) && (forall|i: int|
                    0 <= i < spec_template_list(self@).len() ==> templates.templates@.contains_key(
                        #[trigger] spec_template_list(self@)[i],
                    )),
                Err(_) => exists|i: int|
                    0 <= i < spec_template_list(self@).len()
                        && !templates.templates@.contains_key(
                        #[trigger] spec_template_list(self@)[i],
                    ),
            },
    {
        let ghost tmap = templates.templates@;
        let mut merged = self.view_clone();
        let list = match &self.templates {
            None => {
                return Ok(merged);
            },
            Some(list) => list,
        };
        let ghost lview = list.deep_view();
        proof {
            assert(lview =~= spec_template_list(self@));
            assert(lview.take(list@.len() as int) =~= lview);
        }
        let n = list.len();
        let mut idx: usize = n;
        while idx > 0
            invariant
                0 <= idx <= n,
                n == list@.len(),
                lview == list.deep_view(),
                lview == spec_template_list(self@),
                tmap == templates.templates@,
                spec_apply_templates(merged@, tmap, lview.take(idx as int))
                    == spec_apply_templates(self@, tmap, lview),
                forall|j: int| idx <= j < n ==> tmap.contains_key(#[trigger] lview[j]),
            decreases idx,
        {
            idx -= 1;
            proof {
                assert(lview[idx as int] == list@[idx as int]@);
            }
            let tid = &list[idx];
            match templates.templates.get(tid.as_str()) {
                None => {
                    return Err("No such template".to_owned());
                },
                Some(t) => {
                    let ghost before = merged@;
                    let mut monitors = t.monitors.view_clone();
                    let mut commands = t.commands.view_clone();
                    let mut connectors = t.connectors.view_clone();
                    let mut settings = t.settings.clone();
                    proof {
                        assert(settings@ =~= t.settings@);
                    }
                    let Host {
                        templates: mt,
                        address,
                        fqdn,
                        monitors: hm,
                        commands: hc,
                        connectors: hcon,
                        settings: mut hs,
                    } = merged;
                    monitors.extend_with(hm);
                    commands.extend_with(hc);
                    connectors.extend_with(hcon);
                    settings.append(&mut hs);
                    merged = Host {
                        templates: mt,
                        address,
                        fqdn,
                        monitors,
                        commands,
                        connectors,
                        settings,
                    };
                    proof {
                        assert(merged@ =~= before.spec_merge_under(t@));
                        assert(lview.take(idx as int + 1).drop_last() =~= lview.take(idx as int));
                        assert(lview.take(idx as int + 1).last() == lview[idx as int]);
                        assert(spec_apply_templates(before, tmap, lview.take(idx as int + 1))
                            == spec_apply_templates(merged@, tmap, lview.take(idx as int)));
                    }
                },
            }
        }
        proof {
            assert(lview.take(0) =~= Seq::<Seq<char>>::empty());
            assert(spec_apply_templates(merged@, tmap, lview.take(0)) == merged@);
        }
        Ok(merged)
    }
}

impl Hosts {
    /// Applies the templates document to every host. On failure (a host
    /// names a template that does not exist) the hosts are unchanged.
    pub fn apply_templates(&mut self, templates: &Templates) -> (r: Result<(), String>)
        ensures
            match r {
                Ok(_) => final(self).hosts@ == spec_hosts_applied(
                    old(self).hosts@,
                    templates.templates@,
                ) && spec_all_templates_present(old(self).hosts@, templates.templates@),
                Err(_) => final(self).hosts@ == old(self).hosts@ && !spec_all_templates_present(
                    old(self).hosts@,
                    templates.templates@,
                ),
            },
    {
        proof {
            use_type_invariant(&self.hosts);
        }
        let ghost hmap = self.hosts@;
        let ghost hseq = self.hosts.entry_seq();
        let ghost tmap = templates.templates@;
        let n = self.hosts.len();
        let mut out: StringMap<Host> = StringMap::new();
        let mut i: usize = 0;
        while i < n
            invariant
                0 <= i <= n,
                n == hseq.len(),
                self.hosts.wf(),
                hmap == self.hosts@,
                hseq == self.hosts.entry_seq(),
                tmap == templates.templates@,
                forall|k: Seq<char>|
                    out@.contains_key(k) <==> exists|j: int| 0 <= j < i && hseq[j].0@ == k,
                forall|j: int|
                    0 <= j < i ==> out@.contains_key(#[trigger] hseq[j].0@) && out@[hseq[j].0@]
                        == spec_apply_templates(hseq[j].1@, tmap, spec_template_list(hseq[j].1@)),
                forall|j: int, l: int|
                    0 <= j < i && 0 <= l < spec_template_list(#[trigger] hseq[j].1@).len()
                        ==> tmap.contains_key(#[trigger] spec_template_list(hseq[j].1@)[l]),
            decreases n - i,
        {
            let key = self.hosts.key_at(i).clone();
            let value = self.hosts.value_at(i);
            let merged = match value.with_templates_applied(templates) {
                Ok(m) => m,
                Err(e) => {
                    proof {
                        self.hosts.lemma_entry_at(i as int);
                    }
                    return Err(e);
                },
            };
            out.insert(key, merged);
            proof {
                assert forall|j: int| 0 <= j < i implies hseq[j].0@ != hseq[i as int].0@ by {
                    self.hosts.lemma_keys_distinct(j, i as int);
                }
            }
            i += 1;
        }
        let ghost target = spec_hosts_applied(hmap, tmap);
        proof {
            assert forall|k: Seq<char>| #[trigger] out@.contains_key(k) == target.contains_key(
                k,
            ) by {
                if out@.contains_key(k) {
                    let j = choose|j: int| 0 <= j < n && hseq[j].0@ == k;
                    self.hosts.lemma_entry_at(j);
                }
                if hmap.contains_key(k) {
                    self.hosts.lemma_key_has_entry(k);
                }
            }
            assert forall|k: Seq<char>| #[trigger] out@.contains_key(k) implies out@[k]
                == target[k] by {
                let j = choose|j: int| 0 <= j < n && hseq[j].0@ == k;
                self.hosts.lemma_entry_at(j);
            }
            assert(out@ =~= target);
            assert forall|k: Seq<char>| hmap.contains_key(k) implies (forall|l: int|
                0 <= l < spec_template_list(hmap[k]).len() ==> tmap.contains_key(
                    #[trigger] spec_template_list(hmap[k])[l],
                )) by {
                self.hosts.lemma_key_has_entry(k);
                let j = choose|j: int| 0 <= j < n && hseq[j].0@ == k;
                self.hosts.lemma_entry_at(j);
            }
        }
        self.hosts = out;
        Ok(())
    }
}

} // verus!
