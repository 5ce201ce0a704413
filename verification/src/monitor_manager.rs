//! The monitor manager: schedules monitor refreshes, chains extension
//! modules after their base, and turns connector results into state
//! updates.
//!
//! Every accepted refresh assigns one invocation id per base monitor,
//! in one contiguous ascending block; ids begin at one, and id zero is
//! reserved for bootstrap platform probes. Requests and state updates
//! are accumulated in outboxes that the embedding application drains.

use vstd::prelude::*;

use crate::configuration::{CacheSettings, Hosts, MonitorConfigView};
use crate::connection_manager::{
    ConnectorRequest, ConnectorRequestView, MonitorRequestContext, MonitorRequestContextView,
    RequestContext, RequestContextView,
};
use crate::data_point::{DataPoint, DataPointView, ErrorMessage, ErrorMessageView};
use crate::enums::{CachePolicy, Criticality, RequestType};
use crate::host::{Host, HostView};
use crate::host_manager::{StateUpdateMessage, StateUpdateMessageView};
use crate::module_factory::{spec_monitor_of, ModuleFactory};
use crate::module_spec::{ModuleSpecification, ModuleSpecificationView};
use crate::monitoring::Monitor;
use crate::platform_info::{Flavor, OperatingSystem, PlatformInfo};
use crate::response::{spec_result_view, spec_results_view, ResponseMessage, ResponseMessageView};
use crate::string_map::StringMap;
use crate::version::VersionNumber;

verus! {

/// Invocation id zero marks bootstrap probes; user-facing refreshes
/// count from one.
pub open spec fn spec_bootstrap_invocation_id() -> u64 {
    0
}

/// The cache policy of a plain refresh, when none is given explicitly.
pub open spec fn spec_refresh_policy(settings: CacheSettings) -> CachePolicy {
    if !settings.enable_cache {
        CachePolicy::BypassCache
    } else if settings.prefer_cache {
        CachePolicy::PreferCache
    } else {
        CachePolicy::BypassCache
    }
}

/// The cache policy of a platform-info bootstrap probe.
pub open spec fn spec_platform_policy(
    explicit: Option<CachePolicy>,
    settings: CacheSettings,
) -> CachePolicy {
    match explicit {
        Some(p) => p,
        None => if !settings.enable_cache {
            CachePolicy::BypassCache
        } else if settings.provide_initial_value {
            CachePolicy::PreferCache
        } else {
            CachePolicy::BypassCache
        },
    }
}

/// All monitors of a host configuration, keyed by id.
pub open spec fn spec_monitors_of_config(config: Map<Seq<char>, MonitorConfigView>) -> Map<
    Seq<char>,
    Monitor,
> {
    Map::new(
        |id: Seq<char>| config.contains_key(id),
        |id: Seq<char>| spec_monitor_of(id, config[id].settings).unwrap(),
    )
}

/// All ids of a host configuration name known monitors.
pub open spec fn spec_all_monitors_known(config: Map<Seq<char>, MonitorConfigView>) -> bool {
    forall|id: Seq<char>|
        config.contains_key(id) ==> spec_monitor_of(id, #[trigger] config[id].settings) is Some
}

/// The runtime host record built from one hosts-document entry:
/// platform info starts unset.
pub open spec fn spec_runtime_host(name: Seq<char>, hc: crate::configuration::HostView) -> HostView {
    HostView {
        name,
        address: hc.address,
        fqdn: hc.fqdn,
        platform: PlatformInfo {
            os: OperatingSystem::Unknown,
            os_version: VersionNumber::spec_zero(),
            os_flavor: Flavor::Unknown,
        },
        settings: hc.settings,
        groups: Seq::empty(),
    }
}

/// The messages a monitor sends: its single message, since none of these
/// monitors implements the multi-message variant. A non-empty error
/// aborts; the empty error only marks the variant unimplemented.
pub open spec fn spec_monitor_messages(
    m: Monitor,
    host: HostView,
    parent: DataPointView,
) -> Result<Seq<Seq<char>>, Seq<char>> {
    match m.spec_connector_message(host, parent) {
        Ok(msg) => Ok(seq![msg]),
        Err(e) => if e.len() > 0 {
            Err(e)
        } else {
            Ok(Seq::empty())
        },
    }
}

/// The placeholder parent of a fresh chain, stamped with the chain's
/// invocation id.
pub open spec fn spec_stamped_parent(invocation_id: u64) -> DataPointView {
    DataPointView {
        label: Seq::empty(),
        value: Seq::empty(),
        multivalue: Seq::empty(),
        criticality: Criticality::Critical,
        invocation_id,
        is_from_cache: false,
        timestamp: 0,
    }
}

/// What dispatching a chain appends to the request outbox: one request
/// when the first module's message builds, nothing otherwise.
pub open spec fn spec_chain_request(
    chain: Seq<Monitor>,
    host: HostView,
    invocation_id: u64,
    parent: DataPointView,
    errors: Seq<ErrorMessageView>,
    policy: CachePolicy,
) -> Seq<ConnectorRequestView> {
    match spec_monitor_messages(chain[0], host, parent) {
        Ok(messages) => seq![
            ConnectorRequestView {
                connector_spec: Some(
                    ModuleSpecificationView { id: "ssh"@, version: "0.0.1"@ },
                ),
                source_id: chain[0].spec_id(),
                host,
                messages,
                request_type: RequestType::Command,
                response_context: RequestContextView::Monitor(
                    MonitorRequestContextView {
                        chain,
                        invocation_id,
                        parent,
                        errors,
                        cache_policy: policy,
                    },
                ),
                cache_policy: policy,
            },
        ],
        Err(_) => Seq::empty(),
    }
}

/// What dispatching a chain appends to the update outbox: nothing when
/// the first module's message builds, and otherwise - since a refresh
/// must end in a terminal state update - the failed chain's terminal
/// update, carrying the parent data point and the accumulated errors
/// with the message-build error appended.
pub open spec fn spec_chain_failure(
    chain: Seq<Monitor>,
    host: HostView,
    parent: DataPointView,
    errors: Seq<ErrorMessageView>,
) -> Seq<StateUpdateMessageView> {
    match spec_monitor_messages(chain[0], host, parent) {
        Ok(_) => Seq::empty(),
        Err(e) => seq![
            spec_final_update(
                chain[0],
                host,
                parent,
                errors.push(ErrorMessageView { criticality: Criticality::Error, message: e }),
            ),
        ],
    }
}

/// The base monitors (no parent module) of a selection, in order.
pub open spec fn spec_bases(selected: Seq<Monitor>) -> Seq<Monitor>
    decreases selected.len(),
{
    if selected.len() == 0 {
        Seq::empty()
    } else {
        spec_bases(selected.drop_last()) + (if selected.last().spec_parent_id() is None {
            seq![selected.last()]
        } else {
            Seq::<Monitor>::empty()
        })
    }
}

/// The extension monitors of a selection whose parent is the given base,
/// in order.
pub open spec fn spec_extensions_for(selected: Seq<Monitor>, base_id: Seq<char>) -> Seq<Monitor>
    decreases selected.len(),
{
    if selected.len() == 0 {
        Seq::empty()
    } else {
        spec_extensions_for(selected.drop_last(), base_id) + (if selected.last().spec_parent_id()
            == Some(base_id) {
            seq![selected.last()]
        } else {
            Seq::<Monitor>::empty()
        })
    }
}

/// The request chain of one base: the base first, then its extensions.
pub open spec fn spec_chain_for(base: Monitor, selected: Seq<Monitor>) -> Seq<Monitor> {
    seq![base] + spec_extensions_for(selected, base.spec_id())
}

/// What a refresh of the given bases appends to the request outbox.
/// Base `i` carries invocation id `start + 1 + i`.
pub open spec fn spec_refresh_requests(
    bases: Seq<Monitor>,
    selected: Seq<Monitor>,
    host: HostView,
    start: u64,
    policy: CachePolicy,
) -> Seq<ConnectorRequestView>
    decreases bases.len(),
{
    if bases.len() == 0 {
        Seq::empty()
    } else {
        spec_refresh_requests(bases.drop_last(), selected, host, start, policy)
            + spec_chain_request(
            spec_chain_for(bases.last(), selected),
            host,
            (start + bases.len()) as u64,
            spec_stamped_parent((start + bases.len()) as u64),
            Seq::empty(),
            policy,
        )
    }
}

/// What a refresh of the given bases appends to the update outbox: the
/// terminal failure update of every base whose message cannot be built.
pub open spec fn spec_refresh_failures(
    bases: Seq<Monitor>,
    selected: Seq<Monitor>,
    host: HostView,
    start: u64,
) -> Seq<StateUpdateMessageView>
    decreases bases.len(),
{
    if bases.len() == 0 {
        Seq::empty()
    } else {
        spec_refresh_failures(bases.drop_last(), selected, host, start) + spec_chain_failure(
            spec_chain_for(bases.last(), selected),
            host,
            spec_stamped_parent((start + bases.len()) as u64),
            Seq::empty(),
        )
    }
}

/// The initial no-data placeholder emitted for one monitor of one host.
pub open spec fn spec_seed_update(host: Seq<char>, monitor: Monitor) -> StateUpdateMessageView {
    StateUpdateMessageView {
        host_name: host,
        display_options: monitor.spec_display_options(),
        module_spec: ModuleSpecificationView { id: monitor.spec_id(), version: "0.0.1"@ },
        data_point: Some(
            DataPointView {
                label: Seq::empty(),
                value: Seq::empty(),
                multivalue: Seq::empty(),
                criticality: Criticality::NoData,
                invocation_id: 0,
                is_from_cache: false,
                timestamp: 0,
            },
        ),
        command_result: None,
        errors: Seq::empty(),
        stop: false,
    }
}

/// Whether a monitor of a host's collection receives the initial seed:
/// exactly the extension monitors, those that declare a parent module.
/// An extension's own value only arrives at the end of its chain, so it
/// starts with a no-data placeholder; a base monitor does not.
pub open spec fn spec_monitor_is_seeded(
    collection: Map<Seq<char>, Monitor>,
    id: Seq<char>,
) -> bool {
    collection.contains_key(id) && collection[id].spec_parent_id() is Some
}

/// The update is the initial seed of some configured host's seeded
/// monitor.
pub open spec fn spec_seed_of_config(
    hosts: Map<Seq<char>, crate::configuration::HostView>,
    update: StateUpdateMessageView,
) -> bool {
    exists|k: Seq<char>, id: Seq<char>|
        hosts.contains_key(k) && spec_monitor_is_seeded(
            spec_monitors_of_config(hosts[k].monitors),
            id,
        ) && update == spec_seed_update(k, spec_monitors_of_config(hosts[k].monitors)[id])
}

/// The seed of one host's monitor stands somewhere in the list.
pub open spec fn spec_seed_present(
    seeds: Seq<StateUpdateMessage>,
    host: Seq<char>,
    monitor: Monitor,
) -> bool {
    exists|l2: int| 0 <= l2 < seeds.len() && seeds[l2]@ == spec_seed_update(host, monitor)
}

/// The seed of one host's monitor stands in the outbox at or after `lo`.
pub open spec fn spec_seed_emitted(
    outbox: Seq<StateUpdateMessage>,
    lo: int,
    host: Seq<char>,
    monitor: Monitor,
) -> bool {
    exists|j: int| lo <= j < outbox.len() && outbox[j]@ == spec_seed_update(host, monitor)
}

/// The monitors of a selection matching a category, in entry order.
pub open spec fn spec_selected_by_category(
    entries: Seq<(String, Monitor)>,
    category: Seq<char>,
) -> Seq<Monitor>
    decreases entries.len(),
{
    if entries.len() == 0 {
        Seq::empty()
    } else {
        spec_selected_by_category(entries.drop_last(), category) + (if entries.last().1.spec_category()
            == category {
            seq![entries.last().1]
        } else {
            Seq::<Monitor>::empty()
        })
    }
}

/// The monitors of a selection matching a module id, in entry order.
pub open spec fn spec_selected_by_id(entries: Seq<(String, Monitor)>, id: Seq<char>) -> Seq<
    Monitor,
>
    decreases entries.len(),
{
    if entries.len() == 0 {
        Seq::empty()
    } else {
        spec_selected_by_id(entries.drop_last(), id) + (if entries.last().1.spec_id() == id {
            seq![entries.last().1]
        } else {
            Seq::<Monitor>::empty()
        })
    }
}

/// Schedules monitor refreshes and processes their results.
pub struct MonitorManager {
    pub monitors: StringMap<StringMap<Monitor>>,
    pub hosts: StringMap<Host>,
    pub invocation_id_counter: u64,
    pub cache_settings: CacheSettings,
    pub request_outbox: Vec<ConnectorRequest>,
    pub update_outbox: Vec<StateUpdateMessage>,
}

impl MonitorManager {
    /// The monitor entries configured for a host, in insertion order.
    pub open spec fn spec_host_monitor_entries(&self, host: Seq<char>) -> Seq<(String, Monitor)> {
        let j = choose|j: int|
            0 <= j < self.monitors.spec_len() && self.monitors.entry_seq()[j].0@ == host;
        self.monitors.entry_seq()[j].1.entry_seq()
    }

    pub fn new(cache_settings: CacheSettings) -> (r: MonitorManager)
        ensures
            r.monitors@ == Map::<Seq<char>, Map<Seq<char>, Monitor>>::empty(),
            r.hosts@ == Map::<Seq<char>, HostView>::empty(),
            r.invocation_id_counter == 0,
            r.cache_settings == cache_settings,
            r.request_outbox@.len() == 0,
            r.update_outbox@.len() == 0,
    {
        MonitorManager {
            monitors: StringMap::new(),
            hosts: StringMap::new(),
            invocation_id_counter: 0,
            cache_settings,
            request_outbox: Vec::new(),
            update_outbox: Vec::new(),
        }
    }

    /// Refreshes the stored snapshot of one host record, so that later
    /// refreshes see updated platform info.
    pub fn set_host(&mut self, host: Host)
        ensures
            final(self).hosts@ == old(self).hosts@.insert(host@.name, host@),
            final(self).monitors == old(self).monitors,
            final(self).invocation_id_counter == old(self).invocation_id_counter,
            final(self).request_outbox@ == old(self).request_outbox@,
            final(self).update_outbox@ == old(self).update_outbox@,
            final(self).cache_settings == old(self).cache_settings,
    {
        let name = host.name.clone();
        self.hosts.insert(name, host);
    }

    /// Builds the messages of a chain's first module: the single-message
    /// variant, since the multi-message one is unimplemented here.
    fn get_monitor_connector_messages(host: &Host, monitor: &Monitor, parent: &DataPoint) -> (r:
        Result<Vec<String>, String>)
        ensures
            (r is Ok) == (spec_monitor_messages(*monitor, host@, parent@) is Ok),
            r matches Ok(v) ==> v.deep_view() == spec_monitor_messages(
                *monitor,
                host@,
                parent@,
            )->Ok_0,
            r matches Err(e) ==> e@ == spec_monitor_messages(*monitor, host@, parent@)->Err_0,
    {
        let mut all_messages: Vec<String> = Vec::new();
        match monitor.get_connector_messages(host, parent) {
            Ok(mut messages) => {
                all_messages.append(&mut messages);
            },
            Err(error) => {
                if !error.as_str().is_empty() {
                    return Err(error);
                }
            },
        }
        match monitor.get_connector_message(host, parent) {
            Ok(message) => {
                let ghost before = all_messages.deep_view();
                all_messages.push(message);
                proof {
                    assert(all_messages.deep_view() =~= spec_monitor_messages(
                        *monitor,
                        host@,
                        parent@,
                    )->Ok_0);
                }
            },
            Err(error) => {
                if !error.as_str().is_empty() {
                    return Err(error);
                }
                proof {
                    assert(all_messages.deep_view() =~= spec_monitor_messages(
                        *monitor,
                        host@,
                        parent@,
                    )->Ok_0);
                }
            },
        }
        Ok(all_messages)
    }

    /// Dispatches the first module of a chain: builds its messages and
    /// appends one connector request carrying the remaining chain and
    /// the errors accumulated so far. A module that cannot produce a
    /// message ends the chain instead: every refresh must finish in a
    /// terminal state update, so the failure update - the parent data
    /// point, the accumulated errors and the build error - is emitted.
    fn send_connector_request(
        &mut self,
        host: Host,
        chain: Vec<Monitor>,
        invocation_id: u64,
        parent: DataPoint,
        accumulated_errors: Vec<ErrorMessage>,
        cache_policy: CachePolicy,
    )
        requires
            chain@.len() > 0,
        ensures
            final(self).request_outbox.deep_view() == old(self).request_outbox.deep_view()
                + spec_chain_request(
                chain@,
                host@,
                invocation_id,
                parent@,
                accumulated_errors.deep_view(),
                cache_policy,
            ),
            final(self).update_outbox.deep_view() == old(self).update_outbox.deep_view()
                + spec_chain_failure(chain@, host@, parent@, accumulated_errors.deep_view()),
            final(self).monitors == old(self).monitors,
            final(self).hosts == old(self).hosts,
            final(self).invocation_id_counter == old(self).invocation_id_counter,
            final(self).cache_settings == old(self).cache_settings,
    {
        let monitor = chain[0];
        let messages = match Self::get_monitor_connector_messages(&host, &monitor, &parent) {
            Ok(messages) => messages,
            Err(build_error) => {
                let mut errors = accumulated_errors;
                let ghost errors_before = errors.deep_view();
                let record = ErrorMessage::new(Criticality::Error, build_error);
                errors.push(record);
                let update = StateUpdateMessage {
                    host_name: host.name.clone(),
                    display_options: monitor.get_display_options(),
                    module_spec: monitor.get_module_spec(),
                    data_point: Some(parent),
                    command_result: None,
                    errors,
                    stop: false,
                };
                let ghost updatev = update@;
                let ghost updates_before = self.update_outbox.deep_view();
                self.update_outbox.push(update);
                proof {
                    assert(updatev.errors =~= errors_before.push(
                        spec_chain_failure(
                            chain@,
                            host@,
                            updatev.data_point->Some_0,
                            errors_before,
                        )[0].errors.last(),
                    ));
                    assert(updatev =~= spec_chain_failure(
                        chain@,
                        host@,
                        updatev.data_point->Some_0,
                        errors_before,
                    )[0]);
                    assert(self.update_outbox.deep_view() =~= updates_before + spec_chain_failure(
                        chain@,
                        host@,
                        updatev.data_point->Some_0,
                        errors_before,
                    ));
                    assert(self.request_outbox.deep_view() =~= old(self).request_outbox.deep_view()
                        + spec_chain_request(
                        chain@,
                        host@,
                        invocation_id,
                        updatev.data_point->Some_0,
                        errors_before,
                        cache_policy,
                    ));
                }
                return ;
            },
        };
        let connector_spec = monitor.get_connector_spec();
        let source_id = monitor.get_module_spec().id;
        let request = ConnectorRequest {
            connector_spec,
            source_id,
            host,
            messages,
            request_type: RequestType::Command,
            response_context: RequestContext::Monitor(
                MonitorRequestContext {
                    chain,
                    invocation_id,
                    parent,
                    errors: accumulated_errors,
                    cache_policy,
                },
            ),
            cache_policy,
        };
        let ghost requestv = request@;
        let ghost before = self.request_outbox.deep_view();
        self.request_outbox.push(request);
        proof {
            assert(requestv =~= spec_chain_request(
                requestv.response_context->Monitor_0.chain,
                requestv.host,
                invocation_id,
                requestv.response_context->Monitor_0.parent,
                requestv.response_context->Monitor_0.errors,
                cache_policy,
            )[0]);
            assert(self.request_outbox.deep_view() =~= before + spec_chain_request(
                requestv.response_context->Monitor_0.chain,
                requestv.host,
                invocation_id,
                requestv.response_context->Monitor_0.parent,
                requestv.response_context->Monitor_0.errors,
                cache_policy,
            ));
            assert(self.update_outbox.deep_view() =~= old(self).update_outbox.deep_view()
                + spec_chain_failure(
                requestv.response_context->Monitor_0.chain,
                requestv.host,
                requestv.response_context->Monitor_0.parent,
                requestv.response_context->Monitor_0.errors,
            ));
        }
    }

    /// Refreshes a selection of monitors on one host: assigns one fresh
    /// invocation id per base, in one contiguous ascending block, and
    /// dispatches each base's chain (the base, then its extensions, in
    /// selection order).
    fn refresh_monitors(
        &mut self,
        host: Host,
        selected: Vec<Monitor>,
        cache_policy: CachePolicy,
    ) -> (r: Vec<u64>)
        requires
            old(self).invocation_id_counter + selected@.len() <= u64::MAX,
        ensures
            r@.len() == spec_bases(selected@).len(),
            forall|i: int|
                0 <= i < r@.len() ==> r@[i] == old(self).invocation_id_counter + 1 + i,
            final(self).invocation_id_counter == old(self).invocation_id_counter + spec_bases(
                selected@,
            ).len(),
            final(self).request_outbox.deep_view() == old(self).request_outbox.deep_view()
                + spec_refresh_requests(
                spec_bases(selected@),
                selected@,
                host@,
                old(self).invocation_id_counter,
                cache_policy,
            ),
            final(self).update_outbox.deep_view() == old(self).update_outbox.deep_view()
                + spec_refresh_failures(
                spec_bases(selected@),
                selected@,
                host@,
                old(self).invocation_id_counter,
            ),
            final(self).monitors == old(self).monitors,
            final(self).hosts == old(self).hosts,
            final(self).cache_settings == old(self).cache_settings,
    {
        let ghost selectedv = selected@;
        proof {
            lemma_bases_len(selectedv);
        }
        let n = selected.len();
        let mut bases: Vec<Monitor> = Vec::new();
        let mut i: usize = 0;
        proof {
            assert(bases@ =~= spec_bases(selectedv.take(0)));
        }
        while i < n
            invariant
                0 <= i <= n,
                n == selectedv.len(),
                selectedv == selected@,
                bases@ == spec_bases(selectedv.take(i as int)),
            decreases n - i,
        {
            proof {
                assert(selectedv.take(i as int + 1).drop_last() =~= selectedv.take(i as int));
                assert(selectedv.take(i as int + 1).last() == selectedv[i as int]);
            }
            if selected[i].get_parent_module().is_none() {
                bases.push(selected[i]);
                proof {
                    assert(bases@ =~= spec_bases(selectedv.take(i as int + 1)));
                }
            } else {
                proof {
                    assert(bases@ =~= spec_bases(selectedv.take(i as int + 1)));
                }
            }
            i += 1;
        }
        proof {
            assert(selectedv.take(n as int) =~= selectedv);
        }
        let ghost basesv = bases@;
        let start = self.invocation_id_counter;
        let base_count = bases.len();
        let mut ids: Vec<u64> = Vec::new();
        let mut b: usize = 0;
        while b < base_count
            invariant
                0 <= b <= base_count,
                n == selectedv.len(),
                n == selected@.len(),
                base_count == basesv.len(),
                basesv == bases@,
                basesv == spec_bases(selectedv),
                selectedv == selected@,
                start + base_count <= u64::MAX,
                self.invocation_id_counter == start,
                ids@.len() == b,
                forall|k: int| 0 <= k < b ==> ids@[k] == start + 1 + k,
                self.request_outbox.deep_view() == old(self).request_outbox.deep_view()
                    + spec_refresh_requests(
                    basesv.take(b as int),
                    selectedv,
                    host@,
                    start,
                    cache_policy,
                ),
                self.update_outbox.deep_view() == old(self).update_outbox.deep_view()
                    + spec_refresh_failures(basesv.take(b as int), selectedv, host@, start),
                self.monitors == old(self).monitors,
                self.hosts == old(self).hosts,
                self.cache_settings == old(self).cache_settings,
            decreases base_count - b,
        {
            let base = bases[b];
            let invocation_id = start + 1 + (b as u64);
            ids.push(invocation_id);
            // Build the chain: the base, then its extensions in order.
            let mut chain: Vec<Monitor> = Vec::new();
            chain.push(base);
            let base_spec = base.get_module_spec();
            let ghost base_id = base.spec_id();
            let mut j: usize = 0;
            proof {
                assert(chain@ =~= seq![base] + spec_extensions_for(selectedv.take(0), base_id));
            }
            while j < n
                invariant
                    0 <= j <= n,
                    n == selectedv.len(),
                    selectedv == selected@,
                    base_spec.id@ == base_id,
                    base_spec.version@ == "0.0.1"@,
                    chain@ == seq![base] + spec_extensions_for(selectedv.take(j as int), base_id),
                decreases n - j,
            {
                proof {
                    assert(selectedv.take(j as int + 1).drop_last() =~= selectedv.take(j as int));
                    assert(selectedv.take(j as int + 1).last() == selectedv[j as int]);
                }
                match selected[j].get_parent_module() {
                    Some(parent_spec) => {
                        if parent_spec == base_spec {
                            chain.push(selected[j]);
                            proof {
                                assert(chain@ =~= seq![base] + spec_extensions_for(
                                    selectedv.take(j as int + 1),
                                    base_id,
                                ));
                            }
                        } else {
                            proof {
                                assert(chain@ =~= seq![base] + spec_extensions_for(
                                    selectedv.take(j as int + 1),
                                    base_id,
                                ));
                            }
                        }
                    },
                    None => {
                        proof {
                            assert(chain@ =~= seq![base] + spec_extensions_for(
                                selectedv.take(j as int + 1),
                                base_id,
                            ));
                        }
                    },
                }
                j += 1;
            }
            proof {
                assert(selectedv.take(n as int) =~= selectedv);
                assert(chain@ =~= spec_chain_for(base, selectedv));
            }
            let mut parent = DataPoint::empty_and_critical();
            parent.invocation_id = invocation_id;
            proof {
                assert(parent@ =~= spec_stamped_parent(invocation_id));
            }
            let fresh_errors: Vec<ErrorMessage> = Vec::new();
            proof {
                assert(fresh_errors.deep_view() =~= Seq::<ErrorMessageView>::empty());
            }
            self.send_connector_request(
                host.clone(),
                chain,
                invocation_id,
                parent,
                fresh_errors,
                cache_policy,
            );
            proof {
                assert(basesv.take(b as int + 1).drop_last() =~= basesv.take(b as int));
                assert(basesv.take(b as int + 1).last() == basesv[b as int]);
                assert(basesv.take(b as int + 1).len() == b + 1);
                assert(self.request_outbox.deep_view() =~= old(self).request_outbox.deep_view()
                    + spec_refresh_requests(
                    basesv.take(b as int + 1),
                    selectedv,
                    host@,
                    start,
                    cache_policy,
                ));
                assert(self.update_outbox.deep_view() =~= old(self).update_outbox.deep_view()
                    + spec_refresh_failures(basesv.take(b as int + 1), selectedv, host@, start));
            }
            b += 1;
        }
        proof {
            assert(basesv.take(base_count as int) =~= basesv);
        }
        self.invocation_id_counter = start + (base_count as u64);
        ids
    }
}


/// Per-message errors of a result sequence, in order.
pub open spec fn spec_errors_of(results: Seq<Result<ResponseMessageView, Seq<char>>>) -> Seq<
    ErrorMessageView,
>
    decreases results.len(),
{
    if results.len() == 0 {
        Seq::empty()
    } else {
        spec_errors_of(results.drop_last()) + (match results.last() {
            Err(e) => seq![ErrorMessageView { criticality: Criticality::Error, message: e }],
            Ok(_) => Seq::<ErrorMessageView>::empty(),
        })
    }
}

/// The successful responses of a result sequence, in order.
pub open spec fn spec_responses_of(results: Seq<Result<ResponseMessageView, Seq<char>>>) -> Seq<
    ResponseMessageView,
>
    decreases results.len(),
{
    if results.len() == 0 {
        Seq::empty()
    } else {
        spec_responses_of(results.drop_last()) + (match results.last() {
            Ok(m) => seq![m],
            Err(_) => Seq::<ResponseMessageView>::empty(),
        })
    }
}

/// Some response is the cache's silent-miss sentinel.
pub open spec fn spec_any_not_found(responses: Seq<ResponseMessageView>) -> bool {
    exists|i: int| 0 <= i < responses.len() && responses[i].not_found
}

/// What processing the front module of a chain yields. With no messages
/// at all the module sees an empty response; otherwise the first
/// successful response decides (the multi-response variant is
/// unimplemented here) and the data point inherits its cache mark; with
/// only errors, the empty error stands for "nothing to process".
pub open spec fn spec_chain_outcome(
    monitor: Monitor,
    host: HostView,
    results_len: int,
    responses: Seq<ResponseMessageView>,
    parent: DataPointView,
) -> Result<DataPointView, Seq<char>> {
    if results_len == 0 {
        monitor.spec_process_response(host, Seq::empty(), 0, parent)
    } else if responses.len() > 0 {
        match monitor.spec_process_response(
            host,
            responses[0].message,
            responses[0].return_code,
            parent,
        ) {
            Ok(dp) => Ok(DataPointView { is_from_cache: responses[0].is_from_cache, ..dp }),
            Err(e) => Err(e),
        }
    } else {
        Err(Seq::empty())
    }
}

/// The data point a chain step hands on: the produced point stamped with
/// the invocation id, or - on failure - the parent point unchanged.
pub open spec fn spec_final_point(
    outcome: Result<DataPointView, Seq<char>>,
    parent: DataPointView,
    invocation_id: u64,
) -> DataPointView {
    match outcome {
        Ok(dp) => DataPointView { invocation_id, ..dp },
        Err(_) => parent,
    }
}

/// The errors carried into the state update: the transport errors, plus
/// the module's own error when it is not the empty sentinel.
pub open spec fn spec_final_errors(
    outcome: Result<DataPointView, Seq<char>>,
    errors: Seq<ErrorMessageView>,
) -> Seq<ErrorMessageView> {
    match outcome {
        Ok(_) => errors,
        Err(e) => if e.len() > 0 {
            errors.push(ErrorMessageView { criticality: Criticality::Error, message: e })
        } else {
            errors
        },
    }
}

/// The state update emitted at the end of a chain.
pub open spec fn spec_final_update(
    monitor: Monitor,
    host: HostView,
    point: DataPointView,
    errors: Seq<ErrorMessageView>,
) -> StateUpdateMessageView {
    StateUpdateMessageView {
        host_name: host.name,
        display_options: monitor.spec_display_options(),
        module_spec: ModuleSpecificationView { id: monitor.spec_id(), version: "0.0.1"@ },
        data_point: Some(point),
        command_result: None,
        errors,
        stop: false,
    }
}

proof fn lemma_selected_by_category_len(entries: Seq<(String, Monitor)>, category: Seq<char>)
    ensures
        spec_selected_by_category(entries, category).len() <= entries.len(),
    decreases entries.len(),
{
    if entries.len() > 0 {
        lemma_selected_by_category_len(entries.drop_last(), category);
    }
}

proof fn lemma_selected_by_id_len(entries: Seq<(String, Monitor)>, id: Seq<char>)
    ensures
        spec_selected_by_id(entries, id).len() <= entries.len(),
    decreases entries.len(),
{
    if entries.len() > 0 {
        lemma_selected_by_id_len(entries.drop_last(), id);
    }
}

impl MonitorManager {
    /// Instantiates the configured monitors of every host and stores the
    /// runtime host records; exactly the extension monitors - those with
    /// a parent module - are seeded with an initial no-data state update
    /// (see [`spec_monitor_is_seeded`]).
    /// Fails, changing nothing, when a monitor id is unknown.
    pub fn configure(&mut self, hosts_config: &Hosts) -> (r: Result<(), String>)
        ensures
            final(self).invocation_id_counter == old(self).invocation_id_counter,
            final(self).cache_settings == old(self).cache_settings,
            final(self).request_outbox@ == old(self).request_outbox@,
            match r {
                Ok(_) => {
                    &&& (forall|k: Seq<char>|
                        hosts_config.hosts@.contains_key(k) ==> spec_all_monitors_known(
                            #[trigger] hosts_config.hosts@[k].monitors,
                        ))
                    &&& final(self).monitors@ == Map::new(
                        |k: Seq<char>| hosts_config.hosts@.contains_key(k),
                        |k: Seq<char>| spec_monitors_of_config(hosts_config.hosts@[k].monitors),
                    )
                    &&& final(self).hosts@ == Map::new(
                        |k: Seq<char>| hosts_config.hosts@.contains_key(k),
                        |k: Seq<char>| spec_runtime_host(k, hosts_config.hosts@[k]),
                    )
                    &&& final(self).update_outbox@.len() >= old(self).update_outbox@.len()
                    &&& final(self).update_outbox@.take(old(self).update_outbox@.len() as int)
                        == old(self).update_outbox@
                    &&& (forall|j: int|
                        old(self).update_outbox@.len() <= j < final(self).update_outbox@.len()
                            ==> #[trigger] spec_seed_of_config(
                            hosts_config.hosts@,
                            final(self).update_outbox@[j]@,
                        ))
                    &&& (forall|k: Seq<char>, id: Seq<char>|
                        #![trigger spec_monitor_is_seeded(
                            spec_monitors_of_config(hosts_config.hosts@[k].monitors),
                            id,
                        )]
                        hosts_config.hosts@.contains_key(k) && spec_monitor_is_seeded(
                            spec_monitors_of_config(hosts_config.hosts@[k].monitors),
                            id,
                        ) ==> spec_seed_emitted(
                            final(self).update_outbox@,
                            old(self).update_outbox@.len() as int,
                            k,
                            spec_monitors_of_config(hosts_config.hosts@[k].monitors)[id],
                        ))
                },
                Err(e) => {
                    &&& e@ == "Unknown module"@
                    &&& exists|k: Seq<char>|
                        hosts_config.hosts@.contains_key(k) && !spec_all_monitors_known(
                            #[trigger] hosts_config.hosts@[k].monitors,
                        )
                    &&& final(self).monitors == old(self).monitors
                    &&& final(self).hosts == old(self).hosts
                    &&& final(self).update_outbox@ == old(self).update_outbox@
                },
            },
    {
        proof {
            use_type_invariant(&hosts_config.hosts);
        }
        let ghost cfg = hosts_config.hosts@;
        let ghost hseq = hosts_config.hosts.entry_seq();
        let factory = ModuleFactory::new();
        let mut new_monitors: StringMap<StringMap<Monitor>> = StringMap::new();
        let mut new_hosts: StringMap<Host> = StringMap::new();
        let mut seeds: Vec<StateUpdateMessage> = Vec::new();
        let n = hosts_config.hosts.len();
        let mut i: usize = 0;
        while i < n
            invariant
                0 <= i <= n,
                n == hseq.len(),
                hosts_config.hosts.wf(),
                cfg == hosts_config.hosts@,
                hseq == hosts_config.hosts.entry_seq(),
                forall|k: Seq<char>|
                    new_monitors@.contains_key(k) <==> exists|j: int|
                        0 <= j < i && hseq[j].0@ == k,
                forall|k: Seq<char>|
                    new_hosts@.contains_key(k) <==> exists|j: int| 0 <= j < i && hseq[j].0@ == k,
                forall|j: int|
                    0 <= j < i ==> spec_all_monitors_known(#[trigger] hseq[j].1@.monitors)
                        && new_monitors@[hseq[j].0@] == spec_monitors_of_config(hseq[j].1@.monitors)
                        && new_hosts@[hseq[j].0@] == spec_runtime_host(hseq[j].0@, hseq[j].1@),
                forall|l2: int|
                    0 <= l2 < seeds@.len() ==> #[trigger] spec_seed_of_config(cfg, seeds@[l2]@),
                forall|j3: int, id: Seq<char>|
                    #![trigger spec_monitor_is_seeded(
                        spec_monitors_of_config(hseq[j3].1@.monitors),
                        id,
                    )]
                    0 <= j3 < i && spec_monitor_is_seeded(
                        spec_monitors_of_config(hseq[j3].1@.monitors),
                        id,
                    ) ==> spec_seed_present(
                        seeds@,
                        hseq[j3].0@,
                        spec_monitors_of_config(hseq[j3].1@.monitors)[id],
                    ),
            decreases n - i,
        {
            let host_name = hosts_config.hosts.key_at(i).clone();
            let host_config = hosts_config.hosts.value_at(i);
            proof {
                hosts_config.hosts.lemma_entry_at(i as int);
            }
            let host = Host {
                name: host_name.clone(),
                address: host_config.address.clone(),
                fqdn: host_config.fqdn.clone(),
                platform: PlatformInfo::new(),
                settings: host_config.settings.clone(),
                groups: Vec::new(),
            };
            proof {
                assert(host.settings@ =~= host_config.settings@);
                assert(host@ =~= spec_runtime_host(host_name@, host_config@));
                use_type_invariant(&host_config.monitors);
            }
            let ghost mseq = host_config.monitors.entry_seq();
            let ghost mcfg = host_config.monitors@;
            let mut collection: StringMap<Monitor> = StringMap::new();
            let m = host_config.monitors.len();
            let mut j: usize = 0;
            while j < m
                invariant
                    0 <= j <= m,
                    m == mseq.len(),
                    host_config.monitors.wf(),
                    mseq == host_config.monitors.entry_seq(),
                    mcfg == host_config.monitors@,
                    cfg == hosts_config.hosts@,
                    cfg.contains_key(host_name@),
                    cfg[host_name@].monitors == mcfg,
                    forall|k: Seq<char>|
                        collection@.contains_key(k) <==> exists|l: int|
                            0 <= l < j && mseq[l].0@ == k,
                    forall|l: int|
                        0 <= l < j ==> spec_monitor_of(
                            #[trigger] mseq[l].0@,
                            mseq[l].1@.settings,
                        ) is Some && collection@[mseq[l].0@] == spec_monitor_of(
                            mseq[l].0@,
                            mseq[l].1@.settings,
                        ).unwrap(),
                decreases m - j,
            {
                let monitor_id = host_config.monitors.key_at(j).clone();
                let monitor_config = host_config.monitors.value_at(j);
                proof {
                    host_config.monitors.lemma_entry_at(j as int);
                }
                let monitor_spec = ModuleSpecification::new(
                    monitor_id.as_str(),
                    monitor_config.version.as_str(),
                );
                let monitor = match factory.new_monitor(&monitor_spec, &monitor_config.settings) {
                    Ok(monitor) => monitor,
                    Err(e) => {
                        proof {
                            assert(cfg.contains_key(host_name@));
                            assert(cfg[host_name@].monitors == mcfg);
                            assert(mcfg.contains_key(mseq[j as int].0@));
                            assert(mcfg[mseq[j as int].0@].settings == mseq[j as int].1@.settings);
                            assert(spec_monitor_of(
                                mseq[j as int].0@,
                                mcfg[mseq[j as int].0@].settings,
                            ) is None);
                            assert(!spec_all_monitors_known(cfg[host_name@].monitors));
                        }
                        return Err(e);
                    },
                };
                collection.insert(monitor_id, monitor);
                proof {
                    assert forall|l: int, l2: int|
                        0 <= l < l2 < mseq.len() implies mseq[l].0@ != mseq[l2].0@ by {
                        host_config.monitors.lemma_keys_distinct(l, l2);
                    }
                }
                j += 1;
            }
            let ghost target_collection = spec_monitors_of_config(mcfg);
            proof {
                assert forall|k: Seq<char>| #[trigger] collection@.contains_key(k)
                    == target_collection.contains_key(k) by {
                    if collection@.contains_key(k) {
                        let l = choose|l: int| 0 <= l < m && mseq[l].0@ == k;
                        host_config.monitors.lemma_entry_at(l);
                    }
                    if mcfg.contains_key(k) {
                        host_config.monitors.lemma_key_has_entry(k);
                    }
                }
                assert forall|k: Seq<char>| #[trigger] collection@.contains_key(k)
                    implies collection@[k] == target_collection[k]
                        && spec_monitor_of(k, mcfg[k].settings) is Some by {
                    let l = choose|l: int| 0 <= l < m && mseq[l].0@ == k;
                    host_config.monitors.lemma_entry_at(l);
                }
                assert(collection@ =~= target_collection);
                assert(spec_all_monitors_known(mcfg)) by {
                    assert forall|id: Seq<char>|
                        mcfg.contains_key(id) implies spec_monitor_of(
                        id,
                        #[trigger] mcfg[id].settings,
                    ) is Some by {
                        assert(collection@.contains_key(id));
                    }
                }
            }
            // Seed every extension monitor - those declaring a parent
            // module - with an initial no-data state update.
            let ghost centries = collection.entry_seq();
            let ghost colv = collection@;
            proof {
                use_type_invariant(&collection);
                assert(mcfg == hseq[i as int].1@.monitors);
                assert(host_name@ == hseq[i as int].0@);
            }
            let c = collection.len();
            let mut j2: usize = 0;
            while j2 < c
                invariant
                    0 <= j2 <= c,
                    0 <= i < n,
                    n == hseq.len(),
                    c == centries.len(),
                    collection.wf(),
                    centries == collection.entry_seq(),
                    colv == collection@,
                    colv == spec_monitors_of_config(mcfg),
                    mcfg == hseq[i as int].1@.monitors,
                    host_name@ == hseq[i as int].0@,
                    cfg.contains_key(host_name@),
                    cfg[host_name@] == hseq[i as int].1@,
                    forall|l2: int|
                        0 <= l2 < seeds@.len() ==> #[trigger] spec_seed_of_config(
                            cfg,
                            seeds@[l2]@,
                        ),
                    forall|j3: int, id: Seq<char>|
                        #![trigger spec_monitor_is_seeded(
                            spec_monitors_of_config(hseq[j3].1@.monitors),
                            id,
                        )]
                        0 <= j3 < i && spec_monitor_is_seeded(
                            spec_monitors_of_config(hseq[j3].1@.monitors),
                            id,
                        ) ==> spec_seed_present(
                            seeds@,
                            hseq[j3].0@,
                            spec_monitors_of_config(hseq[j3].1@.monitors)[id],
                        ),
                    forall|l3: int|
                        0 <= l3 < j2 && spec_monitor_is_seeded(
                            colv,
                            (#[trigger] centries[l3]).0@,
                        ) ==> spec_seed_present(seeds@, host_name@, colv[centries[l3].0@]),
                decreases c - j2,
            {
                let monitor = *collection.value_at(j2);
                let ghost this_key = centries[j2 as int].0@;
                proof {
                    collection.lemma_entry_at(j2 as int);
                    assert(colv.contains_key(this_key));
                    assert(colv[this_key] == monitor);
                }
                let module_spec = monitor.get_module_spec();
                let is_extension = monitor.get_parent_module().is_some();
                proof {
                    assert(is_extension == spec_monitor_is_seeded(colv, this_key));
                }
                if is_extension {
                    let update = StateUpdateMessage {
                        host_name: host_name.clone(),
                        display_options: monitor.get_display_options(),
                        module_spec,
                        data_point: Some(DataPoint::no_data()),
                        command_result: None,
                        errors: Vec::new(),
                        stop: false,
                    };
                    let ghost updatev = update@;
                    let ghost seeds_before = seeds@;
                    seeds.push(update);
                    proof {
                        assert(updatev =~= spec_seed_update(host_name@, colv[this_key]));
                        assert(cfg[host_name@].monitors == mcfg);
                        assert(spec_monitor_is_seeded(
                            spec_monitors_of_config(cfg[host_name@].monitors),
                            this_key,
                        ));
                        assert(spec_seed_of_config(cfg, updatev));
                        assert forall|l2: int| 0 <= l2 < seeds@.len()
                            implies #[trigger] spec_seed_of_config(cfg, seeds@[l2]@) by {
                            if l2 < seeds_before.len() {
                                assert(seeds@[l2] == seeds_before[l2]);
                            } else {
                                assert(seeds@[l2]@ == updatev);
                            }
                        }
                        assert forall|j3: int, id: Seq<char>|
                            #![trigger spec_monitor_is_seeded(
                                spec_monitors_of_config(hseq[j3].1@.monitors),
                                id,
                            )]
                            0 <= j3 < i && spec_monitor_is_seeded(
                                spec_monitors_of_config(hseq[j3].1@.monitors),
                                id,
                            ) implies spec_seed_present(
                            seeds@,
                            hseq[j3].0@,
                            spec_monitors_of_config(hseq[j3].1@.monitors)[id],
                        ) by {
                            let l2 = choose|l2: int|
                                0 <= l2 < seeds_before.len() && seeds_before[l2]@
                                    == spec_seed_update(
                                    hseq[j3].0@,
                                    spec_monitors_of_config(hseq[j3].1@.monitors)[id],
                                );
                            assert(seeds@[l2] == seeds_before[l2]);
                        }
                        assert forall|l3: int|
                            0 <= l3 < j2 + 1 && spec_monitor_is_seeded(
                                colv,
                                (#[trigger] centries[l3]).0@,
                            ) implies spec_seed_present(
                            seeds@,
                            host_name@,
                            colv[centries[l3].0@],
                        ) by {
                            if l3 < j2 {
                                let l2 = choose|l2: int|
                                    0 <= l2 < seeds_before.len() && seeds_before[l2]@
                                        == spec_seed_update(host_name@, colv[centries[l3].0@]);
                                assert(seeds@[l2] == seeds_before[l2]);
                            } else {
                                assert(seeds@[seeds_before.len() as int]@ == spec_seed_update(
                                    host_name@,
                                    colv[this_key],
                                ));
                            }
                        }
                    }
                }
                j2 += 1;
            }
            proof {
                // Every seeded monitor of this host now has its seed: its
                // map key is some entry index, which the loop covered.
                assert forall|id: Seq<char>|
                    spec_monitor_is_seeded(
                        spec_monitors_of_config(mcfg),
                        id,
                    ) implies spec_seed_present(
                    seeds@,
                    hseq[i as int].0@,
                    spec_monitors_of_config(mcfg)[id],
                ) by {
                    collection.lemma_key_has_entry(id);
                    let l3 = choose|l3: int|
                        0 <= l3 < collection.spec_len() && collection.entry_seq()[l3].0@ == id;
                    assert(spec_monitor_is_seeded(colv, centries[l3].0@));
                    assert(spec_seed_present(seeds@, host_name@, colv[centries[l3].0@]));
                }
            }
            new_monitors.insert(host_name.clone(), collection);
            new_hosts.insert(host_name, host);
            proof {
                assert forall|j3: int, l3: int|
                    0 <= j3 < l3 < hseq.len() implies hseq[j3].0@ != hseq[l3].0@ by {
                    hosts_config.hosts.lemma_keys_distinct(j3, l3);
                }
            }
            i += 1;
        }
        proof {
            let target_monitors = Map::new(
                |k: Seq<char>| cfg.contains_key(k),
                |k: Seq<char>| spec_monitors_of_config(cfg[k].monitors),
            );
            let target_hosts = Map::new(
                |k: Seq<char>| cfg.contains_key(k),
                |k: Seq<char>| spec_runtime_host(k, cfg[k]),
            );
            assert forall|k: Seq<char>| #[trigger] new_monitors@.contains_key(k)
                == target_monitors.contains_key(k) by {
                if new_monitors@.contains_key(k) {
                    let j = choose|j: int| 0 <= j < n && hseq[j].0@ == k;
                    hosts_config.hosts.lemma_entry_at(j);
                }
                if cfg.contains_key(k) {
                    hosts_config.hosts.lemma_key_has_entry(k);
                }
            }
            assert forall|k: Seq<char>| #[trigger] new_monitors@.contains_key(k)
                implies new_monitors@[k] == target_monitors[k] by {
                let j = choose|j: int| 0 <= j < n && hseq[j].0@ == k;
                hosts_config.hosts.lemma_entry_at(j);
            }
            assert(new_monitors@ =~= target_monitors);
            assert forall|k: Seq<char>| #[trigger] new_hosts@.contains_key(k)
                == target_hosts.contains_key(k) by {
                if new_hosts@.contains_key(k) {
                    let j = choose|j: int| 0 <= j < n && hseq[j].0@ == k;
                    hosts_config.hosts.lemma_entry_at(j);
                }
                if cfg.contains_key(k) {
                    hosts_config.hosts.lemma_key_has_entry(k);
                }
            }
            assert forall|k: Seq<char>| #[trigger] new_hosts@.contains_key(k)
                implies new_hosts@[k] == target_hosts[k] by {
                let j = choose|j: int| 0 <= j < n && hseq[j].0@ == k;
                hosts_config.hosts.lemma_entry_at(j);
            }
            assert(new_hosts@ =~= target_hosts);
            assert forall|k: Seq<char>| cfg.contains_key(k) implies spec_all_monitors_known(
                #[trigger] cfg[k].monitors,
            ) by {
                hosts_config.hosts.lemma_key_has_entry(k);
                let j = choose|j: int| 0 <= j < n && hseq[j].0@ == k;
                hosts_config.hosts.lemma_entry_at(j);
            }
        }
        self.monitors = new_monitors;
        self.hosts = new_hosts;
        let ghost updates_before = self.update_outbox@;
        let ghost seeds_exec = seeds@;
        self.update_outbox.append(&mut seeds);
        proof {
            assert(self.update_outbox@.take(updates_before.len() as int) =~= updates_before);
            // Every appended update is the seed of some configured host's
            // seeded monitor.
            assert forall|j: int|
                updates_before.len() <= j < self.update_outbox@.len()
                    implies #[trigger] spec_seed_of_config(cfg, self.update_outbox@[j]@) by {
                let l2 = j - updates_before.len();
                assert(self.update_outbox@[j] == seeds_exec[l2]);
                assert(spec_seed_of_config(cfg, seeds_exec[l2]@));
            }
            // Every seeded monitor of every configured host has its seed
            // among the appended updates.
            assert forall|k: Seq<char>, id: Seq<char>|
                #![trigger spec_monitor_is_seeded(spec_monitors_of_config(cfg[k].monitors), id)]
                cfg.contains_key(k) && spec_monitor_is_seeded(
                    spec_monitors_of_config(cfg[k].monitors),
                    id,
                ) implies spec_seed_emitted(
                self.update_outbox@,
                updates_before.len() as int,
                k,
                spec_monitors_of_config(cfg[k].monitors)[id],
            ) by {
                hosts_config.hosts.lemma_key_has_entry(k);
                let j3 = choose|j3: int| 0 <= j3 < n && hseq[j3].0@ == k;
                hosts_config.hosts.lemma_entry_at(j3);
                assert(hseq[j3].1@ == cfg[k]);
                assert(spec_monitor_is_seeded(
                    spec_monitors_of_config(hseq[j3].1@.monitors),
                    id,
                ));
                assert(spec_seed_present(
                    seeds_exec,
                    hseq[j3].0@,
                    spec_monitors_of_config(hseq[j3].1@.monitors)[id],
                ));
                let l2 = choose|l2: int|
                    0 <= l2 < seeds_exec.len() && seeds_exec[l2]@ == spec_seed_update(
                        hseq[j3].0@,
                        spec_monitors_of_config(hseq[j3].1@.monitors)[id],
                    );
                assert(self.update_outbox@[updates_before.len() + l2] == seeds_exec[l2]);
            }
        }
        Ok(())
    }
}


impl MonitorManager {
    /// Looks the host's monitor collection up and relates it to
    /// [`Self::spec_host_monitor_entries`].
    fn host_monitor_collection(&self, host_id: &String) -> (r: Option<&StringMap<Monitor>>)
        ensures
            match r {
                Some(c) => self.monitors@.contains_key(host_id@) && c.entry_seq()
                    == self.spec_host_monitor_entries(host_id@) && c@ == self.monitors@[host_id@],
                None => !self.monitors@.contains_key(host_id@),
            },
    {
        let collection = match self.monitors.get(host_id.as_str()) {
            Some(c) => c,
            None => {
                return None;
            },
        };
        proof {
            use_type_invariant(&self.monitors);
            let i = choose|i: int|
                0 <= i < self.monitors.spec_len() && self.monitors.entry_seq()[i].0@ == host_id@
                    && *collection == self.monitors.entry_seq()[i].1;
            let j = choose|j: int|
                0 <= j < self.monitors.spec_len() && self.monitors.entry_seq()[j].0@ == host_id@;
            if i != j {
                if i < j {
                    self.monitors.lemma_keys_distinct(i, j);
                } else {
                    self.monitors.lemma_keys_distinct(j, i);
                }
            }
        }
        Some(collection)
    }

    /// The host's monitors whose display category matches, in entry
    /// order.
    fn monitors_of_category(collection: &StringMap<Monitor>, category: &String) -> (r: Vec<Monitor>)
        ensures
            r@ == spec_selected_by_category(collection.entry_seq(), category@),
    {
        let ghost entries = collection.entry_seq();
        let n = collection.len();
        let mut selected: Vec<Monitor> = Vec::new();
        let mut i: usize = 0;
        proof {
            assert(selected@ =~= spec_selected_by_category(entries.take(0), category@));
        }
        while i < n
            invariant
                0 <= i <= n,
                n == entries.len(),
                entries == collection.entry_seq(),
                selected@ == spec_selected_by_category(entries.take(i as int), category@),
            decreases n - i,
        {
            proof {
                assert(entries.take(i as int + 1).drop_last() =~= entries.take(i as int));
                assert(entries.take(i as int + 1).last() == entries[i as int]);
            }
            let monitor = *collection.value_at(i);
            let options = monitor.get_display_options();
            if crate::utils::str_eq(options.category.as_str(), category.as_str()) {
                selected.push(monitor);
            }
            proof {
                assert(selected@ =~= spec_selected_by_category(
                    entries.take(i as int + 1),
                    category@,
                ));
            }
            i += 1;
        }
        proof {
            assert(entries.take(n as int) =~= entries);
        }
        selected
    }

    /// The host's monitors with the given module id, in entry order.
    fn monitors_by_id(collection: &StringMap<Monitor>, monitor_id: &String) -> (r: Vec<Monitor>)
        ensures
            r@ == spec_selected_by_id(collection.entry_seq(), monitor_id@),
    {
        let ghost entries = collection.entry_seq();
        let n = collection.len();
        let mut selected: Vec<Monitor> = Vec::new();
        let mut i: usize = 0;
        proof {
            assert(selected@ =~= spec_selected_by_id(entries.take(0), monitor_id@));
        }
        while i < n
            invariant
                0 <= i <= n,
                n == entries.len(),
                entries == collection.entry_seq(),
                selected@ == spec_selected_by_id(entries.take(i as int), monitor_id@),
            decreases n - i,
        {
            proof {
                assert(entries.take(i as int + 1).drop_last() =~= entries.take(i as int));
                assert(entries.take(i as int + 1).last() == entries[i as int]);
            }
            let monitor = *collection.value_at(i);
            let module_spec = monitor.get_module_spec();
            if crate::utils::str_eq(module_spec.id.as_str(), monitor_id.as_str()) {
                selected.push(monitor);
            }
            proof {
                assert(selected@ =~= spec_selected_by_id(entries.take(i as int + 1), monitor_id@));
            }
            i += 1;
        }
        proof {
            assert(entries.take(n as int) =~= entries);
        }
        selected
    }

    /// The host record used for a refresh.
    fn host_record(&self, host_id: &String) -> (r: Host)
        requires
            self.hosts@.contains_key(host_id@),
        ensures
            r@ == self.hosts@[host_id@],
    {
        match self.hosts.get(host_id.as_str()) {
            Some(h) => h.clone(),
            None => {
                proof {
                    assert(false);
                }
                Host::new(String::new(), String::new(), String::new())
            },
        }
    }

    /// Refreshes all monitors of one display category on one host, under
    /// an explicit cache policy. Returns the assigned invocation ids:
    /// one per base monitor, a contiguous ascending block.
    pub fn refresh_monitors_of_category_control(
        &mut self,
        host_id: &String,
        category: &String,
        cache_policy: CachePolicy,
    ) -> (r: Vec<u64>)
        requires
            old(self).monitors@.contains_key(host_id@),
            old(self).hosts@.contains_key(host_id@),
            old(self).invocation_id_counter + old(self).spec_host_monitor_entries(host_id@).len()
                <= u64::MAX,
        ensures
            ({
                let sel = spec_selected_by_category(
                    old(self).spec_host_monitor_entries(host_id@),
                    category@,
                );
                &&& r@.len() == spec_bases(sel).len()
                &&& (forall|i: int|
                    0 <= i < r@.len() ==> r@[i] == old(self).invocation_id_counter + 1 + i)
                &&& final(self).invocation_id_counter == old(self).invocation_id_counter
                    + spec_bases(sel).len()
                &&& final(self).request_outbox.deep_view() == old(self).request_outbox.deep_view()
                    + spec_refresh_requests(
                    spec_bases(sel),
                    sel,
                    old(self).hosts@[host_id@],
                    old(self).invocation_id_counter,
                    cache_policy,
                )
                &&& final(self).update_outbox.deep_view() == old(self).update_outbox.deep_view()
                    + spec_refresh_failures(
                    spec_bases(sel),
                    sel,
                    old(self).hosts@[host_id@],
                    old(self).invocation_id_counter,
                )
            }),
            final(self).monitors == old(self).monitors,
            final(self).hosts == old(self).hosts,
            final(self).cache_settings == old(self).cache_settings,
    {
        let host = self.host_record(host_id);
        let selected = {
            let collection = match self.host_monitor_collection(host_id) {
                Some(c) => c,
                None => {
                    proof {
                        assert(false);
                    }
                    return Vec::new();
                },
            };
            Self::monitors_of_category(collection, category)
        };
        proof {
            lemma_selected_by_category_len(
                self.spec_host_monitor_entries(host_id@),
                category@,
            );
        }
        self.refresh_monitors(host, selected, cache_policy)
    }

    /// Refreshes all monitors of one display category on one host, under
    /// the cache policy the cache settings resolve to.
    pub fn refresh_monitors_of_category(&mut self, host_id: &String, category: &String) -> (r: Vec<
        u64,
    >)
        requires
            old(self).monitors@.contains_key(host_id@),
            old(self).hosts@.contains_key(host_id@),
            old(self).invocation_id_counter + old(self).spec_host_monitor_entries(host_id@).len()
                <= u64::MAX,
        ensures
            ({
                let sel = spec_selected_by_category(
                    old(self).spec_host_monitor_entries(host_id@),
                    category@,
                );
                &&& r@.len() == spec_bases(sel).len()
                &&& (forall|i: int|
                    0 <= i < r@.len() ==> r@[i] == old(self).invocation_id_counter + 1 + i)
                &&& final(self).invocation_id_counter == old(self).invocation_id_counter
                    + spec_bases(sel).len()
                &&& final(self).request_outbox.deep_view() == old(self).request_outbox.deep_view()
                    + spec_refresh_requests(
                    spec_bases(sel),
                    sel,
                    old(self).hosts@[host_id@],
                    old(self).invocation_id_counter,
                    spec_refresh_policy(old(self).cache_settings),
                )
                &&& final(self).update_outbox.deep_view() == old(self).update_outbox.deep_view()
                    + spec_refresh_failures(
                    spec_bases(sel),
                    sel,
                    old(self).hosts@[host_id@],
                    old(self).invocation_id_counter,
                )
            }),
            final(self).monitors == old(self).monitors,
            final(self).hosts == old(self).hosts,
            final(self).cache_settings == old(self).cache_settings,
    {
        let cache_policy = if !self.cache_settings.enable_cache {
            CachePolicy::BypassCache
        } else if self.cache_settings.prefer_cache {
            CachePolicy::PreferCache
        } else {
            CachePolicy::BypassCache
        };
        self.refresh_monitors_of_category_control(host_id, category, cache_policy)
    }

    /// Refreshes one monitor (and, through chaining, its extensions) by
    /// module id.
    pub fn refresh_monitors_by_id(
        &mut self,
        host_id: &String,
        monitor_id: &String,
        cache_policy: CachePolicy,
    ) -> (r: Vec<u64>)
        requires
            old(self).monitors@.contains_key(host_id@),
            old(self).hosts@.contains_key(host_id@),
            old(self).invocation_id_counter + old(self).spec_host_monitor_entries(host_id@).len()
                <= u64::MAX,
        ensures
            ({
                let sel = spec_selected_by_id(
                    old(self).spec_host_monitor_entries(host_id@),
                    monitor_id@,
                );
                &&& r@.len() == spec_bases(sel).len()
                &&& (forall|i: int|
                    0 <= i < r@.len() ==> r@[i] == old(self).invocation_id_counter + 1 + i)
                &&& final(self).invocation_id_counter == old(self).invocation_id_counter
                    + spec_bases(sel).len()
                &&& final(self).request_outbox.deep_view() == old(self).request_outbox.deep_view()
                    + spec_refresh_requests(
                    spec_bases(sel),
                    sel,
                    old(self).hosts@[host_id@],
                    old(self).invocation_id_counter,
                    cache_policy,
                )
                &&& final(self).update_outbox.deep_view() == old(self).update_outbox.deep_view()
                    + spec_refresh_failures(
                    spec_bases(sel),
                    sel,
                    old(self).hosts@[host_id@],
                    old(self).invocation_id_counter,
                )
            }),
            final(self).monitors == old(self).monitors,
            final(self).hosts == old(self).hosts,
            final(self).cache_settings == old(self).cache_settings,
    {
        let host = self.host_record(host_id);
        let selected = {
            let collection = match self.host_monitor_collection(host_id) {
                Some(c) => c,
                None => {
                    proof {
                        assert(false);
                    }
                    return Vec::new();
                },
            };
            Self::monitors_by_id(collection, monitor_id)
        };
        proof {
            lemma_selected_by_id_len(self.spec_host_monitor_entries(host_id@), monitor_id@);
        }
        self.refresh_monitors(host, selected, cache_policy)
    }
}


/// The view of the empty parent data point a bootstrap probe starts from.
pub open spec fn spec_empty_parent() -> DataPointView {
    DataPointView {
        label: Seq::empty(),
        value: Seq::empty(),
        multivalue: Seq::empty(),
        criticality: Criticality::Normal,
        invocation_id: 0,
        is_from_cache: false,
        timestamp: 0,
    }
}

/// The bootstrap probes a full platform refresh enqueues: one per
/// configured host that has monitors and a host record, in
/// configuration order.
pub open spec fn spec_platform_probe_requests(
    entries: Seq<(String, StringMap<Monitor>)>,
    hosts: Map<Seq<char>, HostView>,
    policy: CachePolicy,
) -> Seq<ConnectorRequestView>
    decreases entries.len(),
{
    if entries.len() == 0 {
        Seq::empty()
    } else {
        spec_platform_probe_requests(entries.drop_last(), hosts, policy) + (if hosts.contains_key(
            entries.last().0@,
        ) && entries.last().1.spec_len() > 0 {
            spec_chain_request(
                seq![Monitor::PlatformInfoSsh(crate::monitoring::PlatformInfoSsh {  })],
                hosts[entries.last().0@],
                spec_bootstrap_invocation_id(),
                spec_empty_parent(),
                Seq::empty(),
                policy,
            )
        } else {
            Seq::<ConnectorRequestView>::empty()
        })
    }
}

impl MonitorManager {
    /// Enqueues a bootstrap platform-info probe for one host, carrying
    /// invocation id zero: bootstrap probes never consume an invocation
    /// id. Hosts without monitors, or unknown hosts, are skipped.
    pub fn refresh_platform_info(&mut self, host_id: &String, cache_policy: Option<CachePolicy>)
        ensures
            final(self).invocation_id_counter == old(self).invocation_id_counter,
            final(self).monitors == old(self).monitors,
            final(self).hosts == old(self).hosts,
            final(self).update_outbox.deep_view() == old(self).update_outbox.deep_view(),
            final(self).cache_settings == old(self).cache_settings,
            ({
                let policy = spec_platform_policy(cache_policy, old(self).cache_settings);
                if old(self).monitors@.contains_key(host_id@) && old(self).hosts@.contains_key(
                    host_id@,
                ) && old(self).spec_host_monitor_entries(host_id@).len() > 0 {
                    final(self).request_outbox.deep_view() == old(self).request_outbox.deep_view()
                        + spec_chain_request(
                        seq![
                            Monitor::PlatformInfoSsh(
                                crate::monitoring::PlatformInfoSsh {  },
                            ),
                        ],
                        old(self).hosts@[host_id@],
                        spec_bootstrap_invocation_id(),
                        spec_empty_parent(),
                        Seq::empty(),
                        policy,
                    )
                } else {
                    final(self).request_outbox@ == old(self).request_outbox@
                }
            }),
    {
        let policy = match cache_policy {
            Some(p) => p,
            None => if !self.cache_settings.enable_cache {
                CachePolicy::BypassCache
            } else if self.cache_settings.provide_initial_value {
                CachePolicy::PreferCache
            } else {
                CachePolicy::BypassCache
            },
        };
        let has_monitors = {
            match self.host_monitor_collection(host_id) {
                Some(c) => c.len() > 0,
                None => {
                    return ;
                },
            }
        };
        if !has_monitors {
            return ;
        }
        let host = match self.hosts.get(host_id.as_str()) {
            Some(h) => h.clone(),
            None => {
                return ;
            },
        };
        let probe = Monitor::PlatformInfoSsh(crate::monitoring::PlatformInfoSsh {});
        let mut chain: Vec<Monitor> = Vec::new();
        chain.push(probe);
        let parent = DataPoint::empty();
        let fresh_errors: Vec<ErrorMessage> = Vec::new();
        proof {
            assert(parent@ =~= spec_empty_parent());
            assert(chain@ =~= seq![probe]);
            assert(fresh_errors.deep_view() =~= Seq::<ErrorMessageView>::empty());
        }
        self.send_connector_request(host, chain, 0, parent, fresh_errors, policy);
        proof {
            // The platform probe always builds its message, so no failure
            // update is emitted here.
            assert(self.update_outbox.deep_view() =~= old(self).update_outbox.deep_view());
        }
    }

    /// Enqueues bootstrap platform-info probes for every configured
    /// host, and returns the host ids in configuration order.
    pub fn refresh_platform_info_all(&mut self, cache_policy: Option<CachePolicy>) -> (r: Vec<
        String,
    >)
        ensures
            final(self).invocation_id_counter == old(self).invocation_id_counter,
            final(self).monitors == old(self).monitors,
            final(self).hosts == old(self).hosts,
            final(self).update_outbox.deep_view() == old(self).update_outbox.deep_view(),
            final(self).cache_settings == old(self).cache_settings,
            r.deep_view().len() == old(self).monitors.spec_len(),
            forall|i: int|
                0 <= i < r.deep_view().len() ==> r.deep_view()[i]
                    == old(self).monitors.entry_seq()[i].0@,
            final(self).request_outbox.deep_view() == old(self).request_outbox.deep_view()
                + spec_platform_probe_requests(
                old(self).monitors.entry_seq(),
                old(self).hosts@,
                spec_platform_policy(cache_policy, old(self).cache_settings),
            ),
    {
        let policy = match cache_policy {
            Some(p) => p,
            None => if !self.cache_settings.enable_cache {
                CachePolicy::BypassCache
            } else if self.cache_settings.provide_initial_value {
                CachePolicy::PreferCache
            } else {
                CachePolicy::BypassCache
            },
        };
        proof {
            use_type_invariant(&self.monitors);
        }
        let mut host_ids: Vec<String> = Vec::new();
        let n = self.monitors.len();
        let mut i: usize = 0;
        while i < n
            invariant
                0 <= i <= n,
                n == self.monitors.spec_len(),
                self.monitors == old(self).monitors,
                host_ids.deep_view().len() == i,
                forall|j: int|
                    0 <= j < i ==> host_ids.deep_view()[j] == self.monitors.entry_seq()[j].0@,
            decreases n - i,
        {
            let name = self.monitors.key_at(i).clone();
            let ghost ids_before = host_ids.deep_view();
            let ghost namev = name@;
            host_ids.push(name);
            proof {
                assert(host_ids.deep_view() =~= ids_before.push(namev));
            }
            i += 1;
        }
        let count = host_ids.len();
        let mut k: usize = 0;
        let ghost policy_spec = spec_platform_policy(cache_policy, self.cache_settings);
        let ghost entries = self.monitors.entry_seq();
        while k < count
            invariant
                0 <= k <= count,
                count == host_ids@.len(),
                count == entries.len(),
                self.monitors == old(self).monitors,
                entries == old(self).monitors.entry_seq(),
                self.hosts == old(self).hosts,
                self.invocation_id_counter == old(self).invocation_id_counter,
                self.update_outbox.deep_view() == old(self).update_outbox.deep_view(),
                self.cache_settings == old(self).cache_settings,
                policy_spec == spec_platform_policy(cache_policy, old(self).cache_settings),
                policy == policy_spec,
                forall|j: int| 0 <= j < count ==> host_ids.deep_view()[j] == entries[j].0@,
                host_ids.deep_view().len() == count,
                self.request_outbox.deep_view() == old(self).request_outbox.deep_view()
                    + spec_platform_probe_requests(
                    entries.take(k as int),
                    old(self).hosts@,
                    policy_spec,
                ),
            decreases count - k,
        {
            proof {
                use_type_invariant(&self.monitors);
                self.monitors.lemma_entry_at(k as int);
                assert(host_ids@[k as int]@ == host_ids.deep_view()[k as int]);
                assert(host_ids@[k as int]@ == entries[k as int].0@);
                // The host's monitor entries in the per-host contract are
                // exactly this entry's collection, by key uniqueness.
                let key = entries[k as int].0@;
                assert(exists|j: int|
                    0 <= j < self.monitors.spec_len() && self.monitors.entry_seq()[j].0@
                        == key) by {
                    assert(0 <= k < self.monitors.spec_len()
                        && self.monitors.entry_seq()[k as int].0@ == key);
                }
                assert forall|j2: int|
                    0 <= j2 < self.monitors.spec_len() && self.monitors.entry_seq()[j2].0@
                        == key implies self.monitors.entry_seq()[j2]
                    == self.monitors.entry_seq()[k as int] by {
                    if j2 < k as int {
                        self.monitors.lemma_keys_distinct(j2, k as int);
                    } else if j2 > k as int {
                        self.monitors.lemma_keys_distinct(k as int, j2);
                    }
                }
                assert(self.monitors.entry_seq() == entries);
                assert(self.spec_host_monitor_entries(key) == entries[k as int].1.entry_seq());
            }
            self.refresh_platform_info(&host_ids[k], Some(policy));
            proof {
                assert(entries.take(k as int + 1).drop_last() =~= entries.take(k as int));
                assert(entries.take(k as int + 1).last() == entries[k as int]);
                assert(self.request_outbox.deep_view() =~= old(self).request_outbox.deep_view()
                    + spec_platform_probe_requests(
                    entries.take(k as int + 1),
                    old(self).hosts@,
                    policy_spec,
                ));
            }
            k += 1;
        }
        proof {
            assert(entries.take(count as int) =~= entries);
        }
        host_ids
    }
}


impl MonitorManager {
    /// Processes the results of one chain step, as the embedding
    /// application hands them back from the connection manager.
    ///
    /// A silent-miss response (an `OnlyCache` miss) aborts the chain with
    /// no state update; that is the one silent ending a refresh may have.
    /// Otherwise the front module turns the responses into a data point -
    /// falling back to the parent point, plus an error record, when it
    /// cannot - and the manager either dispatches the next extension with
    /// that point as the new parent and the errors gathered so far, or
    /// emits the final state update with all accumulated errors; an
    /// extension that cannot build its message ends the chain in that
    /// same terminal update. A data point produced by the module is
    /// stamped with the chain's invocation id, so a final update whose
    /// parent was stamped carries the id of the refresh that started the
    /// chain.
    pub fn handle_response(
        &mut self,
        request: ConnectorRequest,
        results: Vec<Result<ResponseMessage, String>>,
    )
        requires
            request@.response_context matches RequestContextView::Monitor(c) && c.chain.len() > 0,
        ensures
            final(self).invocation_id_counter == old(self).invocation_id_counter,
            final(self).monitors == old(self).monitors,
            final(self).hosts == old(self).hosts,
            final(self).cache_settings == old(self).cache_settings,
            ({
                let ctx = request@.response_context->Monitor_0;
                let rv = spec_results_view(results@);
                let responses = spec_responses_of(rv);
                let errors = ctx.errors + spec_errors_of(rv);
                let monitor = ctx.chain[0];
                let outcome = spec_chain_outcome(
                    monitor,
                    request@.host,
                    rv.len() as int,
                    responses,
                    ctx.parent,
                );
                let point = spec_final_point(outcome, ctx.parent, ctx.invocation_id);
                if spec_any_not_found(responses) {
                    final(self).request_outbox@ == old(self).request_outbox@
                        && final(self).update_outbox@ == old(self).update_outbox@
                } else if ctx.chain.len() > 1 {
                    final(self).request_outbox.deep_view()
                        == old(self).request_outbox.deep_view() + spec_chain_request(
                        ctx.chain.drop_first(),
                        request@.host,
                        ctx.invocation_id,
                        point,
                        spec_final_errors(outcome, errors),
                        ctx.cache_policy,
                    ) && final(self).update_outbox.deep_view()
                        == old(self).update_outbox.deep_view() + spec_chain_failure(
                        ctx.chain.drop_first(),
                        request@.host,
                        point,
                        spec_final_errors(outcome, errors),
                    )
                } else {
                    final(self).request_outbox@ == old(self).request_outbox@
                        && final(self).update_outbox.deep_view()
                        == old(self).update_outbox.deep_view() + seq![
                        spec_final_update(
                            monitor,
                            request@.host,
                            point,
                            spec_final_errors(outcome, errors),
                        ),
                    ] && (ctx.parent.invocation_id == ctx.invocation_id ==> point.invocation_id
                        == ctx.invocation_id)
                }
            }),
    {
        let ghost rv = spec_results_view(results@);
        let ConnectorRequest {
            connector_spec: _,
            source_id: _,
            host,
            messages: _,
            request_type: _,
            response_context,
            cache_policy: _,
        } = request;
        let ctx = match response_context {
            RequestContext::Monitor(m) => m,
            RequestContext::Command(_) => {
                proof {
                    assert(false);
                }
                return ;
            },
        };
        let MonitorRequestContext { chain, invocation_id, parent, errors: prior_errors, cache_policy } =
            ctx;
        let monitor = chain[0];
        let results_len = results.len();
        let ghost priorv = prior_errors.deep_view();

        // Append this step's transport errors to the errors accumulated
        // by the earlier steps; partition off the responses, preserving
        // order.
        let mut responses: Vec<ResponseMessage> = Vec::new();
        let mut errors: Vec<ErrorMessage> = prior_errors;
        let mut rest = results;
        proof {
            assert(responses.deep_view() =~= spec_responses_of(rv.take(0)));
            assert(errors.deep_view() =~= priorv + spec_errors_of(rv.take(0)));
            assert(spec_results_view(rest@) =~= rv.skip(0));
        }
        let mut i: usize = 0;
        while i < results_len
            invariant
                0 <= i <= results_len,
                results_len == rv.len(),
                spec_results_view(rest@) == rv.skip(i as int),
                responses.deep_view() == spec_responses_of(rv.take(i as int)),
                errors.deep_view() == priorv + spec_errors_of(rv.take(i as int)),
            decreases results_len - i,
        {
            proof {
                assert(rest@.len() == rv.skip(i as int).len());
                assert(spec_results_view(rest@)[0] == rv[i as int]);
                assert(rv.take(i as int + 1).drop_last() =~= rv.take(i as int));
                assert(rv.take(i as int + 1).last() == rv[i as int]);
            }
            let ghost rest_before = rest@;
            let item = rest.remove(0);
            proof {
                assert(item == rest_before[0]);
                assert(spec_result_view(item) == rv[i as int]);
                assert forall|j: int| 0 <= j < rest@.len() implies spec_results_view(rest@)[j]
                    == rv.skip(i as int + 1)[j] by {
                    assert(rest@[j] == rest_before[j + 1]);
                    assert(spec_results_view(rest_before)[j + 1] == rv.skip(i as int)[j + 1]);
                }
                assert(spec_results_view(rest@) =~= rv.skip(i as int + 1));
            }
            match item {
                Ok(response) => {
                    let ghost before = responses.deep_view();
                    responses.push(response);
                    proof {
                        assert(responses.deep_view() =~= spec_responses_of(rv.take(i as int + 1)));
                        assert(errors.deep_view() =~= priorv + spec_errors_of(rv.take(i as int + 1)));
                    }
                },
                Err(error) => {
                    let ghost before = errors.deep_view();
                    let record = ErrorMessage::new(Criticality::Error, error);
                    errors.push(record);
                    proof {
                        assert(errors.deep_view() =~= before.push(record@));
                        assert(rv[i as int] matches Err(e) && record@ =~= (ErrorMessageView {
                            criticality: Criticality::Error,
                            message: e,
                        }));
                        assert(spec_errors_of(rv.take(i as int + 1)) =~= spec_errors_of(
                            rv.take(i as int),
                        ).push(record@));
                        assert(errors.deep_view() =~= priorv + spec_errors_of(rv.take(i as int + 1)));
                        assert(responses.deep_view() =~= spec_responses_of(rv.take(i as int + 1)));
                    }
                },
            }
            i += 1;
        }
        proof {
            assert(rv.take(results_len as int) =~= rv);
        }
        let ghost responsesv = spec_responses_of(rv);

        // An OnlyCache miss aborts the chain silently.
        let mut found_miss = false;
        let response_count = responses.len();
        let mut j: usize = 0;
        while j < response_count
            invariant
                0 <= j <= response_count,
                response_count == responsesv.len(),
                responses.deep_view() == responsesv,
                found_miss ==> spec_any_not_found(responsesv),
                !found_miss ==> forall|l: int| 0 <= l < j ==> !responsesv[l].not_found,
            decreases response_count - j,
        {
            if responses[j].is_not_found() {
                proof {
                    assert(responses.deep_view()[j as int].not_found);
                }
                found_miss = true;
            }
            j += 1;
        }
        if found_miss {
            return ;
        }

        // Let the front module turn the responses into a data point.
        let outcome: Result<DataPoint, String> = if results_len == 0 {
            let empty_response = ResponseMessage::empty();
            monitor.process_response(&host, &empty_response, &parent)
        } else if responses.len() > 0 {
            match monitor.process_responses(&host, &responses, &parent) {
                Ok(point) => Ok(point),
                Err(plural_error) => {
                    if plural_error.as_str().is_empty() {
                        let first = &responses[0];
                        proof {
                            assert(first@ == responsesv[0]);
                        }
                        match monitor.process_response(&host, first, &parent) {
                            Ok(mut point) => {
                                point.is_from_cache = first.is_from_cache;
                                Ok(point)
                            },
                            Err(module_error) => Err(module_error),
                        }
                    } else {
                        Err(plural_error)
                    }
                },
            }
        } else {
            Err(String::new())
        };
        let ghost outcomev = spec_chain_outcome(
            monitor,
            host@,
            rv.len() as int,
            responsesv,
            parent@,
        );
        proof {
            match outcome {
                Ok(ref p) => {
                    assert(outcomev matches Ok(pv) && p@ =~= pv);
                },
                Err(ref e) => {
                    assert(outcomev matches Err(ev) && e@ == ev);
                },
            }
        }

        // Stamp the produced point, or fall back to the parent.
        let (new_point, final_errors): (DataPoint, Vec<ErrorMessage>) = match outcome {
            Ok(mut point) => {
                point.invocation_id = invocation_id;
                proof {
                    assert(point@ =~= spec_final_point(outcomev, parent@, invocation_id));
                }
                (point, errors)
            },
            Err(module_error) => {
                let mut final_errors = errors;
                if !module_error.as_str().is_empty() {
                    let ghost before = final_errors.deep_view();
                    let record = ErrorMessage::new(Criticality::Error, module_error);
                    final_errors.push(record);
                    proof {
                        assert(final_errors.deep_view() =~= spec_final_errors(
                            outcomev,
                            priorv + spec_errors_of(rv),
                        ));
                    }
                } else {
                    proof {
                        assert(final_errors.deep_view() =~= spec_final_errors(
                            outcomev,
                            priorv + spec_errors_of(rv),
                        ));
                    }
                }
                (parent, final_errors)
            },
        };
        proof {
            assert(new_point@ =~= spec_final_point(outcomev, parent@, invocation_id));
            assert(final_errors.deep_view() =~= spec_final_errors(
                outcomev,
                priorv + spec_errors_of(rv),
            ));
        }

        if chain.len() > 1 {
            // Dispatch the next extension with the new parent point and
            // the errors gathered so far.
            let ghost chainv = chain@;
            let mut remaining = chain;
            remaining.remove(0);
            proof {
                assert(remaining@ =~= chainv.drop_first());
            }
            self.send_connector_request(
                host,
                remaining,
                invocation_id,
                new_point,
                final_errors,
                cache_policy,
            );
        } else {
            let update = StateUpdateMessage {
                host_name: host.name.clone(),
                display_options: monitor.get_display_options(),
                module_spec: monitor.get_module_spec(),
                data_point: Some(new_point),
                command_result: None,
                errors: final_errors,
                stop: false,
            };
            let ghost updatev = update@;
            let ghost before = self.update_outbox.deep_view();
            self.update_outbox.push(update);
            proof {
                assert(updatev =~= spec_final_update(
                    monitor,
                    host@,
                    spec_final_point(outcomev, parent@, invocation_id),
                    spec_final_errors(outcomev, priorv + spec_errors_of(rv)),
                ));
                assert(self.update_outbox.deep_view() =~= before + seq![updatev]);
            }
        }
    }
}


impl MonitorManager {
    /// The display categories of one host's monitors, each once, in
    /// ascending lexicographic order.
    pub fn get_all_host_categories(&self, host_id: &String) -> (r: Vec<String>)
        requires
            self.monitors@.contains_key(host_id@),
        ensures
            forall|i: int, j: int|
                0 <= i < j < r.deep_view().len() ==> crate::utils::spec_str_lt(
                    r.deep_view()[i],
                    r.deep_view()[j],
                ),
            forall|c: Seq<char>|
                r.deep_view().contains(c) <==> exists|l: int|
                    0 <= l < self.spec_host_monitor_entries(host_id@).len()
                        && (#[trigger] self.spec_host_monitor_entries(host_id@)[l]).1.spec_category()
                        == c,
    {
        let collection = match self.host_monitor_collection(host_id) {
            Some(c) => c,
            None => {
                proof {
                    assert(false);
                }
                return Vec::new();
            },
        };
        let ghost entries = collection.entry_seq();
        let n = collection.len();
        let mut categories: Vec<String> = Vec::new();
        let mut i: usize = 0;
        proof {
            assert(forall|c: Seq<char>| !categories.deep_view().contains(c));
        }
        while i < n
            invariant
                0 <= i <= n,
                n == entries.len(),
                entries == collection.entry_seq(),
                forall|a: int, b: int|
                    0 <= a < b < categories.deep_view().len() ==> crate::utils::spec_str_lt(
                        categories.deep_view()[a],
                        categories.deep_view()[b],
                    ),
                forall|c: Seq<char>|
                    categories.deep_view().contains(c) <==> exists|l: int|
                        0 <= l < i && (#[trigger] entries[l]).1.spec_category() == c,
            decreases n - i,
        {
            let monitor = *collection.value_at(i);
            let options = monitor.get_display_options();
            let category = options.category;
            let ghost catv = category@;
            let ghost before = categories.deep_view();
            let len = categories.len();
            let mut pos: usize = 0;
            while pos < len
                invariant
                    0 <= pos <= len,
                    len == before.len(),
                    categories.deep_view() == before,
                    catv == category@,
                    forall|a: int|
                        0 <= a < pos ==> crate::utils::spec_str_lt(before[a], catv),
                ensures
                    0 <= pos <= len,
                    len == before.len(),
                    categories.deep_view() == before,
                    catv == category@,
                    forall|a: int|
                        0 <= a < pos ==> crate::utils::spec_str_lt(before[a], catv),
                    pos < len ==> !crate::utils::spec_str_lt(before[pos as int], catv),
                decreases len - pos,
            {
                if !crate::utils::str_lt(categories[pos].as_str(), category.as_str()) {
                    break ;
                }
                pos += 1;
            }
            let already_present = pos < len && crate::utils::str_eq(
                categories[pos].as_str(),
                category.as_str(),
            );
            if !already_present {
                proof {
                    if pos < len {
                        crate::utils::lemma_str_lt_total(before[pos as int], catv);
                    }
                }
                categories.insert(pos, category);
                proof {
                    let now = categories.deep_view();
                    assert(now =~= before.take(pos as int).push(catv) + before.skip(pos as int));
                    assert forall|a: int, b: int|
                        0 <= a < b < now.len() implies crate::utils::spec_str_lt(
                        now[a],
                        now[b],
                    ) by {
                        if b < pos {
                            assert(now[a] == before[a]);
                            assert(now[b] == before[b]);
                        } else if b == pos {
                            assert(now[a] == before[a]);
                            assert(now[b] == catv);
                        } else {
                            assert(now[b] == before[b - 1]);
                            if a < pos {
                                assert(now[a] == before[a]);
                            } else if a == pos {
                                assert(now[a] == catv);
                                crate::utils::lemma_str_lt_total(before[pos as int], catv);
                                assert(crate::utils::spec_str_lt(catv, before[pos as int]));
                                if b - 1 > pos {
                                    crate::utils::lemma_str_lt_trans(
                                        catv,
                                        before[pos as int],
                                        before[b - 1],
                                    );
                                }
                            } else {
                                assert(now[a] == before[a - 1]);
                            }
                        }
                    }
                    assert forall|c: Seq<char>| #[trigger] now.contains(c) implies (
                    before.contains(c) || c == catv) by {
                        let x = choose|x: int| 0 <= x < now.len() && now[x] == c;
                        if x < pos {
                            assert(before[x] == c);
                            assert(before.contains(c));
                        } else if x > pos {
                            assert(before[x - 1] == c);
                            assert(before.contains(c));
                        }
                    }
                    assert forall|c: Seq<char>| before.contains(c) || c == catv implies
                        #[trigger] now.contains(c) by {
                        if before.contains(c) {
                            let x = choose|x: int| 0 <= x < before.len() && before[x] == c;
                            if x < pos {
                                assert(now[x] == c);
                            } else {
                                assert(now[x + 1] == c);
                            }
                        } else {
                            assert(now[pos as int] == c);
                        }
                    }
                }
            } else {
                proof {
                    assert(before[pos as int] == catv);
                    assert(before.contains(catv));
                }
            }
            proof {
                assert(monitor.spec_category() == entries[i as int].1.spec_category());
            }
            i += 1;
        }
        categories
    }
}

/// Refresh idempotence under `PreferCache`: a successful response written
/// through the cache is served back unchanged within the time-to-live,
/// marked as coming from the cache, and reprocessing it yields the same
/// data point as processing the first response did; so two successive
/// refreshes of one monitor inside the time-to-live produce the same
/// data point value, and only the second is marked from the cache.
/// The law needs the first response to have succeeded (return code
/// zero): only successful responses are written through, so a failed
/// first response leaves nothing for the second refresh to be served
/// from.
pub proof fn lemma_refresh_idempotent(
    monitor: Monitor,
    host: HostView,
    parent: DataPointView,
    cache: Map<crate::cache::CacheKeyView, crate::cache::CacheEntryView>,
    key: crate::cache::CacheKeyView,
    message: Seq<char>,
    stored_at: u64,
    now: u64,
    process_start: u64,
    settings: CacheSettings,
)
    requires
        settings.enable_cache,
        stored_at >= process_start,
        now - stored_at <= settings.time_to_live,
    ensures
        ({
            let written = crate::cache::spec_written(cache, key, message, 0, stored_at, settings);
            let hit = crate::cache::spec_lookup(written, key, now, process_start, settings);
            &&& hit == Some(
                crate::cache::CacheEntryView { message, return_code: 0, stored_at },
            )
            &&& ({
                let served = crate::connection_manager::spec_cached_response(hit.unwrap());
                &&& served.is_from_cache == true
                &&& monitor.spec_process_response(host, served.message, served.return_code, parent)
                    == monitor.spec_process_response(host, message, 0, parent)
            })
        }),
{
}


impl MonitorManager {
    /// Registers one monitor for a host, unless the host already has a
    /// monitor with that id. A newly added monitor is seeded with an
    /// initial no-data state update when asked; callers seed exactly the
    /// extension monitors, as [`Self::configure`] does.
    pub fn add_monitor(&mut self, host_id: String, monitor: Monitor, send_initial_value: bool)
        ensures
            ({
                let inner = if old(self).monitors@.contains_key(host_id@) {
                    old(self).monitors@[host_id@]
                } else {
                    Map::empty()
                };
                &&& final(self).monitors@ == old(self).monitors@.insert(
                    host_id@,
                    if inner.contains_key(monitor.spec_id()) {
                        inner
                    } else {
                        inner.insert(monitor.spec_id(), monitor)
                    },
                )
                &&& (if send_initial_value && !inner.contains_key(monitor.spec_id()) {
                    final(self).update_outbox.deep_view() == old(self).update_outbox.deep_view()
                        + seq![
                        StateUpdateMessageView {
                            host_name: host_id@,
                            display_options: monitor.spec_display_options(),
                            module_spec: ModuleSpecificationView {
                                id: monitor.spec_id(),
                                version: "0.0.1"@,
                            },
                            data_point: Some(
                                DataPointView {
                                    label: Seq::empty(),
                                    value: Seq::empty(),
                                    multivalue: Seq::empty(),
                                    criticality: Criticality::NoData,
                                    invocation_id: 0,
                                    is_from_cache: false,
                                    timestamp: 0,
                                },
                            ),
                            command_result: None,
                            errors: Seq::empty(),
                            stop: false,
                        },
                    ]
                } else {
                    final(self).update_outbox@ == old(self).update_outbox@
                })
            }),
            final(self).hosts == old(self).hosts,
            final(self).invocation_id_counter == old(self).invocation_id_counter,
            final(self).request_outbox@ == old(self).request_outbox@,
            final(self).cache_settings == old(self).cache_settings,
    {
        let mut collection = match self.monitors.take(host_id.as_str()) {
            Some(c) => c,
            None => StringMap::new(),
        };
        let module_spec = monitor.get_module_spec();
        let missing = !collection.contains_key(module_spec.id.as_str());
        if missing {
            if send_initial_value {
                let update = StateUpdateMessage {
                    host_name: host_id.clone(),
                    display_options: monitor.get_display_options(),
                    module_spec: monitor.get_module_spec(),
                    data_point: Some(DataPoint::no_data()),
                    command_result: None,
                    errors: Vec::new(),
                    stop: false,
                };
                let ghost updatev = update@;
                let ghost before = self.update_outbox.deep_view();
                self.update_outbox.push(update);
                proof {
                    assert(self.update_outbox.deep_view() =~= before + seq![updatev]);
                    assert(updatev.data_point->Some_0 =~= (DataPointView {
                        label: Seq::empty(),
                        value: Seq::empty(),
                        multivalue: Seq::empty(),
                        criticality: Criticality::NoData,
                        invocation_id: 0,
                        is_from_cache: false,
                        timestamp: 0,
                    }));
                    assert(updatev.errors =~= Seq::<ErrorMessageView>::empty());
                }
            }
            collection.insert(module_spec.id, monitor);
        }
        self.monitors.insert(host_id, collection);
        proof {
            assert(self.monitors@ =~~= old(self).monitors@.insert(
                host_id@,
                if (if old(self).monitors@.contains_key(host_id@) {
                    old(self).monitors@[host_id@]
                } else {
                    Map::empty()
                }).contains_key(monitor.spec_id()) {
                    (if old(self).monitors@.contains_key(host_id@) {
                        old(self).monitors@[host_id@]
                    } else {
                        Map::empty()
                    })
                } else {
                    (if old(self).monitors@.contains_key(host_id@) {
                        old(self).monitors@[host_id@]
                    } else {
                        Map::empty()
                    }).insert(monitor.spec_id(), monitor)
                },
            ));
        }
    }
}

/// A selection never has more bases than members.
proof fn lemma_bases_len(selected: Seq<Monitor>)
    ensures
        spec_bases(selected).len() <= selected.len(),
    decreases selected.len(),
{
    if selected.len() > 0 {
        lemma_bases_len(selected.drop_last());
    }
}

} // verus!
