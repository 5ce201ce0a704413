//! The host manager: the single owner of authoritative per-host display
//! state. State updates arrive as messages; applying one updates the
//! per-host records, recomputes the host's status and emits a display
//! event for the frontend.

use vstd::prelude::*;

use crate::connection::Connector;
use crate::data_point::{CommandResult, CommandResultView, DataPoint, DataPointView, ErrorMessage, ErrorMessageView};
use crate::enums::{Criticality, HostStatus};
use crate::frontend::{
    DisplayOptions, DisplayOptionsView, HostDisplayData, HostDisplayDataView, MonitoringData,
    MonitoringDataView,
};
use crate::host::{Host, HostView};
use crate::module_spec::{ModuleSpecification, ModuleSpecificationView};
use crate::string_map::{StringMap, ViewClone};

verus! {

/// One message from the monitor manager or the command handler: a single
/// observation for one host, or the `stop` sentinel that ends the update
/// loop.
pub struct StateUpdateMessage {
    pub host_name: String,
    pub display_options: DisplayOptions,
    pub module_spec: ModuleSpecification,
    pub data_point: Option<DataPoint>,
    pub command_result: Option<CommandResult>,
    pub errors: Vec<ErrorMessage>,
    pub stop: bool,
}

/// Spec-level contents of a [`StateUpdateMessage`].
#[verifier::ext_equal]
pub struct StateUpdateMessageView {
    pub host_name: Seq<char>,
    pub display_options: DisplayOptionsView,
    pub module_spec: ModuleSpecificationView,
    pub data_point: Option<DataPointView>,
    pub command_result: Option<CommandResultView>,
    pub errors: Seq<ErrorMessageView>,
    pub stop: bool,
}

impl View for StateUpdateMessage {
    type V = StateUpdateMessageView;

    open spec fn view(&self) -> StateUpdateMessageView {
        StateUpdateMessageView {
            host_name: self.host_name@,
            display_options: self.display_options@,
            module_spec: self.module_spec@,
            data_point: match &self.data_point {
                Some(p) => Some(p@),
                None => None,
            },
            command_result: match &self.command_result {
                Some(c) => Some(c@),
                None => None,
            },
            errors: self.errors.deep_view(),
            stop: self.stop,
        }
    }
}

impl DeepView for StateUpdateMessage {
    type V = StateUpdateMessageView;

    open spec fn deep_view(&self) -> StateUpdateMessageView {
        self.view()
    }
}

impl StateUpdateMessage {
    /// The sentinel that terminates the update loop.
    pub fn stop() -> (r: StateUpdateMessage)
        ensures
            r@.stop == true,
    {
        StateUpdateMessage {
            host_name: String::new(),
            display_options: DisplayOptions::default(),
            module_spec: ModuleSpecification::new("", ""),
            data_point: None,
            command_result: None,
            errors: Vec::new(),
            stop: true,
        }
    }
}

/// Credentials the embedding application uses to open a connector.
pub struct AuthenticationDetails {
    pub username: String,
    pub password: String,
}

/// Spec-level contents of [`AuthenticationDetails`].
#[verifier::ext_equal]
pub struct AuthenticationDetailsView {
    pub username: Seq<char>,
    pub password: Seq<char>,
}

impl View for AuthenticationDetails {
    type V = AuthenticationDetailsView;

    open spec fn view(&self) -> AuthenticationDetailsView {
        AuthenticationDetailsView { username: self.username@, password: self.password@ }
    }
}

/// A connector the host manager tracks for one host: which module it is
/// and whether the embedding application has connected it.
pub struct ConnectorState {
    pub connector: Connector,
    pub connected: bool,
}

/// Spec-level contents of a [`ConnectorState`].
#[verifier::ext_equal]
pub struct ConnectorStateView {
    pub connector: Connector,
    pub connected: bool,
}

impl View for ConnectorState {
    type V = ConnectorStateView;

    open spec fn view(&self) -> ConnectorStateView {
        ConnectorStateView { connector: self.connector, connected: self.connected }
    }
}

/// Everything the host manager holds for one host.
pub struct HostState {
    pub host: Host,
    pub monitor_data: StringMap<MonitoringData>,
    pub command_results: StringMap<CommandResult>,
    pub connections: StringMap<ConnectorState>,
    pub authentication_details: StringMap<AuthenticationDetails>,
    pub status: HostStatus,
}

/// Spec-level contents of a [`HostState`].
#[verifier::ext_equal]
pub struct HostStateView {
    pub host: HostView,
    pub monitor_data: Map<Seq<char>, MonitoringDataView>,
    pub command_results: Map<Seq<char>, CommandResultView>,
    pub connections: Map<Seq<char>, ConnectorStateView>,
    pub authentication_details: Map<Seq<char>, AuthenticationDetailsView>,
    pub status: HostStatus,
}

impl View for HostState {
    type V = HostStateView;

    open spec fn view(&self) -> HostStateView {
        HostStateView {
            host: self.host@,
            monitor_data: self.monitor_data@,
            command_results: self.command_results@,
            connections: self.connections@,
            authentication_details: self.authentication_details@,
            status: self.status,
        }
    }
}

impl HostStateView {
    /// A freshly added host: no data, considered up until a critical
    /// monitor says otherwise.
    pub open spec fn spec_new(host: HostView) -> HostStateView {
        HostStateView {
            host,
            monitor_data: Map::empty(),
            command_results: Map::empty(),
            connections: Map::empty(),
            authentication_details: Map::empty(),
            status: HostStatus::Up,
        }
    }
}

/// A host is down exactly when some monitor's latest data point is
/// critical.
pub open spec fn spec_host_status(data: Map<Seq<char>, MonitoringDataView>) -> HostStatus {
    if exists|k: Seq<char>|
        data.contains_key(k) && data[k].values.len() > 0 && data[k].values.last().criticality
            == Criticality::Critical {
        HostStatus::Down
    } else {
        HostStatus::Up
    }
}

/// The monitor-data map after one data point arrives for one monitor:
/// the point is appended to that monitor's series and the display
/// options are refreshed.
pub open spec fn spec_data_applied(
    data: Map<Seq<char>, MonitoringDataView>,
    monitor_id: Seq<char>,
    point: DataPointView,
    display_options: DisplayOptionsView,
) -> Map<Seq<char>, MonitoringDataView> {
    let values = if data.contains_key(monitor_id) {
        data[monitor_id].values
    } else {
        Seq::empty()
    };
    data.insert(monitor_id, MonitoringDataView { values: values.push(point), display_options })
}

/// A host's state after one update message is applied.
pub open spec fn spec_state_applied(s: HostStateView, msg: StateUpdateMessageView) -> HostStateView {
    let monitor_data = match msg.data_point {
        Some(p) => spec_data_applied(s.monitor_data, msg.module_spec.id, p, msg.display_options),
        None => s.monitor_data,
    };
    let command_results = match msg.command_result {
        Some(c) => s.command_results.insert(msg.module_spec.id, c),
        None => s.command_results,
    };
    HostStateView {
        host: s.host,
        monitor_data,
        command_results,
        connections: s.connections,
        authentication_details: s.authentication_details,
        status: spec_host_status(monitor_data),
    }
}

/// The display event emitted after a state change.
pub open spec fn spec_display_event(s: HostStateView) -> HostDisplayDataView {
    HostDisplayDataView {
        name: s.host.name,
        domain_name: s.host.fqdn,
        ip_address: s.host.address,
        status: s.status,
        monitoring_data: s.monitor_data,
    }
}

/// Owns the per-host state; everything else reads snapshots.
pub struct HostManager {
    pub hosts: StringMap<HostState>,
    pub display_outbox: Vec<HostDisplayData>,
}

impl HostManager {
    pub fn new() -> (r: HostManager)
        ensures
            r.hosts@ == Map::<Seq<char>, HostStateView>::empty(),
            r.display_outbox@.len() == 0,
    {
        HostManager { hosts: StringMap::new(), display_outbox: Vec::new() }
    }

    /// Registers a host; its record starts without data.
    pub fn add_host(&mut self, host: Host)
        ensures
            final(self).hosts@ == old(self).hosts@.insert(
                host@.name,
                HostStateView::spec_new(host@),
            ),
            final(self).display_outbox@ == old(self).display_outbox@,
    {
        let name = host.name.clone();
        let state = HostState {
            host,
            monitor_data: StringMap::new(),
            command_results: StringMap::new(),
            connections: StringMap::new(),
            authentication_details: StringMap::new(),
            status: HostStatus::Up,
        };
        proof {
            assert(state@ =~= HostStateView::spec_new(state.host@));
        }
        self.hosts.insert(name, state);
    }

    /// Removes a host and everything known about it.
    pub fn remove_host(&mut self, name: &String)
        ensures
            final(self).hosts@ == old(self).hosts@.remove(name@),
            final(self).display_outbox@ == old(self).display_outbox@,
    {
        self.hosts.remove(name.as_str());
    }

    /// A copy of the host record, for host lookup by the schedulers.
    pub fn get_host(&self, name: &str) -> (r: Option<Host>)
        ensures
            match r {
                Some(h) => self.hosts@.contains_key(name@) && h@ == self.hosts@[name@].host,
                None => !self.hosts@.contains_key(name@),
            },
    {
        match self.hosts.get(name) {
            Some(state) => Some(state.host.clone()),
            None => None,
        }
    }

    /// Resolves the connector of a `(host, connector)` pair, creating
    /// its record on first use; the embedding application connects it.
    /// Returns whether the record was just created (and so still needs
    /// connecting). At most one record ever exists per pair.
    pub fn get_connector(
        &mut self,
        host_name: &String,
        connector_name: &String,
        authentication: Option<AuthenticationDetails>,
    ) -> (r: Result<bool, String>)
        ensures
            match r {
                Ok(created) => {
                    &&& old(self).hosts@.contains_key(host_name@)
                    &&& Connector::spec_from_id(connector_name@) is Some
                    &&& created == !old(self).hosts@[host_name@].connections.contains_key(
                        connector_name@,
                    )
                    &&& ({
                        let before = old(self).hosts@[host_name@];
                        let connector_state = if created {
                            ConnectorStateView {
                                connector: Connector::spec_from_id(connector_name@).unwrap(),
                                connected: false,
                            }
                        } else {
                            before.connections[connector_name@]
                        };
                        let auth = match authentication {
                            Some(a) => before.authentication_details.insert(connector_name@, a@),
                            None => before.authentication_details,
                        };
                        final(self).hosts@ == old(self).hosts@.insert(
                            host_name@,
                            HostStateView {
                                connections: before.connections.insert(
                                    connector_name@,
                                    connector_state,
                                ),
                                authentication_details: auth,
                                ..before
                            },
                        )
                    })
                },
                Err(e) => {
                    &&& final(self).hosts@ == old(self).hosts@
                    &&& (!old(self).hosts@.contains_key(host_name@) && e@ == "No such host"@) || (
                    old(self).hosts@.contains_key(host_name@) && Connector::spec_from_id(
                        connector_name@,
                    ) is None && e@ == "Unknown module"@)
                },
            },
            final(self).display_outbox@ == old(self).display_outbox@,
    {
        let mut state = match self.hosts.take(host_name.as_str()) {
            Some(s) => s,
            None => {
                proof {
                    assert(self.hosts@ =~= old(self).hosts@);
                }
                return Err("No such host".to_owned());
            },
        };
        let ghost before = state@;
        let connector = match Connector::from_id(connector_name.as_str()) {
            Some(c) => c,
            None => {
                self.hosts.insert(host_name.clone(), state);
                proof {
                    assert(self.hosts@ =~= old(self).hosts@);
                }
                return Err("Unknown module".to_owned());
            },
        };
        let created = !state.connections.contains_key(connector_name.as_str());
        if created {
            state.connections.insert(
                connector_name.clone(),
                ConnectorState { connector, connected: false },
            );
        } else {
            let existing = state.connections.take(connector_name.as_str());
            match existing {
                Some(existing_state) => {
                    state.connections.insert(connector_name.clone(), existing_state);
                    proof {
                        assert(state.connections@ =~= before.connections.insert(
                            connector_name@,
                            before.connections[connector_name@],
                        ));
                    }
                },
                None => {},
            }
        }
        match authentication {
            Some(a) => {
                state.authentication_details.insert(connector_name.clone(), a);
            },
            None => {},
        }
        proof {
            assert(state@ =~= (HostStateView {
                connections: state.connections@,
                authentication_details: state.authentication_details@,
                ..before
            }));
        }
        self.hosts.insert(host_name.clone(), state);
        Ok(created)
    }

    /// Computes the derived status of a monitor-data map.
    fn compute_status(data: &StringMap<MonitoringData>) -> (r: HostStatus)
        ensures
            r == spec_host_status(data@),
    {
        let n = data.len();
        let mut i: usize = 0;
        while i < n
            invariant
                0 <= i <= n,
                n == data.spec_len(),
                forall|j: int|
                    0 <= j < i ==> !(data.entry_seq()[j].1@.values.len() > 0
                        && data.entry_seq()[j].1@.values.last().criticality
                        == Criticality::Critical),
            decreases n - i,
        {
            let entry = data.value_at(i);
            let m = entry.values.len();
            if m > 0 {
                let last = &entry.values[m - 1];
                if last.criticality == Criticality::Critical {
                    proof {
                        assert(data@.contains_key(data.entry_seq()[i as int].0@));
                        assert(data@[data.entry_seq()[i as int].0@].values.last().criticality
                            == Criticality::Critical);
                    }
                    return HostStatus::Down;
                }
            }
            i += 1;
        }
        proof {
            if exists|k: Seq<char>|
                data@.contains_key(k) && data@[k].values.len() > 0
                    && data@[k].values.last().criticality == Criticality::Critical {
                let k = choose|k: Seq<char>|
                    data@.contains_key(k) && data@[k].values.len() > 0
                        && data@[k].values.last().criticality == Criticality::Critical;
                data.lemma_key_has_entry(k);
                let j = choose|j: int|
                    0 <= j < data.spec_len() && data.entry_seq()[j].0@ == k;
                use_type_invariant(data);
                data.lemma_entry_at(j);
                assert(false);
            }
        }
        HostStatus::Up
    }

    /// Applies one state update: updates the host's records, recomputes
    /// its status, and emits a display event. Returns true exactly for
    /// the `stop` sentinel, which changes nothing and ends the loop.
    /// A message for an unknown host changes nothing.
    pub fn process_update(&mut self, message: StateUpdateMessage) -> (r: bool)
        ensures
            r == message@.stop,
            message@.stop ==> final(self).hosts@ == old(self).hosts@
                && final(self).display_outbox@ == old(self).display_outbox@,
            !message@.stop && !old(self).hosts@.contains_key(message@.host_name)
                ==> final(self).hosts@ == old(self).hosts@
                && final(self).display_outbox@ == old(self).display_outbox@,
            !message@.stop && old(self).hosts@.contains_key(message@.host_name) ==> ({
                let applied = spec_state_applied(old(self).hosts@[message@.host_name], message@);
                &&& final(self).hosts@ == old(self).hosts@.insert(message@.host_name, applied)
                &&& final(self).display_outbox@.len() == old(self).display_outbox@.len() + 1
                &&& final(self).display_outbox@.last()@ == spec_display_event(applied)
                &&& final(self).display_outbox@.take(old(self).display_outbox@.len() as int)
                    == old(self).display_outbox@
            }),
    {
        if message.stop {
            return true;
        }
        let mut state = match self.hosts.take(message.host_name.as_str()) {
            Some(s) => s,
            None => {
                proof {
                    assert(self.hosts@ =~= old(self).hosts@);
                }
                return false;
            },
        };
        let ghost before = state@;
        match &message.data_point {
            Some(point) => {
                let values = match state.monitor_data.take(message.module_spec.id.as_str()) {
                    Some(existing) => {
                        let MonitoringData { values, display_options: _ } = existing;
                        values
                    },
                    None => Vec::new(),
                };
                let mut values = values;
                let ghost values_before = values.deep_view();
                values.push(point.clone());
                proof {
                    assert(values.deep_view() =~= values_before.push(point@));
                }
                let entry = MonitoringData {
                    values,
                    display_options: message.display_options.clone(),
                };
                state.monitor_data.insert(message.module_spec.id.clone(), entry);
                proof {
                    assert(state.monitor_data@ =~~= spec_data_applied(
                        before.monitor_data,
                        message@.module_spec.id,
                        point@,
                        message@.display_options,
                    ));
                }
            },
            None => {},
        }
        match &message.command_result {
            Some(result) => {
                state.command_results.insert(message.module_spec.id.clone(), result.clone());
            },
            None => {},
        }
        state.status = Self::compute_status(&state.monitor_data);
        let ghost applied = spec_state_applied(before, message@);
        proof {
            assert(state@ =~= applied);
        }
        let event = HostDisplayData {
            name: state.host.name.clone(),
            domain_name: state.host.fqdn.clone(),
            ip_address: state.host.address.clone(),
            status: state.status,
            monitoring_data: state.monitor_data.view_clone(),
        };
        proof {
            assert(event@ =~= spec_display_event(applied));
        }
        let ghost outbox_before = self.display_outbox@;
        self.display_outbox.push(event);
        proof {
            assert(self.display_outbox@.take(outbox_before.len() as int) =~= outbox_before);
        }
        self.hosts.insert(message.host_name.clone(), state);
        false
    }

    /// Hands the accumulated display events to the frontend bridge.
    pub fn take_display_events(&mut self) -> (r: Vec<HostDisplayData>)
        ensures
            r@ == old(self).display_outbox@,
            final(self).display_outbox@.len() == 0,
            final(self).hosts@ == old(self).hosts@,
    {
        let mut out: Vec<HostDisplayData> = Vec::new();
        core::mem::swap(&mut out, &mut self.display_outbox);
        out
    }
}

} // verus!
