//! The command handler: dispatches operator commands through the
//! connection manager, honours confirmation prompts, and turns command
//! responses into state updates.

use vstd::prelude::*;

use crate::command::Command;
use crate::configuration::Preferences;
use crate::connection_manager::{
    CommandRequestContext, ConnectorRequest, ConnectorRequestView, RequestContext,
    RequestContextView,
};
use crate::data_point::{CommandResult, CommandResultView};
use crate::enums::{CachePolicy, CommandAction, Criticality, RequestType};
use crate::frontend::{DisplayOptions, DisplayOptionsView, FrontendEvent};
use crate::host::{Host, HostView};
use crate::host_manager::{StateUpdateMessage, StateUpdateMessageView};
use crate::module_spec::{ModuleSpecification, ModuleSpecificationView};
use crate::response::{spec_results_view, ResponseMessage};
use crate::string_map::StringMap;

verus! {

/// One command as the frontend lists it: id, action and display options.
pub struct CommandData {
    pub command_id: String,
    pub action: CommandAction,
    pub display_options: DisplayOptions,
}

/// Spec-level contents of a [`CommandData`].
#[verifier::ext_equal]
pub struct CommandDataView {
    pub command_id: Seq<char>,
    pub action: CommandAction,
    pub display_options: DisplayOptionsView,
}

impl View for CommandData {
    type V = CommandDataView;

    open spec fn view(&self) -> CommandDataView {
        CommandDataView {
            command_id: self.command_id@,
            action: self.action,
            display_options: self.display_options@,
        }
    }
}

impl CommandData {
    pub fn new(command_id: String, action: CommandAction, display_options: DisplayOptions) -> (r:
        CommandData)
        ensures
            r@.command_id == command_id@,
            r@.action == action,
            r@.display_options == display_options@,
    {
        CommandData { command_id, action, display_options }
    }
}

/// What one dispatch appends to the request outbox.
pub open spec fn spec_command_request(
    command: Command,
    host: HostView,
    message: Seq<char>,
    invocation_id: u64,
) -> ConnectorRequestView {
    ConnectorRequestView {
        connector_spec: Some(ModuleSpecificationView { id: "ssh"@, version: "0.0.1"@ }),
        source_id: command.spec_id(),
        host,
        messages: seq![message],
        request_type: RequestType::Command,
        response_context: RequestContextView::Command(
            CommandRequestContext { command, invocation_id },
        ),
        cache_policy: CachePolicy::BypassCache,
    }
}

/// The command result a response yields: the processed first response,
/// or the failure sentinel, stamped with the invocation id either way.
pub open spec fn spec_command_outcome(
    command: Command,
    results: Seq<Result<crate::response::ResponseMessageView, Seq<char>>>,
    invocation_id: u64,
) -> CommandResultView {
    if results.len() > 0 && results[0] is Ok {
        match command.spec_process_response(
            results[0]->Ok_0.message,
            results[0]->Ok_0.return_code,
        ) {
            Ok(payload) => CommandResultView {
                message: payload.0,
                criticality: payload.1,
                invocation_id,
            },
            Err(_) => CommandResultView {
                message: Seq::empty(),
                criticality: Criticality::Critical,
                invocation_id,
            },
        }
    } else {
        CommandResultView {
            message: Seq::empty(),
            criticality: Criticality::Critical,
            invocation_id,
        }
    }
}

/// What dispatching one resolved command does to the handler: a terminal
/// command raises a frontend terminal request; otherwise its connector
/// message is enqueued under a fresh invocation id, and a message that
/// cannot be built reports the failure sentinel in a state update.
pub open spec fn spec_dispatched(
    pre: CommandHandler,
    post: CommandHandler,
    host: HostView,
    command: Command,
    target: Seq<char>,
) -> bool {
    &&& post.commands == pre.commands
    &&& post.hosts == pre.hosts
    &&& if command.spec_action() == CommandAction::Terminal {
        &&& post.event_outbox@.len() == pre.event_outbox@.len() + 1
        &&& (post.event_outbox@.last() matches FrontendEvent::TerminalRequested { argv })
        &&& post.request_outbox@ == pre.request_outbox@
        &&& post.update_outbox@ == pre.update_outbox@
        &&& post.invocation_id_counter == pre.invocation_id_counter
    } else {
        match command.spec_connector_message(host, target) {
            Ok(message) => {
                &&& post.invocation_id_counter == pre.invocation_id_counter + 1
                &&& post.request_outbox.deep_view() == pre.request_outbox.deep_view() + seq![
                    spec_command_request(
                        command,
                        host,
                        message,
                        (pre.invocation_id_counter + 1) as u64,
                    ),
                ]
                &&& post.update_outbox@ == pre.update_outbox@
                &&& post.event_outbox@ == pre.event_outbox@
            },
            Err(_) => {
                &&& post.invocation_id_counter == pre.invocation_id_counter
                &&& post.request_outbox@ == pre.request_outbox@
                &&& post.event_outbox@ == pre.event_outbox@
                &&& post.update_outbox.deep_view() == pre.update_outbox.deep_view() + seq![
                    spec_command_update(
                        command,
                        host.name,
                        CommandResultView {
                            message: Seq::empty(),
                            criticality: Criticality::Critical,
                            invocation_id: 0,
                        },
                    ),
                ]
            },
        }
    }
}

/// The state update that reports a command result.
pub open spec fn spec_command_update(
    command: Command,
    host_name: Seq<char>,
    result: CommandResultView,
) -> StateUpdateMessageView {
    StateUpdateMessageView {
        host_name,
        display_options: command.spec_display_options(),
        module_spec: ModuleSpecificationView { id: command.spec_id(), version: "0.0.1"@ },
        data_point: None,
        command_result: Some(result),
        errors: Seq::empty(),
        stop: false,
    }
}

/// Dispatches operator commands and processes their results.
pub struct CommandHandler {
    pub commands: StringMap<StringMap<Command>>,
    pub hosts: StringMap<Host>,
    pub preferences: Preferences,
    pub invocation_id_counter: u64,
    pub request_outbox: Vec<ConnectorRequest>,
    pub update_outbox: Vec<StateUpdateMessage>,
    pub event_outbox: Vec<FrontendEvent>,
}

impl CommandHandler {
    pub fn new(preferences: Preferences) -> (r: CommandHandler)
        ensures
            r.commands@ == Map::<Seq<char>, Map<Seq<char>, Command>>::empty(),
            r.hosts@ == Map::<Seq<char>, HostView>::empty(),
            r.invocation_id_counter == 0,
            r.request_outbox@.len() == 0,
            r.update_outbox@.len() == 0,
            r.event_outbox@.len() == 0,
    {
        CommandHandler {
            commands: StringMap::new(),
            hosts: StringMap::new(),
            preferences,
            invocation_id_counter: 0,
            request_outbox: Vec::new(),
            update_outbox: Vec::new(),
            event_outbox: Vec::new(),
        }
    }

    /// Registers a command for a host; an id already present is kept.
    pub fn add_command(&mut self, host: &Host, command: Command)
        ensures
            ({
                let inner = if old(self).commands@.contains_key(host@.name) {
                    old(self).commands@[host@.name]
                } else {
                    Map::empty()
                };
                final(self).commands@ == old(self).commands@.insert(
                    host@.name,
                    if inner.contains_key(command.spec_id()) {
                        inner
                    } else {
                        inner.insert(command.spec_id(), command)
                    },
                )
            }),
            final(self).hosts@ == old(self).hosts@.insert(host@.name, host@),
            final(self).invocation_id_counter == old(self).invocation_id_counter,
            final(self).request_outbox@ == old(self).request_outbox@,
            final(self).update_outbox@ == old(self).update_outbox@,
            final(self).event_outbox@ == old(self).event_outbox@,
    {
        let mut collection = match self.commands.take(host.name.as_str()) {
            Some(c) => c,
            None => StringMap::new(),
        };
        let module_spec = command.get_module_spec();
        if !collection.contains_key(module_spec.id.as_str()) {
            collection.insert(module_spec.id, command);
        }
        self.commands.insert(host.name.clone(), collection);
        self.hosts.insert(host.name.clone(), host.clone());
        proof {
            assert(self.commands@ =~~= old(self).commands@.insert(
                host@.name,
                if (if old(self).commands@.contains_key(host@.name) {
                    old(self).commands@[host@.name]
                } else {
                    Map::empty()
                }).contains_key(command.spec_id()) {
                    (if old(self).commands@.contains_key(host@.name) {
                        old(self).commands@[host@.name]
                    } else {
                        Map::empty()
                    })
                } else {
                    (if old(self).commands@.contains_key(host@.name) {
                        old(self).commands@[host@.name]
                    } else {
                        Map::empty()
                    }).insert(command.spec_id(), command)
                },
            ));
        }
    }

    /// Dispatches a resolved command: a terminal command becomes a
    /// frontend terminal request; otherwise the connector message is
    /// built and enqueued under a fresh invocation id, and a message
    /// that cannot be built reports the failure sentinel instead.
    fn dispatch(&mut self, host: Host, command: Command, target_id: &String)
        requires
            old(self).invocation_id_counter < u64::MAX,
        ensures
            spec_dispatched(*old(self), *final(self), host@, command, target_id@),
    {
        if matches!(command.get_action(), CommandAction::Terminal) {
            let mut argv: Vec<String> = Vec::new();
            argv.push(self.preferences.terminal.clone());
            let mut terminal_args = crate::utils::clone_string_vec(&self.preferences.terminal_args);
            argv.append(&mut terminal_args);
            argv.push(target_id.clone());
            self.event_outbox.push(FrontendEvent::TerminalRequested { argv });
            return ;
        }
        match command.get_connector_message(&host, target_id) {
            Ok(message) => {
                let invocation_id = self.invocation_id_counter + 1;
                self.invocation_id_counter = invocation_id;
                let connector_spec = command.get_connector_spec();
                let source_id = command.get_module_spec().id;
                let mut messages: Vec<String> = Vec::new();
                messages.push(message);
                let request = ConnectorRequest {
                    connector_spec,
                    source_id,
                    host,
                    messages,
                    request_type: RequestType::Command,
                    response_context: RequestContext::Command(
                        CommandRequestContext { command, invocation_id },
                    ),
                    cache_policy: CachePolicy::BypassCache,
                };
                let ghost requestv = request@;
                let ghost before = self.request_outbox.deep_view();
                self.request_outbox.push(request);
                proof {
                    assert(requestv =~= spec_command_request(
                        command,
                        requestv.host,
                        requestv.messages[0],
                        invocation_id,
                    ));
                    assert(self.request_outbox.deep_view() =~= before + seq![requestv]);
                }
            },
            Err(_) => {
                let update = StateUpdateMessage {
                    host_name: host.name.clone(),
                    display_options: command.get_display_options(),
                    module_spec: command.get_module_spec(),
                    data_point: None,
                    command_result: Some(CommandResult::empty_and_critical()),
                    errors: Vec::new(),
                    stop: false,
                };
                let ghost updatev = update@;
                let ghost before = self.update_outbox.deep_view();
                self.update_outbox.push(update);
                proof {
                    assert(updatev =~= spec_command_update(
                        command,
                        host@.name,
                        CommandResultView {
                            message: Seq::empty(),
                            criticality: Criticality::Critical,
                            invocation_id: 0,
                        },
                    ));
                    assert(self.update_outbox.deep_view() =~= before + seq![updatev]);
                }
            },
        }
    }

    /// Resolves the `(host, command)` pair of an execution request.
    fn resolve(&self, host_id: &String, command_id: &String) -> (r: Option<(Host, Command)>)
        ensures
            match r {
                Some(pair) => self.hosts@.contains_key(host_id@) && self.commands@.contains_key(
                    host_id@,
                ) && self.commands@[host_id@].contains_key(command_id@) && pair.0@
                    == self.hosts@[host_id@] && pair.1 == self.commands@[host_id@][command_id@],
                None => !(self.hosts@.contains_key(host_id@) && self.commands@.contains_key(
                    host_id@,
                ) && self.commands@[host_id@].contains_key(command_id@)),
            },
    {
        let host = match self.hosts.get(host_id.as_str()) {
            Some(h) => h.clone(),
            None => {
                return None;
            },
        };
        let collection = match self.commands.get(host_id.as_str()) {
            Some(c) => c,
            None => {
                return None;
            },
        };
        match collection.get(command_id.as_str()) {
            Some(command) => Some((host, *command)),
            None => None,
        }
    }

    /// Executes a command. A command that demands confirmation is not
    /// dispatched: a confirmation request is signalled to the frontend,
    /// which calls [`Self::execute_confirmed`] to proceed. Returns the
    /// command's action so the frontend can open its surface; an unknown
    /// host or command yields no action and changes nothing.
    pub fn execute(&mut self, host_id: &String, command_id: &String, target_id: &String) -> (r:
        CommandAction)
        requires
            old(self).invocation_id_counter < u64::MAX,
        ensures
            ({
                let known = old(self).hosts@.contains_key(host_id@)
                    && old(self).commands@.contains_key(host_id@)
                    && old(self).commands@[host_id@].contains_key(command_id@);
                if !known {
                    &&& r == CommandAction::NoAction
                    &&& *final(self) == *old(self)
                } else {
                    let command = old(self).commands@[host_id@][command_id@];
                    &&& r == command.spec_action()
                    &&& (command.spec_confirmation_text().len() > 0 ==> {
                        &&& final(self).request_outbox@ == old(self).request_outbox@
                        &&& final(self).update_outbox@ == old(self).update_outbox@
                        &&& final(self).invocation_id_counter == old(
                            self,
                        ).invocation_id_counter
                        &&& final(self).event_outbox@.len() == old(self).event_outbox@.len() + 1
                        &&& (final(self).event_outbox@.last()
                            matches FrontendEvent::ConfirmationRequested {
                            text,
                            host_id: h,
                            command_id: c,
                            target_id: t,
                        } && text@ == command.spec_confirmation_text() && h@ == host_id@ && c@
                            == command_id@ && t@ == target_id@)
                    })
                    &&& (command.spec_confirmation_text().len() == 0 ==> spec_dispatched(
                        *old(self),
                        *final(self),
                        old(self).hosts@[host_id@],
                        command,
                        target_id@,
                    ))
                }
            }),
            final(self).commands == old(self).commands,
            final(self).hosts == old(self).hosts,
    {
        let (host, command) = match self.resolve(host_id, command_id) {
            Some(pair) => pair,
            None => {
                return CommandAction::NoAction;
            },
        };
        let action = command.get_action();
        let options = command.get_display_options();
        if !options.confirmation_text.as_str().is_empty() {
            self.event_outbox.push(
                FrontendEvent::ConfirmationRequested {
                    text: options.confirmation_text,
                    host_id: host_id.clone(),
                    command_id: command_id.clone(),
                    target_id: target_id.clone(),
                },
            );
            return action;
        }
        self.dispatch(host, command, target_id);
        action
    }

    /// Executes a command whose confirmation the frontend has obtained.
    pub fn execute_confirmed(
        &mut self,
        host_id: &String,
        command_id: &String,
        target_id: &String,
    ) -> (r: CommandAction)
        requires
            old(self).invocation_id_counter < u64::MAX,
        ensures
            ({
                let known = old(self).hosts@.contains_key(host_id@)
                    && old(self).commands@.contains_key(host_id@)
                    && old(self).commands@[host_id@].contains_key(command_id@);
                if !known {
                    r == CommandAction::NoAction && *final(self) == *old(self)
                } else {
                    let command = old(self).commands@[host_id@][command_id@];
                    r == command.spec_action() && spec_dispatched(
                        *old(self),
                        *final(self),
                        old(self).hosts@[host_id@],
                        command,
                        target_id@,
                    )
                }
            }),
            final(self).commands == old(self).commands,
            final(self).hosts == old(self).hosts,
    {
        let (host, command) = match self.resolve(host_id, command_id) {
            Some(pair) => pair,
            None => {
                return CommandAction::NoAction;
            },
        };
        let action = command.get_action();
        self.dispatch(host, command, target_id);
        action
    }

    /// Processes the results of one command request: the first response
    /// is parsed by the command (the failure sentinel stands in when
    /// there is none, or parsing fails), and a state update carrying the
    /// command result is emitted.
    pub fn handle_response(
        &mut self,
        request: ConnectorRequest,
        results: Vec<Result<ResponseMessage, String>>,
    )
        requires
            request@.response_context is Command,
        ensures
            final(self).commands == old(self).commands,
            final(self).hosts == old(self).hosts,
            final(self).invocation_id_counter == old(self).invocation_id_counter,
            final(self).request_outbox@ == old(self).request_outbox@,
            final(self).event_outbox@ == old(self).event_outbox@,
            ({
                let ctx = request@.response_context->Command_0;
                final(self).update_outbox.deep_view() == old(self).update_outbox.deep_view()
                    + seq![
                    spec_command_update(
                        ctx.command,
                        request@.host.name,
                        spec_command_outcome(
                            ctx.command,
                            spec_results_view(results@),
                            ctx.invocation_id,
                        ),
                    ),
                ]
            }),
    {
        let ghost rv = spec_results_view(results@);
        let ConnectorRequest {
            connector_spec: _,
            source_id: _,
            host,
            messages: _,
            request_type: _,
            response_context,
            cache_policy: _,
        } = request;
        let ctx = match response_context {
            RequestContext::Command(c) => c,
            RequestContext::Monitor(_) => {
                proof {
                    assert(false);
                }
                return ;
            },
        };
        let command = ctx.command;
        let mut result: CommandResult = if results.len() > 0 {
            proof {
                assert(rv[0] == crate::response::spec_result_view(results@[0]));
            }
            match &results[0] {
                Ok(response) => {
                    match command.process_response(&host, response) {
                        Ok(r) => r,
                        Err(_) => CommandResult::empty_and_critical(),
                    }
                },
                Err(_) => CommandResult::empty_and_critical(),
            }
        } else {
            CommandResult::empty_and_critical()
        };
        result.invocation_id = ctx.invocation_id;
        proof {
            assert(result@ =~= spec_command_outcome(command, rv, ctx.invocation_id));
        }
        let update = StateUpdateMessage {
            host_name: host.name.clone(),
            display_options: command.get_display_options(),
            module_spec: command.get_module_spec(),
            data_point: None,
            command_result: Some(result),
            errors: Vec::new(),
            stop: false,
        };
        let ghost updatev = update@;
        let ghost before = self.update_outbox.deep_view();
        self.update_outbox.push(update);
        proof {
            assert(updatev =~= spec_command_update(
                command,
                host@.name,
                spec_command_outcome(command, rv, ctx.invocation_id),
            ));
            assert(self.update_outbox.deep_view() =~= before + seq![updatev]);
        }
    }

    /// The commands of one host as the frontend lists them; an unknown
    /// host has none.
    pub fn get_host_commands(&self, host_id: &String) -> (r: StringMap<CommandData>)
        ensures
            if self.commands@.contains_key(host_id@) {
                r@ == Map::new(
                    |id: Seq<char>| self.commands@[host_id@].contains_key(id),
                    |id: Seq<char>|
                        CommandDataView {
                            command_id: id,
                            action: self.commands@[host_id@][id].spec_action(),
                            display_options: self.commands@[host_id@][id].spec_display_options(),
                        },
                )
            } else {
                r@ == Map::<Seq<char>, CommandDataView>::empty()
            },
    {
        let collection = match self.commands.get(host_id.as_str()) {
            Some(c) => c,
            None => {
                return StringMap::new();
            },
        };
        proof {
            use_type_invariant(collection);
        }
        let ghost entries = collection.entry_seq();
        let n = collection.len();
        let mut out: StringMap<CommandData> = StringMap::new();
        let mut i: usize = 0;
        while i < n
            invariant
                0 <= i <= n,
                n == entries.len(),
                collection.wf(),
                entries == collection.entry_seq(),
                forall|k: Seq<char>|
                    out@.contains_key(k) <==> exists|j: int| 0 <= j < i && entries[j].0@ == k,
                forall|j: int|
                    0 <= j < i ==> out@.contains_key(#[trigger] entries[j].0@) && out@[entries[j].0@]
                        =~= (CommandDataView {
                        command_id: entries[j].0@,
                        action: entries[j].1.spec_action(),
                        display_options: entries[j].1.spec_display_options(),
                    }),
            decreases n - i,
        {
            let command_id = collection.key_at(i).clone();
            let command = *collection.value_at(i);
            let data = CommandData {
                command_id: command_id.clone(),
                action: command.get_action(),
                display_options: command.get_display_options(),
            };
            out.insert(command_id, data);
            proof {
                assert forall|j: int, l: int|
                    0 <= j < l < entries.len() implies entries[j].0@ != entries[l].0@ by {
                    collection.lemma_keys_distinct(j, l);
                }
            }
            i += 1;
        }
        proof {
            let target = Map::new(
                |id: Seq<char>| self.commands@[host_id@].contains_key(id),
                |id: Seq<char>|
                    CommandDataView {
                        command_id: id,
                        action: self.commands@[host_id@][id].spec_action(),
                        display_options: self.commands@[host_id@][id].spec_display_options(),
                    },
            );
            assert forall|k: Seq<char>| #[trigger] out@.contains_key(k) == target.contains_key(
                k,
            ) by {
                if out@.contains_key(k) {
                    let j = choose|j: int| 0 <= j < n && entries[j].0@ == k;
                    collection.lemma_entry_at(j);
                }
                if collection@.contains_key(k) {
                    collection.lemma_key_has_entry(k);
                }
            }
            assert forall|k: Seq<char>| #[trigger] out@.contains_key(k) implies out@[k]
                == target[k] by {
                let j = choose|j: int| 0 <= j < n && entries[j].0@ == k;
                collection.lemma_entry_at(j);
            }
            assert(out@ =~~= target);
        }
        out
    }
}

} // verus!
