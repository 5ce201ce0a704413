//! End-to-end flows through the engine: refresh scheduling, chaining,
//! cache policies, and command dispatch.

use lightkeeper::command::Command;
use lightkeeper::configuration::{
    CacheSettings, Host as HostConfig, Hosts, MonitorConfig, Preferences,
};
use lightkeeper::connection_manager::{ConnectionManager, MessageStep, RequestContext};
use lightkeeper::command_handler::CommandHandler;
use lightkeeper::enums::{CachePolicy, CommandAction, Criticality};
use lightkeeper::frontend::FrontendEvent;
use lightkeeper::host::Host;
use lightkeeper::monitor_manager::MonitorManager;
use lightkeeper::monitoring::{DockerPs, Monitor, PlatformInfoSsh, Ssh};
use lightkeeper::response::ResponseMessage;
use lightkeeper::string_map::StringMap;

fn cache_settings(enable: bool, prefer: bool) -> CacheSettings {
    CacheSettings {
        enable_cache: enable,
        provide_initial_value: false,
        initial_value_time_to_live: 300,
        prefer_cache: prefer,
        time_to_live: 60,
    }
}

fn test_host(name: &str) -> Host {
    Host::new(name.to_string(), "10.0.0.1".to_string(), "h.example".to_string())
}

fn preferences() -> Preferences {
    Preferences {
        refresh_hosts_on_start: false,
        use_remote_editor: false,
        sudo_remote_editor: false,
        remote_text_editor: "vim".to_string(),
        text_editor: "nano".to_string(),
        terminal: "xterm".to_string(),
        terminal_args: vec!["-e".to_string()],
    }
}

fn manager_with_monitors(host_name: &str, monitors: Vec<Monitor>) -> MonitorManager {
    let mut manager = MonitorManager::new(cache_settings(false, false));
    manager.set_host(test_host(host_name));
    for monitor in monitors {
        manager.add_monitor(host_name.to_string(), monitor, false);
    }
    manager
}

/// Each accepted refresh advances the counter by the number of bases and
/// returns one contiguous ascending block of ids.
#[test]
fn refresh_assigns_contiguous_invocation_ids() {
    let host_id = "alpha".to_string();
    let mut manager = manager_with_monitors(
        &host_id,
        vec![Monitor::Ssh(Ssh {}), Monitor::Uptime(lightkeeper::monitoring::Uptime {})],
    );
    let category = "host".to_string();
    let ids = manager.refresh_monitors_of_category(&host_id, &category);
    assert_eq!(ids, vec![1, 2]);
    assert_eq!(manager.invocation_id_counter, 2);
    let more = manager.refresh_monitors_of_category(&host_id, &category);
    assert_eq!(more, vec![3, 4]);
    assert_eq!(manager.invocation_id_counter, 4);
    assert_eq!(manager.request_outbox.len(), 4);
}

/// A base's chain runs the base first, then the extension with the
/// base's data point as parent; exactly one state update is emitted,
/// carrying the extension's data point under the refresh's invocation
/// id.
#[test]
fn base_extension_chain_emits_one_update() {
    let host_id = "alpha".to_string();
    let mut manager = manager_with_monitors(
        &host_id,
        vec![
            Monitor::PlatformInfoSsh(PlatformInfoSsh {}),
            Monitor::DockerPs(DockerPs { use_sudo: true }),
        ],
    );
    let category = "host".to_string();
    let ids = manager.refresh_monitors_of_category(&host_id, &category);
    assert_eq!(ids.len(), 1);
    let invocation_id = ids[0];
    assert!(invocation_id > 0);

    // The base's request goes out first.
    assert_eq!(manager.request_outbox.len(), 1);
    let request = manager.request_outbox.remove(0);
    assert_eq!(request.messages, vec!["uname -s".to_string()]);

    // The platform probe answers.
    let results = vec![Ok(ResponseMessage::new_success("Linux\n".to_string()))];
    manager.handle_response(request, results);

    // No update yet: the extension's request follows.
    assert_eq!(manager.update_outbox.len(), 0);
    assert_eq!(manager.request_outbox.len(), 1);
    let extension_request = manager.request_outbox.remove(0);
    assert_eq!(
        extension_request.messages,
        vec!["sudo docker ps --format {{.Names}}".to_string()]
    );
    match &extension_request.response_context {
        RequestContext::Monitor(ctx) => {
            assert_eq!(ctx.invocation_id, invocation_id);
            assert_eq!(ctx.parent.value, "linux".to_string());
        }
        RequestContext::Command(_) => panic!("expected a monitor context"),
    }

    // The container listing answers with two containers.
    let results = vec![Ok(ResponseMessage::new_success("web\ndb".to_string()))];
    manager.handle_response(extension_request, results);

    assert_eq!(manager.request_outbox.len(), 0);
    assert_eq!(manager.update_outbox.len(), 1);
    let update = manager.update_outbox.remove(0);
    let point = update.data_point.expect("the update carries a data point");
    assert_eq!(point.invocation_id, invocation_id);
    assert_eq!(point.criticality, Criticality::Normal);
    assert_eq!(point.multivalue.len(), 2);
    assert_eq!(point.multivalue[0].value, "web".to_string());
    assert_eq!(point.multivalue[1].value, "db".to_string());
}

/// Under OnlyCache with an empty cache nothing reaches the transport and
/// nothing is emitted, but the invocation counter still advances.
#[test]
fn only_cache_miss_is_silent() {
    let host_id = "alpha".to_string();
    let mut manager = manager_with_monitors(&host_id, vec![Monitor::Ssh(Ssh {})]);
    let monitor_id = "ssh".to_string();
    let ids = manager.refresh_monitors_by_id(&host_id, &monitor_id, CachePolicy::OnlyCache);
    assert_eq!(ids, vec![1]);
    assert_eq!(manager.invocation_id_counter, 1);

    let request = manager.request_outbox.remove(0);
    let mut cm = ConnectionManager::new(cache_settings(true, false), 1000);
    let host_name = request.host.name.clone();
    cm.submit(request);
    let mut worker = cm.take_worker(&host_name, "ssh").expect("the pair has a worker");
    let plan = worker.plan_front(&cm.cache, 1000);
    // Nothing is forwarded to the transport.
    for step in &plan {
        assert!(!matches!(step, MessageStep::Forward(_)));
    }
    let (request, results) = worker.complete_front(&mut cm.cache, &plan, Vec::new(), 1000);
    cm.put_worker(host_name, "ssh".to_string(), worker);

    manager.handle_response(request, results);
    // Silent: no state update, no follow-up request.
    assert_eq!(manager.update_outbox.len(), 0);
    assert_eq!(manager.request_outbox.len(), 0);
    assert_eq!(manager.invocation_id_counter, 1);
}

/// Under BypassCache every message reaches the transport; a fresh cache
/// entry then serves a PreferCache refresh without the transport, with
/// the same message and return code.
#[test]
fn cache_round_trip_serves_second_refresh() {
    let host_id = "alpha".to_string();
    let mut manager = manager_with_monitors(&host_id, vec![Monitor::Uptime(lightkeeper::monitoring::Uptime {})]);
    let mut cm = ConnectionManager::new(cache_settings(true, false), 1000);
    let monitor_id = "uptime".to_string();

    // First refresh: bypass, forwarded, written through.
    let ids = manager.refresh_monitors_by_id(&host_id, &monitor_id, CachePolicy::BypassCache);
    assert_eq!(ids, vec![1]);
    let request = manager.request_outbox.remove(0);
    let host_name = request.host.name.clone();
    cm.submit(request);
    let mut worker = cm.take_worker(&host_name, "ssh").expect("worker");
    let plan = worker.plan_front(&cm.cache, 1000);
    for step in &plan {
        assert!(matches!(step, MessageStep::Forward(_)));
    }
    let transport = vec![Ok(ResponseMessage::new_success("up 3 days".to_string()))];
    let (request, results) = worker.complete_front(&mut cm.cache, &plan, transport, 1000);
    cm.put_worker(host_name.clone(), "ssh".to_string(), worker);
    manager.handle_response(request, results);
    let first = manager.update_outbox.remove(0).data_point.unwrap();
    assert_eq!(first.value, "up 3 days".to_string());
    assert!(!first.is_from_cache);

    // Second refresh: prefer-cache inside the TTL, served from cache.
    let ids = manager.refresh_monitors_by_id(&host_id, &monitor_id, CachePolicy::PreferCache);
    assert_eq!(ids, vec![2]);
    let request = manager.request_outbox.remove(0);
    cm.submit(request);
    let mut worker = cm.take_worker(&host_name, "ssh").expect("worker");
    let plan = worker.plan_front(&cm.cache, 1030);
    for step in &plan {
        match step {
            MessageStep::Cached(m) => {
                assert_eq!(m.message, "up 3 days".to_string());
                assert_eq!(m.return_code, 0);
                assert!(m.is_from_cache);
            }
            _ => panic!("expected a cache hit"),
        }
    }
    let (request, results) = worker.complete_front(&mut cm.cache, &plan, Vec::new(), 1030);
    cm.put_worker(host_name, "ssh".to_string(), worker);
    manager.handle_response(request, results);
    let second = manager.update_outbox.remove(0).data_point.unwrap();
    assert_eq!(second.value, first.value);
    assert!(second.is_from_cache);
}

/// Per pair, requests complete in submission order.
#[test]
fn worker_completes_in_submission_order() {
    let mut manager = manager_with_monitors(
        &"alpha".to_string(),
        vec![Monitor::Ssh(Ssh {}), Monitor::Uptime(lightkeeper::monitoring::Uptime {})],
    );
    let category = "host".to_string();
    manager.refresh_monitors_of_category(&"alpha".to_string(), &category);
    let second = manager.request_outbox.pop().unwrap();
    let first = manager.request_outbox.pop().unwrap();
    let first_source = first.source_id.clone();
    let second_source = second.source_id.clone();

    let mut cm = ConnectionManager::new(cache_settings(false, false), 0);
    cm.submit(first);
    cm.submit(second);
    let mut worker = cm.take_worker("alpha", "ssh").expect("worker");
    assert_eq!(worker.queue_len(), 2);
    let plan = worker.plan_front(&cm.cache, 0);
    let transport = vec![Ok(ResponseMessage::new_success(String::new()))];
    let (completed_first, _) = worker.complete_front(&mut cm.cache, &plan, transport, 0);
    assert_eq!(completed_first.source_id, first_source);
    let plan = worker.plan_front(&cm.cache, 0);
    let transport = vec![Ok(ResponseMessage::new_success(String::new()))];
    let (completed_second, _) = worker.complete_front(&mut cm.cache, &plan, transport, 0);
    assert_eq!(completed_second.source_id, second_source);
}

/// A chain whose transport fails and whose extension then cannot build
/// its message still ends in exactly one terminal update, carrying the
/// parent data point and every accumulated error.
#[test]
fn failed_chain_reports_all_errors() {
    let host_id = "alpha".to_string();
    let mut manager = manager_with_monitors(
        &host_id,
        vec![
            Monitor::PlatformInfoSsh(PlatformInfoSsh {}),
            Monitor::DockerPs(DockerPs { use_sudo: true }),
        ],
    );
    let category = "host".to_string();
    let ids = manager.refresh_monitors_of_category(&host_id, &category);
    assert_eq!(ids.len(), 1);

    // The platform probe's transport fails outright.
    let request = manager.request_outbox.remove(0);
    let results = vec![Err("connection refused".to_string())];
    manager.handle_response(request, results);

    // The extension cannot build its message from the failed parent
    // (the platform is unknown), so the chain ends in one terminal
    // update that surfaces both errors.
    assert_eq!(manager.request_outbox.len(), 0);
    assert_eq!(manager.update_outbox.len(), 1);
    let update = manager.update_outbox.remove(0);
    assert_eq!(update.errors.len(), 2);
    assert_eq!(update.errors[0].message, "connection refused");
    assert_eq!(update.errors[1].message, "Unsupported platform");
    let point = update.data_point.unwrap();
    assert_eq!(point.criticality, Criticality::Critical);
    assert_eq!(point.invocation_id, ids[0]);
    assert_eq!(update.module_spec.id, "docker-ps");
}

/// A transport failure leaves the parent data point in the final update,
/// beside the error; the next refresh of the same host succeeds without
/// any manual reconnect.
#[test]
fn transport_failure_reports_error_and_recovers() {
    let host_id = "alpha".to_string();
    let mut manager = manager_with_monitors(&host_id, vec![Monitor::Ssh(Ssh {})]);
    let monitor_id = "ssh".to_string();

    let ids = manager.refresh_monitors_by_id(&host_id, &monitor_id, CachePolicy::BypassCache);
    let request = manager.request_outbox.remove(0);
    let results = vec![Err("connection refused".to_string())];
    manager.handle_response(request, results);
    let update = manager.update_outbox.remove(0);
    assert_eq!(update.errors.len(), 1);
    assert_eq!(update.errors[0].message, "connection refused".to_string());
    assert_eq!(update.errors[0].criticality, Criticality::Error);
    let point = update.data_point.unwrap();
    // The parent placeholder is retained, stamped with the invocation id.
    assert_eq!(point.criticality, Criticality::Critical);
    assert_eq!(point.value, String::new());
    assert_eq!(point.invocation_id, ids[0]);

    // The next refresh works without any reconnect step.
    manager.refresh_monitors_by_id(&host_id, &monitor_id, CachePolicy::BypassCache);
    let request = manager.request_outbox.remove(0);
    let results = vec![Ok(ResponseMessage::new_success("ok".to_string()))];
    manager.handle_response(request, results);
    let update = manager.update_outbox.remove(0);
    assert_eq!(update.data_point.unwrap().value, "up".to_string());
}

/// A command with a confirmation text is not dispatched until the
/// frontend confirms; the confirmation request carries the text.
#[test]
fn command_confirmation_gates_dispatch() {
    let mut handler = CommandHandler::new(preferences());
    let mut host = test_host("alpha");
    host.platform.os = lightkeeper::platform_info::OperatingSystem::Linux;
    let command = Command::ComposeStop(lightkeeper::command::Stop {});
    handler.add_command(&host, command);

    let host_id = "alpha".to_string();
    let command_id = "docker-compose-stop".to_string();
    let target = "docker-compose.yml".to_string();
    let action = handler.execute(&host_id, &command_id, &target);
    assert_eq!(action, CommandAction::NoAction);
    assert_eq!(handler.request_outbox.len(), 0);
    assert_eq!(handler.event_outbox.len(), 1);
    match &handler.event_outbox[0] {
        FrontendEvent::ConfirmationRequested { text, host_id: h, command_id: c, target_id: t } => {
            assert_eq!(text, "Really stop service?");
            assert_eq!(h, "alpha");
            assert_eq!(c, "docker-compose-stop");
            assert_eq!(t, "docker-compose.yml");
        }
        _ => panic!("expected a confirmation request"),
    }

    // Confirmed: the request is dispatched and a result arrives.
    handler.execute_confirmed(&host_id, &command_id, &target);
    assert_eq!(handler.request_outbox.len(), 1);
    let request = handler.request_outbox.remove(0);
    let results = vec![Ok(ResponseMessage::new_success(String::new()))];
    handler.handle_response(request, results);
    assert_eq!(handler.update_outbox.len(), 1);
    let update = handler.update_outbox.remove(0);
    let result = update.command_result.unwrap();
    assert_eq!(result.criticality, Criticality::Normal);
    assert!(result.invocation_id > 0);
}

/// A terminal command short-circuits the connector and asks the frontend
/// for a local terminal.
#[test]
fn terminal_command_short_circuits() {
    let mut handler = CommandHandler::new(preferences());
    let host = test_host("alpha");
    handler.add_command(&host, Command::Shell(lightkeeper::command::Shell {}));
    let action = handler.execute(
        &"alpha".to_string(),
        &"docker-shell".to_string(),
        &"c1".to_string(),
    );
    assert_eq!(action, CommandAction::Terminal);
    assert_eq!(handler.request_outbox.len(), 0);
    match &handler.event_outbox[0] {
        FrontendEvent::TerminalRequested { argv } => {
            assert_eq!(argv, &vec!["xterm".to_string(), "-e".to_string(), "c1".to_string()]);
        }
        _ => panic!("expected a terminal request"),
    }
}

/// An unknown module id is the fatal configure error.
#[test]
fn unknown_monitor_fails_configure() {
    let mut monitors: StringMap<MonitorConfig> = StringMap::new();
    monitors.insert(
        "no-such-monitor".to_string(),
        MonitorConfig {
            version: MonitorConfig::default_version(),
            is_critical: None,
            settings: StringMap::new(),
        },
    );
    let mut hosts_map: StringMap<HostConfig> = StringMap::new();
    hosts_map.insert(
        "alpha".to_string(),
        HostConfig {
            templates: None,
            address: HostConfig::default_address(),
            fqdn: HostConfig::default_fqdn(),
            monitors,
            commands: StringMap::new(),
            connectors: StringMap::new(),
            settings: Vec::new(),
        },
    );
    let hosts = Hosts { hosts: hosts_map };
    let mut manager = MonitorManager::new(cache_settings(false, false));
    let result = manager.configure(&hosts);
    assert_eq!(result.unwrap_err(), "Unknown module".to_string());
}

/// Configure instantiates the configured monitors and seeds exactly the
/// extension monitors with an initial no-data update.
#[test]
fn configure_builds_monitors_and_seeds() {
    let mut monitors: StringMap<MonitorConfig> = StringMap::new();
    for id in ["ssh", "platform-info", "docker-ps"] {
        monitors.insert(
            id.to_string(),
            MonitorConfig {
                version: MonitorConfig::default_version(),
                is_critical: None,
                settings: StringMap::new(),
            },
        );
    }
    let mut hosts_map: StringMap<HostConfig> = StringMap::new();
    hosts_map.insert(
        "alpha".to_string(),
        HostConfig {
            templates: None,
            address: "192.168.1.5".to_string(),
            fqdn: HostConfig::default_fqdn(),
            monitors,
            commands: StringMap::new(),
            connectors: StringMap::new(),
            settings: Vec::new(),
        },
    );
    let hosts = Hosts { hosts: hosts_map };
    let mut manager = MonitorManager::new(cache_settings(false, false));
    manager.configure(&hosts).unwrap();
    assert!(manager.monitors.contains_key("alpha"));
    assert_eq!(manager.hosts.get("alpha").unwrap().address, "192.168.1.5");
    // Only the extension (docker-ps has a parent module) is seeded; the
    // two base monitors are not.
    assert_eq!(manager.update_outbox.len(), 1);
    let update = &manager.update_outbox[0];
    assert_eq!(update.module_spec.id, "docker-ps");
    let point = update.data_point.as_ref().unwrap();
    assert_eq!(point.criticality, Criticality::NoData);
    assert!(!update.stop);
}

/// Bootstrap platform probes carry invocation id zero and never touch
/// the invocation counter.
#[test]
fn platform_probe_uses_bootstrap_id() {
    let host_id = "alpha".to_string();
    let mut manager = manager_with_monitors(&host_id, vec![Monitor::Ssh(Ssh {})]);
    manager.refresh_platform_info(&host_id, None);
    assert_eq!(manager.invocation_id_counter, 0);
    assert_eq!(manager.request_outbox.len(), 1);
    match &manager.request_outbox[0].response_context {
        RequestContext::Monitor(ctx) => assert_eq!(ctx.invocation_id, 0),
        _ => panic!("expected a monitor context"),
    }
    assert_eq!(manager.request_outbox[0].messages, vec!["uname -s".to_string()]);
}

/// A monitor id already present is kept; a new one may be seeded with
/// an initial no-data update.
#[test]
fn add_monitor_is_idempotent_and_seeds() {
    let host_id = "alpha".to_string();
    let mut manager = MonitorManager::new(cache_settings(false, false));
    manager.set_host(test_host(&host_id));
    manager.add_monitor(host_id.clone(), Monitor::Ssh(Ssh {}), true);
    assert_eq!(manager.update_outbox.len(), 1);
    let seed = &manager.update_outbox[0];
    assert_eq!(
        seed.data_point.as_ref().unwrap().criticality,
        Criticality::NoData
    );
    // Adding the same id again changes nothing and seeds nothing.
    manager.add_monitor(host_id.clone(), Monitor::Ssh(Ssh {}), true);
    assert_eq!(manager.update_outbox.len(), 1);
}

/// The frontend's command listing carries each command's action.
#[test]
fn host_commands_listing() {
    let mut handler = CommandHandler::new(preferences());
    let host = test_host("alpha");
    handler.add_command(&host, Command::Logs(lightkeeper::command::Logs {}));
    let listing = handler.get_host_commands(&"alpha".to_string());
    let entry = listing.get("logs").expect("the command is listed");
    assert_eq!(entry.action, CommandAction::LogView);
    assert_eq!(entry.command_id, "logs");
    let empty = handler.get_host_commands(&"other".to_string());
    assert_eq!(empty.len(), 0);
}

/// Sorted, deduplicated category listing.
#[test]
fn host_categories_are_sorted_and_unique() {
    let host_id = "alpha".to_string();
    let manager = manager_with_monitors(
        &host_id,
        vec![
            Monitor::Uptime(lightkeeper::monitoring::Uptime {}),
            Monitor::Ssh(Ssh {}),
            Monitor::DockerPs(DockerPs { use_sudo: false }),
        ],
    );
    let categories = manager.get_all_host_categories(&host_id);
    assert_eq!(categories, vec!["host".to_string()]);
}
