//! Module behaviour: messages, response parsing, configuration merge,
//! versions and rendering.

use lightkeeper::cli::convert_to_string;
use lightkeeper::command::{format_prune_report, Command};
use lightkeeper::configuration::{Host as HostConfig, Hosts, MonitorConfig, Templates};
use lightkeeper::data_point::{DataPoint, SubPoint};
use lightkeeper::enums::{Criticality, HostSetting};
use lightkeeper::frontend::{DisplayOptions, DisplayStyle};
use lightkeeper::host::Host;
use lightkeeper::host_manager::{HostManager, StateUpdateMessage};
use lightkeeper::module_spec::ModuleSpecification;
use lightkeeper::monitoring::Monitor;
use lightkeeper::numfmt::{i64_to_string, u64_to_string};
use lightkeeper::response::ResponseMessage;
use lightkeeper::string_map::StringMap;
use lightkeeper::platform_info::{Flavor, OperatingSystem, PlatformInfo};
use lightkeeper::version::VersionNumber;

fn empty_host_config() -> HostConfig {
    HostConfig {
        templates: None,
        address: HostConfig::default_address(),
        fqdn: HostConfig::default_fqdn(),
        monitors: StringMap::new(),
        commands: StringMap::new(),
        connectors: StringMap::new(),
        settings: Vec::new(),
    }
}

fn monitor_config(version: &str) -> MonitorConfig {
    MonitorConfig {
        version: version.to_string(),
        is_critical: None,
        settings: StringMap::new(),
    }
}

/// A host with an empty monitors map inherits the template's monitor.
#[test]
fn template_provides_missing_monitor() {
    let mut host = empty_host_config();
    host.templates = Some(vec!["T".to_string()]);
    let mut hosts_map: StringMap<HostConfig> = StringMap::new();
    hosts_map.insert("H".to_string(), host);
    let mut hosts = Hosts { hosts: hosts_map };

    let mut template = empty_host_config();
    template.monitors.insert("uptime".to_string(), monitor_config("0.0.1"));
    let mut templates_map: StringMap<HostConfig> = StringMap::new();
    templates_map.insert("T".to_string(), template);
    let templates = Templates { templates: templates_map };

    hosts.apply_templates(&templates).unwrap();
    let merged = hosts.hosts.get("H").unwrap();
    assert_eq!(merged.monitors.get("uptime").unwrap().version, "0.0.1");
}

/// On a key both the host and the template define, the host wins.
#[test]
fn template_merge_host_wins() {
    let mut host = empty_host_config();
    host.templates = Some(vec!["T".to_string()]);
    host.monitors.insert("uptime".to_string(), monitor_config("0.0.2"));
    let mut hosts_map: StringMap<HostConfig> = StringMap::new();
    hosts_map.insert("H".to_string(), host);
    let mut hosts = Hosts { hosts: hosts_map };

    let mut template = empty_host_config();
    template.monitors.insert("uptime".to_string(), monitor_config("0.0.1"));
    template.monitors.insert("ssh".to_string(), monitor_config("0.0.1"));
    let mut templates_map: StringMap<HostConfig> = StringMap::new();
    templates_map.insert("T".to_string(), template);
    let templates = Templates { templates: templates_map };

    hosts.apply_templates(&templates).unwrap();
    let merged = hosts.hosts.get("H").unwrap();
    assert_eq!(merged.monitors.get("uptime").unwrap().version, "0.0.2");
    assert_eq!(merged.monitors.get("ssh").unwrap().version, "0.0.1");
}

/// A missing template is fatal.
#[test]
fn missing_template_is_fatal() {
    let mut host = empty_host_config();
    host.templates = Some(vec!["absent".to_string()]);
    let mut hosts_map: StringMap<HostConfig> = StringMap::new();
    hosts_map.insert("H".to_string(), host);
    let mut hosts = Hosts { hosts: hosts_map };
    let templates = Templates { templates: StringMap::new() };
    assert_eq!(hosts.apply_templates(&templates).unwrap_err(), "No such template");
}

/// The prune command reads the reclaimed byte count out of the JSON body.
#[test]
fn prune_parses_reclaimed_space() {
    let command = Command::Prune(lightkeeper::command::Prune {});
    let host = Host::new("h".to_string(), "a".to_string(), String::new());
    let response = ResponseMessage::new_success("{\"SpaceReclaimed\": 12345}".to_string());
    let result = command.process_response(&host, &response).unwrap();
    assert_eq!(result.message, "Total reclaimed space: 12345 B");
    assert_eq!(result.criticality, Criticality::Info);
}

/// A body that is not JSON, or lacks the field, is a parse failure.
#[test]
fn prune_rejects_malformed_body() {
    let command = Command::Prune(lightkeeper::command::Prune {});
    let host = Host::new("h".to_string(), "a".to_string(), String::new());
    let response = ResponseMessage::new_success("not json".to_string());
    match command.process_response(&host, &response) {
        Err(e) => assert_eq!(e, "Failed to parse response"),
        Ok(_) => panic!("expected a parse failure"),
    }
    let response = ResponseMessage::new_success("{\"Other\": 1}".to_string());
    assert!(command.process_response(&host, &response).is_err());
}

#[test]
fn prune_report_format() {
    assert_eq!(format_prune_report(0), "Total reclaimed space: 0 B");
    assert_eq!(format_prune_report(-7), "Total reclaimed space: -7 B");
}

/// The journal command builds its message from the target.
#[test]
fn logs_messages_by_target() {
    let command = Command::Logs(lightkeeper::command::Logs {});
    let host = Host::new("h".to_string(), "a".to_string(), String::new());
    assert_eq!(
        command.get_connector_message(&host, &String::new()).unwrap(),
        "sudo journalctl -q -n 500"
    );
    assert_eq!(
        command.get_connector_message(&host, &"dmesg".to_string()).unwrap(),
        "sudo journalctl -q -n 500 --dmesg"
    );
    assert_eq!(
        command.get_connector_message(&host, &"sshd".to_string()).unwrap(),
        "sudo journalctl -q -n 500 -u sshd"
    );
}

/// The compose-stop command honours the host's sudo flag and rejects
/// non-Linux platforms.
#[test]
fn compose_stop_message() {
    let command = Command::ComposeStop(lightkeeper::command::Stop {});
    let mut host = Host::new("h".to_string(), "a".to_string(), String::new());
    host.platform.os = lightkeeper::platform_info::OperatingSystem::Linux;
    host.settings.push(HostSetting::UseSudo);
    assert_eq!(
        command.get_connector_message(&host, &"stack.yml".to_string()).unwrap(),
        "sudo docker-compose -f stack.yml stop"
    );
    host.platform.os = lightkeeper::platform_info::OperatingSystem::Windows;
    assert_eq!(
        command.get_connector_message(&host, &"stack.yml".to_string()).unwrap_err(),
        "Unsupported platform"
    );
}

/// The container inspect command splices the target into its URL.
#[test]
fn inspect_message_contains_target() {
    let command = Command::Inspect(lightkeeper::command::Inspect {});
    let host = Host::new("h".to_string(), "a".to_string(), String::new());
    assert_eq!(
        command.get_connector_message(&host, &"abc123".to_string()).unwrap(),
        "sudo curl --unix-socket /var/run/docker.sock http://localhost/containers/abc123/json?all=true"
    );
}

/// Unknown parameters and missing targets are rejected.
#[test]
fn command_message_errors() {
    let host = Host::new("h".to_string(), "a".to_string(), String::new());
    let docker = Command::Docker(lightkeeper::command::Docker {});
    assert_eq!(
        docker.get_connector_message(&host, &"volumes".to_string()).unwrap_err(),
        "Unknown command parameter"
    );
    let shell = Command::Shell(lightkeeper::command::Shell {});
    assert_eq!(
        shell.get_connector_message(&host, &String::new()).unwrap_err(),
        "Target container is mandatory"
    );
    let pull = Command::ComposePull(lightkeeper::command::Pull { use_sudo: false });
    assert_eq!(
        pull.get_connector_message(&host, &"stack.yml".to_string()).unwrap(),
        "docker-compose -f stack.yml pull"
    );
    // The plural parameter form: a missing compose file is the error.
    assert_eq!(
        pull.get_connector_message_params(&host, &Vec::new()).unwrap_err(),
        "Compose file is mandatory"
    );
}

/// The plural parameter form appends the optional service name.
#[test]
fn compose_service_name_is_appended() {
    let mut host = Host::new("h".to_string(), "a".to_string(), String::new());
    host.platform.os = lightkeeper::platform_info::OperatingSystem::Linux;
    host.settings.push(HostSetting::UseSudo);
    let pull = Command::ComposePull(lightkeeper::command::Pull { use_sudo: true });
    let parameters = vec!["stack.yml".to_string(), "web".to_string()];
    assert_eq!(
        pull.get_connector_message_params(&host, &parameters).unwrap(),
        "sudo docker-compose -f stack.yml pull web"
    );
    let stop = Command::ComposeStop(lightkeeper::command::Stop {});
    assert_eq!(
        stop.get_connector_message_params(&host, &parameters).unwrap(),
        "sudo docker-compose -f stack.yml stop web"
    );
    // Without a service name the single-file form comes out.
    let file_only = vec!["stack.yml".to_string()];
    assert_eq!(
        stop.get_connector_message_params(&host, &file_only).unwrap(),
        "sudo docker-compose -f stack.yml stop"
    );
}

/// The platform probe accepts only a Linux first line.
#[test]
fn platform_probe_parses_uname() {
    let monitor = Monitor::PlatformInfoSsh(lightkeeper::monitoring::PlatformInfoSsh {});
    let host = Host::new("h".to_string(), "a".to_string(), String::new());
    let parent = DataPoint::empty();
    let ok = ResponseMessage::new_success("Linux\n".to_string());
    let point = monitor.process_response(&host, &ok, &parent).unwrap();
    assert_eq!(point.value, "linux");
    let other = ResponseMessage::new_success("Darwin\n".to_string());
    match monitor.process_response(&host, &other, &parent) {
        Err(e) => assert_eq!(e, "Unsupported platform"),
        Ok(_) => panic!("expected a platform error"),
    }
    let failed = ResponseMessage::new("no shell".to_string(), 1);
    match monitor.process_response(&host, &failed, &parent) {
        Err(e) => assert_eq!(e, "no shell"),
        Ok(_) => panic!("expected the probe's error"),
    }
}

/// The SSH probe maps the return code to up or down.
#[test]
fn ssh_monitor_reports_status() {
    let monitor = Monitor::Ssh(lightkeeper::monitoring::Ssh {});
    let host = Host::new("h".to_string(), "a".to_string(), String::new());
    let parent = DataPoint::empty();
    let up = monitor
        .process_response(&host, &ResponseMessage::new_success(String::new()), &parent)
        .unwrap();
    assert_eq!(up.value, "up");
    assert_eq!(up.criticality, Criticality::Normal);
    let down = monitor
        .process_response(&host, &ResponseMessage::new(String::new(), 255), &parent)
        .unwrap();
    assert_eq!(down.value, "down");
    assert_eq!(down.criticality, Criticality::Critical);
}

/// The container listing refuses to run before the platform is known.
#[test]
fn docker_ps_requires_linux_parent() {
    let monitor = Monitor::DockerPs(lightkeeper::monitoring::DockerPs { use_sudo: false });
    let host = Host::new("h".to_string(), "a".to_string(), String::new());
    let parent = DataPoint::empty();
    assert_eq!(
        monitor.get_connector_message(&host, &parent).unwrap_err(),
        "Unsupported platform"
    );
    let linux_parent = DataPoint::new("linux".to_string());
    assert_eq!(
        monitor.get_connector_message(&host, &linux_parent).unwrap(),
        "docker ps --format {{.Names}}"
    );
}

/// Decimal rendering of unsigned and signed numbers.
#[test]
fn decimal_rendering() {
    assert_eq!(u64_to_string(0), "0");
    assert_eq!(u64_to_string(90210), "90210");
    assert_eq!(u64_to_string(u64::MAX), "18446744073709551615");
    assert_eq!(i64_to_string(-1), "-1");
    assert_eq!(i64_to_string(i64::MIN), "-9223372036854775808");
}

/// Version parsing and ordering.
#[test]
fn version_parse_and_compare() {
    let v = VersionNumber::from_str("1.2.3").unwrap();
    assert_eq!((v.major, v.minor, v.patch), (1, 2, 3));
    let short = VersionNumber::from_str("8").unwrap();
    assert_eq!((short.major, short.minor, short.patch), (8, 0, 0));
    assert!(VersionNumber::from_str("").is_none());
    assert!(VersionNumber::from_str("1.a").is_none());
    assert!(VersionNumber::from_str("1.2.3.4").is_none());
    assert!(v.is_newer_than(&short) == false);
    assert!(short.is_newer_than(&v));
    assert!(v.is_same_or_newer_than(&VersionNumber::from_str("1.2.3").unwrap()));
}

/// Platform comparison goes by flavor and parsed version.
#[test]
fn platform_is_newer_than() {
    let platform = PlatformInfo {
        os: OperatingSystem::Linux,
        os_version: VersionNumber::from_str("10.4").unwrap(),
        os_flavor: Flavor::Debian,
    };
    assert!(platform.is_newer_than(Flavor::Debian, "9"));
    assert!(!platform.is_newer_than(Flavor::Ubuntu, "9"));
    assert!(!platform.is_newer_than(Flavor::Debian, "10.4"));
    assert!(platform.version_is_same_or_greater_than(Flavor::Debian, "10.4"));
    assert!(!platform.is_newer_than(Flavor::Debian, "not a version"));
}

/// Status rendering goes through the real terminal coloring, so a
/// wrapper that returned its argument unchanged would fail here.
#[test]
fn status_cell_is_colored() {
    let mut options = DisplayOptions::default();
    options.display_style = DisplayStyle::StatusUpDown;
    let up = DataPoint::new("up".to_string());
    assert_eq!(convert_to_string(&up, &options), "\u{1b}[32mUp\u{1b}[39m");
    let down = DataPoint::new("down".to_string());
    assert_eq!(convert_to_string(&down, &options), "\u{1b}[31mDown\u{1b}[39m");
}

/// Criticality blocks of a multivalue are colored and joined without a
/// separator.
#[test]
fn multivalue_criticality_blocks() {
    let mut options = DisplayOptions::default();
    options.display_style = DisplayStyle::CriticalityLevel;
    options.use_multivalue = true;
    let subs = vec![
        SubPoint::new("a".to_string(), Criticality::Normal),
        SubPoint::new("b".to_string(), Criticality::Warning),
    ];
    let point = DataPoint::new_multivalue(subs, Criticality::Normal);
    assert_eq!(
        convert_to_string(&point, &options),
        "\u{1b}[32m#\u{1b}[39m\u{1b}[33m#\u{1b}[39m"
    );
}

/// The host manager applies updates, recomputes the status, and emits a
/// display event; a critical latest point takes the host down.
#[test]
fn host_manager_tracks_status() {
    let mut hm = HostManager::new();
    hm.add_host(Host::new("h".to_string(), "1.2.3.4".to_string(), String::new()));
    let mut point = DataPoint::new("down".to_string());
    point.criticality = Criticality::Critical;
    let message = StateUpdateMessage {
        host_name: "h".to_string(),
        display_options: DisplayOptions::default(),
        module_spec: ModuleSpecification::new("ssh", "0.0.1"),
        data_point: Some(point),
        command_result: None,
        errors: Vec::new(),
        stop: false,
    };
    let stop = hm.process_update(message);
    assert!(!stop);
    let events = hm.take_display_events();
    assert_eq!(events.len(), 1);
    assert_eq!(events[0].status, lightkeeper::enums::HostStatus::Down);

    // A normal point brings the host back up.
    let message = StateUpdateMessage {
        host_name: "h".to_string(),
        display_options: DisplayOptions::default(),
        module_spec: ModuleSpecification::new("ssh", "0.0.1"),
        data_point: Some(DataPoint::new("up".to_string())),
        command_result: None,
        errors: Vec::new(),
        stop: false,
    };
    hm.process_update(message);
    let events = hm.take_display_events();
    assert_eq!(events[0].status, lightkeeper::enums::HostStatus::Up);

    // The stop sentinel ends the loop and changes nothing.
    assert!(hm.process_update(StateUpdateMessage::stop()));
}

/// Lazily created connector records: one per pair, missing hosts are
/// errors.
#[test]
fn host_manager_connector_resolution() {
    let mut hm = HostManager::new();
    hm.add_host(Host::new("h".to_string(), "1.2.3.4".to_string(), String::new()));
    let created = hm
        .get_connector(&"h".to_string(), &"ssh".to_string(), None)
        .unwrap();
    assert!(created);
    let created_again = hm
        .get_connector(&"h".to_string(), &"ssh".to_string(), None)
        .unwrap();
    assert!(!created_again);
    assert_eq!(
        hm.get_connector(&"nope".to_string(), &"ssh".to_string(), None).unwrap_err(),
        "No such host"
    );
    assert_eq!(
        hm.get_connector(&"h".to_string(), &"carrier-pigeon".to_string(), None).unwrap_err(),
        "Unknown module"
    );
}
