//! Instantiates modules from an `(id, version)` specification and a
//! settings map. An unknown id is the fatal `UnknownModule` error of the
//! configure phase.

use vstd::prelude::*;

use crate::command::{
    Command, Docker, Inspect, Logs, Prune, Pull, Restart, Shell, Start, Stop,
};
use crate::connection::Connector;
use crate::module_spec::ModuleSpecification;
use crate::monitoring::{spec_use_sudo, read_use_sudo, DockerPs, Monitor, PlatformInfoSsh, Ssh, Uptime};
use crate::string_map::StringMap;

verus! {

/// The monitor a module id names, given its settings.
pub open spec fn spec_monitor_of(id: Seq<char>, settings: Map<Seq<char>, Seq<char>>) -> Option<
    Monitor,
> {
    if id == "ssh"@ {
        Some(Monitor::Ssh(Ssh {}))
    } else if id == "uptime"@ {
        Some(Monitor::Uptime(Uptime {}))
    } else if id == "platform-info"@ {
        Some(Monitor::PlatformInfoSsh(PlatformInfoSsh {}))
    } else if id == "docker-ps"@ {
        Some(Monitor::DockerPs(DockerPs { use_sudo: spec_use_sudo(settings) }))
    } else {
        None
    }
}

/// The command a module id names, given its settings.
pub open spec fn spec_command_of(id: Seq<char>, settings: Map<Seq<char>, Seq<char>>) -> Option<
    Command,
> {
    if id == "docker"@ {
        Some(Command::Docker(Docker {}))
    } else if id == "docker-inspect"@ {
        Some(Command::Inspect(Inspect {}))
    } else if id == "docker-restart"@ {
        Some(Command::Restart(Restart {}))
    } else if id == "docker-shell"@ {
        Some(Command::Shell(Shell {}))
    } else if id == "docker-image-prune"@ {
        Some(Command::Prune(Prune {}))
    } else if id == "logs"@ {
        Some(Command::Logs(Logs {}))
    } else if id == "docker-compose-pull"@ {
        Some(Command::ComposePull(Pull { use_sudo: spec_use_sudo(settings) }))
    } else if id == "docker-compose-start"@ {
        Some(Command::ComposeStart(Start { use_sudo: spec_use_sudo(settings) }))
    } else if id == "docker-compose-stop"@ {
        Some(Command::ComposeStop(Stop {}))
    } else {
        None
    }
}

/// Builds modules from specifications.
pub struct ModuleFactory {}

impl ModuleFactory {
    pub fn new() -> (r: ModuleFactory) {
        ModuleFactory {}
    }

    /// A monitor for the specification, or the unknown-module error.
    pub fn new_monitor(&self, spec: &ModuleSpecification, settings: &StringMap<String>) -> (r:
        Result<Monitor, String>)
        ensures
            match r {
                Ok(m) => spec_monitor_of(spec.id@, settings@) == Some(m),
                Err(e) => spec_monitor_of(spec.id@, settings@) is None && e@ == "Unknown module"@,
            },
    {
        let id = spec.id.as_str();
        if crate::utils::str_eq(id, "ssh") {
            Ok(Monitor::Ssh(Ssh {}))
        } else if crate::utils::str_eq(id, "uptime") {
            Ok(Monitor::Uptime(Uptime {}))
        } else if crate::utils::str_eq(id, "platform-info") {
            Ok(Monitor::PlatformInfoSsh(PlatformInfoSsh {}))
        } else if crate::utils::str_eq(id, "docker-ps") {
            Ok(Monitor::DockerPs(DockerPs { use_sudo: read_use_sudo(settings) }))
        } else {
            Err("Unknown module".to_owned())
        }
    }

    /// A command for the specification, or the unknown-module error.
    pub fn new_command(&self, spec: &ModuleSpecification, settings: &StringMap<String>) -> (r:
        Result<Command, String>)
        ensures
            match r {
                Ok(c) => spec_command_of(spec.id@, settings@) == Some(c),
                Err(e) => spec_command_of(spec.id@, settings@) is None && e@ == "Unknown module"@,
            },
    {
        let id = spec.id.as_str();
        if crate::utils::str_eq(id, "docker") {
            Ok(Command::Docker(Docker {}))
        } else if crate::utils::str_eq(id, "docker-inspect") {
            Ok(Command::Inspect(Inspect {}))
        } else if crate::utils::str_eq(id, "docker-restart") {
            Ok(Command::Restart(Restart {}))
        } else if crate::utils::str_eq(id, "docker-shell") {
            Ok(Command::Shell(Shell {}))
        } else if crate::utils::str_eq(id, "docker-image-prune") {
            Ok(Command::Prune(Prune {}))
        } else if crate::utils::str_eq(id, "logs") {
            Ok(Command::Logs(Logs {}))
        } else if crate::utils::str_eq(id, "docker-compose-pull") {
            Ok(Command::ComposePull(Pull { use_sudo: read_use_sudo(settings) }))
        } else if crate::utils::str_eq(id, "docker-compose-start") {
            Ok(Command::ComposeStart(Start { use_sudo: read_use_sudo(settings) }))
        } else if crate::utils::str_eq(id, "docker-compose-stop") {
            Ok(Command::ComposeStop(Stop {}))
        } else {
            Err("Unknown module".to_owned())
        }
    }

    /// A connector for the specification, or the unknown-module error.
    pub fn new_connector(&self, spec: &ModuleSpecification, _settings: &StringMap<String>) -> (r:
        Result<Connector, String>)
        ensures
            match r {
                Ok(c) => Connector::spec_from_id(spec.id@) == Some(c),
                Err(e) => Connector::spec_from_id(spec.id@) is None && e@ == "Unknown module"@,
            },
    {
        match Connector::from_id(spec.id.as_str()) {
            Some(c) => Ok(c),
            None => Err("Unknown module".to_owned()),
        }
    }
}

} // verus!
