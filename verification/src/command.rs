//! The command modules: operator-initiated actions that run through a
//! connector and produce a command result.

use vstd::prelude::*;

use crate::data_point::CommandResult;
use crate::enums::{CommandAction, Criticality, HostSetting};
use crate::frontend::{DisplayOptions, DisplayStyle};
use crate::host::{Host, HostView};
use crate::json::{json_i64_field, json_read_i64};
use crate::module_spec::ModuleSpecification;
use crate::numfmt::{i64_to_string, spec_i64_decimal};
use crate::platform_info::OperatingSystem;
use crate::response::ResponseMessage;
use crate::string_map::StringMap;

verus! {

/// Lists containers or images, depending on the parameter.
#[derive(Clone, Copy, PartialEq, Eq, Structural)]
pub struct Docker {}

impl Docker {
    /// The parameters the frontend may pass: the default listing,
    /// containers, and images.
    pub fn get_parameters(&self) -> (r: Vec<String>)
        ensures
            r.deep_view() == seq![Seq::<char>::empty(), "ps"@, "images"@],
    {
        let mut parameters: Vec<String> = Vec::new();
        parameters.push(String::new());
        parameters.push("ps".to_owned());
        parameters.push("images".to_owned());
        proof {
            assert(parameters.deep_view() =~= seq![Seq::<char>::empty(), "ps"@, "images"@]);
        }
        parameters
    }
}

/// Shows the full inspect document of one container.
#[derive(Clone, Copy, PartialEq, Eq, Structural)]
pub struct Inspect {}

/// Restarts one container, after confirmation.
#[derive(Clone, Copy, PartialEq, Eq, Structural)]
pub struct Restart {}

/// Opens a shell inside a container in a local terminal.
#[derive(Clone, Copy, PartialEq, Eq, Structural)]
pub struct Shell {}

/// Prunes unused images and reports the space reclaimed.
#[derive(Clone, Copy, PartialEq, Eq, Structural)]
pub struct Prune {}

/// Shows journal logs, optionally for one unit.
#[derive(Clone, Copy, PartialEq, Eq, Structural)]
pub struct Logs {}

/// Pulls the images of a compose file.
#[derive(Clone, Copy, PartialEq, Eq, Structural)]
pub struct Pull {
    pub use_sudo: bool,
}

/// Starts the services of a compose file.
#[derive(Clone, Copy, PartialEq, Eq, Structural)]
pub struct Start {
    pub use_sudo: bool,
}

/// Stops the services of a compose file, after confirmation.
#[derive(Clone, Copy, PartialEq, Eq, Structural)]
pub struct Stop {}

/// A command module.
#[derive(Clone, Copy, PartialEq, Eq, Structural)]
pub enum Command {
    Docker(Docker),
    Inspect(Inspect),
    Restart(Restart),
    Shell(Shell),
    Prune(Prune),
    Logs(Logs),
    ComposePull(Pull),
    ComposeStart(Start),
    ComposeStop(Stop),
}

impl View for Command {
    type V = Command;

    open spec fn view(&self) -> Command {
        *self
    }
}

impl crate::string_map::ViewClone for Command {
    fn view_clone(&self) -> (r: Self)
        ensures
            r@ == self@,
    {
        *self
    }
}

/// The message the container-listing command sends, by parameter.
pub open spec fn spec_docker_message(target: Seq<char>) -> Result<Seq<char>, Seq<char>> {
    if target.len() == 0 || target == "ps"@ {
        Ok("sudo curl --unix-socket /var/run/docker.sock http://localhost/containers/json?all=true"@)
    } else if target == "images"@ {
        Ok("sudo curl --unix-socket /var/run/docker.sock http://localhost/images/json?all=true"@)
    } else {
        Err("Unknown command parameter"@)
    }
}

/// The journal command, by target: everything, the kernel ring, or one
/// unit.
pub open spec fn spec_logs_message(target: Seq<char>) -> Seq<char> {
    if target.len() == 0 || target == "all"@ {
        "sudo journalctl -q -n 500"@
    } else if target == "dmesg"@ {
        "sudo journalctl -q -n 500 --dmesg"@
    } else {
        "sudo journalctl -q -n 500 -u "@ + target
    }
}

/// The compose command line: `docker-compose -f <file> <verb>`, behind
/// sudo when configured, with the service name appended when one is
/// given.
pub open spec fn spec_compose_message(
    verb: Seq<char>,
    use_sudo: bool,
    file: Seq<char>,
    service: Option<Seq<char>>,
) -> Seq<char> {
    (if use_sudo {
        "sudo docker-compose -f "@ + file + " "@ + verb
    } else {
        "docker-compose -f "@ + file + " "@ + verb
    }) + (match service {
        Some(name) => " "@ + name,
        None => Seq::<char>::empty(),
    })
}

/// The report of the prune command for a reclaimed byte count.
pub open spec fn spec_prune_report(n: int) -> Seq<char> {
    "Total reclaimed space: "@ + spec_i64_decimal(n) + " B"@
}

/// Renders the prune command's report for a reclaimed byte count.
pub fn format_prune_report(n: i64) -> (r: String)
    ensures
        r@ == spec_prune_report(n as int),
{
    let mut s = "Total reclaimed space: ".to_owned();
    let digits = i64_to_string(n);
    s.append(digits.as_str());
    s.append(" B");
    proof {
        reveal_strlit("Total reclaimed space: ");
        reveal_strlit(" B");
        assert(s@ =~= spec_prune_report(n as int));
    }
    s
}

impl Command {
    /// The module id, unique among commands.
    pub open spec fn spec_id(&self) -> Seq<char> {
        match self {
            Command::Docker(_) => "docker"@,
            Command::Inspect(_) => "docker-inspect"@,
            Command::Restart(_) => "docker-restart"@,
            Command::Shell(_) => "docker-shell"@,
            Command::Prune(_) => "docker-image-prune"@,
            Command::Logs(_) => "logs"@,
            Command::ComposePull(_) => "docker-compose-pull"@,
            Command::ComposeStart(_) => "docker-compose-start"@,
            Command::ComposeStop(_) => "docker-compose-stop"@,
        }
    }

    pub fn get_module_spec(&self) -> (r: ModuleSpecification)
        ensures
            r.id@ == self.spec_id(),
            r.version@ == "0.0.1"@,
    {
        match self {
            Command::Docker(_) => ModuleSpecification::new("docker", "0.0.1"),
            Command::Inspect(_) => ModuleSpecification::new("docker-inspect", "0.0.1"),
            Command::Restart(_) => ModuleSpecification::new("docker-restart", "0.0.1"),
            Command::Shell(_) => ModuleSpecification::new("docker-shell", "0.0.1"),
            Command::Prune(_) => ModuleSpecification::new("docker-image-prune", "0.0.1"),
            Command::Logs(_) => ModuleSpecification::new("logs", "0.0.1"),
            Command::ComposePull(_) => ModuleSpecification::new("docker-compose-pull", "0.0.1"),
            Command::ComposeStart(_) => ModuleSpecification::new("docker-compose-start", "0.0.1"),
            Command::ComposeStop(_) => ModuleSpecification::new("docker-compose-stop", "0.0.1"),
        }
    }

    /// Every command of this set talks through the SSH connector.
    pub fn get_connector_spec(&self) -> (r: Option<ModuleSpecification>)
        ensures
            r matches Some(c) && c.id@ == "ssh"@ && c.version@ == "0.0.1"@,
    {
        Some(ModuleSpecification::new("ssh", "0.0.1"))
    }

    /// Which UI surface the frontend opens for this command.
    pub open spec fn spec_action(&self) -> CommandAction {
        match self {
            Command::Inspect(_) => CommandAction::TextView,
            Command::Shell(_) => CommandAction::Terminal,
            Command::Logs(_) => CommandAction::LogView,
            _ => CommandAction::NoAction,
        }
    }

    pub fn get_action(&self) -> (r: CommandAction)
        ensures
            r == self.spec_action(),
    {
        match self {
            Command::Inspect(_) => CommandAction::TextView,
            Command::Shell(_) => CommandAction::Terminal,
            Command::Logs(_) => CommandAction::LogView,
            _ => CommandAction::NoAction,
        }
    }

    /// The confirmation the frontend must obtain before dispatch; empty
    /// when none is needed.
    pub open spec fn spec_confirmation_text(&self) -> Seq<char> {
        match self {
            Command::Restart(_) => "Really restart container?"@,
            Command::Prune(_) => "Really prune all unused images?"@,
            Command::ComposeStop(_) => "Really stop service?"@,
            _ => Seq::empty(),
        }
    }

    /// The display category this command files under.
    pub open spec fn spec_category(&self) -> Seq<char> {
        match self {
            Command::Docker(_) => "docker"@,
            Command::Inspect(_) => "docker-containers"@,
            Command::Restart(_) => "docker-containers"@,
            Command::Shell(_) => "docker"@,
            Command::Prune(_) => "docker-images"@,
            Command::Logs(_) => "host"@,
            Command::ComposePull(_) => "docker-compose"@,
            Command::ComposeStart(_) => "docker-compose"@,
            Command::ComposeStop(_) => "docker-compose"@,
        }
    }

    /// The icon the frontend shows for this command.
    pub open spec fn spec_display_icon(&self) -> Seq<char> {
        match self {
            Command::Docker(_) => Seq::empty(),
            Command::Inspect(_) => "search"@,
            Command::Restart(_) => "refresh"@,
            Command::Shell(_) => "terminal"@,
            Command::Prune(_) => "clear"@,
            Command::Logs(_) => "view-document"@,
            Command::ComposePull(_) => "download"@,
            Command::ComposeStart(_) => "start"@,
            Command::ComposeStop(_) => "stop"@,
        }
    }

    /// The label the frontend shows for this command.
    pub open spec fn spec_display_text(&self) -> Seq<char> {
        match self {
            Command::Docker(_) => Seq::empty(),
            Command::Inspect(_) => "Inspect"@,
            Command::Restart(_) => "Restart"@,
            Command::Shell(_) => Seq::empty(),
            Command::Prune(_) => "Prune"@,
            Command::Logs(_) => "Show logs"@,
            Command::ComposePull(_) => "Pull"@,
            Command::ComposeStart(_) => "Start"@,
            Command::ComposeStop(_) => "Stop"@,
        }
    }

    /// The full display options of this command.
    pub open spec fn spec_display_options(&self) -> crate::frontend::DisplayOptionsView {
        crate::frontend::DisplayOptionsView {
            display_style: DisplayStyle::Icon,
            category: self.spec_category(),
            display_icon: self.spec_display_icon(),
            display_text: self.spec_display_text(),
            confirmation_text: self.spec_confirmation_text(),
            action: self.spec_action(),
            ..crate::frontend::DisplayOptionsView::spec_default()
        }
    }

    pub fn get_display_options(&self) -> (r: DisplayOptions)
        ensures
            r@ == self.spec_display_options(),
            r@.category == self.spec_category(),
            r@.confirmation_text == self.spec_confirmation_text(),
            r@.action == self.spec_action(),
            r@.display_style == DisplayStyle::Icon,
    {
        let mut r = DisplayOptions::default();
        r.display_style = DisplayStyle::Icon;
        r.action = self.get_action();
        match self {
            Command::Docker(_) => {
                r.category = "docker".to_owned();
            },
            Command::Inspect(_) => {
                r.category = "docker-containers".to_owned();
                r.display_icon = "search".to_owned();
                r.display_text = "Inspect".to_owned();
            },
            Command::Restart(_) => {
                r.category = "docker-containers".to_owned();
                r.display_icon = "refresh".to_owned();
                r.display_text = "Restart".to_owned();
                r.confirmation_text = "Really restart container?".to_owned();
            },
            Command::Shell(_) => {
                r.category = "docker".to_owned();
                r.display_icon = "terminal".to_owned();
            },
            Command::Prune(_) => {
                r.category = "docker-images".to_owned();
                r.display_icon = "clear".to_owned();
                r.display_text = "Prune".to_owned();
                r.confirmation_text = "Really prune all unused images?".to_owned();
            },
            Command::Logs(_) => {
                r.category = "host".to_owned();
                r.display_icon = "view-document".to_owned();
                r.display_text = "Show logs".to_owned();
            },
            Command::ComposePull(_) => {
                r.category = "docker-compose".to_owned();
                r.display_icon = "download".to_owned();
                r.display_text = "Pull".to_owned();
            },
            Command::ComposeStart(_) => {
                r.category = "docker-compose".to_owned();
                r.display_icon = "start".to_owned();
                r.display_text = "Start".to_owned();
            },
            Command::ComposeStop(_) => {
                r.category = "docker-compose".to_owned();
                r.display_icon = "stop".to_owned();
                r.display_text = "Stop".to_owned();
                r.confirmation_text = "Really stop service?".to_owned();
            },
        }
        proof {
            assert(r@ =~= self.spec_display_options());
        }
        r
    }

    /// The message this command sends through its connector for a target
    /// (a container id, a journal unit, or a compose file).
    pub open spec fn spec_connector_message(&self, host: HostView, target: Seq<char>) -> Result<
        Seq<char>,
        Seq<char>,
    > {
        match self {
            Command::Docker(_) => spec_docker_message(target),
            Command::Inspect(_) => Ok(
                "sudo curl --unix-socket /var/run/docker.sock http://localhost/containers/"@
                    + target + "/json?all=true"@,
            ),
            Command::Restart(_) => Ok(
                "sudo curl --unix-socket /var/run/docker.sock -X POST http://localhost/containers/"@
                    + target + "/restart"@,
            ),
            Command::Shell(_) => if target.len() == 0 {
                Err("Target container is mandatory"@)
            } else {
                Ok("TODO"@)
            },
            Command::Prune(_) => Ok(
                "sudo curl --unix-socket /var/run/docker.sock -X POST http://localhost/images/prune"@,
            ),
            Command::Logs(_) => Ok(spec_logs_message(target)),
            Command::ComposePull(c) => Ok(
                spec_compose_message("pull"@, c.use_sudo, target, None),
            ),
            Command::ComposeStart(c) => Ok(
                spec_compose_message("start"@, c.use_sudo, target, None),
            ),
            Command::ComposeStop(_) => if host.platform.os == OperatingSystem::Linux {
                Ok(
                    spec_compose_message(
                        "stop"@,
                        host.settings.contains(HostSetting::UseSudo),
                        target,
                        None,
                    ),
                )
            } else {
                Err("Unsupported platform"@)
            },
        }
    }

    /// The message built from the plural parameter form the compose
    /// modules accept: the compose file first, then an optional service
    /// name. A missing compose file is the error; the other commands
    /// read only the first parameter (or none).
    pub open spec fn spec_connector_message_params(
        &self,
        host: HostView,
        parameters: Seq<Seq<char>>,
    ) -> Result<Seq<char>, Seq<char>> {
        match self {
            Command::ComposePull(c) => if parameters.len() == 0 {
                Err("Compose file is mandatory"@)
            } else {
                Ok(
                    spec_compose_message(
                        "pull"@,
                        c.use_sudo,
                        parameters[0],
                        if parameters.len() >= 2 {
                            Some(parameters[1])
                        } else {
                            None
                        },
                    ),
                )
            },
            Command::ComposeStart(c) => if parameters.len() == 0 {
                Err("Compose file is mandatory"@)
            } else {
                Ok(
                    spec_compose_message(
                        "start"@,
                        c.use_sudo,
                        parameters[0],
                        if parameters.len() >= 2 {
                            Some(parameters[1])
                        } else {
                            None
                        },
                    ),
                )
            },
            Command::ComposeStop(_) => if parameters.len() == 0 {
                Err("Compose file is mandatory"@)
            } else if host.platform.os == OperatingSystem::Linux {
                Ok(
                    spec_compose_message(
                        "stop"@,
                        host.settings.contains(HostSetting::UseSudo),
                        parameters[0],
                        if parameters.len() >= 2 {
                            Some(parameters[1])
                        } else {
                            None
                        },
                    ),
                )
            } else {
                Err("Unsupported platform"@)
            },
            _ => self.spec_connector_message(
                host,
                if parameters.len() >= 1 {
                    parameters[0]
                } else {
                    Seq::empty()
                },
            ),
        }
    }

    pub fn get_connector_message(&self, host: &Host, target: &String) -> (r: Result<String, String>)
        ensures
            (r is Ok) == (self.spec_connector_message(host@, target@) is Ok),
            r matches Ok(m) ==> m@ == self.spec_connector_message(host@, target@)->Ok_0,
            r matches Err(e) ==> e@ == self.spec_connector_message(host@, target@)->Err_0,
    {
        match self {
            Command::Docker(_) => {
                if target.as_str().is_empty() || crate::utils::str_eq(target.as_str(), "ps") {
                    Ok(
                        "sudo curl --unix-socket /var/run/docker.sock http://localhost/containers/json?all=true".to_owned(),
                    )
                } else if crate::utils::str_eq(target.as_str(), "images") {
                    Ok(
                        "sudo curl --unix-socket /var/run/docker.sock http://localhost/images/json?all=true".to_owned(),
                    )
                } else {
                    Err("Unknown command parameter".to_owned())
                }
            },
            Command::Inspect(_) => {
                let mut s =
                    "sudo curl --unix-socket /var/run/docker.sock http://localhost/containers/".to_owned();
                s.append(target.as_str());
                s.append("/json?all=true");
                Ok(s)
            },
            Command::Restart(_) => {
                let mut s =
                    "sudo curl --unix-socket /var/run/docker.sock -X POST http://localhost/containers/".to_owned();
                s.append(target.as_str());
                s.append("/restart");
                Ok(s)
            },
            Command::Shell(_) => {
                if target.as_str().is_empty() {
                    Err("Target container is mandatory".to_owned())
                } else {
                    Ok("TODO".to_owned())
                }
            },
            Command::Prune(_) => {
                Ok(
                    "sudo curl --unix-socket /var/run/docker.sock -X POST http://localhost/images/prune".to_owned(),
                )
            },
            Command::Logs(_) => {
                if target.as_str().is_empty() || crate::utils::str_eq(target.as_str(), "all") {
                    Ok("sudo journalctl -q -n 500".to_owned())
                } else if crate::utils::str_eq(target.as_str(), "dmesg") {
                    Ok("sudo journalctl -q -n 500 --dmesg".to_owned())
                } else {
                    let mut s = "sudo journalctl -q -n 500 -u ".to_owned();
                    s.append(target.as_str());
                    Ok(s)
                }
            },
            Command::ComposePull(c) => {
                Ok(build_compose_message("pull", c.use_sudo, target, None))
            },
            Command::ComposeStart(c) => {
                Ok(build_compose_message("start", c.use_sudo, target, None))
            },
            Command::ComposeStop(_) => {
                if host.platform.os == OperatingSystem::Linux {
                    let use_sudo = host.has_setting(HostSetting::UseSudo);
                    Ok(build_compose_message("stop", use_sudo, target, None))
                } else {
                    Err("Unsupported platform".to_owned())
                }
            },
        }
    }

    /// Builds the message from the plural parameter form: the compose
    /// file first, then an optional service name.
    pub fn get_connector_message_params(&self, host: &Host, parameters: &Vec<String>) -> (r:
        Result<String, String>)
        ensures
            (r is Ok) == (self.spec_connector_message_params(host@, parameters.deep_view())
                is Ok),
            r matches Ok(m) ==> m@ == self.spec_connector_message_params(
                host@,
                parameters.deep_view(),
            )->Ok_0,
            r matches Err(e) ==> e@ == self.spec_connector_message_params(
                host@,
                parameters.deep_view(),
            )->Err_0,
    {
        let ghost pv = parameters.deep_view();
        match self {
            Command::ComposePull(_) | Command::ComposeStart(_) | Command::ComposeStop(_) => {
                if parameters.len() == 0 {
                    return Err("Compose file is mandatory".to_owned());
                }
                let file = &parameters[0];
                let service: Option<&String> = if parameters.len() >= 2 {
                    Some(&parameters[1])
                } else {
                    None
                };
                proof {
                    assert(file@ == pv[0]);
                    if parameters.len() >= 2 {
                        assert(parameters@[1]@ == pv[1]);
                    }
                }
                match self {
                    Command::ComposePull(c) => {
                        Ok(build_compose_message("pull", c.use_sudo, file, service))
                    },
                    Command::ComposeStart(c) => {
                        Ok(build_compose_message("start", c.use_sudo, file, service))
                    },
                    Command::ComposeStop(_) => {
                        if host.platform.os == OperatingSystem::Linux {
                            let use_sudo = host.has_setting(HostSetting::UseSudo);
                            Ok(build_compose_message("stop", use_sudo, file, service))
                        } else {
                            Err("Unsupported platform".to_owned())
                        }
                    },
                    _ => {
                        proof {
                            assert(false);
                        }
                        Err(String::new())
                    },
                }
            },
            _ => {
                if parameters.len() >= 1 {
                    proof {
                        assert(parameters@[0]@ == pv[0]);
                    }
                    self.get_connector_message(host, &parameters[0])
                } else {
                    let empty_target = String::new();
                    self.get_connector_message(host, &empty_target)
                }
            },
        }
    }

    /// What a command makes of a connector response. The prune command's
    /// parse failure reports a fixed text: the parser's own message
    /// cannot cross the JSON boundary, which names only the parsed
    /// integer result.
    pub open spec fn spec_process_response(&self, message: Seq<char>, return_code: i32) -> Result<
        (Seq<char>, Criticality),
        Seq<char>,
    > {
        match self {
            Command::Docker(_) => Ok(("test"@, Criticality::Normal)),
            Command::Inspect(_) => Ok((message, Criticality::Normal)),
            Command::Restart(_) => Ok((message, Criticality::Normal)),
            Command::Shell(_) => Ok((message, Criticality::Normal)),
            Command::Logs(_) => Ok((message, Criticality::Normal)),
            Command::Prune(_) => match json_i64_field(message, "SpaceReclaimed"@) {
                Some(n) => Ok((spec_prune_report(n as int), Criticality::Info)),
                None => Err("Failed to parse response"@),
            },
            Command::ComposePull(_) | Command::ComposeStart(_) | Command::ComposeStop(_) => {
                if return_code == 0 {
                    Ok((Seq::empty(), Criticality::Normal))
                } else {
                    Err(message)
                }
            },
        }
    }

    pub fn process_response(&self, host: &Host, response: &ResponseMessage) -> (r: Result<
        CommandResult,
        String,
    >)
        ensures
            (r is Ok) == (self.spec_process_response(response.message@, response.return_code)
                is Ok),
            r matches Ok(c) ==> c.message@ == self.spec_process_response(
                response.message@,
                response.return_code,
            )->Ok_0.0 && c.criticality == self.spec_process_response(
                response.message@,
                response.return_code,
            )->Ok_0.1 && c.invocation_id == 0,
            r matches Err(e) ==> e@ == self.spec_process_response(
                response.message@,
                response.return_code,
            )->Err_0,
    {
        match self {
            Command::Docker(_) => Ok(CommandResult::new("test".to_owned())),
            Command::Inspect(_) => Ok(CommandResult::new(response.message.clone())),
            Command::Restart(_) => Ok(CommandResult::new(response.message.clone())),
            Command::Shell(_) => Ok(CommandResult::new(response.message.clone())),
            Command::Logs(_) => Ok(CommandResult::new(response.message.clone())),
            Command::Prune(_) => {
                match json_read_i64(response.message.as_str(), "SpaceReclaimed") {
                    Some(n) => Ok(CommandResult::new_info(format_prune_report(n))),
                    None => Err("Failed to parse response".to_owned()),
                }
            },
            Command::ComposePull(_) | Command::ComposeStart(_) | Command::ComposeStop(_) => {
                if response.return_code == 0 {
                    Ok(CommandResult::new(String::new()))
                } else {
                    Err(response.message.clone())
                }
            },
        }
    }
}

/// Builds `docker-compose -f <file> <verb>`, behind sudo when asked,
/// with the service name appended when one is given.
fn build_compose_message(verb: &str, use_sudo: bool, file: &String, service: Option<&String>) -> (r:
    String)
    ensures
        r@ == spec_compose_message(
            verb@,
            use_sudo,
            file@,
            match service {
                Some(name) => Some(name@),
                None => None,
            },
        ),
{
    let mut s = if use_sudo {
        "sudo docker-compose -f ".to_owned()
    } else {
        "docker-compose -f ".to_owned()
    };
    s.append(file.as_str());
    s.append(" ");
    s.append(verb);
    match service {
        Some(name) => {
            s.append(" ");
            s.append(name.as_str());
        },
        None => {},
    }
    proof {
        assert(s@ =~= spec_compose_message(
            verb@,
            use_sudo,
            file@,
            match service {
                Some(name) => Some(name@),
                None => None,
            },
        ));
    }
    s
}

} // verus!
