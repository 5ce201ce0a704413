//! The monitoring modules: read-only probes that turn a connector
//! response into a data point.
//!
//! Modules are tagged variants over small descriptor structs; the
//! monitor manager schedules them and chains extensions after their
//! base module.

use vstd::prelude::*;

use crate::data_point::{DataPoint, DataPointView, SubPoint, SubPointView};
use crate::enums::Criticality;
use crate::frontend::{DisplayOptions, DisplayOptionsView, DisplayStyle};
use crate::host::{Host, HostView};
use crate::module_spec::{Metadata, ModuleSpecification};
use crate::response::ResponseMessage;
use crate::string_map::StringMap;
use crate::utils::{lemma_split_nonempty, spec_split, split_string};

verus! {

/// Whether a settings map asks for sudo; missing means yes.
pub open spec fn spec_use_sudo(settings: Map<Seq<char>, Seq<char>>) -> bool {
    !settings.contains_key("use_sudo"@) || settings["use_sudo"@] == "true"@
}

/// Reads the `use_sudo` setting, defaulting to true.
pub fn read_use_sudo(settings: &StringMap<String>) -> (r: bool)
    ensures
        r == spec_use_sudo(settings@),
{
    match settings.get("use_sudo") {
        Some(v) => crate::utils::str_eq(v.as_str(), "true"),
        None => true,
    }
}

/// Probes SSH connectivity; reports the host up when the probe command
/// succeeds.
#[derive(Clone, Copy, PartialEq, Eq, Structural)]
pub struct Ssh {}

/// Reports the host's uptime as text.
#[derive(Clone, Copy, PartialEq, Eq, Structural)]
pub struct Uptime {}

/// The bootstrap probe that identifies the host's operating system over
/// SSH. Its data point feeds extension modules as their parent.
#[derive(Clone, Copy, PartialEq, Eq, Structural)]
pub struct PlatformInfoSsh {}

/// Lists docker containers; an extension of the platform probe.
#[derive(Clone, Copy, PartialEq, Eq, Structural)]
pub struct DockerPs {
    pub use_sudo: bool,
}

/// A monitoring module.
#[derive(Clone, Copy, PartialEq, Eq, Structural)]
pub enum Monitor {
    Ssh(Ssh),
    Uptime(Uptime),
    PlatformInfoSsh(PlatformInfoSsh),
    DockerPs(DockerPs),
}

impl View for Monitor {
    type V = Monitor;

    open spec fn view(&self) -> Monitor {
        *self
    }
}

impl crate::string_map::ViewClone for Monitor {
    fn view_clone(&self) -> (r: Self)
        ensures
            r@ == self@,
    {
        *self
    }
}

/// The first line of a response body.
pub open spec fn spec_first_line(s: Seq<char>) -> Seq<char> {
    spec_split(s, '\n')[0]
}

/// One sub-point per non-empty line, in order.
pub open spec fn spec_points_of(groups: Seq<Seq<char>>) -> Seq<SubPointView>
    decreases groups.len(),
{
    if groups.len() == 0 {
        Seq::empty()
    } else {
        spec_points_of(groups.drop_last()) + (if groups.last().len() > 0 {
            seq![
                SubPointView {
                    label: Seq::empty(),
                    value: groups.last(),
                    criticality: Criticality::Normal,
                },
            ]
        } else {
            Seq::empty()
        })
    }
}

/// A freshly produced scalar data point, before the manager stamps it.
pub open spec fn spec_plain_point(value: Seq<char>, criticality: Criticality) -> DataPointView {
    DataPointView {
        label: Seq::empty(),
        value,
        multivalue: Seq::empty(),
        criticality,
        invocation_id: 0,
        is_from_cache: false,
        timestamp: 0,
    }
}

impl Monitor {
    /// The module id, unique among monitors.
    pub open spec fn spec_id(&self) -> Seq<char> {
        match self {
            Monitor::Ssh(_) => "ssh"@,
            Monitor::Uptime(_) => "uptime"@,
            Monitor::PlatformInfoSsh(_) => "platform-info"@,
            Monitor::DockerPs(_) => "docker-ps"@,
        }
    }

    /// Extensions declare the base module whose data point they refine.
    pub open spec fn spec_parent_id(&self) -> Option<Seq<char>> {
        match self {
            Monitor::DockerPs(_) => Some("platform-info"@),
            _ => None,
        }
    }

    /// The message a monitor sends through its connector; extensions may
    /// reject an unsupported platform read from the parent data point.
    pub open spec fn spec_connector_message(&self, host: HostView, parent: DataPointView) -> Result<
        Seq<char>,
        Seq<char>,
    > {
        match self {
            Monitor::Ssh(_) => Ok("echo ok"@),
            Monitor::Uptime(_) => Ok("uptime -p"@),
            Monitor::PlatformInfoSsh(_) => Ok("uname -s"@),
            Monitor::DockerPs(d) => if parent.value == "linux"@ {
                if d.use_sudo {
                    Ok("sudo docker ps --format {{.Names}}"@)
                } else {
                    Ok("docker ps --format {{.Names}}"@)
                }
            } else {
                Err("Unsupported platform"@)
            },
        }
    }

    /// What a monitor makes of a connector response.
    pub open spec fn spec_process_response(
        &self,
        host: HostView,
        message: Seq<char>,
        return_code: i32,
        parent: DataPointView,
    ) -> Result<DataPointView, Seq<char>> {
        match self {
            Monitor::Ssh(_) => if return_code == 0 {
                Ok(spec_plain_point("up"@, Criticality::Normal))
            } else {
                Ok(spec_plain_point("down"@, Criticality::Critical))
            },
            Monitor::Uptime(_) => if return_code == 0 {
                Ok(spec_plain_point(spec_first_line(message), Criticality::Normal))
            } else {
                Err(message)
            },
            Monitor::PlatformInfoSsh(_) => if return_code != 0 {
                Err(message)
            } else if spec_first_line(message) == "Linux"@ {
                Ok(spec_plain_point("linux"@, Criticality::Normal))
            } else {
                Err("Unsupported platform"@)
            },
            Monitor::DockerPs(_) => if return_code != 0 {
                Err(message)
            } else {
                Ok(
                    DataPointView {
                        label: Seq::empty(),
                        value: Seq::empty(),
                        multivalue: spec_points_of(spec_split(message, '\n')),
                        criticality: Criticality::Normal,
                        invocation_id: 0,
                        is_from_cache: false,
                        timestamp: 0,
                    },
                )
            },
        }
    }

    pub fn get_module_spec(&self) -> (r: ModuleSpecification)
        ensures
            r.id@ == self.spec_id(),
            r.version@ == "0.0.1"@,
    {
        match self {
            Monitor::Ssh(_) => ModuleSpecification::new("ssh", "0.0.1"),
            Monitor::Uptime(_) => ModuleSpecification::new("uptime", "0.0.1"),
            Monitor::PlatformInfoSsh(_) => ModuleSpecification::new("platform-info", "0.0.1"),
            Monitor::DockerPs(_) => ModuleSpecification::new("docker-ps", "0.0.1"),
        }
    }

    pub fn get_parent_module(&self) -> (r: Option<ModuleSpecification>)
        ensures
            match r {
                Some(p) => self.spec_parent_id() == Some(p.id@) && p.version@ == "0.0.1"@,
                None => self.spec_parent_id() is None,
            },
    {
        match self {
            Monitor::DockerPs(_) => Some(ModuleSpecification::new("platform-info", "0.0.1")),
            _ => None,
        }
    }

    pub fn get_metadata(&self) -> (r: Metadata)
        ensures
            r.module_spec.id@ == self.spec_id(),
            r.module_spec.version@ == "0.0.1"@,
            match r.parent_module {
                Some(p) => self.spec_parent_id() == Some(p.id@) && p.version@ == "0.0.1"@,
                None => self.spec_parent_id() is None,
            },
    {
        Metadata {
            module_spec: self.get_module_spec(),
            display_name: String::new(),
            description: String::new(),
            parent_module: self.get_parent_module(),
        }
    }

    /// Every monitor of this set talks through the SSH connector.
    pub fn get_connector_spec(&self) -> (r: Option<ModuleSpecification>)
        ensures
            r matches Some(c) && c.id@ == "ssh"@ && c.version@ == "0.0.1"@,
    {
        Some(ModuleSpecification::new("ssh", "0.0.1"))
    }

    /// The display category this monitor files under.
    pub open spec fn spec_category(&self) -> Seq<char> {
        match self {
            Monitor::Ssh(_) => "host"@,
            Monitor::Uptime(_) => "host"@,
            Monitor::PlatformInfoSsh(_) => "host"@,
            Monitor::DockerPs(_) => "host"@,
        }
    }

    /// The full display options of this monitor.
    pub open spec fn spec_display_options(&self) -> DisplayOptionsView {
        DisplayOptionsView {
            category: self.spec_category(),
            use_multivalue: self is DockerPs,
            display_style: match self {
                Monitor::Ssh(_) => DisplayStyle::StatusUpDown,
                Monitor::Uptime(_) => DisplayStyle::Text,
                Monitor::PlatformInfoSsh(_) => DisplayStyle::Text,
                Monitor::DockerPs(_) => DisplayStyle::CriticalityLevel,
            },
            ..DisplayOptionsView::spec_default()
        }
    }

    pub fn get_display_options(&self) -> (r: DisplayOptions)
        ensures
            r@ == self.spec_display_options(),
            r@.category == self.spec_category(),
    {
        let mut r = DisplayOptions::default();
        match self {
            Monitor::Ssh(_) => {
                r.category = "host".to_owned();
                r.display_style = DisplayStyle::StatusUpDown;
            },
            Monitor::Uptime(_) => {
                r.category = "host".to_owned();
            },
            Monitor::PlatformInfoSsh(_) => {
                r.category = "host".to_owned();
            },
            Monitor::DockerPs(_) => {
                r.category = "host".to_owned();
                r.display_style = DisplayStyle::CriticalityLevel;
                r.use_multivalue = true;
            },
        }
        proof {
            assert(r@ =~= self.spec_display_options());
        }
        r
    }

    pub fn get_connector_message(&self, host: &Host, parent: &DataPoint) -> (r: Result<
        String,
        String,
    >)
        ensures
            (r is Ok) == (self.spec_connector_message(host@, parent@) is Ok),
            r matches Ok(m) ==> m@ == self.spec_connector_message(host@, parent@)->Ok_0,
            r matches Err(e) ==> e@ == self.spec_connector_message(host@, parent@)->Err_0,
    {
        match self {
            Monitor::Ssh(_) => Ok("echo ok".to_owned()),
            Monitor::Uptime(_) => Ok("uptime -p".to_owned()),
            Monitor::PlatformInfoSsh(_) => Ok("uname -s".to_owned()),
            Monitor::DockerPs(d) => {
                if crate::utils::str_eq(parent.value.as_str(), "linux") {
                    if d.use_sudo {
                        Ok("sudo docker ps --format {{.Names}}".to_owned())
                    } else {
                        Ok("docker ps --format {{.Names}}".to_owned())
                    }
                } else {
                    Err("Unsupported platform".to_owned())
                }
            },
        }
    }

    /// The multi-message variant; none of these monitors implements it,
    /// which the empty error signals to the scheduler.
    pub fn get_connector_messages(&self, host: &Host, parent: &DataPoint) -> (r: Result<
        Vec<String>,
        String,
    >)
        ensures
            r matches Err(e) && e@.len() == 0,
    {
        Err(String::new())
    }

    pub fn process_response(&self, host: &Host, response: &ResponseMessage, parent: &DataPoint)
        -> (r: Result<DataPoint, String>)
        ensures
            (r is Ok) == (self.spec_process_response(
                host@,
                response.message@,
                response.return_code,
                parent@,
            ) is Ok),
            r matches Ok(p) ==> p@ == self.spec_process_response(
                host@,
                response.message@,
                response.return_code,
                parent@,
            )->Ok_0,
            r matches Err(e) ==> e@ == self.spec_process_response(
                host@,
                response.message@,
                response.return_code,
                parent@,
            )->Err_0,
    {
        match self {
            Monitor::Ssh(_) => {
                if response.return_code == 0 {
                    let r = DataPoint::new_with_level("up".to_owned(), Criticality::Normal);
                    proof {
                        assert(r@ =~= spec_plain_point("up"@, Criticality::Normal));
                    }
                    Ok(r)
                } else {
                    let r = DataPoint::new_with_level("down".to_owned(), Criticality::Critical);
                    proof {
                        assert(r@ =~= spec_plain_point("down"@, Criticality::Critical));
                    }
                    Ok(r)
                }
            },
            Monitor::Uptime(_) => {
                if response.return_code == 0 {
                    let line = first_line(response.message.as_str());
                    let r = DataPoint::new_with_level(line, Criticality::Normal);
                    proof {
                        assert(r@ =~= spec_plain_point(
                            spec_first_line(response.message@),
                            Criticality::Normal,
                        ));
                    }
                    Ok(r)
                } else {
                    Err(response.message.clone())
                }
            },
            Monitor::PlatformInfoSsh(_) => {
                if response.return_code != 0 {
                    Err(response.message.clone())
                } else {
                    let line = first_line(response.message.as_str());
                    if crate::utils::str_eq(line.as_str(), "Linux") {
                        let r = DataPoint::new_with_level("linux".to_owned(), Criticality::Normal);
                        proof {
                            assert(r@ =~= spec_plain_point("linux"@, Criticality::Normal));
                        }
                        Ok(r)
                    } else {
                        Err("Unsupported platform".to_owned())
                    }
                }
            },
            Monitor::DockerPs(_) => {
                if response.return_code != 0 {
                    Err(response.message.clone())
                } else {
                    let groups = split_string(response.message.as_str(), '\n');
                    let ghost gview = groups.deep_view();
                    let mut points: Vec<SubPoint> = Vec::new();
                    let n = groups.len();
                    let mut i: usize = 0;
                    proof {
                        assert(points.deep_view() =~= spec_points_of(gview.take(0)));
                    }
                    while i < n
                        invariant
                            0 <= i <= n,
                            n == gview.len(),
                            gview == groups.deep_view(),
                            points.deep_view() == spec_points_of(gview.take(i as int)),
                        decreases n - i,
                    {
                        proof {
                            assert(gview.take(i as int + 1).drop_last() =~= gview.take(i as int));
                            assert(gview.take(i as int + 1).last() == gview[i as int]);
                            assert(gview[i as int] == groups@[i as int]@);
                        }
                        if !groups[i].as_str().is_empty() {
                            let ghost points_before = points.deep_view();
                            let point = SubPoint::new(groups[i].clone(), Criticality::Normal);
                            points.push(point);
                            proof {
                                assert(points.deep_view() =~= points_before.push(point@));
                                assert(point@ =~= (SubPointView {
                                    label: Seq::empty(),
                                    value: gview[i as int],
                                    criticality: Criticality::Normal,
                                }));
                                assert(points.deep_view() =~= spec_points_of(
                                    gview.take(i as int + 1),
                                ));
                            }
                        } else {
                            proof {
                                assert(points.deep_view() =~= spec_points_of(
                                    gview.take(i as int + 1),
                                ));
                            }
                        }
                        i += 1;
                    }
                    proof {
                        assert(gview.take(n as int) =~= gview);
                    }
                    let r = DataPoint::new_multivalue(points, Criticality::Normal);
                    proof {
                        assert(r@ =~= self.spec_process_response(
                            host@,
                            response.message@,
                            response.return_code,
                            parent@,
                        )->Ok_0);
                    }
                    Ok(r)
                }
            },
        }
    }

    /// The multi-response variant; none of these monitors implements it.
    /// The empty error tells the scheduler to fall back to
    /// [`Self::process_response`] on the first response.
    pub fn process_responses(
        &self,
        host: &Host,
        responses: &Vec<ResponseMessage>,
        parent: &DataPoint,
    ) -> (r: Result<DataPoint, String>)
        ensures
            r matches Err(e) && e@.len() == 0,
    {
        Err(String::new())
    }
}

/// The first line of a string.
pub fn first_line(s: &str) -> (r: String)
    ensures
        r@ == spec_first_line(s@),
{
    let groups = split_string(s, '\n');
    proof {
        lemma_split_nonempty(s@, '\n');
        assert(groups.deep_view()[0] == groups@[0]@);
    }
    groups[0].clone()
}

} // verus!
