//! The connection modules: transport descriptors. The transports
//! themselves (SSH sessions, local processes) run in the embedding
//! application; the engine tracks which connector a request needs and
//! whether it is connected.

use vstd::prelude::*;

use crate::module_spec::ModuleSpecification;

verus! {

/// The SSH transport descriptor.
#[derive(Clone, Copy, PartialEq, Eq, Structural)]
pub struct SshConnector {}

/// Executes a command locally through the embedding application.
#[derive(Clone, Copy, PartialEq, Eq, Structural)]
pub struct LocalCommand {}

/// A connection module.
#[derive(Clone, Copy, PartialEq, Eq, Structural)]
pub enum Connector {
    Ssh(SshConnector),
    LocalCommand(LocalCommand),
}

impl Connector {
    /// The connector a module id names, if the id is known.
    pub open spec fn spec_from_id(id: Seq<char>) -> Option<Connector> {
        if id == "ssh"@ {
            Some(Connector::Ssh(SshConnector {}))
        } else if id == "local-command"@ {
            Some(Connector::LocalCommand(LocalCommand {}))
        } else {
            None
        }
    }

    /// Resolves a connector by module id.
    pub fn from_id(id: &str) -> (r: Option<Connector>)
        ensures
            r == Self::spec_from_id(id@),
    {
        if crate::utils::str_eq(id, "ssh") {
            Some(Connector::Ssh(SshConnector {}))
        } else if crate::utils::str_eq(id, "local-command") {
            Some(Connector::LocalCommand(LocalCommand {}))
        } else {
            None
        }
    }

    /// The module id, unique among connectors.
    pub open spec fn spec_id(&self) -> Seq<char> {
        match self {
            Connector::Ssh(_) => "ssh"@,
            Connector::LocalCommand(_) => "local-command"@,
        }
    }

    pub fn get_module_spec(&self) -> (r: ModuleSpecification)
        ensures
            r.id@ == self.spec_id(),
            r.version@ == "0.0.1"@,
    {
        match self {
            Connector::Ssh(_) => ModuleSpecification::new("ssh", "0.0.1"),
            Connector::LocalCommand(_) => ModuleSpecification::new("local-command", "0.0.1"),
        }
    }
}

} // verus!
