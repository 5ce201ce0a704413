//! Module identity: every monitor, command and connector is picked by an
//! `(id, version)` pair.

use vstd::prelude::*;

verus! {

/// Identifies a module implementation. Equality is by both fields;
/// "latest" is the default version sentinel.
pub struct ModuleSpecification {
    pub id: String,
    pub version: String,
}

/// Spec-level contents of a [`ModuleSpecification`].
#[verifier::ext_equal]
pub struct ModuleSpecificationView {
    pub id: Seq<char>,
    pub version: Seq<char>,
}

impl View for ModuleSpecification {
    type V = ModuleSpecificationView;

    open spec fn view(&self) -> ModuleSpecificationView {
        ModuleSpecificationView { id: self.id@, version: self.version@ }
    }
}

impl DeepView for ModuleSpecification {
    type V = ModuleSpecificationView;

    open spec fn deep_view(&self) -> ModuleSpecificationView {
        self.view()
    }
}

impl ModuleSpecification {
    /// Both specifications name the same module version.
    pub open spec fn spec_matches(&self, other: &ModuleSpecification) -> bool {
        self.id@ == other.id@ && self.version@ == other.version@
    }

    pub fn new(id: &str, version: &str) -> (r: Self)
        ensures
            r.id@ == id@,
            r.version@ == version@,
    {
        ModuleSpecification { id: id.to_owned(), version: version.to_owned() }
    }
}

impl Clone for ModuleSpecification {
    fn clone(&self) -> (r: Self)
        ensures
            r == *self,
    {
        ModuleSpecification { id: self.id.clone(), version: self.version.clone() }
    }
}

impl PartialEq for ModuleSpecification {
    fn eq(&self, other: &Self) -> (r: bool) {
        self.id == other.id && self.version == other.version
    }
}

impl vstd::std_specs::cmp::PartialEqSpecImpl for ModuleSpecification {
    open spec fn obeys_eq_spec() -> bool {
        true
    }

    open spec fn eq_spec(&self, other: &Self) -> bool {
        self.spec_matches(other)
    }
}

/// Descriptive data a module publishes about itself; `parent_module`
/// links an extension module to the base whose data point it refines.
pub struct Metadata {
    pub module_spec: ModuleSpecification,
    pub display_name: String,
    pub description: String,
    pub parent_module: Option<ModuleSpecification>,
}

} // verus!
