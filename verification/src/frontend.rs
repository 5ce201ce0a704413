//! Types crossing the boundary to the frontend: how a module wants its
//! data shown, per-host display snapshots, and command-side signals.

use vstd::prelude::*;

use crate::data_point::DataPoint;
use crate::enums::{CommandAction, Criticality, HostStatus};
use crate::string_map::StringMap;

verus! {

#[derive(Clone, Copy, Debug, PartialEq, Eq, Structural)]
pub enum DisplayStyle {
    Text,
    CriticalityLevel,
    StatusUpDown,
    Numeric,
    Icon,
}

/// How a module's data or control is presented.
pub struct DisplayOptions {
    pub display_style: DisplayStyle,
    pub display_name: String,
    pub display_icon: String,
    pub display_text: String,
    pub category: String,
    pub parent_id: String,
    pub confirmation_text: String,
    pub use_multivalue: bool,
    pub multivalue_level: u8,
    pub display_priority: u16,
    pub action: CommandAction,
    pub depends_on_criticality: Vec<Criticality>,
    pub depends_on_tags: Vec<String>,
}

/// Spec-level contents of [`DisplayOptions`].
#[verifier::ext_equal]
pub struct DisplayOptionsView {
    pub display_style: DisplayStyle,
    pub display_name: Seq<char>,
    pub display_icon: Seq<char>,
    pub display_text: Seq<char>,
    pub category: Seq<char>,
    pub parent_id: Seq<char>,
    pub confirmation_text: Seq<char>,
    pub use_multivalue: bool,
    pub multivalue_level: u8,
    pub display_priority: u16,
    pub action: CommandAction,
    pub depends_on_criticality: Seq<Criticality>,
    pub depends_on_tags: Seq<Seq<char>>,
}

impl View for DisplayOptions {
    type V = DisplayOptionsView;

    open spec fn view(&self) -> DisplayOptionsView {
        DisplayOptionsView {
            display_style: self.display_style,
            display_name: self.display_name@,
            display_icon: self.display_icon@,
            display_text: self.display_text@,
            category: self.category@,
            parent_id: self.parent_id@,
            confirmation_text: self.confirmation_text@,
            use_multivalue: self.use_multivalue,
            multivalue_level: self.multivalue_level,
            display_priority: self.display_priority,
            action: self.action,
            depends_on_criticality: self.depends_on_criticality@,
            depends_on_tags: self.depends_on_tags.deep_view(),
        }
    }
}

impl DisplayOptionsView {
    /// The view of [`DisplayOptions::default`].
    pub open spec fn spec_default() -> DisplayOptionsView {
        DisplayOptionsView {
            display_style: DisplayStyle::Text,
            display_name: Seq::empty(),
            display_icon: Seq::empty(),
            display_text: Seq::empty(),
            category: Seq::empty(),
            parent_id: Seq::empty(),
            confirmation_text: Seq::empty(),
            use_multivalue: false,
            multivalue_level: 0,
            display_priority: 0,
            action: CommandAction::NoAction,
            depends_on_criticality: Seq::empty(),
            depends_on_tags: Seq::empty(),
        }
    }
}

impl Default for DisplayOptions {
    fn default() -> (r: Self)
        ensures
            r@ == DisplayOptionsView::spec_default(),
    {
        let r = DisplayOptions {
            display_style: DisplayStyle::Text,
            display_name: String::new(),
            display_icon: String::new(),
            display_text: String::new(),
            category: String::new(),
            parent_id: String::new(),
            confirmation_text: String::new(),
            use_multivalue: false,
            multivalue_level: 0,
            display_priority: 0,
            action: CommandAction::NoAction,
            depends_on_criticality: Vec::new(),
            depends_on_tags: Vec::new(),
        };
        proof {
            assert(r@ =~= DisplayOptionsView::spec_default());
        }
        r
    }
}

impl Clone for DisplayOptions {
    fn clone(&self) -> (r: Self)
        ensures
            r@ == self@,
    {
        let depends_on_criticality = self.depends_on_criticality.clone();
        let depends_on_tags = crate::utils::clone_string_vec(&self.depends_on_tags);
        proof {
            assert(depends_on_criticality@ =~= self.depends_on_criticality@);
            assert(depends_on_tags.deep_view() =~= self.depends_on_tags.deep_view());
        }
        let r = DisplayOptions {
            display_style: self.display_style,
            display_name: self.display_name.clone(),
            display_icon: self.display_icon.clone(),
            display_text: self.display_text.clone(),
            category: self.category.clone(),
            parent_id: self.parent_id.clone(),
            confirmation_text: self.confirmation_text.clone(),
            use_multivalue: self.use_multivalue,
            multivalue_level: self.multivalue_level,
            display_priority: self.display_priority,
            action: self.action,
            depends_on_criticality,
            depends_on_tags,
        };
        proof {
            assert(r@ =~= self@);
        }
        r
    }
}

/// The stored series of data points of one monitor on one host, with the
/// monitor's display options.
pub struct MonitoringData {
    pub values: Vec<DataPoint>,
    pub display_options: DisplayOptions,
}

/// Spec-level contents of a [`MonitoringData`].
#[verifier::ext_equal]
pub struct MonitoringDataView {
    pub values: Seq<crate::data_point::DataPointView>,
    pub display_options: DisplayOptionsView,
}

impl View for MonitoringData {
    type V = MonitoringDataView;

    open spec fn view(&self) -> MonitoringDataView {
        MonitoringDataView {
            values: self.values.deep_view(),
            display_options: self.display_options@,
        }
    }
}

impl crate::string_map::ViewClone for MonitoringData {
    fn view_clone(&self) -> (r: Self)
        ensures
            r@ == self@,
    {
        let values = self.values.clone();
        proof {
            assert(values.deep_view() =~= self.values.deep_view());
        }
        let r = MonitoringData { values, display_options: self.display_options.clone() };
        proof {
            assert(r@ =~= self@);
        }
        r
    }
}

impl MonitoringData {
    pub fn new(display_options: DisplayOptions) -> (r: MonitoringData)
        ensures
            r.values@.len() == 0,
            r.display_options@ == display_options@,
    {
        MonitoringData { values: Vec::new(), display_options }
    }
}

/// Snapshot of one host as the frontend shows it.
pub struct HostDisplayData {
    pub name: String,
    pub domain_name: String,
    pub ip_address: String,
    pub status: HostStatus,
    pub monitoring_data: StringMap<MonitoringData>,
}

/// Spec-level contents of a [`HostDisplayData`].
#[verifier::ext_equal]
pub struct HostDisplayDataView {
    pub name: Seq<char>,
    pub domain_name: Seq<char>,
    pub ip_address: Seq<char>,
    pub status: HostStatus,
    pub monitoring_data: Map<Seq<char>, MonitoringDataView>,
}

impl View for HostDisplayData {
    type V = HostDisplayDataView;

    open spec fn view(&self) -> HostDisplayDataView {
        HostDisplayDataView {
            name: self.name@,
            domain_name: self.domain_name@,
            ip_address: self.ip_address@,
            status: self.status,
            monitoring_data: self.monitoring_data@,
        }
    }
}

/// Everything the frontend needs to draw the host table.
pub struct DisplayData {
    pub all_monitor_names: Vec<String>,
    pub table_headers: Vec<String>,
    pub hosts: StringMap<HostDisplayData>,
}

/// A command-side signal to the frontend.
pub enum FrontendEvent {
    /// The command demands confirmation before it is dispatched.
    ConfirmationRequested {
        text: String,
        host_id: String,
        command_id: String,
        target_id: String,
    },
    /// A dialog should open and wait for the result with this invocation id.
    DetailsDialogOpened { invocation_id: u64 },
    /// A text view should open and wait for the result with this invocation id.
    TextViewOpened { header: String, invocation_id: u64 },
    /// The frontend should spawn a local terminal with this argument vector.
    TerminalRequested { argv: Vec<String> },
}

} // verus!
