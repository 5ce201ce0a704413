//! Results produced by monitors and commands, and the error records that
//! accompany them in state updates.

use vstd::prelude::*;

use crate::enums::Criticality;

verus! {

/// One entry of a multi-valued data point, such as a single container
/// in a container listing.
pub struct SubPoint {
    pub label: String,
    pub value: String,
    pub criticality: Criticality,
}

/// Spec-level contents of a [`SubPoint`].
#[verifier::ext_equal]
pub struct SubPointView {
    pub label: Seq<char>,
    pub value: Seq<char>,
    pub criticality: Criticality,
}

impl View for SubPoint {
    type V = SubPointView;

    open spec fn view(&self) -> SubPointView {
        SubPointView { label: self.label@, value: self.value@, criticality: self.criticality }
    }
}

impl DeepView for SubPoint {
    type V = SubPointView;

    open spec fn deep_view(&self) -> SubPointView {
        self.view()
    }
}

impl SubPoint {
    pub fn new(value: String, criticality: Criticality) -> (r: SubPoint)
        ensures
            r@.value == value@,
            r@.label.len() == 0,
            r@.criticality == criticality,
    {
        SubPoint { label: String::new(), value, criticality }
    }
}

impl Clone for SubPoint {
    fn clone(&self) -> (r: Self)
        ensures
            r@ == self@,
    {
        SubPoint {
            label: self.label.clone(),
            value: self.value.clone(),
            criticality: self.criticality,
        }
    }
}

/// The value a monitor produced at a point in time. A point may carry a
/// scalar `value` or a list of sub-points in `multivalue`.
/// `invocation_id` zero marks bootstrap probes that are not user-facing.
pub struct DataPoint {
    pub label: String,
    pub value: String,
    pub multivalue: Vec<SubPoint>,
    pub criticality: Criticality,
    pub invocation_id: u64,
    pub is_from_cache: bool,
    pub timestamp: u64,
}

/// Spec-level contents of a [`DataPoint`].
#[verifier::ext_equal]
pub struct DataPointView {
    pub label: Seq<char>,
    pub value: Seq<char>,
    pub multivalue: Seq<SubPointView>,
    pub criticality: Criticality,
    pub invocation_id: u64,
    pub is_from_cache: bool,
    pub timestamp: u64,
}

impl View for DataPoint {
    type V = DataPointView;

    open spec fn view(&self) -> DataPointView {
        DataPointView {
            label: self.label@,
            value: self.value@,
            multivalue: self.multivalue.deep_view(),
            criticality: self.criticality,
            invocation_id: self.invocation_id,
            is_from_cache: self.is_from_cache,
            timestamp: self.timestamp,
        }
    }
}

impl DeepView for DataPoint {
    type V = DataPointView;

    open spec fn deep_view(&self) -> DataPointView {
        self.view()
    }
}

impl DataPointView {
    /// The data-point invariant: a point with no data carries no value.
    pub open spec fn wf(&self) -> bool {
        self.criticality == Criticality::NoData ==> self.value.len() == 0
    }
}

impl DataPoint {
    pub open spec fn wf(&self) -> bool {
        self@.wf()
    }

    /// A point recording that no data has been received yet.
    pub fn no_data() -> (r: DataPoint)
        ensures
            r.wf(),
            r@.criticality == Criticality::NoData,
            r@.label.len() == 0,
            r@.value.len() == 0,
            r@.multivalue.len() == 0,
            r@.invocation_id == 0,
            r@.is_from_cache == false,
            r@.timestamp == 0,
    {
        DataPoint {
            label: String::new(),
            value: String::new(),
            multivalue: Vec::new(),
            criticality: Criticality::NoData,
            invocation_id: 0,
            is_from_cache: false,
            timestamp: 0,
        }
    }

    /// An empty placeholder handed to the first module of a chain as its
    /// parent data point.
    pub fn empty() -> (r: DataPoint)
        ensures
            r.wf(),
            r@.criticality == Criticality::Normal,
            r@.label.len() == 0,
            r@.value.len() == 0,
            r@.multivalue.len() == 0,
            r@.invocation_id == 0,
            r@.is_from_cache == false,
            r@.timestamp == 0,
    {
        DataPoint {
            label: String::new(),
            value: String::new(),
            multivalue: Vec::new(),
            criticality: Criticality::Normal,
            invocation_id: 0,
            is_from_cache: false,
            timestamp: 0,
        }
    }

    /// The canonical failure placeholder: empty value, critical level.
    pub fn empty_and_critical() -> (r: DataPoint)
        ensures
            r.wf(),
            r@.criticality == Criticality::Critical,
            r@.label.len() == 0,
            r@.value.len() == 0,
            r@.multivalue.len() == 0,
            r@.invocation_id == 0,
            r@.is_from_cache == false,
            r@.timestamp == 0,
    {
        DataPoint {
            label: String::new(),
            value: String::new(),
            multivalue: Vec::new(),
            criticality: Criticality::Critical,
            invocation_id: 0,
            is_from_cache: false,
            timestamp: 0,
        }
    }

    /// A normal scalar data point.
    pub fn new(value: String) -> (r: DataPoint)
        ensures
            r.wf(),
            r@.criticality == Criticality::Normal,
            r@.label.len() == 0,
            r@.value == value@,
            r@.multivalue.len() == 0,
            r@.invocation_id == 0,
            r@.is_from_cache == false,
            r@.timestamp == 0,
    {
        DataPoint {
            label: String::new(),
            value,
            multivalue: Vec::new(),
            criticality: Criticality::Normal,
            invocation_id: 0,
            is_from_cache: false,
            timestamp: 0,
        }
    }

    /// A scalar data point at a chosen criticality level.
    pub fn new_with_level(value: String, criticality: Criticality) -> (r: DataPoint)
        requires
            criticality == Criticality::NoData ==> value@.len() == 0,
        ensures
            r.wf(),
            r@.criticality == criticality,
            r@.label.len() == 0,
            r@.value == value@,
            r@.multivalue.len() == 0,
            r@.invocation_id == 0,
            r@.is_from_cache == false,
            r@.timestamp == 0,
    {
        DataPoint {
            label: String::new(),
            value,
            multivalue: Vec::new(),
            criticality,
            invocation_id: 0,
            is_from_cache: false,
            timestamp: 0,
        }
    }

    /// A multi-valued data point.
    pub fn new_multivalue(multivalue: Vec<SubPoint>, criticality: Criticality) -> (r: DataPoint)
        requires
            criticality != Criticality::NoData,
        ensures
            r.wf(),
            r@.criticality == criticality,
            r@.label.len() == 0,
            r@.value.len() == 0,
            r@.multivalue == multivalue.deep_view(),
            r@.invocation_id == 0,
            r@.is_from_cache == false,
            r@.timestamp == 0,
    {
        DataPoint {
            label: String::new(),
            value: String::new(),
            multivalue,
            criticality,
            invocation_id: 0,
            is_from_cache: false,
            timestamp: 0,
        }
    }

    /// Whether the point carries nothing to display.
    pub fn is_empty(&self) -> (r: bool)
        ensures
            r == (self@.value.len() == 0 && self@.multivalue.len() == 0),
    {
        self.value.as_str().is_empty() && self.multivalue.len() == 0
    }
}

impl Clone for DataPoint {
    fn clone(&self) -> (r: Self)
        ensures
            r@ == self@,
    {
        let multivalue = self.multivalue.clone();
        proof {
            assert(multivalue.deep_view() =~= self.multivalue.deep_view());
            assert(multivalue.deep_view() == self.multivalue.deep_view());
        }
        let r = DataPoint {
            label: self.label.clone(),
            value: self.value.clone(),
            multivalue,
            criticality: self.criticality,
            invocation_id: self.invocation_id,
            is_from_cache: self.is_from_cache,
            timestamp: self.timestamp,
        };
        proof {
            assert(r@ =~= self@);
        }
        r
    }
}

/// What an operator command produced.
pub struct CommandResult {
    pub message: String,
    pub criticality: Criticality,
    pub invocation_id: u64,
}

/// Spec-level contents of a [`CommandResult`].
#[verifier::ext_equal]
pub struct CommandResultView {
    pub message: Seq<char>,
    pub criticality: Criticality,
    pub invocation_id: u64,
}

impl View for CommandResult {
    type V = CommandResultView;

    open spec fn view(&self) -> CommandResultView {
        CommandResultView {
            message: self.message@,
            criticality: self.criticality,
            invocation_id: self.invocation_id,
        }
    }
}

impl CommandResult {
    pub fn new(message: String) -> (r: CommandResult)
        ensures
            r.message@ == message@,
            r.criticality == Criticality::Normal,
            r.invocation_id == 0,
    {
        CommandResult { message, criticality: Criticality::Normal, invocation_id: 0 }
    }

    pub fn new_info(message: String) -> (r: CommandResult)
        ensures
            r.message@ == message@,
            r.criticality == Criticality::Info,
            r.invocation_id == 0,
    {
        CommandResult { message, criticality: Criticality::Info, invocation_id: 0 }
    }

    /// The canonical failure sentinel.
    pub fn empty_and_critical() -> (r: CommandResult)
        ensures
            r.message@.len() == 0,
            r.criticality == Criticality::Critical,
            r.invocation_id == 0,
    {
        CommandResult { message: String::new(), criticality: Criticality::Critical, invocation_id: 0 }
    }
}

impl Clone for CommandResult {
    fn clone(&self) -> (r: Self)
        ensures
            r == *self,
    {
        CommandResult {
            message: self.message.clone(),
            criticality: self.criticality,
            invocation_id: self.invocation_id,
        }
    }
}

/// An error surfaced beside (not instead of) a data point.
pub struct ErrorMessage {
    pub criticality: Criticality,
    pub message: String,
}

/// Spec-level contents of an [`ErrorMessage`].
#[verifier::ext_equal]
pub struct ErrorMessageView {
    pub criticality: Criticality,
    pub message: Seq<char>,
}

impl View for ErrorMessage {
    type V = ErrorMessageView;

    open spec fn view(&self) -> ErrorMessageView {
        ErrorMessageView { criticality: self.criticality, message: self.message@ }
    }
}

impl DeepView for ErrorMessage {
    type V = ErrorMessageView;

    open spec fn deep_view(&self) -> ErrorMessageView {
        self.view()
    }
}

impl ErrorMessage {
    pub fn new(criticality: Criticality, message: String) -> (r: ErrorMessage)
        ensures
            r.criticality == criticality,
            r.message@ == message@,
    {
        ErrorMessage { criticality, message }
    }
}

impl Clone for ErrorMessage {
    fn clone(&self) -> (r: Self)
        ensures
            r == *self,
    {
        ErrorMessage { criticality: self.criticality, message: self.message.clone() }
    }
}

} // verus!
