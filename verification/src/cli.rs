//! The command-line frontend's rendering of monitoring data: one table
//! row per host, one cell per monitor. Drawing the table itself is the
//! embedding application's job; the cell texts, including their ANSI
//! coloring, are computed here.

use owo_colors::OwoColorize;

use vstd::prelude::*;

use crate::data_point::{DataPoint, DataPointView, SubPointView};
use crate::enums::{Criticality, HostStatus};
use crate::frontend::{DisplayData, DisplayOptions, DisplayOptionsView, DisplayStyle};

verus! {

/// The text wrapped in the ANSI green-foreground escape and the
/// default-foreground reset.
pub open spec fn spec_green(s: Seq<char>) -> Seq<char> {
    "\u{1b}[32m"@ + s + "\u{1b}[39m"@
}

/// The text wrapped in the ANSI yellow-foreground escape and the reset.
pub open spec fn spec_yellow(s: Seq<char>) -> Seq<char> {
    "\u{1b}[33m"@ + s + "\u{1b}[39m"@
}

/// The text wrapped in the ANSI red-foreground escape and the reset.
pub open spec fn spec_red(s: Seq<char>) -> Seq<char> {
    "\u{1b}[31m"@ + s + "\u{1b}[39m"@
}

/// Relies on owo_colors::OwoColorize::green and the Display impl of
/// FgColorDisplay: the text between the green foreground escape and the
/// default-foreground reset.
#[verifier::external_body]
fn paint_green(s: &str) -> (r: String)
    ensures
        r@ == spec_green(s@),
{
    s.green().to_string()
}

/// Relies on owo_colors::OwoColorize::yellow and the Display impl of
/// FgColorDisplay: the text between the yellow foreground escape and the
/// default-foreground reset.
#[verifier::external_body]
fn paint_yellow(s: &str) -> (r: String)
    ensures
        r@ == spec_yellow(s@),
{
    s.yellow().to_string()
}

/// Relies on owo_colors::OwoColorize::red and the Display impl of
/// FgColorDisplay: the text between the red foreground escape and the
/// default-foreground reset.
#[verifier::external_body]
fn paint_red(s: &str) -> (r: String)
    ensures
        r@ == spec_red(s@),
{
    s.red().to_string()
}

/// One cell of a criticality-level multivalue: a colored block, or the
/// no-data text.
pub open spec fn spec_criticality_block(c: Criticality) -> Seq<char> {
    match c {
        Criticality::NoData => "No data"@,
        Criticality::Normal => spec_green("#"@),
        Criticality::Info => spec_green("#"@),
        Criticality::Warning => spec_yellow("#"@),
        Criticality::Error => spec_red("#"@),
        Criticality::Critical => spec_red("#"@),
    }
}

/// The textual name of a criticality level.
pub open spec fn spec_criticality_name(c: Criticality) -> Seq<char> {
    match c {
        Criticality::NoData => "No data"@,
        Criticality::Normal => "Normal"@,
        Criticality::Info => "Info"@,
        Criticality::Warning => "Warning"@,
        Criticality::Error => "Error"@,
        Criticality::Critical => "Critical"@,
    }
}

/// The colored up/down text for a status value.
pub open spec fn spec_status_text(value: Seq<char>) -> Seq<char> {
    if value == "up"@ {
        spec_green("Up"@)
    } else {
        spec_red("Down"@)
    }
}

/// One sub-point rendered under a display style.
pub open spec fn spec_sub_rendered(style: DisplayStyle, sub: SubPointView) -> Seq<char> {
    match style {
        DisplayStyle::CriticalityLevel => spec_criticality_block(sub.criticality),
        DisplayStyle::Numeric => "TODO"@,
        DisplayStyle::StatusUpDown => spec_status_text(sub.value),
        _ => sub.value,
    }
}

/// A multivalue rendered: the cells joined, with no separator between
/// criticality blocks and a comma between anything else.
pub open spec fn spec_multi_rendered(style: DisplayStyle, subs: Seq<SubPointView>) -> Seq<char>
    decreases subs.len(),
{
    if subs.len() == 0 {
        Seq::empty()
    } else if subs.len() == 1 {
        spec_sub_rendered(style, subs[0])
    } else {
        spec_multi_rendered(style, subs.drop_last()) + (if style
            == DisplayStyle::CriticalityLevel {
            Seq::<char>::empty()
        } else {
            ", "@
        }) + spec_sub_rendered(style, subs.last())
    }
}

/// One data point as the command-line table shows it.
pub open spec fn spec_converted(point: DataPointView, options: DisplayOptionsView) -> Seq<char> {
    if point.value.len() == 0 && point.multivalue.len() == 0 {
        Seq::empty()
    } else if options.use_multivalue {
        spec_multi_rendered(options.display_style, point.multivalue)
    } else {
        match options.display_style {
            DisplayStyle::CriticalityLevel => spec_criticality_name(point.criticality),
            DisplayStyle::Numeric => "TODO"@,
            DisplayStyle::StatusUpDown => spec_status_text(point.value),
            _ => point.value,
        }
    }
}

fn criticality_block(c: Criticality) -> (r: String)
    ensures
        r@ == spec_criticality_block(c),
{
    match c {
        Criticality::NoData => "No data".to_owned(),
        Criticality::Normal => paint_green("#"),
        Criticality::Info => paint_green("#"),
        Criticality::Warning => paint_yellow("#"),
        Criticality::Error => paint_red("#"),
        Criticality::Critical => paint_red("#"),
    }
}

fn criticality_name(c: Criticality) -> (r: String)
    ensures
        r@ == spec_criticality_name(c),
{
    match c {
        Criticality::NoData => "No data".to_owned(),
        Criticality::Normal => "Normal".to_owned(),
        Criticality::Info => "Info".to_owned(),
        Criticality::Warning => "Warning".to_owned(),
        Criticality::Error => "Error".to_owned(),
        Criticality::Critical => "Critical".to_owned(),
    }
}

fn status_text(value: &str) -> (r: String)
    ensures
        r@ == spec_status_text(value@),
{
    match HostStatus::from_value(value) {
        HostStatus::Up => paint_green("Up"),
        HostStatus::Down => paint_red("Down"),
    }
}

/// Renders one data point for the command-line table.
pub fn convert_to_string(data_point: &DataPoint, display_options: &DisplayOptions) -> (r: String)
    ensures
        r@ == spec_converted(data_point@, display_options@),
{
    if data_point.is_empty() {
        return String::new();
    }
    if display_options.use_multivalue {
        let style = display_options.display_style;
        let subs = &data_point.multivalue;
        let ghost subsv = data_point@.multivalue;
        let n = subs.len();
        let mut out = String::new();
        let mut i: usize = 0;
        proof {
            assert(out@ =~= spec_multi_rendered(style, subsv.take(0)));
        }
        while i < n
            invariant
                0 <= i <= n,
                n == subsv.len(),
                n == subs@.len(),
                subs.deep_view() == subsv,
                subsv == data_point@.multivalue,
                out@ == spec_multi_rendered(style, subsv.take(i as int)),
            decreases n - i,
        {
            proof {
                assert(subsv.take(i as int + 1).drop_last() =~= subsv.take(i as int));
                assert(subsv.take(i as int + 1).last() == subsv[i as int]);
                assert(subs@[i as int]@ == subs.deep_view()[i as int]);
            }
            if i > 0 {
                if !matches!(style, DisplayStyle::CriticalityLevel) {
                    out.append(", ");
                }
            }
            let sub = &subs[i];
            let cell: String = match style {
                DisplayStyle::CriticalityLevel => criticality_block(sub.criticality),
                DisplayStyle::Numeric => "TODO".to_owned(),
                DisplayStyle::StatusUpDown => status_text(sub.value.as_str()),
                _ => sub.value.clone(),
            };
            out.append(cell.as_str());
            proof {
                assert(out@ =~= spec_multi_rendered(style, subsv.take(i as int + 1)));
            }
            i += 1;
        }
        proof {
            assert(subsv.take(n as int) =~= subsv);
        }
        out
    } else {
        match display_options.display_style {
            DisplayStyle::CriticalityLevel => criticality_name(data_point.criticality),
            DisplayStyle::Numeric => "TODO".to_owned(),
            DisplayStyle::StatusUpDown => status_text(data_point.value.as_str()),
            _ => data_point.value.clone(),
        }
    }
}

/// The textual name of a host status.
pub fn status_name(status: HostStatus) -> (r: String)
    ensures
        r@ == spec_status_name(status),
{
    match status {
        HostStatus::Up => "Up".to_owned(),
        HostStatus::Down => "Down".to_owned(),
    }
}

pub open spec fn spec_status_name(status: HostStatus) -> Seq<char> {
    match status {
        HostStatus::Up => "Up"@,
        HostStatus::Down => "Down"@,
    }
}

/// One host's table row: identity columns, then one cell per monitor
/// name, empty when the host has no data for that monitor.
pub open spec fn spec_host_row(
    h: crate::frontend::HostDisplayDataView,
    monitor_names: Seq<Seq<char>>,
) -> Seq<Seq<char>> {
    seq![h.name, spec_status_name(h.status), h.domain_name, h.ip_address] + Seq::new(
        monitor_names.len(),
        |j: int|
            if h.monitoring_data.contains_key(monitor_names[j]) && h.monitoring_data[
                monitor_names[j]
            ].values.len() > 0 {
                spec_converted(
                    h.monitoring_data[monitor_names[j]].values.last(),
                    h.monitoring_data[monitor_names[j]].display_options,
                )
            } else {
                Seq::empty()
            },
    )
}

/// The command-line frontend.
pub struct Cli {}

impl Cli {
    /// The table rows of a display snapshot, one per host in entry
    /// order; the embedding application draws them.
    pub fn build_rows(display_data: &DisplayData) -> (r: Vec<Vec<String>>)
        ensures
            r@.len() == display_data.hosts.spec_len(),
            forall|i: int|
                0 <= i < r@.len() ==> #[trigger] r@[i].deep_view() == spec_host_row(
                    display_data.hosts.entry_seq()[i].1@,
                    display_data.all_monitor_names.deep_view(),
                ),
    {
        let ghost entries = display_data.hosts.entry_seq();
        let ghost names = display_data.all_monitor_names.deep_view();
        let host_count = display_data.hosts.len();
        let name_count = display_data.all_monitor_names.len();
        let mut rows: Vec<Vec<String>> = Vec::new();
        let mut i: usize = 0;
        while i < host_count
            invariant
                0 <= i <= host_count,
                host_count == entries.len(),
                entries == display_data.hosts.entry_seq(),
                names == display_data.all_monitor_names.deep_view(),
                name_count == names.len(),
                rows@.len() == i,
                forall|k: int|
                    0 <= k < i ==> #[trigger] rows@[k].deep_view() == spec_host_row(
                        entries[k].1@,
                        names,
                    ),
            decreases host_count - i,
        {
            let host_data = display_data.hosts.value_at(i);
            let ghost hv = host_data@;
            let mut row: Vec<String> = Vec::new();
            row.push(host_data.name.clone());
            row.push(status_name(host_data.status));
            row.push(host_data.domain_name.clone());
            row.push(host_data.ip_address.clone());
            proof {
                assert(row.deep_view() =~= seq![
                    hv.name,
                    spec_status_name(hv.status),
                    hv.domain_name,
                    hv.ip_address,
                ]);
            }
            let ghost prefix = row.deep_view();
            let mut j: usize = 0;
            while j < name_count
                invariant
                    0 <= j <= name_count,
                    name_count == names.len(),
                    names == display_data.all_monitor_names.deep_view(),
                    hv == host_data@,
                    prefix.len() == 4,
                    row.deep_view().len() == 4 + j,
                    row.deep_view().take(4) == prefix,
                    forall|l: int|
                        0 <= l < j ==> #[trigger] row.deep_view()[4 + l]
                            == spec_host_row(hv, names)[4 + l],
                decreases name_count - j,
            {
                proof {
                    assert(display_data.all_monitor_names@[j as int]@ == names[j as int]);
                }
                let monitor_name = &display_data.all_monitor_names[j];
                let ghost row_before = row.deep_view();
                let cell: String = match host_data.monitoring_data.get(monitor_name.as_str()) {
                    Some(monitoring_data) => {
                        let count = monitoring_data.values.len();
                        if count > 0 {
                            let last = &monitoring_data.values[count - 1];
                            proof {
                                assert(last@ == monitoring_data@.values.last());
                            }
                            convert_to_string(last, &monitoring_data.display_options)
                        } else {
                            String::new()
                        }
                    },
                    None => String::new(),
                };
                let ghost cellv = cell@;
                row.push(cell);
                proof {
                    assert(row.deep_view() =~= row_before.push(cellv));
                    assert(row.deep_view().take(4) =~= prefix);
                    assert(spec_host_row(hv, names)[4 + j as int] == cellv);
                    assert(row.deep_view()[4 + j as int] == spec_host_row(hv, names)[4 + j as int]);
                }
                j += 1;
            }
            proof {
                assert(spec_host_row(hv, names).len() == 4 + names.len());
                assert forall|k: int|
                    0 <= k < row.deep_view().len() implies row.deep_view()[k] == spec_host_row(
                    hv,
                    names,
                )[k] by {
                    if k < 4 {
                        assert(row.deep_view()[k] == row.deep_view().take(4)[k]);
                        assert(prefix[k] == spec_host_row(hv, names)[k]);
                    } else {
                        let l = k - 4;
                        assert(row.deep_view()[4 + l] == spec_host_row(hv, names)[4 + l]);
                    }
                }
                assert(row.deep_view() =~= spec_host_row(hv, names));
            }
            rows.push(row);
            proof {
                assert(rows@[i as int].deep_view() == spec_host_row(hv, names));
            }
            i += 1;
        }
        rows
    }
}

} // verus!
