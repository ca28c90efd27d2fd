//! Error reports: what is recorded when something goes wrong.
//!
//! A report is a value. Sending it is the caller's business.

use vstd::prelude::*;
use vstd::string::*;
use crate::model::HardwareData;

verus! {

/// One error report: a message, the part of the application that it comes
/// from, and named details.
#[derive(Clone, Debug, PartialEq, Eq)]
pub struct ErrorReport {
    pub message: String,
    pub source: String,
    pub extras: Vec<(String, String)>,
}

#[verifier::ext_equal]
pub struct ErrorReportView {
    pub message: Seq<char>,
    pub source: Seq<char>,
    pub extras: Seq<(Seq<char>, Seq<char>)>,
}

impl View for ErrorReport {
    type V = ErrorReportView;

    open spec fn view(&self) -> ErrorReportView {
        ErrorReportView {
            message: self.message@,
            source: self.source@,
            extras: self.extras.deep_view(),
        }
    }
}

impl DeepView for ErrorReport {
    type V = ErrorReportView;

    open spec fn deep_view(&self) -> ErrorReportView {
        self@
    }
}

/// A report with its message prefixed by the bracketed name of its area.
pub open spec fn tagged_report(
    prefix: Seq<char>,
    error: Seq<char>,
    source: Seq<char>,
    extras: Seq<(Seq<char>, Seq<char>)>,
) -> ErrorReportView {
    ErrorReportView { message: prefix + error, source, extras }
}

/// The report on a snapshot, if it needs one: a snapshot without processor
/// and without graphics reading is reported with the first reason that it
/// gives.
pub open spec fn snapshot_report(
    cpu_missing: bool,
    gpu_missing: bool,
    cpu_error: Option<Seq<char>>,
    gpu_error: Option<Seq<char>>,
) -> Option<ErrorReportView> {
    if cpu_missing && gpu_missing {
        let detail = match cpu_error {
            Some(e) => e,
            None => match gpu_error {
                Some(e) => e,
                None => "Unknown error"@,
            },
        };
        Some(
            tagged_report(
                "[Hardware] "@,
                "Both CPU and GPU data unavailable: "@ + detail,
                "hardware"@,
                seq![("hardware_type"@, "both"@)],
            ),
        )
    } else {
        None
    }
}

/// Makes a report from a message, its source and its details.
pub fn capture_error(error: &str, source: &str, extras: Vec<(String, String)>) -> (r: ErrorReport)
    ensures
        r@.message == error@,
        r@.source == source@,
        r@.extras == extras.deep_view(),
{
    ErrorReport { message: String::from_str(error), source: String::from_str(source), extras }
}

/// Makes a report with one detail and a prefixed message.
fn tagged(prefix: &str, error: &str, source: &str, key: &str, value: &str) -> (r: ErrorReport)
    ensures
        r@ == tagged_report(prefix@, error@, source@, seq![(key@, value@)]),
{
    let mut extras: Vec<(String, String)> = Vec::new();
    extras.push((String::from_str(key), String::from_str(value)));
    assert(extras.deep_view() =~= seq![(key@, value@)]);
    let message = String::from_str(prefix).concat(error);
    capture_error(message.as_str(), source, extras)
}

/// Reports an error of the hardware readings.
pub fn capture_hardware_error(error: &str, hardware_type: &str) -> (r: ErrorReport)
    ensures
        r@ == tagged_report(
            "[Hardware] "@,
            error@,
            "hardware"@,
            seq![("hardware_type"@, hardware_type@)],
        ),
{
    tagged("[Hardware] ", error, "hardware", "hardware_type", hardware_type)
}

/// Reports an error of the settings.
pub fn capture_settings_error(error: &str, operation: &str) -> (r: ErrorReport)
    ensures
        r@ == tagged_report(
            "[Settings] "@,
            error@,
            "settings"@,
            seq![("operation"@, operation@)],
        ),
{
    tagged("[Settings] ", error, "settings", "operation", operation)
}

/// Reports an error of the window handling.
pub fn capture_window_error(error: &str, operation: &str) -> (r: ErrorReport)
    ensures
        r@ == tagged_report("[Window] "@, error@, "window"@, seq![("operation"@, operation@)]),
{
    tagged("[Window] ", error, "window", "operation", operation)
}

/// Reports an error of the helper daemon.
pub fn capture_lhm_error(error: &str) -> (r: ErrorReport)
    ensures
        r@ == tagged_report("[LHM] "@, error@, "lhm_daemon"@, Seq::empty()),
{
    let extras: Vec<(String, String)> = Vec::new();
    assert(extras.deep_view() =~= Seq::<(Seq<char>, Seq<char>)>::empty());
    let message = String::from_str("[LHM] ").concat(error);
    capture_error(message.as_str(), "lhm_daemon", extras)
}

/// Reports an error of a structured query.
pub fn capture_wmi_error(error: &str, query_type: &str) -> (r: ErrorReport)
    ensures
        r@ == tagged_report("[WMI] "@, error@, "wmi"@, seq![("query_type"@, query_type@)]),
{
    tagged("[WMI] ", error, "wmi", "query_type", query_type)
}

/// Reports a snapshot that has neither a processor nor a graphics reading.
pub fn report_unavailable(snapshot: &HardwareData) -> (r: Option<ErrorReport>)
    ensures
        r.deep_view() == snapshot_report(
            snapshot@.cpu is None,
            snapshot@.gpu is None,
            snapshot@.cpu_error,
            snapshot@.gpu_error,
        ),
{
    if snapshot.cpu.is_none() && snapshot.gpu.is_none() {
        let detail: &str = match &snapshot.cpu_error {
            Some(e) => e.as_str(),
            None => match &snapshot.gpu_error {
                Some(e) => e.as_str(),
                None => "Unknown error",
            },
        };
        let message = String::from_str("Both CPU and GPU data unavailable: ").concat(detail);
        Some(capture_hardware_error(message.as_str(), "both"))
    } else {
        None
    }
}

} // verus!
