//! The optional kernel driver that gives the helper access to the sensors.

use vstd::prelude::*;
use crate::text::{contains, has_substring};

verus! {

/// Name of the driver's service.
pub const DRIVER_SERVICE: &'static str = "PawnIO";

/// Whether the driver is there, and whether that is still being found out.
#[derive(Clone, Copy, Debug, PartialEq, Eq, Structural)]
pub struct PawnIOStatus {
    pub installed: bool,
    pub checking: bool,
}

/// Whether the answer of the service manager shows the driver's service:
/// an answer that names a state does, no answer does not.
pub open spec fn driver_present(answer: Option<Seq<char>>) -> bool {
    match answer {
        Some(text) => has_substring(text, "STATE"@) || has_substring(text, "RUNNING"@),
        None => false,
    }
}

/// Tells from the service manager's answer whether the driver is
/// installed. `None` stands for a query that could not be run.
pub fn is_pawnio_installed(answer: Option<&str>) -> (r: bool)
    ensures
        r == driver_present(answer.deep_view()),
{
    match answer {
        Some(text) => contains(text, "STATE") || contains(text, "RUNNING"),
        None => false,
    }
}

/// The status that is shown for a finished check.
pub fn check_pawnio_status(installed: bool) -> (r: PawnIOStatus)
    ensures
        r == (PawnIOStatus { installed, checking: false }),
{
    PawnIOStatus { installed, checking: false }
}

} // verus!
