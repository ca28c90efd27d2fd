//! The adapter for the vendor's command-line tool, which enriches the
//! graphics reading. The tool may be missing altogether: that is a soft
//! miss and leaves the base reading as it is.

use vstd::prelude::*;
use vstd::string::*;
use crate::fixed::{milli, quotient_toward_zero, Milli};
use crate::text::{first_line, first_line_of, split, split_on, trim, trimmed};

verus! {

/// Name of the vendor tool, looked up on the search path.
pub const SMI_BINARY: &'static str = "nvidia-smi";

/// Argument that asks for temperature, utilisation, used memory and clock.
pub const SMI_QUERY: &'static str =
    "--query-gpu=temperature.gpu,utilization.gpu,memory.used,clocks.gr";

/// Argument that asks for one comma-separated line without header or units.
pub const SMI_FORMAT: &'static str = "--format=csv,noheader,nounits";

/// Mebibytes in one gibibyte.
pub const MEBIBYTES_PER_GIBIBYTE: u32 = 1024;

/// Megahertz in one gigahertz.
pub const MEGAHERTZ_PER_GIGAHERTZ: u32 = 1000;

/// The four fields of the tool's answer, as text.
#[derive(Clone, Debug, PartialEq, Eq)]
pub struct SmiFields {
    pub temperature: String,
    pub utilization: String,
    pub memory_used: String,
    pub clock: String,
}

#[verifier::ext_equal]
pub struct SmiFieldsView {
    pub temperature: Seq<char>,
    pub utilization: Seq<char>,
    pub memory_used: Seq<char>,
    pub clock: Seq<char>,
}

impl View for SmiFields {
    type V = SmiFieldsView;

    open spec fn view(&self) -> SmiFieldsView {
        SmiFieldsView {
            temperature: self.temperature@,
            utilization: self.utilization@,
            memory_used: self.memory_used@,
            clock: self.clock@,
        }
    }
}

impl DeepView for SmiFields {
    type V = SmiFieldsView;

    open spec fn deep_view(&self) -> SmiFieldsView {
        self@
    }
}

/// What the tool adds to a graphics reading: degrees Celsius, percent,
/// gibibytes and gigahertz.
#[derive(Clone, Copy, Debug, PartialEq, Eq, Structural)]
pub struct SmiStats {
    pub temperature: Milli,
    pub load: Milli,
    pub memory_used: Milli,
    pub frequency: Milli,
}

/// The fields that the tool's output holds: the first four comma-separated
/// pieces of its first line, each trimmed. A failed run, an empty output
/// and a line of fewer than four pieces hold none.
pub open spec fn smi_fields(exit_success: bool, stdout: Seq<char>) -> Option<SmiFieldsView> {
    match first_line(stdout) {
        Some(line) if exit_success && split_on(line, ',').len() >= 4 => Some(
            SmiFieldsView {
                temperature: trimmed(split_on(line, ',')[0]),
                utilization: trimmed(split_on(line, ',')[1]),
                memory_used: trimmed(split_on(line, ',')[2]),
                clock: trimmed(split_on(line, ',')[3]),
            },
        ),
        _ => None,
    }
}

/// The enrichment that four parsed fields make: all four must have parsed;
/// memory comes in mebibytes and the clock in megahertz.
pub open spec fn smi_stats(
    temperature: Option<Milli>,
    utilization: Option<Milli>,
    memory_used_mb: Option<Milli>,
    clock_mhz: Option<Milli>,
) -> Option<SmiStats> {
    if temperature is Some && utilization is Some && memory_used_mb is Some && clock_mhz is Some {
        Some(
            SmiStats {
                temperature: temperature->0,
                load: utilization->0,
                memory_used: milli(quotient_toward_zero(memory_used_mb->0@, 1024)),
                frequency: milli(quotient_toward_zero(clock_mhz->0@, 1000)),
            },
        )
    } else {
        None
    }
}

/// Cuts the tool's output into its four fields.
pub fn nvidia_smi_fields(exit_success: bool, stdout: &str) -> (r: Option<SmiFields>)
    ensures
        r.deep_view() == smi_fields(exit_success, stdout@),
{
    if !exit_success {
        return None;
    }
    let line = match first_line_of(stdout) {
        Some(line) => line,
        None => {
            return None;
        },
    };
    let parts = split(line.as_str(), ',');
    if parts.len() >= 4 {
        let ghost pieces = split_on(line@, ',');
        assert(parts.deep_view() == pieces);
        assert(pieces[0] == parts@[0]@ && pieces[1] == parts@[1]@ && pieces[2] == parts@[2]@
            && pieces[3] == parts@[3]@);
        Some(
            SmiFields {
                temperature: trim(parts[0].as_str()),
                utilization: trim(parts[1].as_str()),
                memory_used: trim(parts[2].as_str()),
                clock: trim(parts[3].as_str()),
            },
        )
    } else {
        assert(parts.deep_view().len() == parts@.len());
        None
    }
}

/// Makes the enrichment from the four fields once each was read as a
/// number; a field that did not read as one is `None`.
pub fn get_nvidia_smi_stats(
    temperature: Option<Milli>,
    utilization: Option<Milli>,
    memory_used_mb: Option<Milli>,
    clock_mhz: Option<Milli>,
) -> (r: Option<SmiStats>)
    ensures
        r == smi_stats(temperature, utilization, memory_used_mb, clock_mhz),
{
    match (temperature, utilization, memory_used_mb, clock_mhz) {
        (Some(t), Some(u), Some(m), Some(c)) => Some(
            SmiStats {
                temperature: t,
                load: u,
                memory_used: m.divided_by(MEBIBYTES_PER_GIBIBYTE),
                frequency: c.divided_by(MEGAHERTZ_PER_GIGAHERTZ),
            },
        ),
        _ => None,
    }
}

} // verus!
