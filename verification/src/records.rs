//! Typed results of the structured operating-system queries.
//!
//! The instrumentation schema cannot be assumed complete on every machine,
//! so every field of a record is optional. A query hands back its rows, or
//! the text of the error that it failed with.

use vstd::prelude::*;

verus! {

/// One row of the processor identity class.
#[derive(Clone, Debug, PartialEq, Eq)]
pub struct Win32Processor {
    pub name: Option<String>,
    pub load_percentage: Option<u16>,
    pub number_of_cores: Option<u32>,
    pub number_of_logical_processors: Option<u32>,
    pub current_clock_speed: Option<u32>,
}

/// One row of the processor performance-counter class: the aggregate row is
/// named `_Total`, every other row is named by the index of its logical
/// processor.
#[derive(Clone, Debug, PartialEq, Eq)]
pub struct Win32PerfFormattedDataProcessorInformation {
    pub name: Option<String>,
    pub percent_processor_time: Option<u64>,
}

/// One row of the video-controller class; adapter memory is in bytes.
#[derive(Clone, Debug, PartialEq, Eq)]
pub struct Win32VideoController {
    pub name: Option<String>,
    pub adapter_ram: Option<u64>,
}

/// One row of the disk-drive class; size is in bytes.
#[derive(Clone, Debug, PartialEq, Eq)]
pub struct Win32DiskDrive {
    pub model: Option<String>,
    pub size: Option<u64>,
}

/// One row of the baseboard class.
#[derive(Clone, Debug, PartialEq, Eq)]
pub struct Win32BaseBoard {
    pub manufacturer: Option<String>,
    pub product: Option<String>,
}

/// One row of the fan class.
#[derive(Clone, Debug, PartialEq, Eq)]
pub struct Win32Fan {
    pub name: Option<String>,
    pub desired_speed: Option<u64>,
}

/// A loosely typed property value, as far as the adapters read one.
#[derive(Clone, Debug, PartialEq, Eq)]
pub enum WmiValue {
    /// A text.
    Text(String),
    /// An unsigned 32-bit number.
    UI4(u32),
    /// An unsigned 64-bit number.
    UI8(u64),
    /// A signed 32-bit number.
    I4(i32),
    /// A value of any other type.
    Other,
}

/// One row of the generic fan class, by property.
#[derive(Clone, Debug, PartialEq, Eq)]
pub struct CimFan {
    pub name: Option<WmiValue>,
    pub desired_speed: Option<WmiValue>,
}

/// One row of the thermal-zone class: the current temperature in tenths of
/// a kelvin.
#[derive(Clone, Debug, PartialEq, Eq)]
pub struct ThermalZone {
    pub current_temperature: Option<WmiValue>,
}

/// A result whose error text is read as a sequence of characters.
pub open spec fn text_result<T>(r: Result<T, String>) -> Result<T, Seq<char>> {
    match r {
        Ok(v) => Ok(v),
        Err(e) => Err(e@),
    }
}

} // verus!
