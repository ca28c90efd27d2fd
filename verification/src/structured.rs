//! The structured query tier: one snapshot from the operating system's
//! instrumentation, each subsystem resolved on its own.

use vstd::prelude::*;
use vstd::string::*;
use crate::board::{get_motherboard_info, motherboard_info};
use crate::cpu::{cpu_info, get_cpu_info, ThermalProbe};
use crate::gpu::{get_gpu_info, gpu_info};
use crate::model::{HardwareData, HardwareView};
use crate::records::{
    CimFan, Win32BaseBoard, Win32DiskDrive, Win32Fan, Win32PerfFormattedDataProcessorInformation,
    Win32Processor, Win32VideoController,
};
use crate::smi::SmiStats;
use crate::storage::{get_storage_info, storage_info};

verus! {

/// What the queries of one poll brought back.
#[derive(Debug, PartialEq, Eq)]
pub struct WmiReadings {
    /// Rows of the processor identity class.
    pub processors: Result<Vec<Win32Processor>, String>,
    /// The performance counters' row named `_Total`.
    pub total_load: Result<Vec<Win32PerfFormattedDataProcessorInformation>, String>,
    /// The thermal-zone probe.
    pub thermal: ThermalProbe,
    /// The performance counters' rows other than `_Total`.
    pub core_loads: Result<Vec<Win32PerfFormattedDataProcessorInformation>, String>,
    /// Rows of the video-controller class.
    pub adapters: Result<Vec<Win32VideoController>, String>,
    /// The vendor tool's enrichment, if it gave one.
    pub smi: Option<SmiStats>,
    /// Rows of the disk-drive class.
    pub disks: Result<Vec<Win32DiskDrive>, String>,
    /// Rows of the baseboard class.
    pub boards: Result<Vec<Win32BaseBoard>, String>,
    /// Rows of the fan class.
    pub fans: Result<Vec<Win32Fan>, String>,
    /// Rows of the generic fan class.
    pub generic_fans: Result<Vec<CimFan>, String>,
}

/// How far the structured tier got.
#[derive(Debug, PartialEq, Eq)]
pub enum WmiSession {
    /// The component library could not be initialised.
    ComFailed { detail: String },
    /// The instrumentation could not be reached.
    ConnectionFailed { detail: String },
    /// The queries ran.
    Connected(WmiReadings),
}

/// The snapshot in which nothing could be read, for one and the same
/// reason.
pub open spec fn unavailable(timestamp: u64, reason: Seq<char>) -> HardwareView {
    HardwareView {
        cpu: None,
        gpu: None,
        storage: None,
        motherboard: None,
        timestamp,
        cpu_error: Some(reason),
        gpu_error: Some(reason),
    }
}

/// The reading of a result, if it is one.
pub open spec fn reading_of<T>(r: Result<T, Seq<char>>) -> Option<T> {
    match r {
        Ok(v) => Some(v),
        Err(_) => None,
    }
}

/// The error text of a result, if it is one.
pub open spec fn error_of<T>(r: Result<T, Seq<char>>) -> Option<Seq<char>> {
    match r {
        Ok(_) => None,
        Err(e) => Some(e),
    }
}

/// The snapshot that the queries' results resolve to. Processor and
/// graphics each bring a reading or an error text, independently of one
/// another; storage and baseboard bring a reading or nothing.
pub open spec fn readings_snapshot(r: WmiReadings, timestamp: u64) -> HardwareView {
    let cpu = cpu_info(r.processors, r.total_load, r.thermal, r.core_loads);
    let gpu = gpu_info(r.adapters, r.smi);
    HardwareView {
        cpu: reading_of(cpu),
        gpu: reading_of(gpu),
        storage: reading_of(storage_info(r.disks)),
        motherboard: reading_of(motherboard_info(r.boards, r.fans, r.generic_fans)),
        timestamp,
        cpu_error: error_of(cpu),
        gpu_error: error_of(gpu),
    }
}

/// The snapshot that the structured tier resolves to at `timestamp`.
pub open spec fn wmi_snapshot(session: WmiSession, timestamp: u64) -> HardwareView {
    match session {
        WmiSession::ComFailed { detail } => unavailable(timestamp, "COM init failed: "@ + detail@),
        WmiSession::ConnectionFailed { detail } => unavailable(
            timestamp,
            "WMI connection failed: "@ + detail@,
        ),
        WmiSession::Connected(readings) => readings_snapshot(readings, timestamp),
    }
}

/// In the structured tier a component and its error text exclude each
/// other and one of the two is always there, for the processor and for
/// graphics alike; and a failure of the one does not touch the other.
pub proof fn lemma_structured_reading_or_error(session: WmiSession, timestamp: u64)
    ensures
        wmi_snapshot(session, timestamp).cpu is None <==> wmi_snapshot(
            session,
            timestamp,
        ).cpu_error is Some,
        wmi_snapshot(session, timestamp).gpu is None <==> wmi_snapshot(
            session,
            timestamp,
        ).gpu_error is Some,
        wmi_snapshot(session, timestamp).timestamp == timestamp,
{
}

/// The processor and the graphics reading of the structured tier do not
/// depend on each other's queries.
pub proof fn lemma_subsystems_independent(a: WmiReadings, b: WmiReadings, timestamp: u64)
    ensures
        (a.processors == b.processors && a.total_load == b.total_load && a.thermal == b.thermal
            && a.core_loads == b.core_loads) ==> readings_snapshot(a, timestamp).cpu
            == readings_snapshot(b, timestamp).cpu && readings_snapshot(a, timestamp).cpu_error
            == readings_snapshot(b, timestamp).cpu_error,
        (a.adapters == b.adapters && a.smi == b.smi) ==> readings_snapshot(a, timestamp).gpu
            == readings_snapshot(b, timestamp).gpu && readings_snapshot(a, timestamp).gpu_error
            == readings_snapshot(b, timestamp).gpu_error,
{
}

/// Builds the snapshot in which nothing could be read.
fn snapshot_unavailable(timestamp: u64, reason: String) -> (r: HardwareData)
    ensures
        r@ == unavailable(timestamp, reason@),
{
    HardwareData {
        cpu: None,
        gpu: None,
        storage: None,
        motherboard: None,
        timestamp,
        cpu_error: Some(reason.clone()),
        gpu_error: Some(reason),
    }
}

/// Builds the snapshot of one poll from the structured tier alone. Never
/// fails: what could not be read is absent, with its reason where the
/// snapshot has a field for one.
pub fn get_hardware_from_wmi(timestamp: u64, session: &WmiSession) -> (r: HardwareData)
    ensures
        r@ == wmi_snapshot(*session, timestamp),
        r@.well_formed(),
        r@.cpu is None <==> r@.cpu_error is Some,
        r@.gpu is None <==> r@.gpu_error is Some,
{
    match session {
        WmiSession::ComFailed { detail } => snapshot_unavailable(
            timestamp,
            String::from_str("COM init failed: ").concat(detail.as_str()),
        ),
        WmiSession::ConnectionFailed { detail } => snapshot_unavailable(
            timestamp,
            String::from_str("WMI connection failed: ").concat(detail.as_str()),
        ),
        WmiSession::Connected(readings) => {
            let (cpu, cpu_error) = match get_cpu_info(
                &readings.processors,
                &readings.total_load,
                &readings.thermal,
                &readings.core_loads,
            ) {
                Ok(data) => (Some(data), None),
                Err(e) => (None, Some(e)),
            };
            let (gpu, gpu_error) = match get_gpu_info(&readings.adapters, readings.smi) {
                Ok(data) => (Some(data), None),
                Err(e) => (None, Some(e)),
            };
            let storage = match get_storage_info(&readings.disks) {
                Ok(list) => Some(list),
                Err(_) => None,
            };
            let motherboard = match get_motherboard_info(
                &readings.boards,
                &readings.fans,
                &readings.generic_fans,
            ) {
                Ok(board) => Some(board),
                Err(_) => None,
            };
            HardwareData { cpu, gpu, storage, motherboard, timestamp, cpu_error, gpu_error }
        },
    }
}

} // verus!
