//! The helper daemon's payload and the snapshot that is built from it.
//!
//! The daemon writes one JSON object per line. Every top-level key is
//! optional: a missing key means that the subsystem was not reported, which
//! is no error.

use vstd::prelude::*;
use crate::fixed::Milli;
use crate::model::{CpuCoreData, CpuData, CpuView, FanData, FanView, GpuData, GpuView, HardwareData, HardwareView, MotherboardData, MotherboardView, StorageData, StorageView, fans_all_present, present_fans, retain_present};

verus! {

/// Processor readings as the daemon reports them; the core list may be
/// missing.
#[derive(Clone, Debug, PartialEq, Eq)]
pub struct LhmCpuData {
    pub name: String,
    pub temperature: Milli,
    pub max_temperature: Milli,
    pub load: Milli,
    pub frequency: Milli,
    pub cores: Option<Vec<CpuCoreData>>,
}

#[verifier::ext_equal]
pub struct LhmCpuView {
    pub name: Seq<char>,
    pub temperature: Milli,
    pub max_temperature: Milli,
    pub load: Milli,
    pub frequency: Milli,
    pub cores: Option<Seq<CpuCoreData>>,
}

impl View for LhmCpuData {
    type V = LhmCpuView;

    open spec fn view(&self) -> LhmCpuView {
        LhmCpuView {
            name: self.name@,
            temperature: self.temperature,
            max_temperature: self.max_temperature,
            load: self.load,
            frequency: self.frequency,
            cores: match self.cores {
                Some(cores) => Some(cores@),
                None => None,
            },
        }
    }
}

impl DeepView for LhmCpuData {
    type V = LhmCpuView;

    open spec fn deep_view(&self) -> LhmCpuView {
        self@
    }
}

/// One storage device as the daemon reports it.
#[derive(Clone, Debug, PartialEq, Eq)]
pub struct LhmStorageData {
    pub name: String,
    pub temperature: Milli,
    pub used_percent: Milli,
    pub total_space: Milli,
}

#[verifier::ext_equal]
pub struct LhmStorageView {
    pub name: Seq<char>,
    pub temperature: Milli,
    pub used_percent: Milli,
    pub total_space: Milli,
}

impl View for LhmStorageData {
    type V = LhmStorageView;

    open spec fn view(&self) -> LhmStorageView {
        LhmStorageView {
            name: self.name@,
            temperature: self.temperature,
            used_percent: self.used_percent,
            total_space: self.total_space,
        }
    }
}

impl DeepView for LhmStorageData {
    type V = LhmStorageView;

    open spec fn deep_view(&self) -> LhmStorageView {
        self@
    }
}

/// Baseboard readings as the daemon reports them; the fan list may be
/// missing and may hold fans that stand still.
#[derive(Clone, Debug, PartialEq, Eq)]
pub struct LhmMotherboardData {
    pub name: String,
    pub temperature: Milli,
    pub fans: Option<Vec<FanData>>,
}

#[verifier::ext_equal]
pub struct LhmMotherboardView {
    pub name: Seq<char>,
    pub temperature: Milli,
    pub fans: Option<Seq<FanView>>,
}

impl View for LhmMotherboardData {
    type V = LhmMotherboardView;

    open spec fn view(&self) -> LhmMotherboardView {
        LhmMotherboardView {
            name: self.name@,
            temperature: self.temperature,
            fans: self.fans.deep_view(),
        }
    }
}

impl DeepView for LhmMotherboardData {
    type V = LhmMotherboardView;

    open spec fn deep_view(&self) -> LhmMotherboardView {
        self@
    }
}

/// One payload of the daemon.
#[derive(Clone, Debug, PartialEq, Eq)]
pub struct LhmResponse {
    pub cpu: Option<LhmCpuData>,
    pub gpu: Option<GpuData>,
    pub storage: Option<Vec<LhmStorageData>>,
    pub motherboard: Option<LhmMotherboardData>,
}

#[verifier::ext_equal]
pub struct LhmResponseView {
    pub cpu: Option<LhmCpuView>,
    pub gpu: Option<GpuView>,
    pub storage: Option<Seq<LhmStorageView>>,
    pub motherboard: Option<LhmMotherboardView>,
}

impl View for LhmResponse {
    type V = LhmResponseView;

    open spec fn view(&self) -> LhmResponseView {
        LhmResponseView {
            cpu: self.cpu.deep_view(),
            gpu: self.gpu.deep_view(),
            storage: self.storage.deep_view(),
            motherboard: self.motherboard.deep_view(),
        }
    }
}

impl DeepView for LhmResponse {
    type V = LhmResponseView;

    open spec fn deep_view(&self) -> LhmResponseView {
        self@
    }
}

/// The processor reading of a payload: field for field, a missing core list
/// read as an empty one.
pub open spec fn daemon_cpu(c: LhmCpuView) -> CpuView {
    CpuView {
        name: c.name,
        temperature: c.temperature,
        max_temperature: c.max_temperature,
        load: c.load,
        frequency: c.frequency,
        cores: match c.cores {
            Some(cores) => cores,
            None => Seq::empty(),
        },
    }
}

/// The storage reading of a payload entry: the reported percentage stands in
/// the field for used space.
pub open spec fn daemon_storage(s: LhmStorageView) -> StorageView {
    StorageView {
        name: s.name,
        temperature: s.temperature,
        used_space: s.used_percent,
        total_space: s.total_space,
    }
}

/// The storage readings of a payload's list, entry for entry.
pub open spec fn daemon_storage_list(s: Seq<LhmStorageView>) -> Seq<StorageView> {
    Seq::new(s.len(), |i: int| daemon_storage(s[i]))
}

/// The baseboard reading of a payload: a missing fan list is read as an
/// empty one, and fans that stand still are left out.
pub open spec fn daemon_board(m: LhmMotherboardView) -> MotherboardView {
    MotherboardView {
        name: m.name,
        temperature: m.temperature,
        fans: match m.fans {
            Some(fans) => present_fans(fans),
            None => Seq::empty(),
        },
    }
}

/// The snapshot that a payload resolves to at `timestamp`. A subsystem that
/// the payload leaves out is absent, and no error text is made up for it:
/// the daemon is the authoritative source.
pub open spec fn daemon_snapshot(p: LhmResponseView, timestamp: u64) -> HardwareView {
    HardwareView {
        cpu: match p.cpu {
            Some(c) => Some(daemon_cpu(c)),
            None => None,
        },
        gpu: p.gpu,
        storage: match p.storage {
            Some(s) => Some(daemon_storage_list(s)),
            None => None,
        },
        motherboard: match p.motherboard {
            Some(m) => Some(daemon_board(m)),
            None => None,
        },
        timestamp,
        cpu_error: None,
        gpu_error: None,
    }
}

/// A copy of a core list.
pub fn copy_cores(cores: &Vec<CpuCoreData>) -> (r: Vec<CpuCoreData>)
    ensures
        r@ == cores@,
{
    let mut out: Vec<CpuCoreData> = Vec::new();
    let n = cores.len();
    let mut i: usize = 0;
    while i < n
        invariant
            n == cores@.len(),
            i <= n,
            out@ == cores@.take(i as int),
        decreases n - i,
    {
        out.push(cores[i]);
        assert(out@ =~= cores@.take(i + 1));
        i = i + 1;
    }
    assert(cores@.take(n as int) =~= cores@);
    out
}

/// The processor reading of a payload.
pub fn cpu_from_daemon(c: &LhmCpuData) -> (r: CpuData)
    ensures
        r@ == daemon_cpu(c@),
{
    let cores = match &c.cores {
        Some(cores) => copy_cores(cores),
        None => Vec::new(),
    };
    CpuData {
        name: c.name.clone(),
        temperature: c.temperature,
        max_temperature: c.max_temperature,
        load: c.load,
        frequency: c.frequency,
        cores,
    }
}

/// A copy of a graphics reading.
pub fn copy_gpu(g: &GpuData) -> (r: GpuData)
    ensures
        r@ == g@,
{
    GpuData {
        name: g.name.clone(),
        temperature: g.temperature,
        max_temperature: g.max_temperature,
        load: g.load,
        frequency: g.frequency,
        memory_used: g.memory_used,
        memory_total: g.memory_total,
    }
}

/// The storage readings of a payload's list.
pub fn storage_from_daemon(list: &Vec<LhmStorageData>) -> (r: Vec<StorageData>)
    ensures
        r.deep_view() == daemon_storage_list(list.deep_view()),
{
    let mut out: Vec<StorageData> = Vec::new();
    let n = list.len();
    let mut i: usize = 0;
    while i < n
        invariant
            n == list@.len(),
            i <= n,
            out@.len() == i,
            forall|j: int| 0 <= j < i ==> (#[trigger] out@[j])@ == daemon_storage(list@[j]@),
        decreases n - i,
    {
        let entry = StorageData {
            name: list[i].name.clone(),
            temperature: list[i].temperature,
            used_space: list[i].used_percent,
            total_space: list[i].total_space,
        };
        out.push(entry);
        i = i + 1;
    }
    assert(out.deep_view() =~= daemon_storage_list(list.deep_view()));
    out
}

/// The baseboard reading of a payload.
pub fn board_from_daemon(m: &LhmMotherboardData) -> (r: MotherboardData)
    ensures
        r@ == daemon_board(m@),
        fans_all_present(r@.fans),
{
    let fans = match &m.fans {
        Some(fans) => retain_present(fans),
        None => Vec::new(),
    };
    assert(m.fans is None ==> fans.deep_view() =~= Seq::<FanView>::empty());
    MotherboardData { name: m.name.clone(), temperature: m.temperature, fans }
}

/// Builds the snapshot of one poll from a daemon payload alone.
pub fn snapshot_from_daemon(lhm: &LhmResponse, timestamp: u64) -> (r: HardwareData)
    ensures
        r@ == daemon_snapshot(lhm@, timestamp),
        r@.well_formed(),
{
    let cpu = match &lhm.cpu {
        Some(c) => Some(cpu_from_daemon(c)),
        None => None,
    };
    let gpu = match &lhm.gpu {
        Some(g) => Some(copy_gpu(g)),
        None => None,
    };
    let storage = match &lhm.storage {
        Some(s) => Some(storage_from_daemon(s)),
        None => None,
    };
    let motherboard = match &lhm.motherboard {
        Some(m) => Some(board_from_daemon(m)),
        None => None,
    };
    HardwareData { cpu, gpu, storage, motherboard, timestamp, cpu_error: None, gpu_error: None }
}

} // verus!
