//! The snapshot model: the readings that one poll hands to the display.
//!
//! Each record has a view in which text is a sequence of characters and a
//! list is a sequence of views; contracts speak of those views.

use vstd::prelude::*;
use crate::fixed::Milli;

verus! {

/// One logical processor: its index, an estimated temperature and its load.
#[derive(Clone, Copy, Debug, PartialEq, Eq, Structural)]
pub struct CpuCoreData {
    pub index: u32,
    pub temperature: Milli,
    pub load: Milli,
}

impl View for CpuCoreData {
    type V = CpuCoreData;

    open spec fn view(&self) -> CpuCoreData {
        *self
    }
}

impl DeepView for CpuCoreData {
    type V = CpuCoreData;

    open spec fn deep_view(&self) -> CpuCoreData {
        *self
    }
}

/// Processor readings. A temperature of zero means "not available".
#[derive(Clone, Debug, PartialEq, Eq)]
pub struct CpuData {
    pub name: String,
    pub temperature: Milli,
    pub max_temperature: Milli,
    pub load: Milli,
    pub frequency: Milli,
    pub cores: Vec<CpuCoreData>,
}

#[verifier::ext_equal]
pub struct CpuView {
    pub name: Seq<char>,
    pub temperature: Milli,
    pub max_temperature: Milli,
    pub load: Milli,
    pub frequency: Milli,
    pub cores: Seq<CpuCoreData>,
}

impl View for CpuData {
    type V = CpuView;

    open spec fn view(&self) -> CpuView {
        CpuView {
            name: self.name@,
            temperature: self.temperature,
            max_temperature: self.max_temperature,
            load: self.load,
            frequency: self.frequency,
            cores: self.cores@,
        }
    }
}

impl DeepView for CpuData {
    type V = CpuView;

    open spec fn deep_view(&self) -> CpuView {
        self@
    }
}

/// Graphics adapter readings; memory is in gibibytes.
#[derive(Clone, Debug, PartialEq, Eq)]
pub struct GpuData {
    pub name: String,
    pub temperature: Milli,
    pub max_temperature: Milli,
    pub load: Milli,
    pub frequency: Milli,
    pub memory_used: Milli,
    pub memory_total: Milli,
}

#[verifier::ext_equal]
pub struct GpuView {
    pub name: Seq<char>,
    pub temperature: Milli,
    pub max_temperature: Milli,
    pub load: Milli,
    pub frequency: Milli,
    pub memory_used: Milli,
    pub memory_total: Milli,
}

impl View for GpuData {
    type V = GpuView;

    open spec fn view(&self) -> GpuView {
        GpuView {
            name: self.name@,
            temperature: self.temperature,
            max_temperature: self.max_temperature,
            load: self.load,
            frequency: self.frequency,
            memory_used: self.memory_used,
            memory_total: self.memory_total,
        }
    }
}

impl DeepView for GpuData {
    type V = GpuView;

    open spec fn deep_view(&self) -> GpuView {
        self@
    }
}

/// One storage device; space is in gibibytes.
#[derive(Clone, Debug, PartialEq, Eq)]
pub struct StorageData {
    pub name: String,
    pub temperature: Milli,
    pub used_space: Milli,
    pub total_space: Milli,
}

#[verifier::ext_equal]
pub struct StorageView {
    pub name: Seq<char>,
    pub temperature: Milli,
    pub used_space: Milli,
    pub total_space: Milli,
}

impl View for StorageData {
    type V = StorageView;

    open spec fn view(&self) -> StorageView {
        StorageView {
            name: self.name@,
            temperature: self.temperature,
            used_space: self.used_space,
            total_space: self.total_space,
        }
    }
}

impl DeepView for StorageData {
    type V = StorageView;

    open spec fn deep_view(&self) -> StorageView {
        self@
    }
}

/// One fan and its speed in revolutions per minute.
#[derive(Clone, Debug, PartialEq, Eq)]
pub struct FanData {
    pub name: String,
    pub speed: u32,
}

#[verifier::ext_equal]
pub struct FanView {
    pub name: Seq<char>,
    pub speed: u32,
}

impl View for FanData {
    type V = FanView;

    open spec fn view(&self) -> FanView {
        FanView { name: self.name@, speed: self.speed }
    }
}

impl DeepView for FanData {
    type V = FanView;

    open spec fn deep_view(&self) -> FanView {
        self@
    }
}

/// Baseboard readings with the fans that are present.
#[derive(Clone, Debug, PartialEq, Eq)]
pub struct MotherboardData {
    pub name: String,
    pub temperature: Milli,
    pub fans: Vec<FanData>,
}

#[verifier::ext_equal]
pub struct MotherboardView {
    pub name: Seq<char>,
    pub temperature: Milli,
    pub fans: Seq<FanView>,
}

impl View for MotherboardData {
    type V = MotherboardView;

    open spec fn view(&self) -> MotherboardView {
        MotherboardView {
            name: self.name@,
            temperature: self.temperature,
            fans: self.fans.deep_view(),
        }
    }
}

impl DeepView for MotherboardData {
    type V = MotherboardView;

    open spec fn deep_view(&self) -> MotherboardView {
        self@
    }
}

/// One complete, timestamped set of readings.
#[derive(Clone, Debug, PartialEq, Eq)]
pub struct HardwareData {
    pub cpu: Option<CpuData>,
    pub gpu: Option<GpuData>,
    pub storage: Option<Vec<StorageData>>,
    pub motherboard: Option<MotherboardData>,
    pub timestamp: u64,
    pub cpu_error: Option<String>,
    pub gpu_error: Option<String>,
}

#[verifier::ext_equal]
pub struct HardwareView {
    pub cpu: Option<CpuView>,
    pub gpu: Option<GpuView>,
    pub storage: Option<Seq<StorageView>>,
    pub motherboard: Option<MotherboardView>,
    pub timestamp: u64,
    pub cpu_error: Option<Seq<char>>,
    pub gpu_error: Option<Seq<char>>,
}

impl View for HardwareData {
    type V = HardwareView;

    open spec fn view(&self) -> HardwareView {
        HardwareView {
            cpu: self.cpu.deep_view(),
            gpu: self.gpu.deep_view(),
            storage: self.storage.deep_view(),
            motherboard: self.motherboard.deep_view(),
            timestamp: self.timestamp,
            cpu_error: self.cpu_error.deep_view(),
            gpu_error: self.gpu_error.deep_view(),
        }
    }
}

impl DeepView for HardwareData {
    type V = HardwareView;

    open spec fn deep_view(&self) -> HardwareView {
        self@
    }
}

/// No fan in the list reports a speed of zero: such a fan counts as absent.
pub open spec fn fans_all_present(fans: Seq<FanView>) -> bool {
    forall|i: int| 0 <= i < fans.len() ==> (#[trigger] fans[i]).speed > 0
}

/// The fans of `fans` that turn, in their order.
pub open spec fn present_fans(fans: Seq<FanView>) -> Seq<FanView> {
    fans.filter(|f: FanView| f.speed > 0)
}

/// Adding one fan report to a list adds it to the fans that turn exactly
/// when its speed is above zero.
pub proof fn lemma_present_fans_push(fans: Seq<FanView>, fan: FanView)
    ensures
        present_fans(fans.push(fan)) == if fan.speed > 0 {
            present_fans(fans).push(fan)
        } else {
            present_fans(fans)
        },
{
    reveal(Seq::filter);
    assert(fans.push(fan).drop_last() =~= fans);
}

/// A fan with speed zero never survives: every fan that is kept turns, and
/// the kept fans are no more than were reported.
pub proof fn lemma_present_fans_turn(fans: Seq<FanView>)
    ensures
        fans_all_present(present_fans(fans)),
        present_fans(fans).len() <= fans.len(),
{
    let keep = |f: FanView| f.speed > 0;
    fans.lemma_filter_len(keep);
    assert forall|i: int| 0 <= i < present_fans(fans).len() implies (#[trigger] present_fans(
        fans,
    )[i]).speed > 0 by {
        fans.lemma_filter_pred(keep, i);
    }
}

impl HardwareView {
    /// What every resolved snapshot satisfies: a reported motherboard lists
    /// only fans that turn, and an error text stands only beside a missing
    /// component.
    pub open spec fn well_formed(self) -> bool {
        &&& self.motherboard matches Some(board) ==> fans_all_present(board.fans)
        &&& self.cpu is Some ==> self.cpu_error is None
        &&& self.gpu is Some ==> self.gpu_error is None
    }
}

/// The fans of `fans` that turn, each copied, in their order.
pub fn retain_present(fans: &Vec<FanData>) -> (r: Vec<FanData>)
    ensures
        r.deep_view() == present_fans(fans.deep_view()),
        fans_all_present(r.deep_view()),
{
    let mut out: Vec<FanData> = Vec::new();
    let n = fans.len();
    let mut i: usize = 0;
    assert(fans.deep_view().take(0) =~= Seq::<FanView>::empty());
    assert(out.deep_view() =~= Seq::<FanView>::empty());
    proof {
        reveal(Seq::filter);
    }
    while i < n
        invariant
            n == fans@.len(),
            i <= n,
            out.deep_view() == present_fans(fans.deep_view().take(i as int)),
        decreases n - i,
    {
        let ghost before = out.deep_view();
        let ghost seen = fans.deep_view().take(i as int);
        proof {
            assert(fans.deep_view().take(i + 1) =~= seen.push(fans@[i as int]@));
            lemma_present_fans_push(seen, fans@[i as int]@);
        }
        if fans[i].speed > 0 {
            let fan = FanData { name: fans[i].name.clone(), speed: fans[i].speed };
            out.push(fan);
            assert(out.deep_view() =~= before.push(fans@[i as int]@));
        }
        i = i + 1;
    }
    assert(fans.deep_view().take(n as int) =~= fans.deep_view());
    proof {
        lemma_present_fans_turn(fans.deep_view());
    }
    out
}

} // verus!
