//! The simulated source: plausible readings for machines whose sensors are
//! out of reach. It never touches hardware and has no fallback of its own.
//!
//! The generator is a function of the random draws that its caller hands
//! in. Each draw is reduced to a fraction in thousandths, from 0 to 999.

use vstd::prelude::*;
use vstd::string::*;
use crate::fixed::{milli, Milli};
use crate::model::{
    CpuCoreData, CpuData, CpuView, FanData, FanView, GpuData, GpuView, HardwareData, HardwareView,
    MotherboardData, MotherboardView, StorageData, StorageView,
};

verus! {

/// Number of logical processors of the simulated machine.
pub const SIMULATED_CORES: u32 = 12;

/// Number of draws that one simulated snapshot takes.
pub const SIMULATION_DRAWS: usize = 35;

/// The `k`-th draw as a fraction in thousandths; zero where `draws` holds
/// fewer.
pub open spec fn fraction(draws: Seq<u64>, k: int) -> int {
    if 0 <= k < draws.len() {
        (draws[k] % 1000) as int
    } else {
        0
    }
}

/// The simulated package temperature.
pub open spec fn simulated_package(draws: Seq<u64>) -> int {
    45_000 + fraction(draws, 0) * 20
}

/// The simulated reading of core `i`: within five degrees of the package
/// temperature, under any load.
pub open spec fn simulated_core(draws: Seq<u64>, i: int) -> CpuCoreData {
    CpuCoreData {
        index: i as u32,
        temperature: milli(simulated_package(draws) + (fraction(draws, 4 + 2 * i) - 500) * 10),
        load: milli(fraction(draws, 5 + 2 * i) * 100),
    }
}

/// The simulated processor reading.
pub open spec fn simulated_cpu(draws: Seq<u64>) -> CpuView {
    CpuView {
        name: "AMD Ryzen 9 5900X"@,
        temperature: milli(simulated_package(draws)),
        max_temperature: milli(95_000),
        load: milli(20_000 + fraction(draws, 2) * 40),
        frequency: milli(3_700 + fraction(draws, 3)),
        cores: Seq::new(12, |i: int| simulated_core(draws, i)),
    }
}

/// The simulated graphics reading.
pub open spec fn simulated_gpu(draws: Seq<u64>) -> GpuView {
    GpuView {
        name: "NVIDIA GeForce RTX 3080"@,
        temperature: milli(50_000 + fraction(draws, 1) * 25),
        max_temperature: milli(93_000),
        load: milli(15_000 + fraction(draws, 28) * 50),
        frequency: milli(1_700 + fraction(draws, 29) / 2),
        memory_used: milli(4_000 + fraction(draws, 30) * 4),
        memory_total: milli(10_000),
    }
}

/// The simulated storage readings.
pub open spec fn simulated_storage(draws: Seq<u64>) -> Seq<StorageView> {
    seq![
        StorageView {
            name: "Samsung SSD 980 PRO 1TB"@,
            temperature: milli(35_000 + fraction(draws, 31) * 10),
            used_space: milli(500_000),
            total_space: milli(1_000_000),
        },
    ]
}

/// The simulated baseboard reading, with two fans that always turn.
pub open spec fn simulated_board(draws: Seq<u64>) -> MotherboardView {
    MotherboardView {
        name: "ASUS ROG STRIX B550-F"@,
        temperature: milli(40_000 + fraction(draws, 32) * 15),
        fans: seq![
            FanView { name: "CPU Fan"@, speed: (1200 + fraction(draws, 33) / 2) as u32 },
            FanView {
                name: "Chassis Fan 1"@,
                speed: (800 + (fraction(draws, 34) * 3) / 10) as u32,
            },
        ],
    }
}

/// The simulated snapshot at `timestamp`: every component is there and no
/// error text is.
pub open spec fn simulated(timestamp: u64, draws: Seq<u64>) -> HardwareView {
    HardwareView {
        cpu: Some(simulated_cpu(draws)),
        gpu: Some(simulated_gpu(draws)),
        storage: Some(simulated_storage(draws)),
        motherboard: Some(simulated_board(draws)),
        timestamp,
        cpu_error: None,
        gpu_error: None,
    }
}

/// Simulated readings stay plausible whatever is drawn.
pub proof fn lemma_simulation_plausible(timestamp: u64, draws: Seq<u64>)
    ensures
        simulated(timestamp, draws).well_formed(),
        45_000 <= simulated_cpu(draws).temperature@ < 65_000,
        20_000 <= simulated_cpu(draws).load@ < 60_000,
        3_700 <= simulated_cpu(draws).frequency@ < 4_700,
        50_000 <= simulated_gpu(draws).temperature@ < 75_000,
        4_000 <= simulated_gpu(draws).memory_used@ < 8_000,
        1200 <= simulated_board(draws).fans[0].speed < 1700,
        800 <= simulated_board(draws).fans[1].speed < 1100,
        forall|i: int|
            0 <= i < 12 ==> 40_000 <= (#[trigger] simulated_cpu(draws).cores[i]).temperature@
                < 70_000 && 0 <= simulated_cpu(draws).cores[i].load@ < 100_000,
{
}

/// The `k`-th draw as a fraction in thousandths.
pub fn draw(draws: &Vec<u64>, k: usize) -> (r: i128)
    ensures
        r == fraction(draws@, k as int),
        0 <= r < 1000,
{
    if k < draws.len() {
        (draws[k] % 1000) as i128
    } else {
        0
    }
}

/// Builds the simulated snapshot of one poll from `draws`.
pub fn simulated_hardware_info(timestamp: u64, draws: &Vec<u64>) -> (r: HardwareData)
    ensures
        r@ == simulated(timestamp, draws@),
        r@.well_formed(),
{
    let package: i128 = 45_000 + draw(draws, 0) * 20;
    let gpu_temperature: i128 = 50_000 + draw(draws, 1) * 25;
    let cpu_load: i128 = 20_000 + draw(draws, 2) * 40;
    let cpu_frequency: i128 = 3_700 + draw(draws, 3);
    let mut cores: Vec<CpuCoreData> = Vec::new();
    let mut i: u32 = 0;
    while i < SIMULATED_CORES
        invariant
            i <= 12,
            package == simulated_package(draws@),
            cores@.len() == i,
            forall|j: int| 0 <= j < i ==> cores@[j] == simulated_core(draws@, j),
        decreases 12 - i,
    {
        let at: usize = 4 + 2 * (i as usize);
        let temperature = Milli::new(package + (draw(draws, at) - 500) * 10);
        let load = Milli::new(draw(draws, at + 1) * 100);
        cores.push(CpuCoreData { index: i, temperature, load });
        i = i + 1;
    }
    let cpu = CpuData {
        name: String::from_str("AMD Ryzen 9 5900X"),
        temperature: Milli::new(package),
        max_temperature: Milli::new(95_000),
        load: Milli::new(cpu_load),
        frequency: Milli::new(cpu_frequency),
        cores,
    };
    assert(cpu@.cores =~= simulated_cpu(draws@).cores);
    let gpu = GpuData {
        name: String::from_str("NVIDIA GeForce RTX 3080"),
        temperature: Milli::new(gpu_temperature),
        max_temperature: Milli::new(93_000),
        load: Milli::new(15_000 + draw(draws, 28) * 50),
        frequency: Milli::new(1_700 + draw(draws, 29) / 2),
        memory_used: Milli::new(4_000 + draw(draws, 30) * 4),
        memory_total: Milli::new(10_000),
    };
    let mut storage: Vec<StorageData> = Vec::new();
    storage.push(
        StorageData {
            name: String::from_str("Samsung SSD 980 PRO 1TB"),
            temperature: Milli::new(35_000 + draw(draws, 31) * 10),
            used_space: Milli::new(500_000),
            total_space: Milli::new(1_000_000),
        },
    );
    assert(storage.deep_view() =~= simulated_storage(draws@));
    let board_temperature = Milli::new(40_000 + draw(draws, 32) * 15);
    let mut fans: Vec<FanData> = Vec::new();
    let first: i128 = 1200 + draw(draws, 33) / 2;
    let second: i128 = 800 + (draw(draws, 34) * 3) / 10;
    fans.push(FanData { name: String::from_str("CPU Fan"), speed: first as u32 });
    fans.push(FanData { name: String::from_str("Chassis Fan 1"), speed: second as u32 });
    assert(fans.deep_view() =~= simulated_board(draws@).fans);
    let motherboard = MotherboardData {
        name: String::from_str("ASUS ROG STRIX B550-F"),
        temperature: board_temperature,
        fans,
    };
    HardwareData {
        cpu: Some(cpu),
        gpu: Some(gpu),
        storage: Some(storage),
        motherboard: Some(motherboard),
        timestamp,
        cpu_error: None,
        gpu_error: None,
    }
}

} // verus!
