//! The processor adapter of the structured query tier.

use std::collections::HashMap;
use vstd::prelude::*;
use vstd::string::*;
use crate::fixed::{milli, Milli};
use crate::model::{CpuCoreData, CpuData, CpuView};
use crate::records::{
    text_result, ThermalZone, Win32PerfFormattedDataProcessorInformation, Win32Processor, WmiValue,
};
use crate::text::{decimal_u32, parse_u32};

verus! {

broadcast use vstd::std_specs::hash::group_hash_axioms;

/// Zero degrees Celsius in thousandths of a kelvin.
pub const KELVIN_OFFSET_MILLI: i64 = 273_150;

/// Upper end of the plausible range, in thousandths of a degree Celsius.
pub const PLAUSIBLE_LIMIT_MILLI: i64 = 150_000;

/// Highest temperature that the processor adapter reports as the maximum, in
/// thousandths of a degree Celsius.
pub const CPU_MAX_TEMPERATURE_MILLI: i128 = 100_000;

/// What came of asking the thermal-zone class, which lives in a namespace of
/// its own and needs a connection of its own.
#[derive(Debug, PartialEq, Eq)]
pub enum ThermalProbe {
    /// The component library could not be initialised.
    ComFailed { detail: String },
    /// The namespace could not be reached.
    ConnectionFailed,
    /// The query ran: its rows, or the error that it failed with.
    Queried(Result<Vec<ThermalZone>, String>),
}

/// The reading of a thermal zone in thousandths of a degree Celsius, from
/// its raw value in tenths of a kelvin.
pub open spec fn kelvin_tenths_to_celsius(raw: u32) -> int {
    raw * 100 - 273_150
}

/// The temperature that a raw thermal-zone value stands for, if it is
/// plausible: strictly between 0 and 150 degrees Celsius.
pub open spec fn zone_celsius(raw: u32) -> Option<Milli> {
    let celsius = kelvin_tenths_to_celsius(raw);
    if 0 < celsius < 150_000 {
        Some(milli(celsius))
    } else {
        None
    }
}

/// The plausible temperature of one zone: only an unsigned 32-bit value
/// counts.
pub open spec fn zone_reading(zone: ThermalZone) -> Option<Milli> {
    match zone.current_temperature {
        Some(WmiValue::UI4(raw)) => zone_celsius(raw),
        _ => None,
    }
}

/// The reading of the first zone from index `i` on that has a plausible
/// one; zero, which means "not available", if none has.
pub open spec fn first_zone_reading(zones: Seq<ThermalZone>, i: int) -> Milli
    decreases zones.len() - i,
{
    if 0 <= i < zones.len() {
        match zone_reading(zones[i]) {
            Some(celsius) => celsius,
            None => first_zone_reading(zones, i + 1),
        }
    } else {
        milli(0)
    }
}

/// The package temperature that a thermal probe yields.
pub open spec fn cpu_temperature(probe: ThermalProbe) -> Result<Milli, Seq<char>> {
    match probe {
        ThermalProbe::ComFailed { detail } => Err("COM init failed: "@ + detail@),
        ThermalProbe::ConnectionFailed => Err("Cannot connect to WMI namespace"@),
        ThermalProbe::Queried(Ok(zones)) => Ok(first_zone_reading(zones@, 0)),
        ThermalProbe::Queried(Err(_)) => Ok(milli(0)),
    }
}

/// The aggregate load in percent that the performance counters report.
pub open spec fn cpu_load(
    total: Result<Vec<Win32PerfFormattedDataProcessorInformation>, String>,
) -> Result<Milli, Seq<char>> {
    match total {
        Err(e) => Err("CPU load query failed: "@ + e@),
        Ok(rows) => if rows@.len() > 0 && rows@[0].percent_processor_time is Some {
            Ok(milli(rows@[0].percent_processor_time->0 * 1000))
        } else {
            Err("No CPU load data"@)
        },
    }
}

/// The load that one performance-counter row adds to the per-core map: the
/// row needs a name that writes an index below `num_cores` and a value.
pub open spec fn core_load_entry(
    row: Win32PerfFormattedDataProcessorInformation,
    num_cores: u32,
) -> Option<(u32, Milli)> {
    match (row.name, row.percent_processor_time) {
        (Some(name), Some(percent)) => match decimal_u32(name@) {
            Some(index) if index < num_cores => Some((index, milli(percent * 1000))),
            _ => None,
        },
        _ => None,
    }
}

/// The per-core loads that `rows` report, by core index. Of two rows for
/// the same core the later one counts.
pub open spec fn core_loads_of(
    rows: Seq<Win32PerfFormattedDataProcessorInformation>,
    num_cores: u32,
) -> Map<u32, Milli>
    decreases rows.len(),
{
    if rows.len() == 0 {
        Map::empty()
    } else {
        let earlier = core_loads_of(rows.drop_last(), num_cores);
        match core_load_entry(rows.last(), num_cores) {
            Some((index, load)) => earlier.insert(index, load),
            None => earlier,
        }
    }
}

/// The per-core loads of a query; none if the query failed.
pub open spec fn core_loads(
    per_core: Result<Vec<Win32PerfFormattedDataProcessorInformation>, String>,
    num_cores: u32,
) -> Map<u32, Milli> {
    match per_core {
        Ok(rows) => core_loads_of(rows@, num_cores),
        Err(_) => Map::empty(),
    }
}

/// The estimated temperature of core `index` out of `count`: a linear
/// spread of half a degree per core around the package temperature, or zero
/// where the package temperature is not available. An estimate, no
/// measurement.
pub open spec fn core_temperature(package: Milli, index: u32, count: u32) -> Milli {
    if package@ > 0 {
        milli(package@ + 500 * index - 250 * count)
    } else {
        milli(0)
    }
}

/// The reading of core `index`: its own load where the counters report
/// one, the aggregate load otherwise.
pub open spec fn core_reading(
    index: u32,
    count: u32,
    package: Milli,
    load: Milli,
    loads: Map<u32, Milli>,
) -> CpuCoreData {
    CpuCoreData {
        index,
        temperature: core_temperature(package, index, count),
        load: if loads.contains_key(index) {
            loads[index]
        } else {
            load
        },
    }
}

/// The number of logical processors: as reported, else the number of cores,
/// else four.
pub open spec fn logical_count(p: Win32Processor) -> u32 {
    match p.number_of_logical_processors {
        Some(n) => n,
        None => match p.number_of_cores {
            Some(n) => n,
            None => 4,
        },
    }
}

/// The aggregate load: from the performance counters, else the static
/// figure of the identity row, else zero.
pub open spec fn effective_load(
    p: Win32Processor,
    total: Result<Vec<Win32PerfFormattedDataProcessorInformation>, String>,
) -> Milli {
    match cpu_load(total) {
        Ok(load) => load,
        Err(_) => match p.load_percentage {
            Some(percent) => milli(percent * 1000),
            None => milli(0),
        },
    }
}

/// The package temperature: what the probe yields, else zero.
pub open spec fn effective_temperature(thermal: ThermalProbe) -> Milli {
    match cpu_temperature(thermal) {
        Ok(celsius) => celsius,
        Err(_) => milli(0),
    }
}

/// The processor reading that the structured queries resolve to, or the
/// text of what went wrong.
pub open spec fn cpu_info(
    processors: Result<Vec<Win32Processor>, String>,
    total: Result<Vec<Win32PerfFormattedDataProcessorInformation>, String>,
    thermal: ThermalProbe,
    per_core: Result<Vec<Win32PerfFormattedDataProcessorInformation>, String>,
) -> Result<CpuView, Seq<char>> {
    match processors {
        Err(e) => Err("CPU query failed: "@ + e@),
        Ok(rows) => if rows@.len() == 0 {
            Err("No CPU found"@)
        } else {
            let p = rows@[0];
            let count = logical_count(p);
            let load = effective_load(p, total);
            let package = effective_temperature(thermal);
            let loads = core_loads(per_core, count);
            Ok(
                CpuView {
                    name: match p.name {
                        Some(name) => name@,
                        None => "Unknown CPU"@,
                    },
                    temperature: package,
                    max_temperature: milli(100_000),
                    load,
                    frequency: match p.current_clock_speed {
                        Some(mhz) => milli(mhz as int),
                        None => milli(0),
                    },
                    cores: Seq::new(
                        count as nat,
                        |i: int| core_reading(i as u32, count, package, load, loads),
                    ),
                },
            )
        },
    }
}

/// Only cores that exist get a load of their own: every index in the map is
/// below the number of cores.
pub proof fn lemma_core_loads_in_range(
    rows: Seq<Win32PerfFormattedDataProcessorInformation>,
    num_cores: u32,
)
    ensures
        forall|index: u32| #[trigger]
            core_loads_of(rows, num_cores).contains_key(index) ==> index < num_cores,
    decreases rows.len(),
{
    if rows.len() > 0 {
        lemma_core_loads_in_range(rows.drop_last(), num_cores);
        let earlier = core_loads_of(rows.drop_last(), num_cores);
        assert forall|index: u32| #[trigger]
            core_loads_of(rows, num_cores).contains_key(index) implies index < num_cores by {
            match core_load_entry(rows.last(), num_cores) {
                Some(entry) => {
                    if index != entry.0 {
                        assert(earlier.contains_key(index));
                    }
                },
                None => {},
            }
        }
    }
}

/// The core whose load a row sets, if it sets one.
pub open spec fn core_index(
    row: Win32PerfFormattedDataProcessorInformation,
    num_cores: u32,
) -> Option<u32> {
    match core_load_entry(row, num_cores) {
        Some(entry) => Some(entry.0),
        None => None,
    }
}

/// Of the rows for one core the last one counts: a row that sets the load
/// of a core, with no later row for the same core, decides that load.
pub proof fn lemma_last_core_row_counts(
    rows: Seq<Win32PerfFormattedDataProcessorInformation>,
    num_cores: u32,
    k: int,
)
    requires
        0 <= k < rows.len(),
        core_index(rows[k], num_cores) is Some,
        forall|j: int|
            k < j < rows.len() ==> #[trigger] core_index(rows[j], num_cores) != core_index(
                rows[k],
                num_cores,
            ),
    ensures
        core_loads_of(rows, num_cores).contains_key(core_index(rows[k], num_cores)->0),
        Some((core_index(rows[k], num_cores)->0, core_loads_of(rows, num_cores)[core_index(
            rows[k],
            num_cores,
        )->0])) == core_load_entry(rows[k], num_cores),
    decreases rows.len(),
{
    if k < rows.len() - 1 {
        let earlier = rows.drop_last();
        assert(earlier[k] == rows[k]);
        assert forall|j: int| k < j < earlier.len() implies #[trigger] core_index(
            earlier[j],
            num_cores,
        ) != core_index(earlier[k], num_cores) by {
            assert(earlier[j] == rows[j]);
        }
        lemma_last_core_row_counts(earlier, num_cores, k);
        assert(core_index(rows[rows.len() - 1], num_cores) != core_index(rows[k], num_cores));
    }
}

/// A raw thermal-zone value is accepted exactly when it stands for more
/// than 0 and less than 150 degrees Celsius, which is from 2732 to 4231
/// tenths of a kelvin; the reading is then the raw value less 273.15 kelvin.
pub proof fn lemma_zone_plausible_range(raw: u32)
    ensures
        zone_celsius(raw) is Some <==> 0 < kelvin_tenths_to_celsius(raw) < 150_000,
        zone_celsius(raw) is Some <==> 2732 <= raw <= 4231,
        zone_celsius(raw) matches Some(celsius) ==> celsius@ == raw * 100 - 273_150 && 0
            < celsius@ < 150_000,
{
}

/// The package temperature is never reported outside the plausible range:
/// it is zero, for "not available", or strictly between 0 and 150 degrees.
pub proof fn lemma_package_temperature_plausible(zones: Seq<ThermalZone>, i: int)
    requires
        0 <= i,
    ensures
        0 <= first_zone_reading(zones, i)@ < 150_000,
    decreases zones.len() - i,
{
    if i < zones.len() {
        if zone_reading(zones[i]) is None {
            lemma_package_temperature_plausible(zones, i + 1);
        }
    }
}

/// Reads one raw thermal-zone value.
pub fn thermal_zone_celsius(raw: u32) -> (r: Option<Milli>)
    ensures
        r == zone_celsius(raw),
        r is Some <==> 2732 <= raw <= 4231,
{
    let celsius: i64 = raw as i64 * 100 - KELVIN_OFFSET_MILLI;
    if celsius > 0 && celsius < PLAUSIBLE_LIMIT_MILLI {
        Some(Milli::new(celsius as i128))
    } else {
        None
    }
}

/// The reading of the first zone that has a plausible one, else zero.
pub fn first_plausible_zone(zones: &Vec<ThermalZone>) -> (r: Milli)
    ensures
        r == first_zone_reading(zones@, 0),
        0 <= r@ < 150_000,
{
    let n = zones.len();
    let mut i: usize = 0;
    while i < n
        invariant
            n == zones@.len(),
            i <= n,
            first_zone_reading(zones@, 0) == first_zone_reading(zones@, i as int),
        decreases n - i,
    {
        match &zones[i].current_temperature {
            Some(WmiValue::UI4(raw)) => {
                match thermal_zone_celsius(*raw) {
                    Some(celsius) => {
                        return celsius;
                    },
                    None => {},
                }
            },
            _ => {},
        }
        i = i + 1;
    }
    Milli::zero()
}

/// Reads the package temperature from a thermal probe.
pub fn get_cpu_temperature(probe: &ThermalProbe) -> (r: Result<Milli, String>)
    ensures
        text_result(r) == cpu_temperature(*probe),
        r matches Ok(celsius) ==> 0 <= celsius@ < 150_000,
{
    match probe {
        ThermalProbe::ComFailed { detail } => Err(
            String::from_str("COM init failed: ").concat(detail.as_str()),
        ),
        ThermalProbe::ConnectionFailed => Err(String::from_str("Cannot connect to WMI namespace")),
        ThermalProbe::Queried(Err(_)) => Ok(Milli::zero()),
        ThermalProbe::Queried(Ok(zones)) => Ok(first_plausible_zone(zones)),
    }
}

/// Reads the aggregate load from the performance counters' total row.
pub fn get_cpu_load(
    total: &Result<Vec<Win32PerfFormattedDataProcessorInformation>, String>,
) -> (r: Result<Milli, String>)
    ensures
        text_result(r) == cpu_load(*total),
{
    match total {
        Err(e) => Err(String::from_str("CPU load query failed: ").concat(e.as_str())),
        Ok(rows) => {
            if rows.len() > 0 {
                match rows[0].percent_processor_time {
                    Some(percent) => {
                        return Ok(Milli::from_units(percent));
                    },
                    None => {},
                }
            }
            Err(String::from_str("No CPU load data"))
        },
    }
}

/// Collects the per-core loads of the performance counters' other rows.
pub fn get_core_loads(
    per_core: &Result<Vec<Win32PerfFormattedDataProcessorInformation>, String>,
    num_cores: u32,
) -> (loads: HashMap<u32, Milli>)
    ensures
        loads@ == core_loads(*per_core, num_cores),
{
    let mut loads: HashMap<u32, Milli> = HashMap::new();
    match per_core {
        Err(_) => {},
        Ok(rows) => {
            let n = rows.len();
            let mut i: usize = 0;
            assert(rows@.take(0) =~= Seq::empty());
            while i < n
                invariant
                    n == rows@.len(),
                    i <= n,
                    loads@ == core_loads_of(rows@.take(i as int), num_cores),
                decreases n - i,
            {
                proof {
                    assert(rows@.take(i + 1).drop_last() =~= rows@.take(i as int));
                    assert(rows@.take(i + 1).last() == rows@[i as int]);
                }
                match (&rows[i].name, rows[i].percent_processor_time) {
                    (Some(name), Some(percent)) => {
                        match parse_u32(name.as_str()) {
                            Some(index) => {
                                if index < num_cores {
                                    loads.insert(index, Milli::from_units(percent));
                                }
                            },
                            None => {},
                        }
                    },
                    _ => {},
                }
                i = i + 1;
            }
            assert(rows@.take(n as int) =~= rows@);
        },
    }
    loads
}

/// Resolves the processor reading from the results of the four queries
/// that feed it: identity, aggregate load, thermal zones and per-core load.
pub fn get_cpu_info(
    processors: &Result<Vec<Win32Processor>, String>,
    total: &Result<Vec<Win32PerfFormattedDataProcessorInformation>, String>,
    thermal: &ThermalProbe,
    per_core: &Result<Vec<Win32PerfFormattedDataProcessorInformation>, String>,
) -> (r: Result<CpuData, String>)
    ensures
        match r {
            Ok(cpu) => cpu_info(*processors, *total, *thermal, *per_core) == Ok::<
                CpuView,
                Seq<char>,
            >(cpu@),
            Err(e) => cpu_info(*processors, *total, *thermal, *per_core) == Err::<
                CpuView,
                Seq<char>,
            >(e@),
        },
{
    let rows = match processors {
        Err(e) => {
            return Err(String::from_str("CPU query failed: ").concat(e.as_str()));
        },
        Ok(rows) => rows,
    };
    if rows.len() == 0 {
        return Err(String::from_str("No CPU found"));
    }
    let p = &rows[0];
    let name = match &p.name {
        Some(name) => name.clone(),
        None => String::from_str("Unknown CPU"),
    };
    let num_cores: u32 = match p.number_of_cores {
        Some(n) => n,
        None => 4,
    };
    let count: u32 = match p.number_of_logical_processors {
        Some(n) => n,
        None => num_cores,
    };
    let frequency = match p.current_clock_speed {
        Some(mhz) => Milli::from_thousandths(mhz as u64),
        None => Milli::zero(),
    };
    let load = match get_cpu_load(total) {
        Ok(load) => load,
        Err(_) => match p.load_percentage {
            Some(percent) => Milli::from_units(percent as u64),
            None => Milli::zero(),
        },
    };
    let package = match get_cpu_temperature(thermal) {
        Ok(celsius) => celsius,
        Err(_) => Milli::zero(),
    };
    let loads = get_core_loads(per_core, count);
    let mut cores: Vec<CpuCoreData> = Vec::new();
    let mut i: u32 = 0;
    while i < count
        invariant
            i <= count,
            0 <= package@ < 150_000,
            cores@.len() == i,
            forall|j: int|
                0 <= j < i ==> cores@[j] == core_reading(j as u32, count, package, load, loads@),
        decreases count - i,
    {
        let temperature = if package.is_positive() {
            Milli::new(package.thousandths + 500 * (i as i128) - 250 * (count as i128))
        } else {
            Milli::zero()
        };
        let core_load = match loads.get(&i) {
            Some(own) => *own,
            None => load,
        };
        cores.push(CpuCoreData { index: i, temperature, load: core_load });
        i = i + 1;
    }
    let cpu = CpuData {
        name,
        temperature: package,
        max_temperature: Milli::new(CPU_MAX_TEMPERATURE_MILLI),
        load,
        frequency,
        cores,
    };
    proof {
        let expected = cpu_info(*processors, *total, *thermal, *per_core);
        assert(expected is Ok);
        assert(cpu@.cores =~= expected->Ok_0.cores);
        assert(cpu@ =~= expected->Ok_0);
    }
    Ok(cpu)
}

} // verus!
