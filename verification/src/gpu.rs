//! The graphics adapter of the structured query tier.

use vstd::prelude::*;
use vstd::string::*;
use crate::fixed::{milli, Milli, GIBIBYTE};
use crate::model::{GpuData, GpuView};
use crate::records::Win32VideoController;
use crate::smi::SmiStats;
use crate::text::{contains, has_substring};

verus! {

/// Highest temperature that the graphics adapter reports as the maximum, in
/// thousandths of a degree Celsius.
pub const GPU_MAX_TEMPERATURE_MILLI: i128 = 95_000;

/// Adapter memory that is reported where the adapter reports none, in
/// thousandths of a gibibyte.
pub const PLACEHOLDER_MEMORY_MILLI: i128 = 8_000;

/// Whether a name carries the mark of a vendor of discrete adapters.
pub open spec fn is_discrete_name(name: Seq<char>) -> bool {
    ||| has_substring(name, "NVIDIA"@)
    ||| has_substring(name, "AMD"@)
    ||| has_substring(name, "Radeon"@)
    ||| has_substring(name, "GeForce"@)
}

/// The name of an adapter; empty where none is reported.
pub open spec fn adapter_name(adapter: Win32VideoController) -> Seq<char> {
    match adapter.name {
        Some(name) => name@,
        None => Seq::empty(),
    }
}

/// The index of the first adapter from `i` on whose name carries a vendor
/// mark, or the length.
pub open spec fn first_discrete(adapters: Seq<Win32VideoController>, i: int) -> int
    decreases adapters.len() - i,
{
    if 0 <= i < adapters.len() && !is_discrete_name(adapter_name(adapters[i])) {
        first_discrete(adapters, i + 1)
    } else {
        i
    }
}

/// The index of the adapter that is reported: the first one with a vendor
/// mark; without any, the first one enumerated; of no adapters, none.
pub open spec fn selected_adapter(adapters: Seq<Win32VideoController>) -> Option<int> {
    let i = first_discrete(adapters, 0);
    if 0 <= i < adapters.len() {
        Some(i)
    } else if adapters.len() > 0 {
        Some(0)
    } else {
        None
    }
}

/// The adapter memory in gibibytes: as reported, or the placeholder where
/// nothing, or zero, is reported.
pub open spec fn adapter_memory(adapter: Win32VideoController) -> Milli {
    match adapter.adapter_ram {
        Some(bytes) if bytes > 0 => milli((bytes * 1000) / (GIBIBYTE as int)),
        _ => milli(8_000),
    }
}

/// The enrichment that counts: the tool's, or zeros where it gave none.
pub open spec fn enrichment(smi: Option<SmiStats>) -> SmiStats {
    match smi {
        Some(stats) => stats,
        None => SmiStats {
            temperature: milli(0),
            load: milli(0),
            memory_used: milli(0),
            frequency: milli(0),
        },
    }
}

/// The graphics reading that the structured query and the vendor tool
/// resolve to, or the text of what went wrong.
pub open spec fn gpu_info(
    adapters: Result<Vec<Win32VideoController>, String>,
    smi: Option<SmiStats>,
) -> Result<GpuView, Seq<char>> {
    match adapters {
        Err(e) => Err("GPU query failed: "@ + e@),
        Ok(rows) => match selected_adapter(rows@) {
            None => Err("No GPU found"@),
            Some(i) => Ok(
                GpuView {
                    name: match rows@[i].name {
                        Some(name) => name@,
                        None => "Unknown GPU"@,
                    },
                    temperature: enrichment(smi).temperature,
                    max_temperature: milli(95_000),
                    load: enrichment(smi).load,
                    frequency: enrichment(smi).frequency,
                    memory_used: enrichment(smi).memory_used,
                    memory_total: adapter_memory(rows@[i]),
                },
            ),
        },
    }
}

/// Walking on from an index never goes back, and stops on a marked adapter
/// or at the end.
pub proof fn lemma_first_discrete(adapters: Seq<Win32VideoController>, i: int)
    requires
        0 <= i <= adapters.len(),
    ensures
        i <= first_discrete(adapters, i) <= adapters.len(),
        first_discrete(adapters, i) < adapters.len() ==> is_discrete_name(
            adapter_name(adapters[first_discrete(adapters, i)]),
        ),
        forall|j: int|
            i <= j < first_discrete(adapters, i) ==> !is_discrete_name(
                adapter_name(#[trigger] adapters[j]),
            ),
    decreases adapters.len() - i,
{
    if i < adapters.len() && !is_discrete_name(adapter_name(adapters[i])) {
        lemma_first_discrete(adapters, i + 1);
    }
}

/// Vendor preference: where any adapter carries a vendor mark, the
/// reported adapter carries one, and none before it does, wherever in the
/// enumeration it stands.
pub proof fn lemma_vendor_preferred(adapters: Seq<Win32VideoController>, k: int)
    requires
        0 <= k < adapters.len(),
        is_discrete_name(adapter_name(adapters[k])),
    ensures
        selected_adapter(adapters) matches Some(i) && 0 <= i <= k && is_discrete_name(
            adapter_name(adapters[i]),
        ),
{
    lemma_first_discrete(adapters, 0);
}

/// Of two adapters of which exactly one carries a vendor mark, that one is
/// reported in either order.
pub proof fn lemma_vendor_preferred_either_order(
    plain: Win32VideoController,
    marked: Win32VideoController,
)
    requires
        !is_discrete_name(adapter_name(plain)),
        is_discrete_name(adapter_name(marked)),
    ensures
        selected_adapter(seq![plain, marked]) == Some(1int),
        selected_adapter(seq![marked, plain]) == Some(0int),
{
    lemma_first_discrete(seq![plain, marked], 0);
    lemma_first_discrete(seq![marked, plain], 0);
    assert(seq![plain, marked][0] == plain);
    assert(seq![plain, marked][1] == marked);
    assert(seq![marked, plain][0] == marked);
}

/// Without any vendor mark the first adapter enumerated is reported.
pub proof fn lemma_first_adapter_without_mark(adapters: Seq<Win32VideoController>)
    requires
        adapters.len() > 0,
        forall|j: int|
            0 <= j < adapters.len() ==> !is_discrete_name(adapter_name(#[trigger] adapters[j])),
    ensures
        selected_adapter(adapters) == Some(0int),
{
    lemma_first_discrete(adapters, 0);
}

/// Tests whether an adapter's name carries a vendor mark.
pub fn is_discrete(adapter: &Win32VideoController) -> (r: bool)
    ensures
        r == is_discrete_name(adapter_name(*adapter)),
{
    let name: &str = match &adapter.name {
        Some(name) => name.as_str(),
        None => "",
    };
    proof {
        reveal_strlit("");
        assert(adapter.name is None ==> name@ =~= Seq::<char>::empty());
    }
    contains(name, "NVIDIA") || contains(name, "AMD") || contains(name, "Radeon") || contains(
        name,
        "GeForce",
    )
}

/// Picks the adapter that is reported.
pub fn select_adapter(adapters: &Vec<Win32VideoController>) -> (r: Option<usize>)
    ensures
        match r {
            Some(i) => selected_adapter(adapters@) == Some(i as int) && i < adapters@.len(),
            None => selected_adapter(adapters@) is None,
        },
{
    let n = adapters.len();
    let mut i: usize = 0;
    while i < n
        invariant
            n == adapters@.len(),
            i <= n,
            first_discrete(adapters@, 0) == first_discrete(adapters@, i as int),
        decreases n - i,
    {
        if is_discrete(&adapters[i]) {
            return Some(i);
        }
        i = i + 1;
    }
    if n > 0 {
        Some(0)
    } else {
        None
    }
}

/// Resolves the graphics reading from the adapter query and the vendor
/// tool's enrichment.
pub fn get_gpu_info(
    adapters: &Result<Vec<Win32VideoController>, String>,
    smi: Option<SmiStats>,
) -> (r: Result<GpuData, String>)
    ensures
        match r {
            Ok(gpu) => gpu_info(*adapters, smi) == Ok::<GpuView, Seq<char>>(gpu@),
            Err(e) => gpu_info(*adapters, smi) == Err::<GpuView, Seq<char>>(e@),
        },
{
    let rows = match adapters {
        Err(e) => {
            return Err(String::from_str("GPU query failed: ").concat(e.as_str()));
        },
        Ok(rows) => rows,
    };
    let index = match select_adapter(rows) {
        None => {
            return Err(String::from_str("No GPU found"));
        },
        Some(index) => index,
    };
    let adapter = &rows[index];
    let name = match &adapter.name {
        Some(name) => name.clone(),
        None => String::from_str("Unknown GPU"),
    };
    let memory_total = match adapter.adapter_ram {
        Some(bytes) => if bytes > 0 {
            Milli::from_bytes(bytes)
        } else {
            Milli::new(PLACEHOLDER_MEMORY_MILLI)
        },
        None => Milli::new(PLACEHOLDER_MEMORY_MILLI),
    };
    let stats = match smi {
        Some(stats) => stats,
        None => SmiStats {
            temperature: Milli::zero(),
            load: Milli::zero(),
            memory_used: Milli::zero(),
            frequency: Milli::zero(),
        },
    };
    Ok(
        GpuData {
            name,
            temperature: stats.temperature,
            max_temperature: Milli::new(GPU_MAX_TEMPERATURE_MILLI),
            load: stats.load,
            frequency: stats.frequency,
            memory_used: stats.memory_used,
            memory_total,
        },
    )
}

} // verus!
