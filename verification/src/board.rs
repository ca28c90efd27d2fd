//! The baseboard and fan adapters of the structured query tier.

use vstd::prelude::*;
use vstd::string::*;
use crate::fixed::{milli, Milli};
use crate::model::{fans_all_present, FanData, FanView, MotherboardData, MotherboardView};
use crate::records::{CimFan, Win32BaseBoard, Win32Fan, WmiValue};
use crate::text::{trim, trimmed};

verus! {

/// The low 32 bits of a 64-bit count.
pub open spec fn low_32_bits(v: u64) -> u32 {
    (v % 0x1_0000_0000) as u32
}

/// A signed 32-bit number read as an unsigned one: a negative number
/// wraps around.
pub open spec fn unsigned_32(v: i32) -> u32 {
    if v >= 0 {
        v as u32
    } else {
        (v + 0x1_0000_0000) as u32
    }
}

/// The fan that a row of the fan class reports, if it turns. A fan without
/// a name is called "Fan"; a fan without a speed does not turn.
pub open spec fn win32_fan(row: Win32Fan) -> Option<FanView> {
    let speed = match row.desired_speed {
        Some(speed) => low_32_bits(speed),
        None => 0u32,
    };
    if speed > 0 {
        Some(
            FanView {
                name: match row.name {
                    Some(name) => name@,
                    None => "Fan"@,
                },
                speed,
            },
        )
    } else {
        None
    }
}

/// The speed that a loosely typed property holds; zero unless it is a
/// number of one of three kinds.
pub open spec fn cim_speed(value: Option<WmiValue>) -> u32 {
    match value {
        Some(WmiValue::UI8(speed)) => low_32_bits(speed),
        Some(WmiValue::UI4(speed)) => speed,
        Some(WmiValue::I4(speed)) => unsigned_32(speed),
        _ => 0,
    }
}

/// The fan that a row of the generic fan class reports, if it turns.
pub open spec fn cim_fan(row: CimFan) -> Option<FanView> {
    let speed = cim_speed(row.desired_speed);
    if speed > 0 {
        Some(
            FanView {
                name: match row.name {
                    Some(WmiValue::Text(name)) => name@,
                    _ => "Fan"@,
                },
                speed,
            },
        )
    } else {
        None
    }
}

/// The turning fans of the fan class; none if the query failed.
pub open spec fn primary_fans(win32: Result<Vec<Win32Fan>, String>) -> Seq<FanView> {
    match win32 {
        Ok(rows) => rows@.filter_map(|row: Win32Fan| win32_fan(row)),
        Err(_) => Seq::empty(),
    }
}

/// The turning fans of the generic fan class; none if the query failed.
pub open spec fn secondary_fans(cim: Result<Vec<CimFan>, String>) -> Seq<FanView> {
    match cim {
        Ok(rows) => rows@.filter_map(|row: CimFan| cim_fan(row)),
        Err(_) => Seq::empty(),
    }
}

/// The fans that are reported: those of the fan class, and only where it
/// yields none, those of the generic class.
pub open spec fn fan_speeds(
    win32: Result<Vec<Win32Fan>, String>,
    cim: Result<Vec<CimFan>, String>,
) -> Seq<FanView> {
    if primary_fans(win32).len() > 0 {
        primary_fans(win32)
    } else {
        secondary_fans(cim)
    }
}

/// The text of an optional property; empty where there is none.
pub open spec fn text_or_empty(value: Option<String>) -> Seq<char> {
    match value {
        Some(text) => text@,
        None => Seq::empty(),
    }
}

/// The name of a baseboard: manufacturer and product with a blank between,
/// trimmed.
pub open spec fn board_name(board: Win32BaseBoard) -> Seq<char> {
    trimmed(text_or_empty(board.manufacturer) + seq![' '] + text_or_empty(board.product))
}

/// The baseboard reading that the structured queries resolve to, or the
/// text of what went wrong. Its temperature is not available from this
/// source.
pub open spec fn motherboard_info(
    boards: Result<Vec<Win32BaseBoard>, String>,
    win32: Result<Vec<Win32Fan>, String>,
    cim: Result<Vec<CimFan>, String>,
) -> Result<MotherboardView, Seq<char>> {
    match boards {
        Err(e) => Err("Motherboard query failed: "@ + e@),
        Ok(rows) => if rows@.len() == 0 {
            Err("No motherboard found"@)
        } else {
            Ok(
                MotherboardView {
                    name: board_name(rows@[0]),
                    temperature: milli(0),
                    fans: fan_speeds(win32, cim),
                },
            )
        },
    }
}

/// Every fan that a fan-class row yields turns.
pub proof fn lemma_primary_fans_turn(win32: Result<Vec<Win32Fan>, String>)
    ensures
        fans_all_present(primary_fans(win32)),
{
    if let Ok(rows) = win32 {
        lemma_win32_rows_turn(rows@);
    }
}

proof fn lemma_win32_rows_turn(rows: Seq<Win32Fan>)
    ensures
        fans_all_present(rows.filter_map(|row: Win32Fan| win32_fan(row))),
    decreases rows.len(),
{
    if rows.len() > 0 {
        lemma_win32_rows_turn(rows.drop_last());
    }
}

/// Every fan that a generic-class row yields turns.
pub proof fn lemma_secondary_fans_turn(cim: Result<Vec<CimFan>, String>)
    ensures
        fans_all_present(secondary_fans(cim)),
{
    if let Ok(rows) = cim {
        lemma_cim_rows_turn(rows@);
    }
}

proof fn lemma_cim_rows_turn(rows: Seq<CimFan>)
    ensures
        fans_all_present(rows.filter_map(|row: CimFan| cim_fan(row))),
    decreases rows.len(),
{
    if rows.len() > 0 {
        lemma_cim_rows_turn(rows.drop_last());
    }
}

/// No fan with speed zero is ever reported by the structured tier.
pub proof fn lemma_fan_speeds_turn(
    win32: Result<Vec<Win32Fan>, String>,
    cim: Result<Vec<CimFan>, String>,
)
    ensures
        fans_all_present(fan_speeds(win32, cim)),
{
    lemma_primary_fans_turn(win32);
    lemma_secondary_fans_turn(cim);
}

/// The low 32 bits of a 64-bit count.
pub fn truncate_speed(speed: u64) -> (r: u32)
    ensures
        r == low_32_bits(speed),
{
    let low: u64 = speed % 0x1_0000_0000;
    low as u32
}

/// A signed 32-bit number read as an unsigned one.
pub fn wrap_speed(speed: i32) -> (r: u32)
    ensures
        r == unsigned_32(speed),
{
    if speed >= 0 {
        speed as u32
    } else {
        let wide: i64 = speed as i64 + 0x1_0000_0000;
        wide as u32
    }
}

/// The turning fans of the fan class.
pub fn win32_fan_list(win32: &Result<Vec<Win32Fan>, String>) -> (r: Vec<FanData>)
    ensures
        r.deep_view() == primary_fans(*win32),
{
    let mut out: Vec<FanData> = Vec::new();
    assert(out.deep_view() =~= Seq::<FanView>::empty());
    match win32 {
        Err(_) => {},
        Ok(rows) => {
            let n = rows.len();
            let mut i: usize = 0;
            assert(rows@.take(0) =~= Seq::empty());
            while i < n
                invariant
                    n == rows@.len(),
                    i <= n,
                    out.deep_view() == rows@.take(i as int).filter_map(
                        |row: Win32Fan| win32_fan(row),
                    ),
                decreases n - i,
            {
                let ghost before = out.deep_view();
                proof {
                    assert(rows@.take(i + 1).drop_last() =~= rows@.take(i as int));
                    assert(rows@.take(i + 1).last() == rows@[i as int]);
                }
                let speed: u32 = match rows[i].desired_speed {
                    Some(speed) => truncate_speed(speed),
                    None => 0,
                };
                if speed > 0 {
                    let name = match &rows[i].name {
                        Some(name) => name.clone(),
                        None => String::from_str("Fan"),
                    };
                    out.push(FanData { name, speed });
                    assert(out.deep_view() =~= before + seq![win32_fan(rows@[i as int])->0]);
                }
                i = i + 1;
            }
            assert(rows@.take(n as int) =~= rows@);
        },
    }
    out
}

/// The turning fans of the generic fan class.
pub fn cim_fan_list(cim: &Result<Vec<CimFan>, String>) -> (r: Vec<FanData>)
    ensures
        r.deep_view() == secondary_fans(*cim),
{
    let mut out: Vec<FanData> = Vec::new();
    assert(out.deep_view() =~= Seq::<FanView>::empty());
    match cim {
        Err(_) => {},
        Ok(rows) => {
            let n = rows.len();
            let mut i: usize = 0;
            assert(rows@.take(0) =~= Seq::empty());
            while i < n
                invariant
                    n == rows@.len(),
                    i <= n,
                    out.deep_view() == rows@.take(i as int).filter_map(
                        |row: CimFan| cim_fan(row),
                    ),
                decreases n - i,
            {
                let ghost before = out.deep_view();
                proof {
                    assert(rows@.take(i + 1).drop_last() =~= rows@.take(i as int));
                    assert(rows@.take(i + 1).last() == rows@[i as int]);
                }
                let speed: u32 = match &rows[i].desired_speed {
                    Some(WmiValue::UI8(speed)) => truncate_speed(*speed),
                    Some(WmiValue::UI4(speed)) => *speed,
                    Some(WmiValue::I4(speed)) => wrap_speed(*speed),
                    _ => 0,
                };
                if speed > 0 {
                    let name = match &rows[i].name {
                        Some(WmiValue::Text(name)) => name.clone(),
                        _ => String::from_str("Fan"),
                    };
                    out.push(FanData { name, speed });
                    assert(out.deep_view() =~= before + seq![cim_fan(rows@[i as int])->0]);
                }
                i = i + 1;
            }
            assert(rows@.take(n as int) =~= rows@);
        },
    }
    out
}

/// Whether the generic fan class has to be asked: the fan class yields no
/// turning fan.
pub fn needs_generic_fan_class(win32: &Result<Vec<Win32Fan>, String>) -> (r: bool)
    ensures
        r == (primary_fans(*win32).len() == 0),
{
    let fans = win32_fan_list(win32);
    assert(fans.deep_view().len() == fans@.len());
    fans.len() == 0
}

/// Resolves the fans from the two fan queries.
pub fn get_fan_speeds(
    win32: &Result<Vec<Win32Fan>, String>,
    cim: &Result<Vec<CimFan>, String>,
) -> (r: Vec<FanData>)
    ensures
        r.deep_view() == fan_speeds(*win32, *cim),
        fans_all_present(r.deep_view()),
{
    proof {
        lemma_fan_speeds_turn(*win32, *cim);
    }
    let primary = win32_fan_list(win32);
    assert(primary.deep_view().len() == primary@.len());
    if primary.len() > 0 {
        return primary;
    }
    cim_fan_list(cim)
}

/// Resolves the baseboard reading from the baseboard query and the two fan
/// queries.
pub fn get_motherboard_info(
    boards: &Result<Vec<Win32BaseBoard>, String>,
    win32: &Result<Vec<Win32Fan>, String>,
    cim: &Result<Vec<CimFan>, String>,
) -> (r: Result<MotherboardData, String>)
    ensures
        match r {
            Ok(board) => motherboard_info(*boards, *win32, *cim) == Ok::<
                MotherboardView,
                Seq<char>,
            >(board@) && fans_all_present(board@.fans),
            Err(e) => motherboard_info(*boards, *win32, *cim) == Err::<
                MotherboardView,
                Seq<char>,
            >(e@),
        },
{
    let rows = match boards {
        Err(e) => {
            return Err(String::from_str("Motherboard query failed: ").concat(e.as_str()));
        },
        Ok(rows) => rows,
    };
    if rows.len() == 0 {
        return Err(String::from_str("No motherboard found"));
    }
    let board = &rows[0];
    let mut joined = match &board.manufacturer {
        Some(manufacturer) => manufacturer.clone(),
        None => String::new(),
    };
    proof {
        reveal_strlit(" ");
        assert(" "@ =~= seq![' ']);
    }
    joined.append(" ");
    match &board.product {
        Some(product) => {
            joined.append(product.as_str());
        },
        None => {
            assert(joined@ + Seq::<char>::empty() =~= joined@);
        },
    }
    let name = trim(joined.as_str());
    let fans = get_fan_speeds(win32, cim);
    Ok(MotherboardData { name, temperature: Milli::zero(), fans })
}

} // verus!
