use ondo::board::{get_fan_speeds, get_motherboard_info, needs_generic_fan_class, truncate_speed, wrap_speed};
use ondo::cpu::{
    get_core_loads, get_cpu_info, get_cpu_load, get_cpu_temperature, thermal_zone_celsius,
    ThermalProbe,
};
use ondo::fixed::Milli;
use ondo::gpu::{get_gpu_info, is_discrete, select_adapter};
use ondo::model::{CpuCoreData, FanData, StorageData};
use ondo::records::{
    CimFan, ThermalZone, Win32BaseBoard, Win32DiskDrive, Win32Fan,
    Win32PerfFormattedDataProcessorInformation, Win32Processor, Win32VideoController, WmiValue,
};
use ondo::smi::SmiStats;
use ondo::storage::get_storage_info;
use ondo::structured::{get_hardware_from_wmi, WmiReadings, WmiSession};

fn m(v: i128) -> Milli {
    Milli::new(v)
}

fn perf(name: Option<&str>, pct: Option<u64>) -> Win32PerfFormattedDataProcessorInformation {
    Win32PerfFormattedDataProcessorInformation { name: name.map(|s| s.to_string()), percent_processor_time: pct }
}

fn adapter(name: Option<&str>, ram: Option<u64>) -> Win32VideoController {
    Win32VideoController { name: name.map(|s| s.to_string()), adapter_ram: ram }
}

fn zone(value: Option<WmiValue>) -> ThermalZone {
    ThermalZone { current_temperature: value }
}

fn processor() -> Win32Processor {
    Win32Processor {
        name: Some("Intel Core i7".to_string()),
        load_percentage: Some(17),
        number_of_cores: Some(2),
        number_of_logical_processors: Some(4),
        current_clock_speed: Some(3600),
    }
}

fn failed<T>(detail: &str) -> Result<Vec<T>, String> {
    Err(detail.to_string())
}

#[test]
fn thermal_zone_values_in_range_are_accepted() {
    assert_eq!(thermal_zone_celsius(3000), Some(m(26_850)));
    assert_eq!(thermal_zone_celsius(2732), Some(m(50)));
    assert_eq!(thermal_zone_celsius(4231), Some(m(149_950)));
}

#[test]
fn thermal_zone_values_out_of_range_are_rejected() {
    assert_eq!(thermal_zone_celsius(2731), None);
    assert_eq!(thermal_zone_celsius(4232), None);
    assert_eq!(thermal_zone_celsius(5000), None);
    assert_eq!(thermal_zone_celsius(0), None);
    assert_eq!(thermal_zone_celsius(u32::MAX), None);
}

#[test]
fn cpu_temperature_takes_the_first_plausible_zone() {
    let zones = vec![
        zone(None),
        zone(Some(WmiValue::UI8(3000))),
        zone(Some(WmiValue::UI4(5000))),
        zone(Some(WmiValue::UI4(3100))),
        zone(Some(WmiValue::UI4(3000))),
    ];
    assert_eq!(get_cpu_temperature(&ThermalProbe::Queried(Ok(zones))), Ok(m(36_850)));
}

#[test]
fn cpu_temperature_is_unavailable_without_a_plausible_zone() {
    assert_eq!(get_cpu_temperature(&ThermalProbe::Queried(Ok(vec![]))), Ok(m(0)));
    let zones = vec![zone(Some(WmiValue::UI4(5000))), zone(Some(WmiValue::Text("3000".to_string())))];
    assert_eq!(get_cpu_temperature(&ThermalProbe::Queried(Ok(zones))), Ok(m(0)));
    assert_eq!(get_cpu_temperature(&ThermalProbe::Queried(failed("denied"))), Ok(m(0)));
}

#[test]
fn cpu_temperature_reports_an_unreachable_namespace() {
    assert_eq!(
        get_cpu_temperature(&ThermalProbe::ComFailed { detail: "HResult(1)".to_string() }),
        Err("COM init failed: HResult(1)".to_string())
    );
    assert_eq!(
        get_cpu_temperature(&ThermalProbe::ConnectionFailed),
        Err("Cannot connect to WMI namespace".to_string())
    );
}

#[test]
fn cpu_load_comes_from_the_total_row() {
    assert_eq!(get_cpu_load(&Ok(vec![perf(Some("_Total"), Some(23))])), Ok(m(23_000)));
    assert_eq!(get_cpu_load(&Ok(vec![perf(Some("_Total"), Some(u64::MAX))])), Ok(m(u64::MAX as i128 * 1000)));
    assert_eq!(get_cpu_load(&Ok(vec![perf(Some("_Total"), None)])), Err("No CPU load data".to_string()));
    assert_eq!(get_cpu_load(&Ok(vec![])), Err("No CPU load data".to_string()));
    assert_eq!(get_cpu_load(&failed("timeout")), Err("CPU load query failed: timeout".to_string()));
}

#[test]
fn core_loads_keep_rows_with_an_index_in_range() {
    let rows = Ok(vec![
        perf(Some("0"), Some(10)),
        perf(Some("1"), Some(20)),
        perf(Some("4"), Some(99)),
        perf(Some("0,1"), Some(50)),
        perf(None, Some(50)),
        perf(Some("2"), None),
        perf(Some("1"), Some(25)),
    ]);
    let loads = get_core_loads(&rows, 4);
    assert_eq!(loads.len(), 2);
    assert_eq!(loads.get(&0), Some(&m(10_000)));
    assert_eq!(loads.get(&1), Some(&m(25_000)));
    assert!(get_core_loads(&failed("x"), 4).is_empty());
}

#[test]
fn cpu_info_spreads_core_temperatures_around_the_package() {
    let cpu = get_cpu_info(
        &Ok(vec![processor()]),
        &Ok(vec![perf(Some("_Total"), Some(40))]),
        &ThermalProbe::Queried(Ok(vec![zone(Some(WmiValue::UI4(3232)))])),
        &Ok(vec![perf(Some("0"), Some(11)), perf(Some("3"), Some(77))]),
    )
    .unwrap();
    assert_eq!(cpu.name, "Intel Core i7");
    assert_eq!(cpu.temperature, m(50_050));
    assert_eq!(cpu.max_temperature, m(100_000));
    assert_eq!(cpu.load, m(40_000));
    assert_eq!(cpu.frequency, m(3_600));
    assert_eq!(
        cpu.cores,
        vec![
            CpuCoreData { index: 0, temperature: m(49_050), load: m(11_000) },
            CpuCoreData { index: 1, temperature: m(49_550), load: m(40_000) },
            CpuCoreData { index: 2, temperature: m(50_050), load: m(40_000) },
            CpuCoreData { index: 3, temperature: m(50_550), load: m(77_000) },
        ]
    );
}

#[test]
fn cpu_info_falls_back_field_by_field() {
    let bare = Win32Processor {
        name: None,
        load_percentage: None,
        number_of_cores: None,
        number_of_logical_processors: None,
        current_clock_speed: None,
    };
    let cpu = get_cpu_info(&Ok(vec![bare]), &failed("a"), &ThermalProbe::ConnectionFailed, &failed("b")).unwrap();
    assert_eq!(cpu.name, "Unknown CPU");
    assert_eq!(cpu.temperature, m(0));
    assert_eq!(cpu.load, m(0));
    assert_eq!(cpu.frequency, m(0));
    assert_eq!(cpu.cores.len(), 4);
    for (i, core) in cpu.cores.iter().enumerate() {
        assert_eq!(*core, CpuCoreData { index: i as u32, temperature: m(0), load: m(0) });
    }
    let static_load = get_cpu_info(&Ok(vec![processor()]), &failed("a"), &ThermalProbe::ConnectionFailed, &failed("b")).unwrap();
    assert_eq!(static_load.load, m(17_000));
    let cores_only = Win32Processor { number_of_logical_processors: None, ..processor() };
    let cpu = get_cpu_info(&Ok(vec![cores_only]), &failed("a"), &ThermalProbe::ConnectionFailed, &failed("b")).unwrap();
    assert_eq!(cpu.cores.len(), 2);
}

#[test]
fn cpu_info_reports_what_went_wrong() {
    let none = ThermalProbe::ConnectionFailed;
    assert_eq!(
        get_cpu_info(&failed("HResult(-2147217394)"), &failed("a"), &none, &failed("b")),
        Err("CPU query failed: HResult(-2147217394)".to_string())
    );
    assert_eq!(get_cpu_info(&Ok(vec![]), &failed("a"), &none, &failed("b")), Err("No CPU found".to_string()));
}

#[test]
fn gpu_vendor_preference_ignores_order() {
    let intel = adapter(Some("Intel(R) UHD Graphics"), Some(1 << 30));
    let nvidia = adapter(Some("NVIDIA GeForce RTX 3080"), Some(10 << 30));
    assert_eq!(select_adapter(&vec![intel.clone(), nvidia.clone()]), Some(1));
    assert_eq!(select_adapter(&vec![nvidia.clone(), intel.clone()]), Some(0));
    let a = get_gpu_info(&Ok(vec![intel.clone(), nvidia.clone()]), None).unwrap();
    let b = get_gpu_info(&Ok(vec![nvidia, intel]), None).unwrap();
    assert_eq!(a.name, "NVIDIA GeForce RTX 3080");
    assert_eq!(a, b);
    assert_eq!(a.memory_total, m(10_000));
}

#[test]
fn gpu_selection_takes_the_first_marked_or_the_first() {
    let plain = adapter(Some("Microsoft Basic Display"), None);
    let unnamed = adapter(None, None);
    let radeon = adapter(Some("Radeon RX 6800"), None);
    let amd = adapter(Some("AMD FirePro"), None);
    assert_eq!(select_adapter(&vec![]), None);
    assert_eq!(select_adapter(&vec![unnamed.clone(), plain.clone()]), Some(0));
    assert_eq!(select_adapter(&vec![plain.clone(), unnamed.clone(), radeon.clone(), amd.clone()]), Some(2));
    assert!(is_discrete(&radeon) && is_discrete(&amd));
    assert!(!is_discrete(&plain) && !is_discrete(&unnamed));
    assert!(is_discrete(&adapter(Some("GeForce"), None)));
    assert!(!is_discrete(&adapter(Some("geforce nvidia amd radeon"), None)));
}

#[test]
fn gpu_info_uses_enrichment_and_placeholder_memory() {
    let stats = SmiStats { temperature: m(64_000), load: m(35_000), memory_used: m(2_500), frequency: m(1_800) };
    let gpu = get_gpu_info(&Ok(vec![adapter(None, None)]), Some(stats)).unwrap();
    assert_eq!(gpu.name, "Unknown GPU");
    assert_eq!(gpu.temperature, m(64_000));
    assert_eq!(gpu.max_temperature, m(95_000));
    assert_eq!(gpu.load, m(35_000));
    assert_eq!(gpu.frequency, m(1_800));
    assert_eq!(gpu.memory_used, m(2_500));
    assert_eq!(gpu.memory_total, m(8_000));
    let zero = get_gpu_info(&Ok(vec![adapter(Some("x"), Some(0))]), None).unwrap();
    assert_eq!(zero.memory_total, m(8_000));
    assert_eq!(zero.temperature, m(0));
    assert_eq!(zero.memory_used, m(0));
    let half = get_gpu_info(&Ok(vec![adapter(Some("x"), Some(1 << 29))]), None).unwrap();
    assert_eq!(half.memory_total, m(500));
    let tiny = get_gpu_info(&Ok(vec![adapter(Some("x"), Some(1))]), None).unwrap();
    assert_eq!(tiny.memory_total, m(0));
}

#[test]
fn gpu_info_reports_what_went_wrong() {
    assert_eq!(get_gpu_info(&failed("E"), None), Err("GPU query failed: E".to_string()));
    assert_eq!(get_gpu_info(&Ok(vec![]), None), Err("No GPU found".to_string()));
}

#[test]
fn storage_info_keeps_disks_with_a_model() {
    let disks = Ok(vec![
        Win32DiskDrive { model: Some("Samsung SSD".to_string()), size: Some(1_000_204_886_016) },
        Win32DiskDrive { model: None, size: Some(5) },
        Win32DiskDrive { model: Some("USB".to_string()), size: None },
    ]);
    assert_eq!(
        get_storage_info(&disks),
        Ok(vec![
            StorageData { name: "Samsung SSD".to_string(), temperature: m(0), used_space: m(0), total_space: m(931_513) },
            StorageData { name: "USB".to_string(), temperature: m(0), used_space: m(0), total_space: m(0) },
        ])
    );
}

#[test]
fn storage_info_reports_what_went_wrong() {
    assert_eq!(get_storage_info(&failed("E")), Err("Storage query failed: E".to_string()));
    assert_eq!(get_storage_info(&Ok(vec![])), Err("No storage devices found".to_string()));
    assert_eq!(
        get_storage_info(&Ok(vec![Win32DiskDrive { model: None, size: Some(1) }])),
        Err("No storage devices found".to_string())
    );
}

fn win32(name: Option<&str>, speed: Option<u64>) -> Win32Fan {
    Win32Fan { name: name.map(|s| s.to_string()), desired_speed: speed }
}

fn cim(name: Option<WmiValue>, speed: Option<WmiValue>) -> CimFan {
    CimFan { name, desired_speed: speed }
}

fn fan(name: &str, speed: u32) -> FanData {
    FanData { name: name.to_string(), speed }
}

#[test]
fn fan_speeds_filter_zero_speed_entries() {
    let primary = Ok(vec![win32(Some("A"), Some(0)), win32(Some("B"), Some(1200)), win32(None, Some(900)), win32(Some("C"), None)]);
    let secondary = Ok(vec![cim(Some(WmiValue::Text("ignored".to_string())), Some(WmiValue::UI4(500)))]);
    assert_eq!(get_fan_speeds(&primary, &secondary), vec![fan("B", 1200), fan("Fan", 900)]);
    assert!(!needs_generic_fan_class(&primary));
}

#[test]
fn fan_speeds_fall_back_to_the_generic_class() {
    let secondary = Ok(vec![
        cim(Some(WmiValue::Text("S1".to_string())), Some(WmiValue::UI8(700))),
        cim(Some(WmiValue::UI4(3)), Some(WmiValue::UI4(800))),
        cim(None, Some(WmiValue::I4(900))),
        cim(Some(WmiValue::Text("off".to_string())), Some(WmiValue::UI4(0))),
        cim(Some(WmiValue::Text("text".to_string())), Some(WmiValue::Text("1000".to_string()))),
        cim(Some(WmiValue::Text("none".to_string())), None),
        cim(Some(WmiValue::Text("neg".to_string())), Some(WmiValue::I4(-1))),
        cim(Some(WmiValue::Text("other".to_string())), Some(WmiValue::Other)),
    ]);
    let expected = vec![fan("S1", 700), fan("Fan", 800), fan("Fan", 900), fan("neg", u32::MAX)];
    let empty_primary = Ok(vec![win32(Some("A"), Some(0))]);
    assert!(needs_generic_fan_class(&empty_primary));
    assert!(needs_generic_fan_class(&failed("E")));
    assert_eq!(get_fan_speeds(&empty_primary, &secondary), expected);
    assert_eq!(get_fan_speeds(&failed("E"), &secondary), expected);
    assert_eq!(get_fan_speeds(&failed("E"), &failed("E")), vec![]);
    assert_eq!(get_fan_speeds(&Ok(vec![]), &Ok(vec![])), vec![]);
}

#[test]
fn fan_speed_casts_wrap_like_the_machine() {
    assert_eq!(truncate_speed(1200), 1200);
    assert_eq!(truncate_speed(1 << 32), 0);
    assert_eq!(truncate_speed((1 << 32) + 5), 5);
    assert_eq!(truncate_speed(u64::MAX), u32::MAX);
    assert_eq!(wrap_speed(0), 0);
    assert_eq!(wrap_speed(i32::MAX), i32::MAX as u32);
    assert_eq!(wrap_speed(-1), u32::MAX);
    assert_eq!(wrap_speed(i32::MIN), 1 << 31);
    assert_eq!(get_fan_speeds(&Ok(vec![win32(Some("big"), Some(1 << 32))]), &failed("E")), vec![]);
}

#[test]
fn motherboard_name_joins_and_trims() {
    let board = |m: Option<&str>, p: Option<&str>| {
        Ok(vec![Win32BaseBoard { manufacturer: m.map(|s| s.to_string()), product: p.map(|s| s.to_string()) }])
    };
    let name = |m, p| get_motherboard_info(&board(m, p), &failed("E"), &failed("E")).unwrap().name;
    assert_eq!(name(Some("ASUS"), Some("ROG STRIX")), "ASUS ROG STRIX");
    assert_eq!(name(Some("ASUS"), None), "ASUS");
    assert_eq!(name(None, Some("B550")), "B550");
    assert_eq!(name(None, None), "");
    assert_eq!(name(Some(" To be filled "), Some(" by O.E.M. ")), "To be filled   by O.E.M.");
    let full = get_motherboard_info(&board(Some("A"), Some("B")), &Ok(vec![win32(Some("F"), Some(5))]), &failed("E")).unwrap();
    assert_eq!(full.temperature, m(0));
    assert_eq!(full.fans, vec![fan("F", 5)]);
}

#[test]
fn motherboard_info_reports_what_went_wrong() {
    assert_eq!(
        get_motherboard_info(&failed("E"), &failed("E"), &failed("E")),
        Err("Motherboard query failed: E".to_string())
    );
    assert_eq!(
        get_motherboard_info(&Ok(vec![]), &failed("E"), &failed("E")),
        Err("No motherboard found".to_string())
    );
}

fn readings() -> WmiReadings {
    WmiReadings {
        processors: Ok(vec![processor()]),
        total_load: Ok(vec![perf(Some("_Total"), Some(5))]),
        thermal: ThermalProbe::Queried(Ok(vec![zone(Some(WmiValue::UI4(3000)))])),
        core_loads: Ok(vec![]),
        adapters: Ok(vec![adapter(Some("AMD Radeon"), Some(4 << 30))]),
        smi: None,
        disks: Ok(vec![Win32DiskDrive { model: Some("D".to_string()), size: Some(1 << 30) }]),
        boards: Ok(vec![Win32BaseBoard { manufacturer: Some("M".to_string()), product: Some("P".to_string()) }]),
        fans: Ok(vec![win32(Some("F"), Some(1000))]),
        generic_fans: failed("E"),
    }
}

#[test]
fn structured_tier_resolves_every_subsystem() {
    let snapshot = get_hardware_from_wmi(77, &WmiSession::Connected(readings()));
    assert_eq!(snapshot.timestamp, 77);
    assert_eq!(snapshot.cpu.as_ref().map(|c| c.temperature), Some(m(26_850)));
    assert_eq!(snapshot.cpu_error, None);
    assert_eq!(snapshot.gpu.as_ref().map(|g| g.memory_total), Some(m(4_000)));
    assert_eq!(snapshot.gpu_error, None);
    assert_eq!(snapshot.storage.as_ref().map(|s| s.len()), Some(1));
    assert_eq!(snapshot.motherboard.as_ref().map(|b| b.name.clone()), Some("M P".to_string()));
}

#[test]
fn structured_tier_subsystems_fail_independently() {
    let mut r = readings();
    r.processors = failed("E1");
    let snapshot = get_hardware_from_wmi(1, &WmiSession::Connected(r));
    assert_eq!(snapshot.cpu, None);
    assert_eq!(snapshot.cpu_error, Some("CPU query failed: E1".to_string()));
    assert!(snapshot.gpu.is_some());
    assert_eq!(snapshot.gpu_error, None);

    let mut r = readings();
    r.adapters = Ok(vec![]);
    r.disks = failed("E2");
    r.boards = Ok(vec![]);
    let snapshot = get_hardware_from_wmi(1, &WmiSession::Connected(r));
    assert!(snapshot.cpu.is_some());
    assert_eq!(snapshot.cpu_error, None);
    assert_eq!(snapshot.gpu, None);
    assert_eq!(snapshot.gpu_error, Some("No GPU found".to_string()));
    assert_eq!(snapshot.storage, None);
    assert_eq!(snapshot.motherboard, None);
}

#[test]
fn structured_tier_without_connection_names_one_reason_twice() {
    let com = get_hardware_from_wmi(3, &WmiSession::ComFailed { detail: "HResult(5)".to_string() });
    assert_eq!(com.cpu, None);
    assert_eq!(com.gpu, None);
    assert_eq!(com.storage, None);
    assert_eq!(com.motherboard, None);
    assert_eq!(com.timestamp, 3);
    assert_eq!(com.cpu_error, Some("COM init failed: HResult(5)".to_string()));
    assert_eq!(com.gpu_error, Some("COM init failed: HResult(5)".to_string()));
    let wmi = get_hardware_from_wmi(4, &WmiSession::ConnectionFailed { detail: "X".to_string() });
    assert_eq!(wmi.cpu_error, Some("WMI connection failed: X".to_string()));
    assert_eq!(wmi.gpu_error, Some("WMI connection failed: X".to_string()));
    assert_eq!(wmi.cpu, None);
    assert_eq!(wmi.gpu, None);
}

#[test]
fn structured_tier_reading_and_error_exclude_each_other() {
    let sessions = vec![
        WmiSession::Connected(readings()),
        WmiSession::Connected(WmiReadings { processors: Ok(vec![]), adapters: failed("E"), ..readings() }),
        WmiSession::ComFailed { detail: String::new() },
        WmiSession::ConnectionFailed { detail: String::new() },
    ];
    for session in &sessions {
        let s = get_hardware_from_wmi(0, session);
        assert_eq!(s.cpu.is_none(), s.cpu_error.is_some());
        assert_eq!(s.gpu.is_none(), s.gpu_error.is_some());
    }
}
