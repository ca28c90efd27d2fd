use ondo::cpu::ThermalProbe;
use ondo::fixed::Milli;
use ondo::model::GpuData;
use ondo::payload::{LhmCpuData, LhmResponse};
use ondo::records::Win32VideoController;
use ondo::resolver::{
    get_hardware_info, next_tier, resolve_daemon, resolve_one_shot, OneShotRun, Resolution, Tier,
};
use ondo::structured::{WmiReadings, WmiSession};

fn m(v: i128) -> Milli {
    Milli::new(v)
}

fn cpu_only(name: &str) -> LhmResponse {
    LhmResponse {
        cpu: Some(LhmCpuData {
            name: name.to_string(),
            temperature: m(50_000),
            max_temperature: m(90_000),
            load: m(1_000),
            frequency: m(3_000),
            cores: None,
        }),
        gpu: None,
        storage: None,
        motherboard: None,
    }
}

fn gpu_only() -> LhmResponse {
    LhmResponse {
        cpu: None,
        gpu: Some(GpuData {
            name: "g".to_string(),
            temperature: m(1),
            max_temperature: m(2),
            load: m(3),
            frequency: m(4),
            memory_used: m(5),
            memory_total: m(6),
        }),
        storage: None,
        motherboard: None,
    }
}

fn no_run() -> OneShotRun {
    OneShotRun { exit_success: false, document: None }
}

fn e<T>() -> Result<Vec<T>, String> {
    Err("E".to_string())
}

fn session() -> WmiSession {
    WmiSession::Connected(WmiReadings {
        processors: e(),
        total_load: e(),
        thermal: ThermalProbe::ConnectionFailed,
        core_loads: e(),
        adapters: Ok(vec![Win32VideoController { name: Some("Radeon".to_string()), adapter_ram: None }]),
        smi: None,
        disks: e(),
        boards: e(),
        fans: e(),
        generic_fans: e(),
    })
}

#[test]
fn tiers_are_consulted_in_a_fixed_order() {
    assert_eq!(next_tier(Tier::Daemon), Some(Tier::OneShot));
    assert_eq!(next_tier(Tier::OneShot), Some(Tier::Structured));
    assert_eq!(next_tier(Tier::Structured), None);
}

#[test]
fn daemon_payload_serves_the_poll() {
    let payload = cpu_only("from daemon");
    match resolve_daemon(10, Some(&payload)) {
        Resolution::Resolved(snapshot) => {
            assert_eq!(snapshot.cpu.map(|c| c.name), Some("from daemon".to_string()));
            assert_eq!(snapshot.timestamp, 10);
        }
        other => panic!("unexpected {:?}", other),
    }
    assert_eq!(resolve_daemon(10, None), Resolution::Consult(Tier::OneShot));
}

#[test]
fn one_shot_run_needs_exit_code_zero_and_a_document() {
    let good = OneShotRun { exit_success: true, document: Some(cpu_only("one shot")) };
    match resolve_one_shot(11, &good) {
        Resolution::Resolved(snapshot) => {
            assert_eq!(snapshot.cpu.map(|c| c.name), Some("one shot".to_string()));
            assert_eq!(snapshot.cpu_error, None);
            assert_eq!(snapshot.gpu_error, None);
            assert_eq!(snapshot.timestamp, 11);
        }
        other => panic!("unexpected {:?}", other),
    }
    let failed = OneShotRun { exit_success: false, document: Some(cpu_only("one shot")) };
    assert_eq!(resolve_one_shot(11, &failed), Resolution::Consult(Tier::Structured));
    let unparsed = OneShotRun { exit_success: true, document: None };
    assert_eq!(resolve_one_shot(11, &unparsed), Resolution::Consult(Tier::Structured));
    assert_eq!(resolve_one_shot(11, &no_run()), Resolution::Consult(Tier::Structured));
}

#[test]
fn the_first_tier_that_answers_wins() {
    let daemon = cpu_only("daemon");
    let run = OneShotRun { exit_success: true, document: Some(cpu_only("one shot")) };
    let a = get_hardware_info(1, Some(&daemon), &run, &session());
    assert_eq!(a.cpu.map(|c| c.name), Some("daemon".to_string()));
    assert_eq!(a.gpu, None);
    assert_eq!(a.gpu_error, None);
    let b = get_hardware_info(2, None, &run, &session());
    assert_eq!(b.cpu.map(|c| c.name), Some("one shot".to_string()));
    assert_eq!(b.gpu, None);
    let c = get_hardware_info(3, None, &no_run(), &session());
    assert_eq!(c.cpu, None);
    assert_eq!(c.cpu_error, Some("CPU query failed: E".to_string()));
    assert_eq!(c.gpu.map(|g| g.name), Some("Radeon".to_string()));
    assert_eq!(c.gpu_error, None);
    assert_eq!(c.timestamp, 3);
}

#[test]
fn daemon_tier_makes_up_no_error_for_a_missing_field() {
    let payload = cpu_only("c");
    let s = get_hardware_info(1, Some(&payload), &no_run(), &session());
    assert!(s.cpu.is_some());
    assert_eq!(s.gpu, None);
    assert_eq!(s.storage, None);
    assert_eq!(s.motherboard, None);
    assert_eq!(s.cpu_error, None);
    assert_eq!(s.gpu_error, None);
    let payload = gpu_only();
    let s = get_hardware_info(1, Some(&payload), &no_run(), &session());
    assert_eq!(s.cpu, None);
    assert_eq!(s.cpu_error, None);
    assert!(s.gpu.is_some());
}

#[test]
fn total_failure_is_still_a_snapshot() {
    let s = get_hardware_info(9, None, &no_run(), &WmiSession::ComFailed { detail: "x".to_string() });
    assert_eq!(s.cpu, None);
    assert_eq!(s.gpu, None);
    assert_eq!(s.storage, None);
    assert_eq!(s.motherboard, None);
    assert_eq!(s.cpu_error, Some("COM init failed: x".to_string()));
    assert_eq!(s.gpu_error, Some("COM init failed: x".to_string()));
    assert_eq!(s.timestamp, 9);
}

#[test]
fn timestamps_follow_the_polls() {
    let stamps = [0u64, 1, 1, 1_700_000_000_000, u64::MAX];
    let mut last = 0;
    for t in stamps {
        let s = get_hardware_info(t, None, &no_run(), &session());
        assert_eq!(s.timestamp, t);
        assert!(s.timestamp >= last);
        last = s.timestamp;
    }
}
