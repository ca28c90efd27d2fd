use ondo::fixed::Milli;
use ondo::model::GpuData;
use ondo::payload::LhmResponse;
use ondo::supervisor::{
    launch_error_message, newest_line, shutdown_lhm_daemon, LaunchOutcome, Liveness, Step,
    Supervisor, DAEMON_FLAG, DAEMON_INTERVAL_MS, HELPER_BINARY,
};

fn payload(load: i128) -> LhmResponse {
    LhmResponse {
        cpu: None,
        gpu: Some(GpuData {
            name: "gpu".to_string(),
            temperature: Milli::new(50_000),
            max_temperature: Milli::new(90_000),
            load: Milli::new(load),
            frequency: Milli::new(1_500),
            memory_used: Milli::new(2_000),
            memory_total: Milli::new(8_000),
        }),
        storage: None,
        motherboard: None,
    }
}

fn lines(items: &[&str]) -> Vec<String> {
    items.iter().map(|s| s.to_string()).collect()
}

fn running_with(cache: Option<LhmResponse>) -> Supervisor {
    let mut s = Supervisor::new();
    s.launched(&LaunchOutcome::Started);
    s.parsed(cache);
    s
}

#[test]
fn helper_invocation_is_fixed() {
    assert_eq!(HELPER_BINARY, "ondo-hwmon.exe");
    assert_eq!(DAEMON_FLAG, "--daemon");
    assert_eq!(DAEMON_INTERVAL_MS, 1000);
}

#[test]
fn first_poll_launches_the_helper() {
    let s = Supervisor::new();
    assert!(!s.is_attached());
    assert_eq!(s.begin(), Step::Launch);
    assert_eq!(s.latest(), None);
}

#[test]
fn later_poll_looks_at_the_helper() {
    let s = running_with(None);
    assert_eq!(s.begin(), Step::CheckLiveness);
}

#[test]
fn launch_success_attaches_an_empty_helper() {
    let mut s = Supervisor::new();
    assert_eq!(s.launched(&LaunchOutcome::Started), Step::CheckLiveness);
    assert!(s.is_attached());
    assert_eq!(s.latest(), None);
    assert_eq!(s, running_with(None));
}

#[test]
fn launch_failure_leaves_state_unset() {
    let failures = vec![
        LaunchOutcome::ExePathUnknown { detail: "denied".to_string() },
        LaunchOutcome::ExeDirUnknown,
        LaunchOutcome::BinaryMissing { path: "\"C:\\\\x\\\\ondo-hwmon.exe\"".to_string() },
        LaunchOutcome::SpawnFailed { detail: "access".to_string() },
        LaunchOutcome::StdoutMissing,
    ];
    for failure in failures {
        let mut s = Supervisor::new();
        assert_eq!(s.launched(&failure), Step::Done);
        assert_eq!(s, Supervisor::new());
        assert_eq!(s.latest(), None);
        assert_eq!(s.begin(), Step::Launch);
    }
}

#[test]
fn launch_errors_have_their_messages() {
    assert_eq!(
        launch_error_message(&LaunchOutcome::ExePathUnknown { detail: "denied".to_string() }),
        Some("Cannot get exe path: denied".to_string())
    );
    assert_eq!(
        launch_error_message(&LaunchOutcome::ExeDirUnknown),
        Some("Cannot get exe directory".to_string())
    );
    assert_eq!(
        launch_error_message(&LaunchOutcome::BinaryMissing { path: "\"hw.exe\"".to_string() }),
        Some("LHM CLI not found at \"hw.exe\"".to_string())
    );
    assert_eq!(
        launch_error_message(&LaunchOutcome::SpawnFailed { detail: "boom".to_string() }),
        Some("Failed to start LHM daemon: boom".to_string())
    );
    assert_eq!(
        launch_error_message(&LaunchOutcome::StdoutMissing),
        Some("Failed to capture LHM daemon stdout".to_string())
    );
    assert_eq!(launch_error_message(&LaunchOutcome::Started), None);
}

#[test]
fn running_helper_is_drained() {
    let mut s = running_with(Some(payload(1_000)));
    assert_eq!(s.liveness(Liveness::Running), Step::Drain);
    assert_eq!(s, running_with(Some(payload(1_000))));
}

#[test]
fn exited_helper_is_dropped_with_its_cache() {
    for status in [Liveness::Exited, Liveness::Unknown] {
        let mut s = running_with(Some(payload(1_000)));
        assert_eq!(s.liveness(status), Step::Done);
        assert_eq!(s, Supervisor::new());
        assert_eq!(s.latest(), None);
        assert_eq!(s.begin(), Step::Launch);
    }
}

#[test]
fn liveness_without_helper_ends_the_poll() {
    let mut s = Supervisor::new();
    assert_eq!(s.liveness(Liveness::Running), Step::Done);
    assert_eq!(s, Supervisor::new());
}

#[test]
fn newest_line_wins() {
    assert_eq!(newest_line(&lines(&["{\"a\":1}\n", "{\"a\":2}\n", "{\"a\":3}\n"])), Some("{\"a\":3}".to_string()));
    assert_eq!(newest_line(&lines(&["{\"a\":1}\n", "\n", "   \r\n"])), Some("{\"a\":1}".to_string()));
    assert_eq!(newest_line(&lines(&["  x  "])), Some("x".to_string()));
    assert_eq!(newest_line(&lines(&[])), None);
    assert_eq!(newest_line(&lines(&["\n", "", " \t "])), None);
}

#[test]
fn drain_hands_the_newest_line_to_the_parser() {
    let s = running_with(None);
    assert_eq!(s.drained(&lines(&["old\n", "new\n", "\n"])), Step::Parse("new".to_string()));
}

#[test]
fn drain_without_output_keeps_the_cached_payload() {
    let s = running_with(Some(payload(7_000)));
    assert_eq!(s.drained(&lines(&[])), Step::Done);
    assert_eq!(s.latest(), Some(&payload(7_000)));
    assert_eq!(s.drained(&lines(&["\r\n", "  "])), Step::Done);
    assert_eq!(s.latest(), Some(&payload(7_000)));
    assert_eq!(s, running_with(Some(payload(7_000))));
}

#[test]
fn drain_without_helper_asks_for_nothing() {
    let s = Supervisor::new();
    assert_eq!(s.drained(&lines(&["{\"a\":1}"])), Step::Done);
}

#[test]
fn parsed_payload_replaces_the_cache() {
    let mut s = running_with(Some(payload(1_000)));
    assert_eq!(s.parsed(Some(payload(2_000))), Step::Done);
    assert_eq!(s.latest(), Some(&payload(2_000)));
}

#[test]
fn malformed_line_keeps_the_cache() {
    let mut s = running_with(Some(payload(1_000)));
    assert_eq!(s.parsed(None), Step::Done);
    assert_eq!(s.latest(), Some(&payload(1_000)));
    let mut empty = running_with(None);
    assert_eq!(empty.parsed(None), Step::Done);
    assert_eq!(empty.latest(), None);
}

#[test]
fn parsed_payload_without_helper_is_not_cached() {
    let mut s = Supervisor::new();
    assert_eq!(s.parsed(Some(payload(1_000))), Step::Done);
    assert_eq!(s, Supervisor::new());
    assert_eq!(s.latest(), None);
}

#[test]
fn a_whole_poll_delivers_the_fresh_payload() {
    let mut s = Supervisor::new();
    assert_eq!(s.begin(), Step::Launch);
    assert_eq!(s.launched(&LaunchOutcome::Started), Step::CheckLiveness);
    assert_eq!(s.liveness(Liveness::Running), Step::Drain);
    let step = s.drained(&lines(&["first\n", "second\n"]));
    assert_eq!(step, Step::Parse("second".to_string()));
    assert_eq!(s.parsed(Some(payload(3_000))), Step::Done);
    assert_eq!(s.latest(), Some(&payload(3_000)));
    assert_eq!(s.begin(), Step::CheckLiveness);
    assert_eq!(s.liveness(Liveness::Running), Step::Drain);
    assert_eq!(s.drained(&lines(&[])), Step::Done);
    assert_eq!(s.latest(), Some(&payload(3_000)));
}

#[test]
fn shutdown_twice_is_safe() {
    let mut s = running_with(Some(payload(1_000)));
    assert!(s.shutdown());
    assert_eq!(s, Supervisor::new());
    assert!(!s.shutdown());
    assert_eq!(s, Supervisor::new());
}

#[test]
fn shutdown_without_process_is_safe() {
    let mut s = Supervisor::new();
    assert!(!shutdown_lhm_daemon(&mut s));
    assert!(!shutdown_lhm_daemon(&mut s));
    assert_eq!(s, Supervisor::new());
    let mut t = running_with(None);
    assert!(shutdown_lhm_daemon(&mut t));
    assert!(!shutdown_lhm_daemon(&mut t));
    assert_eq!(t.begin(), Step::Launch);
}
