use led_link::monitor::{after_connect, probe, Monitor, Probe};
use led_link::target::{is_target_name, ESP_BLE_NAME};

fn named(s: &str) -> Option<String> {
    Some(s.to_string())
}

#[test]
fn exact_name_matches() {
    assert!(is_target_name(&named("esp-bluedroid LED Example")));
    assert_eq!(ESP_BLE_NAME, "esp-bluedroid LED Example");
}

#[test]
fn other_case_does_not_match() {
    assert!(!is_target_name(&named("ESP-Bluedroid LED Example")));
}

#[test]
fn trailing_space_does_not_match() {
    assert!(!is_target_name(&named("esp-bluedroid LED Example ")));
}

#[test]
fn unnamed_peripheral_never_matches() {
    assert!(!is_target_name(&None));
    assert!(!is_target_name(&named("(peripheral name unknown)")));
    assert!(!is_target_name(&named("")));
}

#[test]
fn probe_decisions() {
    assert_eq!(probe(&named("esp-bluedroid LED Example"), false), Probe::Connect);
    assert_eq!(probe(&named("esp-bluedroid LED Example"), true), Probe::Adopt);
    assert_eq!(probe(&named("other"), true), Probe::Skip);
    assert_eq!(probe(&None, false), Probe::Skip);
    assert_eq!(after_connect(true), Probe::Adopt);
    assert_eq!(after_connect(false), Probe::Skip);
}

#[test]
fn new_monitor_is_unbound() {
    let m: Monitor<u32> = Monitor::new();
    assert!(!m.is_bound());
    assert!(!m.is_scanning());
    assert_eq!(m.bound(), None);
}

#[test]
fn connect_bind_then_lose() {
    // Unbound; the scan finds the target, not connected; connecting works.
    let mut m: Monitor<u32> = Monitor::new();
    m.begin_scan();
    assert!(m.is_scanning());
    assert_eq!(probe(&named("esp-bluedroid LED Example"), false), Probe::Connect);
    assert_eq!(after_connect(true), Probe::Adopt);
    assert_eq!(m.adopt(7, true), Some(true));
    assert_eq!(m.finish_scan(), None);
    assert!(m.is_bound());
    assert_eq!(m.bound(), Some(&7));
    // Next cycle: still connected.
    assert!(m.check_liveness(true));
    assert_eq!(m.bound(), Some(&7));
    // Next cycle: disconnected.
    assert!(!m.check_liveness(false));
    assert!(!m.is_bound());
    assert_eq!(m.bound(), None);
    assert!(!m.is_scanning());
}

#[test]
fn repeated_connected_cycles_emit_true() {
    let mut m: Monitor<u32> = Monitor::new();
    m.begin_scan();
    assert_eq!(m.adopt(1, true), Some(true));
    assert_eq!(m.finish_scan(), None);
    for _ in 0..5 {
        assert!(m.check_liveness(true));
        assert_eq!(m.bound(), Some(&1));
    }
}

#[test]
fn unmatched_scans_emit_false_every_cycle() {
    let mut m: Monitor<u32> = Monitor::new();
    for _ in 0..4 {
        m.begin_scan();
        assert_eq!(probe(&named("some other device"), true), Probe::Skip);
        assert_eq!(probe(&None, false), Probe::Skip);
        assert_eq!(m.finish_scan(), Some(false));
        assert!(!m.is_bound());
    }
}

#[test]
fn failed_connect_skips_without_event() {
    let mut m: Monitor<u32> = Monitor::new();
    m.begin_scan();
    assert_eq!(after_connect(false), Probe::Skip);
    m.connect_failed();
    // The target was seen, so the scan emits nothing and binds nothing.
    assert_eq!(m.finish_scan(), None);
    assert!(!m.is_bound());
}

#[test]
fn adopted_but_not_connected_binds_silently() {
    let mut m: Monitor<u32> = Monitor::new();
    m.begin_scan();
    assert_eq!(m.adopt(3, false), None);
    assert_eq!(m.finish_scan(), None);
    assert_eq!(m.bound(), Some(&3));
    // The next liveness check clears it.
    assert!(!m.check_liveness(false));
    assert!(!m.is_bound());
}

#[test]
fn later_match_replaces_earlier_in_slot() {
    let mut m: Monitor<u32> = Monitor::new();
    m.begin_scan();
    assert_eq!(m.adopt(1, true), Some(true));
    m.connect_failed();
    assert_eq!(m.adopt(2, true), Some(true));
    assert_eq!(m.finish_scan(), None);
    assert_eq!(m.bound(), Some(&2));
}
