use std::time::Duration;

use proofsheet::device::builtin;
use proofsheet::progress::{bar, Collector, DeviceEvent, Outcome, Progress, Silent, Summary, Tally};

#[test]
fn empty_run_is_not_a_success() {
    assert!(!Summary::default().ok());
}

#[test]
fn clean_run_is_a_success() {
    let s = Summary { exact: 3, ..Default::default() };
    assert!(s.ok());
    assert_eq!(s.total(), 3);
}

#[test]
fn any_problem_fails_the_run() {
    assert!(!Summary { exact: 5, off_size: 1, failed: 0 }.ok());
    assert!(!Summary { exact: 5, off_size: 0, failed: 1 }.ok());
}

#[test]
fn bar_endpoints_are_exact() {
    assert_eq!(bar(0, 10, 10), "..........");
    assert_eq!(bar(10, 10, 10), "##########");
    assert_eq!(bar(5, 10, 10), "#####.....");
}

#[test]
fn bar_never_overflows_its_width() {
    for cur in 0..30 {
        assert_eq!(bar(cur, 10, 8).chars().count(), 8);
    }
    assert_eq!(bar(99, 10, 8), "########");
}

#[test]
fn bar_handles_degenerate_input() {
    assert_eq!(bar(1, 0, 10), "");
    assert_eq!(bar(1, 10, 0), "");
}

#[test]
fn bar_rounds_down() {
    assert_eq!(bar(1, 3, 10), "###.......");
    assert_eq!(bar(2, 3, 10), "######....");
}

#[test]
fn outcome_badness() {
    assert!(!Outcome::Exact.is_bad());
    assert!(Outcome::OffSize.is_bad());
    assert!(Outcome::Failed.is_bad());
}

#[test]
fn outcome_names() {
    assert_eq!(Outcome::Exact.as_str(), "exact");
    assert_eq!(Outcome::OffSize.as_str(), "off-size");
    assert_eq!(Outcome::Failed.as_str(), "failed");
}

#[test]
fn collector_records_every_device() {
    let d = builtin().into_iter().next().unwrap();
    let mut c = Collector::default();
    for outcome in [Outcome::Exact, Outcome::Failed] {
        c.device_finished(&DeviceEvent {
            index: 1,
            total: 2,
            device: &d,
            outcome,
            capture: None,
            elapsed: Duration::from_millis(5),
            elapsed_ms: 5,
            error: None,
        });
    }
    assert_eq!(c.summary.total(), 2);
    assert_eq!(c.summary.failed, 1);
    assert_eq!(c.events.len(), 2);
    assert!(!c.summary.ok());
    assert_eq!(c.events[0].0, d.id);
    assert_eq!(c.events[1].1, Outcome::Failed);
    assert_eq!(c.events[0].2, 5);
}

#[test]
fn tally_counts_without_keeping_events() {
    let d = builtin().into_iter().next().unwrap();
    let mut t = Tally::default();
    let mut s = Silent;
    for outcome in [Outcome::Exact, Outcome::OffSize, Outcome::Exact] {
        let e = DeviceEvent {
            index: 1,
            total: 3,
            device: &d,
            outcome,
            capture: None,
            elapsed: Duration::from_millis(1),
            elapsed_ms: 1,
            error: None,
        };
        t.device_finished(&e);
        s.device_finished(&e);
    }
    assert_eq!(t.0, Summary { exact: 2, off_size: 1, failed: 0 });
    assert!(!t.0.ok());
}

#[test]
fn recording_counts_each_outcome() {
    let mut s = Summary::default();
    s.record(Outcome::Exact);
    s.record(Outcome::OffSize);
    s.record(Outcome::Failed);
    s.record(Outcome::Failed);
    assert_eq!(s, Summary { exact: 1, off_size: 1, failed: 2 });
    assert_eq!(s.total(), 4);
}
