use proofsheet::capture::Capture;
use proofsheet::progress::Outcome;
use proofsheet::run::RunState;
use proofsheet::VERSION;

fn capture(exact: bool) -> Capture {
    Capture {
        device_id: "d".to_string(),
        expected: (10, 10),
        actual: if exact { (10, 10) } else { (10, 9) },
        sha256: "00".to_string(),
        bytes: 24,
        exact,
        environment: None,
    }
}

#[test]
fn run_state_reports_every_failed_device() {
    let mut s = RunState::new(false);
    for id in ["a", "b", "c"] {
        assert!(s.go_on());
        let o = s.record(id, Err("browser: could not spawn".to_string()), 7);
        assert_eq!(o, Outcome::Failed);
        let last = s.last().unwrap();
        assert_eq!(last.device_id, id);
        assert_eq!(last.error.as_deref(), Some("browser: could not spawn"));
    }
    assert!(s.go_on());
    assert_eq!(s.summary().failed, 3);
    let report = s.finish("about:blank".to_string(), 42, "en-US".to_string(), 99);
    assert_eq!(report.results.len(), 3);
    assert_eq!(report.failed, 3);
    assert!(!report.ok);
    for r in &report.results {
        assert_eq!(r.outcome, "failed");
        assert!(r.error.is_some(), "a failure must carry its reason");
        assert!(r.capture.is_none());
        assert!(r.path.is_none());
    }
}

#[test]
fn run_state_with_fail_fast_stops_at_the_first_problem() {
    let mut s = RunState::new(true);
    assert_eq!(s.record("a", Ok((capture(true), "/out/a.png".to_string())), 1), Outcome::Exact);
    assert!(s.go_on());
    assert_eq!(s.record("b", Ok((capture(false), "/out/b.png".to_string())), 1), Outcome::OffSize);
    assert!(!s.go_on(), "should have stopped after the off-size capture");
    let report = s.finish("u".to_string(), 1, "en-US".to_string(), 2);
    assert_eq!(report.results.len(), 2);
    assert_eq!((report.exact, report.off_size, report.failed), (1, 1, 0));
    assert!(!report.ok);
    assert_eq!(report.results[1].outcome, "off-size");
    assert_eq!(report.results[1].path.as_deref(), Some("/out/b.png"));
}

#[test]
fn run_state_that_recorded_nothing_is_not_a_success() {
    let s = RunState::new(false);
    assert!(s.last().is_none());
    let report = s.finish("u".to_string(), 42, "en-US".to_string(), 0);
    assert_eq!(report.results.len(), 0);
    assert!(!report.ok, "a run that captured nothing reported ok; that is the empty-green bug");
}

#[test]
fn run_state_all_exact_is_a_success() {
    let mut s = RunState::new(true);
    s.record("a", Ok((capture(true), "/o/a.png".to_string())), 3);
    s.record("b", Ok((capture(true), "/o/b.png".to_string())), 4);
    assert!(s.go_on());
    let report = s.finish("https://example.com".to_string(), 7, "de-DE".to_string(), 11);
    assert!(report.ok);
    assert_eq!(report.exact, 2);
    assert_eq!(report.proofsheet, VERSION);
    assert_eq!(report.url, "https://example.com");
    assert_eq!(report.seed, 7);
    assert_eq!(report.locale, "de-DE");
    assert_eq!(report.elapsed_ms, 11);
    assert_eq!(report.results[0].elapsed_ms, 3);
    assert_eq!(report.results[1].capture.as_ref().unwrap().actual, (10, 10));
}

#[test]
fn a_report_counts_each_outcome() {
    let mut s = RunState::new(false);
    s.record("a", Ok((capture(true), "/o/a.png".to_string())), 1);
    s.record("b", Err("boom".to_string()), 1);
    s.record("c", Ok((capture(false), "/o/c.png".to_string())), 1);
    s.record("d", Err("bang".to_string()), 1);
    let r = s.finish("u".to_string(), 1, "en-US".to_string(), 4);
    assert_eq!((r.exact, r.off_size, r.failed), (1, 1, 2));
    let outcomes: Vec<&str> = r.results.iter().map(|d| d.outcome.as_str()).collect();
    assert_eq!(outcomes, vec!["exact", "failed", "off-size", "failed"]);
}
