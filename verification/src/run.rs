//! Driving a whole capture matrix.
//!
//! The bookkeeping of a run lives here as a state machine: the caller
//! captures each device (launching a browser, writing the PNG) and hands the
//! attempt to [`RunState::record`], which decides what the run has produced
//! so far and whether it goes on. The command line and both language
//! bindings drive the same machine.

use vstd::prelude::*;
use crate::capture::Capture;
use crate::progress::{Outcome, Summary, summary_ok, recorded};
use crate::text::owned;

verus! {

/// The text of an outcome, as reports carry it.
pub open spec fn outcome_text(o: Outcome) -> Seq<char> {
    match o {
        Outcome::Exact => "exact"@,
        Outcome::OffSize => "off-size"@,
        Outcome::Failed => "failed"@,
    }
}

/// The outcome of one device's attempt: a capture at the required size is
/// exact, any other capture is off-size, and an error is a failure.
pub open spec fn attempt_outcome(attempt: Result<(Capture, String), String>) -> Outcome {
    match attempt {
        Ok((c, _)) => if c.exact {
            Outcome::Exact
        } else {
            Outcome::OffSize
        },
        Err(_) => Outcome::Failed,
    }
}

/// The tally of a sequence of outcomes, one device after another.
pub open spec fn tally(h: Seq<Outcome>) -> Summary
    decreases h.len(),
{
    if h.len() == 0 {
        Summary { exact: 0, off_size: 0, failed: 0 }
    } else {
        recorded(tally(h.drop_last()), h.last())
    }
}

/// One device's result, including the failure case.
#[derive(Debug)]
pub struct DeviceResult {
    pub device_id: String,
    pub outcome: String,
    pub elapsed_ms: u128,
    /// Present unless the capture failed outright.
    pub capture: Option<Capture>,
    /// Present only when the capture failed.
    pub error: Option<String>,
    /// Where the PNG was written.
    pub path: Option<String>,
}

/// Whether `r` reports `attempt` for device `id`, taking `elapsed_ms`.
pub open spec fn reports(
    r: DeviceResult,
    id: Seq<char>,
    attempt: Result<(Capture, String), String>,
    elapsed_ms: u128,
) -> bool {
    &&& r.device_id@ == id
    &&& r.outcome@ == outcome_text(attempt_outcome(attempt))
    &&& r.elapsed_ms == elapsed_ms
    &&& match attempt {
        Ok((c, p)) => r.capture == Some(c) && r.error is None && (r.path matches Some(q) && q@
            == p@),
        Err(e) => r.capture is None && (r.error matches Some(m) && m@ == e@) && r.path is None,
    }
}

/// The manifest a run produces.
#[derive(Debug)]
pub struct RunReport {
    /// Version of the library that produced this.
    pub proofsheet: String,
    pub url: String,
    pub seed: u64,
    pub locale: String,
    pub exact: usize,
    pub off_size: usize,
    pub failed: usize,
    pub elapsed_ms: u128,
    /// True only when at least one capture happened and none went wrong.
    pub ok: bool,
    pub results: Vec<DeviceResult>,
}

/// A run in progress: what each device so far produced, the tally, and
/// whether the run has stopped.
pub struct RunState {
    summary: Summary,
    results: Vec<DeviceResult>,
    outcomes: Ghost<Seq<Outcome>>,
    fail_fast: bool,
    stopped: bool,
}

impl RunState {
    /// The outcomes so far, one per device, in order.
    pub closed spec fn history(&self) -> Seq<Outcome> {
        self.outcomes@
    }

    /// The results so far.
    pub closed spec fn results(&self) -> Seq<DeviceResult> {
        self.results@
    }

    /// Whether the run stops at its first problem.
    pub closed spec fn stops_early(&self) -> bool {
        self.fail_fast
    }

    /// Whether the run has stopped: no further device may be recorded.
    pub closed spec fn is_stopped(&self) -> bool {
        self.stopped
    }

    /// The internal consistency of a run: one result and one outcome per
    /// device, a tally that counts exactly those outcomes, and a run that
    /// stops exactly when it stops early and its last device went wrong
    /// (so with `fail_fast` every earlier device was exact).
    pub closed spec fn wf(&self) -> bool {
        &&& self.outcomes@.len() == self.results@.len()
        &&& forall|i: int|
            0 <= i < self.results@.len() ==> (#[trigger] self.results@[i]).outcome@
                == outcome_text(self.outcomes@[i])
        &&& self.summary == tally(self.outcomes@)
        &&& self.summary.exact + self.summary.off_size + self.summary.failed
            == self.outcomes@.len()
        &&& self.stopped == (self.fail_fast && self.outcomes@.len() > 0 && self.outcomes@.last()
            != Outcome::Exact)
        &&& self.fail_fast ==> forall|i: int|
            0 <= i < self.outcomes@.len() - 1 ==> #[trigger] self.outcomes@[i] == Outcome::Exact
    }

    /// A run that has recorded nothing yet.
    pub fn new(fail_fast: bool) -> (s: RunState)
        ensures
            s.wf(),
            s.history().len() == 0,
            s.results().len() == 0,
            s.stops_early() == fail_fast,
            !s.is_stopped(),
    {
        RunState {
            summary: Summary::default(),
            results: Vec::new(),
            outcomes: Ghost(Seq::empty()),
            fail_fast,
            stopped: false,
        }
    }

    /// Record what device `device_id` produced, taking `elapsed_ms`, and
    /// return its outcome. A run that stops early stops after the first
    /// device whose outcome is not exact; otherwise every device is
    /// recorded, whatever happened to the ones before it.
    pub fn record(
        &mut self,
        device_id: &str,
        attempt: Result<(Capture, String), String>,
        elapsed_ms: u128,
    ) -> (o: Outcome)
        requires
            old(self).wf(),
            !old(self).is_stopped(),
        ensures
            final(self).wf(),
            o == attempt_outcome(attempt),
            final(self).history() == old(self).history().push(o),
            final(self).results().len() == old(self).results().len() + 1,
            forall|i: int|
                0 <= i < old(self).results().len() ==> final(self).results()[i] == old(
                    self,
                ).results()[i],
            reports(final(self).results().last(), device_id@, attempt, elapsed_ms),
            final(self).stops_early() == old(self).stops_early(),
            final(self).is_stopped() == (old(self).stops_early() && o != Outcome::Exact),
    {
        let ghost before = self.outcomes@;
        let o = match &attempt {
            Ok((c, _)) => if c.exact {
                Outcome::Exact
            } else {
                Outcome::OffSize
            },
            Err(_) => Outcome::Failed,
        };
        let r = match attempt {
            Ok((c, p)) => DeviceResult {
                device_id: owned(device_id),
                outcome: owned(o.as_str()),
                elapsed_ms,
                capture: Some(c),
                error: None,
                path: Some(p),
            },
            Err(e) => DeviceResult {
                device_id: owned(device_id),
                outcome: owned(o.as_str()),
                elapsed_ms,
                capture: None,
                error: Some(e),
                path: None,
            },
        };
        let n = self.results.len();
        self.results.push(r);
        // The count of results fits a usize, so no tally wraps.
        let _len = self.results.len();
        self.summary.record(o);
        self.outcomes = Ghost(before.push(o));
        assert(self.outcomes@.drop_last() =~= before);
        self.stopped = self.fail_fast && o.is_bad();
        assert(self.fail_fast ==> forall|i: int|
            0 <= i < self.outcomes@.len() - 1 ==> #[trigger] self.outcomes@[i] == Outcome::Exact)
            by {
            if self.fail_fast {
                assert forall|i: int| 0 <= i < self.outcomes@.len() - 1 implies #[trigger]
                    self.outcomes@[i] == Outcome::Exact by {
                    assert(self.outcomes@[i] == before[i]);
                    if i < before.len() - 1 {
                        assert(before[i] == Outcome::Exact);
                    }
                }
            }
        }
        assert(forall|i: int|
            0 <= i < self.results@.len() ==> (#[trigger] self.results@[i]).outcome@
                == outcome_text(self.outcomes@[i])) by {
            assert forall|i: int| 0 <= i < self.results@.len() implies (
            #[trigger] self.results@[i]).outcome@ == outcome_text(self.outcomes@[i]) by {
                if i < n {
                    assert(self.outcomes@[i] == before[i]);
                }
            }
        }
        o
    }

    /// Whether the next device should be attempted.
    pub fn go_on(&self) -> (r: bool)
        ensures
            r == !self.is_stopped(),
    {
        !self.stopped
    }

    /// The tally so far.
    pub fn summary(&self) -> (s: Summary)
        requires
            self.wf(),
        ensures
            s == tally(self.history()),
            s.exact + s.off_size + s.failed == self.history().len(),
    {
        self.summary
    }

    /// The result of the device recorded last.
    pub fn last(&self) -> (r: Option<&DeviceResult>)
        ensures
            match r {
                Some(d) => self.results().len() > 0 && *d == self.results().last(),
                None => self.results().len() == 0,
            },
    {
        if self.results.len() > 0 {
            Some(&self.results[self.results.len() - 1])
        } else {
            None
        }
    }

    /// The manifest of the finished run.
    pub fn finish(self, url: String, seed: u64, locale: String, elapsed_ms: u128) -> (r:
        RunReport)
        requires
            self.wf(),
        ensures
            r.proofsheet@ == crate::VERSION@,
            r.url == url,
            r.seed == seed,
            r.locale == locale,
            r.elapsed_ms == elapsed_ms,
            r.results@ == self.results(),
            (Summary { exact: r.exact, off_size: r.off_size, failed: r.failed }) == tally(
                self.history(),
            ),
            r.ok == summary_ok(tally(self.history())),
            r.exact == count_of(self.history(), Outcome::Exact),
            r.off_size == count_of(self.history(), Outcome::OffSize),
            r.failed == count_of(self.history(), Outcome::Failed),
            r.results@.len() == self.history().len(),
            forall|i: int|
                0 <= i < r.results@.len() ==> (#[trigger] r.results@[i]).outcome@ == outcome_text(
                    self.history()[i],
                ),
            r.ok == (self.history().len() > 0 && forall|i: int|
                0 <= i < self.history().len() ==> #[trigger] self.history()[i] == Outcome::Exact),
    {
        // The count of results fits a usize, so the tally's total does too.
        let _len = self.results.len();
        proof {
            lemma_tally_ok(self.outcomes@);
            lemma_tally_is_count(self.outcomes@);
        }
        let ok = self.summary.ok();
        RunReport {
            proofsheet: owned(crate::VERSION),
            url,
            seed,
            locale,
            exact: self.summary.exact,
            off_size: self.summary.off_size,
            failed: self.summary.failed,
            elapsed_ms,
            ok,
            results: self.results,
        }
    }
}

/// How many of the outcomes `h` are `o`.
pub open spec fn count_of(h: Seq<Outcome>, o: Outcome) -> nat {
    h.filter(|x: Outcome| x == o).len()
}

/// The tally counts each outcome as often as it occurs.
pub proof fn lemma_tally_is_count(h: Seq<Outcome>)
    requires
        h.len() <= usize::MAX,
    ensures
        tally(h).exact == count_of(h, Outcome::Exact),
        tally(h).off_size == count_of(h, Outcome::OffSize),
        tally(h).failed == count_of(h, Outcome::Failed),
    decreases h.len(),
{
    reveal_with_fuel(Seq::<_>::filter, 1);
    if h.len() > 0 {
        lemma_tally_is_count(h.drop_last());
        lemma_tally_counts(h.drop_last());
        assert(h.drop_last().filter(|x: Outcome| x == Outcome::Exact).len() <= h.drop_last().len())
            by {
            h.drop_last().lemma_filter_len(|x: Outcome| x == Outcome::Exact);
        }
    }
}

proof fn lemma_tally_counts(h: Seq<Outcome>)
    requires
        h.len() <= usize::MAX,
    ensures
        tally(h).exact + tally(h).off_size + tally(h).failed == h.len(),
        tally(h).exact == h.len() <==> forall|i: int| 0 <= i < h.len() ==> #[trigger] h[i]
            == Outcome::Exact,
    decreases h.len(),
{
    if h.len() > 0 {
        lemma_tally_counts(h.drop_last());
        let t = tally(h.drop_last());
        if tally(h).exact == h.len() {
            assert forall|i: int| 0 <= i < h.len() implies #[trigger] h[i] == Outcome::Exact by {
                if i < h.len() - 1 {
                    assert(h[i] == h.drop_last()[i]);
                }
            }
        }
        if forall|i: int| 0 <= i < h.len() ==> #[trigger] h[i] == Outcome::Exact {
            assert forall|i: int| 0 <= i < h.drop_last().len() implies #[trigger] h.drop_last()[i]
                == Outcome::Exact by {
                assert(h.drop_last()[i] == h[i]);
            }
            assert(h[h.len() - 1] == Outcome::Exact);
        }
    }
}

/// A run is a success exactly when it recorded at least one device and
/// every device it recorded was captured at the required size: an empty
/// run is not a success, nor is one with any off-size or failed device.
pub proof fn lemma_tally_ok(h: Seq<Outcome>)
    requires
        h.len() <= usize::MAX,
    ensures
        summary_ok(tally(h)) == (h.len() > 0 && forall|i: int|
            0 <= i < h.len() ==> #[trigger] h[i] == Outcome::Exact),
{
    lemma_tally_counts(h);
}

/// With `fail_fast`, every device but the last one recorded was exact, and
/// the run stops exactly when the last one was not.
pub proof fn lemma_fail_fast_stops_at_first_problem(s: RunState)
    requires
        s.wf(),
        s.stops_early(),
    ensures
        forall|i: int| 0 <= i < s.history().len() - 1 ==> #[trigger] s.history()[i]
            == Outcome::Exact,
        s.is_stopped() == (s.history().len() > 0 && s.history().last() != Outcome::Exact),
{
}

/// Without `fail_fast` a run never stops: every device is recorded, and
/// the tally counts every one of them.
pub proof fn lemma_every_device_is_reported(s: RunState)
    requires
        s.wf(),
        !s.stops_early(),
    ensures
        !s.is_stopped(),
        s.results().len() == s.history().len(),
        tally(s.history()).exact + tally(s.history()).off_size + tally(s.history()).failed
            == s.history().len(),
{
}

} // verus!
