//! Progress reporting. The core emits events and the caller decides how to
//! render them; the core itself never prints.

use vstd::prelude::*;
use std::time::Duration;
use crate::capture::Capture;
use crate::device::Device;

verus! {

/// What happened to one device.
#[derive(Debug, Clone, Copy, PartialEq, Eq, Structural)]
pub enum Outcome {
    /// Captured at exactly the required size.
    Exact,
    /// Captured, but the pixels do not match the requirement.
    OffSize,
    /// Did not capture at all.
    Failed,
}

impl Outcome {
    /// The outcome's name in reports.
    pub fn as_str(self) -> (r: &'static str)
        ensures
            r@ == (match self {
                Outcome::Exact => "exact"@,
                Outcome::OffSize => "off-size"@,
                Outcome::Failed => "failed"@,
            }),
    {
        match self {
            Outcome::Exact => "exact",
            Outcome::OffSize => "off-size",
            Outcome::Failed => "failed",
        }
    }

    /// Whether this outcome should make the overall run fail.
    pub fn is_bad(self) -> (r: bool)
        ensures
            r == (self != Outcome::Exact),
    {
        !matches!(self, Outcome::Exact)
    }
}

/// `n + 1`, wrapping to 0 past the largest `usize` as an unchecked `+= 1`
/// does in a release build.
pub open spec fn bump(n: usize) -> usize {
    if n < usize::MAX {
        (n + 1) as usize
    } else {
        0
    }
}

/// A tally of a finished run.
#[derive(Debug, Clone, Copy, PartialEq, Eq, Structural)]
pub struct Summary {
    pub exact: usize,
    pub off_size: usize,
    pub failed: usize,
}

impl Default for Summary {
    fn default() -> (s: Summary)
        ensures
            s == (Summary { exact: 0, off_size: 0, failed: 0 }),
    {
        Summary { exact: 0, off_size: 0, failed: 0 }
    }
}

/// Whether a run succeeded: something happened and nothing went wrong.
pub open spec fn summary_ok(s: Summary) -> bool {
    s.exact + s.off_size + s.failed > 0 && s.off_size == 0 && s.failed == 0
}

/// The tally after one more device with outcome `o`.
pub open spec fn recorded(s: Summary, o: Outcome) -> Summary {
    match o {
        Outcome::Exact => Summary { exact: bump(s.exact), ..s },
        Outcome::OffSize => Summary { off_size: bump(s.off_size), ..s },
        Outcome::Failed => Summary { failed: bump(s.failed), ..s },
    }
}

impl Summary {
    /// How many devices the tally counts.
    pub fn total(&self) -> (r: usize)
        requires
            self.exact + self.off_size + self.failed <= usize::MAX,
        ensures
            r == self.exact + self.off_size + self.failed,
    {
        self.exact + self.off_size + self.failed
    }

    /// A run is successful only if something happened and nothing went
    /// wrong. A run that captured nothing has an empty problem list and is
    /// still not a success.
    pub fn ok(&self) -> (r: bool)
        requires
            self.exact + self.off_size + self.failed <= usize::MAX,
        ensures
            r == summary_ok(*self),
    {
        self.total() > 0 && self.off_size == 0 && self.failed == 0
    }

    /// Count one more device.
    pub fn record(&mut self, o: Outcome)
        ensures
            *final(self) == recorded(*old(self), o),
    {
        match o {
            Outcome::Exact => self.exact = self.exact.wrapping_add(1),
            Outcome::OffSize => self.off_size = self.off_size.wrapping_add(1),
            Outcome::Failed => self.failed = self.failed.wrapping_add(1),
        }
    }
}

/// The empty tally is not a success, and a tally that records a problem is
/// not a success whatever else it holds.
pub proof fn lemma_empty_or_troubled_run_is_not_ok(s: Summary)
    ensures
        s.exact + s.off_size + s.failed == 0 ==> !summary_ok(s),
        s.off_size > 0 || s.failed > 0 ==> !summary_ok(s),
{
}

/// Everything known about one finished device.
#[derive(Debug, Clone, Copy)]
pub struct DeviceEvent<'a> {
    /// 1-based position in the run.
    pub index: usize,
    pub total: usize,
    pub device: &'a Device,
    pub outcome: Outcome,
    /// Present unless the capture failed outright.
    pub capture: Option<&'a Capture>,
    pub elapsed: Duration,
    /// The same time, in whole milliseconds.
    pub elapsed_ms: u128,
    /// Present only on failure.
    pub error: Option<&'a str>,
}

/// Events emitted as a run proceeds. Every method has a default no-op body
/// so an implementor can observe only what it cares about.
pub trait Progress {
    /// Called once, before any device is touched.
    fn run_started(&mut self, _total: usize, _url: &str) {
    }

    /// Called before each device, with a 1-based index.
    fn device_started(&mut self, _index: usize, _total: usize, _device: &Device) {
    }

    /// Called after each device, successful or not.
    fn device_finished(&mut self, _event: &DeviceEvent<'_>) {
    }

    /// Called once, after every device.
    fn run_finished(&mut self, _summary: Summary, _elapsed: Duration) {
    }
}

/// Discards everything.
#[derive(Debug, Default, Clone, Copy)]
pub struct Silent;

impl Progress for Silent {

}

/// Collects outcomes in memory.
#[derive(Debug, Clone)]
pub struct Collector {
    pub summary: Summary,
    pub events: Vec<(String, Outcome, u128)>,
}

impl Default for Collector {
    fn default() -> (c: Collector)
        ensures
            c.summary == (Summary { exact: 0, off_size: 0, failed: 0 }),
            c.events@.len() == 0,
    {
        Collector { summary: Summary::default(), events: Vec::new() }
    }
}

impl Progress for Collector {
    fn device_finished(&mut self, e: &DeviceEvent<'_>)
        ensures
            final(self).summary == recorded(old(self).summary, e.outcome),
            final(self).events@.len() == old(self).events@.len() + 1,
            forall|i: int|
                0 <= i < old(self).events@.len() ==> final(self).events@[i] == old(self).events@[i],
            final(self).events@.last().0@ == e.device.id@,
            final(self).events@.last().1 == e.outcome,
            final(self).events@.last().2 == e.elapsed_ms,
    {
        self.summary.record(e.outcome);
        let id = e.device.id.clone();
        self.events.push((id, e.outcome, e.elapsed_ms));
    }
}

/// Tally outcomes without holding onto them.
#[derive(Debug, Clone, Copy)]
pub struct Tally(pub Summary);

impl Default for Tally {
    fn default() -> (t: Tally)
        ensures
            t.0 == (Summary { exact: 0, off_size: 0, failed: 0 }),
    {
        Tally(Summary::default())
    }
}

impl Progress for Tally {
    fn device_finished(&mut self, e: &DeviceEvent<'_>)
        ensures
            final(self).0 == recorded(old(self).0, e.outcome),
    {
        self.0.record(e.outcome);
    }
}

/// The text of a `current/total` bar `width` characters wide.
pub open spec fn bar_spec(current: nat, total: nat, width: nat) -> Seq<char> {
    if total == 0 || width == 0 {
        Seq::empty()
    } else {
        let filled = ((if current < total {
            current
        } else {
            total
        }) * width) / total;
        Seq::new(width, |i: int| if i < filled { '#' } else { '.' })
    }
}

/// Render a `current/total` bar of the given width.
pub fn bar(current: usize, total: usize, width: usize) -> (s: String)
    requires
        (if current < total { current } else { total }) * width <= usize::MAX,
    ensures
        s@ == bar_spec(current as nat, total as nat, width as nat),
{
    if total == 0 || width == 0 {
        return String::new();
    }
    let m = if current < total { current } else { total };
    let filled = (m * width) / total;
    let mut s = String::new();
    let mut i: usize = 0;
    while i < width
        invariant
            i <= width,
            total > 0,
            width > 0,
            filled == ((if current < total { current } else { total }) * width) / (total as int),
            s@ == bar_spec(current as nat, total as nat, width as nat).take(i as int),
        decreases width - i,
    {
        crate::text::push_char(&mut s, if i < filled { '#' } else { '.' });
        assert(bar_spec(current as nat, total as nat, width as nat).take(i + 1) == bar_spec(
            current as nat,
            total as nat,
            width as nat,
        ).take(i as int).push(if i < filled { '#' } else { '.' }));
        i = i + 1;
    }
    assert(bar_spec(current as nat, total as nat, width as nat).take(width as int) == bar_spec(
        current as nat,
        total as nat,
        width as nat,
    ));
    s
}

/// The bar is exactly `width` characters, whatever `current` is, and a
/// finished run fills it.
pub proof fn lemma_bar_shape(current: nat, total: nat, width: nat)
    requires
        total > 0,
    ensures
        bar_spec(current, total, width).len() == width,
        current >= total ==> forall|i: int| 0 <= i < width ==> bar_spec(current, total, width)[i]
            == '#',
        current == 0 ==> forall|i: int| 0 <= i < width ==> bar_spec(current, total, width)[i]
            == '.',
{
    if width > 0 {
        if current >= total {
            assert((total * width) / total == width) by (nonlinear_arith)
                requires
                    total > 0,
            ;
        }
        if current == 0 {
            assert((0 * width) / total == 0) by (nonlinear_arith)
                requires
                    total > 0,
            ;
        }
    }
}

} // verus!
