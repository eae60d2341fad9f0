use vstd::prelude::*;

verus! {

/// An instant in UTC: whole seconds since the Unix epoch and the nanoseconds
/// past that second.
#[derive(Clone, Copy, Debug, PartialEq, Eq, Structural)]
pub struct Timestamp {
    pub secs: i64,
    pub nanos: u32,
}

/// Nanoseconds in one second.
pub const NANOS_PER_SECOND: u32 = 1_000_000_000;

impl Timestamp {
    /// Whether the nanosecond part is a proper fraction of a second.
    pub open spec fn well_formed(self) -> bool {
        self.nanos < NANOS_PER_SECOND
    }

    /// Whether this is an instant the system clock can report: well-formed
    /// and not before the Unix epoch.
    pub open spec fn clock_reading(self) -> bool {
        self.well_formed() && self.secs >= 0
    }

    /// Nanoseconds since the Unix epoch.
    pub open spec fn epoch_nanos(self) -> int {
        self.secs * 1_000_000_000 + self.nanos
    }

    /// Chronological order: `self` lies strictly before `other`.
    pub open spec fn precedes(self, other: Timestamp) -> bool {
        self.secs < other.secs || (self.secs == other.secs && self.nanos < other.nanos)
    }

    /// Whether `self` lies strictly before `other`.
    pub fn is_before(&self, other: &Timestamp) -> (b: bool)
        ensures
            b == self.precedes(*other),
    {
        self.secs < other.secs || (self.secs == other.secs && self.nanos < other.nanos)
    }
}

/// For well-formed instants, chronological order is the order of their
/// nanosecond counts since the epoch.
pub proof fn lemma_precedes_is_nanos_order(a: Timestamp, b: Timestamp)
    requires
        a.well_formed(),
        b.well_formed(),
    ensures
        a.precedes(b) <==> a.epoch_nanos() < b.epoch_nanos(),
{
    if a.secs < b.secs {
        assert(a.secs * 1_000_000_000 + 1_000_000_000 <= b.secs * 1_000_000_000) by (nonlinear_arith)
            requires a.secs < b.secs;
    } else if a.secs > b.secs {
        assert(b.secs * 1_000_000_000 + 1_000_000_000 <= a.secs * 1_000_000_000) by (nonlinear_arith)
            requires b.secs < a.secs;
    }
}

/// The whole seconds from `earlier` to `later`, rounded toward zero (what
/// `chrono::TimeDelta::num_seconds` gives for the difference of two instants).
pub open spec fn whole_seconds_between(earlier: Timestamp, later: Timestamp) -> int {
    let diff = later.epoch_nanos() - earlier.epoch_nanos();
    if diff >= 0 {
        diff / 1_000_000_000
    } else {
        -((-diff) / 1_000_000_000)
    }
}

/// The whole milliseconds from `earlier` to `later`, rounded toward zero (what
/// `chrono::TimeDelta::num_milliseconds` gives).
pub open spec fn whole_millis_between(earlier: Timestamp, later: Timestamp) -> int {
    let diff = later.epoch_nanos() - earlier.epoch_nanos();
    if diff >= 0 {
        diff / 1_000_000
    } else {
        -((-diff) / 1_000_000)
    }
}

fn nanos_between(earlier: &Timestamp, later: &Timestamp) -> (d: i128)
    ensures
        d == later.epoch_nanos() - earlier.epoch_nanos(),
{
    let secs: i128 = later.secs as i128 - earlier.secs as i128;
    let frac: i128 = later.nanos as i128 - earlier.nanos as i128;
    assert(-18446744073709551616 <= secs <= 18446744073709551616);
    assert(-18446744073709551616000000000 <= secs * 1_000_000_000 <= 18446744073709551616000000000)
        by (nonlinear_arith)
        requires -18446744073709551616 <= secs <= 18446744073709551616;
    assert(later.epoch_nanos() - earlier.epoch_nanos() == secs * 1_000_000_000 + frac) by (nonlinear_arith)
        requires
            secs == later.secs - earlier.secs,
            frac == later.nanos - earlier.nanos,
    ;
    secs * 1_000_000_000 + frac
}

/// The whole seconds from `earlier` to `later`, rounded toward zero, as a
/// `u64` (only meaningful when `later` follows `earlier`).
pub fn seconds_between(earlier: &Timestamp, later: &Timestamp) -> (s: u64)
    ensures
        s == whole_seconds_between(*earlier, *later) as u64,
{
    let d = nanos_between(earlier, later);
    if d >= 0 {
        let q: u128 = (d as u128) / 1_000_000_000;
        q as u64
    } else {
        let q: u128 = ((0 - d) as u128) / 1_000_000_000;
        let neg: i128 = 0 - (q as i128);
        neg as u64
    }
}

/// The whole milliseconds from `earlier` to `later`, rounded toward zero.
pub fn millis_between(earlier: &Timestamp, later: &Timestamp) -> (ms: i128)
    ensures
        ms == whole_millis_between(*earlier, *later),
{
    let d = nanos_between(earlier, later);
    if d >= 0 {
        d / 1_000_000
    } else {
        0 - ((0 - d) / 1_000_000)
    }
}

/// Whether `chrono::DateTime::<Utc>::from_timestamp(secs, 0)` gives an
/// instant, that is, whether `secs` seconds after the epoch lies in chrono's
/// date range.
pub uninterp spec fn utc_seconds_representable(secs: i64) -> bool;

/// Calls `chrono::DateTime::<Utc>::from_timestamp(secs, 0)` and reports
/// whether it gave an instant. The contract only names the answer; chrono's
/// date range is not restated.
#[verifier::external_body]
pub(crate) fn seconds_representable(secs: i64) -> (ok: bool)
    ensures
        ok == utc_seconds_representable(secs),
{
    chrono::DateTime::from_timestamp(secs, 0).is_some()
}

/// The present instant from `chrono::Utc::now()`. The contract states only
/// what holds of every outcome there: chrono builds it from the system clock's
/// duration since the epoch (a non-negative second count and a sub-second
/// nanosecond part below one billion); which instant comes back is left open.
#[verifier::external_body]
pub fn current_time() -> (t: Timestamp)
    ensures
        t.secs >= 0,
        t.well_formed(),
{
    let now = chrono::Utc::now();
    Timestamp { secs: now.timestamp(), nanos: now.timestamp_subsec_nanos() }
}

} // verus!
