//! Instants, the range rule, and the day-aligned window of a query.

use crate::error::Error;
use vstd::prelude::*;

verus! {

/// Nanoseconds in one second.
pub const NANOS_PER_SECOND: i128 = 1_000_000_000;

/// Seconds in one calendar day of UTC.
pub const SECONDS_PER_DAY: i128 = 86_400;

/// An instant: seconds since the Unix epoch and nanoseconds beyond them.
#[derive(Debug, Clone, Copy, PartialEq, Eq, Structural)]
pub struct Timestamp {
    pub seconds: i64,
    pub nanos: i32,
}

impl Timestamp {
    /// Nanoseconds from the Unix epoch to this instant.
    pub open spec fn instant(self) -> int {
        self.seconds * 1_000_000_000 + self.nanos
    }

    /// Whole seconds from the Unix epoch to this instant, rounded down.
    pub open spec fn whole_seconds(self) -> int {
        self.instant() / 1_000_000_000
    }

    /// Number of the UTC calendar day that holds this instant; day 0 starts
    /// at the Unix epoch.
    pub open spec fn day(self) -> int {
        self.whole_seconds() / 86_400
    }

    /// Nanoseconds from the Unix epoch to this instant.
    pub fn to_instant(&self) -> (n: i128)
        ensures
            n == self.instant(),
    {
        (self.seconds as i128) * NANOS_PER_SECOND + (self.nanos as i128)
    }

    /// Whole seconds from the Unix epoch to this instant, rounded down.
    pub fn to_whole_seconds(&self) -> (s: i128)
        ensures
            s == self.whole_seconds(),
    {
        let n = self.to_instant();
        // The divisor is neither zero nor minus one: the quotient exists.
        match n.checked_div_euclid(NANOS_PER_SECOND) {
            Some(s) => s,
            None => 0,
        }
    }

    /// Start, in seconds since the epoch, of the UTC day that holds this instant.
    pub fn start_of_day(&self) -> (s: i128)
        ensures
            s == self.day() * 86_400,
    {
        let whole = self.to_whole_seconds();
        // The divisor is neither zero nor minus one: the quotient exists.
        match whole.checked_div_euclid(SECONDS_PER_DAY) {
            Some(day) => day * SECONDS_PER_DAY,
            None => 0,
        }
    }

    /// Start, in seconds since the epoch, of the UTC day after the one that
    /// holds this instant.
    pub fn start_of_next_day(&self) -> (s: i128)
        ensures
            s == (self.day() + 1) * 86_400,
    {
        self.start_of_day() + SECONDS_PER_DAY
    }

    /// Whether this instant is not later than `other`.
    pub fn not_after(&self, other: &Timestamp) -> (b: bool)
        ensures
            b == (self.instant() <= other.instant()),
    {
        self.to_instant() <= other.to_instant()
    }
}

/// Whether a range with these bounds is acceptable: it is unless both bounds
/// are given and the start lies after the end.
pub open spec fn range_ok(start: Option<Timestamp>, end: Option<Timestamp>) -> bool {
    start is Some && end is Some ==> start->0.instant() <= end->0.instant()
}

/// Checks a pair of optional bounds against the range rule. A missing bound
/// contradicts nothing; the bounds are compared as given, before any
/// alignment to days.
pub fn validate_range(start: Option<&Timestamp>, end: Option<&Timestamp>) -> (r: Result<(), Error>)
    ensures
        range_ok(deref_opt(start), deref_opt(end)) ==> r == Ok::<(), Error>(()),
        !range_ok(deref_opt(start), deref_opt(end)) ==> r == Err::<(), Error>(Error::InvalidTime),
{
    match (start, end) {
        (Some(s), Some(e)) => {
            if s.not_after(e) {
                Ok(())
            } else {
                Err(Error::InvalidTime)
            }
        },
        _ => Ok(()),
    }
}

/// The instant behind an optional reference.
pub open spec fn deref_opt(t: Option<&Timestamp>) -> Option<Timestamp> {
    match t {
        Some(t) => Some(*t),
        None => None,
    }
}

/// A half-open interval of instants, `start` included and `end` excluded,
/// both in whole seconds since the Unix epoch.
#[derive(Debug, Clone, Copy, PartialEq, Eq, Structural)]
pub struct Window {
    pub start: i128,
    pub end: i128,
}

impl Window {
    /// Whether the instant `t` lies in the window.
    pub open spec fn holds(self, t: Timestamp) -> bool {
        self.start * 1_000_000_000 <= t.instant() < self.end * 1_000_000_000
    }

    /// Whether both bounds fall on the start of a UTC day.
    pub open spec fn day_aligned(self) -> bool {
        self.start % 86_400 == 0 && self.end % 86_400 == 0
    }

    /// Whether the instant `t` lies in the window.
    pub fn contains(&self, t: &Timestamp) -> (b: bool)
        ensures
            b == self.holds(*t),
    {
        let whole = t.to_whole_seconds();
        self.start <= whole && whole < self.end
    }

    /// Whether no instant lies in the window.
    pub fn is_empty(&self) -> (b: bool)
        ensures
            b == (self.start >= self.end),
    {
        self.start >= self.end
    }
}

/// The window that a pair of optional bounds resolves to at time `now`: it
/// opens at the start of the start bound's day, or at the Unix epoch where
/// none is given, and closes at the start of the day after the end bound's
/// day, or after today where none is given.
pub open spec fn resolved(start: Option<Timestamp>, end: Option<Timestamp>, now: Timestamp) -> Window {
    Window {
        start: match start {
            Some(s) => (s.day() * 86_400) as i128,
            None => 0,
        },
        end: match end {
            Some(e) => ((e.day() + 1) * 86_400) as i128,
            None => ((now.day() + 1) * 86_400) as i128,
        },
    }
}

/// Resolves a pair of optional bounds to the day-aligned window they stand
/// for at time `now`.
pub fn resolve_window(start: Option<Timestamp>, end: Option<Timestamp>, now: Timestamp) -> (w: Window)
    ensures
        w == resolved(start, end, now),
        w.day_aligned(),
{
    let lower = match start {
        Some(s) => s.start_of_day(),
        None => 0,
    };
    let upper = match end {
        Some(e) => e.start_of_next_day(),
        None => now.start_of_next_day(),
    };
    Window { start: lower, end: upper }
}

/// Reads the system clock, as `chrono` converts a `SystemTime` to a UTC
/// date and time, and hands back its seconds and nanoseconds. Nothing is
/// claimed of the instant read.
#[verifier::external_body]
fn system_now() -> (now: Timestamp) {
    let t = chrono::DateTime::<chrono::Utc>::from(std::time::SystemTime::now());
    Timestamp { seconds: t.timestamp(), nanos: t.timestamp_subsec_nanos() as i32 }
}

/// Resolves a pair of optional bounds at the present moment. Whatever the
/// clock reads, the window is the one that [`resolved`] gives for some
/// `now`; where an end bound is given the clock has no part in it.
pub fn resolve_window_now(start: Option<Timestamp>, end: Option<Timestamp>) -> (w: Window)
    ensures
        exists|now: Timestamp| w == resolved(start, end, now),
        end is Some ==> w == resolved(start, end, Timestamp { seconds: 0, nanos: 0 }),
        w.day_aligned(),
{
    let now = system_now();
    let w = resolve_window(start, end, now);
    assert(w == resolved(start, end, now));
    w
}

/// A window whose bounds are both given holds exactly the instants of the
/// start day, of the end day and of the days between them: the end day is
/// included whole, and later days are left out.
pub proof fn lemma_window_covers_days(start: Timestamp, end: Timestamp, now: Timestamp, t: Timestamp)
    ensures
        resolved(Some(start), Some(end), now).holds(t) <==> start.day() <= t.day() <= end.day(),
{
    let w = resolved(Some(start), Some(end), now);
    lemma_day_bounds(start);
    lemma_day_bounds(end);
    assert(w.start == start.day() * 86_400);
    assert(w.end == (end.day() + 1) * 86_400);
    lemma_floor_seconds(t, start.day() * 86_400);
    lemma_floor_seconds(t, (end.day() + 1) * 86_400);
    lemma_floor_days(t.whole_seconds(), start.day());
    lemma_floor_days(t.whole_seconds(), end.day() + 1);
}

/// Bounds given in order never resolve to an empty window: where the start
/// is not after the end, the window holds the start itself, also when both
/// are the same instant.
pub proof fn lemma_window_never_empty(start: Timestamp, end: Timestamp, now: Timestamp)
    requires
        start.instant() <= end.instant(),
    ensures
        resolved(Some(start), Some(end), now).holds(start),
        resolved(Some(start), Some(end), now).holds(end),
        resolved(Some(start), Some(end), now).start < resolved(Some(start), Some(end), now).end,
{
    lemma_day_monotone(start, end);
    lemma_window_covers_days(start, end, now, start);
    lemma_window_covers_days(start, end, now, end);
    lemma_day_bounds(start);
    lemma_day_bounds(end);
}

/// A later instant never falls on an earlier day.
pub proof fn lemma_day_monotone(a: Timestamp, b: Timestamp)
    requires
        a.instant() <= b.instant(),
    ensures
        a.day() <= b.day(),
{
}

/// The aligned bounds of any instant fit the window's fields.
proof fn lemma_day_bounds(t: Timestamp)
    ensures
        i128::MIN <= t.day() * 86_400 <= i128::MAX,
        i128::MIN <= (t.day() + 1) * 86_400 <= i128::MAX,
{
}

/// A bound in whole seconds is reached in nanoseconds exactly when it is
/// reached in whole seconds.
proof fn lemma_floor_seconds(t: Timestamp, bound: int)
    ensures
        bound * 1_000_000_000 <= t.instant() <==> bound <= t.whole_seconds(),
{
}

/// A bound at the start of a day is reached in seconds exactly when it is
/// reached in days.
proof fn lemma_floor_days(seconds: int, day: int)
    ensures
        day * 86_400 <= seconds <==> day <= seconds / 86_400,
{
}

} // verus!
