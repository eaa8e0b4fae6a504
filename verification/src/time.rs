//! Points in time and lengths of time as plain numbers.

use vstd::prelude::*;

verus! {

/// Nanoseconds in one second.
pub const NANOS_PER_SECOND: u32 = 1_000_000_000;

/// The first nanosecond that the calendar holds, counted from the epoch.
pub open spec fn first_instant() -> int {
    -8_334_601_228_800 * 1_000_000_000
}

/// The last nanosecond that the calendar holds, counted from the epoch.
pub open spec fn last_instant() -> int {
    8_210_266_876_799int * 1_000_000_000 + 999_999_999
}

/// A point in time (UTC): whole seconds since the epoch and nanoseconds
/// within that second.
#[derive(Debug, Clone, Copy, PartialEq, Eq, Structural)]
pub struct Timestamp {
    pub seconds: i64,
    pub nanos: u32,
}

impl Timestamp {
    /// Nanoseconds since the epoch.
    pub open spec fn instant(self) -> int {
        self.seconds * 1_000_000_000 + self.nanos
    }

    /// The sub-second part is less than a second.
    pub open spec fn valid(self) -> bool {
        self.nanos < NANOS_PER_SECOND
    }

    /// Whether this point is not after `other`.
    pub fn at_or_before(self, other: Timestamp) -> (r: bool)
        requires
            self.valid(),
            other.valid(),
        ensures
            r == (self.instant() <= other.instant()),
    {
        self.seconds < other.seconds || (self.seconds == other.seconds && self.nanos <= other.nanos)
    }

    /// The point `delta` nanoseconds later (earlier where `delta` is negative).
    pub fn plus_nanos(self, delta: i128) -> (r: Timestamp)
        requires
            self.valid(),
            first_instant() <= self.instant() + delta <= last_instant(),
        ensures
            r.valid(),
            r.instant() == self.instant() + delta,
    {
        let own: i128 = self.seconds as i128 * 1_000_000_000i128 + self.nanos as i128;
        let total: i128 = own + delta;
        let quotient: i128 = total / 1_000_000_000i128;
        let remainder: i128 = total % 1_000_000_000i128;
        if remainder < 0 {
            Timestamp {
                seconds: (quotient - 1) as i64,
                nanos: (remainder + 1_000_000_000i128) as u32,
            }
        } else {
            Timestamp { seconds: quotient as i64, nanos: remainder as u32 }
        }
    }
}

/// A length of time: whole seconds and nanoseconds within a second.
#[derive(Debug, Clone, Copy, PartialEq, Eq, Structural)]
pub struct Span {
    pub secs: u64,
    pub nanos: u32,
}

/// Nanoseconds in the longest span.
pub open spec fn longest_span() -> int {
    u64::MAX * 1_000_000_000 + 999_999_999
}

impl Span {
    /// The length in nanoseconds.
    pub open spec fn length(self) -> int {
        self.secs * 1_000_000_000 + self.nanos
    }

    /// The sub-second part is less than a second.
    pub open spec fn valid(self) -> bool {
        self.nanos < NANOS_PER_SECOND
    }

    /// The span of `nanos` nanoseconds.
    pub fn from_nanos(nanos: u128) -> (r: Span)
        requires
            nanos <= longest_span(),
        ensures
            r.valid(),
            r.length() == nanos,
    {
        Span { secs: (nanos / 1_000_000_000u128) as u64, nanos: (nanos % 1_000_000_000u128) as u32 }
    }

    /// The span of `millis` milliseconds.
    pub fn from_millis(millis: u64) -> (r: Span)
        ensures
            r.valid(),
            r.length() == millis * 1_000_000,
    {
        Span { secs: millis / 1000, nanos: ((millis % 1000) * 1_000_000) as u32 }
    }

    /// The span of `secs` seconds.
    pub fn from_secs(secs: u64) -> (r: Span)
        ensures
            r.valid(),
            r.length() == secs * 1_000_000_000,
    {
        Span { secs, nanos: 0 }
    }

    /// The length in nanoseconds.
    pub fn as_nanos(self) -> (r: u128)
        requires
            self.valid(),
        ensures
            r == self.length(),
    {
        self.secs as u128 * 1_000_000_000u128 + self.nanos as u128
    }

    /// `factor` times this span, or the longest span where that is longer.
    pub fn saturating_times(self, factor: u32) -> (r: Span)
        requires
            self.valid(),
        ensures
            r.valid(),
            r.length() == if self.length() * factor <= longest_span() {
                self.length() * factor
            } else {
                longest_span()
            },
    {
        let base: u128 = self.as_nanos();
        assert(base * factor <= (18446744073709551615 * 1_000_000_000 + 999_999_999) * 0xffff_ffff)
            by (nonlinear_arith)
            requires
                0 <= base <= 18446744073709551615 * 1_000_000_000 + 999_999_999,
                0 <= factor <= 0xffff_ffff,
        ;
        let product: u128 = base * factor as u128;
        let longest: u128 = u64::MAX as u128 * 1_000_000_000u128 + 999_999_999u128;
        if product <= longest {
            Span::from_nanos(product)
        } else {
            Span::from_nanos(longest)
        }
    }

    /// The shorter of two spans.
    pub fn shorter(self, other: Span) -> (r: Span)
        requires
            self.valid(),
            other.valid(),
        ensures
            r == if other.length() < self.length() {
                other
            } else {
                self
            },
    {
        if other.as_nanos() < self.as_nanos() {
            other
        } else {
            self
        }
    }
}

/// A source of the current time.
pub trait Clock {
    fn now(&self) -> (r: Timestamp)
        ensures
            r.valid(),
    ;
}

/// The clock of the machine.
#[derive(Debug, Clone, Copy, Default)]
pub struct SystemClock;

/// Calls `chrono::Utc::now`. What the clock reads is left unsaid, for it
/// depends on the machine; every reading lies within the calendar, and its
/// sub-second part is below one second.
#[verifier::external_body]
pub(crate) fn utc_now() -> (r: Timestamp)
    ensures
        r.valid(),
        first_instant() <= r.instant() <= last_instant(),
{
    let now = chrono::Utc::now();
    Timestamp { seconds: now.timestamp(), nanos: now.timestamp_subsec_nanos() }
}

impl Clock for SystemClock {
    /// What the clock of the machine reads: a moment within the calendar.
    fn now(&self) -> (r: Timestamp)
        ensures
            first_instant() <= r.instant() <= last_instant(),
    {
        utc_now()
    }
}

/// Moments are counted in nanoseconds and come one after the other by their
/// seconds and then by their nanoseconds; so are lengths of time.
pub proof fn moments_are_ordered(a: Timestamp, b: Timestamp, x: Span, y: Span)
    requires
        a.nanos < 1_000_000_000,
        b.nanos < 1_000_000_000,
        x.nanos < 1_000_000_000,
        y.nanos < 1_000_000_000,
    ensures
        a.valid() && x.valid(),
        a.instant() == a.seconds * 1_000_000_000 + a.nanos,
        a.instant() <= b.instant() <==> a.seconds < b.seconds || (a.seconds == b.seconds && a.nanos
            <= b.nanos),
        a.instant() == b.instant() ==> a == b,
        x.length() == x.secs * 1_000_000_000 + x.nanos,
        x.length() <= y.length() <==> x.secs < y.secs || (x.secs == y.secs && x.nanos <= y.nanos),
        x.length() == y.length() ==> x == y,
        0 <= x.length() <= longest_span(),
{
}

/// The calendar runs from the first second of the year 262144 before the
/// common era to the last nanosecond of the year 262142.
pub proof fn the_calendar_has_ends()
    ensures
        first_instant() == -8_334_601_228_800_000_000_000,
        last_instant() == 8_210_266_876_799_999_999_999,
        longest_span() == 18_446_744_073_709_551_615_999_999_999,
{
}

/// A moment that lies a number of nanoseconds ahead is that many nanoseconds
/// ahead; a length of time is as long as it was said to be.
pub proof fn moments_and_lengths_are_counted_in_nanoseconds(
    at: Timestamp,
    delta: i128,
    later: Timestamp,
    other: Timestamp,
    before: bool,
    n: u64,
    nanos: u128,
    span: Span,
    factor: u32,
    r: Span,
)
    ensures
        call_ensures(Timestamp::plus_nanos, (at, delta), later) ==> later.nanos < 1_000_000_000
            && later.seconds * 1_000_000_000 + later.nanos == at.seconds * 1_000_000_000 + at.nanos
            + delta,
        call_ensures(Timestamp::at_or_before, (at, other), before) ==> (before <==> at.seconds
            * 1_000_000_000 + at.nanos <= other.seconds * 1_000_000_000 + other.nanos),
        call_ensures(Span::from_millis, (n,), r) ==> r.secs * 1_000_000_000 + r.nanos == n
            * 1_000_000,
        call_ensures(Span::from_secs, (n,), r) ==> r.secs == n && r.nanos == 0,
        call_ensures(Span::from_nanos, (nanos,), r) ==> r.secs * 1_000_000_000 + r.nanos == nanos,
        call_ensures(Span::as_nanos, (span,), nanos) ==> nanos == span.secs * 1_000_000_000
            + span.nanos,
        call_ensures(Span::saturating_times, (span, factor), r) && span.length() * factor
            <= 18_446_744_073_709_551_615_999_999_999 ==> r.length() == span.length() * factor,
{
}

}
