//! Points in time, as seconds and nanoseconds since the Unix epoch (UTC).
use vstd::prelude::*;

verus! {

/// Seconds in a day.
pub const SECONDS_PER_DAY: i64 = 86400;

/// An instant: whole seconds since 1970-01-01T00:00:00Z and the nanoseconds
/// into that second.
#[derive(Debug, Clone, Copy, PartialEq, Eq, Structural)]
pub struct Timestamp {
    pub secs: i64,
    pub nanos: u32,
}

/// `a` is strictly earlier than `b`.
pub open spec fn earlier(a: Timestamp, b: Timestamp) -> bool {
    a.secs < b.secs || (a.secs == b.secs && a.nanos < b.nanos)
}

/// `a` is not later than `b`.
pub open spec fn not_later(a: Timestamp, b: Timestamp) -> bool {
    !earlier(b, a)
}

/// `t` is later than the instant `days` days before `now`.
pub open spec fn within_days(t: Timestamp, now: Timestamp, days: int) -> bool {
    let cutoff = now.secs - days * 86400;
    t.secs > cutoff || (t.secs == cutoff && t.nanos > now.nanos)
}

/// The current time, read from `chrono::Utc::now()`. Nothing is promised of
/// it.
#[verifier::external_body]
pub(crate) fn now() -> Timestamp {
    let t = chrono::Utc::now();
    Timestamp { secs: t.timestamp(), nanos: t.timestamp_subsec_nanos() }
}

impl Timestamp {
    /// The instant `secs` seconds after the epoch.
    pub fn from_secs(secs: i64) -> (r: Self)
        ensures
            r == (Timestamp { secs, nanos: 0 }),
    {
        Timestamp { secs, nanos: 0 }
    }

    /// Whole seconds since the epoch.
    pub fn timestamp(&self) -> (r: i64)
        ensures
            r == self.secs,
    {
        self.secs
    }

    /// Whether `self` is strictly earlier than `other`.
    pub fn is_before(&self, other: &Timestamp) -> (r: bool)
        ensures
            r == earlier(*self, *other),
    {
        self.secs < other.secs || (self.secs == other.secs && self.nanos < other.nanos)
    }

    /// Whether `self` is not later than `other`.
    pub fn is_at_or_before(&self, other: &Timestamp) -> (r: bool)
        ensures
            r == not_later(*self, *other),
    {
        !other.is_before(self)
    }

    /// Whether `self` is later than the instant `days` days before `now`.
    pub fn is_within_days(&self, now: &Timestamp, days: i64) -> (r: bool)
        ensures
            r == within_days(*self, *now, days as int),
    {
        let span: i128 = (days as i128) * 86400;
        let cutoff: i128 = (now.secs as i128) - span;
        let mine: i128 = self.secs as i128;
        mine > cutoff || (mine == cutoff && self.nanos > now.nanos)
    }

    /// The instant `secs` seconds later, unless it cannot be represented.
    pub fn plus_seconds(&self, secs: i64) -> (r: Option<Timestamp>)
        ensures
            match r {
                Some(t) => t.secs == self.secs + secs && t.nanos == self.nanos,
                None => self.secs + secs > i64::MAX || self.secs + secs < i64::MIN,
            },
    {
        match self.secs.checked_add(secs) {
            Some(s) => Some(Timestamp { secs: s, nanos: self.nanos }),
            None => None,
        }
    }
}

} // verus!
