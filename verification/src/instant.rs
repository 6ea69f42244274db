//! Points on the UTC time line.

use vstd::prelude::*;

verus! {

/// An absolute instant: whole seconds since 1970-01-01T00:00:00Z, and the
/// nanoseconds that have passed since that whole second began.
///
/// Instants are ordered by `secs` first and by `nanos` second. A time read
/// inside a leap second keeps the second before it in `secs` and carries one
/// thousand million or more in `nanos`, so it sorts after every ordinary
/// instant of that second and before the next second.
#[derive(Clone, Copy, Debug, PartialEq, Eq)]
pub struct Instant {
    pub secs: i64,
    pub nanos: u32,
}

impl Instant {
    /// `self` lies strictly later than `other`.
    pub open spec fn after(self, other: Instant) -> bool {
        self.secs > other.secs || (self.secs == other.secs && self.nanos > other.nanos)
    }

    /// `self` lies strictly earlier than `other`.
    pub open spec fn before(self, other: Instant) -> bool {
        other.after(self)
    }

    /// The instant that lies `ms` milliseconds after the epoch.
    pub open spec fn of_millis(ms: u64) -> Instant {
        Instant { secs: (ms / 1000) as i64, nanos: ((ms % 1000) * 1_000_000) as u32 }
    }

    /// Splits a count of milliseconds since the epoch into whole seconds and
    /// the nanoseconds of the remainder.
    pub fn from_millis(ms: u64) -> (t: Instant)
        ensures
            t == Instant::of_millis(ms),
            t.secs == ms / 1000,
            t.nanos == (ms % 1000) * 1_000_000,
    {
        Instant { secs: (ms / 1000) as i64, nanos: ((ms % 1000) as u32) * 1_000_000 }
    }

    /// Tells whether `self` lies strictly later than `other`.
    pub fn is_after(&self, other: &Instant) -> (b: bool)
        ensures
            b == self.after(*other),
    {
        self.secs > other.secs || (self.secs == other.secs && self.nanos > other.nanos)
    }

    /// Tells whether `self` lies strictly earlier than `other`.
    pub fn is_before(&self, other: &Instant) -> (b: bool)
        ensures
            b == self.before(*other),
    {
        other.is_after(self)
    }
}

/// The order of instants is a strict total order: of two instants exactly
/// one is the later, unless they are the same instant, and what lies after
/// a later instant lies after the earlier one too.
pub proof fn lemma_order_is_total(a: Instant, b: Instant, c: Instant)
    ensures
        !a.after(a),
        a.after(b) ==> !b.after(a),
        a.after(b) || a == b || a.before(b),
        a.after(b) && b.after(c) ==> a.after(c),
{
}

/// Instants made from millisecond counts are ordered as the counts are: the
/// later count gives the later instant, and equal counts give one instant.
pub proof fn lemma_millis_order(a: u64, b: u64)
    ensures
        Instant::of_millis(a).after(Instant::of_millis(b)) <==> a > b,
        Instant::of_millis(a).before(Instant::of_millis(b)) <==> a < b,
        Instant::of_millis(a) == Instant::of_millis(b) <==> a == b,
{
}

} // verus!
