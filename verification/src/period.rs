//! Time windows.

use vstd::prelude::*;
use crate::instant::Instant;

verus! {

/// A window on the time line. Its bounds are exclusive: an instant equal to
/// a bound lies outside.
#[derive(Clone, Copy, Debug, PartialEq, Eq)]
pub enum Period {
    /// Everything strictly later than `from`.
    From { from: Instant },
    /// Everything strictly earlier than `to`.
    To { to: Instant },
    /// Everything strictly between `from` and `to`.
    FromTo { from: Instant, to: Instant },
}

impl Period {
    /// The instant `t` lies inside the window.
    pub open spec fn holds(self, t: Instant) -> bool {
        match self {
            Period::From { from } => t.after(from),
            Period::To { to } => t.before(to),
            Period::FromTo { from, to } => t.after(from) && t.before(to),
        }
    }

    /// Tells whether the instant `t` lies inside the window.
    pub fn contains(&self, t: &Instant) -> (b: bool)
        ensures
            b == self.holds(*t),
    {
        match self {
            Period::From { from } => t.is_after(from),
            Period::To { to } => t.is_before(to),
            Period::FromTo { from, to } => t.is_after(from) && t.is_before(to),
        }
    }
}

/// The instant `t` passes the optional window: where there is no window,
/// every instant passes.
pub open spec fn admits(window: Option<Period>, t: Instant) -> bool {
    match window {
        None => true,
        Some(period) => period.holds(t),
    }
}

/// Tells whether the instant `t` passes the optional window.
pub fn is_admitted(window: &Option<Period>, t: &Instant) -> (b: bool)
    ensures
        b == admits(*window, *t),
{
    match window {
        None => true,
        Some(period) => period.contains(t),
    }
}

} // verus!
