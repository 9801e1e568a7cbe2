//! Instants on the TAI64N scale, held as plain integers.
use vstd::prelude::*;

verus! {

/// Nanoseconds in one second: the nanosecond part of an instant stays below it.
pub const NANOS_PER_SECOND: u32 = 1_000_000_000;

/// A TAI64N label: a count of seconds and a nanosecond part.
#[derive(Clone, Copy, Debug, PartialEq, Eq, Structural)]
pub struct TaiInstant {
    pub seconds: u64,
    pub nanos: u32,
}

impl TaiInstant {
    /// The nanosecond part is below one second.
    pub open spec fn valid(self) -> bool {
        self.nanos < NANOS_PER_SECOND
    }

    /// `self` comes strictly before `other`: seconds first, then nanoseconds.
    pub open spec fn precedes(self, other: TaiInstant) -> bool {
        self.seconds < other.seconds || (self.seconds == other.seconds && self.nanos
            < other.nanos)
    }

    /// `self` comes no later than `other`.
    pub open spec fn not_after(self, other: TaiInstant) -> bool {
        self.precedes(other) || self == other
    }

    /// The later of two instants.
    pub open spec fn latest(self, other: TaiInstant) -> TaiInstant {
        if self.precedes(other) {
            other
        } else {
            self
        }
    }

    /// Builds an instant from its two parts; `None` when the nanosecond part
    /// reaches a full second.
    pub fn from_parts(seconds: u64, nanos: u32) -> (r: Option<TaiInstant>)
        ensures
            nanos < NANOS_PER_SECOND ==> r == Some(TaiInstant { seconds, nanos }),
            nanos >= NANOS_PER_SECOND ==> r.is_none(),
    {
        if nanos < NANOS_PER_SECOND {
            Some(TaiInstant { seconds, nanos })
        } else {
            None
        }
    }

    /// Whether `self` comes strictly before `other`.
    pub fn is_before(&self, other: &TaiInstant) -> (r: bool)
        ensures
            r == self.precedes(*other),
    {
        self.seconds < other.seconds || (self.seconds == other.seconds && self.nanos
            < other.nanos)
    }

    /// The later of `self` and `other`.
    pub fn later_of(self, other: TaiInstant) -> (r: TaiInstant)
        ensures
            r == self.latest(other),
            self.not_after(r),
            other.not_after(r),
    {
        if self.is_before(&other) {
            other
        } else {
            self
        }
    }
}

/// Relies on tai64::Tai64N::now: reads the system clock; the crate keeps the
/// nanosecond part of every Tai64N below one second.
#[verifier::external_body]
pub(crate) fn tai_now() -> (r: TaiInstant)
    ensures
        r.valid(),
{
    let t = tai64::Tai64N::now();
    TaiInstant { seconds: (t.0).0, nanos: t.1 }
}

} // verus!
