//! Points in time, as the record and the provider's detail carry them.

use vstd::prelude::*;
use crate::outside::{parse_rfc3339, rfc3339_instant};

verus! {

/// A point in time in UTC: whole seconds since the Unix epoch and the
/// nanoseconds into that second. During a leap second `nanos` runs past
/// 999,999,999, so two timestamps are ordered by `seconds` first and by
/// `nanos` second rather than by a sum of the two.
#[derive(Debug, Clone, Copy, PartialEq, Eq, Structural)]
pub struct Timestamp {
    pub seconds: i64,
    pub nanos: u32,
}

impl Timestamp {
    /// `self` lies strictly after `other`.
    pub open spec fn is_after(self, other: Timestamp) -> bool {
        self.seconds > other.seconds || (self.seconds == other.seconds && self.nanos
            > other.nanos)
    }

    /// `self` lies at or after `other`.
    pub open spec fn is_at_or_after(self, other: Timestamp) -> bool {
        self == other || self.is_after(other)
    }

    /// The later of two timestamps.
    pub open spec fn spec_latest(self, other: Timestamp) -> Timestamp {
        if other.is_after(self) {
            other
        } else {
            self
        }
    }

    /// Builds a timestamp from its two parts.
    pub fn new(seconds: i64, nanos: u32) -> (t: Timestamp)
        ensures
            t.seconds == seconds,
            t.nanos == nanos,
    {
        Timestamp { seconds, nanos }
    }

    /// Whether `self` lies strictly after `other`.
    pub fn after(&self, other: &Timestamp) -> (r: bool)
        ensures
            r == self.is_after(*other),
    {
        self.seconds > other.seconds || (self.seconds == other.seconds && self.nanos
            > other.nanos)
    }

    /// The later of `self` and `other`.
    pub fn latest(self, other: Timestamp) -> (t: Timestamp)
        ensures
            t == self.spec_latest(other),
            t.is_at_or_after(self),
            t.is_at_or_after(other),
    {
        if other.after(&self) {
            other
        } else {
            self
        }
    }

    /// The order of timestamps is total: of two different ones, one lies
    /// after the other, and never both.
    pub proof fn law_order_is_total(a: Timestamp, b: Timestamp)
        ensures
            a == b || a.is_after(b) || b.is_after(a),
            !(a.is_after(b) && b.is_after(a)),
            !a.is_after(a),
    {
    }

    /// The order of timestamps is transitive.
    pub proof fn law_order_is_transitive(a: Timestamp, b: Timestamp, c: Timestamp)
        requires
            a.is_at_or_after(b),
            b.is_at_or_after(c),
        ensures
            a.is_at_or_after(c),
    {
    }
}

/// The timestamp that an RFC 3339 text denotes, if it is one.
pub open spec fn spec_expiry(text: Seq<char>) -> Option<Timestamp> {
    match rfc3339_instant(text) {
        Some(parts) => Some(Timestamp { seconds: parts.0 as i64, nanos: parts.1 as u32 }),
        None => None,
    }
}

/// The expiry that a line item's text gives; `None` where the text is no
/// RFC 3339 date and time.
pub fn parse_expiry(text: &str) -> (at: Option<Timestamp>)
    ensures
        at == spec_expiry(text@),
{
    parse_rfc3339(text)
}

} // verus!
