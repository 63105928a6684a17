use vstd::prelude::*;

verus! {

/// An instant in universal time: the whole seconds since the start of 1970
/// and the nanoseconds since the last whole second.
#[derive(Debug, Clone, Copy, PartialEq, Eq, Structural)]
pub struct Timestamp {
    pub secs: i64,
    /// Below a thousand million, but for an instant within a leap second.
    pub nanos: u32,
}

impl Timestamp {
    /// Whether this instant comes after `other`: by the seconds, and among
    /// equal seconds by the nanoseconds.
    pub open spec fn spec_is_after(self, other: Timestamp) -> bool {
        self.secs > other.secs || (self.secs == other.secs && self.nanos > other.nanos)
    }

    /// Whether this instant comes after `other`.
    pub fn is_after(&self, other: &Timestamp) -> (after: bool)
        ensures
            after == self.spec_is_after(*other),
    {
        self.secs > other.secs || (self.secs == other.secs && self.nanos > other.nanos)
    }
}

/// A bearer token as it is kept between runs, with the instant at which it expires.
#[derive(Debug, Clone, PartialEq, Eq)]
pub struct CachedToken {
    pub access_token: String,
    pub expired_at: Timestamp,
}

/// The instant that `chrono` gives for `at` and `seconds` more, or `None`
/// where it has no such instant.
pub uninterp spec fn chrono_sum(at: Timestamp, seconds: i64) -> Option<Timestamp>;

/// `DateTime::checked_add_signed` of `chrono`, on the instant that
/// `DateTime::from_timestamp` makes of `at` and the span that
/// `TimeDelta::try_seconds` makes of `seconds`; the sum is handed back by its
/// `timestamp` and `timestamp_subsec_nanos`. Where any of the three has no
/// result there is none. Outside a leap second a sum has the seconds added
/// and the nanoseconds as they were.
#[verifier::external_body]
pub(crate) fn instant_plus_seconds(at: Timestamp, seconds: i64) -> (sum: Option<Timestamp>)
    ensures
        sum == chrono_sum(at, seconds),
        at.nanos < 1_000_000_000 ==> (sum matches Some(end) ==> end.secs == at.secs + seconds
            && end.nanos == at.nanos),
{
    let start = chrono::DateTime::from_timestamp(at.secs, at.nanos)?;
    let end = start.checked_add_signed(chrono::TimeDelta::try_seconds(seconds)?)?;
    Some(Timestamp { secs: end.timestamp(), nanos: end.timestamp_subsec_nanos() })
}

} // verus!
