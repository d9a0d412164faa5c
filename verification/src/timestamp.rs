//! Points in time as the API handles them: seconds since the Unix epoch
//! (UTC) and the nanoseconds within that second, as chrono counts them.

use vstd::prelude::*;

use crate::errors::ApiError;

verus! {

/// An instant in UTC.
#[derive(Clone, Copy, Debug, PartialEq, Eq, Structural)]
pub struct Timestamp {
    pub seconds: i64,
    pub nanos: u32,
}

/// The last second that chrono's `DateTime<Utc>` can hold
/// (December 31, 262142 CE, 23:59:59).
pub const MAX_UTC_SECONDS: i64 = 8_210_266_876_799;

/// `a` is not later than `b`; instants are ordered by second, then by
/// nanosecond.
pub open spec fn not_after(a: Timestamp, b: Timestamp) -> bool {
    a.seconds < b.seconds || (a.seconds == b.seconds && a.nanos <= b.nanos)
}

impl Timestamp {
    /// `self <= other`.
    pub fn not_after(&self, other: &Timestamp) -> (r: bool)
        ensures
            r == not_after(*self, *other),
    {
        self.seconds < other.seconds || (self.seconds == other.seconds && self.nanos <= other.nanos)
    }
}

/// The instant an RFC 3339 text denotes, as chrono parses it (converted to
/// UTC), or `None` when chrono rejects the text.
pub uninterp spec fn rfc3339_instant(text: Seq<char>) -> Option<(i64, u32)>;

/// `chrono::DateTime::parse_from_rfc3339`, converted to UTC. The contract
/// claims that the outcome is a function of the text alone, named
/// `rfc3339_instant`; which texts chrono accepts is left unsaid.
#[verifier::external_body]
fn parse_rfc3339(text: &str) -> (r: Result<Timestamp, chrono::ParseError>)
    ensures
        match r {
            Ok(t) => rfc3339_instant(text@) == Some((t.seconds, t.nanos)),
            Err(_) => rfc3339_instant(text@) is None,
        },
{
    match chrono::DateTime::parse_from_rfc3339(text) {
        Ok(parsed) => {
            let utc = parsed.with_timezone(&chrono::Utc);
            Ok(Timestamp { seconds: utc.timestamp(), nanos: utc.timestamp_subsec_nanos() })
        },
        Err(error) => Err(error),
    }
}

/// Parses a stored RFC 3339 timestamp; a text chrono rejects is corrupt
/// data.
pub fn parse_timestamp(value: &str) -> (r: Result<Timestamp, ApiError>)
    ensures
        match rfc3339_instant(value@) {
            Some((s, n)) => r == Ok::<Timestamp, ApiError>(Timestamp { seconds: s, nanos: n }),
            None => r matches Err(ApiError::CorruptTimestamp(_)),
        },
{
    match parse_rfc3339(value) {
        Ok(t) => Ok(t),
        Err(error) => Err(ApiError::CorruptTimestamp(error)),
    }
}

} // verus!
