//! Points in time and their text in a config record.

use vstd::prelude::*;
use crate::text::opt_text;

verus! {

/// A point in time: whole seconds since the start of 1970 in UTC, and the
/// nanoseconds of the second.
#[derive(Debug, Clone, Copy, PartialEq, Eq, Structural)]
pub struct Timestamp {
    pub seconds: i64,
    pub nanos: u32,
}

/// The RFC 3339 text that `chrono` writes for a point in time, or `None`
/// where `chrono` cannot hold it.
pub uninterp spec fn rfc3339(seconds: int, nanos: int) -> Option<Seq<char>>;

/// The point in time that `chrono` reads from an RFC 3339 text, or `None`
/// where it rejects the text.
pub uninterp spec fn timestamp_of(text: Seq<char>) -> Option<Timestamp>;

/// `chrono::Utc::now`: the current time, as its `timestamp` and its
/// `timestamp_subsec_nanos`. Nothing is claimed of it.
#[verifier::external_body]
pub(crate) fn now() -> Timestamp {
    let t = chrono::Utc::now();
    Timestamp { seconds: t.timestamp(), nanos: t.timestamp_subsec_nanos() }
}

/// `chrono::DateTime::from_timestamp`, then `to_rfc3339_opts` with
/// `SecondsFormat::AutoSi` and `Z` for UTC, which is the text that
/// `chrono` gives a `DateTime<Utc>` in a serialised record. It depends on
/// the two numbers alone.
#[verifier::external_body]
pub(crate) fn timestamp_text(t: Timestamp) -> (text: Option<String>)
    ensures
        opt_text(text) == rfc3339(t.seconds as int, t.nanos as int),
{
    chrono::DateTime::from_timestamp(t.seconds, t.nanos).map(
        |d| d.to_rfc3339_opts(chrono::SecondsFormat::AutoSi, true),
    )
}

/// `str::parse` to a `chrono::DateTime<FixedOffset>`, as `chrono` reads a
/// `DateTime<Utc>` from a serialised record; the point in time as its
/// `timestamp` and its `timestamp_subsec_nanos`. It depends on the text
/// alone.
#[verifier::external_body]
pub(crate) fn parse_timestamp(text: &str) -> (t: Option<Timestamp>)
    ensures
        t == timestamp_of(text@),
{
    text.parse::<chrono::DateTime<chrono::FixedOffset>>().ok().map(
        |d| Timestamp { seconds: d.timestamp(), nanos: d.timestamp_subsec_nanos() },
    )
}

} // verus!
