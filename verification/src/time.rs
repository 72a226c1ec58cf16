//! Instants in time.
//!
//! The server sends timestamps as RFC 3339 text. The library keeps an
//! instant as plain values — seconds since the Unix epoch and the
//! subsecond nanoseconds — and leaves reading the text to chrono behind a
//! trusted wrapper.

use vstd::prelude::*;

verus! {

/// An instant: seconds since the Unix epoch, and nanoseconds within the
/// second.
#[derive(Clone, Copy, Debug, PartialEq, Eq, Hash)]
pub struct Timestamp {
    pub secs: i64,
    pub nanos: u32,
}

/// What chrono makes of a piece of RFC 3339 text: `None` where the text is
/// rejected, otherwise the instant it denotes.
pub uninterp spec fn rfc3339_of(s: Seq<char>) -> Option<Timestamp>;

/// Relies on chrono::DateTime::parse_from_rfc3339, whose result depends on
/// the text alone; `timestamp` and `timestamp_subsec_nanos` only read the
/// parsed instant out as plain values. That result is named [`rfc3339_of`].
#[verifier::external_body]
pub(crate) fn parse_rfc3339(s: &str) -> (r: Option<Timestamp>)
    ensures
        r == rfc3339_of(s@),
{
    match chrono::DateTime::parse_from_rfc3339(s) {
        Ok(dt) => Some(Timestamp { secs: dt.timestamp(), nanos: dt.timestamp_subsec_nanos() }),
        Err(_) => None,
    }
}

} // verus!
