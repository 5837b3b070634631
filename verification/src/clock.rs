//! Review timestamps, formatted by chrono.

use vstd::prelude::*;

verus! {

/// The text that chrono's `Display` gives for the UTC date-time `secs`
/// seconds and `nanos` nanoseconds after the Unix epoch, or `None` where
/// `chrono::DateTime::from_timestamp` refuses the pair as out of range.
pub uninterp spec fn timestamp_text(secs: i64, nanos: u32) -> Option<Seq<char>>;

/// Calls `chrono::DateTime::from_timestamp(secs, nanos)` and formats its
/// naive UTC date-time with `to_string` (`YYYY-MM-DD hh:mm:ss` and the
/// fraction of a second where it is not zero). The text depends on the two
/// arguments alone and is named `timestamp_text`; its format is not stated.
#[verifier::external_body]
pub(crate) fn format_timestamp(secs: i64, nanos: u32) -> (r: Option<String>)
    ensures
        match r {
            Some(t) => timestamp_text(secs, nanos) == Some(t@),
            None => timestamp_text(secs, nanos) is None,
        },
{
    match chrono::DateTime::from_timestamp(secs, nanos) {
        Some(t) => Some(t.naive_utc().to_string()),
        None => None,
    }
}

} // verus!
