//! The boundary with `chrono`: a timestamp written out as a date and a
//! time of day.

use vstd::prelude::*;

verus! {

/// The last second that `chrono` can write out: the end of the year 262142.
pub const LAST_SECOND: u64 = 8_210_266_876_799;

/// How `chrono` writes the moment that lies a number of seconds and
/// nanoseconds after the Unix epoch, as a date and a time of day without a
/// zone; `None` where it has no such moment.
pub uninterp spec fn utc_text(seconds: int, nanos: int) -> Option<Seq<char>>;

/// `chrono::DateTime::from_timestamp`, and the `Display` of the
/// `NaiveDateTime` that it holds. Taken on trust: whether there is a text,
/// and the text, depend on the two numbers alone; and from the epoch on,
/// with less than a second's worth of nanoseconds, there is one exactly up
/// to the end of the year 262142.
#[verifier::external_body]
pub(crate) fn timestamp_text(seconds: i64, nanos: u32) -> (text: Option<String>)
    ensures
        match text {
            Some(s) => utc_text(seconds as int, nanos as int) == Some(s@),
            None => utc_text(seconds as int, nanos as int) is None,
        },
        0 <= seconds && nanos < 1_000_000_000 ==> (text is Some <==> seconds <= LAST_SECOND),
{
    match chrono::DateTime::from_timestamp(seconds, nanos) {
        Some(moment) => Some(moment.naive_utc().to_string()),
        None => None,
    }
}

} // verus!
