//! Points in time, as the history reads and writes them.

use vstd::prelude::*;

verus! {

/// The instant that an RFC 3339 text names, as seconds since 1970-01-01 00:00:00
/// UTC and nanoseconds within that second; nothing if the text is no RFC 3339
/// date and time. Within a leap second the nanoseconds run past one thousand
/// million.
pub uninterp spec fn rfc3339_instant(text: Seq<char>) -> Option<(i64, u32)>;

/// Whether the first instant lies before the second.
pub open spec fn is_before(first: (i64, u32), second: (i64, u32)) -> bool {
    first.0 < second.0 || (first.0 == second.0 && first.1 < second.1)
}

/// Compares two instants.
pub fn before(first: (i64, u32), second: (i64, u32)) -> (res: bool)
    ensures
        res == is_before(first, second),
{
    first.0 < second.0 || (first.0 == second.0 && first.1 < second.1)
}

/// `chrono::DateTime::parse_from_rfc3339`, the parsed value being taken apart by
/// `timestamp` and `timestamp_subsec_nanos`. The result depends on the text
/// alone and gets the name [`rfc3339_instant`]. `chrono` orders two parsed
/// values by their date, second and nanosecond in UTC, which is how
/// [`is_before`] orders the pairs.
#[verifier::external_body]
pub(crate) fn parse_rfc3339(text: &str) -> (res: Option<(i64, u32)>)
    ensures
        res == rfc3339_instant(text@),
{
    match chrono::DateTime::parse_from_rfc3339(text) {
        Ok(moment) => Some((moment.timestamp(), moment.timestamp_subsec_nanos())),
        Err(_) => None,
    }
}

/// `chrono::Utc::now`, written out by `to_rfc3339`: the current date and time in
/// UTC. Which one it is depends on the clock; whichever it is, the text ends in
/// the offset `+00:00`. A clock set before 1970 makes `chrono` panic.
#[verifier::external_body]
pub fn now_rfc3339() -> (res: String)
    ensures
        "+00:00"@.is_suffix_of(res@),
{
    chrono::Utc::now().to_rfc3339()
}

/// An instant lies before another if its second does, or if the second is the
/// same and its nanosecond does.
pub proof fn law_before_compares_second_then_nanosecond(
    first: (i64, u32),
    second: (i64, u32),
    res: bool,
)
    requires
        call_ensures(before, (first, second), res),
    ensures
        first.0 < second.0 ==> res,
        first.0 > second.0 ==> !res,
        first.0 == second.0 ==> res == (first.1 < second.1),
{
}

} // verus!
