//! Reading the timestamp argument of an alarm request.
use vstd::prelude::*;

verus! {

/// What chrono makes of an RFC 3339 timestamp (relaxed as chrono relaxes it):
/// the seconds since the Unix epoch and the offset east of UTC in seconds,
/// or `None` where chrono refuses the text.
pub uninterp spec fn fixed_offset_parse(s: Seq<char>) -> Option<(i64, i32)>;

/// Relies on chrono's `FromStr for DateTime<FixedOffset>`, `DateTime::timestamp`
/// and `FixedOffset::local_minus_utc`: the text is parsed as a timestamp with a
/// fixed offset, and the outcome depends on the text alone.
#[verifier::external_body]
pub(crate) fn parse_fixed_offset(s: &str) -> (r: Option<(i64, i32)>)
    ensures
        r == fixed_offset_parse(s@),
{
    s.parse::<chrono::DateTime<chrono::FixedOffset>>().ok().map(
        |d| (d.timestamp(), d.offset().local_minus_utc()),
    )
}

/// What chrono makes of an RFC 2822 date, such as an HTTP `Date` header: the
/// seconds since the Unix epoch and the offset east of UTC in seconds, or
/// `None` where chrono refuses the text.
pub uninterp spec fn rfc2822_parse(s: Seq<char>) -> Option<(i64, i32)>;

/// Relies on chrono's `DateTime::parse_from_rfc2822`, `DateTime::timestamp` and
/// `FixedOffset::local_minus_utc`: the outcome depends on the text alone.
#[verifier::external_body]
fn parse_rfc2822(s: &str) -> (r: Option<(i64, i32)>)
    ensures
        r == rfc2822_parse(s@),
{
    chrono::DateTime::parse_from_rfc2822(s).ok().map(
        |d| (d.timestamp(), d.offset().local_minus_utc()),
    )
}

/// The time that a time authority reports in the `Date` header of its HTTP
/// response, where the header can be read; the clocks are set from it.
pub fn web_time(date_header: &str) -> (r: Option<(i64, i32)>)
    ensures
        r == rfc2822_parse(date_header@),
{
    parse_rfc2822(date_header)
}

} // verus!
