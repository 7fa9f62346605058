//! RFC 3339 text for a point in time, as the `time` crate writes it.

use vstd::prelude::*;

verus! {

/// The RFC 3339 text of the point in time that lies `unix_nanos` nanoseconds
/// after the Unix epoch, in UTC; `None` where that point has no such text (its
/// year lies outside 0000 to 9999).
///
/// This names what the `time` crate computes. Nothing in this library says
/// what the text is for a given number.
pub uninterp spec fn rfc3339_text(unix_nanos: int) -> Option<Seq<char>>;

/// Calls `time::OffsetDateTime::from_unix_timestamp_nanos` and then
/// `time::OffsetDateTime::format` with `time::format_description::well_known::Rfc3339`.
///
/// Trusted: the outcome depends on the argument alone, so it is the value of
/// [`rfc3339_text`]. The first call refuses a timestamp outside the calendar
/// that the crate supports, the second one a year outside 0000 to 9999; either
/// refusal comes back as `None`. Neither call panics.
#[verifier::external_body]
pub(crate) fn format_rfc3339(unix_nanos: i128) -> (text: Option<String>)
    ensures
        rfc3339_text(unix_nanos as int) == (match text {
            Some(s) => Some(s@),
            None => None::<Seq<char>>,
        }),
{
    match time::OffsetDateTime::from_unix_timestamp_nanos(unix_nanos) {
        Ok(t) => t.format(&time::format_description::well_known::Rfc3339).ok(),
        Err(_) => None,
    }
}

} // verus!
