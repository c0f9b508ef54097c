//! UTC instants, held as nanoseconds since the Unix epoch, and their
//! canonical RFC 3339 text form.

use vstd::prelude::*;

verus! {

/// The instant that an RFC 3339 text denotes, in nanoseconds since the Unix
/// epoch; `None` where the text is not RFC 3339 or the instant lies outside
/// the range of an `i64` count of nanoseconds.
pub uninterp spec fn rfc3339_instant(s: Seq<char>) -> Option<i64>;

/// The RFC 3339 text (UTC offset) of an instant given in nanoseconds since the
/// Unix epoch.
pub uninterp spec fn rfc3339_text(nanos: i64) -> Seq<char>;

/// Relies on chrono's `DateTime::parse_from_rfc3339` to read the text and on
/// `DateTime::timestamp_nanos_opt` to turn the parsed instant into nanoseconds.
#[verifier::external_body]
fn parse_rfc3339(s: &str) -> (r: Option<i64>)
    ensures
        r == rfc3339_instant(s@),
{
    chrono::DateTime::parse_from_rfc3339(s).ok().and_then(|d| d.timestamp_nanos_opt())
}

/// Relies on chrono's `DateTime::<Utc>::from_timestamp_nanos`, defined for
/// every `i64`, and on `DateTime::to_rfc3339`, which writes every digit of
/// the fraction of a second, so that `DateTime::parse_from_rfc3339` reads the
/// text back as the same instant.
#[verifier::external_body]
fn write_rfc3339(nanos: i64) -> (r: String)
    ensures
        r@ == rfc3339_text(nanos),
        rfc3339_instant(r@) == Some(nanos),
{
    chrono::DateTime::<chrono::Utc>::from_timestamp_nanos(nanos).to_rfc3339()
}

/// Reads an RFC 3339 timestamp as nanoseconds since the Unix epoch.
pub fn parse_timestamp(s: &str) -> (r: Option<i64>)
    ensures
        r == rfc3339_instant(s@),
{
    parse_rfc3339(s)
}

/// Writes an instant in the canonical RFC 3339 form used for stored values.
pub fn format_timestamp(nanos: i64) -> (r: String)
    ensures
        r@ == rfc3339_text(nanos),
        rfc3339_instant(r@) == Some(nanos),
{
    write_rfc3339(nanos)
}

} // verus!
