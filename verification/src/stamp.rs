//! Wall-clock time as text, and fresh identifiers.
//!
//! Wall-clock time is counted in milliseconds since 1970-01-01 00:00:00 UTC.

use vstd::prelude::*;

verus! {

/// The text that a moment of UTC time gives under a `strftime` pattern, or
/// `None` where the moment is out of the calendar's range or the pattern is
/// not a valid one.
pub uninterp spec fn utc_text(unix_millis: i64, pattern: Seq<char>) -> Option<Seq<char>>;

/// The RFC 3339 text of a moment of UTC time, or `None` where the moment is
/// out of the calendar's range.
pub uninterp spec fn rfc3339_text(unix_millis: i64) -> Option<Seq<char>>;

/// Whether an optional string holds the expected optional text.
pub open spec fn text_is(found: Option<String>, expected: Option<Seq<char>>) -> bool {
    match found {
        Some(s) => expected == Some(s@),
        None => expected is None,
    }
}

/// `chrono::DateTime::<Utc>::from_timestamp_millis`, then `DateTime::format`
/// written out with `DelayedFormat::write_to`: the moment's text under the
/// pattern. The result depends on the two arguments alone. `None` where the
/// first call finds the moment out of range or the last reports an error.
#[verifier::external_body]
fn format_utc(unix_millis: i64, pattern: &str) -> (r: Option<String>)
    ensures
        text_is(r, utc_text(unix_millis, pattern@)),
{
    let moment = chrono::DateTime::<chrono::Utc>::from_timestamp_millis(unix_millis)?;
    let mut out = String::new();
    moment.format(pattern).write_to(&mut out).ok()?;
    Some(out)
}

/// `chrono::DateTime::<Utc>::from_timestamp_millis`, then
/// `DateTime::to_rfc3339`: the moment's RFC 3339 text. The result depends on
/// the argument alone. `None` where the moment is out of range.
#[verifier::external_body]
fn format_rfc3339(unix_millis: i64) -> (r: Option<String>)
    ensures
        text_is(r, rfc3339_text(unix_millis)),
{
    let moment = chrono::DateTime::<chrono::Utc>::from_timestamp_millis(unix_millis)?;
    Some(moment.to_rfc3339())
}

/// `uuid::Uuid::new_v4`, written out in the hyphenated form: a random
/// identifier of 36 characters. Nothing else is claimed of it; two calls
/// differ. The call fails only where the operating system has no random
/// bytes to give.
#[verifier::external_body]
pub(crate) fn random_id() -> (r: String)
    ensures
        r@.len() == 36,
{
    uuid::Uuid::new_v4().to_string()
}

/// The pattern of the time in a snapshot folder's name: to the second.
pub open spec fn folder_pattern() -> Seq<char> {
    "%Y%m%d_%H%M%S"@
}

/// The pattern of the time in an image file's name: to the millisecond.
pub open spec fn file_pattern() -> Seq<char> {
    "%Y%m%d_%H%M%S%3f"@
}

/// The time stamp that goes into a snapshot folder's name.
pub fn folder_stamp(unix_millis: i64) -> (r: Option<String>)
    ensures
        text_is(r, utc_text(unix_millis, folder_pattern())),
{
    format_utc(unix_millis, "%Y%m%d_%H%M%S")
}

/// The time stamp that goes into the name of a captured image.
pub fn file_stamp(unix_millis: i64) -> (r: Option<String>)
    ensures
        text_is(r, utc_text(unix_millis, file_pattern())),
{
    format_utc(unix_millis, "%Y%m%d_%H%M%S%3f")
}

/// The creation time that goes into a record.
pub fn created_at_text(unix_millis: i64) -> (r: Option<String>)
    ensures
        text_is(r, rfc3339_text(unix_millis)),
{
    format_rfc3339(unix_millis)
}

} // verus!
