use vstd::prelude::*;

verus! {

/// The gateway's date pattern; chrono's `%.3f` also accepts a date without
/// its fraction of a second.
pub const FORMAT: &'static str = "%Y-%m-%d %H:%M:%S%.3f";

/// The UTC instant, in milliseconds since the epoch, that chrono reads from
/// `s` under the pattern `fmt`, or nothing where `s` does not match.
pub uninterp spec fn datetime_parse_of(s: Seq<char>, fmt: Seq<char>) -> Option<int>;

/// The text that chrono writes for the UTC instant `millis` under `fmt`.
pub uninterp spec fn datetime_text_of(millis: int, fmt: Seq<char>) -> Seq<char>;

/// Relies on chrono's `NaiveDateTime::parse_from_str`, read as a UTC instant
/// (`and_utc().timestamp_millis()`); the result depends on its arguments alone.
#[verifier::external_body]
fn parse_utc_millis(s: &str, fmt: &str) -> (r: Option<i64>)
    ensures
        r is None <==> datetime_parse_of(s@, fmt@) is None,
        r matches Some(m) ==> datetime_parse_of(s@, fmt@) == Some(m as int),
{
    chrono::NaiveDateTime::parse_from_str(s, fmt).ok().map(|d| d.and_utc().timestamp_millis())
}

/// The first and last millisecond of the years 0000 to 9999.
pub const MIN_FOUR_DIGIT_YEAR_MILLIS: i64 = -62167219200000;
pub const MAX_FOUR_DIGIT_YEAR_MILLIS: i64 = 253402300799999;

/// Relies on chrono's `DateTime::<Utc>::from_timestamp_millis`, which gives
/// `None` only outside its range of about 262,000 years around the common
/// era, and `format`, with a pattern that chrono accepts.
#[verifier::external_body]
fn format_utc_millis(millis: i64, fmt: &str) -> (r: Option<String>)
    requires
        fmt@ == FORMAT@,
    ensures
        MIN_FOUR_DIGIT_YEAR_MILLIS <= millis <= MAX_FOUR_DIGIT_YEAR_MILLIS ==> r is Some,
        r matches Some(t) ==> t@ == datetime_text_of(millis as int, fmt@),
{
    chrono::DateTime::<chrono::Utc>::from_timestamp_millis(millis).map(|d| d.format(fmt).to_string())
}

/// A UTC instant, in milliseconds since the epoch.
#[derive(Debug, Clone, Copy, PartialEq, Eq, Structural)]
pub struct UtcMillis {
    pub millis: i64,
}

/// The gateway text of an instant, `YYYY-MM-DD HH:MM:SS.fff`; `None` only
/// where the instant lies outside the calendar that chrono can write, which
/// the years 0000 to 9999 are not.
pub fn serialize(date: &UtcMillis) -> (r: Option<String>)
    ensures
        MIN_FOUR_DIGIT_YEAR_MILLIS <= date.millis <= MAX_FOUR_DIGIT_YEAR_MILLIS ==> r is Some,
        r matches Some(t) ==> t@ == datetime_text_of(date.millis as int, FORMAT@),
{
    format_utc_millis(date.millis, FORMAT)
}

/// Reads gateway text `YYYY-MM-DD HH:MM:SS[.fff]` as a UTC instant.
pub fn deserialize(s: &str) -> (r: Option<UtcMillis>)
    ensures
        r is None <==> datetime_parse_of(s@, FORMAT@) is None,
        r matches Some(d) ==> datetime_parse_of(s@, FORMAT@) == Some(d.millis as int),
{
    match parse_utc_millis(s, FORMAT) {
        Some(m) => Some(UtcMillis { millis: m }),
        None => None,
    }
}

} // verus!
