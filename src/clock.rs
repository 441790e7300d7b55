use vstd::prelude::*;
use crate::text::digit_char;

verus! {

/// The text of an optional string.
pub open spec fn opt_text(o: Option<String>) -> Option<Seq<char>> {
    match o {
        Some(s) => Some(s@),
        None => None,
    }
}

/// Two decimal digits, zero-padded, of a number below one hundred.
pub open spec fn two_digits(n: int) -> Seq<char> {
    seq![digit_char((n / 10) as nat), digit_char((n % 10) as nat)]
}

/// Whether a count of seconds since midnight and a fraction in nanoseconds make a time of
/// day; a fraction of a second or more is a leap second, allowed in the last second of a
/// minute only.
pub open spec fn is_time_of_day(secs: int, nano: int) -> bool {
    &&& 0 <= secs < 86_400
    &&& 0 <= nano < 2_000_000_000
    &&& (nano >= 1_000_000_000 ==> secs % 60 == 59)
}

/// The `HH:MM:SS` text of a time of day; a leap second shows as second 60.
pub open spec fn clock_text(secs: int, nano: int) -> Option<Seq<char>> {
    if is_time_of_day(secs, nano) {
        Some(two_digits(secs / 3600) + seq![':'] + two_digits((secs / 60) % 60) + seq![':']
            + two_digits(secs % 60 + nano / 1_000_000_000))
    } else {
        None
    }
}

/// The `YYYY-MM-DD HH:MM:SS` text of the UTC instant `secs` seconds and `nsecs` nanoseconds
/// after the Unix epoch, where that instant is one.
pub uninterp spec fn utc_timestamp_text(secs: int, nsecs: int) -> Option<Seq<char>>;

/// The `YYYY-MM-DD` text of the date `days` days after 1970-01-01, where there is one.
pub uninterp spec fn epoch_date_text(days: int) -> Option<Seq<char>>;

/// Relies on chrono's `DateTime::from_timestamp`, which gives the instant where there is one,
/// and on its `%Y-%m-%d %H:%M:%S` formatting.
#[verifier::external_body]
pub(crate) fn format_utc_timestamp(secs: i64, nsecs: u32) -> (r: Option<String>)
    ensures
        opt_text(r) == utc_timestamp_text(secs as int, nsecs as int),
{
    chrono::DateTime::from_timestamp(secs, nsecs).map(
        |dt| dt.format("%Y-%m-%d %H:%M:%S").to_string(),
    )
}

/// Relies on chrono's `NaiveDate::checked_add_days` from 1970-01-01 and its `%Y-%m-%d`
/// formatting.
#[verifier::external_body]
pub(crate) fn format_epoch_date(days: u64) -> (r: Option<String>)
    ensures
        opt_text(r) == epoch_date_text(days as int),
{
    chrono::NaiveDate::from_ymd_opt(1970, 1, 1).and_then(
        |d| d.checked_add_days(chrono::Days::new(days)),
    ).map(|d| d.format("%Y-%m-%d").to_string())
}

/// Relies on chrono's `NaiveTime::from_num_seconds_from_midnight_opt`, which refuses what is
/// not a time of day, and on its `%H:%M:%S` formatting, which writes a leap second as 60.
#[verifier::external_body]
pub(crate) fn format_clock_time(secs: u32, nano: u32) -> (r: Option<String>)
    ensures
        opt_text(r) == clock_text(secs as int, nano as int),
{
    chrono::NaiveTime::from_num_seconds_from_midnight_opt(secs, nano).map(
        |t| t.format("%H:%M:%S").to_string(),
    )
}

} // verus!
