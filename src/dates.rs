//! The default date range of a request. A calendar day is held as its day
//! number in the proleptic Gregorian calendar, January 1 of year 1 being
//! day 1; the calendar itself is chrono's.
use vstd::prelude::*;

verus! {

/// How many days before the end date the default range starts.
pub const DEFAULT_RANGE_DAYS: i32 = 5;

/// The `YYYY-MM-DD` text of the day with day number `days`.
pub uninterp spec fn iso_date_text(days: int) -> Seq<char>;

/// Day numbers that chrono's calendar certainly covers (its range runs to
/// more than ±95 million days).
pub open spec fn in_calendar(days: int) -> bool {
    -90_000_000 <= days <= 90_000_000
}

/// Relies on chrono's `Utc::now`, `DateTime::date_naive` and
/// `Datelike::num_days_from_ce`: today's UTC date as a day number. It depends
/// on the clock, so nothing is stated of it.
#[verifier::external_body]
fn utc_today() -> (r: i32) {
    chrono::Datelike::num_days_from_ce(&chrono::Utc::now().date_naive())
}

/// Relies on chrono's `NaiveDate::from_num_days_from_ce_opt`, which gives
/// `None` only outside the calendar's range, and on `NaiveDate::format` with
/// `%Y-%m-%d`, which depends on the date alone.
#[verifier::external_body]
fn format_iso_date(days: i32) -> (r: Option<String>)
    ensures
        r matches Some(s) ==> s@ == iso_date_text(days as int),
        in_calendar(days as int) ==> r is Some,
{
    match chrono::NaiveDate::from_num_days_from_ce_opt(days) {
        Some(d) => Some(d.format("%Y-%m-%d").to_string()),
        None => None,
    }
}

/// The default end of the range when `today` is the current UTC day: today
/// itself, as `YYYY-MM-DD`. `None` only for a day outside the calendar.
pub fn to_date_on(today: i32) -> (r: Option<String>)
    ensures
        r matches Some(s) ==> s@ == iso_date_text(today as int),
        in_calendar(today as int) ==> r is Some,
{
    format_iso_date(today)
}

/// The default start of the range when `today` is the current UTC day: five
/// days before today, as `YYYY-MM-DD`. `None` only when that day is outside
/// the calendar.
pub fn from_date_on(today: i32) -> (r: Option<String>)
    ensures
        r matches Some(s) ==> s@ == iso_date_text(today - DEFAULT_RANGE_DAYS),
        in_calendar(today - DEFAULT_RANGE_DAYS) ==> r is Some,
{
    match today.checked_sub(DEFAULT_RANGE_DAYS) {
        Some(start) => format_iso_date(start),
        None => None,
    }
}

/// Five days before today's UTC date, as `YYYY-MM-DD`.
pub fn default_from_date() -> (r: Option<String>)
    ensures
        r matches Some(s) ==> exists|today: int|
            today <= i32::MAX && s@ == #[trigger] iso_date_text(today - DEFAULT_RANGE_DAYS),
{
    let today = utc_today();
    from_date_on(today)
}

/// Today's UTC date, as `YYYY-MM-DD`.
pub fn default_to_date() -> (r: Option<String>)
    ensures
        r matches Some(s) ==> exists|today: int| today <= i32::MAX && s@ == #[trigger] iso_date_text(today),
{
    let today = utc_today();
    to_date_on(today)
}

} // verus!
