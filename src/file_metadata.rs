//! Conversions between calendar dates and the seconds-since-1970 timestamps
//! that file systems store. Dates are read and written at midnight UTC, in
//! both directions, so that a written date reads back unchanged.
use vstd::prelude::*;
use crate::calendar::Date;

verus! {

/// Seconds since 1970-01-01T00:00:00Z of midnight UTC on the given day.
pub uninterp spec fn utc_midnight_timestamp(year: int, month: int, day: int) -> int;

/// The UTC calendar day, as year, month and day, of the instant `secs`
/// seconds after 1970-01-01T00:00:00Z, where chrono can represent it.
pub uninterp spec fn utc_date_of_timestamp(secs: int) -> Option<(int, int, int)>;

/// Relies on chrono's NaiveDate::from_ymd_opt, NaiveDate::and_time with
/// NaiveTime::MIN, NaiveDateTime::and_utc and DateTime::timestamp: the
/// timestamp of midnight UTC of a valid date, which chrono always represents.
#[verifier::external_body]
pub(crate) fn chrono_midnight_utc(date: Date) -> (r: i64)
    requires
        date.wf(),
    ensures
        r == utc_midnight_timestamp(date.year as int, date.month as int, date.day as int),
{
    chrono::NaiveDate::from_ymd_opt(date.year, date.month, date.day).unwrap().and_time(
        chrono::NaiveTime::MIN,
    ).and_utc().timestamp()
}

/// Relies on chrono's DateTime::<Utc>::from_timestamp, which is `None` out of
/// its range, and DateTime::date_naive, whose result is always a valid date.
#[verifier::external_body]
pub(crate) fn chrono_utc_date(secs: i64) -> (r: Option<Date>)
    ensures
        r is Some <==> utc_date_of_timestamp(secs as int) is Some,
        r matches Some(d) ==> d.wf() && utc_date_of_timestamp(secs as int) == Some(
            (d.year as int, d.month as int, d.day as int),
        ),
{
    chrono::DateTime::<chrono::Utc>::from_timestamp(secs, 0).map(
        |t| {
            let d = t.date_naive();
            Date {
                year: chrono::Datelike::year(&d),
                month: chrono::Datelike::month(&d),
                day: chrono::Datelike::day(&d),
            }
        },
    )
}

} // verus!
