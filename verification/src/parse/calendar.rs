//! The calendar, as `chrono` computes it: from a date and a time of day to
//! seconds since the epoch.

use chrono::{Datelike, FixedOffset, Local, NaiveDate, Utc};
use vstd::prelude::*;

verus! {

/// The seconds from 1970-01-01T00:00:00Z to the given date and time of day in
/// UTC, as `chrono` counts them; `None` where `chrono` knows no such date or
/// no such time of day.
pub uninterp spec fn utc_seconds(
    year: int,
    month: int,
    day: int,
    hour: int,
    min: int,
    sec: int,
) -> Option<int>;

/// The seconds from 1970-01-01T00:00:00Z to the given date and time of day at
/// `offset` seconds east of UTC, as `chrono` counts them; `None` where
/// `chrono` knows no such date, time of day or offset.
pub uninterp spec fn offset_seconds(
    year: int,
    month: int,
    day: int,
    hour: int,
    min: int,
    sec: int,
    offset: int,
) -> Option<int>;

/// Calls `chrono::NaiveDate::from_ymd_opt`, `NaiveDate::and_hms_opt`,
/// `NaiveDateTime::and_local_timezone` with `Utc`, and `DateTime::timestamp`.
/// The result is a function of the arguments alone and goes by the name
/// `utc_seconds`; nothing else is claimed of it.
#[verifier::external_body]
pub(crate) fn utc_timestamp(year: i32, month: u32, day: u32, hour: u32, min: u32, sec: u32) -> (r:
    Option<i64>)
    ensures
        match r {
            Some(seconds) => utc_seconds(
                year as int,
                month as int,
                day as int,
                hour as int,
                min as int,
                sec as int,
            ) == Some(seconds as int),
            None => utc_seconds(
                year as int,
                month as int,
                day as int,
                hour as int,
                min as int,
                sec as int,
            ) is None,
        },
{
    let date = NaiveDate::from_ymd_opt(year, month, day)?;
    let naive = date.and_hms_opt(hour, min, sec)?;
    let utc = naive.and_local_timezone(Utc).single()?;
    Some(utc.timestamp())
}

/// Calls `chrono::FixedOffset::east_opt`, `NaiveDate::from_ymd_opt`,
/// `NaiveDate::and_hms_opt`, `NaiveDateTime::and_local_timezone` with the
/// fixed offset, `DateTime::with_timezone` and `DateTime::timestamp`. The
/// result is a function of the arguments alone and goes by the name
/// `offset_seconds`; nothing else is claimed of it.
#[verifier::external_body]
pub(crate) fn offset_timestamp(
    year: i32,
    month: u32,
    day: u32,
    hour: u32,
    min: u32,
    sec: u32,
    offset: i32,
) -> (r: Option<i64>)
    ensures
        match r {
            Some(seconds) => offset_seconds(
                year as int,
                month as int,
                day as int,
                hour as int,
                min as int,
                sec as int,
                offset as int,
            ) == Some(seconds as int),
            None => offset_seconds(
                year as int,
                month as int,
                day as int,
                hour as int,
                min as int,
                sec as int,
                offset as int,
            ) is None,
        },
{
    let zone = FixedOffset::east_opt(offset)?;
    let date = NaiveDate::from_ymd_opt(year, month, day)?;
    let naive = date.and_hms_opt(hour, min, sec)?;
    let local = naive.and_local_timezone(zone).earliest()?;
    Some(local.with_timezone(&Utc).timestamp())
}

/// Calls `chrono::NaiveDate::from_ymd_opt`, `NaiveDate::and_hms_opt`,
/// `NaiveDateTime::and_local_timezone` with `Local`, `DateTime::with_timezone`
/// and `DateTime::timestamp`. The result depends on the time zone of the
/// machine. One thing holds of it in every time zone: the first two calls are
/// those behind `utc_seconds`, so a date or a time of day that `chrono` does
/// not know gives `None`.
#[verifier::external_body]
pub(crate) fn local_timestamp(year: i32, month: u32, day: u32, hour: u32, min: u32, sec: u32) -> (r:
    Option<i64>)
    ensures
        utc_seconds(year as int, month as int, day as int, hour as int, min as int, sec as int)
            is None ==> r is None,
{
    let date = NaiveDate::from_ymd_opt(year, month, day)?;
    let naive = date.and_hms_opt(hour, min, sec)?;
    let local = naive.and_local_timezone(Local).earliest()?;
    Some(local.with_timezone(&Utc).timestamp())
}

/// Calls `chrono::Utc::now` and `Datelike::year`. The result depends on the
/// clock: nothing is claimed of it.
#[verifier::external_body]
pub(crate) fn current_year() -> i32 {
    Utc::now().year()
}

} // verus!
