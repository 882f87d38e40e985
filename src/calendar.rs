//! Calendar dates and instants, with the date arithmetic and text that chrono provides.

use vstd::prelude::*;
use chrono::{DateTime, Datelike, Local, NaiveDate, Utc};

verus! {

/// The first year that chrono's dates can hold.
pub const MIN_YEAR: i32 = -262143;

/// The last year that chrono's dates can hold.
pub const MAX_YEAR: i32 = 262142;

/// Unix time of the first second of `MIN_YEAR`.
pub const MIN_TIMESTAMP: i64 = -8334601228800;

/// Unix time of the last second of `MAX_YEAR`.
pub const MAX_TIMESTAMP: i64 = 8210266876799;

/// A day of the proleptic Gregorian calendar.
#[derive(Clone, Copy, Debug, PartialEq, Eq, Structural)]
pub struct CivilDate {
    pub year: i32,
    pub month: u32,
    pub day: u32,
}

pub open spec fn is_leap_year(y: int) -> bool {
    (y % 4 == 0 && y % 100 != 0) || y % 400 == 0
}

pub open spec fn days_in_month(y: int, m: int) -> int {
    if m == 2 {
        if is_leap_year(y) {
            29
        } else {
            28
        }
    } else if m == 4 || m == 6 || m == 9 || m == 11 {
        30
    } else {
        31
    }
}

impl CivilDate {
    /// A real calendar day within chrono's range.
    pub open spec fn wf(self) -> bool {
        &&& MIN_YEAR <= self.year <= MAX_YEAR
        &&& 1 <= self.month <= 12
        &&& 1 <= self.day <= days_in_month(self.year as int, self.month as int)
    }
}

/// The day after `d`, unless `d` is the last day chrono can hold.
pub open spec fn successor(d: CivilDate) -> Option<CivilDate> {
    if d.day < days_in_month(d.year as int, d.month as int) {
        Some(CivilDate { year: d.year, month: d.month, day: (d.day + 1) as u32 })
    } else if d.month < 12 {
        Some(CivilDate { year: d.year, month: (d.month + 1) as u32, day: 1 })
    } else if d.year < MAX_YEAR {
        Some(CivilDate { year: (d.year + 1) as i32, month: 1, day: 1 })
    } else {
        None
    }
}

/// Calendar order of days.
pub open spec fn date_before(a: CivilDate, b: CivilDate) -> bool {
    a.year < b.year || (a.year == b.year && (a.month < b.month || (a.month == b.month && a.day
        < b.day)))
}

/// The day after a day comes after it.
pub proof fn lemma_successor_after(d: CivilDate)
    requires
        d.wf(),
        successor(d) is Some,
    ensures
        date_before(d, successor(d)->0),
        successor(d)->0.wf(),
{
}

/// Whether chrono can place the Unix time `ts` on its calendar.
pub open spec fn timestamp_in_range(ts: int) -> bool {
    MIN_TIMESTAMP <= ts <= MAX_TIMESTAMP
}

/// The UTC text of an instant, in the shape `2024-06-21 03:43:09 +00:00`.
pub uninterp spec fn utc_text(ts: int) -> Seq<char>;

/// A day in the shape `2024-06-21`.
pub uninterp spec fn ymd_text(year: int, month: int, day: int) -> Seq<char>;

/// What chrono reads as a `%Y-%m-%d` date in a text, if anything.
pub uninterp spec fn parsed_ymd(s: Seq<char>) -> Option<(int, int, int)>;

/// Relies on chrono's `DateTime::<Utc>::from_timestamp`, which places every second
/// of its calendar range and nothing outside it, and on its `format`.
#[verifier::external_body]
pub(crate) fn utc_timestamp_text(ts: i64) -> (r: Option<String>)
    ensures
        r is Some <==> timestamp_in_range(ts as int),
        r matches Some(s) ==> s@ == utc_text(ts as int),
{
    DateTime::<Utc>::from_timestamp(ts, 0).map(|t| t.format("%Y-%m-%d %H:%M:%S %:z").to_string())
}

/// Relies on chrono's `DateTime::with_timezone` into the machine's time zone and
/// its `format`; the text depends on that zone, so nothing is stated of it.
#[verifier::external_body]
pub(crate) fn local_timestamp_text(ts: i64) -> (r: String)
    requires
        timestamp_in_range(ts as int),
{
    DateTime::<Utc>::from_timestamp(ts, 0).map(
        |t| t.with_timezone(&Local).format("%Y-%m-%d %H:%M:%S %:z").to_string(),
    ).unwrap_or_default()
}

/// Relies on chrono's `NaiveDate::format` with `%Y-%m-%d`.
#[verifier::external_body]
pub(crate) fn date_text(d: CivilDate) -> (r: String)
    requires
        d.wf(),
    ensures
        r@ == ymd_text(d.year as int, d.month as int, d.day as int),
{
    NaiveDate::from_ymd_opt(d.year, d.month, d.day).map(
        |n| n.format("%Y-%m-%d").to_string(),
    ).unwrap_or_default()
}

/// Relies on chrono's `NaiveDate::succ_opt`: the next calendar day, none after the last.
#[verifier::external_body]
pub(crate) fn next_day(d: CivilDate) -> (r: Option<CivilDate>)
    requires
        d.wf(),
    ensures
        r == successor(d),
{
    NaiveDate::from_ymd_opt(d.year, d.month, d.day).and_then(|n| n.succ_opt()).map(
        |n| CivilDate { year: n.year(), month: n.month(), day: n.day() },
    )
}

/// Relies on chrono's `NaiveDate::parse_from_str` with `%Y-%m-%d`; a date it
/// returns is always a real one. A failure carries chrono's message.
#[verifier::external_body]
pub(crate) fn parse_ymd(s: &str) -> (r: Result<CivilDate, String>)
    ensures
        r matches Ok(d) ==> d.wf() && parsed_ymd(s@) == Some(
            (d.year as int, d.month as int, d.day as int),
        ),
        r is Err ==> parsed_ymd(s@) is None,
{
    match NaiveDate::parse_from_str(s, "%Y-%m-%d") {
        Ok(n) => Ok(CivilDate { year: n.year(), month: n.month(), day: n.day() }),
        Err(e) => Err(e.to_string()),
    }
}

/// Relies on chrono's `Local::now`: today in the machine's time zone, a real date.
#[verifier::external_body]
pub(crate) fn local_today() -> (r: CivilDate)
    ensures
        r.wf(),
{
    let n = Local::now().date_naive();
    CivilDate { year: n.year(), month: n.month(), day: n.day() }
}

} // verus!
