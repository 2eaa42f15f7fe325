//! Calendar dates: reading them with `chrono`, shifting them by days, writing them back and
//! comparing them.
use vstd::prelude::*;
use chrono::Datelike;
use crate::text::{decimal, padded_decimal, zero_padded};

verus! {

/// A day of the proleptic Gregorian calendar, by year, month (1 to 12) and day of month.
#[derive(Clone, Copy, Debug, PartialEq, Eq, Structural)]
pub struct CalendarDate {
    pub year: i32,
    pub month: u32,
    pub day: u32,
}

/// What `NaiveDate::parse_from_str` with the format `%Y-%m-%d` gives for `s`: the date, or
/// the text of its parse error.
pub uninterp spec fn ymd_parse(s: Seq<char>) -> Result<CalendarDate, Seq<char>>;

/// Calls `chrono::NaiveDate::parse_from_str(s, "%Y-%m-%d")`. The contract names its result
/// (`ymd_parse`), the date's fields or the error's display text, and states the ranges that
/// chrono's `Datelike::month` and `Datelike::day` document; the parsing rules are not stated.
#[verifier::external_body]
pub(crate) fn parse_ymd(s: &str) -> (r: Result<CalendarDate, String>)
    ensures
        r matches Ok(d) ==> ymd_parse(s@) is Ok && ymd_parse(s@)->Ok_0 == d && 1 <= d.month <= 12
            && 1 <= d.day <= 31,
        r matches Err(e) ==> ymd_parse(s@) is Err && ymd_parse(s@)->Err_0 == e@,
{
    match chrono::NaiveDate::parse_from_str(s, "%Y-%m-%d") {
        Ok(d) => Ok(CalendarDate { year: d.year(), month: d.month(), day: d.day() }),
        Err(e) => Err(e.to_string()),
    }
}

/// The date `days` days after `d` (before it, for a negative count), as
/// `NaiveDate::checked_add_signed` gives it; `None` where `d` is no date or the result leaves
/// chrono's range.
pub uninterp spec fn date_shift(d: CalendarDate, days: int) -> Option<CalendarDate>;

/// Calls `chrono::NaiveDate::checked_add_signed` on the date `d` with a span of `days` days.
/// The contract names the result (`date_shift`); the calendar arithmetic is not stated.
#[verifier::external_body]
pub(crate) fn shift_date(d: CalendarDate, days: i64) -> (r: Option<CalendarDate>)
    ensures
        r == date_shift(d, days as int),
{
    let nd = chrono::NaiveDate::from_ymd_opt(d.year, d.month, d.day)?;
    let moved = nd.checked_add_signed(chrono::TimeDelta::try_days(days)?)?;
    Some(CalendarDate { year: moved.year(), month: moved.month(), day: moved.day() })
}

/// `a` comes strictly before `b` in the calendar.
pub open spec fn date_before(a: CalendarDate, b: CalendarDate) -> bool {
    a.year < b.year || (a.year == b.year && (a.month < b.month || (a.month == b.month && a.day
        < b.day)))
}

/// Whether `a` comes strictly before `b`.
pub fn is_before(a: CalendarDate, b: CalendarDate) -> (r: bool)
    ensures
        r == date_before(a, b),
{
    a.year < b.year || (a.year == b.year && (a.month < b.month || (a.month == b.month && a.day
        < b.day)))
}

/// The year as `%Y` writes it: four digits, zero-padded, for the years 0 to 9999, and
/// otherwise a sign followed by at least four digits.
pub open spec fn year_text(y: int) -> Seq<char> {
    if 0 <= y <= 9999 {
        zero_padded(decimal(y as nat), 4)
    } else if y < 0 {
        "-"@ + zero_padded(decimal((-y) as nat), 4)
    } else {
        "+"@ + zero_padded(decimal(y as nat), 4)
    }
}

/// The date as the format `%Y-%m-%d` writes it.
pub open spec fn date_text(d: CalendarDate) -> Seq<char> {
    year_text(d.year as int) + "-"@ + zero_padded(decimal(d.month as nat), 2) + "-"@
        + zero_padded(decimal(d.day as nat), 2)
}

/// Writes the year as `%Y` does.
pub fn format_year(y: i32) -> (r: String)
    ensures
        r@ == year_text(y as int),
{
    proof {
        reveal_strlit("-");
        reveal_strlit("+");
    }
    if 0 <= y && y <= 9999 {
        padded_decimal(y as u64, 4)
    } else if y < 0 {
        let mut r = "-".to_owned();
        let abs: u64 = (-(y as i64)) as u64;
        let d = padded_decimal(abs, 4);
        r.append(d.as_str());
        r
    } else {
        let mut r = "+".to_owned();
        let d = padded_decimal(y as u64, 4);
        r.append(d.as_str());
        r
    }
}

/// Writes the date as the format `%Y-%m-%d` does.
pub fn format_date(d: CalendarDate) -> (r: String)
    ensures
        r@ == date_text(d),
{
    let mut r = format_year(d.year);
    r.append("-");
    let m = padded_decimal(d.month as u64, 2);
    r.append(m.as_str());
    r.append("-");
    let dd = padded_decimal(d.day as u64, 2);
    r.append(dd.as_str());
    proof {
        reveal_strlit("-");
    }
    r
}

/// The date `days - 1` days after `start`: the last day of a span of `days` days that
/// begins on `start`.
pub open spec fn span_end(start: CalendarDate, days: u32) -> Option<CalendarDate> {
    date_shift(start, days as int - 1)
}

} // verus!
