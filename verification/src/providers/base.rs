//! Text handling that the providers share: timestamps, date windows and hour stamps.
use vstd::prelude::*;
use vstd::string::StringExecFns;
use crate::dates::{date_shift, date_text, format_date, parse_ymd, shift_date, ymd_parse, CalendarDate};
use crate::text::{
    before_char, before_char_chars, chars_of, digit_char_of, lex_lt, remove_char,
    remove_char_chars, replace_char, replace_char_chars, str_lt, string_of, two_digits,
};

verus! {

/// A provider timestamp without its zone: every `Z` removed, then cut at the first `+`.
pub open spec fn strip_zone(t: Seq<char>) -> Seq<char> {
    before_char(remove_char(t, 'Z'), '+')
}

/// The timestamp `t` without its zone, as the providers write it into points.
pub fn strip_zone_str(t: &str) -> (r: String)
    ensures
        r@ == strip_zone(t@),
{
    let v = chars_of(t);
    let no_z = remove_char_chars(&v, 'Z');
    let cut = before_char_chars(&no_z, '+');
    string_of(&cut)
}

/// The date part of a `YYYY-MM-DDTHH:MM` timestamp: the text before its first `T`.
pub open spec fn date_part(t: Seq<char>) -> Seq<char> {
    before_char(t, 'T')
}

/// `date` lies in the inclusive window `[start, end]` in the order of `str`.
pub open spec fn date_in_window(date: Seq<char>, start: Seq<char>, end: Seq<char>) -> bool {
    !lex_lt(date, start) && !lex_lt(end, date)
}

/// Whether `date` lies in the inclusive window `[start, end]`.
pub fn date_in_window_chars(date: &Vec<char>, start: &Vec<char>, end: &Vec<char>) -> (b: bool)
    ensures
        b == date_in_window(date@, start@, end@),
{
    !str_lt(date, start) && !str_lt(end, date)
}

/// Whether the timestamp `t` falls on a date in `[start, end]`.
pub fn timestamp_in_window(t: &str, start: &str, end: &str) -> (b: bool)
    ensures
        b == date_in_window(date_part(t@), start@, end@),
{
    let tv = chars_of(t);
    let d = before_char_chars(&tv, 'T');
    let s = chars_of(start);
    let e = chars_of(end);
    date_in_window_chars(&d, &s, &e)
}

/// The stamp of hour `h` on `date`: the date, `T`, the two-digit hour and `tail`.
pub open spec fn hour_stamp(date: Seq<char>, h: nat, tail: Seq<char>) -> Seq<char> {
    date + "T"@ + two_digits(h) + tail
}

/// Writes the stamp of hour `h` (below 100) on `date`, followed by `tail`, as
/// `format!("{}T{:02}{}", date, h, tail)` does.
pub fn hour_stamp_str(date: &str, h: u32, tail: &str) -> (r: String)
    requires
        h < 100,
    ensures
        r@ == hour_stamp(date@, h as nat, tail@),
{
    let mut v = chars_of(date);
    v.push('T');
    let tens = digit_char_of(h / 10);
    let ones = digit_char_of(h % 10);
    v.push(tens);
    v.push(ones);
    let t = chars_of(tail);
    let mut i: usize = 0;
    let ghost base = v@;
    proof {
        reveal_strlit("T");
        assert(base =~= date@ + "T"@ + two_digits(h as nat));
    }
    while i < t.len()
        invariant
            i <= t.len(),
            v@ == base + t@.take(i as int),
        decreases t.len() - i,
    {
        v.push(t[i]);
        i = i + 1;
        assert(v@ =~= base + t@.take(i as int));
    }
    assert(t@.take(t.len() as int) =~= t@);
    assert(v@ =~= hour_stamp(date@, h as nat, tail@));
    string_of(&v)
}

/// The 24 hourly stamps of `date`, from `T00` to `T23`, each followed by `tail`.
pub fn day_stamps(date: &str, tail: &str) -> (r: Vec<String>)
    ensures
        r@.len() == 24,
        forall|h: int| 0 <= h < 24 ==> (#[trigger] r@[h])@ == hour_stamp(date@, h as nat, tail@),
{
    let mut r: Vec<String> = Vec::new();
    let mut h: u32 = 0;
    while h < 24
        invariant
            h <= 24,
            r@.len() == h,
            forall|k: int| 0 <= k < h ==> (#[trigger] r@[k])@ == hour_stamp(date@, k as nat, tail@),
        decreases 24 - h,
    {
        r.push(hour_stamp_str(date, h, tail));
        h = h + 1;
    }
    r
}


/// Whether the stamp `t`, whose date is the text before the first `sep`, falls on a date in
/// `[start, end]`.
pub fn stamp_in_window(t: &str, sep: char, start: &str, end: &str) -> (b: bool)
    ensures
        b == date_in_window(before_char(t@, sep), start@, end@),
{
    let tv = chars_of(t);
    let d = before_char_chars(&tv, sep);
    let s = chars_of(start);
    let e = chars_of(end);
    date_in_window_chars(&d, &s, &e)
}

/// The stamp `t` with every space turned into `T`.
pub fn space_to_t(t: &str) -> (r: String)
    ensures
        r@ == replace_char(t@, ' ', 'T'),
{
    let v = chars_of(t);
    let w = replace_char_chars(&v, ' ', 'T');
    string_of(&w)
}

/// What `chrono::DateTime::from_timestamp(secs, 0)` gives, read as UTC and written with
/// `%Y-%m-%dT%H:%M:%S`; the start of 1970 where the seconds lie outside chrono's range.
pub uninterp spec fn utc_stamp(secs: i64) -> Seq<char>;

/// Calls `chrono::DateTime::from_timestamp(secs, 0)`, takes its UTC time (the default time,
/// the start of 1970, where there is none) and writes it with `%Y-%m-%dT%H:%M:%S`. The
/// contract names the result (`utc_stamp`); the calendar arithmetic is not stated.
#[verifier::external_body]
pub(crate) fn utc_stamp_of(secs: i64) -> (r: String)
    ensures
        r@ == utc_stamp(secs),
{
    chrono::DateTime::from_timestamp(secs, 0)
        .map(|d| d.naive_utc())
        .unwrap_or_default()
        .format("%Y-%m-%dT%H:%M:%S")
        .to_string()
}

/// The UTC stamp of the Unix time `secs` where its date falls in `[start, end]`, and `None`
/// where it falls outside: how the providers that report Unix times keep an hour.
pub fn utc_stamp_in_window(secs: i64, start: &str, end: &str) -> (r: Option<String>)
    ensures
        r is Some <==> date_in_window(before_char(utc_stamp(secs), 'T'), start@, end@),
        r matches Some(s) ==> s@ == utc_stamp(secs),
{
    let stamp = utc_stamp_of(secs);
    if stamp_in_window(stamp.as_str(), 'T', start, end) {
        Some(stamp)
    } else {
        None
    }
}

/// The dates of the `days` days from `today`, where chrono's calendar reaches them all.
pub open spec fn run_dates(today: CalendarDate, days: nat) -> Option<Seq<Seq<char>>> {
    if forall|d: int| 0 <= d < days ==> #[trigger] date_shift(today, d) is Some {
        Some(Seq::new(days, |d: int| date_text(date_shift(today, d)->0)))
    } else {
        None
    }
}

/// The dates of the `days` days that start today, as `YYYY-MM-DD`; `None` where one of them
/// lies beyond chrono's calendar.
pub fn days_from(today: CalendarDate, days: u32) -> (r: Option<Vec<String>>)
    ensures
        match run_dates(today, days as nat) {
            Some(s) => r matches Some(v) && v@.map_values(|x: String| x@) == s,
            None => r is None,
        },
{
    let mut v: Vec<String> = Vec::new();
    let mut d: u32 = 0;
    while d < days
        invariant
            d <= days,
            v.len() == d,
            forall|k: int| 0 <= k < d ==> #[trigger] date_shift(today, k) is Some,
            forall|k: int| 0 <= k < d ==> (#[trigger] v@[k])@ == date_text(date_shift(today, k)->0),
        decreases days - d,
    {
        match shift_date(today, d as i64) {
            Some(x) => {
                v.push(format_date(x));
            },
            None => {
                assert(!(forall|k: int| 0 <= k < days ==> #[trigger] date_shift(today, k) is Some));
                return None;
            },
        }
        d = d + 1;
    }
    assert(v@.map_values(|x: String| x@) =~= Seq::new(days as nat, |k: int| date_text(date_shift(today, k)->0)));
    Some(v)
}

/// The day that a provider serving only the current conditions reports on: the start date,
/// or today where it does not read as a date.
pub open spec fn report_day(start: Seq<char>, today: CalendarDate) -> CalendarDate {
    match ymd_parse(start) {
        Ok(d) => d,
        Err(_) => today,
    }
}

/// The 24 hourly stamps (`T00:00:00` to `T23:00:00`) of the day a provider serving only the
/// current conditions reports on.
pub fn report_day_stamps(start: &str, today: CalendarDate) -> (r: Vec<String>)
    ensures
        r@.len() == 24,
        forall|h: int| 0 <= h < 24 ==> (#[trigger] r@[h])@ == hour_stamp(
            date_text(report_day(start@, today)),
            h as nat,
            ":00:00"@,
        ),
{
    let d = match parse_ymd(start) {
        Ok(x) => x,
        Err(_) => today,
    };
    let text = format_date(d);
    proof {
        reveal_strlit(":00:00");
    }
    day_stamps(text.as_str(), ":00:00")
}

} // verus!
