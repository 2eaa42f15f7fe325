//! The decisions of a weather lookup: the date range, the cache's part, the result when the
//! race fails, and the choices that the command line's flags settle.
use vstd::prelude::*;
use vstd::string::StringExecFns;
use crate::cli::Mode;
use crate::dates::{
    date_before, date_shift, date_text, format_date, is_before, parse_ymd, shift_date, ymd_parse,
    CalendarDate,
};
use crate::text::{join, join_strs, views};

verus! {

/// The dates of a lookup: its first and last day as `YYYY-MM-DD` text, and the number of
/// days that the providers are asked for.
pub struct DatePlan {
    pub start_date: String,
    pub end_date: String,
    pub days: u32,
}

/// The number of days asked for: the command line's, else the configuration's, else 7.
pub open spec fn days_asked(days_arg: Option<u32>, config_days: Option<u32>) -> u32 {
    match days_arg {
        Some(d) => d,
        None => match config_days {
            Some(d) => d,
            None => 7,
        },
    }
}

/// The number of days comes from `--days` where given, else from the configuration where
/// that sets one, and only with neither is it a week.
pub proof fn law_day_count_sources(days_arg: Option<u32>, config_days: Option<u32>)
    ensures
        days_arg matches Some(d) ==> days_asked(days_arg, config_days) == d,
        days_arg is None && config_days is Some ==> days_asked(days_arg, config_days)
            == config_days->0,
        days_arg is None && config_days is None ==> days_asked(days_arg, config_days) == 7,
{
}

/// The first day of a lookup: the `--from-date` text, or today.
pub open spec fn start_text(from_date: Option<Seq<char>>, today: CalendarDate) -> Seq<char> {
    match from_date {
        Some(f) => f,
        None => date_text(today),
    }
}

/// The last day of a lookup, when it can be had. The `--to-date` text wins. Otherwise, with a
/// `--days` count `n`, the `n`th day from the start date (today where the start date does not
/// read as a date), `None` where that day lies beyond chrono's calendar; and without one,
/// today, the documented default of `--to-date`.
pub open spec fn end_text(
    from_date: Option<Seq<char>>,
    to_date: Option<Seq<char>>,
    days_arg: Option<u32>,
    today: CalendarDate,
) -> Option<Seq<char>> {
    match to_date {
        Some(t) => Some(t),
        None => match days_arg {
            Some(n) => {
                let s = match ymd_parse(start_text(from_date, today)) {
                    Ok(d) => d,
                    Err(_) => today,
                };
                match date_shift(s, n as int - 1) {
                    Some(e) => Some(date_text(e)),
                    None => None,
                }
            },
            None => Some(date_text(today)),
        },
    }
}

/// The view of an optional string.
pub open spec fn opt_view(o: Option<String>) -> Option<Seq<char>> {
    match o {
        Some(s) => Some(s@),
        None => None,
    }
}

/// Settles the dates of a lookup from `--from-date`, `--to-date`, `--days`, the configured
/// day count and today's date. `None` where the last day would lie beyond chrono's calendar.
pub fn plan_dates(
    from_date: Option<String>,
    to_date: Option<String>,
    days_arg: Option<u32>,
    config_days: Option<u32>,
    today: CalendarDate,
) -> (r: Option<DatePlan>)
    ensures
        end_text(opt_view(from_date), opt_view(to_date), days_arg, today) is None <==> r is None,
        r matches Some(p) ==> p.start_date@ == start_text(opt_view(from_date), today)
            && Some(p.end_date@) == end_text(opt_view(from_date), opt_view(to_date), days_arg, today)
            && p.days == days_asked(days_arg, config_days),
{
    let days: u32 = match days_arg {
        Some(d) => d,
        None => match config_days {
            Some(d) => d,
            None => 7,
        },
    };
    let start = match from_date {
        Some(f) => f,
        None => format_date(today),
    };
    let end = match to_date {
        Some(t) => t,
        None => match days_arg {
            Some(n) => {
                let s = match parse_ymd(start.as_str()) {
                    Ok(d) => d,
                    Err(_) => today,
                };
                let shift: i64 = n as i64 - 1;
                match shift_date(s, shift) {
                    Some(e) => format_date(e),
                    None => {
                        return None;
                    },
                }
            },
            None => format_date(today),
        },
    };
    Some(DatePlan { start_date: start, end_date: end, days })
}

/// The cache's lifetime in minutes: the command line's, else the configuration's, else 15.
pub open spec fn ttl_minutes(arg: Option<u64>, config: Option<u64>) -> u64 {
    match arg {
        Some(t) => t,
        None => match config {
            Some(t) => t,
            None => 15,
        },
    }
}

/// The cache's lifetime in minutes, from `--cache-ttl` and the configuration.
pub fn cache_ttl_minutes(arg: Option<u64>, config: Option<u64>) -> (r: u64)
    ensures
        r == ttl_minutes(arg, config),
{
    match arg {
        Some(t) => t,
        None => match config {
            Some(t) => t,
            None => 15,
        },
    }
}

/// The cache lifetime comes from the command line where it gives one, else from the
/// configuration where that sets one, and only with neither is it 15 minutes; a lifetime of 0
/// from either source switches the cache off.
pub proof fn law_cache_lifetime_sources(arg: Option<u64>, config: Option<u64>)
    ensures
        arg matches Some(a) ==> ttl_minutes(arg, config) == a,
        arg is None && config is Some ==> ttl_minutes(arg, config) == config->0,
        arg is None && config is None ==> ttl_minutes(arg, config) == 15,
        ttl_minutes(arg, config) == 0 <==> (arg == Some(0u64) || (arg is None && config == Some(
            0u64,
        ))),
{
}

/// What the weather cache holds for a lookup.
#[derive(Clone, Copy, Debug, PartialEq, Eq, Structural)]
pub enum CacheFind {
    /// An entry younger than the lifetime.
    Fresh,
    /// An older entry, kept for when the providers cannot be reached.
    Stale,
    /// No entry.
    Absent,
}

/// How a lookup ends, or goes on.
#[derive(Debug)]
pub enum LookupStep {
    /// Serve the cached entry; `offline` when it is a stale one served because the race failed.
    UseCache { offline: bool },
    /// Ask the providers.
    RunRace,
    /// Serve the race's result, and store it in the cache when `store` is set.
    UseRace { store: bool },
    /// The lookup fails with this error.
    Fail(String),
}

/// Whether a lookup asks the cache at all: only with a lifetime above zero.
pub fn consults_cache(ttl_minutes: u64) -> (b: bool)
    ensures
        b == (ttl_minutes > 0),
{
    ttl_minutes > 0
}

/// What a lookup does after asking the cache: a fresh entry is served at once; otherwise the
/// providers race.
pub fn after_cache(find: CacheFind) -> (r: LookupStep)
    ensures
        find == CacheFind::Fresh ==> r matches LookupStep::UseCache { offline: false },
        find != CacheFind::Fresh ==> r is RunRace,
{
    match find {
        CacheFind::Fresh => LookupStep::UseCache { offline: false },
        _ => LookupStep::RunRace,
    }
}

/// What a lookup does after the race, with the cache lifetime `ttl_minutes`: its result is
/// served when it has one, and stored in the cache unless the lifetime is 0 (the cache is
/// off); when it failed, a stale cached entry is served offline, and without one (or with the
/// cache off) the race's error is the lookup's.
pub fn after_race(race_error: Option<String>, find: CacheFind, ttl_minutes: u64) -> (r: LookupStep)
    ensures
        race_error is None ==> (r matches LookupStep::UseRace { store } && store == (ttl_minutes
            > 0)),
        race_error is Some && find == CacheFind::Stale && ttl_minutes > 0 ==> r matches LookupStep::UseCache {
            offline: true,
        },
        race_error is Some && (find != CacheFind::Stale || ttl_minutes == 0) ==> (r matches LookupStep::Fail(m)
            && race_error == Some(m)),
{
    match race_error {
        None => LookupStep::UseRace { store: ttl_minutes > 0 },
        Some(e) => match find {
            CacheFind::Stale => if ttl_minutes > 0 {
                LookupStep::UseCache { offline: true }
            } else {
                LookupStep::Fail(e)
            },
            _ => LookupStep::Fail(e),
        },
    }
}

/// The name under which a cached result is reported as the race's winner.
pub fn cache_winner() -> (r: String)
    ensures
        r@ == "Cache"@,
{
    "Cache".to_owned()
}

/// Whether the weather asked for lies in the past, the future or both.
#[derive(Clone, Copy, Debug, PartialEq, Eq, Structural)]
pub enum DataKind {
    Historical,
    Forecast,
    Mixed,
}

/// The kind of a date range: past when it ends before today, forecast when it starts today or
/// later, both otherwise.
pub open spec fn data_kind_of(start: CalendarDate, end: CalendarDate, today: CalendarDate) -> DataKind {
    if date_before(end, today) {
        DataKind::Historical
    } else if !date_before(start, today) {
        DataKind::Forecast
    } else {
        DataKind::Mixed
    }
}

/// A range is historical exactly when it ends before today and a forecast exactly when it
/// starts today or later; so a range of a single day is never mixed.
pub proof fn law_data_kind(start: CalendarDate, end: CalendarDate, today: CalendarDate)
    ensures
        data_kind_of(start, end, today) == DataKind::Historical <==> date_before(end, today),
        data_kind_of(start, end, today) == DataKind::Forecast <==> !date_before(end, today)
            && !date_before(start, today),
        start == end ==> data_kind_of(start, end, today) != DataKind::Mixed,
{
}

/// The kind of the date range from `start` to `end`, seen from `today`.
pub fn data_kind(start: CalendarDate, end: CalendarDate, today: CalendarDate) -> (k: DataKind)
    ensures
        k == data_kind_of(start, end, today),
{
    if is_before(end, today) {
        DataKind::Historical
    } else if !is_before(start, today) {
        DataKind::Forecast
    } else {
        DataKind::Mixed
    }
}

impl DataKind {
    /// The name under which the renderer receives the kind.
    pub fn as_str(self) -> (s: &'static str)
        ensures
            s@ == (match self {
                DataKind::Historical => "historical"@,
                DataKind::Forecast => "forecast"@,
                DataKind::Mixed => "mixed"@,
            }),
    {
        match self {
            DataKind::Historical => "historical",
            DataKind::Forecast => "forecast",
            DataKind::Mixed => "mixed",
        }
    }
}

/// The output mode's name: the one chosen, else `json` with `--json-output`, else `default`.
pub open spec fn mode_choice(mode: Option<Mode>, json_output: bool) -> Seq<char> {
    match mode {
        Some(m) => crate::cli::mode_name(m),
        None => if json_output {
            "json"@
        } else {
            "default"@
        },
    }
}

/// `--mode` wins over `--json-output`, which stands for the `json` mode; without either the
/// `default` mode is used.
pub proof fn law_mode_choice(mode: Option<Mode>, json_output: bool)
    ensures
        mode matches Some(m) ==> mode_choice(mode, json_output) == crate::cli::mode_name(m),
        mode is None && json_output ==> mode_choice(mode, json_output) == crate::cli::mode_name(
            Mode::Json,
        ),
        mode is None && !json_output ==> mode_choice(mode, json_output) == crate::cli::mode_name(
            Mode::Default,
        ),
{
}

/// Picks the output mode's name from `--mode` and `--json-output`.
pub fn choose_mode(mode: Option<Mode>, json_output: bool) -> (r: &'static str)
    ensures
        r@ == mode_choice(mode, json_output),
{
    match mode {
        Some(m) => m.as_str(),
        None => if json_output {
            "json"
        } else {
            "default"
        },
    }
}

/// Whether the live dashboard runs: only on a terminal, and neither with `--json-output` nor
/// with `--verbose`.
pub fn uses_dashboard(json_output: bool, verbose: bool, stdout_is_terminal: bool) -> (b: bool)
    ensures
        b == (!json_output && !verbose && stdout_is_terminal),
{
    !json_output && !verbose && stdout_is_terminal
}

/// How many rows the hourly table shows: a week's hours with `--all-hours`, a day's without.
pub fn table_rows(all_hours: bool) -> (n: usize)
    ensures
        n == (if all_hours { 168usize } else { 24usize }),
{
    if all_hours {
        168
    } else {
        24
    }
}

/// The query that the dashboard shows first: the location words joined by spaces, or
/// `Otomatik Tespit` when none were given and the location is to be detected.
pub open spec fn initial_query(words: Seq<Seq<char>>) -> Seq<char> {
    if words.len() == 0 {
        "Otomatik Tespit"@
    } else {
        join(words, " "@)
    }
}

/// The query that the dashboard shows first.
pub fn dashboard_query(words: &Vec<String>) -> (r: String)
    ensures
        r@ == initial_query(views(words@)),
{
    if words.len() == 0 {
        proof {
            reveal_strlit("Otomatik Tespit");
        }
        "Otomatik Tespit".to_owned()
    } else {
        proof {
            reveal_strlit(" ");
        }
        join_strs(words, " ")
    }
}

/// The providers that the verbose report says race: Open-Meteo and wttr.in, with MET Norway
/// between them unless the start date lies in the past.
pub open spec fn announced_racers(start: CalendarDate, today: CalendarDate) -> Seq<Seq<char>> {
    if !date_before(start, today) {
        seq!["Open-Meteo"@, "MET Norway"@, "wttr.in"@]
    } else {
        seq!["Open-Meteo"@, "wttr.in"@]
    }
}

/// The line of the verbose report that lists the racing providers, after its label.
pub fn racers_line(start: CalendarDate, today: CalendarDate) -> (r: String)
    ensures
        r@ == join(announced_racers(start, today), ", "@),
{
    let mut v: Vec<String> = Vec::new();
    v.push("Open-Meteo".to_owned());
    if !is_before(start, today) {
        v.push("MET Norway".to_owned());
    }
    v.push("wttr.in".to_owned());
    proof {
        reveal_strlit("Open-Meteo");
        reveal_strlit("MET Norway");
        reveal_strlit("wttr.in");
        reveal_strlit(", ");
        assert(views(v@) =~= announced_racers(start, today));
    }
    join_strs(&v, ", ")
}

} // verus!
