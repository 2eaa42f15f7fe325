use vstd::prelude::*;
use vstd::string::StringExecFns;
use crate::dates::{parse_ymd, ymd_parse, CalendarDate};

verus! {

/// Visual output layouts offered on the command line.
#[derive(Clone, Copy, Debug, PartialEq, Eq, Structural)]
pub enum Mode {
    Default,
    Compact,
    Inline,
    Json,
    Emoji,
    AsciiBanner,
    Sparkline,
    BorderedCard,
    Markdown,
    HtmlPreview,
}

/// The canonical lowercase name of each mode, as the renderer matches it.
pub open spec fn mode_name(m: Mode) -> Seq<char> {
    match m {
        Mode::Default => "default"@,
        Mode::Compact => "compact"@,
        Mode::Inline => "inline"@,
        Mode::Json => "json"@,
        Mode::Emoji => "emoji"@,
        Mode::AsciiBanner => "ascii-banner"@,
        Mode::Sparkline => "sparkline"@,
        Mode::BorderedCard => "bordered-card"@,
        Mode::Markdown => "markdown"@,
        Mode::HtmlPreview => "html-preview"@,
    }
}

impl Mode {
    /// Canonical lowercase string consumed by the output renderer.
    pub fn as_str(self) -> (s: &'static str)
        ensures
            s@ == mode_name(self),
    {
        match self {
            Mode::Default => "default",
            Mode::Compact => "compact",
            Mode::Inline => "inline",
            Mode::Json => "json",
            Mode::Emoji => "emoji",
            Mode::AsciiBanner => "ascii-banner",
            Mode::Sparkline => "sparkline",
            Mode::BorderedCard => "bordered-card",
            Mode::Markdown => "markdown",
            Mode::HtmlPreview => "html-preview",
        }
    }
}


/// Different modes have different names, so a mode's name tells which mode it is.
pub proof fn law_mode_names_distinct(m1: Mode, m2: Mode)
    ensures
        m1 != m2 ==> mode_name(m1) != mode_name(m2),
{
    reveal_strlit("default");
    reveal_strlit("compact");
    reveal_strlit("inline");
    reveal_strlit("json");
    reveal_strlit("emoji");
    reveal_strlit("ascii-banner");
    reveal_strlit("sparkline");
    reveal_strlit("bordered-card");
    reveal_strlit("markdown");
    reveal_strlit("html-preview");
    if m1 != m2 && mode_name(m1) == mode_name(m2) {
        assert(mode_name(m1).len() == mode_name(m2).len());
        assert(mode_name(m1)[0] == mode_name(m2)[0]);
    }
}

/// The error for a date that does not read as `YYYY-MM-DD`.
pub open spec fn date_format_message() -> Seq<char> {
    "Date must be in YYYY-MM-DD format"@
}

/// Checks that `date_str` reads as a `YYYY-MM-DD` date.
pub fn validate_date(date_str: &str) -> (r: Result<(), String>)
    ensures
        r is Ok <==> ymd_parse(date_str@) is Ok,
        r matches Err(m) ==> m@ == date_format_message(),
{
    match parse_ymd(date_str) {
        Ok(_) => Ok(()),
        Err(_) => {
            proof {
                reveal_strlit("Date must be in YYYY-MM-DD format");
            }
            Err("Date must be in YYYY-MM-DD format".to_owned())
        },
    }
}

/// Reads `date_str` as a `YYYY-MM-DD` date: the date that chrono reads from it, or the same
/// error that `validate_date` gives.
pub fn read_date(date_str: &str) -> (r: Result<CalendarDate, String>)
    ensures
        r matches Ok(d) ==> ymd_parse(date_str@) == Ok::<CalendarDate, Seq<char>>(d),
        r is Ok <==> ymd_parse(date_str@) is Ok,
        r matches Err(m) ==> m@ == date_format_message(),
{
    match parse_ymd(date_str) {
        Ok(d) => Ok(d),
        Err(_) => {
            proof {
                reveal_strlit("Date must be in YYYY-MM-DD format");
            }
            Err("Date must be in YYYY-MM-DD format".to_owned())
        },
    }
}

/// Whether `chrono_tz` knows `s` as the name of a time zone of the IANA database.
pub uninterp spec fn iana_zone(s: Seq<char>) -> bool;

/// Calls `str::parse::<chrono_tz::Tz>`, a lookup of `s` in chrono-tz's table of zone names.
/// The contract names the outcome (`iana_zone`); the table itself is not stated.
#[verifier::external_body]
pub(crate) fn is_iana_zone(s: &str) -> (b: bool)
    ensures
        b == iana_zone(s@),
{
    s.parse::<chrono_tz::Tz>().is_ok()
}

/// The error for a time zone name that the IANA database does not hold.
pub open spec fn unknown_zone_message(tz: Seq<char>) -> Seq<char> {
    "Unknown IANA timezone: '"@ + tz + "' (e.g. Europe/Istanbul)"@
}

/// Checks that `tz_str` names a time zone of the IANA database.
pub fn validate_timezone(tz_str: &str) -> (r: Result<(), String>)
    ensures
        r is Ok <==> iana_zone(tz_str@),
        r matches Err(m) ==> m@ == unknown_zone_message(tz_str@),
{
    if is_iana_zone(tz_str) {
        Ok(())
    } else {
        let mut m = "Unknown IANA timezone: '".to_owned();
        m.append(tz_str);
        m.append("' (e.g. Europe/Istanbul)");
        proof {
            reveal_strlit("Unknown IANA timezone: '");
            reveal_strlit("' (e.g. Europe/Istanbul)");
        }
        Err(m)
    }
}

} // verus!
