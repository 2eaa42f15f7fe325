use vstd::prelude::*;
use vstd::string::StringExecFns;
use crate::dates::{
    date_before, date_shift, date_text, format_date, is_before, parse_ymd, shift_date, ymd_parse,
    CalendarDate,
};

verus! {

/// The Open-Meteo provider.
#[derive(Clone, Copy, Debug)]
pub struct OpenMeteoProvider;

impl OpenMeteoProvider {
    /// The provider's display name.
    pub fn name(&self) -> (s: &'static str)
        ensures
            s@ == "Open-Meteo"@,
    {
        "Open-Meteo"
    }
}


/// The forecast endpoint.
pub open spec fn forecast_base() -> Seq<char> {
    "https://api.open-meteo.com/v1/forecast"@
}

/// The archive endpoint.
pub open spec fn archive_base() -> Seq<char> {
    "https://archive-api.open-meteo.com/v1/archive"@
}

/// The hourly variables asked for without enrichment.
pub open spec fn hourly_vars_basic() -> Seq<char> {
    "temperature_2m,apparent_temperature,precipitation_probability,precipitation,relative_humidity_2m,wind_speed_10m,wind_direction_10m,cloud_cover,weather_code"@
}

/// The hourly variables asked for with enrichment.
pub open spec fn hourly_vars_enriched() -> Seq<char> {
    "temperature_2m,apparent_temperature,precipitation_probability,precipitation,relative_humidity_2m,wind_speed_10m,wind_direction_10m,cloud_cover,weather_code,uv_index,is_day,visibility,soil_temperature_0_to_10cm,soil_moisture_0_to_10cm"@
}

/// The quarter-hourly variables.
pub open spec fn minutely_vars() -> Seq<char> {
    "temperature_2m,precipitation,relative_humidity_2m,wind_speed_10m,wind_direction_10m,weather_code"@
}

/// The request URL for the dates `start` to `end` at the coordinates written `lat` and `lon`:
/// quarter-hourly variables at minute resolution, else the hourly ones (enriched or not),
/// with the location's own time zone.
pub open spec fn request_url(
    base: Seq<char>,
    lat: Seq<char>,
    lon: Seq<char>,
    start: Seq<char>,
    end: Seq<char>,
    enrich: bool,
    minute_resolution: bool,
) -> Seq<char> {
    let head = base + "?latitude="@ + lat + "&longitude="@ + lon + "&start_date="@ + start
        + "&end_date="@ + end;
    if minute_resolution {
        head + "&minutely_15="@ + minutely_vars() + "&timezone=auto"@
    } else {
        head + "&hourly="@ + (if enrich {
            hourly_vars_enriched()
        } else {
            hourly_vars_basic()
        }) + "&timezone=auto"@
    }
}

impl OpenMeteoProvider {
    /// The request URL; `lat` and `lon` are the coordinates as `{}` writes them.
    pub fn build_url(
        &self,
        base: &str,
        lat: &str,
        lon: &str,
        start: &str,
        end: &str,
        enrich: bool,
        minute_resolution: bool,
    ) -> (r: String)
        ensures
            r@ == request_url(base@, lat@, lon@, start@, end@, enrich, minute_resolution),
    {
        let mut r = base.to_owned();
        r.append("?latitude=");
        r.append(lat);
        r.append("&longitude=");
        r.append(lon);
        r.append("&start_date=");
        r.append(start);
        r.append("&end_date=");
        r.append(end);
        if minute_resolution {
            r.append("&minutely_15=");
            r.append("temperature_2m,precipitation,relative_humidity_2m,wind_speed_10m,wind_direction_10m,weather_code");
        } else {
            r.append("&hourly=");
            if enrich {
                r.append("temperature_2m,apparent_temperature,precipitation_probability,precipitation,relative_humidity_2m,wind_speed_10m,wind_direction_10m,cloud_cover,weather_code,uv_index,is_day,visibility,soil_temperature_0_to_10cm,soil_moisture_0_to_10cm");
            } else {
                r.append("temperature_2m,apparent_temperature,precipitation_probability,precipitation,relative_humidity_2m,wind_speed_10m,wind_direction_10m,cloud_cover,weather_code");
            }
        }
        r.append("&timezone=auto");
        r
    }
}

/// Which endpoints a lookup asks.
#[derive(Debug)]
pub enum FetchPlan {
    /// Only the archive: the range ended before today.
    Archive,
    /// Only the forecast: the range starts today or later and ends within 40 days.
    Forecast,
    /// Both, split at today: the archive up to `archive_end`, the forecast from
    /// `forecast_start`, their answers merged.
    Split { archive_end: String, forecast_start: String },
}

/// The abstract form of a plan: 0 for the archive, 1 for the forecast, 2 for a split with its
/// two dates.
pub open spec fn plan_view(p: FetchPlan) -> (int, Seq<char>, Seq<char>) {
    match p {
        FetchPlan::Archive => (0, Seq::empty(), Seq::empty()),
        FetchPlan::Forecast => (1, Seq::empty(), Seq::empty()),
        FetchPlan::Split { archive_end, forecast_start } => (2, archive_end@, forecast_start@),
    }
}

/// The plan for the range `start` to `end` seen from `today`, given the last day the forecast
/// covers (`limit`) and the day before today (`yesterday`); an error where a date does not
/// read as `YYYY-MM-DD`, with chrono's message (the start date is read first).
pub open spec fn fetch_plan_of(
    start: Seq<char>,
    end: Seq<char>,
    today: CalendarDate,
    limit: CalendarDate,
    yesterday: CalendarDate,
) -> Result<(int, Seq<char>, Seq<char>), Seq<char>> {
    match ymd_parse(start) {
        Err(m) => Err(m),
        Ok(s) => match ymd_parse(end) {
            Err(m) => Err(m),
            Ok(e) => if date_before(e, today) {
                Ok((0, Seq::empty(), Seq::empty()))
            } else if !date_before(s, today) && !date_before(limit, e) {
                Ok((1, Seq::empty(), Seq::empty()))
            } else {
                Ok((2, date_text(yesterday), date_text(today)))
            },
        },
    }
}

/// Plans which endpoints to ask for the range `start` to `end`, seen from `today`. The
/// forecast covers up to 40 days from today.
pub fn plan_fetch(start: &str, end: &str, today: CalendarDate) -> (r: Result<FetchPlan, String>)
    requires
        date_shift(today, 40) is Some,
        date_shift(today, -1) is Some,
    ensures
        match fetch_plan_of(
            start@,
            end@,
            today,
            date_shift(today, 40)->0,
            date_shift(today, -1)->0,
        ) {
            Ok(v) => r matches Ok(p) && plan_view(p) == v,
            Err(m) => r matches Err(e) && e@ == m,
        },
{
    let s = match parse_ymd(start) {
        Ok(d) => d,
        Err(m) => {
            return Err(m);
        },
    };
    let e = match parse_ymd(end) {
        Ok(d) => d,
        Err(m) => {
            return Err(m);
        },
    };
    let limit = shift_date(today, 40).unwrap();
    if is_before(e, today) {
        Ok(FetchPlan::Archive)
    } else if !is_before(s, today) && !is_before(limit, e) {
        Ok(FetchPlan::Forecast)
    } else {
        let yesterday = shift_date(today, -1).unwrap();
        Ok(FetchPlan::Split { archive_end: format_date(yesterday), forecast_start: format_date(today) })
    }
}

/// Plans the endpoints where today's date can be shifted 40 days ahead and one day back;
/// `None` where chrono's calendar ends first.
pub fn try_plan_fetch(start: &str, end: &str, today: CalendarDate) -> (r: Option<Result<FetchPlan, String>>)
    ensures
        r is Some <==> date_shift(today, 40) is Some && date_shift(today, -1) is Some,
        r matches Some(p) ==> match fetch_plan_of(
            start@,
            end@,
            today,
            date_shift(today, 40)->0,
            date_shift(today, -1)->0,
        ) {
            Ok(v) => p matches Ok(q) && plan_view(q) == v,
            Err(m) => p matches Err(e) && e@ == m,
        },
{
    if shift_date(today, 40).is_none() || shift_date(today, -1).is_none() {
        return None;
    }
    Some(plan_fetch(start, end, today))
}

/// The series of a variable: its values, or none where the answer left it out.
pub open spec fn series<T>(o: Option<Vec<T>>) -> Seq<T> {
    match o {
        Some(v) => v@,
        None => Seq::empty(),
    }
}

/// The quarter-hourly block of an answer; `F` is the number type of the measurements.
pub struct MinutelySeries<F> {
    pub time: Vec<String>,
    pub temperature_2m: Option<Vec<Option<F>>>,
    pub precipitation: Option<Vec<Option<F>>>,
    pub relative_humidity_2m: Option<Vec<Option<F>>>,
    pub wind_speed_10m: Option<Vec<Option<F>>>,
    pub wind_direction_10m: Option<Vec<Option<F>>>,
    pub weather_code: Option<Vec<Option<i32>>>,
}

/// The hourly block of an answer; `F` is the number type of the measurements.
pub struct HourlySeries<F> {
    pub time: Vec<String>,
    pub temperature_2m: Option<Vec<Option<F>>>,
    pub apparent_temperature: Option<Vec<Option<F>>>,
    pub precipitation_probability: Option<Vec<Option<F>>>,
    pub precipitation: Option<Vec<Option<F>>>,
    pub relative_humidity_2m: Option<Vec<Option<F>>>,
    pub wind_speed_10m: Option<Vec<Option<F>>>,
    pub wind_direction_10m: Option<Vec<Option<F>>>,
    pub cloud_cover: Option<Vec<Option<F>>>,
    pub weather_code: Option<Vec<Option<i32>>>,
    pub uv_index: Option<Vec<Option<F>>>,
    pub is_day: Option<Vec<Option<i32>>>,
    pub visibility: Option<Vec<Option<F>>>,
    pub soil_temperature_0_to_10cm: Option<Vec<Option<F>>>,
    pub soil_moisture_0_to_10cm: Option<Vec<Option<F>>>,
}

/// An answer of Open-Meteo.
pub struct OpenMeteoResponse<F> {
    pub hourly: Option<HourlySeries<F>>,
    pub minutely_15: Option<MinutelySeries<F>>,
}

/// The values of a series, or none where it is absent.
fn take_series<T>(o: Option<Vec<T>>) -> (r: Vec<T>)
    ensures
        r@ == series(o),
{
    match o {
        Some(v) => v,
        None => Vec::new(),
    }
}

/// The values of `a` followed by those of `b`.
fn joined<T>(a: Option<Vec<T>>, b: Option<Vec<T>>) -> (r: Vec<T>)
    ensures
        r@ == series(a) + series(b),
{
    let mut x = take_series(a);
    let mut y = take_series(b);
    x.append(&mut y);
    x
}

/// The quarter-hourly block of an answer, or an empty one where it has none.
pub open spec fn minutely_part<F>(m: Option<MinutelySeries<F>>) -> (Seq<String>, Seq<Option<F>>, Seq<Option<F>>, Seq<Option<F>>, Seq<Option<F>>, Seq<Option<F>>, Seq<Option<i32>>) {
    match m {
        Some(m) => (
            m.time@,
            series(m.temperature_2m),
            series(m.precipitation),
            series(m.relative_humidity_2m),
            series(m.wind_speed_10m),
            series(m.wind_direction_10m),
            series(m.weather_code),
        ),
        None => (Seq::empty(), Seq::empty(), Seq::empty(), Seq::empty(), Seq::empty(), Seq::empty(), Seq::empty()),
    }
}

/// A merged quarter-hourly block: each series is the archive's followed by the forecast's.
pub open spec fn minutely_merged<F>(m: MinutelySeries<F>, a: Option<MinutelySeries<F>>, f: Option<MinutelySeries<F>>) -> bool {
    let pa = minutely_part(a);
    let pf = minutely_part(f);
    &&& m.time@ == pa.0 + pf.0
    &&& m.temperature_2m matches Some(v) && v@ == pa.1 + pf.1
    &&& m.precipitation matches Some(v) && v@ == pa.2 + pf.2
    &&& m.relative_humidity_2m matches Some(v) && v@ == pa.3 + pf.3
    &&& m.wind_speed_10m matches Some(v) && v@ == pa.4 + pf.4
    &&& m.wind_direction_10m matches Some(v) && v@ == pa.5 + pf.5
    &&& m.weather_code matches Some(v) && v@ == pa.6 + pf.6
}

/// A merged hourly block: each series is the archive's followed by the forecast's.
pub open spec fn hourly_merged<F>(h: HourlySeries<F>, a: HourlySeries<F>, f: HourlySeries<F>) -> bool {
    &&& h.time@ == a.time@ + f.time@
    &&& h.temperature_2m matches Some(v) && v@ == series(a.temperature_2m) + series(f.temperature_2m)
    &&& h.apparent_temperature matches Some(v) && v@ == series(a.apparent_temperature) + series(f.apparent_temperature)
    &&& h.precipitation_probability matches Some(v) && v@ == series(a.precipitation_probability) + series(f.precipitation_probability)
    &&& h.precipitation matches Some(v) && v@ == series(a.precipitation) + series(f.precipitation)
    &&& h.relative_humidity_2m matches Some(v) && v@ == series(a.relative_humidity_2m) + series(f.relative_humidity_2m)
    &&& h.wind_speed_10m matches Some(v) && v@ == series(a.wind_speed_10m) + series(f.wind_speed_10m)
    &&& h.wind_direction_10m matches Some(v) && v@ == series(a.wind_direction_10m) + series(f.wind_direction_10m)
    &&& h.cloud_cover matches Some(v) && v@ == series(a.cloud_cover) + series(f.cloud_cover)
    &&& h.weather_code matches Some(v) && v@ == series(a.weather_code) + series(f.weather_code)
    &&& h.uv_index matches Some(v) && v@ == series(a.uv_index) + series(f.uv_index)
    &&& h.is_day matches Some(v) && v@ == series(a.is_day) + series(f.is_day)
    &&& h.visibility matches Some(v) && v@ == series(a.visibility) + series(f.visibility)
    &&& h.soil_temperature_0_to_10cm matches Some(v) && v@ == series(a.soil_temperature_0_to_10cm) + series(f.soil_temperature_0_to_10cm)
    &&& h.soil_moisture_0_to_10cm matches Some(v) && v@ == series(a.soil_moisture_0_to_10cm) + series(f.soil_moisture_0_to_10cm)
}

impl OpenMeteoProvider {
    /// Merges the archive's answer with the forecast's for a range split at today. When
    /// either holds quarter-hourly data, the result holds only that, each series the
    /// archive's followed by the forecast's. Otherwise, when only one side has hourly data,
    /// that side's answer is the result, and when both do, each hourly series is the archive's
    /// followed by the forecast's.
    pub fn merge_responses<F>(&self, archive: OpenMeteoResponse<F>, forecast: OpenMeteoResponse<F>) -> (r: OpenMeteoResponse<F>)
        ensures
            archive.minutely_15 is Some || forecast.minutely_15 is Some ==> r.hourly is None
                && (r.minutely_15 matches Some(m) && minutely_merged(m, archive.minutely_15, forecast.minutely_15)),
            archive.minutely_15 is None && forecast.minutely_15 is None && archive.hourly is None
                ==> r == forecast,
            archive.minutely_15 is None && forecast.minutely_15 is None && archive.hourly is Some
                && forecast.hourly is None ==> r == archive,
            archive.minutely_15 is None && forecast.minutely_15 is None && archive.hourly is Some
                && forecast.hourly is Some ==> r.minutely_15 is None && (r.hourly matches Some(h)
                && hourly_merged(h, archive.hourly->0, forecast.hourly->0)),
    {
        if archive.minutely_15.is_some() || forecast.minutely_15.is_some() {
            let ghost a = archive.minutely_15;
            let ghost f = forecast.minutely_15;
            let (t1, x1, p1, h1, s1, d1, c1) = match archive.minutely_15 {
                Some(m) => (m.time, m.temperature_2m, m.precipitation, m.relative_humidity_2m, m.wind_speed_10m, m.wind_direction_10m, m.weather_code),
                None => (Vec::new(), None, None, None, None, None, None),
            };
            let (t2, x2, p2, h2, s2, d2, c2) = match forecast.minutely_15 {
                Some(m) => (m.time, m.temperature_2m, m.precipitation, m.relative_humidity_2m, m.wind_speed_10m, m.wind_direction_10m, m.weather_code),
                None => (Vec::new(), None, None, None, None, None, None),
            };
            let mut time = t1;
            let mut t2m = t2;
            time.append(&mut t2m);
            let m = MinutelySeries {
                time,
                temperature_2m: Some(joined(x1, x2)),
                precipitation: Some(joined(p1, p2)),
                relative_humidity_2m: Some(joined(h1, h2)),
                wind_speed_10m: Some(joined(s1, s2)),
                wind_direction_10m: Some(joined(d1, d2)),
                weather_code: Some(joined(c1, c2)),
            };
            return OpenMeteoResponse { hourly: None, minutely_15: Some(m) };
        }
        match archive.hourly {
            None => forecast,
            Some(a) => match forecast.hourly {
                None => OpenMeteoResponse { hourly: Some(a), minutely_15: archive.minutely_15 },
                Some(f) => {
                    let mut time = a.time;
                    let mut ft = f.time;
                    time.append(&mut ft);
                    let h = HourlySeries {
                        time,
                        temperature_2m: Some(joined(a.temperature_2m, f.temperature_2m)),
                        apparent_temperature: Some(joined(a.apparent_temperature, f.apparent_temperature)),
                        precipitation_probability: Some(joined(a.precipitation_probability, f.precipitation_probability)),
                        precipitation: Some(joined(a.precipitation, f.precipitation)),
                        relative_humidity_2m: Some(joined(a.relative_humidity_2m, f.relative_humidity_2m)),
                        wind_speed_10m: Some(joined(a.wind_speed_10m, f.wind_speed_10m)),
                        wind_direction_10m: Some(joined(a.wind_direction_10m, f.wind_direction_10m)),
                        cloud_cover: Some(joined(a.cloud_cover, f.cloud_cover)),
                        weather_code: Some(joined(a.weather_code, f.weather_code)),
                        uv_index: Some(joined(a.uv_index, f.uv_index)),
                        is_day: Some(joined(a.is_day, f.is_day)),
                        visibility: Some(joined(a.visibility, f.visibility)),
                        soil_temperature_0_to_10cm: Some(joined(a.soil_temperature_0_to_10cm, f.soil_temperature_0_to_10cm)),
                        soil_moisture_0_to_10cm: Some(joined(a.soil_moisture_0_to_10cm, f.soil_moisture_0_to_10cm)),
                    };
                    OpenMeteoResponse { hourly: Some(h), minutely_15: None }
                },
            },
        }
    }
}

/// The value of a series at `i`: the reported value, or `default` where the series is too
/// short or reports nothing there.
pub open spec fn value_or<T>(v: Seq<Option<T>>, i: int, default: T) -> T {
    if 0 <= i < v.len() {
        match v[i] {
            Some(x) => x,
            None => default,
        }
    } else {
        default
    }
}

/// The value of a series at `i`, or `default`.
pub fn value_at<T: Copy>(v: &Vec<Option<T>>, i: usize, default: T) -> (r: T)
    ensures
        r == value_or(v@, i as int, default),
{
    if i < v.len() {
        match v[i] {
            Some(x) => x,
            None => default,
        }
    } else {
        default
    }
}

/// The optional value of a series at `i`: nothing where the series is too short.
pub open spec fn optional_at<T>(v: Seq<Option<T>>, i: int) -> Option<T> {
    if 0 <= i < v.len() {
        v[i]
    } else {
        None
    }
}

/// The optional value of a series at `i`.
pub fn opt_at<T: Copy>(v: &Vec<Option<T>>, i: usize) -> (r: Option<T>)
    ensures
        r == optional_at(v@, i as int),
{
    if i < v.len() {
        v[i]
    } else {
        None
    }
}

/// The day flag of an hour: day where the series reports 1, night for any other number,
/// unknown where it reports nothing.
pub fn day_flag_at(v: &Vec<Option<i32>>, i: usize) -> (r: Option<bool>)
    ensures
        r == (match optional_at(v@, i as int) {
            Some(d) => Some(d == 1),
            None => None,
        }),
{
    match opt_at(v, i) {
        Some(d) => Some(d == 1),
        None => None,
    }
}

} // verus!
