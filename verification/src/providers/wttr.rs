use vstd::prelude::*;
use crate::providers::wmo::{wmo_clear, wmo_cloudy, wmo_drizzle, wmo_fog, wmo_rain, wmo_snow, wmo_thunder};
use crate::providers::base::{date_in_window, date_in_window_chars, hour_stamp, hour_stamp_str};
use crate::text::{chars_of, parse_i32, parse_i32_chars};

verus! {

/// The wttr.in provider.
#[derive(Clone, Copy, Debug)]
pub struct WttrProvider;

impl WttrProvider {
    /// The provider's display name.
    pub fn name(&self) -> (s: &'static str)
        ensures
            s@ == "wttr.in"@,
    {
        "wttr.in"
    }
}

/// The WMO weather code for a World Weather Online code, as wttr.in reports it.
pub open spec fn wwo_wmo(wwo_code: i32) -> i32 {
    if wwo_code == 113 {
        0
    } else if wwo_code == 116 {
        2
    } else if wwo_code == 119 {
        3
    } else if wwo_code == 122 {
        3
    } else if wwo_code == 143 {
        45
    } else if wwo_code == 176 {
        61
    } else if wwo_code == 179 {
        71
    } else if wwo_code == 182 {
        71
    } else if wwo_code == 185 {
        56
    } else if wwo_code == 200 {
        95
    } else if wwo_code == 227 {
        77
    } else if wwo_code == 230 {
        75
    } else if wwo_code == 248 {
        45
    } else if wwo_code == 260 {
        48
    } else if wwo_code == 263 || wwo_code == 266 {
        51
    } else if wwo_code == 281 {
        56
    } else if wwo_code == 284 {
        57
    } else if wwo_code == 293 || wwo_code == 296 {
        61
    } else if wwo_code == 299 || wwo_code == 302 {
        63
    } else if wwo_code == 305 || wwo_code == 308 {
        65
    } else if wwo_code == 311 {
        66
    } else if wwo_code == 314 {
        67
    } else if wwo_code == 317 {
        71
    } else if wwo_code == 320 {
        75
    } else if wwo_code == 323 || wwo_code == 326 {
        71
    } else if wwo_code == 329 || wwo_code == 332 {
        73
    } else if wwo_code == 335 || wwo_code == 338 {
        75
    } else if wwo_code == 350 {
        77
    } else if wwo_code == 353 {
        80
    } else if wwo_code == 356 {
        81
    } else if wwo_code == 359 {
        82
    } else if wwo_code == 362 {
        85
    } else if wwo_code == 365 {
        86
    } else if wwo_code == 368 {
        85
    } else if wwo_code == 371 {
        86
    } else if wwo_code == 374 || wwo_code == 377 {
        77
    } else if wwo_code == 386 || wwo_code == 389 {
        95
    } else if wwo_code == 392 {
        96
    } else if wwo_code == 395 {
        99
    } else {
        0
    }
}

/// The WMO weather code for a World Weather Online code, as wttr.in reports it.
pub fn wwo_code_to_wmo(wwo_code: i32) -> (w: i32)
    ensures
        w == wwo_wmo(wwo_code),
{
    if wwo_code == 113 {
        0
    } else if wwo_code == 116 {
        2
    } else if wwo_code == 119 {
        3
    } else if wwo_code == 122 {
        3
    } else if wwo_code == 143 {
        45
    } else if wwo_code == 176 {
        61
    } else if wwo_code == 179 {
        71
    } else if wwo_code == 182 {
        71
    } else if wwo_code == 185 {
        56
    } else if wwo_code == 200 {
        95
    } else if wwo_code == 227 {
        77
    } else if wwo_code == 230 {
        75
    } else if wwo_code == 248 {
        45
    } else if wwo_code == 260 {
        48
    } else if wwo_code == 263 || wwo_code == 266 {
        51
    } else if wwo_code == 281 {
        56
    } else if wwo_code == 284 {
        57
    } else if wwo_code == 293 || wwo_code == 296 {
        61
    } else if wwo_code == 299 || wwo_code == 302 {
        63
    } else if wwo_code == 305 || wwo_code == 308 {
        65
    } else if wwo_code == 311 {
        66
    } else if wwo_code == 314 {
        67
    } else if wwo_code == 317 {
        71
    } else if wwo_code == 320 {
        75
    } else if wwo_code == 323 || wwo_code == 326 {
        71
    } else if wwo_code == 329 || wwo_code == 332 {
        73
    } else if wwo_code == 335 || wwo_code == 338 {
        75
    } else if wwo_code == 350 {
        77
    } else if wwo_code == 353 {
        80
    } else if wwo_code == 356 {
        81
    } else if wwo_code == 359 {
        82
    } else if wwo_code == 362 {
        85
    } else if wwo_code == 365 {
        86
    } else if wwo_code == 368 {
        85
    } else if wwo_code == 371 {
        86
    } else if wwo_code == 374 || wwo_code == 377 {
        77
    } else if wwo_code == 386 || wwo_code == 389 {
        95
    } else if wwo_code == 392 {
        96
    } else if wwo_code == 395 {
        99
    } else {
        0
    }
}


/// What the hourly expansion reads of one day of wttr.in's answer: its date, where given, and
/// the weather code text of each of its three-hour blocks, where given.
pub struct WttrDay {
    pub date: Option<String>,
    pub codes: Vec<Option<String>>,
}

/// One hour of the expansion: the day and block it is read from, its stamp, and its WMO code.
pub struct HourSlot {
    pub day: usize,
    pub block: usize,
    pub time: String,
    pub weather_code: i32,
}

/// The block that hour `h` of a day with `n` blocks is read from: every block covers three
/// hours, and the last one covers the rest of the day.
pub open spec fn block_for(h: int, n: int) -> int {
    if h / 3 < n - 1 {
        h / 3
    } else {
        n - 1
    }
}

/// The WMO code of a block: its World Weather Online code read as a number, 113 (clear)
/// where it is missing or does not read as one.
pub open spec fn slot_code(c: Option<Seq<char>>) -> i32 {
    wwo_wmo(
        match c {
            Some(t) => match parse_i32(t) {
                Some(v) => v as i32,
                None => 113,
            },
            None => 113,
        },
    )
}

/// The 24 hours of day `d`, dated `date`, with the codes of its blocks.
pub open spec fn day_slots(d: int, date: Seq<char>, codes: Seq<Option<Seq<char>>>) -> Seq<
    (int, int, Seq<char>, i32),
> {
    Seq::new(
        24,
        |h: int|
            (
                d,
                block_for(h, codes.len() as int),
                hour_stamp(date, h as nat, ":00"@),
                slot_code(codes[block_for(h, codes.len() as int)]),
            ),
    )
}

/// The abstract form of a day.
pub open spec fn day_view(d: WttrDay) -> (Option<Seq<char>>, Seq<Option<Seq<char>>>) {
    (
        match d.date {
            Some(t) => Some(t@),
            None => None,
        },
        d.codes@.map_values(
            |c: Option<String>|
                match c {
                    Some(t) => Some(t@),
                    None => None,
                },
        ),
    )
}

/// The hours of wttr.in's days: for each day with a date inside `[start, end]` and at least
/// one block, its 24 hours, each read from the block that covers it.
pub open spec fn wttr_slots(
    days: Seq<(Option<Seq<char>>, Seq<Option<Seq<char>>>)>,
    start: Seq<char>,
    end: Seq<char>,
) -> Seq<(int, int, Seq<char>, i32)>
    decreases days.len(),
{
    if days.len() == 0 {
        Seq::empty()
    } else {
        let prev = wttr_slots(days.drop_last(), start, end);
        let (date, codes) = days.last();
        if date is Some && date_in_window(date->0, start, end) && codes.len() > 0 {
            prev + day_slots(days.len() - 1, date->0, codes)
        } else {
            prev
        }
    }
}

/// The abstract form of a slot.
pub open spec fn slot_view(s: HourSlot) -> (int, int, Seq<char>, i32) {
    (s.day as int, s.block as int, s.time@, s.weather_code)
}

/// The code of a block.
fn block_code(c: &Option<String>) -> (r: i32)
    ensures
        r == slot_code(
            match c {
                Some(t) => Some(t@),
                None => None,
            },
        ),
{
    let n: i32 = match c {
        Some(t) => {
            let tc = chars_of(t.as_str());
            match parse_i32_chars(&tc) {
                Some(v) => v,
                None => 113,
            }
        },
        None => 113,
    };
    wwo_code_to_wmo(n)
}

/// Spreads wttr.in's three-hour blocks over the hours of each day in `[start, end]`.
pub fn expand_hours(days: &Vec<WttrDay>, start: &str, end: &str) -> (r: Vec<HourSlot>)
    ensures
        r@.map_values(|s: HourSlot| slot_view(s)) == wttr_slots(
            days@.map_values(|d: WttrDay| day_view(d)),
            start@,
            end@,
        ),
{
    let ghost dv = days@.map_values(|d: WttrDay| day_view(d));
    let sc = chars_of(start);
    let ec = chars_of(end);
    let mut r: Vec<HourSlot> = Vec::new();
    let mut i: usize = 0;
    while i < days.len()
        invariant
            i <= days.len(),
            dv == days@.map_values(|d: WttrDay| day_view(d)),
            sc@ == start@,
            ec@ == end@,
            r@.map_values(|s: HourSlot| slot_view(s)) == wttr_slots(dv.take(i as int), start@, end@),
        decreases days.len() - i,
    {
        assert(dv.take(i + 1).drop_last() =~= dv.take(i as int));
        assert(dv.take(i + 1).last() == day_view(days@[i as int]));
        let day = &days[i];
        let n = day.codes.len();
        let date_opt = &day.date;
        let keep = match date_opt {
            Some(d) => {
                let dc = chars_of(d.as_str());
                date_in_window_chars(&dc, &sc, &ec) && n > 0
            },
            None => false,
        };
        if let (true, Some(date)) = (keep, date_opt) {
            let ghost base = r@.map_values(|s: HourSlot| slot_view(s));
            let ghost codes = day_view(*day).1;
            let mut h: u32 = 0;
            while h < 24
                invariant
                    h <= 24,
                    n == day.codes.len(),
                    n > 0,
                    codes == day_view(*day).1,
                    codes.len() == n,
                    r@.map_values(|s: HourSlot| slot_view(s)) == base + day_slots(
                        i as int,
                        date@,
                        codes,
                    ).take(h as int),
                decreases 24 - h,
            {
                let third = (h / 3) as usize;
                let block = if third < n - 1 { third } else { n - 1 };
                let code = block_code(&day.codes[block]);
                assert(codes[block as int] == match day.codes@[block as int] {
                    Some(t) => Some(t@),
                    None => None,
                });
                let time = hour_stamp_str(date.as_str(), h, ":00");
                proof {
                    reveal_strlit(":00");
                }
                let ghost before = r@.map_values(|s: HourSlot| slot_view(s));
                r.push(HourSlot { day: i, block, time, weather_code: code });
                assert(r@.map_values(|s: HourSlot| slot_view(s)) =~= before.push(
                    day_slots(i as int, date@, codes)[h as int],
                ));
                assert(day_slots(i as int, date@, codes).take(h + 1) =~= day_slots(
                    i as int,
                    date@,
                    codes,
                ).take(h as int).push(day_slots(i as int, date@, codes)[h as int]));
                h = h + 1;
            }
            assert(day_slots(i as int, date@, codes).take(24) =~= day_slots(i as int, date@, codes));
        }
        i = i + 1;
    }
    assert(dv.take(days.len() as int) =~= dv);
    r
}

/// World Weather Online's codes, as wttr.in reports them, land in the matching WMO groups:
/// sunny (113) in clear sky, cloud (116 to 122) in cloud, mist and fog in fog, the drizzle
/// codes in drizzle, the rain and rain-shower codes in rain, the snow, sleet and ice-pellet
/// codes in snow, and the thunder codes in thunderstorms.
pub proof fn law_wwo_groups(c: i32)
    ensures
        c == 113 ==> wmo_clear(wwo_wmo(c)),
        c == 116 || c == 119 || c == 122 ==> wmo_cloudy(wwo_wmo(c)),
        c == 143 || c == 248 || c == 260 ==> wmo_fog(wwo_wmo(c)),
        c == 185 || c == 263 || c == 266 || c == 281 || c == 284 ==> wmo_drizzle(wwo_wmo(c)),
        c == 176 || c == 293 || c == 296 || c == 299 || c == 302 || c == 305 || c == 308 || c
            == 311 || c == 314 || c == 353 || c == 356 || c == 359 ==> wmo_rain(wwo_wmo(c)),
        c == 179 || c == 182 || c == 227 || c == 230 || c == 317 || c == 320 || c == 323 || c
            == 326 || c == 329 || c == 332 || c == 335 || c == 338 || c == 350 || c == 362 || c
            == 365 || c == 368 || c == 371 || c == 374 || c == 377 ==> wmo_snow(wwo_wmo(c)),
        c == 200 || c == 386 || c == 389 || c == 392 || c == 395 ==> wmo_thunder(wwo_wmo(c)),
{
}

} // verus!
