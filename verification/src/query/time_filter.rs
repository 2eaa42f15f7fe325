use vstd::prelude::*;
use crate::text::{
    before_char, before_char_chars, chars_of, parse_unsigned, parse_unsigned_chars,
    second_piece, second_piece_chars, select_indices, lemma_select_all,
};

verus! {

/// The hour of a `YYYY-MM-DDTHH:MM` timestamp: the text between the first `T` and the next
/// `T`, up to its first `:`, read as a `u32`.
pub open spec fn stamp_hour(time: Seq<char>) -> Option<nat> {
    match second_piece(time, 'T') {
        Some(p) => parse_unsigned(before_char(p, ':'), u32::MAX as nat),
        None => None,
    }
}

/// The hour of the timestamp `time`, if it has one.
pub fn hour_of(time: &str) -> (r: Option<u32>)
    ensures
        r matches Some(h) ==> stamp_hour(time@) == Some(h as nat),
        r is None ==> stamp_hour(time@) is None,
{
    let v = chars_of(time);
    match second_piece_chars(&v, 'T') {
        Some(p) => {
            let head = before_char_chars(&p, ':');
            match parse_unsigned_chars(&head, 4294967295u64) {
                Some(h) => Some(h as u32),
                None => None,
            }
        },
        None => None,
    }
}

/// A point with timestamp `time` lies in the window `[from, to)` of hours, where an absent
/// bound stands for the start (0) or the end (24) of the day.
pub open spec fn in_hour_window(time: Seq<char>, from: Option<u32>, to: Option<u32>) -> bool {
    let lo: nat = match from {
        Some(f) => f as nat,
        None => 0,
    };
    let hi: nat = match to {
        Some(t) => t as nat,
        None => 24,
    };
    match stamp_hour(time) {
        Some(h) => lo <= h && h < hi,
        None => false,
    }
}

/// A point is kept: no bound was given, or its hour lies in the window.
pub open spec fn keeps_hour(time: Seq<char>, from: Option<u32>, to: Option<u32>) -> bool {
    (from is None && to is None) || in_hour_window(time, from, to)
}

/// The indices of the points that an hour window keeps, in order.
pub open spec fn hour_window_indices(times: Seq<Seq<char>>, from: Option<u32>, to: Option<u32>) -> Seq<int> {
    select_indices(times.len(), |i: int| keeps_hour(times[i], from, to))
}

/// Keeps only the points whose hour of day falls in `[from_hour, to_hour)`, given the points'
/// timestamps; returns the indices of the points kept, in order. Both bounds are optional; an
/// absent bound stands for the full day, and with neither bound every point is kept.
pub fn filter_by_hour(times: &Vec<String>, from_hour: Option<u32>, to_hour: Option<u32>) -> (r: Vec<usize>)
    ensures
        r@.map_values(|i: usize| i as int) == hour_window_indices(
            times@.map_values(|s: String| s@),
            from_hour,
            to_hour,
        ),
        from_hour is None && to_hour is None ==> r@.map_values(|i: usize| i as int) == Seq::new(
            times@.len(),
            |i: int| i,
        ),
{
    let ghost ts = times@.map_values(|s: String| s@);
    let ghost keep = |i: int| keeps_hour(ts[i], from_hour, to_hour);
    let both_absent = from_hour.is_none() && to_hour.is_none();
    let from: u32 = match from_hour {
        Some(f) => f,
        None => 0,
    };
    let to: u32 = match to_hour {
        Some(t) => t,
        None => 24,
    };
    let mut r: Vec<usize> = Vec::new();
    let mut i: usize = 0;
    while i < times.len()
        invariant
            i <= times.len(),
            ts == times@.map_values(|s: String| s@),
            keep == (|i: int| keeps_hour(ts[i], from_hour, to_hour)),
            both_absent == (from_hour is None && to_hour is None),
            from == match from_hour { Some(f) => f, None => 0u32 },
            to == match to_hour { Some(t) => t, None => 24u32 },
            r@.map_values(|i: usize| i as int) == select_indices(i as nat, keep),
        decreases times.len() - i,
    {
        let kept = if both_absent {
            true
        } else {
            match hour_of(times[i].as_str()) {
                Some(h) => from <= h && h < to,
                None => false,
            }
        };
        assert(ts[i as int] == times@[i as int]@);
        assert(kept == keep(i as int));
        let ghost before = r@.map_values(|i: usize| i as int);
        if kept {
            r.push(i);
        }
        assert(r@.map_values(|i: usize| i as int) =~= select_indices((i + 1) as nat, keep));
        i = i + 1;
    }
    proof {
        if from_hour is None && to_hour is None {
            lemma_select_all(times@.len(), keep);
        }
    }
    r
}

} // verus!
