//! What the live dashboard shows: the location line, the progress bar, the steps' marks, the
//! providers' rows in name order, and the tone of the latest log line.
use vstd::prelude::*;
use vstd::string::StringExecFns;
use crate::text::{
    chars_of, contains_chars, contains_seq, decimal, decimal_str, eq_chars, lemma_lex_irreflexive,
    lemma_lex_total, lemma_lex_transitive, lex_lt, slice_chars, str_lt, string_of, views,
};

verus! {

/// The colours the dashboard paints with.
#[derive(Clone, Copy, Debug, PartialEq, Eq, Structural)]
pub enum Tone {
    Green,
    Yellow,
    Red,
    Blue,
    DarkGray,
    White,
}

/// The location line: the resolved place once there is one, else the query being searched.
pub open spec fn location_text(resolved: Option<Seq<char>>, query: Seq<char>) -> Seq<char> {
    match resolved {
        Some(r) => "📍 Konum: "@ + r,
        None => "📍 Arama: \""@ + query + "\""@,
    }
}

/// The location line and its colour: green once resolved, yellow while searching.
pub fn location_line(resolved: &Option<String>, query: &str) -> (r: (String, Tone))
    ensures
        r.0@ == location_text(
            match resolved {
                Some(s) => Some(s@),
                None => None,
            },
            query@,
        ),
        r.1 == (if resolved is Some { Tone::Green } else { Tone::Yellow }),
{
    match resolved {
        Some(s) => {
            let mut t = "📍 Konum: ".to_owned();
            t.append(s.as_str());
            (t, Tone::Green)
        },
        None => {
            let mut t = "📍 Arama: \"".to_owned();
            t.append(query);
            t.append("\"");
            (t, Tone::Yellow)
        },
    }
}

/// The progress bar: one filled cell per five percent, then empty cells up to twenty.
pub open spec fn bar_cells(progress: u32) -> Seq<char> {
    let filled = (progress / 5) as nat;
    Seq::new(filled, |i: int| '▰') + Seq::new(if filled < 20 { (20 - filled) as nat } else { 0 }, |i: int| '▱')
}

/// The progress line with its bar and percentage.
pub open spec fn progress_text(progress: u32) -> Seq<char> {
    "\n📊 İlerleme: "@ + bar_cells(progress) + " "@ + decimal(progress as nat) + "%\n"@
}

/// The progress line and its colour: green from 90, yellow from 50, blue below.
pub fn progress_line(progress: u32) -> (r: (String, Tone))
    ensures
        r.0@ == progress_text(progress),
        r.1 == (if progress >= 90 {
            Tone::Green
        } else if progress >= 50 {
            Tone::Yellow
        } else {
            Tone::Blue
        }),
{
    let filled = progress / 5;
    let mut bar = String::new();
    let mut i: u32 = 0;
    while i < filled
        invariant
            i <= filled,
            filled == progress / 5,
            bar@ == Seq::new(i as nat, |k: int| '▰'),
        decreases filled - i,
    {
        bar.push('▰');
        i = i + 1;
        assert(bar@ =~= Seq::new(i as nat, |k: int| '▰'));
    }
    let ghost full = bar@;
    let mut j: u32 = filled;
    while j < 20
        invariant
            filled <= j || filled >= 20,
            full == Seq::new(filled as nat, |k: int| '▰'),
            j >= filled,
            j < 20 ==> bar@ == full + Seq::new((j - filled) as nat, |k: int| '▱'),
            j >= 20 && filled < 20 ==> bar@ == full + Seq::new((20 - filled) as nat, |k: int| '▱'),
            filled >= 20 ==> bar@ == full,
        decreases 20 - j,
    {
        bar.push('▱');
        j = j + 1;
        assert(bar@ =~= full + Seq::new((j - filled) as nat, |k: int| '▱'));
    }
    if filled >= 20 {
        assert(bar@ =~= bar_cells(progress));
    } else {
        assert(bar@ =~= bar_cells(progress));
    }
    let mut t = "\n📊 İlerleme: ".to_owned();
    t.append(bar.as_str());
    t.append(" ");
    let p = decimal_str(progress as u64);
    t.append(p.as_str());
    t.append("%\n");
    let tone = if progress >= 90 {
        Tone::Green
    } else if progress >= 50 {
        Tone::Yellow
    } else {
        Tone::Blue
    };
    (t, tone)
}

/// How a step's line looks: its mark, colour and weight.
#[derive(Clone, Copy, Debug)]
pub struct StepMark {
    pub icon: &'static str,
    pub tone: Tone,
    pub bold: bool,
}

/// The mark of a step in the given status: done, running, failed, or waiting otherwise.
pub fn step_mark(status: &str) -> (r: StepMark)
    ensures
        status@ == "completed"@ ==> r.icon@ == "  ✅ "@ && r.tone == Tone::Green && !r.bold,
        status@ == "running"@ ==> r.icon@ == "  ⠋ "@ && r.tone == Tone::Yellow && r.bold,
        status@ == "failed"@ ==> r.icon@ == "  ❌ "@ && r.tone == Tone::Red && r.bold,
        status@ != "completed"@ && status@ != "running"@ && status@ != "failed"@ ==> r.icon@
            == "  🕒 "@ && r.tone == Tone::DarkGray && !r.bold,
{
    let s = chars_of(status);
    let c = chars_of("completed");
    let ru = chars_of("running");
    let f = chars_of("failed");
    proof {
        reveal_strlit("completed");
        reveal_strlit("running");
        reveal_strlit("failed");
        assert("completed"@ != "running"@ && "completed"@ != "failed"@ && "running"@ != "failed"@) by {
            assert("completed"@.len() != "running"@.len());
            assert("completed"@.len() != "failed"@.len());
            assert("running"@.len() != "failed"@.len());
        }
    }
    if eq_chars(&s, &c) {
        StepMark { icon: "  ✅ ", tone: Tone::Green, bold: false }
    } else if eq_chars(&s, &ru) {
        StepMark { icon: "  ⠋ ", tone: Tone::Yellow, bold: true }
    } else if eq_chars(&s, &f) {
        StepMark { icon: "  ❌ ", tone: Tone::Red, bold: true }
    } else {
        StepMark { icon: "  🕒 ", tone: Tone::DarkGray, bold: false }
    }
}

/// How a provider's row looks: the status label, its colour and weight, and whether the
/// time column shows the measured time (otherwise a dash).
#[derive(Clone, Copy, Debug)]
pub struct ProviderCell {
    pub label: &'static str,
    pub tone: Tone,
    pub bold: bool,
    pub shows_time: bool,
}

/// The row of a provider in the given status: won, racing, failed, or waiting otherwise.
pub fn provider_cell(status: &str) -> (r: ProviderCell)
    ensures
        status@ == "completed"@ ==> r.label@ == "🏆 Başarılı"@ && r.tone == Tone::Green && r.bold
            && r.shows_time,
        status@ == "running"@ ==> r.label@ == "🏎️ Yarışıyor..."@ && r.tone == Tone::Yellow
            && r.bold && !r.shows_time,
        status@ == "failed"@ ==> r.label@ == "❌ Başarısız"@ && r.tone == Tone::Red && r.bold
            && r.shows_time,
        status@ != "completed"@ && status@ != "running"@ && status@ != "failed"@ ==> r.label@
            == "🕒 Beklemede"@ && r.tone == Tone::DarkGray && !r.bold && !r.shows_time,
{
    let s = chars_of(status);
    let c = chars_of("completed");
    let ru = chars_of("running");
    let f = chars_of("failed");
    proof {
        reveal_strlit("completed");
        reveal_strlit("running");
        reveal_strlit("failed");
        assert("completed"@ != "running"@ && "completed"@ != "failed"@ && "running"@ != "failed"@) by {
            assert("completed"@.len() != "running"@.len());
            assert("completed"@.len() != "failed"@.len());
            assert("running"@.len() != "failed"@.len());
        }
    }
    if eq_chars(&s, &c) {
        ProviderCell { label: "🏆 Başarılı", tone: Tone::Green, bold: true, shows_time: true }
    } else if eq_chars(&s, &ru) {
        ProviderCell { label: "🏎️ Yarışıyor...", tone: Tone::Yellow, bold: true, shows_time: false }
    } else if eq_chars(&s, &f) {
        ProviderCell { label: "❌ Başarısız", tone: Tone::Red, bold: true, shows_time: true }
    } else {
        ProviderCell { label: "🕒 Beklemede", tone: Tone::DarkGray, bold: false, shows_time: false }
    }
}

/// `s` is sorted in the order of `str`.
pub open spec fn sorted_strs(s: Seq<Seq<char>>) -> bool {
    forall|a: int, b: int| 0 <= a < b < s.len() ==> !lex_lt(#[trigger] s[b], #[trigger] s[a])
}

/// The providers' names in the order of `str`, as the dashboard lists them.
pub fn sorted_names(names: &Vec<String>) -> (r: Vec<String>)
    ensures
        views(r@).to_multiset() == views(names@).to_multiset(),
        sorted_strs(views(r@)),
{
    let mut r: Vec<String> = Vec::new();
    let mut i: usize = 0;
    assert(views(r@) =~= views(names@).take(0));
    while i < names.len()
        invariant
            i <= names.len(),
            views(r@).to_multiset() == views(names@).take(i as int).to_multiset(),
            sorted_strs(views(r@)),
        decreases names.len() - i,
    {
        let n = chars_of(names[i].as_str());
        let ghost rv = views(r@);
        let mut pos: usize = 0;
        while pos < r.len() && !str_lt(&n, &chars_of(r[pos].as_str()))
            invariant
                pos <= r.len(),
                rv == views(r@),
                forall|a: int| 0 <= a < pos ==> !lex_lt(n@, #[trigger] rv[a]),
            decreases r.len() - pos,
        {
            pos = pos + 1;
        }
        let name = names[i].clone();
        r.insert(pos, name);
        proof {
            let nv = views(r@);
            assert(nv =~= rv.insert(pos as int, n@));
            assert(views(names@).take(i + 1) =~= views(names@).take(i as int).push(n@));
            vstd::seq_lib::to_multiset_insert(rv, pos as int, n@);
            vstd::seq_lib::to_multiset_build(views(names@).take(i as int), n@);
            assert(views(names@).take(i as int).push(n@).to_multiset() == views(names@).take(
                i as int,
            ).to_multiset().insert(n@));
            assert forall|a: int, b: int| 0 <= a < b < nv.len() implies !lex_lt(
                #[trigger] nv[b],
                #[trigger] nv[a],
            ) by {
                if b < pos {
                } else if b == pos {
                    assert(nv[a] == rv[a]);
                } else if a < pos {
                    assert(nv[b] == rv[b - 1]);
                    assert(lex_lt(n@, rv[pos as int]));
                    if lex_lt(rv[b - 1], rv[a]) {
                        lemma_lex_total(n@, rv[a]);
                        if b - 1 > pos {
                            assert(!lex_lt(rv[b - 1], rv[pos as int]));
                        }
                        lemma_lex_transitive(rv[b - 1], rv[a], n@);
                        if b - 1 == pos as int {
                            lemma_lex_total(n@, rv[pos as int]);
                        } else {
                            lemma_lex_transitive(rv[b - 1], n@, rv[pos as int]);
                        }
                    }
                } else if a == pos {
                    assert(nv[b] == rv[b - 1]);
                    assert(lex_lt(n@, rv[pos as int]));
                    if lex_lt(rv[b - 1], n@) {
                        if b - 1 == pos as int {
                            lemma_lex_total(n@, rv[pos as int]);
                        } else {
                            lemma_lex_transitive(rv[b - 1], n@, rv[pos as int]);
                        }
                    }
                } else {
                    assert(nv[a] == rv[a - 1] && nv[b] == rv[b - 1]);
                }
            }
        }
        i = i + 1;
    }
    assert(views(names@).take(names.len() as int) =~= views(names@));
    r
}

/// The colour of the latest log line: red for failures and limits, green for wins, hits and
/// successes, white otherwise.
pub open spec fn log_tone_of(log: Seq<char>) -> (Tone, bool) {
    if contains_seq(log, "hata"@) || contains_seq(log, "failed"@) || contains_seq(log, "limit"@)
        || contains_seq(log, "❌"@) {
        (Tone::Red, true)
    } else if contains_seq(log, "kazandı"@) || contains_seq(log, "başarıyla"@) || contains_seq(
        log,
        "hit"@,
    ) || contains_seq(log, "✅"@) || contains_seq(log, "🏆"@) {
        (Tone::Green, true)
    } else {
        (Tone::White, false)
    }
}

/// Whether `p` occurs in `s`.
fn has(s: &Vec<char>, p: &str) -> (b: bool)
    ensures
        b == contains_seq(s@, p@),
{
    let pc = chars_of(p);
    contains_chars(s, &pc)
}

/// The colour and weight of the latest log line.
pub fn log_tone(log: &str) -> (r: (Tone, bool))
    ensures
        r == log_tone_of(log@),
{
    let l = chars_of(log);
    if has(&l, "hata") || has(&l, "failed") || has(&l, "limit") || has(&l, "❌") {
        (Tone::Red, true)
    } else if has(&l, "kazandı") || has(&l, "başarıyla") || has(&l, "hit") || has(&l, "✅") || has(
        &l,
        "🏆",
    ) {
        (Tone::Green, true)
    } else {
        (Tone::White, false)
    }
}

/// The text of a log event's message as the dashboard keeps it: without the quotes that
/// `Debug` puts around a string.
pub open spec fn unquoted(msg: Seq<char>) -> Seq<char> {
    if msg.len() > 0 && msg[0] == '"' && msg.last() == '"' {
        msg.subrange(1, msg.len() - 1)
    } else {
        msg
    }
}

/// The dashboard's new latest log line for a logged message, when it has one: the message
/// without surrounding quotes, unless that leaves nothing.
pub fn log_update(msg: &str) -> (r: Option<String>)
    requires
        msg@ != seq!['"'],
    ensures
        unquoted(msg@).len() == 0 <==> r is None,
        r matches Some(s) ==> s@ == unquoted(msg@),
{
    let m = chars_of(msg);
    let n = m.len();
    let t = if n > 0 && m[0] == '"' && m[n - 1] == '"' {
        assert(n >= 2) by {
            if n == 1 {
                assert(m@ =~= seq!['"']);
            }
        }
        slice_chars(&m, 1, n - 1)
    } else {
        slice_chars(&m, 0, n)
    };
    assert(m@.subrange(0, n as int) =~= m@);
    if t.len() == 0 {
        None
    } else {
        Some(string_of(&t))
    }
}

} // verus!
