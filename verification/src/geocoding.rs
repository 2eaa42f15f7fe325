//! Turning a place query into coordinates: the spellings tried in turn, the key of the place
//! cache, the order of the lookups, and the reading of the IP lookup's answer.
use vstd::prelude::*;
use vstd::string::StringExecFns;
use crate::text::{
    chars_of, eq_chars, join, join_strs, lowercase, replace_char, replace_char_chars,
    split_whitespace_chars, string_of, to_lowercase, trim, trim_chars, views, words,
};

verus! {

/// The leading words that a place name may drop: "old", "new" and the compass points, in
/// English and Turkish.
pub open spec fn place_prefixes() -> Seq<Seq<char>> {
    seq!["eski"@, "yeni"@, "new"@, "old"@, "upper"@, "lower"@, "north"@, "south"@, "east"@, "west"@]
}

/// The word `w`, lowercased, is one of the droppable leading words.
pub open spec fn is_place_prefix(w: Seq<char>) -> bool {
    place_prefixes().contains(lowercase(w))
}

/// Whether `w`, lowercased, is one of the droppable leading words.
fn place_prefix(w: &str) -> (b: bool)
    ensures
        b == is_place_prefix(w@),
{
    let low = to_lowercase(w);
    let lc = chars_of(low.as_str());
    let list: Vec<&str> = vec!["eski", "yeni", "new", "old", "upper", "lower", "north", "south", "east", "west"];
    proof {
        reveal_strlit("eski");
        reveal_strlit("yeni");
        reveal_strlit("new");
        reveal_strlit("old");
        reveal_strlit("upper");
        reveal_strlit("lower");
        reveal_strlit("north");
        reveal_strlit("south");
        reveal_strlit("east");
        reveal_strlit("west");
        assert(list@.map_values(|s: &str| s@) =~= place_prefixes());
    }
    let mut i: usize = 0;
    while i < list.len()
        invariant
            i <= list.len(),
            list@.map_values(|s: &str| s@) == place_prefixes(),
            lc@ == lowercase(w@),
            forall|j: int| 0 <= j < i ==> place_prefixes()[j] != lowercase(w@),
        decreases list.len() - i,
    {
        let p = chars_of(list[i]);
        assert(place_prefixes()[i as int] == list@[i as int]@);
        if eq_chars(&p, &lc) {
            assert(place_prefixes()[i as int] == lowercase(w@));
            return true;
        }
        i = i + 1;
    }
    false
}

/// The spellings of a query before duplicates are dropped: the query without a droppable
/// leading word (when that leaves something), the query itself, and each of its words
/// (commas read as spaces) that is not a droppable word.
pub open spec fn raw_candidates(q: Seq<char>) -> Seq<Seq<char>> {
    let ws = words(q);
    let first = if ws.len() > 0 && is_place_prefix(ws[0]) && join(ws.drop_first(), " "@).len() > 0 {
        seq![join(ws.drop_first(), " "@)]
    } else {
        Seq::empty()
    };
    first + seq![q] + words(replace_char(q, ',', ' ')).filter(|p: Seq<char>| !is_place_prefix(p))
}

/// The key under which two spellings count as the same: lowercased and trimmed.
pub open spec fn spelling_key(c: Seq<char>) -> Seq<char> {
    trim(lowercase(c))
}

/// The spellings `s` with each one dropped whose key an earlier one has.
pub open spec fn first_spellings(s: Seq<Seq<char>>) -> Seq<Seq<char>>
    decreases s.len(),
{
    if s.len() == 0 {
        Seq::empty()
    } else {
        let prev = first_spellings(s.drop_last());
        if prev.map_values(|c: Seq<char>| spelling_key(c)).contains(spelling_key(s.last())) {
            prev
        } else {
            prev.push(s.last())
        }
    }
}

/// What `deunicode::deunicode` makes of `s`: its ASCII transliteration.
pub uninterp spec fn ascii_fold(s: Seq<char>) -> Seq<char>;

/// Calls `deunicode::deunicode`. The contract names the result (`ascii_fold`) and states what
/// the crate's documentation guarantees of ASCII input, that it maps to itself; the
/// transliteration tables are not stated.
#[verifier::external_body]
pub(crate) fn fold_to_ascii(s: &str) -> (r: String)
    ensures
        r@ == ascii_fold(s@),
        (forall|i: int| 0 <= i < s@.len() ==> (#[trigger] s@[i] as u32) < 0x7f) ==> r@ == s@,
{
    deunicode::deunicode(s)
}

/// The ASCII spellings that follow: for each spelling, its transliteration where that differs
/// from it and is not empty.
pub open spec fn ascii_spellings(s: Seq<Seq<char>>) -> Seq<Seq<char>>
    decreases s.len(),
{
    if s.len() == 0 {
        Seq::empty()
    } else {
        let prev = ascii_spellings(s.drop_last());
        let f = ascii_fold(s.last());
        if f != s.last() && f.len() > 0 {
            prev.push(f)
        } else {
            prev
        }
    }
}

/// The spellings of a query that the geocoder is asked for, in turn.
pub open spec fn query_candidates(q: Seq<char>) -> Seq<Seq<char>> {
    let d = first_spellings(raw_candidates(q));
    d + ascii_spellings(d)
}

/// The words of `v` as strings.
fn word_strings(v: &Vec<char>) -> (r: Vec<String>)
    ensures
        views(r@) == words(v@),
{
    let ws = split_whitespace_chars(v);
    let mut r: Vec<String> = Vec::new();
    let mut i: usize = 0;
    while i < ws.len()
        invariant
            i <= ws.len(),
            ws@.map_values(|w: Vec<char>| w@) == words(v@),
            views(r@) == ws@.map_values(|w: Vec<char>| w@).take(i as int),
        decreases ws.len() - i,
    {
        let ghost before = views(r@);
        let w = string_of(&ws[i]);
        r.push(w);
        assert(views(r@) =~= before.push(ws@[i as int]@));
        assert(views(r@) =~= ws@.map_values(|w: Vec<char>| w@).take(i + 1));
        i = i + 1;
    }
    assert(ws@.map_values(|w: Vec<char>| w@).take(ws.len() as int) =~= ws@.map_values(
        |w: Vec<char>| w@,
    ));
    r
}

/// The key of a spelling.
fn key_of(c: &str) -> (k: Vec<char>)
    ensures
        k@ == spelling_key(c@),
{
    let low = to_lowercase(c);
    let lc = chars_of(low.as_str());
    trim_chars(&lc)
}

/// The spellings of a place query that the geocoder is asked for, in turn: the query without
/// a leading "old", "new" or compass word, the query, its words that are not such words, each
/// spelling once (compared lowercased and trimmed), then the ASCII transliterations of those
/// that have one of their own.
pub fn normalize_query(query: &str) -> (r: Vec<String>)
    ensures
        views(r@) == query_candidates(query@),
{
    let qv = chars_of(query);
    let ws = word_strings(&qv);
    let mut raw: Vec<String> = Vec::new();
    if ws.len() > 0 && place_prefix(ws[0].as_str()) {
        let mut rest: Vec<String> = Vec::new();
        let mut i: usize = 1;
        while i < ws.len()
            invariant
                1 <= i <= ws.len(),
                views(rest@) == views(ws@).subrange(1, i as int),
            decreases ws.len() - i,
        {
            let ghost before = views(rest@);
            let w = ws[i].clone();
            rest.push(w);
            assert(views(rest@) =~= before.push(ws@[i as int]@));
            assert(views(rest@) =~= views(ws@).subrange(1, i + 1));
            i = i + 1;
        }
        assert(views(ws@).subrange(1, ws.len() as int) =~= views(ws@).drop_first());
        let stripped = join_strs(&rest, " ");
        proof {
            reveal_strlit(" ");
        }
        let sc = chars_of(stripped.as_str());
        if sc.len() > 0 {
            raw.push(stripped);
        }
    }
    let ghost first = views(raw@);
    raw.push(query.to_owned());
    let replaced = replace_char_chars(&qv, ',', ' ');
    let parts = word_strings(&replaced);
    let ghost pv = views(parts@);
    let ghost keep = |p: Seq<char>| !is_place_prefix(p);
    assert(views(raw@) =~= first + seq![query@]);
    let mut j: usize = 0;
    while j < parts.len()
        invariant
            j <= parts.len(),
            pv == views(parts@),
            pv == words(replace_char(query@, ',', ' ')),
            keep == (|p: Seq<char>| !is_place_prefix(p)),
            views(raw@) == first + seq![query@] + pv.take(j as int).filter(keep),
        decreases parts.len() - j,
    {
        proof {
            assert(pv.take(j + 1).drop_last() =~= pv.take(j as int));
            reveal_with_fuel(Seq::filter, 1);
        }
        let ghost before = views(raw@);
        if !place_prefix(parts[j].as_str()) {
            raw.push(parts[j].clone());
            assert(views(raw@) =~= before.push(pv[j as int]));
        }
        j = j + 1;
    }
    proof {
        assert(pv.take(parts.len() as int) =~= pv);
        assert(views(raw@) =~= raw_candidates(query@));
    }
    let ghost rv = views(raw@);
    let mut kept: Vec<String> = Vec::new();
    let mut keys: Vec<Vec<char>> = Vec::new();
    let mut k: usize = 0;
    while k < raw.len()
        invariant
            k <= raw.len(),
            rv == views(raw@),
            views(kept@) == first_spellings(rv.take(k as int)),
            keys@.map_values(|x: Vec<char>| x@) == views(kept@).map_values(
                |c: Seq<char>| spelling_key(c),
            ),
        decreases raw.len() - k,
    {
        assert(rv.take(k + 1).drop_last() =~= rv.take(k as int));
        let c = &raw[k];
        let key = key_of(c.as_str());
        let ghost kv = keys@.map_values(|x: Vec<char>| x@);
        let mut seen = false;
        let mut m: usize = 0;
        while m < keys.len()
            invariant
                m <= keys.len(),
                kv == keys@.map_values(|x: Vec<char>| x@),
                seen ==> kv.contains(key@),
                !seen ==> forall|a: int| 0 <= a < m ==> kv[a] != key@,
            decreases keys.len() - m,
        {
            if eq_chars(&keys[m], &key) {
                assert(kv[m as int] == key@);
                seen = true;
            }
            m = m + 1;
        }
        assert(rv.take(k + 1).last() == c@);
        if !seen {
            let ghost bk = views(kept@);
            kept.push(c.clone());
            keys.push(key);
            assert(views(kept@) =~= bk.push(c@));
            assert(keys@.map_values(|x: Vec<char>| x@) =~= kv.push(key@));
            assert(views(kept@).map_values(|c: Seq<char>| spelling_key(c)) =~= bk.map_values(
                |c: Seq<char>| spelling_key(c),
            ).push(spelling_key(c@)));
        }
        k = k + 1;
    }
    assert(rv.take(raw.len() as int) =~= rv);
    let ghost dv = views(kept@);
    let mut extra: Vec<String> = Vec::new();
    let mut e: usize = 0;
    while e < kept.len()
        invariant
            e <= kept.len(),
            dv == views(kept@),
            views(extra@) == ascii_spellings(dv.take(e as int)),
        decreases kept.len() - e,
    {
        assert(dv.take(e + 1).drop_last() =~= dv.take(e as int));
        let f = fold_to_ascii(kept[e].as_str());
        let fc = chars_of(f.as_str());
        let cc = chars_of(kept[e].as_str());
        let ghost be = views(extra@);
        if !eq_chars(&fc, &cc) && fc.len() > 0 {
            extra.push(f);
            assert(views(extra@) =~= be.push(fc@));
        }
        e = e + 1;
    }
    assert(dv.take(kept.len() as int) =~= dv);
    let ghost ev = views(extra@);
    let mut result = kept;
    let mut x: usize = 0;
    while x < extra.len()
        invariant
            x <= extra.len(),
            ev == views(extra@),
            views(result@) == dv + ev.take(x as int),
        decreases extra.len() - x,
    {
        let ghost before = views(result@);
        let w = extra[x].clone();
        result.push(w);
        assert(views(result@) =~= before.push(extra@[x as int]@));
        assert(views(result@) =~= dv + ev.take(x + 1));
        x = x + 1;
    }
    assert(ev.take(extra.len() as int) =~= ev);
    result
}


/// The key under which the place cache files a query: lowercased and trimmed.
pub fn place_cache_key(query: &str) -> (k: String)
    ensures
        k@ == spelling_key(query@),
{
    let kc = key_of(query);
    string_of(&kc)
}

/// What the geocoder answered for one spelling.
pub enum GeoAnswer {
    /// At least one place matched; the first is taken.
    Found,
    /// No place matched.
    NoMatch,
    /// The request failed with this error.
    Failed(String),
}

/// What the place lookup does next.
#[derive(Debug)]
pub enum GeoStep {
    /// Ask the geocoder for this spelling.
    Ask(String),
    /// The place is found: the last spelling asked matched.
    Resolved,
    /// The lookup fails with this error.
    Fail(String),
}

/// The error of a query that no spelling matched.
pub open spec fn not_found_message(q: Seq<char>) -> Seq<char> {
    "Location not found: "@ + q
}

/// The place lookup for a query that the cache does not hold: the spellings in turn, until
/// one matches or a request fails.
pub struct GeoSearch {
    query: String,
    candidates: Vec<String>,
    next: usize,
    finished: bool,
}

impl GeoSearch {
    /// The query.
    pub closed spec fn query_view(&self) -> Seq<char> {
        self.query@
    }

    /// The spellings to try, in order.
    pub closed spec fn candidates_view(&self) -> Seq<Seq<char>> {
        views(self.candidates@)
    }

    /// How many spellings have been asked for.
    pub closed spec fn asked(&self) -> nat {
        self.next as nat
    }

    /// Whether the lookup has ended.
    pub closed spec fn finished_view(&self) -> bool {
        self.finished
    }

    /// The lookup's state is consistent.
    pub closed spec fn wf(&self) -> bool {
        self.next <= self.candidates.len()
    }

    /// A lookup for `query`, with its spellings and none of them asked yet.
    pub fn new(query: &str) -> (r: Self)
        ensures
            r.wf(),
            r.query_view() == query@,
            r.candidates_view() == query_candidates(query@),
            r.asked() == 0,
            !r.finished_view(),
    {
        GeoSearch { query: query.to_owned(), candidates: normalize_query(query), next: 0, finished: false }
    }

    /// The first step: ask for the first spelling, or fail when there is none.
    pub fn start(&mut self) -> (r: GeoStep)
        requires
            old(self).wf(),
            old(self).asked() == 0,
            !old(self).finished_view(),
        ensures
            final(self).wf(),
            final(self).query_view() == old(self).query_view(),
            final(self).candidates_view() == old(self).candidates_view(),
            old(self).candidates_view().len() > 0 ==> (r matches GeoStep::Ask(c) && c@
                == old(self).candidates_view()[0] && final(self).asked() == 1
                && !final(self).finished_view()),
            old(self).candidates_view().len() == 0 ==> (r matches GeoStep::Fail(m) && m@
                == not_found_message(old(self).query_view()) && final(self).finished_view()),
    {
        self.advance()
    }

    /// Asks for the next spelling, or fails when none is left.
    fn advance(&mut self) -> (r: GeoStep)
        requires
            old(self).wf(),
            !old(self).finished_view(),
        ensures
            final(self).wf(),
            final(self).query_view() == old(self).query_view(),
            final(self).candidates_view() == old(self).candidates_view(),
            old(self).asked() < old(self).candidates_view().len() ==> (r matches GeoStep::Ask(c)
                && c@ == old(self).candidates_view()[old(self).asked() as int]
                && final(self).asked() == old(self).asked() + 1 && !final(self).finished_view()),
            old(self).asked() >= old(self).candidates_view().len() ==> (r matches GeoStep::Fail(m)
                && m@ == not_found_message(old(self).query_view()) && final(self).finished_view()),
    {
        if self.next < self.candidates.len() {
            let c = self.candidates[self.next].clone();
            self.next = self.next + 1;
            GeoStep::Ask(c)
        } else {
            self.finished = true;
            let mut m = "Location not found: ".to_owned();
            m.append(self.query.as_str());
            proof {
                reveal_strlit("Location not found: ");
            }
            GeoStep::Fail(m)
        }
    }

    /// Takes in the geocoder's answer for the spelling last asked: a match resolves the place,
    /// a failed request ends the lookup with its error, and no match moves on to the next
    /// spelling.
    pub fn answer(&mut self, a: GeoAnswer) -> (r: GeoStep)
        requires
            old(self).wf(),
            !old(self).finished_view(),
            old(self).asked() > 0,
        ensures
            final(self).wf(),
            final(self).query_view() == old(self).query_view(),
            final(self).candidates_view() == old(self).candidates_view(),
            a is Found ==> r is Resolved && final(self).finished_view(),
            a matches GeoAnswer::Failed(e) ==> (r matches GeoStep::Fail(m) && m@ == e@)
                && final(self).finished_view(),
            a is NoMatch && old(self).asked() < old(self).candidates_view().len() ==> (r matches GeoStep::Ask(c)
                && c@ == old(self).candidates_view()[old(self).asked() as int]
                && final(self).asked() == old(self).asked() + 1 && !final(self).finished_view()),
            a is NoMatch && old(self).asked() >= old(self).candidates_view().len() ==> (r matches GeoStep::Fail(m)
                && m@ == not_found_message(old(self).query_view()) && final(self).finished_view()),
    {
        match a {
            GeoAnswer::Found => {
                self.finished = true;
                GeoStep::Resolved
            },
            GeoAnswer::Failed(e) => {
                self.finished = true;
                GeoStep::Fail(e)
            },
            GeoAnswer::NoMatch => self.advance(),
        }
    }
}

/// The query itself is always among its spellings, so a lookup asks the geocoder at least once.
pub proof fn law_query_is_a_candidate(q: Seq<char>)
    ensures
        query_candidates(q).len() > 0,
{
    let raw = raw_candidates(q);
    assert(raw.len() > 0);
    lemma_first_spellings_nonempty(raw);
}

/// Dropping repeated spellings never drops them all.
proof fn lemma_first_spellings_nonempty(s: Seq<Seq<char>>)
    requires
        s.len() > 0,
    ensures
        first_spellings(s).len() > 0,
    decreases s.len(),
{
    if s.len() > 1 {
        lemma_first_spellings_nonempty(s.drop_last());
    }
}

/// The error of an IP lookup whose answer reports a status other than `success`.
pub open spec fn ip_status_message(status: Seq<char>) -> Seq<char> {
    "IP Geolocation failed: status is "@ + status
}

/// Checks the IP lookup's answer: its status must be `success`, and it must carry a latitude
/// and then a longitude.
pub fn check_ip_answer(status: &str, has_lat: bool, has_lon: bool) -> (r: Result<(), String>)
    ensures
        status@ != "success"@ ==> (r matches Err(m) && m@ == ip_status_message(status@)),
        status@ == "success"@ && !has_lat ==> (r matches Err(m) && m@
            == "Missing latitude in IP API response"@),
        status@ == "success"@ && has_lat && !has_lon ==> (r matches Err(m) && m@
            == "Missing longitude in IP API response"@),
        r is Ok <==> status@ == "success"@ && has_lat && has_lon,
{
    let sc = chars_of(status);
    let ok = chars_of("success");
    proof {
        reveal_strlit("success");
        reveal_strlit("IP Geolocation failed: status is ");
        reveal_strlit("Missing latitude in IP API response");
        reveal_strlit("Missing longitude in IP API response");
    }
    if !eq_chars(&sc, &ok) {
        let mut m = "IP Geolocation failed: status is ".to_owned();
        m.append(status);
        return Err(m);
    }
    if !has_lat {
        return Err("Missing latitude in IP API response".to_owned());
    }
    if !has_lon {
        return Err("Missing longitude in IP API response".to_owned());
    }
    Ok(())
}

/// The place name of an IP lookup: the answer's city, or `Unknown City`.
pub fn ip_place_name(city: Option<String>) -> (r: String)
    ensures
        city matches Some(c) ==> r@ == c@,
        city is None ==> r@ == "Unknown City"@,
{
    match city {
        Some(c) => c,
        None => {
            proof {
                reveal_strlit("Unknown City");
            }
            "Unknown City".to_owned()
        },
    }
}

/// A place's label on the dashboard: its name, a comma and its country.
pub open spec fn place_label(name: Seq<char>, country: Seq<char>) -> Seq<char> {
    name + ", "@ + country
}

/// The label of a place on the dashboard.
pub fn place_label_of(name: &str, country: &str) -> (r: String)
    ensures
        r@ == place_label(name@, country@),
{
    let mut r = name.to_owned();
    r.append(", ");
    r.append(country);
    proof {
        reveal_strlit(", ");
    }
    r
}

} // verus!
