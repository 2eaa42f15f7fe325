use vstd::prelude::*;
use crate::providers::wmo::{wmo_clear, wmo_cloudy, wmo_fog, wmo_rain, wmo_snow, wmo_thunder};
use vstd::string::StringSliceAdditionalSpecFns;
use vstd::utf8::encode_utf8_valid_utf8;
use vstd::utf8::is_char_boundary;
use crate::text::{
    before_char, before_char_chars, chars_of, eq_chars, lowercase, remove_char, remove_char_chars,
    string_of, to_lowercase,
};

verus! {

/// The MET Norway provider.
#[derive(Clone, Copy, Debug)]
pub struct MetNorwayProvider;

impl MetNorwayProvider {
    /// The provider's display name.
    pub fn name(&self) -> (s: &'static str)
        ensures
            s@ == "MET Norway"@,
    {
        "MET Norway"
    }
}


/// MET Norway's condition names with their WMO codes, in the order they are matched.
pub open spec fn met_table() -> Seq<(Seq<char>, i32)> {
    seq![("clearsky"@, 0i32), ("fair"@, 1i32), ("partlycloudy"@, 2i32), ("cloudy"@, 3i32), ("fog"@, 45i32), ("lightrainshowers"@, 80i32), ("rainshowers"@, 81i32), ("heavyrainshowers"@, 82i32), ("lightrainshowersandthunder"@, 95i32), ("rainshowersandthunder"@, 95i32), ("heavyrainshowersandthunder"@, 95i32), ("lightsleetshowers"@, 85i32), ("sleetshowers"@, 86i32), ("heavysleetshowers"@, 86i32), ("lightsleetshowersandthunder"@, 95i32), ("sleetshowersandthunder"@, 95i32), ("heavysleetshowersandthunder"@, 95i32), ("lightsnowshowers"@, 85i32), ("snowshowers"@, 86i32), ("heavysnowshowers"@, 86i32), ("lightsnowshowersandthunder"@, 95i32), ("snowshowersandthunder"@, 95i32), ("heavysnowshowersandthunder"@, 95i32), ("lightrain"@, 61i32), ("rain"@, 63i32), ("heavyrain"@, 65i32), ("lightrainandthunder"@, 95i32), ("rainandthunder"@, 95i32), ("heavyrainandthunder"@, 95i32), ("lightsleet"@, 71i32), ("sleet"@, 73i32), ("heavysleet"@, 75i32), ("lightsleetandthunder"@, 95i32), ("sleetandthunder"@, 95i32), ("heavysleetandthunder"@, 95i32), ("lightsnow"@, 71i32), ("snow"@, 73i32), ("heavysnow"@, 75i32), ("lightsnowandthunder"@, 95i32), ("snowandthunder"@, 95i32), ("heavysnowandthunder"@, 95i32)]
}

/// The code that the first entry of `t` named `name` carries; 0 where none is.
pub open spec fn first_code(t: Seq<(Seq<char>, i32)>, name: Seq<char>) -> i32
    decreases t.len(),
{
    if t.len() == 0 {
        0
    } else if t[0].0 == name {
        t[0].1
    } else {
        first_code(t.drop_first(), name)
    }
}

/// The WMO code of a MET Norway symbol such as `partlycloudy_day`: 0 for an empty symbol,
/// otherwise the code of its condition name, the part before any `_`, lowercased.
pub open spec fn met_symbol_wmo(symbol: Seq<char>) -> i32 {
    if symbol.len() == 0 {
        0
    } else {
        first_code(met_table(), lowercase(before_char(symbol, '_')))
    }
}

/// The WMO code of a MET Norway symbol.
pub fn symbol_code_to_wmo(symbol: &str) -> (w: i32)
    ensures
        w == met_symbol_wmo(symbol@),
{
    let sv = chars_of(symbol);
    if sv.len() == 0 {
        return 0;
    }
    let head = before_char_chars(&sv, '_');
    let head_str = string_of(&head);
    let low = to_lowercase(head_str.as_str());
    let lc = chars_of(low.as_str());
    let table: Vec<(&str, i32)> = vec![
        ("clearsky", 0),
        ("fair", 1),
        ("partlycloudy", 2),
        ("cloudy", 3),
        ("fog", 45),
        ("lightrainshowers", 80),
        ("rainshowers", 81),
        ("heavyrainshowers", 82),
        ("lightrainshowersandthunder", 95),
        ("rainshowersandthunder", 95),
        ("heavyrainshowersandthunder", 95),
        ("lightsleetshowers", 85),
        ("sleetshowers", 86),
        ("heavysleetshowers", 86),
        ("lightsleetshowersandthunder", 95),
        ("sleetshowersandthunder", 95),
        ("heavysleetshowersandthunder", 95),
        ("lightsnowshowers", 85),
        ("snowshowers", 86),
        ("heavysnowshowers", 86),
        ("lightsnowshowersandthunder", 95),
        ("snowshowersandthunder", 95),
        ("heavysnowshowersandthunder", 95),
        ("lightrain", 61),
        ("rain", 63),
        ("heavyrain", 65),
        ("lightrainandthunder", 95),
        ("rainandthunder", 95),
        ("heavyrainandthunder", 95),
        ("lightsleet", 71),
        ("sleet", 73),
        ("heavysleet", 75),
        ("lightsleetandthunder", 95),
        ("sleetandthunder", 95),
        ("heavysleetandthunder", 95),
        ("lightsnow", 71),
        ("snow", 73),
        ("heavysnow", 75),
        ("lightsnowandthunder", 95),
        ("snowandthunder", 95),
        ("heavysnowandthunder", 95),
    ];
    let ghost t = table@.map_values(|p: (&str, i32)| (p.0@, p.1));
    assert(t =~= met_table());
    let mut i: usize = 0;
    assert(t.skip(0) =~= t);
    while i < table.len()
        invariant
            i <= table.len(),
            t == table@.map_values(|p: (&str, i32)| (p.0@, p.1)),
            t == met_table(),
            symbol@.len() > 0,
            lc@ == lowercase(before_char(symbol@, '_')),
            first_code(t, lc@) == first_code(t.skip(i as int), lc@),
        decreases table.len() - i,
    {
        let (name, code) = table[i];
        let nc = chars_of(name);
        assert(t.skip(i as int)[0] == (name@, code));
        if eq_chars(&nc, &lc) {
            return code;
        }
        assert(t.skip(i as int).drop_first() =~= t.skip(i + 1));
        i = i + 1;
    }
    0
}

/// `a` sorts strictly before `b` in the order of their bytes.
pub open spec fn bytes_lt(a: Seq<u8>, b: Seq<u8>) -> bool
    decreases a.len(),
{
    if b.len() == 0 {
        false
    } else if a.len() == 0 {
        true
    } else if a[0] != b[0] {
        a[0] < b[0]
    } else {
        bytes_lt(a.drop_first(), b.drop_first())
    }
}

/// Whether `a` sorts strictly before `b` in the order of their bytes.
fn slice_lt(a: &[u8], b: &[u8]) -> (r: bool)
    ensures
        r == bytes_lt(a@, b@),
{
    let mut i: usize = 0;
    assert(a@.skip(0) =~= a@ && b@.skip(0) =~= b@);
    while i < a.len() && i < b.len()
        invariant
            i <= a.len(),
            i <= b.len(),
            bytes_lt(a@, b@) == bytes_lt(a@.skip(i as int), b@.skip(i as int)),
        decreases a.len() - i,
    {
        let ghost sa = a@.skip(i as int);
        let ghost sb = b@.skip(i as int);
        assert(sa[0] == a@[i as int] && sb[0] == b@[i as int]);
        if a[i] != b[i] {
            return a[i] < b[i];
        }
        assert(sa.drop_first() =~= a@.skip(i + 1));
        assert(sb.drop_first() =~= b@.skip(i + 1));
        i = i + 1;
    }
    let ghost sa = a@.skip(i as int);
    let ghost sb = b@.skip(i as int);
    assert(sa.len() == 0 || sb.len() == 0);
    i >= a.len() && i < b.len()
}

/// MET Norway's entry stamped `time` falls in the range: the stamp has ten bytes or more,
/// and its first ten bytes, the date, lie in `[start, end]` in the order of `str`.
pub open spec fn met_keeps(time: Seq<u8>, start: Seq<u8>, end: Seq<u8>) -> bool {
    time.len() >= 10 && !bytes_lt(time.take(10), start) && !bytes_lt(end, time.take(10))
}

/// Whether MET Norway's entry stamped `time` falls in the range from `start` to `end`.
pub fn keeps_entry(time: &str, start: &str, end: &str) -> (b: bool)
    requires
        time.spec_bytes().len() < 10 || is_char_boundary(time.spec_bytes(), 10),
    ensures
        b == met_keeps(time.spec_bytes(), start.spec_bytes(), end.spec_bytes()),
{
    let tb = time.as_bytes();
    if tb.len() < 10 {
        return false;
    }
    let mut date: Vec<u8> = Vec::new();
    let mut i: usize = 0;
    while i < 10
        invariant
            i <= 10,
            tb@ == time.spec_bytes(),
            tb@.len() >= 10,
            date@ == tb@.take(i as int),
        decreases 10 - i,
    {
        date.push(tb[i]);
        i = i + 1;
        assert(date@ =~= tb@.take(i as int));
    }
    !slice_lt(date.as_slice(), start.as_bytes()) && !slice_lt(end.as_bytes(), date.as_slice())
}

/// The stamp of a MET Norway entry as the points carry it: without `Z`.
pub fn entry_time(time: &str) -> (r: String)
    ensures
        r@ == remove_char(time@, 'Z'),
{
    let v = chars_of(time);
    let c = remove_char_chars(&v, 'Z');
    string_of(&c)
}

/// The code of the first entry named `name` is the code of entry `k` when entry `k` is the
/// first so named.
proof fn lemma_first_code_at(t: Seq<(Seq<char>, i32)>, name: Seq<char>, k: int)
    requires
        0 <= k < t.len(),
        t[k].0 == name,
        forall|j: int| 0 <= j < k ==> (#[trigger] t[j]).0 != name,
    ensures
        first_code(t, name) == t[k].1,
    decreases k,
{
    if k > 0 {
        assert(t[0].0 != name);
        assert forall|j: int| 0 <= j < k - 1 implies (#[trigger] t.drop_first()[j]).0 != name by {
            assert(t.drop_first()[j] == t[j + 1]);
        }
        lemma_first_code_at(t.drop_first(), name, k - 1);
    }
}

/// MET Norway's condition names land in the matching WMO groups: `clearsky` in clear sky,
/// `fair`, `partlycloudy` and `cloudy` in cloud, `fog` in fog, every rain name without
/// thunder in rain, every sleet and snow name without thunder in snow, and every name with
/// thunder in thunderstorms.
pub proof fn law_met_condition_groups(name: Seq<char>)
    ensures
        (name == "clearsky"@) ==> wmo_clear(first_code(met_table(), name)),
        (name == "fair"@ || name == "partlycloudy"@ || name == "cloudy"@) ==> wmo_cloudy(first_code(met_table(), name)),
        (name == "fog"@) ==> wmo_fog(first_code(met_table(), name)),
        (name == "lightrainshowers"@ || name == "rainshowers"@ || name == "heavyrainshowers"@ || name == "lightrain"@ || name == "rain"@ || name == "heavyrain"@) ==> wmo_rain(first_code(met_table(), name)),
        (name == "lightsleetshowers"@ || name == "sleetshowers"@ || name == "heavysleetshowers"@ || name == "lightsnowshowers"@ || name == "snowshowers"@ || name == "heavysnowshowers"@ || name == "lightsleet"@ || name == "sleet"@ || name == "heavysleet"@ || name == "lightsnow"@ || name == "snow"@ || name == "heavysnow"@) ==> wmo_snow(first_code(met_table(), name)),
        (name == "lightrainshowersandthunder"@ || name == "rainshowersandthunder"@ || name == "heavyrainshowersandthunder"@ || name == "lightsleetshowersandthunder"@ || name == "sleetshowersandthunder"@ || name == "heavysleetshowersandthunder"@ || name == "lightsnowshowersandthunder"@ || name == "snowshowersandthunder"@ || name == "heavysnowshowersandthunder"@ || name == "lightrainandthunder"@ || name == "rainandthunder"@ || name == "heavyrainandthunder"@ || name == "lightsleetandthunder"@ || name == "sleetandthunder"@ || name == "heavysleetandthunder"@ || name == "lightsnowandthunder"@ || name == "snowandthunder"@ || name == "heavysnowandthunder"@) ==> wmo_thunder(first_code(met_table(), name)),
{
    reveal_strlit("clearsky");
    reveal_strlit("fair");
    reveal_strlit("partlycloudy");
    reveal_strlit("cloudy");
    reveal_strlit("fog");
    reveal_strlit("lightrainshowers");
    reveal_strlit("rainshowers");
    reveal_strlit("heavyrainshowers");
    reveal_strlit("lightrainshowersandthunder");
    reveal_strlit("rainshowersandthunder");
    reveal_strlit("heavyrainshowersandthunder");
    reveal_strlit("lightsleetshowers");
    reveal_strlit("sleetshowers");
    reveal_strlit("heavysleetshowers");
    reveal_strlit("lightsleetshowersandthunder");
    reveal_strlit("sleetshowersandthunder");
    reveal_strlit("heavysleetshowersandthunder");
    reveal_strlit("lightsnowshowers");
    reveal_strlit("snowshowers");
    reveal_strlit("heavysnowshowers");
    reveal_strlit("lightsnowshowersandthunder");
    reveal_strlit("snowshowersandthunder");
    reveal_strlit("heavysnowshowersandthunder");
    reveal_strlit("lightrain");
    reveal_strlit("rain");
    reveal_strlit("heavyrain");
    reveal_strlit("lightrainandthunder");
    reveal_strlit("rainandthunder");
    reveal_strlit("heavyrainandthunder");
    reveal_strlit("lightsleet");
    reveal_strlit("sleet");
    reveal_strlit("heavysleet");
    reveal_strlit("lightsleetandthunder");
    reveal_strlit("sleetandthunder");
    reveal_strlit("heavysleetandthunder");
    reveal_strlit("lightsnow");
    reveal_strlit("snow");
    reveal_strlit("heavysnow");
    reveal_strlit("lightsnowandthunder");
    reveal_strlit("snowandthunder");
    reveal_strlit("heavysnowandthunder");
    assert(met_table()[0].0 == "clearsky"@);
    assert(met_table()[1].0 == "fair"@);
    assert(met_table()[2].0 == "partlycloudy"@);
    assert(met_table()[3].0 == "cloudy"@);
    assert(met_table()[4].0 == "fog"@);
    assert(met_table()[5].0 == "lightrainshowers"@);
    assert(met_table()[6].0 == "rainshowers"@);
    assert(met_table()[7].0 == "heavyrainshowers"@);
    assert(met_table()[8].0 == "lightrainshowersandthunder"@);
    assert(met_table()[9].0 == "rainshowersandthunder"@);
    assert(met_table()[10].0 == "heavyrainshowersandthunder"@);
    assert(met_table()[11].0 == "lightsleetshowers"@);
    assert(met_table()[12].0 == "sleetshowers"@);
    assert(met_table()[13].0 == "heavysleetshowers"@);
    assert(met_table()[14].0 == "lightsleetshowersandthunder"@);
    assert(met_table()[15].0 == "sleetshowersandthunder"@);
    assert(met_table()[16].0 == "heavysleetshowersandthunder"@);
    assert(met_table()[17].0 == "lightsnowshowers"@);
    assert(met_table()[18].0 == "snowshowers"@);
    assert(met_table()[19].0 == "heavysnowshowers"@);
    assert(met_table()[20].0 == "lightsnowshowersandthunder"@);
    assert(met_table()[21].0 == "snowshowersandthunder"@);
    assert(met_table()[22].0 == "heavysnowshowersandthunder"@);
    assert(met_table()[23].0 == "lightrain"@);
    assert(met_table()[24].0 == "rain"@);
    assert(met_table()[25].0 == "heavyrain"@);
    assert(met_table()[26].0 == "lightrainandthunder"@);
    assert(met_table()[27].0 == "rainandthunder"@);
    assert(met_table()[28].0 == "heavyrainandthunder"@);
    assert(met_table()[29].0 == "lightsleet"@);
    assert(met_table()[30].0 == "sleet"@);
    assert(met_table()[31].0 == "heavysleet"@);
    assert(met_table()[32].0 == "lightsleetandthunder"@);
    assert(met_table()[33].0 == "sleetandthunder"@);
    assert(met_table()[34].0 == "heavysleetandthunder"@);
    assert(met_table()[35].0 == "lightsnow"@);
    assert(met_table()[36].0 == "snow"@);
    assert(met_table()[37].0 == "heavysnow"@);
    assert(met_table()[38].0 == "lightsnowandthunder"@);
    assert(met_table()[39].0 == "snowandthunder"@);
    assert(met_table()[40].0 == "heavysnowandthunder"@);
    assert forall|a: int, b: int| 0 <= a < b < met_table().len() implies (#[trigger] met_table()[a]).0
        != (#[trigger] met_table()[b]).0 by {
        if met_table()[a].0 == met_table()[b].0 {
            assert(met_table()[a].0.len() == met_table()[b].0.len());
            assert(met_table()[a].0[0] == met_table()[b].0[0]);
            assert(met_table()[a].0[5] == met_table()[b].0[5]);
        }
    }
    assert forall|k: int| 0 <= k < met_table().len() implies first_code(met_table(), #[trigger] met_table()[k].0)
        == met_table()[k].1 by {
        lemma_first_code_at(met_table(), met_table()[k].0, k);
    }
}

} // verus!
