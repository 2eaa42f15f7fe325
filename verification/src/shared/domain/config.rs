use vstd::prelude::*;
use vstd::string::StringExecFns;
use crate::providers::{required_key, WeatherProvider};
use crate::text::{
    chars_of, eq_chars, has_prefix, matches_at, parse_unsigned, parse_unsigned_chars,
    replace_char, replace_char_chars, slice_chars, string_of, views,
};

verus! {

/// The value stored under `k` in a list of key/value pairs: the first pair with that key wins.
pub open spec fn lookup(s: Seq<(Seq<char>, Seq<char>)>, k: Seq<char>) -> Option<Seq<char>>
    decreases s.len(),
{
    if s.len() == 0 {
        None
    } else if s[0].0 == k {
        Some(s[0].1)
    } else {
        lookup(s.drop_first(), k)
    }
}

proof fn lemma_lookup_update(
    s: Seq<(Seq<char>, Seq<char>)>,
    i: int,
    k: Seq<char>,
    v: Seq<char>,
    k2: Seq<char>,
)
    requires
        0 <= i < s.len(),
        s[i].0 == k,
        forall|j: int| 0 <= j < i ==> (#[trigger] s[j]).0 != k,
    ensures
        lookup(s.update(i, (k, v)), k2) == if k2 == k {
            Some(v)
        } else {
            lookup(s, k2)
        },
    decreases i,
{
    if i == 0 {
        assert(s.update(i, (k, v)).drop_first() =~= s.drop_first());
    } else {
        assert(s.update(i, (k, v))[0] == s[0]);
        assert(s.update(i, (k, v)).drop_first() =~= s.drop_first().update(i - 1, (k, v)));
        assert forall|j: int| 0 <= j < i - 1 implies (#[trigger] s.drop_first()[j]).0 != k by {
            assert(s.drop_first()[j] == s[j + 1]);
        }
        lemma_lookup_update(s.drop_first(), i - 1, k, v, k2);
    }
}

proof fn lemma_lookup_push(s: Seq<(Seq<char>, Seq<char>)>, k: Seq<char>, v: Seq<char>, k2: Seq<char>)
    requires
        forall|j: int| 0 <= j < s.len() ==> (#[trigger] s[j]).0 != k,
    ensures
        lookup(s.push((k, v)), k2) == if k2 == k {
            Some(v)
        } else {
            lookup(s, k2)
        },
    decreases s.len(),
{
    if s.len() == 0 {
        assert(s.push((k, v)).drop_first() =~= s);
    } else {
        assert(s.push((k, v))[0] == s[0]);
        assert(s.push((k, v)).drop_first() =~= s.drop_first().push((k, v)));
        assert forall|j: int| 0 <= j < s.drop_first().len() implies (
        #[trigger] s.drop_first()[j]).0 != k by {
            assert(s.drop_first()[j] == s[j + 1]);
        }
        lemma_lookup_push(s.drop_first(), k, v, k2);
    }
}

/// The map that a list of key/value pairs stands for.
pub open spec fn pairs_map(s: Seq<(Seq<char>, Seq<char>)>) -> Map<Seq<char>, Seq<char>> {
    Map::new(|k: Seq<char>| lookup(s, k) is Some, |k: Seq<char>| lookup(s, k)->0)
}

proof fn lemma_pairs_map_insert(
    old_s: Seq<(Seq<char>, Seq<char>)>,
    new_s: Seq<(Seq<char>, Seq<char>)>,
    k: Seq<char>,
    v: Seq<char>,
)
    requires
        forall|k2: Seq<char>|
            #[trigger] lookup(new_s, k2) == if k2 == k {
                Some(v)
            } else {
                lookup(old_s, k2)
            },
    ensures
        pairs_map(new_s) == pairs_map(old_s).insert(k, v),
{
    assert(pairs_map(new_s) =~= pairs_map(old_s).insert(k, v)) by {
        assert forall|k2: Seq<char>| #[trigger] pairs_map(new_s).contains_key(k2)
            == pairs_map(old_s).insert(k, v).contains_key(k2) by {
            assert(lookup(new_s, k2) == if k2 == k { Some(v) } else { lookup(old_s, k2) });
        }
        assert forall|k2: Seq<char>| #[trigger] pairs_map(new_s).contains_key(k2) implies
            pairs_map(new_s)[k2] == pairs_map(old_s).insert(k, v)[k2] by {
            assert(lookup(new_s, k2) == if k2 == k { Some(v) } else { lookup(old_s, k2) });
        }
    }
}

/// The API keys of the configuration, by provider name.
#[derive(Clone, Debug)]
pub struct ApiKeys {
    entries: Vec<(String, String)>,
}

impl View for ApiKeys {
    type V = Map<Seq<char>, Seq<char>>;

    open spec fn view(&self) -> Map<Seq<char>, Seq<char>> {
        pairs_map(self.pairs())
    }
}

impl ApiKeys {
    /// The stored pairs, in the order in which their keys were first inserted.
    pub closed spec fn pairs(&self) -> Seq<(Seq<char>, Seq<char>)> {
        self.entries@.map_values(|p: (String, String)| (p.0@, p.1@))
    }

    /// No keys at all.
    pub fn new() -> (r: Self)
        ensures
            r@ == Map::<Seq<char>, Seq<char>>::empty(),
            r.pairs() == Seq::<(Seq<char>, Seq<char>)>::empty(),
    {
        let r = ApiKeys { entries: Vec::new() };
        assert(r.pairs() =~= Seq::<(Seq<char>, Seq<char>)>::empty());
        assert(r@ =~= Map::<Seq<char>, Seq<char>>::empty());
        r
    }

    /// Stores `value` under `key`, replacing what was stored there.
    pub fn insert(&mut self, key: String, value: String)
        ensures
            final(self)@ == old(self)@.insert(key@, value@),
    {
        let ghost s = self.pairs();
        let kv = chars_of(key.as_str());
        let mut i: usize = 0;
        while i < self.entries.len()
            invariant
                i <= self.entries.len(),
                s == self.pairs(),
                s == old(self).pairs(),
                kv@ == key@,
                forall|j: int| 0 <= j < i ==> (#[trigger] s[j]).0 != key@,
            decreases self.entries.len() - i,
        {
            let cur = chars_of(self.entries[i].0.as_str());
            assert(s[i as int].0 == self.entries@[i as int].0@);
            if eq_chars(&cur, &kv) {
                let ghost vv = value@;
                self.entries.set(i, (key, value));
                proof {
                    assert(self.pairs() =~= s.update(i as int, (kv@, vv)));
                    assert forall|k2: Seq<char>| true implies lookup(self.pairs(), k2) == (if k2
                        == kv@ {
                        Some(vv)
                    } else {
                        lookup(s, k2)
                    }) by {
                        lemma_lookup_update(s, i as int, kv@, vv, k2);
                    }
                    lemma_pairs_map_insert(s, self.pairs(), kv@, vv);
                }
                return;
            }
            i = i + 1;
        }
        let ghost kk = key@;
        let ghost vv = value@;
        self.entries.push((key, value));
        proof {
            assert(self.pairs() =~= s.push((kk, vv)));
            assert forall|k2: Seq<char>| true implies lookup(self.pairs(), k2) == (if k2 == kk {
                Some(vv)
            } else {
                lookup(s, k2)
            }) by {
                lemma_lookup_push(s, kk, vv, k2);
            }
            lemma_pairs_map_insert(s, self.pairs(), kk, vv);
        }
    }

    /// The key stored under `name`, if any.
    pub fn get(&self, name: &str) -> (r: Option<String>)
        ensures
            r matches Some(v) ==> self@.contains_key(name@) && self@[name@] == v@,
            r is None <==> !self@.contains_key(name@),
    {
        let ghost s = self.pairs();
        let nv = chars_of(name);
        let mut i: usize = 0;
        assert(s.skip(0) =~= s);
        while i < self.entries.len()
            invariant
                i <= self.entries.len(),
                s == self.pairs(),
                nv@ == name@,
                lookup(s, name@) == lookup(s.skip(i as int), name@),
            decreases self.entries.len() - i,
        {
            let cur = chars_of(self.entries[i].0.as_str());
            assert(s.skip(i as int)[0] == s[i as int]);
            assert(s[i as int].0 == self.entries@[i as int].0@);
            if eq_chars(&cur, &nv) {
                return Some(self.entries[i].1.clone());
            }
            assert(s.skip(i as int).drop_first() =~= s.skip(i + 1));
            i = i + 1;
        }
        None
    }

    /// Whether a key is stored under `name`.
    pub fn contains_key(&self, name: &str) -> (b: bool)
        ensures
            b == self@.contains_key(name@),
    {
        self.get(name).is_some()
    }

    /// The stored name/key pairs, each name once.
    pub fn to_pairs(&self) -> (r: Vec<(String, String)>)
        ensures
            r@.map_values(|p: (String, String)| (p.0@, p.1@)) == self.pairs(),
    {
        let mut r: Vec<(String, String)> = Vec::new();
        let mut i: usize = 0;
        while i < self.entries.len()
            invariant
                i <= self.entries.len(),
                r@.map_values(|p: (String, String)| (p.0@, p.1@)) == self.pairs().take(i as int),
            decreases self.entries.len() - i,
        {
            let a = self.entries[i].0.clone();
            let b = self.entries[i].1.clone();
            let ghost before = r@.map_values(|p: (String, String)| (p.0@, p.1@));
            r.push((a, b));
            assert(self.pairs()[i as int] == (a@, b@));
            assert(r@.map_values(|p: (String, String)| (p.0@, p.1@)) =~= before.push((a@, b@)));
            assert(r@.map_values(|p: (String, String)| (p.0@, p.1@)) =~= self.pairs().take(
                i + 1,
            ));
            i = i + 1;
        }
        assert(self.pairs().take(self.entries.len() as int) =~= self.pairs());
        r
    }
}


/// The views of a list of strings.
pub open spec fn view_strs(v: Seq<String>) -> Seq<Seq<char>> {
    v.map_values(|s: String| s@)
}

/// The application configuration, as stored in the configuration file.
#[derive(Clone, Debug)]
pub struct AppConfig {
    pub default_location: Option<String>,
    pub temperature_unit: String,
    pub api_keys: ApiKeys,
    pub race_providers: Option<Vec<String>>,
    pub fallback_providers: Option<Vec<String>>,
    pub cache_ttl_minutes: Option<u64>,
    pub forecast_days: Option<u32>,
    pub minute_updates: Option<bool>,
    pub enrich_data: Option<bool>,
}

/// The providers that race first when the configuration names none.
pub open spec fn default_race_names() -> Seq<Seq<char>> {
    seq!["Open-Meteo"@, "MET Norway"@, "wttr.in"@]
}

/// The providers that race when the first race fails, when the configuration names none.
pub open spec fn default_fallback_names() -> Seq<Seq<char>> {
    seq!["Bright Sky"@]
}

/// The names of the default primary race group.
pub fn default_race_list() -> (v: Vec<String>)
    ensures
        view_strs(v@) == default_race_names(),
{
    let v = vec!["Open-Meteo".to_owned(), "MET Norway".to_owned(), "wttr.in".to_owned()];
    proof {
        reveal_strlit("Open-Meteo");
        reveal_strlit("MET Norway");
        reveal_strlit("wttr.in");
    }
    assert(view_strs(v@) =~= default_race_names());
    v
}

/// The names of the default fallback race group.
pub fn default_fallback_list() -> (v: Vec<String>)
    ensures
        view_strs(v@) == default_fallback_names(),
{
    let v = vec!["Bright Sky".to_owned()];
    proof {
        reveal_strlit("Bright Sky");
    }
    assert(view_strs(v@) =~= default_fallback_names());
    v
}

impl Default for AppConfig {
    fn default() -> (r: Self)
        ensures
            r.default_location is None,
            r.temperature_unit@ == "celsius"@,
            r.api_keys@ == Map::<Seq<char>, Seq<char>>::empty(),
            r.race_providers matches Some(v) && view_strs(v@) == default_race_names(),
            r.fallback_providers matches Some(v) && view_strs(v@) == default_fallback_names(),
            r.cache_ttl_minutes == Some(15u64),
            r.forecast_days == Some(7u32),
            r.minute_updates == Some(false),
            r.enrich_data == Some(false),
    {
        AppConfig {
            default_location: None,
            temperature_unit: "celsius".to_owned(),
            api_keys: ApiKeys::new(),
            race_providers: Some(default_race_list()),
            fallback_providers: Some(default_fallback_list()),
            cache_ttl_minutes: Some(15),
            forecast_days: Some(7),
            minute_updates: Some(false),
            enrich_data: Some(false),
        }
    }
}

/// The environment variables that override the configuration, as read from the process
/// environment: each named one if it is set, and every variable in `vars`.
pub struct ConfigEnv {
    /// `WEATHER_DEFAULT_LOCATION`
    pub default_location: Option<String>,
    /// `WEATHER_TEMPERATURE_UNIT`
    pub temperature_unit: Option<String>,
    /// `WEATHER_CACHE_TTL_MINUTES`
    pub cache_ttl_minutes: Option<String>,
    /// `WEATHER_FORECAST_DAYS`
    pub forecast_days: Option<String>,
    /// `WEATHER_MINUTE_UPDATES`
    pub minute_updates: Option<String>,
    /// `WEATHER_ENRICH_DATA`
    pub enrich_data: Option<String>,
    /// Every variable of the environment, name and value, in the order the environment lists them.
    pub vars: Vec<(String, String)>,
}

/// A switch set in the environment: on when its value is `true` or `1`.
pub open spec fn env_flag(v: Seq<char>) -> bool {
    v == "true"@ || v == "1"@
}

/// `s` with the prefix `p` removed as many times as it leads: what `str::trim_start_matches`
/// gives for a non-empty string pattern.
pub open spec fn strip_leading(s: Seq<char>, p: Seq<char>) -> Seq<char>
    recommends
        p.len() > 0,
    decreases s.len(),
{
    if p.len() > 0 && has_prefix(s, p) {
        strip_leading(s.skip(p.len() as int), p)
    } else {
        s
    }
}

/// The prefix of the variables that carry API keys.
pub open spec fn key_var_prefix() -> Seq<char> {
    "WEATHER_KEY_"@
}

/// The character that stands for `c` in a key variable's name: an ASCII letter in upper case,
/// a digit as it is, anything else as `_`.
pub open spec fn var_char(c: char) -> char {
    if 'a' <= c && c <= 'z' {
        ((c as u32) - 32) as char
    } else if ('A' <= c && c <= 'Z') || ('0' <= c && c <= '9') {
        c
    } else {
        '_'
    }
}

/// How a provider's name is written in the name of its key variable: `Tomorrow.io` as
/// `TOMORROW_IO`, `Pirate Weather` as `PIRATE_WEATHER`.
pub open spec fn var_token(name: Seq<char>) -> Seq<char> {
    name.map_values(|c: char| var_char(c))
}

/// The names under which the providers look up their API keys.
pub open spec fn key_names() -> Seq<Seq<char>> {
    seq![
        "Meteostat"@,
        "OpenWeatherMap"@,
        "WeatherAPI"@,
        "Weatherbit"@,
        "Tomorrow.io"@,
        "Visual Crossing"@,
        "WeatherStack"@,
        "Yandex"@,
        "AccuWeather"@,
        "Pirate Weather"@,
    ]
}

/// The first of `names` whose variable form is `suffix`.
pub open spec fn matching_name(names: Seq<Seq<char>>, suffix: Seq<char>) -> Option<Seq<char>>
    decreases names.len(),
{
    if names.len() == 0 {
        None
    } else if var_token(names[0]) == suffix {
        Some(names[0])
    } else {
        matching_name(names.drop_first(), suffix)
    }
}

/// The provider name that a key variable's name stands for. With the prefix stripped, a
/// suffix that is a provider's name in variable form (`WEATHER_KEY_TOMORROW_IO`) stands for
/// that provider (`Tomorrow.io`); any other suffix stands for itself with every `_` turned
/// into `-`.
pub open spec fn key_var_provider(name: Seq<char>) -> Seq<char> {
    let suffix = strip_leading(name, key_var_prefix());
    match matching_name(key_names(), suffix) {
        Some(n) => n,
        None => replace_char(suffix, '_', '-'),
    }
}

/// The API keys after the key variables among `vars` are stored, in order, into `m`.
pub open spec fn keys_with_env(m: Map<Seq<char>, Seq<char>>, vars: Seq<(Seq<char>, Seq<char>)>) -> Map<
    Seq<char>,
    Seq<char>,
>
    decreases vars.len(),
{
    if vars.len() == 0 {
        m
    } else {
        let (k, v) = vars[0];
        let m2 = if has_prefix(k, key_var_prefix()) {
            m.insert(key_var_provider(k), v)
        } else {
            m
        };
        keys_with_env(m2, vars.drop_first())
    }
}

/// A numeric setting after an override: the parsed value where the variable is set and
/// parses, the old value otherwise.
pub open spec fn numeric_override<T>(old: Option<T>, var: Option<String>, max: nat, conv: spec_fn(nat) -> T) -> Option<T> {
    match var {
        Some(s) => match parse_unsigned(s@, max) {
            Some(n) => Some(conv(n)),
            None => old,
        },
        None => old,
    }
}

/// The first of `names` whose variable form is `tok` is the one at `i` when none before it
/// has that form.
proof fn lemma_first_match(names: Seq<Seq<char>>, tok: Seq<char>, i: int)
    requires
        0 <= i < names.len(),
        var_token(names[i]) == tok,
        forall|j: int| 0 <= j < i ==> var_token(#[trigger] names[j]) != tok,
    ensures
        matching_name(names, tok) == Some(names[i]),
    decreases i,
{
    if i > 0 {
        assert(var_token(names[0]) != tok);
        assert forall|j: int| 0 <= j < i - 1 implies var_token(#[trigger] names.drop_first()[j]) != tok by {
            assert(names.drop_first()[j] == names[j + 1]);
        }
        lemma_first_match(names.drop_first(), tok, i - 1);
    }
}

/// The variable forms of the key names.
proof fn lemma_key_tokens()
    ensures
        var_token(key_names()[0]) == "METEOSTAT"@,
        var_token(key_names()[1]) == "OPENWEATHERMAP"@,
        var_token(key_names()[2]) == "WEATHERAPI"@,
        var_token(key_names()[3]) == "WEATHERBIT"@,
        var_token(key_names()[4]) == "TOMORROW_IO"@,
        var_token(key_names()[5]) == "VISUAL_CROSSING"@,
        var_token(key_names()[6]) == "WEATHERSTACK"@,
        var_token(key_names()[7]) == "YANDEX"@,
        var_token(key_names()[8]) == "ACCUWEATHER"@,
        var_token(key_names()[9]) == "PIRATE_WEATHER"@,
{
    reveal_strlit("Meteostat");
    reveal_strlit("OpenWeatherMap");
    reveal_strlit("WeatherAPI");
    reveal_strlit("Weatherbit");
    reveal_strlit("Tomorrow.io");
    reveal_strlit("Visual Crossing");
    reveal_strlit("WeatherStack");
    reveal_strlit("Yandex");
    reveal_strlit("AccuWeather");
    reveal_strlit("Pirate Weather");
    reveal_strlit("METEOSTAT");
    reveal_strlit("OPENWEATHERMAP");
    reveal_strlit("WEATHERAPI");
    reveal_strlit("WEATHERBIT");
    reveal_strlit("TOMORROW_IO");
    reveal_strlit("VISUAL_CROSSING");
    reveal_strlit("WEATHERSTACK");
    reveal_strlit("YANDEX");
    reveal_strlit("ACCUWEATHER");
    reveal_strlit("PIRATE_WEATHER");
    assert(var_token(key_names()[0]) =~= "METEOSTAT"@);
    assert(var_token(key_names()[1]) =~= "OPENWEATHERMAP"@);
    assert(var_token(key_names()[2]) =~= "WEATHERAPI"@);
    assert(var_token(key_names()[3]) =~= "WEATHERBIT"@);
    assert(var_token(key_names()[4]) =~= "TOMORROW_IO"@);
    assert(var_token(key_names()[5]) =~= "VISUAL_CROSSING"@);
    assert(var_token(key_names()[6]) =~= "WEATHERSTACK"@);
    assert(var_token(key_names()[7]) =~= "YANDEX"@);
    assert(var_token(key_names()[8]) =~= "ACCUWEATHER"@);
    assert(var_token(key_names()[9]) =~= "PIRATE_WEATHER"@);
}

/// The variable forms of the key names are pairwise different, and none starts with the key
/// variables' prefix.
proof fn lemma_key_tokens_distinct()
    ensures
        forall|i: int, j: int|
            0 <= i < 10 && 0 <= j < 10 && i != j ==> var_token(#[trigger] key_names()[i])
                != var_token(#[trigger] key_names()[j]),
        forall|i: int| 0 <= i < 10 ==> !has_prefix(var_token(#[trigger] key_names()[i]), key_var_prefix()),
{
    lemma_key_tokens();
    reveal_strlit("METEOSTAT");
    reveal_strlit("OPENWEATHERMAP");
    reveal_strlit("WEATHERAPI");
    reveal_strlit("WEATHERBIT");
    reveal_strlit("TOMORROW_IO");
    reveal_strlit("VISUAL_CROSSING");
    reveal_strlit("WEATHERSTACK");
    reveal_strlit("YANDEX");
    reveal_strlit("ACCUWEATHER");
    reveal_strlit("PIRATE_WEATHER");
    reveal_strlit("WEATHER_KEY_");
    let t = Seq::new(10, |i: int| var_token(key_names()[i]));
    assert(t[2][7] != t[3][7]);
    assert(t[4][0] != t[8][0]);
    assert(t[1][0] != t[9][0]);
    assert forall|i: int, j: int|
        0 <= i < 10 && 0 <= j < 10 && i != j implies var_token(#[trigger] key_names()[i])
            != var_token(#[trigger] key_names()[j]) by {
        assert(t[i] == var_token(key_names()[i]));
        assert(t[j] == var_token(key_names()[j]));
        if t[i] == t[j] {
            assert(t[i].len() == t[j].len());
            assert(t[i][0] == t[j][0]);
            assert(t[i][7] == t[j][7]);
        }
    }
    assert forall|i: int| 0 <= i < 10 implies !has_prefix(var_token(#[trigger] key_names()[i]), key_var_prefix()) by {
        assert(t[i] == var_token(key_names()[i]));
        if has_prefix(t[i], key_var_prefix()) {
            assert(t[i].take(12)[0] == t[i][0]);
            assert(t[i].take(12)[7] == t[i][7]);
        }
    }
}

/// Setting a provider's key variable, named as its missing-key message says
/// (`WEATHER_KEY_` and the provider's name in variable form), stores the key under the very
/// name under which that provider looks it up.
pub proof fn law_key_variable_reaches_provider(p: WeatherProvider)
    ensures
        required_key(p) matches Some(k) ==> key_var_provider(key_var_prefix() + var_token(k)) == k,
{
    if let Some(k) = required_key(p) {
        let i: int = match p {
            WeatherProvider::Meteostat(_) => 0,
            WeatherProvider::OpenWeatherMap(_) => 1,
            WeatherProvider::WeatherApi(_) => 2,
            WeatherProvider::Weatherbit(_) => 3,
            WeatherProvider::TomorrowIo(_) => 4,
            WeatherProvider::VisualCrossing(_) => 5,
            WeatherProvider::WeatherStack(_) => 6,
            WeatherProvider::Yandex(_) => 7,
            WeatherProvider::AccuWeather(_) => 8,
            _ => 9,
        };
        assert(key_names()[i] == k);
        let tok = var_token(k);
        lemma_key_tokens_distinct();
        assert forall|j: int| 0 <= j < i implies var_token(#[trigger] key_names()[j]) != tok by {
            assert(var_token(key_names()[j]) != var_token(key_names()[i]));
        }
        lemma_first_match(key_names(), tok, i);
        let full = key_var_prefix() + tok;
        assert(!has_prefix(tok, key_var_prefix()));
        assert(full.take(key_var_prefix().len() as int) =~= key_var_prefix());
        assert(full.skip(key_var_prefix().len() as int) =~= tok);
        assert(strip_leading(tok, key_var_prefix()) == tok);
        assert(strip_leading(full, key_var_prefix()) == tok);
    }
}

/// The views of the name/value pairs of the environment.
pub open spec fn view_vars(v: Seq<(String, String)>) -> Seq<(Seq<char>, Seq<char>)> {
    v.map_values(|p: (String, String)| (p.0@, p.1@))
}

/// The provider name that the key variable `name` stands for.
fn key_var_provider_str(name: &str) -> (r: String)
    ensures
        r@ == key_var_provider(name@),
{
    let p = chars_of("WEATHER_KEY_");
    proof {
        reveal_strlit("WEATHER_KEY_");
    }
    let v = chars_of(name);
    assert(p@.len() == 12);
    let mut start: usize = 0;
    assert(v@.skip(0) =~= v@);
    while v.len() - start >= p.len() && matches_at(&v, &p, start)
        invariant
            start <= v.len(),
            p@ == key_var_prefix(),
            p.len() == 12,
            strip_leading(v@.skip(start as int), p@) == strip_leading(v@, p@),
        decreases v.len() - start,
    {
        proof {
            assert(v@.skip(start as int).take(12) =~= v@.subrange(start as int, start + 12));
            assert(has_prefix(v@.skip(start as int), p@));
            assert(v@.skip(start as int).skip(12) =~= v@.skip(start + 12));
        }
        start = start + p.len();
    }
    proof {
        if v.len() - start >= 12 {
            assert(v@.skip(start as int).take(12) =~= v@.subrange(start as int, start + 12));
        }
        assert(!has_prefix(v@.skip(start as int), p@));
    }
    let rest = slice_chars(&v, start, v.len());
    assert(rest@ =~= v@.skip(start as int));
    assert(rest@ == strip_leading(name@, key_var_prefix()));
    let names = key_name_list();
    let mut i: usize = 0;
    assert(views(names@).skip(0) =~= views(names@));
    while i < names.len()
        invariant
            i <= names.len(),
            views(names@) == key_names(),
            rest@ == strip_leading(name@, key_var_prefix()),
            matching_name(key_names(), rest@) == matching_name(views(names@).skip(i as int), rest@),
        decreases names.len() - i,
    {
        let nc = chars_of(names[i].as_str());
        let t = var_token_chars(&nc);
        proof {
            assert(views(names@).skip(i as int)[0] == names@[i as int]@);
            assert(views(names@).skip(i as int).drop_first() =~= views(names@).skip(i + 1));
        }
        if eq_chars(&t, &rest) {
            proof {
                assert(views(names@).skip(i as int).len() > 0);
                assert(matching_name(views(names@).skip(i as int), rest@) == Some(names@[i as int]@));
            }
            return string_of(&nc);
        }
        i = i + 1;
    }
    let replaced = replace_char_chars(&rest, '_', '-');
    string_of(&replaced)
}

/// The variable form of the characters `v`.
fn var_token_chars(v: &Vec<char>) -> (r: Vec<char>)
    ensures
        r@ == var_token(v@),
{
    let mut r: Vec<char> = Vec::new();
    let mut j: usize = 0;
    while j < v.len()
        invariant
            j <= v.len(),
            r@ == var_token(v@.take(j as int)),
        decreases v.len() - j,
    {
        let c = v[j];
        let d = if 'a' <= c && c <= 'z' {
            ((c as u8) - 32u8) as char
        } else if ('A' <= c && c <= 'Z') || ('0' <= c && c <= '9') {
            c
        } else {
            '_'
        };
        r.push(d);
        assert(v@.take(j + 1) =~= v@.take(j as int).push(c));
        assert(r@ =~= var_token(v@.take(j + 1)));
        j = j + 1;
    }
    assert(v@.take(v.len() as int) =~= v@);
    r
}

/// The names under which the providers look up their API keys.
fn key_name_list() -> (v: Vec<String>)
    ensures
        views(v@) == key_names(),
{
    let v = vec![
        "Meteostat".to_owned(),
        "OpenWeatherMap".to_owned(),
        "WeatherAPI".to_owned(),
        "Weatherbit".to_owned(),
        "Tomorrow.io".to_owned(),
        "Visual Crossing".to_owned(),
        "WeatherStack".to_owned(),
        "Yandex".to_owned(),
        "AccuWeather".to_owned(),
        "Pirate Weather".to_owned(),
    ];
    assert(views(v@) =~= key_names());
    v
}

impl AppConfig {
    /// Applies the overrides that the environment `env` sets: each named variable replaces
    /// its setting (a number only where it parses), and every `WEATHER_KEY_<NAME>` variable
    /// stores its value as the API key of the provider whose name `<NAME>` writes in variable
    /// form (`TOMORROW_IO` for `Tomorrow.io`), or, for any other `<NAME>`, under `<NAME>` with
    /// `_` read as `-`.
    pub fn apply_env(&mut self, env: &ConfigEnv)
        ensures
            final(self).default_location == (match env.default_location {
                Some(v) => Some(v),
                None => old(self).default_location,
            }),
            final(self).temperature_unit == (match env.temperature_unit {
                Some(v) => v,
                None => old(self).temperature_unit,
            }),
            final(self).cache_ttl_minutes == numeric_override(
                old(self).cache_ttl_minutes,
                env.cache_ttl_minutes,
                u64::MAX as nat,
                |n: nat| n as u64,
            ),
            final(self).forecast_days == numeric_override(
                old(self).forecast_days,
                env.forecast_days,
                u32::MAX as nat,
                |n: nat| n as u32,
            ),
            final(self).minute_updates == (match env.minute_updates {
                Some(v) => Some(env_flag(v@)),
                None => old(self).minute_updates,
            }),
            final(self).enrich_data == (match env.enrich_data {
                Some(v) => Some(env_flag(v@)),
                None => old(self).enrich_data,
            }),
            final(self).api_keys@ == keys_with_env(old(self).api_keys@, view_vars(env.vars@)),
            final(self).race_providers == old(self).race_providers,
            final(self).fallback_providers == old(self).fallback_providers,
    {
        match &env.default_location {
            Some(v) => {
                self.default_location = Some(v.clone());
            },
            None => {},
        }
        match &env.temperature_unit {
            Some(v) => {
                self.temperature_unit = v.clone();
            },
            None => {},
        }
        match &env.cache_ttl_minutes {
            Some(v) => {
                let c = chars_of(v.as_str());
                match parse_unsigned_chars(&c, u64::MAX) {
                    Some(n) => {
                        self.cache_ttl_minutes = Some(n);
                    },
                    None => {},
                }
            },
            None => {},
        }
        match &env.forecast_days {
            Some(v) => {
                let c = chars_of(v.as_str());
                match parse_unsigned_chars(&c, 4294967295u64) {
                    Some(n) => {
                        self.forecast_days = Some(n as u32);
                    },
                    None => {},
                }
            },
            None => {},
        }
        match &env.minute_updates {
            Some(v) => {
                self.minute_updates = Some(is_env_flag(v.as_str()));
            },
            None => {},
        }
        match &env.enrich_data {
            Some(v) => {
                self.enrich_data = Some(is_env_flag(v.as_str()));
            },
            None => {},
        }
        let ghost vars = view_vars(env.vars@);
        let ghost start = self.api_keys@;
        let ghost before = *self;
        let mut i: usize = 0;
        assert(vars.skip(0) =~= vars);
        while i < env.vars.len()
            invariant
                i <= env.vars.len(),
                vars == view_vars(env.vars@),
                self.default_location == before.default_location,
                self.temperature_unit == before.temperature_unit,
                self.cache_ttl_minutes == before.cache_ttl_minutes,
                self.forecast_days == before.forecast_days,
                self.minute_updates == before.minute_updates,
                self.enrich_data == before.enrich_data,
                self.race_providers == before.race_providers,
                self.fallback_providers == before.fallback_providers,
                keys_with_env(start, vars) == keys_with_env(self.api_keys@, vars.skip(i as int)),
            decreases env.vars.len() - i,
        {
            let name = &env.vars[i].0;
            let value = &env.vars[i].1;
            let nc = chars_of(name.as_str());
            let pc = chars_of("WEATHER_KEY_");
            proof {
                reveal_strlit("WEATHER_KEY_");
                assert(vars.skip(i as int)[0] == (name@, value@));
                assert(vars.skip(i as int).drop_first() =~= vars.skip(i + 1));
            }
            let is_key = pc.len() <= nc.len() && matches_at(&nc, &pc, 0);
            proof {
                assert(is_key == has_prefix(name@, key_var_prefix())) by {
                    if pc.len() <= nc.len() {
                        assert(nc@.take(pc@.len() as int) =~= nc@.subrange(0, pc@.len() as int));
                    }
                }
            }
            if is_key {
                let provider = key_var_provider_str(name.as_str());
                self.api_keys.insert(provider, value.clone());
            }
            i = i + 1;
        }
        assert(vars.skip(vars.len() as int) =~= Seq::<(Seq<char>, Seq<char>)>::empty());
    }
}

/// Whether a switch variable's value turns the switch on: `true` or `1`.
fn is_env_flag(v: &str) -> (b: bool)
    ensures
        b == env_flag(v@),
{
    let c = chars_of(v);
    let t = chars_of("true");
    let one = chars_of("1");
    proof {
        reveal_strlit("true");
        reveal_strlit("1");
    }
    eq_chars(&c, &t) || eq_chars(&c, &one)
}

/// Where the configuration file lives.
pub struct JsonConfigService {
    config_path: String,
}

/// `base` with the relative path `comp` appended, as `PathBuf::push` does: a `/` goes
/// between them unless `base` is empty or already ends with one.
pub open spec fn path_push(base: Seq<char>, comp: Seq<char>) -> Seq<char> {
    if base.len() == 0 || base.last() == '/' {
        base + comp
    } else {
        base + seq!['/'] + comp
    }
}

/// The configuration file's path: the custom path where one is set, else
/// `.config/weather_oz/config.json` under the home directory, or under `.` without one.
pub open spec fn config_file_path(custom: Option<Seq<char>>, home: Option<Seq<char>>) -> Seq<char> {
    match custom {
        Some(c) => c,
        None => {
            let base = match home {
                Some(h) => h,
                None => "."@,
            };
            path_push(path_push(path_push(base, ".config"@), "weather_oz"@), "config.json"@)
        },
    }
}

/// `base` with the relative path `comp` appended.
pub fn push_path(base: &str, comp: &str) -> (r: String)
    ensures
        r@ == path_push(base@, comp@),
{
    let b = chars_of(base);
    if b.len() == 0 || b[b.len() - 1] == '/' {
        let mut r = String::from_str(base);
        r.append(comp);
        r
    } else {
        let mut r = String::from_str(base);
        r.push('/');
        r.append(comp);
        r
    }
}

impl JsonConfigService {
    /// The service for the configuration file found from `WEATHER_OZ_CONFIG_PATH`
    /// (`custom_path`) and `HOME` (`home`), as the environment sets them.
    pub fn new(custom_path: Option<String>, home: Option<String>) -> (r: Self)
        ensures
            r.path()@ == config_file_path(
                match custom_path {
                    Some(c) => Some(c@),
                    None => None,
                },
                match home {
                    Some(h) => Some(h@),
                    None => None,
                },
            ),
    {
        match custom_path {
            Some(c) => JsonConfigService { config_path: c },
            None => {
                let base = match home {
                    Some(h) => h,
                    None => ".".to_owned(),
                };
                proof {
                    reveal_strlit(".");
                    reveal_strlit(".config");
                    reveal_strlit("weather_oz");
                    reveal_strlit("config.json");
                }
                let a = push_path(base.as_str(), ".config");
                let b = push_path(a.as_str(), "weather_oz");
                let c = push_path(b.as_str(), "config.json");
                JsonConfigService { config_path: c }
            },
        }
    }

    /// The path of the configuration file.
    pub closed spec fn path(&self) -> String {
        self.config_path
    }

    /// The path of the configuration file.
    pub fn config_path(&self) -> (r: &str)
        ensures
            r@ == self.path()@,
    {
        self.config_path.as_str()
    }
}


/// A key read back after it is stored is the one stored, and storing it leaves every other
/// provider's key as it was.
pub proof fn law_read_back_after_store(keys: Map<Seq<char>, Seq<char>>, name: Seq<char>, value: Seq<char>)
    ensures
        keys.insert(name, value).contains_key(name),
        keys.insert(name, value)[name] == value,
        forall|other: Seq<char>|
            other != name ==> (#[trigger] keys.insert(name, value).contains_key(other)
                == keys.contains_key(other) && (keys.contains_key(other) ==> keys.insert(
                name,
                value,
            )[other] == keys[other])),
{
}

} // verus!
