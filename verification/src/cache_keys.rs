//! Where the caches and the log live, and the key under which a weather lookup is cached.
use vstd::prelude::*;
use vstd::string::StringExecFns;
use crate::shared::domain::config::{path_push, push_path};
use crate::text::{chars_of, string_of, trim, trim_chars};

verus! {

/// The key of a cached weather lookup: the coordinates as `{:.4}` writes them (`lat`, `lon`)
/// and the trimmed first and last dates, separated by colons.
pub open spec fn weather_key(lat: Seq<char>, lon: Seq<char>, start: Seq<char>, end: Seq<char>) -> Seq<char> {
    lat + ":"@ + lon + ":"@ + trim(start) + ":"@ + trim(end)
}

/// The key of a cached weather lookup.
pub fn make_cache_key(lat: &str, lon: &str, start_date: &str, end_date: &str) -> (r: String)
    ensures
        r@ == weather_key(lat@, lon@, start_date@, end_date@),
{
    let mut r = lat.to_owned();
    r.append(":");
    r.append(lon);
    r.append(":");
    let s = string_of(&trim_chars(&chars_of(start_date)));
    r.append(s.as_str());
    r.append(":");
    let e = string_of(&trim_chars(&chars_of(end_date)));
    r.append(e.as_str());
    proof {
        reveal_strlit(":");
    }
    r
}

/// Whether `std::path::Path::new(p).extension()` finds an extension in the path `p`.
pub uninterp spec fn has_extension(p: Seq<char>) -> bool;

/// Calls `Path::extension` on the path `p`. The contract names the outcome (`has_extension`);
/// the rules of std's path parsing are not stated.
#[verifier::external_body]
pub(crate) fn path_has_extension(p: &str) -> (b: bool)
    ensures
        b == has_extension(p@),
{
    std::path::Path::new(p).extension().is_some()
}

/// What `std::path::Path::new(p).parent()` gives for the path `p`, as text.
pub uninterp spec fn parent_path(p: Seq<char>) -> Option<Seq<char>>;

/// Calls `Path::parent` on the path `p` and returns the parent as text (lossily where it is
/// not UTF-8, which cannot happen for a path made from a `str`). The contract names the result
/// (`parent_path`); the rules of std's path parsing are not stated.
#[verifier::external_body]
pub(crate) fn path_parent(p: &str) -> (r: Option<String>)
    ensures
        match parent_path(p@) {
            Some(q) => r matches Some(s) && s@ == q,
            None => r is None,
        },
{
    std::path::Path::new(p).parent().map(|q| q.to_string_lossy().into_owned())
}

/// The base directory of the default paths: the home directory, or `.` without one.
pub open spec fn home_base(home: Option<Seq<char>>) -> Seq<char> {
    match home {
        Some(h) => h,
        None => "."@,
    }
}

/// The view of an optional string.
pub open spec fn opt_str(o: Option<String>) -> Option<Seq<char>> {
    match o {
        Some(s) => Some(s@),
        None => None,
    }
}

/// The weather cache file. With `WEATHEROZ_CACHE_PATH` set (`custom`), a path with an
/// extension names a file beside which the cache goes, and any other path names the cache's
/// directory; otherwise the cache lives under `.cache/weather_oz` in the home directory.
pub open spec fn weather_cache_file(custom: Option<Seq<char>>, home: Option<Seq<char>>) -> Seq<char> {
    match custom {
        Some(c) => if has_extension(c) && parent_path(c) is Some {
            path_push(parent_path(c)->0, "weather_cache.json"@)
        } else {
            path_push(c, "weather_cache.json"@)
        },
        None => path_push(
            path_push(path_push(home_base(home), ".cache"@), "weather_oz"@),
            "weather_cache.json"@,
        ),
    }
}

/// The path of the weather cache file, from `WEATHEROZ_CACHE_PATH` and `HOME`.
pub fn weather_cache_path(custom: Option<String>, home: Option<String>) -> (r: String)
    ensures
        r@ == weather_cache_file(opt_str(custom), opt_str(home)),
{
    proof {
        reveal_strlit("weather_cache.json");
        reveal_strlit(".cache");
        reveal_strlit("weather_oz");
        reveal_strlit(".");
    }
    match custom {
        Some(c) => {
            if path_has_extension(c.as_str()) {
                match path_parent(c.as_str()) {
                    Some(p) => {
                        return push_path(p.as_str(), "weather_cache.json");
                    },
                    None => {},
                }
            }
            push_path(c.as_str(), "weather_cache.json")
        },
        None => {
            let base = match home {
                Some(h) => h,
                None => ".".to_owned(),
            };
            let a = push_path(base.as_str(), ".cache");
            let b = push_path(a.as_str(), "weather_oz");
            push_path(b.as_str(), "weather_cache.json")
        },
    }
}

/// The place cache file: `WEATHER_OZ_CACHE_PATH` (`custom`) where set, else
/// `.cache/weatheroz/geo_cache.json` in the home directory.
pub open spec fn place_cache_file(custom: Option<Seq<char>>, home: Option<Seq<char>>) -> Seq<char> {
    match custom {
        Some(c) => c,
        None => path_push(
            path_push(path_push(home_base(home), ".cache"@), "weatheroz"@),
            "geo_cache.json"@,
        ),
    }
}

/// The path of the place cache file, from `WEATHER_OZ_CACHE_PATH` and `HOME`.
pub fn place_cache_path(custom: Option<String>, home: Option<String>) -> (r: String)
    ensures
        r@ == place_cache_file(opt_str(custom), opt_str(home)),
{
    proof {
        reveal_strlit("geo_cache.json");
        reveal_strlit(".cache");
        reveal_strlit("weatheroz");
        reveal_strlit(".");
    }
    match custom {
        Some(c) => c,
        None => {
            let base = match home {
                Some(h) => h,
                None => ".".to_owned(),
            };
            let a = push_path(base.as_str(), ".cache");
            let b = push_path(a.as_str(), "weatheroz");
            push_path(b.as_str(), "geo_cache.json")
        },
    }
}

/// A file `name` in the `.cache/weather_oz` directory under the home directory (or under `.`).
pub open spec fn app_cache_file(home: Option<Seq<char>>, name: Seq<char>) -> Seq<char> {
    path_push(path_push(path_push(home_base(home), ".cache"@), "weather_oz"@), name)
}

/// The directory `.cache/weather_oz` under the home directory (or under `.`).
pub open spec fn app_cache_dir(home: Option<Seq<char>>) -> Seq<char> {
    path_push(path_push(home_base(home), ".cache"@), "weather_oz"@)
}

/// The path of the directory that holds the log and the HTML preview.
pub fn app_cache_dir_path(home: Option<String>) -> (r: String)
    ensures
        r@ == app_cache_dir(opt_str(home)),
{
    proof {
        reveal_strlit(".cache");
        reveal_strlit("weather_oz");
        reveal_strlit(".");
    }
    let base = match home {
        Some(h) => h,
        None => ".".to_owned(),
    };
    let a = push_path(base.as_str(), ".cache");
    push_path(a.as_str(), "weather_oz")
}

/// The path of a file in the application's cache directory.
pub fn app_cache_file_path(home: Option<String>, name: &str) -> (r: String)
    ensures
        r@ == app_cache_file(opt_str(home), name@),
{
    let d = app_cache_dir_path(home);
    push_path(d.as_str(), name)
}

} // verus!
