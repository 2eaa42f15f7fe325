# weatheroz

A weather command-line tool that races many weather providers, blends the answers that
arrive within a short consensus window, caches results, and renders reports in ten layouts.

The decisions of the tool live in a library verified with Verus (`src/`):

- `providers/race.rs`: which providers race in the primary and fallback groups, which are
  screened out (missing API key, MET Norway on past dates), the state machine of one group's
  race, its verdict, and the hand-over from the primary to the fallback group.
- `providers/blend.rs`: the blend order (a stable sort by response time), grouping points by
  timestamp, the majority vote on weather codes and day flags, and the blended name.
- `providers/*.rs`: each provider's request plan, code tables and timestamp handling.
- `orchestrator.rs`: the dates of a lookup, the cache lifetime and the cache/race/offline
  decisions.
- `geocoding.rs`: the spellings tried for a place query and the search over them.
- `output.rs`, `dashboard.rs`: the text of every report line, the error frame, the layouts.
- `query/`: the query pipeline's expressions (`--where`, `--sort`, `--aggregate`, `--fields`,
  hour windows).
- `shared/domain/config.rs`: the configuration, its defaults and environment overrides.
- `text.rs`, `dates.rs`, `cache_keys.rs`, `cli.rs`: strings, calendar dates, cache paths and
  argument checks.

Calls into `chrono`, `chrono-tz`, `deunicode` and `std::path` stand behind small trusted
wrappers whose contracts name their results.

`app/` holds the program around the library: argument parsing, HTTP requests, JSON, the
caches on disk, the terminal dashboard, and the arithmetic on measured (floating-point)
values.
