//! The decisions of a weather race: which providers race in which group, which sit out and
//! why, when a group's race stops, what it yields, and when the fallback group runs.
use vstd::prelude::*;
use crate::providers::{provider_name, required_key, WeatherProvider};
use crate::providers::blend::{is_permutation, order_by_elapsed, stably_ordered};
use crate::shared::domain::config::ApiKeys;
use crate::dates::{date_before, is_before, parse_ymd, ymd_parse, CalendarDate};
use crate::text::{chars_of, eq_chars, join, join_strs, lowercase, to_lowercase, views};

verus! {

/// Some name of `list` equals `name` once both are lowercased.
pub open spec fn listed(list: Seq<Seq<char>>, name: Seq<char>) -> bool {
    exists|i: int| 0 <= i < list.len() && lowercase(#[trigger] list[i]) == lowercase(name)
}

/// The providers listed in the primary race list, in the order given; all of them when the
/// list names none of them.
pub open spec fn primary_group(ps: Seq<WeatherProvider>, race: Seq<Seq<char>>) -> Seq<WeatherProvider> {
    let m = ps.filter(|p: WeatherProvider| listed(race, provider_name(p)));
    if m.len() == 0 {
        ps
    } else {
        m
    }
}

/// The providers listed in the fallback list but not in the primary race list.
pub open spec fn fallback_group(
    ps: Seq<WeatherProvider>,
    race: Seq<Seq<char>>,
    fallback: Seq<Seq<char>>,
) -> Seq<WeatherProvider> {
    ps.filter(|p: WeatherProvider| !listed(race, provider_name(p)) && listed(fallback, provider_name(p)))
}

/// Whether the lowercase form of `name` is among `lowered`.
fn listed_in(lowered: &Vec<String>, name: &str, Ghost(list): Ghost<Seq<Seq<char>>>) -> (b: bool)
    requires
        lowered.len() == list.len(),
        forall|i: int| 0 <= i < list.len() ==> (#[trigger] lowered@[i])@ == lowercase(list[i]),
    ensures
        b == listed(list, name@),
{
    let low = to_lowercase(name);
    let lc = chars_of(low.as_str());
    let mut i: usize = 0;
    while i < lowered.len()
        invariant
            i <= lowered.len(),
            lowered.len() == list.len(),
            forall|i: int| 0 <= i < list.len() ==> (#[trigger] lowered@[i])@ == lowercase(list[i]),
            lc@ == lowercase(name@),
            forall|j: int| 0 <= j < i ==> lowercase(#[trigger] list[j]) != lowercase(name@),
        decreases lowered.len() - i,
    {
        let c = chars_of(lowered[i].as_str());
        if eq_chars(&c, &lc) {
            assert(lowercase(list[i as int]) == lowercase(name@));
            return true;
        }
        i = i + 1;
    }
    false
}

/// The lowercase forms of `names`.
fn lower_all(names: &Vec<String>) -> (r: Vec<String>)
    ensures
        r.len() == names.len(),
        forall|i: int| 0 <= i < names.len() ==> (#[trigger] r@[i])@ == lowercase(names@[i]@),
{
    let mut r: Vec<String> = Vec::new();
    let mut i: usize = 0;
    while i < names.len()
        invariant
            i <= names.len(),
            r.len() == i,
            forall|j: int| 0 <= j < i ==> (#[trigger] r@[j])@ == lowercase(names@[j]@),
        decreases names.len() - i,
    {
        r.push(to_lowercase(names[i].as_str()));
        i = i + 1;
    }
    r
}

/// Splits the providers into the primary race group and the fallback group: a provider
/// whose name the race list holds (compared in lowercase) races first; otherwise one that the
/// fallback list holds waits as a fallback. When the race list matches no provider, every
/// provider races first.
pub fn split_groups(
    providers: &Vec<WeatherProvider>,
    race_list: &Vec<String>,
    fallback_list: &Vec<String>,
) -> (r: (Vec<WeatherProvider>, Vec<WeatherProvider>))
    ensures
        r.0@ == primary_group(providers@, views(race_list@)),
        r.1@ == fallback_group(providers@, views(race_list@), views(fallback_list@)),
{
    let ghost race = views(race_list@);
    let ghost fb = views(fallback_list@);
    let race_low = lower_all(race_list);
    let fb_low = lower_all(fallback_list);
    let mut main: Vec<WeatherProvider> = Vec::new();
    let mut rest: Vec<WeatherProvider> = Vec::new();
    let mut i: usize = 0;
    while i < providers.len()
        invariant
            i <= providers.len(),
            race == views(race_list@),
            fb == views(fallback_list@),
            race_low.len() == race.len(),
            forall|j: int| 0 <= j < race.len() ==> (#[trigger] race_low@[j])@ == lowercase(race[j]),
            fb_low.len() == fb.len(),
            forall|j: int| 0 <= j < fb.len() ==> (#[trigger] fb_low@[j])@ == lowercase(fb[j]),
            main@ == providers@.take(i as int).filter(
                |p: WeatherProvider| listed(race, provider_name(p)),
            ),
            rest@ == providers@.take(i as int).filter(
                |p: WeatherProvider| !listed(race, provider_name(p)) && listed(fb, provider_name(p)),
            ),
        decreases providers.len() - i,
    {
        let p = providers[i];
        let name = p.name();
        let in_race = listed_in(&race_low, name, Ghost(race));
        let in_fb = listed_in(&fb_low, name, Ghost(fb));
        proof {
            assert(providers@.take(i + 1).drop_last() =~= providers@.take(i as int));
            reveal_with_fuel(Seq::filter, 1);
        }
        if in_race {
            main.push(p);
        } else if in_fb {
            rest.push(p);
        }
        i = i + 1;
    }
    assert(providers@.take(providers.len() as int) =~= providers@);
    if main.len() == 0 {
        (providers.clone(), rest)
    } else {
        (main, rest)
    }
}

/// Why a provider sits out a race, as the dashboard reports it: MET Norway serves no
/// historical dates, and a provider whose API key is not configured cannot be asked.
pub open spec fn exclusion(p: WeatherProvider, historical: bool, keys: Map<Seq<char>, Seq<char>>) -> Option<Seq<char>> {
    if historical && provider_name(p) == "MET Norway"@ {
        Some("Excluded for historical query"@)
    } else {
        match required_key(p) {
            Some(k) => if keys.contains_key(k) {
                None
            } else {
                Some("Missing API key '"@ + k + "'"@)
            },
            None => None,
        }
    }
}

/// Whether and why `p` sits out a race of the given kind with the configured keys.
pub fn exclusion_of(p: &WeatherProvider, historical: bool, keys: &ApiKeys) -> (r: Option<String>)
    ensures
        r matches Some(m) ==> exclusion(*p, historical, keys@) == Some(m@),
        r is None <==> exclusion(*p, historical, keys@) is None,
{
    let name = p.name();
    let nc = chars_of(name);
    let met = chars_of("MET Norway");
    proof {
        reveal_strlit("MET Norway");
    }
    if historical && eq_chars(&nc, &met) {
        let m = "Excluded for historical query".to_owned();
        proof {
            reveal_strlit("Excluded for historical query");
        }
        return Some(m);
    }
    match p.requires_key() {
        Some(k) => {
            if keys.contains_key(k) {
                None
            } else {
                let mut m = "Missing API key '".to_owned();
                m.append(k);
                m.append("'");
                proof {
                    reveal_strlit("Missing API key '");
                    reveal_strlit("'");
                }
                Some(m)
            }
        },
        None => None,
    }
}

/// The views of the named reasons of the providers that sit out.
pub open spec fn view_pairs(v: Seq<(String, String)>) -> Seq<(Seq<char>, Seq<char>)> {
    v.map_values(|p: (String, String)| (p.0@, p.1@))
}

/// The providers of `group` that sit out, each with its name and reason, in group order.
pub open spec fn excluded_of(
    group: Seq<WeatherProvider>,
    historical: bool,
    keys: Map<Seq<char>, Seq<char>>,
) -> Seq<(Seq<char>, Seq<char>)>
    decreases group.len(),
{
    if group.len() == 0 {
        Seq::empty()
    } else {
        let p = group.last();
        let prev = excluded_of(group.drop_last(), historical, keys);
        match exclusion(p, historical, keys) {
            Some(m) => prev.push((provider_name(p), m)),
            None => prev,
        }
    }
}

/// Screens a race group: the providers that may race, in group order, and the name and
/// reason of each one that sits out.
pub fn screen_group(group: &Vec<WeatherProvider>, historical: bool, keys: &ApiKeys) -> (r: (
    Vec<WeatherProvider>,
    Vec<(String, String)>,
))
    ensures
        r.0@ == group@.filter(|p: WeatherProvider| exclusion(p, historical, keys@) is None),
        view_pairs(r.1@) == excluded_of(group@, historical, keys@),
{
    let mut ok: Vec<WeatherProvider> = Vec::new();
    let mut out: Vec<(String, String)> = Vec::new();
    let mut i: usize = 0;
    while i < group.len()
        invariant
            i <= group.len(),
            ok@ == group@.take(i as int).filter(
                |p: WeatherProvider| exclusion(p, historical, keys@) is None,
            ),
            view_pairs(out@) == excluded_of(group@.take(i as int), historical, keys@),
        decreases group.len() - i,
    {
        let p = group[i];
        proof {
            assert(group@.take(i + 1).drop_last() =~= group@.take(i as int));
            reveal_with_fuel(Seq::filter, 1);
        }
        match exclusion_of(&p, historical, keys) {
            Some(m) => {
                let ghost before = view_pairs(out@);
                out.push((p.name().to_owned(), m));
                assert(view_pairs(out@) =~= before.push((provider_name(p), m@)));
            },
            None => {
                ok.push(p);
            },
        }
        i = i + 1;
    }
    assert(group@.take(group.len() as int) =~= group@);
    (ok, out)
}

/// The error of a race group in which no provider may race.
pub open spec fn no_eligible_message() -> Seq<char> {
    "No eligible providers in this race group."@
}

/// The error of a race group in which no provider may race.
pub fn no_eligible_error() -> (r: String)
    ensures
        r@ == no_eligible_message(),
{
    proof {
        reveal_strlit("No eligible providers in this race group.");
    }
    "No eligible providers in this race group.".to_owned()
}

/// What the race hears from a group while it runs.
pub enum GroupEvent {
    /// The provider in `slot` of the eligible list answered after `elapsed` nanoseconds,
    /// with the error text in `error` when it failed.
    Completed { slot: usize, elapsed: u64, error: Option<String> },
    /// Every provider has answered.
    StreamEnded,
    /// The consensus window that the first success opened has closed.
    DeadlineExpired,
}

/// What the race does after an event.
#[derive(Clone, Copy, Debug, PartialEq, Eq, Structural)]
pub enum GroupAction {
    /// Wait for the next answer.
    Continue,
    /// The first success came in: open the consensus window, then keep waiting.
    StartDeadline,
    /// The group's race is over.
    Stop,
}

/// The race of one group: the names of its eligible providers, the successes (slot and
/// time) and failures (slot and error) in the order they came in, whether the consensus
/// window is open, and whether the race is over.
pub struct GroupRace {
    names: Vec<String>,
    successes: Vec<(usize, u64)>,
    failures: Vec<(usize, String)>,
    window_open: bool,
    over: bool,
}

/// The abstract state of a group's race.
pub struct GroupRaceView {
    pub names: Seq<Seq<char>>,
    pub successes: Seq<(int, u64)>,
    pub failures: Seq<(int, Seq<char>)>,
    pub window_open: bool,
    pub over: bool,
}

/// The abstract form of an event.
pub enum EventView {
    Completed { slot: int, elapsed: u64, error: Option<Seq<char>> },
    StreamEnded,
    DeadlineExpired,
}

/// The abstract form of `e`.
pub open spec fn event_view(e: GroupEvent) -> EventView {
    match e {
        GroupEvent::Completed { slot, elapsed, error } => EventView::Completed {
            slot: slot as int,
            elapsed,
            error: match error {
                Some(m) => Some(m@),
                None => None,
            },
        },
        GroupEvent::StreamEnded => EventView::StreamEnded,
        GroupEvent::DeadlineExpired => EventView::DeadlineExpired,
    }
}

/// One step of a group's race. A success is recorded; the first one ends the race at once
/// when it is the only provider racing, and otherwise opens the consensus window. A failure
/// is recorded. The race ends when every provider has answered or the window closes. After
/// the end, nothing changes.
pub open spec fn group_step(s: GroupRaceView, e: EventView) -> (GroupRaceView, GroupAction) {
    if s.over {
        (s, GroupAction::Stop)
    } else {
        match e {
            EventView::Completed { slot, elapsed, error } => match error {
                None => {
                    let first = s.successes.len() == 0;
                    let s2 = GroupRaceView { successes: s.successes.push((slot, elapsed)), ..s };
                    if first && s.names.len() == 1 {
                        (GroupRaceView { over: true, ..s2 }, GroupAction::Stop)
                    } else if first {
                        (GroupRaceView { window_open: true, ..s2 }, GroupAction::StartDeadline)
                    } else {
                        (s2, GroupAction::Continue)
                    }
                },
                Some(m) => (
                    GroupRaceView { failures: s.failures.push((slot, m)), ..s },
                    GroupAction::Continue,
                ),
            },
            EventView::StreamEnded => (GroupRaceView { over: true, ..s }, GroupAction::Stop),
            EventView::DeadlineExpired => if s.window_open {
                (GroupRaceView { over: true, ..s }, GroupAction::Stop)
            } else {
                (s, GroupAction::Continue)
            },
        }
    }
}

/// A group race's state is consistent: every recorded slot names an eligible provider.
pub open spec fn group_wf(s: GroupRaceView) -> bool {
    &&& forall|i: int| 0 <= i < s.successes.len() ==> 0 <= (#[trigger] s.successes[i]).0 < s.names.len()
    &&& forall|i: int| 0 <= i < s.failures.len() ==> 0 <= (#[trigger] s.failures[i]).0 < s.names.len()
}

/// An event that the race can hear: a completion names an eligible provider.
pub open spec fn event_fits(s: GroupRaceView, e: EventView) -> bool {
    e matches EventView::Completed { slot, .. } ==> 0 <= slot < s.names.len()
}

/// The line that reports a failed provider: its name, a colon and its error.
pub open spec fn failure_line(names: Seq<Seq<char>>, f: (int, Seq<char>)) -> Seq<char> {
    names[f.0] + ": "@ + f.1
}

/// The error of a group in which every provider that answered failed.
pub open spec fn all_failed_message(names: Seq<Seq<char>>, failures: Seq<(int, Seq<char>)>) -> Seq<char> {
    "All providers in group failed. Errors:\n"@ + join(
        failures.map_values(|f: (int, Seq<char>)| failure_line(names, f)),
        "\n"@,
    )
}

/// What a finished group race yields: the slots of the successful providers ordered by their
/// times (fastest first, arrival order among equal times), or the error that lists each
/// failure when none succeeded.
pub open spec fn group_verdict(s: GroupRaceView) -> Result<Seq<int>, Seq<char>> {
    if s.successes.len() > 0 {
        Ok(
            choose|p: Seq<int>|
                is_permutation(p, s.successes.len()) && stably_ordered(
                    p,
                    s.successes.map_values(|x: (int, u64)| x.1),
                ),
        )
    } else {
        Err(all_failed_message(s.names, s.failures))
    }
}

impl GroupRace {
    /// The abstract state.
    pub closed spec fn view(&self) -> GroupRaceView {
        GroupRaceView {
            names: views(self.names@),
            successes: self.successes@.map_values(|x: (usize, u64)| (x.0 as int, x.1)),
            failures: self.failures@.map_values(|x: (usize, String)| (x.0 as int, x.1@)),
            window_open: self.window_open,
            over: self.over,
        }
    }

    /// A race among the eligible providers named `names`, none of which has answered yet.
    pub fn new(names: Vec<String>) -> (r: Self)
        ensures
            r.view().names == views(names@),
            r.view().successes.len() == 0,
            r.view().failures.len() == 0,
            !r.view().window_open,
            !r.view().over,
            group_wf(r.view()),
    {
        GroupRace { names, successes: Vec::new(), failures: Vec::new(), window_open: false, over: false }
    }

    /// Whether the race is over.
    pub fn is_over(&self) -> (b: bool)
        ensures
            b == self.view().over,
    {
        self.over
    }

    /// Takes in one event and says what to do next.
    pub fn step(&mut self, e: GroupEvent) -> (a: GroupAction)
        requires
            group_wf(old(self).view()),
            event_fits(old(self).view(), event_view(e)),
        ensures
            (final(self).view(), a) == group_step(old(self).view(), event_view(e)),
            group_wf(final(self).view()),
    {
        let ghost ev = event_view(e);
        if self.over {
            return GroupAction::Stop;
        }
        match e {
            GroupEvent::Completed { slot, elapsed, error } => match error {
                None => {
                    let first = self.successes.len() == 0;
                    let ghost before = self.view().successes;
                    self.successes.push((slot, elapsed));
                    assert(self.view().successes =~= before.push((slot as int, elapsed)));
                    if first && self.names.len() == 1 {
                        self.over = true;
                        GroupAction::Stop
                    } else if first {
                        self.window_open = true;
                        GroupAction::StartDeadline
                    } else {
                        GroupAction::Continue
                    }
                },
                Some(m) => {
                    let ghost before = self.view().failures;
                    let ghost mv = m@;
                    self.failures.push((slot, m));
                    assert(self.view().failures =~= before.push((slot as int, mv)));
                    GroupAction::Continue
                },
            },
            GroupEvent::StreamEnded => {
                self.over = true;
                GroupAction::Stop
            },
            GroupEvent::DeadlineExpired => {
                if self.window_open {
                    self.over = true;
                    GroupAction::Stop
                } else {
                    GroupAction::Continue
                }
            },
        }
    }

    /// What the finished race yields: the slots of the successful providers in the order the
    /// blend uses (by their times, fastest first, arrival order among equal times), or the
    /// error that lists the failures.
    pub fn verdict(&self) -> (r: Result<Vec<usize>, String>)
        requires
            group_wf(self.view()),
        ensures
            r matches Ok(v) ==> self.view().successes.len() > 0 && v.len()
                == self.view().successes.len() && exists|p: Seq<int>|
                is_permutation(p, self.view().successes.len()) && stably_ordered(
                    p,
                    self.view().successes.map_values(|x: (int, u64)| x.1),
                ) && forall|k: int|
                    0 <= k < v.len() ==> #[trigger] v@[k] as int == self.view().successes[p[k]].0,
            r matches Err(m) ==> group_verdict(self.view()) is Err && group_verdict(self.view())->Err_0 == m@,
            r is Ok <==> self.view().successes.len() > 0,
    {
        if self.successes.len() > 0 {
            let mut keys: Vec<u64> = Vec::new();
            let mut i: usize = 0;
            while i < self.successes.len()
                invariant
                    i <= self.successes.len(),
                    keys.len() == i,
                    forall|j: int| 0 <= j < i ==> keys@[j] == (#[trigger] self.successes@[j]).1,
                decreases self.successes.len() - i,
            {
                keys.push(self.successes[i].1);
                i = i + 1;
            }
            assert(keys@ =~= self.view().successes.map_values(|x: (int, u64)| x.1));
            let order = order_by_elapsed(&keys);
            let ghost p = order@.map_values(|x: usize| x as int);
            let mut slots: Vec<usize> = Vec::new();
            let mut k: usize = 0;
            while k < order.len()
                invariant
                    k <= order.len(),
                    order.len() == self.successes.len(),
                    p == order@.map_values(|x: usize| x as int),
                    is_permutation(p, self.successes.len() as nat),
                    slots.len() == k,
                    forall|j: int| 0 <= j < k ==> #[trigger] slots@[j] as int == self.view().successes[p[j]].0,
                decreases order.len() - k,
            {
                assert(0 <= p[k as int] < self.successes.len());
                slots.push(self.successes[order[k]].0);
                k = k + 1;
            }
            Ok(slots)
        } else {
            let mut lines: Vec<String> = Vec::new();
            let mut i: usize = 0;
            let ghost fl = self.view().failures.map_values(
                |f: (int, Seq<char>)| failure_line(self.view().names, f),
            );
            while i < self.failures.len()
                invariant
                    i <= self.failures.len(),
                    group_wf(self.view()),
                    fl == self.view().failures.map_values(
                        |f: (int, Seq<char>)| failure_line(self.view().names, f),
                    ),
                    views(lines@) == fl.take(i as int),
                decreases self.failures.len() - i,
            {
                let slot = self.failures[i].0;
                assert(0 <= self.view().failures[i as int].0 < self.view().names.len());
                let mut line = self.names[slot].clone();
                line.append(": ");
                line.append(self.failures[i].1.as_str());
                proof {
                    reveal_strlit(": ");
                }
                let ghost before = views(lines@);
                assert(self.view().names[slot as int] == self.names@[slot as int]@);
                assert(self.view().failures[i as int] == (slot as int, self.failures@[i as int].1@));
                assert(fl[i as int] == line@);
                lines.push(line);
                assert(views(lines@) =~= before.push(line@));
                assert(views(lines@) =~= fl.take(i + 1));
                i = i + 1;
            }
            assert(fl.take(self.failures.len() as int) =~= fl);
            let body = join_strs(&lines, "\n");
            let mut m = "All providers in group failed. Errors:\n".to_owned();
            m.append(body.as_str());
            proof {
                reveal_strlit("All providers in group failed. Errors:\n");
                reveal_strlit("\n");
            }
            Err(m)
        }
    }
}


/// Whether the race asks for past weather: its start date lies before `today`. A start date
/// that does not read as `YYYY-MM-DD` is an error carrying chrono's message.
pub fn race_is_historical(start_date: &str, today: CalendarDate) -> (r: Result<bool, String>)
    ensures
        match ymd_parse(start_date@) {
            Ok(s) => r matches Ok(b) && b == date_before(s, today),
            Err(e) => r matches Err(m) && m@ == e,
        },
{
    match parse_ymd(start_date) {
        Ok(s) => Ok(is_before(s, today)),
        Err(e) => Err(e),
    }
}

/// What follows the primary group's race.
#[derive(Debug)]
pub enum TierStep {
    /// The primary group produced the result.
    Finished,
    /// The primary group failed: the fallback group races next.
    RunFallback,
    /// The primary group failed and there is nothing to fall back on: the race fails.
    Failed(String),
}

/// The error of a race whose primary group failed with `e` and which has no fallback group.
pub open spec fn no_fallback_message(e: Seq<char>) -> Seq<char> {
    "Primary race failed, and no fallback providers are configured. Error: "@ + e
}

/// The error of a race whose primary group failed with `e` and fallback group with `f`.
pub open spec fn both_failed_message(e: Seq<char>, f: Seq<char>) -> Seq<char> {
    "Both primary and fallback races failed.\nPrimary errors: "@ + e + "\nFallback errors: "@ + f
}

/// Decides what follows the primary group's race, from its error (`None` when it produced a
/// result) and the size of the fallback group.
pub fn after_primary(primary_error: Option<String>, fallback_size: usize) -> (r: TierStep)
    ensures
        primary_error is None <==> r is Finished,
        primary_error is Some && fallback_size > 0 <==> r is RunFallback,
        r matches TierStep::Failed(m) ==> fallback_size == 0 && (primary_error matches Some(e)
            && m@ == no_fallback_message(e@)),
{
    match primary_error {
        None => TierStep::Finished,
        Some(e) => {
            if fallback_size == 0 {
                let mut m = "Primary race failed, and no fallback providers are configured. Error: ".to_owned();
                m.append(e.as_str());
                proof {
                    reveal_strlit("Primary race failed, and no fallback providers are configured. Error: ");
                }
                TierStep::Failed(m)
            } else {
                TierStep::RunFallback
            }
        },
    }
}

/// The race's error after the fallback group's race: none when the fallback produced a
/// result, and otherwise one that reports both groups' errors.
pub fn after_fallback(primary_error: &str, fallback_error: Option<String>) -> (r: Option<String>)
    ensures
        fallback_error is None <==> r is None,
        fallback_error matches Some(f) ==> r matches Some(m) && m@ == both_failed_message(
            primary_error@,
            f@,
        ),
{
    match fallback_error {
        None => None,
        Some(f) => {
            let mut m = "Both primary and fallback races failed.\nPrimary errors: ".to_owned();
            m.append(primary_error);
            m.append("\nFallback errors: ");
            m.append(f.as_str());
            proof {
                reveal_strlit("Both primary and fallback races failed.\nPrimary errors: ");
                reveal_strlit("\nFallback errors: ");
            }
            Some(m)
        },
    }
}

/// Once a group's race is over, no event changes it and every event is answered with a stop.
pub proof fn law_finished_race_stays_finished(s: GroupRaceView, e: EventView)
    requires
        s.over,
    ensures
        group_step(s, e) == (s, GroupAction::Stop),
{
}

/// A group with a single eligible provider ends at that provider's first success, without
/// waiting for the consensus window.
pub proof fn law_sole_provider_wins_at_once(s: GroupRaceView, slot: int, elapsed: u64)
    requires
        !s.over,
        s.names.len() == 1,
        s.successes.len() == 0,
    ensures
        group_step(s, EventView::Completed { slot, elapsed, error: None }).0.over,
        group_step(s, EventView::Completed { slot, elapsed, error: None }).1 == GroupAction::Stop,
{
}

/// In a group of several providers, the first success opens the consensus window and the
/// race goes on; the window's close then ends it.
pub proof fn law_first_success_opens_window(s: GroupRaceView, slot: int, elapsed: u64)
    requires
        !s.over,
        s.names.len() > 1,
        s.successes.len() == 0,
    ensures
        ({
            let (s2, a) = group_step(s, EventView::Completed { slot, elapsed, error: None });
            &&& a == GroupAction::StartDeadline
            &&& s2.window_open
            &&& !s2.over
            &&& group_step(s2, EventView::DeadlineExpired) == (
                GroupRaceView { over: true, ..s2 },
                GroupAction::Stop,
            )
        }),
{
}

/// A provider's failure never ends a running race: it is recorded and the race waits for the
/// others, so a later success still wins.
pub proof fn law_failure_keeps_racing(s: GroupRaceView, slot: int, elapsed: u64, m: Seq<char>)
    requires
        !s.over,
    ensures
        ({
            let (s2, a) = group_step(s, EventView::Completed { slot, elapsed, error: Some(m) });
            &&& a == GroupAction::Continue
            &&& !s2.over
            &&& s2.failures == s.failures.push((slot, m))
            &&& s2.successes == s.successes
            &&& s2.window_open == s.window_open
        }),
{
}

/// No answer is ever lost: a step keeps every recorded success and failure, in order, and
/// records at most the one answer it hears.
pub proof fn law_answers_are_kept(s: GroupRaceView, e: EventView)
    ensures
        ({
            let s2 = group_step(s, e).0;
            &&& s2.names == s.names
            &&& s.successes.is_prefix_of(s2.successes)
            &&& s.failures.is_prefix_of(s2.failures)
            &&& s2.successes.len() + s2.failures.len() <= s.successes.len() + s.failures.len() + 1
        }),
{
    let s2 = group_step(s, e).0;
    assert(s.successes.is_prefix_of(s2.successes));
    assert(s.failures.is_prefix_of(s2.failures));
}

/// A group's race stays consistent under every event that it can hear.
pub proof fn law_step_keeps_consistency(s: GroupRaceView, e: EventView)
    requires
        group_wf(s),
        event_fits(s, e),
    ensures
        group_wf(group_step(s, e).0),
{
    let s2 = group_step(s, e).0;
    assert forall|i: int| 0 <= i < s2.successes.len() implies 0 <= (
    #[trigger] s2.successes[i]).0 < s2.names.len() by {
        if i < s.successes.len() {
            assert(s.successes.is_prefix_of(s2.successes)) by {
                law_answers_are_kept(s, e);
            }
        }
    }
    assert forall|i: int| 0 <= i < s2.failures.len() implies 0 <= (#[trigger] s2.failures[i]).0
        < s2.names.len() by {
        if i < s.failures.len() {
            assert(s.failures.is_prefix_of(s2.failures)) by {
                law_answers_are_kept(s, e);
            }
        }
    }
}

/// A group yields a result exactly when some provider in it succeeded; otherwise it fails
/// with the list of errors.
pub proof fn law_result_iff_success(s: GroupRaceView)
    ensures
        group_verdict(s) is Ok <==> s.successes.len() > 0,
        s.successes.len() == 0 ==> group_verdict(s) is Err && group_verdict(s)->Err_0
            == all_failed_message(s.names, s.failures),
{
}

/// The fallback group holds no provider of the primary race list, only providers of the
/// fallback list, in the order given; and the primary group is never empty while there are
/// providers.
pub proof fn law_groups_split(ps: Seq<WeatherProvider>, race: Seq<Seq<char>>, fallback: Seq<Seq<char>>)
    ensures
        forall|i: int|
            0 <= i < fallback_group(ps, race, fallback).len() ==> !listed(
                race,
                provider_name(#[trigger] fallback_group(ps, race, fallback)[i]),
            ) && listed(fallback, provider_name(fallback_group(ps, race, fallback)[i])),
        ps.len() > 0 ==> primary_group(ps, race).len() > 0,
{
    let f = |p: WeatherProvider| !listed(race, provider_name(p)) && listed(fallback, provider_name(p));
    assert forall|i: int| 0 <= i < ps.filter(f).len() implies f(#[trigger] ps.filter(f)[i]) by {
        ps.lemma_filter_contains_rev(f, ps.filter(f)[i]);
    }
}

/// A provider sits out a race exactly when the race asks for past dates and the provider is
/// MET Norway, or when it needs an API key that is not configured.
pub proof fn law_exclusion_reasons(p: WeatherProvider, historical: bool, keys: Map<Seq<char>, Seq<char>>)
    ensures
        exclusion(p, historical, keys) is Some <==> (historical && provider_name(p) == "MET Norway"@)
            || (required_key(p) matches Some(k) && !keys.contains_key(k)),
{
}

} // verus!
