//! Blending the responses of several providers into one consensus forecast: the order in
//! which they count, the consensus name, the grouping of their points by time and the votes
//! that settle a point's weather code and day flag.
use vstd::prelude::*;
use vstd::string::StringExecFns;
use crate::text::{
    chars_of, eq_chars, join, join_strs, lemma_lex_total, lemma_lex_transitive, lex_lt,
    lemma_select_indices, select_indices, str_lt, string_of, views,
};

verus! {

/// `p` lists every index below `n` exactly once.
pub open spec fn is_permutation(p: Seq<int>, n: nat) -> bool {
    &&& p.len() == n
    &&& forall|a: int| 0 <= a < p.len() ==> 0 <= #[trigger] p[a] < n
    &&& forall|a: int, b: int| 0 <= a < b < p.len() ==> p[a] != p[b]
    &&& forall|i: int| 0 <= i < n ==> #[trigger] p.contains(i)
}

/// `p` orders the indices by `keys`, smallest first, and keeps the given order of indices
/// whose keys are equal: the order of a stable sort.
pub open spec fn stably_ordered(p: Seq<int>, keys: Seq<u64>) -> bool {
    forall|a: int, b: int|
        0 <= a < b < p.len() ==> keys[#[trigger] p[a]] < keys[#[trigger] p[b]] || (keys[p[a]]
            == keys[p[b]] && p[a] < p[b])
}

/// Some entry of `p` is `j`.
pub open spec fn has_index(p: Seq<usize>, j: int) -> bool {
    exists|a: int| 0 <= a < p.len() && p[a] == j
}

/// The order in which the responses count: by the time each took, fastest first, and in the
/// order they arrived where two took equally long.
pub fn order_by_elapsed(keys: &Vec<u64>) -> (p: Vec<usize>)
    ensures
        is_permutation(p@.map_values(|i: usize| i as int), keys.len() as nat),
        stably_ordered(p@.map_values(|i: usize| i as int), keys@),
{
    let mut p: Vec<usize> = Vec::new();
    let mut i: usize = 0;
    while i < keys.len()
        invariant
            i <= keys.len(),
            p.len() == i,
            forall|a: int| 0 <= a < p.len() ==> (#[trigger] p@[a]) < i,
            forall|a: int, b: int| 0 <= a < b < p.len() ==> p@[a] != p@[b],
            forall|j: int| 0 <= j < i ==> #[trigger] has_index(p@, j),
            forall|a: int, b: int|
                0 <= a < b < p.len() ==> keys@[#[trigger] p@[a] as int] < keys@[#[trigger] p@[b] as int]
                    || (keys@[p@[a] as int] == keys@[p@[b] as int] && p@[a] < p@[b]),
        decreases keys.len() - i,
    {
        let k = keys[i];
        let mut pos: usize = 0;
        while pos < p.len() && keys[p[pos]] <= k
            invariant
                pos <= p.len(),
                p.len() == i,
                i < keys.len(),
                k == keys@[i as int],
                forall|a: int| 0 <= a < p.len() ==> (#[trigger] p@[a]) < i,
                forall|a: int| 0 <= a < pos ==> keys@[#[trigger] p@[a] as int] <= k,
            decreases p.len() - pos,
        {
            pos = pos + 1;
        }
        let ghost old_p = p@;
        proof {
            if pos < p.len() {
                assert(keys@[p@[pos as int] as int] > k);
                assert forall|a: int| pos <= a < p.len() implies keys@[#[trigger] p@[a] as int] > k by {
                    if a > pos {
                        assert(keys@[p@[pos as int] as int] < keys@[p@[a] as int] || keys@[p@[pos as int] as int] == keys@[p@[a] as int]);
                    }
                }
            }
        }
        p.insert(pos, i);
        proof {
            assert(p@ == old_p.insert(pos as int, i));
            assert forall|a: int| 0 <= a < p.len() implies (#[trigger] p@[a]) < i + 1 by {
                if a < pos {
                    assert(p@[a] == old_p[a]);
                } else if a > pos {
                    assert(p@[a] == old_p[a - 1]);
                }
            }
            assert forall|a: int, b: int| 0 <= a < b < p.len() implies p@[a] != p@[b] by {
                if a < pos && b < pos {
                    assert(p@[a] == old_p[a] && p@[b] == old_p[b]);
                } else if a < pos && b == pos {
                    assert(p@[a] == old_p[a]);
                } else if a < pos && b > pos {
                    assert(p@[a] == old_p[a] && p@[b] == old_p[b - 1]);
                } else if a == pos {
                    assert(p@[b] == old_p[b - 1]);
                } else {
                    assert(p@[a] == old_p[a - 1] && p@[b] == old_p[b - 1]);
                }
            }
            assert forall|j: int| 0 <= j < i + 1 implies #[trigger] has_index(p@, j) by {
                if j == i {
                    assert(p@[pos as int] == j);
                } else {
                    assert(has_index(old_p, j));
                    let a0 = choose|a: int| 0 <= a < old_p.len() && old_p[a] == j;
                    if a0 < pos {
                        assert(p@[a0] == j);
                    } else {
                        assert(p@[a0 + 1] == j);
                    }
                }
            }
            assert forall|a: int, b: int| 0 <= a < b < p.len() implies keys@[#[trigger] p@[a] as int]
                < keys@[#[trigger] p@[b] as int] || (keys@[p@[a] as int] == keys@[p@[b] as int]
                && p@[a] < p@[b]) by {
                if a < pos && b < pos {
                    assert(p@[a] == old_p[a] && p@[b] == old_p[b]);
                } else if a < pos && b == pos {
                    assert(p@[a] == old_p[a]);
                    assert(keys@[old_p[a] as int] <= k);
                } else if a < pos && b > pos {
                    assert(p@[a] == old_p[a] && p@[b] == old_p[b - 1]);
                } else if a == pos {
                    assert(p@[b] == old_p[b - 1]);
                    assert(keys@[old_p[b - 1] as int] > k);
                } else {
                    assert(p@[a] == old_p[a - 1] && p@[b] == old_p[b - 1]);
                }
            }
        }
        i = i + 1;
    }
    proof {
        let q = p@.map_values(|x: usize| x as int);
        assert forall|j: int| 0 <= j < keys.len() implies #[trigger] q.contains(j) by {
            assert(has_index(p@, j));
            let a = choose|a: int| 0 <= a < p.len() && p@[a] == j;
            assert(q[a] == j);
        }
    }
    p
}


/// The keys `keys` are strictly increasing in the order of `str`.
pub open spec fn strictly_increasing(keys: Seq<Seq<char>>) -> bool {
    forall|a: int, b: int| 0 <= a < b < keys.len() ==> lex_lt(#[trigger] keys[a], #[trigger] keys[b])
}

/// The distinct times of `times`, in increasing order: each key is some time, and each time
/// is some key.
pub open spec fn sorted_distinct(keys: Seq<Seq<char>>, times: Seq<Seq<char>>) -> bool {
    &&& strictly_increasing(keys)
    &&& forall|g: int| 0 <= g < keys.len() ==> #[trigger] times.contains(keys[g])
    &&& forall|j: int| 0 <= j < times.len() ==> #[trigger] keys.contains(times[j])
}

/// The indices of the points stamped with `key`, in increasing order.
pub open spec fn points_at(times: Seq<Seq<char>>, key: Seq<char>) -> Seq<int> {
    select_indices(times.len(), stamped(times, key))
}

/// Whether the point at an index is stamped with `key`.
pub open spec fn stamped(times: Seq<Seq<char>>, key: Seq<char>) -> spec_fn(int) -> bool {
    |j: int| times[j] == key
}

/// The characters of each key.
pub open spec fn key_views(keys: Seq<Vec<char>>) -> Seq<Seq<char>> {
    keys.map_values(|k: Vec<char>| k@)
}

/// Groups points by their time stamps, as a map ordered by key does: the distinct stamps in
/// increasing order, and for each the indices of its points in their given order.
pub fn group_by_time(times: &Vec<String>) -> (r: (Vec<String>, Vec<Vec<usize>>))
    ensures
        sorted_distinct(views(r.0@), views(times@)),
        r.1.len() == r.0.len(),
        forall|g: int| 0 <= g < r.1.len() ==> (#[trigger] r.1@[g])@.map_values(|i: usize| i as int)
            == points_at(views(times@), r.0@[g]@),
{
    let ghost tv = views(times@);
    let mut keys: Vec<Vec<char>> = Vec::new();
    let mut i: usize = 0;
    while i < times.len()
        invariant
            i <= times.len(),
            tv == views(times@),
            strictly_increasing(key_views(keys@)),
            forall|g: int| 0 <= g < keys.len() ==> #[trigger] tv.take(i as int).contains(keys@[g]@),
            forall|j: int| 0 <= j < i ==> #[trigger] key_views(keys@).contains(tv[j]),
        decreases times.len() - i,
    {
        let t = chars_of(times[i].as_str());
        let ghost kv = key_views(keys@);
        assert(t@ == tv[i as int]);
        let mut pos: usize = 0;
        while pos < keys.len() && str_lt(&keys[pos], &t)
            invariant
                pos <= keys.len(),
                kv == key_views(keys@),
                forall|g: int| 0 <= g < pos ==> lex_lt(#[trigger] kv[g], t@),
            decreases keys.len() - pos,
        {
            pos = pos + 1;
        }
        let found = pos < keys.len() && eq_chars(&keys[pos], &t);
        if !found {
            proof {
                if pos < keys.len() {
                    assert(!lex_lt(kv[pos as int], t@));
                    lemma_lex_total(kv[pos as int], t@);
                    assert(lex_lt(t@, kv[pos as int]));
                }
            }
            keys.insert(pos, t);
            proof {
                let nk = key_views(keys@);
                assert(nk =~= kv.insert(pos as int, t@));
                assert forall|a: int, b: int| 0 <= a < b < nk.len() implies lex_lt(
                    #[trigger] nk[a],
                    #[trigger] nk[b],
                ) by {
                    if a < pos && b < pos {
                    } else if a < pos && b == pos {
                    } else if a < pos && b > pos {
                        assert(lex_lt(kv[a], t@));
                        assert(lex_lt(t@, kv[pos as int]));
                        lemma_lex_transitive(kv[a], t@, kv[pos as int]);
                        if b - 1 > pos {
                            lemma_lex_transitive(kv[a], kv[pos as int], kv[b - 1]);
                        }
                    } else if a == pos {
                        assert(lex_lt(t@, kv[pos as int]));
                        if b - 1 > pos {
                            lemma_lex_transitive(t@, kv[pos as int], kv[b - 1]);
                        }
                    } else {
                        assert(nk[a] == kv[a - 1] && nk[b] == kv[b - 1]);
                    }
                }
            }
        }
        proof {
            let nk = key_views(keys@);
            let tk = tv.take(i + 1);
            assert(tk[i as int] == t@);
            assert forall|g: int| 0 <= g < keys.len() implies #[trigger] tk.contains(keys@[g]@) by {
                if found || g != pos {
                    let og = if !found && g > pos { g - 1 } else { g };
                    assert(keys@[g]@ == kv[og]);
                    assert(tv.take(i as int).contains(kv[og]));
                    let w = choose|w: int| 0 <= w < i && tv.take(i as int)[w] == kv[og];
                    assert(tk[w] == kv[og]);
                } else {
                    assert(keys@[g]@ == t@);
                }
            }
            assert forall|j: int| 0 <= j < i + 1 implies #[trigger] nk.contains(tv[j]) by {
                if j == i {
                    if found {
                        assert(nk[pos as int] == t@);
                    } else {
                        assert(nk[pos as int] == t@);
                    }
                } else {
                    assert(kv.contains(tv[j]));
                    let w = choose|w: int| 0 <= w < kv.len() && kv[w] == tv[j];
                    if found || w < pos {
                        assert(nk[w] == tv[j]);
                    } else {
                        assert(nk[w + 1] == tv[j]);
                    }
                }
            }
        }
        i = i + 1;
    }
    assert(tv.take(times.len() as int) =~= tv);
    let mut out_keys: Vec<String> = Vec::new();
    let mut members: Vec<Vec<usize>> = Vec::new();
    let mut g: usize = 0;
    while g < keys.len()
        invariant
            g <= keys.len(),
            tv == views(times@),
            out_keys.len() == g,
            members.len() == g,
            forall|a: int| 0 <= a < g ==> (#[trigger] out_keys@[a])@ == keys@[a]@,
            forall|a: int| 0 <= a < g ==> (#[trigger] members@[a])@.map_values(|x: usize| x as int)
                == points_at(tv, keys@[a]@),
        decreases keys.len() - g,
    {
        let key = &keys[g];
        let mut m: Vec<usize> = Vec::new();
        let mut j: usize = 0;
        while j < times.len()
            invariant
                j <= times.len(),
                tv == views(times@),
                m@.map_values(|x: usize| x as int) == select_indices(j as nat, stamped(tv, key@)),
            decreases times.len() - j,
        {
            let tj = chars_of(times[j].as_str());
            let ghost before = m@.map_values(|x: usize| x as int);
            if eq_chars(&tj, key) {
                m.push(j);
                assert(m@.map_values(|x: usize| x as int) =~= before.push(j as int));
            } else {
                assert(m@.map_values(|x: usize| x as int) =~= before);
            }
            j = j + 1;
        }
        out_keys.push(string_of(key));
        members.push(m);
        g = g + 1;
    }
    proof {
        let ok = views(out_keys@);
        assert(ok =~= key_views(keys@));
    }
    (out_keys, members)
}

/// The name of the blended forecast: `Consensus Blended (` followed by the providers' names,
/// separated by commas, and `)`.
pub open spec fn consensus_name(names: Seq<Seq<char>>) -> Seq<char> {
    "Consensus Blended ("@ + join(names, ", "@) + ")"@
}

/// The name that a blend of the responses of `names` (in blend order) carries: `Empty` for
/// none, the provider's own name for one, the consensus name for several.
pub open spec fn blended_name(names: Seq<Seq<char>>) -> Seq<char> {
    if names.len() == 0 {
        "Empty"@
    } else if names.len() == 1 {
        names[0]
    } else {
        consensus_name(names)
    }
}

/// The name of the blend of the responses of `names`, in blend order.
pub fn blend_name(names: &Vec<String>) -> (r: String)
    ensures
        r@ == blended_name(views(names@)),
{
    if names.len() == 0 {
        proof {
            reveal_strlit("Empty");
        }
        return "Empty".to_owned();
    }
    if names.len() == 1 {
        return names[0].clone();
    }
    let body = join_strs(names, ", ");
    let mut r = "Consensus Blended (".to_owned();
    r.append(body.as_str());
    r.append(")");
    proof {
        reveal_strlit("Consensus Blended (");
        reveal_strlit(", ");
        reveal_strlit(")");
    }
    r
}

/// How many times `c` occurs in `codes`.
pub open spec fn occurrences(codes: Seq<i32>, c: i32) -> nat {
    codes.filter(|x: i32| x == c).len()
}

/// The weather code that wins the vote among `codes`: one that occurs most often. Where
/// several tie, this picks the one that reached the top count first; the contract leaves the
/// choice among them open.
pub fn majority_code(codes: &Vec<i32>) -> (r: i32)
    ensures
        codes.len() == 0 ==> r == 0,
        codes.len() > 0 ==> codes@.contains(r) && forall|c: i32| #[trigger] occurrences(codes@, c)
            <= occurrences(codes@, r),
{
    if codes.len() == 0 {
        return 0;
    }
    let mut best: i32 = codes[0];
    let mut best_count: usize = count_code(codes, best);
    let mut i: usize = 0;
    while i < codes.len()
        invariant
            i <= codes.len(),
            codes.len() > 0,
            codes@.contains(best),
            best_count == occurrences(codes@, best),
            forall|a: int| 0 <= a < i ==> #[trigger] occurrences(codes@, codes@[a]) <= best_count,
        decreases codes.len() - i,
    {
        let c = codes[i];
        let n = count_code(codes, c);
        if i == 0 || n > best_count {
            best = c;
            best_count = n;
        }
        i = i + 1;
    }
    proof {
        assert forall|c: i32| #[trigger] occurrences(codes@, c) <= occurrences(codes@, best) by {
            if codes@.contains(c) {
                let a = choose|a: int| 0 <= a < codes.len() && codes@[a] == c;
                assert(occurrences(codes@, codes@[a]) <= best_count);
            } else {
                assert(codes@.filter(|x: i32| x == c) =~= Seq::<i32>::empty()) by {
                    if codes@.filter(|x: i32| x == c).len() > 0 {
                        let y = codes@.filter(|x: i32| x == c)[0];
                        codes@.lemma_filter_contains_rev(|x: i32| x == c, y);
                    }
                }
            }
        }
    }
    best
}

/// How many times `c` occurs in `codes`.
fn count_code(codes: &Vec<i32>, c: i32) -> (n: usize)
    ensures
        n == occurrences(codes@, c),
{
    let mut n: usize = 0;
    let mut j: usize = 0;
    while j < codes.len()
        invariant
            j <= codes.len(),
            n == occurrences(codes@.take(j as int), c),
            n <= j,
        decreases codes.len() - j,
    {
        proof {
            assert(codes@.take(j + 1).drop_last() =~= codes@.take(j as int));
            reveal_with_fuel(Seq::filter, 1);
        }
        if codes[j] == c {
            n = n + 1;
        }
        j = j + 1;
    }
    assert(codes@.take(codes.len() as int) =~= codes@);
    n
}

/// The day flag of a blended point: unknown when no response knows it, and otherwise day when
/// at least half of the responses that know it say day.
pub open spec fn day_vote(flags: Seq<Option<bool>>) -> Option<bool> {
    let known = flags.filter(|f: Option<bool>| f is Some);
    if known.len() == 0 {
        None
    } else {
        Some(flags.filter(|f: Option<bool>| f == Some(true)).len() * 2 >= known.len())
    }
}

/// Settles the day flag of a blended point from the flags of its responses.
pub fn day_majority(flags: &Vec<Option<bool>>) -> (r: Option<bool>)
    ensures
        r == day_vote(flags@),
{
    let mut known: usize = 0;
    let mut days: usize = 0;
    let mut j: usize = 0;
    while j < flags.len()
        invariant
            j <= flags.len(),
            known == flags@.take(j as int).filter(|f: Option<bool>| f is Some).len(),
            days == flags@.take(j as int).filter(|f: Option<bool>| f == Some(true)).len(),
            days <= known <= j,
        decreases flags.len() - j,
    {
        proof {
            assert(flags@.take(j + 1).drop_last() =~= flags@.take(j as int));
            reveal_with_fuel(Seq::filter, 1);
        }
        match flags[j] {
            Some(d) => {
                known = known + 1;
                if d {
                    days = days + 1;
                }
            },
            None => {},
        }
        j = j + 1;
    }
    assert(flags@.take(flags.len() as int) =~= flags@);
    if known == 0 {
        None
    } else {
        Some(days >= known - days)
    }
}


/// Grouping by time places every point in exactly one group: the group of its own stamp.
pub proof fn law_each_point_in_one_group(keys: Seq<Seq<char>>, times: Seq<Seq<char>>, j: int)
    requires
        sorted_distinct(keys, times),
        0 <= j < times.len(),
    ensures
        exists|g: int| 0 <= g < keys.len() && keys[g] == times[j] && #[trigger] points_at(times, keys[g]).contains(j),
        forall|g: int|
            0 <= g < keys.len() && #[trigger] points_at(times, keys[g]).contains(j) ==> keys[g] == times[j],
{
    assert(keys.contains(times[j]));
    let g = choose|g: int| 0 <= g < keys.len() && keys[g] == times[j];
    lemma_select_indices(times.len(), stamped(times, keys[g]));
    assert(stamped(times, keys[g])(j));
    assert(points_at(times, keys[g]).contains(j));
    assert forall|h: int| 0 <= h < keys.len() && #[trigger] points_at(times, keys[h]).contains(j) implies keys[h] == times[j] by {
        lemma_select_indices(times.len(), stamped(times, keys[h]));
        let a = choose|a: int| 0 <= a < points_at(times, keys[h]).len() && points_at(times, keys[h])[a] == j;
        assert(points_at(times, keys[h])[a] == j);
    }
}

/// The blend of a single response keeps that response's own name; the blend of several is
/// named after all of them, in blend order.
pub proof fn law_blend_names(names: Seq<Seq<char>>)
    ensures
        names.len() == 1 ==> blended_name(names) == names[0],
        names.len() > 1 ==> blended_name(names) == "Consensus Blended ("@ + join(names, ", "@) + ")"@,
{
}


/// The fastest response leads the blend: in the order of a stable sort by time, no response
/// took less time than the first one.
pub proof fn law_fastest_leads(p: Seq<int>, keys: Seq<u64>)
    requires
        is_permutation(p, keys.len()),
        stably_ordered(p, keys),
        keys.len() > 0,
    ensures
        forall|i: int| 0 <= i < keys.len() ==> keys[p[0]] <= #[trigger] keys[i],
{
    assert forall|i: int| 0 <= i < keys.len() implies keys[p[0]] <= #[trigger] keys[i] by {
        assert(p.contains(i));
        let a = choose|a: int| 0 <= a < p.len() && p[a] == i;
        if a > 0 {
            assert(keys[p[0]] < keys[p[a]] || keys[p[0]] == keys[p[a]]);
        }
    }
}

/// The keys of `u` strictly increase.
pub open spec fn keys_increase<A>(u: Seq<A>, key: spec_fn(A) -> u64) -> bool {
    forall|a: int, b: int| 0 <= a < b < u.len() ==> key(#[trigger] u[a]) < key(#[trigger] u[b])
}

/// Every element of `u` occurs in `v`.
pub open spec fn all_occur_in<A>(u: Seq<A>, v: Seq<A>) -> bool {
    forall|i: int| 0 <= i < u.len() ==> #[trigger] v.contains(u[i])
}

/// Two sequences whose keys strictly increase and that hold the same elements agree on their
/// first `i + 1` entries.
proof fn lemma_increasing_prefix_eq<A>(u: Seq<A>, v: Seq<A>, key: spec_fn(A) -> u64, i: int)
    requires
        u.len() == v.len(),
        0 <= i < u.len(),
        keys_increase(u, key),
        keys_increase(v, key),
        all_occur_in(u, v),
        all_occur_in(v, u),
    ensures
        forall|a: int| 0 <= a <= i ==> #[trigger] u[a] == v[a],
    decreases i,
{
    if i > 0 {
        lemma_increasing_prefix_eq(u, v, key, i - 1);
    }
    assert(v.contains(u[i]));
    let j = choose|j: int| 0 <= j < v.len() && v[j] == u[i];
    assert(u.contains(v[i]));
    let k = choose|k: int| 0 <= k < u.len() && u[k] == v[i];
    if j < i {
        assert(u[j] == v[j]);
        assert(key(u[j]) < key(u[i]));
    }
    if k < i {
        assert(u[k] == v[k]);
        assert(key(v[k]) < key(v[i]));
    }
    if k > i {
        assert(key(u[i]) < key(u[k]));
        if j > i {
            assert(key(v[i]) < key(v[j]));
        }
    }
    assert(u[i] == v[i]);
}

/// The blend does not depend on the order in which the successful responses arrived, as long
/// as no two took equally long: ordering any arrival order `s2` of the responses `s1` by
/// elapsed time gives the same sequence of responses, hence the same names in the same order,
/// the same points grouped by time and the same codes to vote on.
pub proof fn law_blend_ignores_arrival_order<A>(
    s1: Seq<A>,
    s2: Seq<A>,
    q: Seq<int>,
    elapsed: spec_fn(A) -> u64,
    p1: Seq<int>,
    p2: Seq<int>,
)
    requires
        is_permutation(q, s1.len()),
        s2.len() == s1.len(),
        forall|i: int| 0 <= i < s2.len() ==> #[trigger] s2[i] == s1[q[i]],
        forall|a: int, b: int|
            0 <= a < s1.len() && 0 <= b < s1.len() && a != b ==> elapsed(#[trigger] s1[a]) != elapsed(
                #[trigger] s1[b],
            ),
        is_permutation(p1, s1.len()),
        stably_ordered(p1, s1.map_values(elapsed)),
        is_permutation(p2, s2.len()),
        stably_ordered(p2, s2.map_values(elapsed)),
    ensures
        p1.map_values(|i: int| s1[i]) == p2.map_values(|i: int| s2[i]),
{
    let n = s1.len() as int;
    let u = p1.map_values(|i: int| s1[i]);
    let v = p2.map_values(|i: int| s2[i]);
    assert forall|a: int, b: int| 0 <= a < b < u.len() implies elapsed(#[trigger] u[a]) < elapsed(
        #[trigger] u[b],
    ) by {
        assert(p1[a] != p1[b]);
        assert(s1.map_values(elapsed)[p1[a]] == elapsed(s1[p1[a]]));
        assert(s1.map_values(elapsed)[p1[b]] == elapsed(s1[p1[b]]));
    }
    assert forall|a: int, b: int| 0 <= a < b < v.len() implies elapsed(#[trigger] v[a]) < elapsed(
        #[trigger] v[b],
    ) by {
        assert(p2[a] != p2[b]);
        assert(q[p2[a]] != q[p2[b]]);
        assert(s2[p2[a]] == s1[q[p2[a]]]);
        assert(s2[p2[b]] == s1[q[p2[b]]]);
        assert(s2.map_values(elapsed)[p2[a]] == elapsed(s2[p2[a]]));
        assert(s2.map_values(elapsed)[p2[b]] == elapsed(s2[p2[b]]));
    }
    assert forall|i: int| 0 <= i < u.len() implies #[trigger] v.contains(u[i]) by {
        let x = p1[i];
        assert(q.contains(x));
        let j = choose|j: int| 0 <= j < q.len() && q[j] == x;
        assert(s2[j] == s1[x]);
        assert(p2.contains(j));
        let a = choose|a: int| 0 <= a < p2.len() && p2[a] == j;
        assert(v[a] == u[i]);
    }
    assert forall|a: int| 0 <= a < v.len() implies #[trigger] u.contains(v[a]) by {
        let j = p2[a];
        let x = q[j];
        assert(s2[j] == s1[x]);
        assert(p1.contains(x));
        let b = choose|b: int| 0 <= b < p1.len() && p1[b] == x;
        assert(u[b] == v[a]);
    }
    if n > 0 {
        lemma_increasing_prefix_eq(u, v, elapsed, n - 1);
    }
    assert(u =~= v);
}

/// Filters that agree on every element of `s` keep the same elements.
proof fn lemma_filter_agree<A>(s: Seq<A>, p: spec_fn(A) -> bool, q: spec_fn(A) -> bool)
    requires
        forall|i: int| 0 <= i < s.len() ==> p(#[trigger] s[i]) == q(s[i]),
    ensures
        s.filter(p) == s.filter(q),
    decreases s.len(),
{
    reveal(Seq::filter);
    if s.len() > 0 {
        assert forall|i: int| 0 <= i < s.drop_last().len() implies p(#[trigger] s.drop_last()[i])
            == q(s.drop_last()[i]) by {
            assert(s.drop_last()[i] == s[i]);
        }
        lemma_filter_agree(s.drop_last(), p, q);
        assert(p(s[s.len() - 1]) == q(s[s.len() - 1]));
    }
}

/// Keeping what `p` keeps and then what `q` keeps, where `q` keeps only what `p` keeps, keeps
/// what `q` keeps.
proof fn lemma_filter_narrow<A>(s: Seq<A>, p: spec_fn(A) -> bool, q: spec_fn(A) -> bool)
    requires
        forall|x: A| #[trigger] q(x) ==> p(x),
    ensures
        s.filter(p).filter(q) == s.filter(q),
    decreases s.len(),
{
    reveal(Seq::filter);
    if s.len() > 0 {
        let t = s.drop_last();
        let x = s.last();
        lemma_filter_narrow(t, p, q);
        if p(x) {
            assert(s.filter(p) == t.filter(p).push(x));
            assert(t.filter(p).push(x).drop_last() =~= t.filter(p));
            assert(t.filter(p).push(x).last() == x);
        } else {
            assert(!q(x));
        }
    }
}

/// A filter that keeps nothing of `s` gives the empty sequence.
proof fn lemma_filter_none<A>(s: Seq<A>, p: spec_fn(A) -> bool)
    requires
        forall|i: int| 0 <= i < s.len() ==> !p(#[trigger] s[i]),
    ensures
        s.filter(p).len() == 0,
    decreases s.len(),
{
    reveal(Seq::filter);
    if s.len() > 0 {
        assert forall|i: int| 0 <= i < s.drop_last().len() implies !p(#[trigger] s.drop_last()[i]) by {
            assert(s.drop_last()[i] == s[i]);
        }
        lemma_filter_none(s.drop_last(), p);
        assert(!p(s[s.len() - 1]));
    }
}

/// The blended day flag is settled by the responses that report one: dropping every response
/// without a flag, or adding one, never changes it.
pub proof fn law_day_vote_counts_only_known_flags(flags: Seq<Option<bool>>)
    ensures
        day_vote(flags) == day_vote(flags.filter(|f: Option<bool>| f is Some)),
        day_vote(flags.push(None)) == day_vote(flags),
{
    let known = |f: Option<bool>| f is Some;
    let day = |f: Option<bool>| f == Some(true);
    lemma_filter_narrow(flags, known, known);
    lemma_filter_narrow(flags, known, day);
    let g = flags.push(None);
    reveal(Seq::filter);
    assert(g.drop_last() =~= flags);
    assert(g.filter(known) == flags.filter(known));
    assert(g.filter(day) == flags.filter(day));
}

/// When every response that reports a day flag reports the same one, `d`, and at least one
/// reports it, the blended flag is `d`.
pub proof fn law_day_vote_unanimous(flags: Seq<Option<bool>>, d: bool)
    requires
        exists|i: int| 0 <= i < flags.len() && flags[i] == Some(d),
        forall|i: int| 0 <= i < flags.len() && (#[trigger] flags[i]) is Some ==> flags[i] == Some(d),
    ensures
        day_vote(flags) == Some(d),
{
    let known = |f: Option<bool>| f is Some;
    let day = |f: Option<bool>| f == Some(true);
    let i = choose|i: int| 0 <= i < flags.len() && flags[i] == Some(d);
    assert(flags.contains(flags[i]));
    assert(known(flags[i]));
    flags.lemma_filter_contains_rev(known, flags[i]);
    assert(flags.filter(known).contains(flags[i]));
    let w = choose|w: int| 0 <= w < flags.filter(known).len() && flags.filter(known)[w] == flags[i];
    assert(flags.filter(known).len() > 0);
    if d {
        assert forall|j: int| 0 <= j < flags.len() implies known(#[trigger] flags[j]) == day(flags[j]) by {}
        lemma_filter_agree(flags, known, day);
    } else {
        assert forall|j: int| 0 <= j < flags.len() implies !day(#[trigger] flags[j]) by {}
        lemma_filter_none(flags, day);
    }
}

} // verus!
