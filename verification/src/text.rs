//! Character-level string utilities shared by the parsers of this crate.
use vstd::prelude::*;
use vstd::string::StringExecFns;

verus! {

/// `String::push` appends one character at the end of the string.
pub assume_specification[ String::push ](s: &mut String, ch: char)
    ensures
        final(s)@ == old(s)@.push(ch),
;

/// The characters of `s`, in order.
pub fn chars_of(s: &str) -> (v: Vec<char>)
    ensures
        v@ == s@,
{
    let mut v: Vec<char> = Vec::new();
    for c in it: s.chars()
        invariant
            v@ == it.seq().take(it.index() as int),
            it.seq() == s@,
    {
        v.push(c);
    }
    v
}

/// A string holding exactly the characters `v`.
pub fn string_of(v: &Vec<char>) -> (s: String)
    ensures
        s@ == v@,
{
    let mut s = String::new();
    let mut i: usize = 0;
    while i < v.len()
        invariant
            i <= v.len(),
            s@ == v@.take(i as int),
        decreases v.len() - i,
    {
        s.push(v[i]);
        i = i + 1;
        assert(s@ =~= v@.take(i as int));
    }
    assert(v@.take(v.len() as int) =~= v@);
    s
}


/// Unicode `White_Space`, the set that `char::is_whitespace` tests for.
pub open spec fn is_ws(c: char) -> bool {
    let u = c as u32;
    (0x9 <= u && u <= 0xD) || u == 0x20 || u == 0x85 || u == 0xA0 || u == 0x1680
        || (0x2000 <= u && u <= 0x200A) || u == 0x2028 || u == 0x2029 || u == 0x202F
        || u == 0x205F || u == 0x3000
}

/// Whether `c` is white space, as `char::is_whitespace` decides.
pub fn is_whitespace(c: char) -> (b: bool)
    ensures
        b == is_ws(c),
{
    let u = c as u32;
    (0x9 <= u && u <= 0xD) || u == 0x20 || u == 0x85 || u == 0xA0 || u == 0x1680
        || (0x2000 <= u && u <= 0x200A) || u == 0x2028 || u == 0x2029 || u == 0x202F
        || u == 0x205F || u == 0x3000
}

/// `s` without its leading white space.
pub open spec fn trim_start(s: Seq<char>) -> Seq<char>
    decreases s.len(),
{
    if s.len() > 0 && is_ws(s[0]) {
        trim_start(s.drop_first())
    } else {
        s
    }
}

/// `s` without its trailing white space.
pub open spec fn trim_end(s: Seq<char>) -> Seq<char>
    decreases s.len(),
{
    if s.len() > 0 && is_ws(s.last()) {
        trim_end(s.drop_last())
    } else {
        s
    }
}

/// `s` without leading and trailing white space, as `str::trim` gives it.
pub open spec fn trim(s: Seq<char>) -> Seq<char> {
    trim_end(trim_start(s))
}

proof fn lemma_trim_start_skip(s: Seq<char>, i: int)
    requires
        0 <= i <= s.len(),
        forall|j: int| 0 <= j < i ==> is_ws(#[trigger] s[j]),
    ensures
        trim_start(s) == trim_start(s.skip(i)),
    decreases i,
{
    if i > 0 {
        assert(s.skip(1) =~= s.drop_first());
        lemma_trim_start_skip(s.drop_first(), i - 1);
        assert(s.drop_first().skip(i - 1) =~= s.skip(i));
    } else {
        assert(s.skip(0) =~= s);
    }
}

proof fn lemma_trim_end_take(s: Seq<char>, k: int)
    requires
        0 <= k <= s.len(),
        forall|j: int| k <= j < s.len() ==> is_ws(#[trigger] s[j]),
    ensures
        trim_end(s) == trim_end(s.take(k)),
    decreases s.len() - k,
{
    if k < s.len() {
        lemma_trim_end_take(s.drop_last(), k);
        assert(s.drop_last().take(k) =~= s.take(k));
    } else {
        assert(s.take(k) =~= s);
    }
}

/// The characters of `v` without leading and trailing white space.
pub fn trim_chars(v: &Vec<char>) -> (r: Vec<char>)
    ensures
        r@ == trim(v@),
{
    let n = v.len();
    let mut i: usize = 0;
    while i < n && is_whitespace(v[i])
        invariant
            i <= n,
            n == v.len(),
            forall|j: int| 0 <= j < i ==> is_ws(#[trigger] v@[j]),
        decreases n - i,
    {
        i = i + 1;
    }
    proof {
        lemma_trim_start_skip(v@, i as int);
    }
    let mut k: usize = n;
    while k > i && is_whitespace(v[k - 1])
        invariant
            i <= k <= n,
            n == v.len(),
            forall|j: int| k <= j < n ==> is_ws(#[trigger] v@[j]),
        decreases k,
    {
        k = k - 1;
    }
    let ghost rest = v@.skip(i as int);
    proof {
        assert(i == n || !is_ws(v@[i as int]));
        assert(trim_start(rest) == rest) by {
            if rest.len() > 0 {
                assert(rest[0] == v@[i as int]);
            }
        }
        lemma_trim_end_take(rest, k - i);
        assert(rest.take(k - i) =~= v@.subrange(i as int, k as int));
        if k > i {
            assert(!is_ws(v@[k - 1]));
            assert(v@.subrange(i as int, k as int).last() == v@[k - 1]);
        }
    }
    let mut r: Vec<char> = Vec::new();
    let mut j: usize = i;
    while j < k
        invariant
            i <= j <= k <= n,
            n == v.len(),
            r@ == v@.subrange(i as int, j as int),
        decreases k - j,
    {
        r.push(v[j]);
        j = j + 1;
        assert(r@ =~= v@.subrange(i as int, j as int));
    }
    r
}

/// `s` trimmed of white space on both ends, as a new string.
pub fn trim_str(s: &str) -> (r: String)
    ensures
        r@ == trim(s@),
{
    let v = chars_of(s);
    let t = trim_chars(&v);
    string_of(&t)
}


/// The lowercase form of a string, as `str::to_lowercase` maps it (full Unicode case mapping).
pub uninterp spec fn lowercase(s: Seq<char>) -> Seq<char>;

/// Calls `str::to_lowercase`. The contract only names the result: it is `lowercase` of the
/// argument's characters; nothing is claimed about the Unicode case tables themselves.
#[verifier::external_body]
pub(crate) fn to_lowercase(s: &str) -> (r: String)
    ensures
        r@ == lowercase(s@),
{
    s.to_lowercase()
}

/// `p` occurs in `s` starting at index `i`.
pub open spec fn occurs_at(s: Seq<char>, p: Seq<char>, i: int) -> bool {
    0 <= i && i + p.len() <= s.len() && s.subrange(i, i + p.len()) == p
}

/// The first index at or after `i` where `p` occurs in `s`.
pub open spec fn find_from(s: Seq<char>, p: Seq<char>, i: int) -> Option<int>
    decreases s.len() + 1 - i,
{
    if i < 0 || i + p.len() > s.len() {
        None
    } else if occurs_at(s, p, i) {
        Some(i)
    } else {
        find_from(s, p, i + 1)
    }
}

/// The first index where `p` occurs in `s`, as `str::find` reports it (counted in characters).
pub open spec fn find(s: Seq<char>, p: Seq<char>) -> Option<int> {
    find_from(s, p, 0)
}

proof fn lemma_find_from_facts(s: Seq<char>, p: Seq<char>, i: int)
    requires
        0 <= i,
    ensures
        find_from(s, p, i) matches Some(k) ==> i <= k && occurs_at(s, p, k) && forall|j: int|
            i <= j < k ==> !occurs_at(s, p, j),
        find_from(s, p, i) is None ==> forall|j: int| i <= j ==> !occurs_at(s, p, j),
    decreases s.len() + 1 - i,
{
    if i + p.len() > s.len() {
    } else if occurs_at(s, p, i) {
    } else {
        lemma_find_from_facts(s, p, i + 1);
    }
}

/// `find(s, p)` is the least index where `p` occurs, or `None` when it occurs nowhere.
pub proof fn lemma_find_facts(s: Seq<char>, p: Seq<char>)
    ensures
        find(s, p) matches Some(k) ==> occurs_at(s, p, k) && forall|j: int|
            0 <= j < k ==> !occurs_at(s, p, j),
        find(s, p) is None ==> forall|j: int| 0 <= j ==> !occurs_at(s, p, j),
{
    lemma_find_from_facts(s, p, 0);
}

/// Whether `p` occurs in `s` at index `i`.
pub fn matches_at(s: &Vec<char>, p: &Vec<char>, i: usize) -> (b: bool)
    requires
        i <= s.len(),
    ensures
        b == occurs_at(s@, p@, i as int),
{
    if p.len() > s.len() - i {
        return false;
    }
    let mut k: usize = 0;
    while k < p.len()
        invariant
            k <= p.len(),
            i + p.len() <= s.len(),
            forall|j: int| 0 <= j < k ==> s@[i + j] == p@[j],
        decreases p.len() - k,
    {
        if s[i + k] != p[k] {
            assert(s@.subrange(i as int, i + p.len())[k as int] != p@[k as int]);
            return false;
        }
        k = k + 1;
    }
    assert(s@.subrange(i as int, i + p.len()) =~= p@);
    true
}

/// The first index where `p` occurs in `s`, as `str::find` reports it.
pub fn find_chars(s: &Vec<char>, p: &Vec<char>) -> (r: Option<usize>)
    ensures
        r matches Some(k) ==> find(s@, p@) == Some(k as int),
        r is None ==> find(s@, p@) is None,
{
    if p.len() > s.len() {
        return None;
    }
    if p.len() == 0 {
        assert(s@.subrange(0, 0) =~= p@);
        return Some(0);
    }
    let last = s.len() - p.len();
    let mut i: usize = 0;
    while i <= last
        invariant
            last + p.len() == s.len(),
            p.len() > 0,
            find(s@, p@) == find_from(s@, p@, i as int),
        decreases last + 1 - i,
    {
        if matches_at(s, p, i) {
            return Some(i);
        }
        i = i + 1;
    }
    None
}

/// `c` is an ASCII decimal digit.
pub open spec fn is_digit(c: char) -> bool {
    '0' <= c && c <= '9'
}

/// The value of the decimal digit `c`.
pub open spec fn digit_value(c: char) -> nat {
    (c as u32 - '0' as u32) as nat
}

/// Every character of `d` is a decimal digit.
pub open spec fn all_digits(d: Seq<char>) -> bool {
    forall|i: int| 0 <= i < d.len() ==> is_digit(#[trigger] d[i])
}

/// The number that the decimal digits `d` spell.
pub open spec fn digits_number(d: Seq<char>) -> nat
    decreases d.len(),
{
    if d.len() == 0 {
        0
    } else {
        digits_number(d.drop_last()) * 10 + digit_value(d.last())
    }
}

/// The digits of an unsigned number, without the one `+` sign that may lead them.
pub open spec fn unsigned_body(s: Seq<char>) -> Seq<char> {
    if s.len() > 0 && s[0] == '+' {
        s.drop_first()
    } else {
        s
    }
}

/// What `str::parse` gives for an unsigned integer type whose largest value is `max`:
/// an optional `+`, then one or more decimal digits whose value is at most `max`.
pub open spec fn parse_unsigned(s: Seq<char>, max: nat) -> Option<nat> {
    let d = unsigned_body(s);
    if d.len() > 0 && all_digits(d) && digits_number(d) <= max {
        Some(digits_number(d))
    } else {
        None
    }
}

proof fn lemma_digits_prefix_le(d: Seq<char>, i: int)
    requires
        0 <= i <= d.len(),
    ensures
        digits_number(d.take(i)) <= digits_number(d),
    decreases d.len(),
{
    if i < d.len() {
        lemma_digits_prefix_le(d.drop_last(), i);
        assert(d.drop_last().take(i) =~= d.take(i));
    } else {
        assert(d.take(i) =~= d);
    }
}

/// Parses an unsigned decimal number no larger than `max`, as `str::parse` does for the
/// unsigned integer type whose largest value is `max`.
pub fn parse_unsigned_chars(s: &Vec<char>, max: u64) -> (r: Option<u64>)
    ensures
        r matches Some(v) ==> parse_unsigned(s@, max as nat) == Some(v as nat),
        r is None ==> parse_unsigned(s@, max as nat) is None,
{
    let start: usize = if s.len() > 0 && s[0] == '+' { 1 } else { 0 };
    let ghost d = unsigned_body(s@);
    assert(d =~= s@.skip(start as int));
    if start >= s.len() {
        return None;
    }
    let mut acc: u64 = 0;
    let mut i: usize = start;
    while i < s.len()
        invariant
            start <= i <= s.len(),
            d == s@.skip(start as int),
            d == unsigned_body(s@),
            d.len() > 0,
            acc as nat == digits_number(d.take(i - start)),
            acc <= max,
            all_digits(d.take(i - start)),
        decreases s.len() - i,
    {
        let c = s[i];
        let ghost k = i - start;
        assert(d[k] == c);
        if !('0' <= c && c <= '9') {
            assert(!is_digit(d[k]));
            assert(!all_digits(d));
            return None;
        }
        let dv: u64 = (c as u32 - '0' as u32) as u64;
        assert(d.take(k + 1).drop_last() =~= d.take(k));
        assert(digits_number(d.take(k + 1)) == digits_number(d.take(k)) * 10 + dv);
        if dv > max || acc > (max - dv) / 10 {
            assert(acc * 10 + dv > max) by (nonlinear_arith)
                requires
                    dv > max || acc > (max - dv) / 10,
            ;
            proof {
                lemma_digits_prefix_le(d, k + 1);
            }
            return None;
        }
        assert(acc * 10 + dv <= max) by (nonlinear_arith)
            requires
                acc <= (max - dv) / 10,
                dv <= max,
        ;
        acc = acc * 10 + dv;
        i = i + 1;
        assert(all_digits(d.take(i - start))) by {
            assert forall|j: int| 0 <= j < d.take(i - start).len() implies is_digit(
                #[trigger] d.take(i - start)[j],
            ) by {
                if j < k {
                    assert(d.take(i - start)[j] == d.take(k)[j]);
                }
            }
        }
    }
    assert(d.take(d.len() as int) =~= d);
    Some(acc)
}


/// `a` sorts strictly before `b`, in the order of `str`'s `<`. That order compares the UTF-8
/// bytes, and UTF-8 keeps the order of code points, so it compares characters by code point.
pub open spec fn lex_lt(a: Seq<char>, b: Seq<char>) -> bool
    decreases a.len(),
{
    if b.len() == 0 {
        false
    } else if a.len() == 0 {
        true
    } else if a[0] != b[0] {
        a[0] < b[0]
    } else {
        lex_lt(a.drop_first(), b.drop_first())
    }
}

/// No string sorts before itself.
pub proof fn lemma_lex_irreflexive(a: Seq<char>)
    ensures
        !lex_lt(a, a),
    decreases a.len(),
{
    if a.len() > 0 {
        lemma_lex_irreflexive(a.drop_first());
    }
}

/// The order of strings is transitive.
pub proof fn lemma_lex_transitive(a: Seq<char>, b: Seq<char>, c: Seq<char>)
    requires
        lex_lt(a, b),
        lex_lt(b, c),
    ensures
        lex_lt(a, c),
    decreases a.len(),
{
    if a.len() > 0 && b.len() > 0 && c.len() > 0 && a[0] == b[0] && b[0] == c[0] {
        lemma_lex_transitive(a.drop_first(), b.drop_first(), c.drop_first());
    }
}

/// Of two different strings, one sorts before the other, and never both.
pub proof fn lemma_lex_total(a: Seq<char>, b: Seq<char>)
    ensures
        a != b ==> lex_lt(a, b) || lex_lt(b, a),
        !(lex_lt(a, b) && lex_lt(b, a)),
    decreases a.len(),
{
    if a.len() > 0 && b.len() > 0 && a[0] == b[0] {
        lemma_lex_total(a.drop_first(), b.drop_first());
        if a != b {
            assert(a.drop_first() != b.drop_first()) by {
                if a.drop_first() == b.drop_first() {
                    assert(a =~= seq![a[0]] + a.drop_first());
                    assert(b =~= seq![b[0]] + b.drop_first());
                }
            }
        }
    } else if a.len() == 0 && b.len() == 0 {
        assert(a =~= b);
    }
}

/// Whether `a < b` for the strings with these characters.
pub fn str_lt(a: &Vec<char>, b: &Vec<char>) -> (r: bool)
    ensures
        r == lex_lt(a@, b@),
{
    let mut i: usize = 0;
    assert(a@.skip(0) =~= a@ && b@.skip(0) =~= b@);
    while i < a.len() && i < b.len()
        invariant
            i <= a.len(),
            i <= b.len(),
            lex_lt(a@, b@) == lex_lt(a@.skip(i as int), b@.skip(i as int)),
        decreases a.len() - i,
    {
        let ghost sa = a@.skip(i as int);
        let ghost sb = b@.skip(i as int);
        assert(sa[0] == a@[i as int] && sb[0] == b@[i as int]);
        if a[i] != b[i] {
            return a[i] < b[i];
        }
        assert(sa.drop_first() =~= a@.skip(i + 1));
        assert(sb.drop_first() =~= b@.skip(i + 1));
        i = i + 1;
    }
    let ghost sa = a@.skip(i as int);
    let ghost sb = b@.skip(i as int);
    assert(sa.len() == 0 || sb.len() == 0);
    i >= a.len() && i < b.len()
}

/// The index of the first `c` in `s`.
pub open spec fn index_of(s: Seq<char>, c: char) -> Option<int> {
    find(s, seq![c])
}

/// Searching for the character `c` from `i` finds it at `k` when `k` is its first place at
/// or after `i`.
proof fn lemma_find_char_from(s: Seq<char>, c: char, i: int, k: int)
    requires
        0 <= i <= k < s.len(),
        s[k] == c,
        forall|j: int| i <= j < k ==> s[j] != c,
    ensures
        find_from(s, seq![c], i) == Some(k),
    decreases k - i,
{
    assert(s.subrange(i, i + 1) =~= seq![s[i]]);
    if i < k {
        assert(s[i] != c);
        assert(s.subrange(i, i + 1) != seq![c]) by {
            assert(s.subrange(i, i + 1)[0] == s[i]);
        }
        lemma_find_char_from(s, c, i + 1, k);
    }
}

/// The first `c` of `s` stands at `k` when `s[k]` is `c` and no earlier character is.
pub proof fn lemma_index_of_first(s: Seq<char>, c: char, k: int)
    requires
        0 <= k < s.len(),
        s[k] == c,
        forall|j: int| 0 <= j < k ==> s[j] != c,
    ensures
        index_of(s, c) == Some(k),
{
    lemma_find_char_from(s, c, 0, k);
}

/// The characters of `s` before its first `c`, or all of `s` when it has none:
/// the first piece that `str::split(c)` yields.
pub open spec fn before_char(s: Seq<char>, c: char) -> Seq<char> {
    match index_of(s, c) {
        Some(i) => s.take(i),
        None => s,
    }
}

/// The characters of `s` after its first `c`, if it has one.
pub open spec fn after_char(s: Seq<char>, c: char) -> Option<Seq<char>> {
    match index_of(s, c) {
        Some(i) => Some(s.skip(i + 1)),
        None => None,
    }
}

/// The second piece that `str::split(c)` yields, if there is one.
pub open spec fn second_piece(s: Seq<char>, c: char) -> Option<Seq<char>> {
    match after_char(s, c) {
        Some(t) => Some(before_char(t, c)),
        None => None,
    }
}

/// The index of the first `c` in `v`.
pub fn index_of_char(v: &Vec<char>, c: char) -> (r: Option<usize>)
    ensures
        r matches Some(i) ==> index_of(v@, c) == Some(i as int) && i < v.len() && v@[i as int]
            == c,
        r is None ==> index_of(v@, c) is None,
{
    let mut i: usize = 0;
    let ghost p = seq![c];
    while i < v.len()
        invariant
            i <= v.len(),
            p == seq![c],
            find(v@, p) == find_from(v@, p, i as int),
        decreases v.len() - i,
    {
        assert(occurs_at(v@, p, i as int) == (v@[i as int] == c)) by {
            if v@[i as int] == c {
                assert(v@.subrange(i as int, i + 1) =~= p);
            } else {
                assert(v@.subrange(i as int, i + 1)[0] != p[0]);
            }
        }
        if v[i] == c {
            return Some(i);
        }
        i = i + 1;
    }
    None
}

/// The characters of `v` in the index range `[from, to)`.
pub fn slice_chars(v: &Vec<char>, from: usize, to: usize) -> (r: Vec<char>)
    requires
        from <= to <= v.len(),
    ensures
        r@ == v@.subrange(from as int, to as int),
{
    let mut r: Vec<char> = Vec::new();
    let mut j: usize = from;
    while j < to
        invariant
            from <= j <= to <= v.len(),
            r@ == v@.subrange(from as int, j as int),
        decreases to - j,
    {
        r.push(v[j]);
        j = j + 1;
        assert(r@ =~= v@.subrange(from as int, j as int));
    }
    r
}

/// The first piece of `str::split(c)` over `v`.
pub fn before_char_chars(v: &Vec<char>, c: char) -> (r: Vec<char>)
    ensures
        r@ == before_char(v@, c),
{
    match index_of_char(v, c) {
        Some(i) => slice_chars(v, 0, i),
        None => {
            let r = slice_chars(v, 0, v.len());
            assert(v@.subrange(0, v.len() as int) =~= v@);
            r
        },
    }
}

/// The second piece of `str::split(c)` over `v`, if any.
pub fn second_piece_chars(v: &Vec<char>, c: char) -> (r: Option<Vec<char>>)
    ensures
        r matches Some(t) ==> second_piece(v@, c) == Some(t@),
        r is None ==> second_piece(v@, c) is None,
{
    match index_of_char(v, c) {
        Some(i) => {
            let rest = slice_chars(v, i + 1, v.len());
            assert(rest@ =~= v@.skip(i + 1));
            Some(before_char_chars(&rest, c))
        },
        None => None,
    }
}

/// `s` with every `from` replaced by `to`.
pub open spec fn replace_char(s: Seq<char>, from: char, to: char) -> Seq<char> {
    s.map_values(|x: char| if x == from { to } else { x })
}

/// `v` with every `from` replaced by `to`, as `str::replace(from, to)` does for two characters.
pub fn replace_char_chars(v: &Vec<char>, from: char, to: char) -> (r: Vec<char>)
    ensures
        r@ == replace_char(v@, from, to),
{
    let mut r: Vec<char> = Vec::new();
    let mut j: usize = 0;
    while j < v.len()
        invariant
            j <= v.len(),
            r@ == replace_char(v@.take(j as int), from, to),
        decreases v.len() - j,
    {
        let x = v[j];
        r.push(if x == from { to } else { x });
        j = j + 1;
        assert(r@ =~= replace_char(v@.take(j as int), from, to));
    }
    assert(v@.take(v.len() as int) =~= v@);
    r
}

/// `s` without any `c`: what `str::replace(c, "")` gives.
pub open spec fn remove_char(s: Seq<char>, c: char) -> Seq<char> {
    s.filter(|x: char| x != c)
}

/// `v` with every `c` removed.
pub fn remove_char_chars(v: &Vec<char>, c: char) -> (r: Vec<char>)
    ensures
        r@ == remove_char(v@, c),
{
    let mut r: Vec<char> = Vec::new();
    let mut j: usize = 0;
    while j < v.len()
        invariant
            j <= v.len(),
            r@ == remove_char(v@.take(j as int), c),
        decreases v.len() - j,
    {
        let x = v[j];
        assert(v@.take(j + 1).drop_last() =~= v@.take(j as int));
        reveal_with_fuel(Seq::filter, 1);
        if x != c {
            r.push(x);
        }
        j = j + 1;
    }
    assert(v@.take(v.len() as int) =~= v@);
    r
}

/// `s` starts with `p`.
pub open spec fn has_prefix(s: Seq<char>, p: Seq<char>) -> bool {
    p.len() <= s.len() && s.take(p.len() as int) == p
}

/// `p` occurs somewhere in `s`: what `str::contains` tests.
pub open spec fn contains_seq(s: Seq<char>, p: Seq<char>) -> bool {
    exists|i: int| occurs_at(s, p, i)
}

/// Whether `p` occurs in `s`.
pub fn contains_chars(s: &Vec<char>, p: &Vec<char>) -> (b: bool)
    ensures
        b == contains_seq(s@, p@),
{
    proof {
        lemma_find_facts(s@, p@);
    }
    match find_chars(s, p) {
        Some(k) => true,
        None => false,
    }
}


/// The length of the run of non-white-space characters at the start of `s`.
pub open spec fn word_len(s: Seq<char>) -> nat
    decreases s.len(),
{
    if s.len() == 0 || is_ws(s[0]) {
        0
    } else {
        1 + word_len(s.drop_first())
    }
}

/// `word_len(s)` never exceeds the length of `s`.
pub proof fn lemma_word_len_bound(s: Seq<char>)
    ensures
        word_len(s) <= s.len(),
    decreases s.len(),
{
    if s.len() > 0 && !is_ws(s[0]) {
        lemma_word_len_bound(s.drop_first());
    }
}

/// The words of `s`: its maximal runs of non-white-space characters, in order, as
/// `str::split_whitespace` yields them.
pub open spec fn words(s: Seq<char>) -> Seq<Seq<char>>
    decreases s.len(),
{
    if s.len() == 0 {
        seq![]
    } else if is_ws(s[0]) {
        words(s.drop_first())
    } else {
        let n = word_len(s);
        proof {
            lemma_word_len_bound(s);
        }
        seq![s.take(n as int)] + words(s.skip(n as int))
    }
}

proof fn lemma_word_len_step(s: Seq<char>, i: int)
    requires
        0 <= i < s.len(),
        !is_ws(s[i]),
    ensures
        word_len(s.skip(i)) == 1 + word_len(s.skip(i + 1)),
{
    assert(s.skip(i).drop_first() =~= s.skip(i + 1));
}

/// The words of `v`, as `str::split_whitespace` yields them.
pub fn split_whitespace_chars(v: &Vec<char>) -> (r: Vec<Vec<char>>)
    ensures
        r@.map_values(|w: Vec<char>| w@) == words(v@),
{
    let mut r: Vec<Vec<char>> = Vec::new();
    let mut i: usize = 0;
    assert(v@.skip(0) =~= v@);
    while i < v.len()
        invariant
            i <= v.len(),
            r@.map_values(|w: Vec<char>| w@) + words(v@.skip(i as int)) == words(v@),
        decreases v.len() - i,
    {
        let ghost rest = v@.skip(i as int);
        assert(rest[0] == v@[i as int]);
        if is_whitespace(v[i]) {
            assert(rest.drop_first() =~= v@.skip(i + 1));
            i = i + 1;
        } else {
            let mut j: usize = i;
            while j < v.len() && !is_whitespace(v[j])
                invariant
                    i <= j <= v.len(),
                    word_len(v@.skip(i as int)) == (j - i) + word_len(v@.skip(j as int)),
                decreases v.len() - j,
            {
                proof {
                    lemma_word_len_step(v@, j as int);
                }
                j = j + 1;
            }
            assert(word_len(v@.skip(j as int)) == 0) by {
                if j < v.len() {
                    assert(v@.skip(j as int)[0] == v@[j as int]);
                }
            }
            let w = slice_chars(v, i, j);
            let ghost before = r@.map_values(|w: Vec<char>| w@);
            r.push(w);
            assert(r@.map_values(|w: Vec<char>| w@) =~= before.push(w@));
            assert(rest.take((j - i) as int) =~= w@);
            assert(rest.skip((j - i) as int) =~= v@.skip(j as int));
            assert(words(rest) == seq![w@] + words(v@.skip(j as int)));
            assert(before.push(w@) + words(v@.skip(j as int)) =~= before + (seq![w@] + words(
                v@.skip(j as int),
            )));
            i = j;
        }
    }
    assert(words(v@.skip(i as int)) =~= Seq::<Seq<char>>::empty());
    assert(r@.map_values(|w: Vec<char>| w@) + Seq::<Seq<char>>::empty() =~= r@.map_values(
        |w: Vec<char>| w@,
    ));
    r
}


/// Whether `a` and `b` hold the same characters.
pub fn eq_chars(a: &Vec<char>, b: &Vec<char>) -> (r: bool)
    ensures
        r == (a@ == b@),
{
    if a.len() != b.len() {
        return false;
    }
    let mut i: usize = 0;
    while i < a.len()
        invariant
            i <= a.len(),
            a.len() == b.len(),
            forall|j: int| 0 <= j < i ==> a@[j] == b@[j],
        decreases a.len() - i,
    {
        if a[i] != b[i] {
            return false;
        }
        i = i + 1;
    }
    assert(a@ =~= b@);
    true
}

/// Whether the string `s` holds exactly the characters `v`.
pub fn str_eq_chars(s: &str, v: &Vec<char>) -> (r: bool)
    ensures
        r == (s@ == v@),
{
    let c = chars_of(s);
    eq_chars(&c, v)
}


/// The indices below `n` that `keep` accepts, in increasing order.
pub open spec fn select_indices(n: nat, keep: spec_fn(int) -> bool) -> Seq<int>
    decreases n,
{
    if n == 0 {
        seq![]
    } else {
        select_indices((n - 1) as nat, keep) + if keep(n - 1) {
            seq![n - 1]
        } else {
            seq![]
        }
    }
}

/// The selected indices are increasing, lie below `n`, are accepted by `keep`, and every
/// accepted index below `n` is among them.
pub proof fn lemma_select_indices(n: nat, keep: spec_fn(int) -> bool)
    ensures
        forall|a: int, b: int|
            0 <= a < b < select_indices(n, keep).len() ==> select_indices(n, keep)[a]
                < select_indices(n, keep)[b],
        forall|a: int|
            0 <= a < select_indices(n, keep).len() ==> 0 <= #[trigger] select_indices(n, keep)[a]
                < n && keep(select_indices(n, keep)[a]),
        forall|i: int| 0 <= i < n && #[trigger] keep(i) ==> select_indices(n, keep).contains(i),
    decreases n,
{
    if n > 0 {
        lemma_select_indices((n - 1) as nat, keep);
        let prev = select_indices((n - 1) as nat, keep);
        let cur = select_indices(n, keep);
        assert forall|i: int| 0 <= i < n && keep(i) implies cur.contains(i) by {
            if i < n - 1 {
                let k = choose|k: int| 0 <= k < prev.len() && prev[k] == i;
                assert(cur[k] == i);
            } else {
                assert(cur[prev.len() as int] == i);
            }
        }
    }
}

/// Every index below `n` is selected when `keep` accepts them all.
pub proof fn lemma_select_all(n: nat, keep: spec_fn(int) -> bool)
    requires
        forall|i: int| 0 <= i < n ==> #[trigger] keep(i),
    ensures
        select_indices(n, keep) == Seq::new(n, |i: int| i),
    decreases n,
{
    if n > 0 {
        lemma_select_all((n - 1) as nat, keep);
        assert(select_indices(n, keep) =~= Seq::new(n, |i: int| i));
    } else {
        assert(select_indices(n, keep) =~= Seq::new(n, |i: int| i));
    }
}


/// The string `a` followed by `b` followed by `c`.
pub fn concat3(a: &str, b: &str, c: &str) -> (r: String)
    ensures
        r@ == a@ + b@ + c@,
{
    let mut r = String::from_str(a);
    r.append(b);
    r.append(c);
    r
}


/// What `str::parse::<i32>` gives: an optional `+` or `-`, then one or more decimal digits
/// whose signed value lies in the range of `i32`.
pub open spec fn parse_i32(s: Seq<char>) -> Option<int> {
    if s.len() > 0 && s[0] == '-' {
        let d = s.drop_first();
        if d.len() > 0 && all_digits(d) && digits_number(d) <= 2147483648 {
            Some(-(digits_number(d) as int))
        } else {
            None
        }
    } else {
        match parse_unsigned(s, 2147483647) {
            Some(v) => Some(v as int),
            None => None,
        }
    }
}

/// Parses an `i32` as `str::parse::<i32>` does.
pub fn parse_i32_chars(s: &Vec<char>) -> (r: Option<i32>)
    ensures
        r matches Some(v) ==> parse_i32(s@) == Some(v as int),
        r is None ==> parse_i32(s@) is None,
{
    if s.len() > 0 && s[0] == '-' {
        let d = slice_chars(s, 1, s.len());
        assert(d@ =~= s@.drop_first());
        if d.len() > 0 && d[0] == '+' {
            assert(!is_digit(d@[0]));
            return None;
        }
        assert(unsigned_body(d@) == d@);
        match parse_unsigned_chars(&d, 2147483648u64) {
            Some(v) => {
                if v == 2147483648u64 {
                    Some(-2147483648i32)
                } else {
                    Some(-(v as i32))
                }
            },
            None => None,
        }
    } else {
        match parse_unsigned_chars(s, 2147483647u64) {
            Some(v) => Some(v as i32),
            None => None,
        }
    }
}


/// The pieces `parts` with `sep` between each two of them: what `[String]::join` gives.
pub open spec fn join(parts: Seq<Seq<char>>, sep: Seq<char>) -> Seq<char>
    decreases parts.len(),
{
    if parts.len() == 0 {
        Seq::empty()
    } else if parts.len() == 1 {
        parts[0]
    } else {
        join(parts.drop_last(), sep) + sep + parts.last()
    }
}

/// The views of a sequence of strings.
pub open spec fn views(v: Seq<String>) -> Seq<Seq<char>> {
    v.map_values(|s: String| s@)
}

/// The strings `parts` joined with `sep` between each two.
pub fn join_strs(parts: &Vec<String>, sep: &str) -> (r: String)
    ensures
        r@ == join(views(parts@), sep@),
{
    let mut r = String::new();
    let mut i: usize = 0;
    while i < parts.len()
        invariant
            i <= parts.len(),
            r@ == join(views(parts@).take(i as int), sep@),
        decreases parts.len() - i,
    {
        let ghost before = views(parts@).take(i as int);
        let ghost after = views(parts@).take(i + 1);
        assert(after.drop_last() =~= before);
        if i > 0 {
            r.append(sep);
        } else {
            assert(r@ =~= Seq::<char>::empty());
        }
        r.append(parts[i].as_str());
        i = i + 1;
    }
    assert(views(parts@).take(parts.len() as int) =~= views(parts@));
    r
}

/// The character of the decimal digit `d`.
pub open spec fn digit_char(d: nat) -> char {
    if d == 0 { '0' } else if d == 1 { '1' } else if d == 2 { '2' } else if d == 3 { '3' }
    else if d == 4 { '4' } else if d == 5 { '5' } else if d == 6 { '6' } else if d == 7 { '7' }
    else if d == 8 { '8' } else { '9' }
}

/// The character of the decimal digit `d` (below 10).
pub fn digit_char_of(d: u32) -> (c: char)
    requires
        d < 10,
    ensures
        c == digit_char(d as nat),
{
    match d {
        0 => '0',
        1 => '1',
        2 => '2',
        3 => '3',
        4 => '4',
        5 => '5',
        6 => '6',
        7 => '7',
        8 => '8',
        _ => '9',
    }
}

/// The two decimal digits of `n` (below 100), zero-padded as `{:02}` writes them.
pub open spec fn two_digits(n: nat) -> Seq<char> {
    seq![digit_char(n / 10), digit_char(n % 10)]
}

/// The decimal digits of `n`, without leading zeros: what `{}` writes for an unsigned number.
pub open spec fn decimal(n: nat) -> Seq<char>
    decreases n,
{
    if n < 10 {
        seq![digit_char(n)]
    } else {
        decimal(n / 10).push(digit_char(n % 10))
    }
}

/// `s` with zeros in front up to `width` characters: what `{:0width$}` writes.
pub open spec fn zero_padded(s: Seq<char>, width: nat) -> Seq<char> {
    if s.len() >= width {
        s
    } else {
        Seq::new((width - s.len()) as nat, |i: int| '0') + s
    }
}

/// The decimal text of `n`.
pub fn decimal_str(n: u64) -> (r: String)
    ensures
        r@ == decimal(n as nat),
{
    let mut digits: Vec<char> = Vec::new();
    let mut m: u64 = n;
    loop
        invariant
            decimal(n as nat) == decimal(m as nat) + digits@,
        decreases m,
    {
        if m < 10 {
            let c = digit_char_of(m as u32);
            let mut r: Vec<char> = Vec::new();
            r.push(c);
            let mut j: usize = 0;
            while j < digits.len()
                invariant
                    j <= digits.len(),
                    r@ == seq![c] + digits@.take(j as int),
                decreases digits.len() - j,
            {
                r.push(digits[j]);
                j = j + 1;
                assert(r@ =~= seq![c] + digits@.take(j as int));
            }
            assert(digits@.take(digits.len() as int) =~= digits@);
            assert(decimal(m as nat) == seq![c]);
            return string_of(&r);
        }
        let c = digit_char_of((m % 10) as u32);
        let ghost old_digits = digits@;
        digits.insert(0, c);
        assert(decimal(m as nat) == decimal((m / 10) as nat).push(c));
        assert(digits@ =~= seq![c] + old_digits);
        assert(decimal(m as nat) + old_digits =~= decimal((m / 10) as nat) + digits@);
        m = m / 10;
    }
}

/// The decimal text of `n`, zero-padded to at least `width` characters.
pub fn padded_decimal(n: u64, width: usize) -> (r: String)
    ensures
        r@ == zero_padded(decimal(n as nat), width as nat),
{
    let d = decimal_str(n);
    let dc = chars_of(d.as_str());
    if dc.len() >= width {
        return d;
    }
    let mut v: Vec<char> = Vec::new();
    let pad = width - dc.len();
    let mut i: usize = 0;
    while i < pad
        invariant
            i <= pad,
            v@ == Seq::new(i as nat, |k: int| '0'),
        decreases pad - i,
    {
        v.push('0');
        i = i + 1;
        assert(v@ =~= Seq::new(i as nat, |k: int| '0'));
    }
    let mut j: usize = 0;
    let ghost zeros = v@;
    while j < dc.len()
        invariant
            j <= dc.len(),
            v@ == zeros + dc@.take(j as int),
        decreases dc.len() - j,
    {
        v.push(dc[j]);
        j = j + 1;
        assert(v@ =~= zeros + dc@.take(j as int));
    }
    assert(dc@.take(dc.len() as int) =~= dc@);
    string_of(&v)
}

} // verus!
