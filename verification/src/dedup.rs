//! Duplicate suppression across sources: an alert is a duplicate when its
//! exact source key or its fuzzy event/location/time key was seen within the
//! time-to-live.
use vstd::prelude::*;
use vstd::multiset::Multiset;
use vstd::relations::{sorted_by, total_ordering};
use crate::normalized_alert::{AlertSource, NormalizedAlert};
use crate::text::{
    ascii_lower, chars_of, chars_equal, is_whitespace, join_with, lemma_join_push,
    lemma_leading_word_len_at, lemma_leading_word_len_bound, leading_word_len, push_char, push_str, split_words, to_ascii_lower, whitespace,
};

verus! {

/// Default time-to-live of a dedup entry: six hours.
pub const DEFAULT_DEDUP_TTL_SECS: u64 = 21600;

/// A dedup key: the exact source identity of an alert, or its fuzzy
/// event/location/time identity.
#[derive(Debug, Clone, Hash, PartialEq, Eq)]
pub enum DedupKey {
    ExactSource(String),
    Fuzzy(String),
}

/// The abstract value of a key: whether it is an exact source key, and its
/// text.
pub open spec fn key_view(k: DedupKey) -> (bool, Seq<char>) {
    match k {
        DedupKey::ExactSource(s) => (true, s@),
        DedupKey::Fuzzy(s) => (false, s@),
    }
}

/// The outcome of a dedup check.
#[derive(Debug, Clone, PartialEq, Eq)]
pub struct DedupDecision {
    pub is_duplicate: bool,
    pub key: DedupKey,
}

/// The ASCII lowercase of a character sequence.
pub open spec fn lower_seq(s: Seq<char>) -> Seq<char> {
    s.map_values(|c: char| ascii_lower(c))
}

/// The ASCII-lowercased words of `s` separated by single spaces
/// (`s.trim().to_ascii_lowercase().split_whitespace().join(" ")`).
pub open spec fn normalize_spec(s: Seq<char>) -> Seq<char> {
    join_with(split_words(lower_seq(s)), seq![' '])
}

/// The normalized values separated by commas.
pub open spec fn normalize_list_spec(values: Seq<Seq<char>>) -> Seq<char> {
    join_with(values.map_values(|v: Seq<char>| normalize_spec(v)), seq![','])
}

/// The normalized value, or nothing when absent.
pub open spec fn normalize_option_spec(value: Option<String>) -> Seq<char> {
    match value {
        Some(v) => normalize_spec(v@),
        None => seq![],
    }
}

/// Lexicographic order of character sequences by code point (the order of
/// `String`).
pub open spec fn lex_lt(a: Seq<char>, b: Seq<char>) -> bool
    decreases a.len(),
{
    if b.len() == 0 {
        false
    } else if a.len() == 0 {
        true
    } else if a[0] != b[0] {
        (a[0] as u32) < (b[0] as u32)
    } else {
        lex_lt(a.drop_first(), b.drop_first())
    }
}

/// `x` inserted into `s` before the first element greater than it.
pub open spec fn insert_sorted(s: Seq<Seq<char>>, x: Seq<char>) -> Seq<Seq<char>>
    decreases s.len(),
{
    if s.len() == 0 {
        seq![x]
    } else if lex_lt(x, s[0]) {
        seq![x] + s
    } else {
        seq![s[0]] + insert_sorted(s.drop_first(), x)
    }
}

/// The values in ascending lexicographic order (`sort()` of `String`s).
pub open spec fn sorted_seq(s: Seq<Seq<char>>) -> Seq<Seq<char>>
    decreases s.len(),
{
    if s.len() == 0 {
        seq![]
    } else {
        insert_sorted(sorted_seq(s.drop_last()), s.last())
    }
}

/// The source name used in exact keys.
pub open spec fn source_name(s: AlertSource) -> Seq<char> {
    match s {
        AlertSource::Same => "same"@,
        AlertSource::NwsApi => "nws_api"@,
    }
}

/// The exact source key text: source name, `:`, normalized source id.
pub open spec fn exact_key_text(alert: NormalizedAlert) -> Seq<char> {
    source_name(alert.source) + seq![':'] + normalize_spec(alert.source_id@)
}

/// The fuzzy key text: normalized event, sorted SAME codes, sorted UGC
/// codes, effective time, expiry time and area, separated by `|`.
pub open spec fn fuzzy_key_text(alert: NormalizedAlert) -> Seq<char> {
    join_with(
        seq![
            normalize_spec(alert.event@),
            normalize_list_spec(sorted_seq(views_of(alert.same_codes@))),
            normalize_list_spec(sorted_seq(views_of(alert.ugc_codes@))),
            normalize_option_spec(alert.effective),
            normalize_option_spec(alert.expires),
            normalize_option_spec(alert.area_desc),
        ],
        seq!['|'],
    )
}

proof fn lemma_join_cons(w: Seq<char>, ws: Seq<Seq<char>>, sep: Seq<char>)
    ensures
        join_with(seq![w] + ws, sep) == w + (if ws.len() > 0 {
            sep + join_with(ws, sep)
        } else {
            seq![]
        }),
{
    let p = seq![w] + ws;
    assert(p[0] == w);
    if ws.len() > 0 {
        assert(p.drop_first() =~= ws);
    } else {
        assert(w + seq![] =~= w);
    }
}

proof fn lemma_words_skip_space(s: Seq<char>, i: int)
    requires
        0 <= i < s.len(),
        is_whitespace(s[i]),
    ensures
        split_words(s.skip(i)) == split_words(s.skip(i + 1)),
{
    assert(s.skip(i)[0] == s[i]);
    assert(s.skip(i).drop_first() =~= s.skip(i + 1));
}

proof fn lemma_words_skip_word(s: Seq<char>, i: int, j: int)
    requires
        0 <= i < j <= s.len(),
        forall|k: int| i <= k < j ==> !is_whitespace(#[trigger] s[k]),
        j == s.len() || is_whitespace(s[j]),
    ensures
        split_words(s.skip(i)) == seq![s.subrange(i, j)] + split_words(s.skip(j)),
{
    let t = s.skip(i);
    assert forall|k: int| 0 <= k < j - i implies !is_whitespace(#[trigger] t[k]) by {
        assert(t[k] == s[i + k]);
    }
    if j < s.len() {
        assert(t[j - i] == s[j]);
    }
    lemma_leading_word_len_at(t, j - i);
    assert(t[0] == s[i]);
    assert(t.take(j - i) =~= s.subrange(i, j));
    assert(t.skip(j - i) =~= s.skip(j));
}

/// The remaining output of a normalization that has produced `first`
/// words so far, given the words still to come.
spec fn rest_of(ws: Seq<Seq<char>>, first: bool) -> Seq<char> {
    if first {
        join_with(ws, seq![' '])
    } else if ws.len() > 0 {
        seq![' '] + join_with(ws, seq![' '])
    } else {
        seq![]
    }
}

/// Normalizes text for dedup keys: ASCII lowercase, whitespace runs
/// collapsed to one space, no leading or trailing whitespace.
pub fn normalize_text(value: &str) -> (r: String)
    ensures
        r@ == normalize_spec(value@),
{
    let raw = chars_of(value);
    let mut cs: Vec<char> = Vec::new();
    let mut p: usize = 0;
    while p < raw.len()
        invariant
            raw@ == value@,
            p <= raw@.len(),
            cs@ == lower_seq(raw@).take(p as int),
        decreases raw@.len() - p,
    {
        cs.push(to_ascii_lower(raw[p]));
        assert(cs@ =~= lower_seq(raw@).take(p + 1));
        p = p + 1;
    }
    assert(cs@ =~= lower_seq(value@));
    let ghost s = cs@;
    let n = cs.len();
    let mut out = String::new();
    let mut first = true;
    let mut i: usize = 0;
    assert(s.skip(0) =~= s);
    while i < n
        invariant
            cs@ == s,
            n == s.len(),
            i <= n,
            normalize_spec(value@) == join_with(split_words(s), seq![' ']),
            s == lower_seq(value@),
            join_with(split_words(s), seq![' ']) == out@ + rest_of(split_words(s.skip(i as int)), first),
        decreases n - i,
    {
        if whitespace(cs[i]) {
            proof {
                lemma_words_skip_space(s, i as int);
            }
            i = i + 1;
        } else {
            let mut j = i;
            while j < n && !whitespace(cs[j])
                invariant
                    cs@ == s,
                    n == s.len(),
                    i <= j <= n,
                    forall|k: int| i <= k < j ==> !is_whitespace(#[trigger] s[k]),
                decreases n - j,
            {
                j = j + 1;
            }
            let ghost rest_words = split_words(s.skip(j as int));
            let ghost w = s.subrange(i as int, j as int);
            proof {
                lemma_words_skip_word(s, i as int, j as int);
                lemma_join_cons(w, rest_words, seq![' ']);
            }
            let ghost before = out@;
            if !first {
                push_char(&mut out, ' ');
            }
            let mut k = i;
            while k < j
                invariant
                    cs@ == s,
                    i <= k <= j <= n == s.len(),
                    out@ == before + (if first { seq![] } else { seq![' '] }) + s.subrange(
                        i as int,
                        k as int,
                    ),
                decreases j - k,
            {
                push_char(&mut out, cs[k]);
                assert(s.subrange(i as int, k + 1) =~= s.subrange(i as int, k as int).push(s[k as int]));
                k = k + 1;
            }
            proof {
                assert(out@ =~= before + (if first { seq![] } else { seq![' '] }) + w);
            }
            first = false;
            i = j;
        }
    }
    proof {
        assert(s.skip(n as int) =~= Seq::<char>::empty());
        assert(split_words(s.skip(n as int)) == Seq::<Seq<char>>::empty());
        assert(out@ =~= out@ + rest_of(split_words(s.skip(n as int)), first));
    }
    out
}

/// Whether `a` sorts strictly before `b`.
pub fn string_lt(a: &str, b: &str) -> (r: bool)
    ensures
        r == lex_lt(a@, b@),
{
    let x = chars_of(a);
    let y = chars_of(b);
    let mut i: usize = 0;
    assert(a@.skip(0) =~= a@);
    assert(b@.skip(0) =~= b@);
    loop
        invariant
            x@ == a@,
            y@ == b@,
            i <= x@.len(),
            i <= y@.len(),
            lex_lt(a@, b@) == lex_lt(a@.skip(i as int), b@.skip(i as int)),
        decreases x@.len() - i,
    {
        if i == y.len() {
            assert(b@.skip(i as int).len() == 0);
            return false;
        }
        if i == x.len() {
            assert(a@.skip(i as int).len() == 0);
            return true;
        }
        assert(a@.skip(i as int)[0] == x@[i as int]);
        assert(b@.skip(i as int)[0] == y@[i as int]);
        if x[i] != y[i] {
            return (x[i] as u32) < (y[i] as u32);
        }
        assert(a@.skip(i as int).drop_first() =~= a@.skip(i + 1));
        assert(b@.skip(i as int).drop_first() =~= b@.skip(i + 1));
        i = i + 1;
    }
}

proof fn lemma_insert_at(s: Seq<Seq<char>>, x: Seq<char>, p: int)
    requires
        0 <= p <= s.len(),
        forall|q: int| 0 <= q < p ==> !lex_lt(x, #[trigger] s[q]),
        p == s.len() || lex_lt(x, s[p]),
    ensures
        insert_sorted(s, x) == s.take(p) + seq![x] + s.skip(p),
    decreases p,
{
    if s.len() == 0 {
        assert(s.take(p) + seq![x] + s.skip(p) =~= seq![x]);
    } else if p == 0 {
        assert(s.take(0) + seq![x] + s.skip(0) =~= seq![x] + s);
    } else {
        assert(!lex_lt(x, s[0]));
        let t = s.drop_first();
        assert forall|q: int| 0 <= q < p - 1 implies !lex_lt(x, #[trigger] t[q]) by {
            assert(t[q] == s[q + 1]);
        }
        if p < s.len() {
            assert(t[p - 1] == s[p]);
        }
        lemma_insert_at(t, x, p - 1);
        assert(seq![s[0]] + (t.take(p - 1) + seq![x] + t.skip(p - 1)) =~= s.take(p) + seq![x]
            + s.skip(p));
    }
}

/// The views of a sequence of strings.
pub open spec fn views_of(v: Seq<String>) -> Seq<Seq<char>> {
    v.map_values(|x: String| x@)
}

/// The strings in ascending order.
pub fn sort_strings(v: &Vec<String>) -> (r: Vec<String>)
    ensures
        views_of(r@) == sorted_seq(views_of(v@)),
{
    let mut out: Vec<String> = Vec::new();
    let mut i: usize = 0;
    assert(views_of(v@).take(0) =~= Seq::<Seq<char>>::empty());
    while i < v.len()
        invariant
            i <= v@.len(),
            views_of(out@) == sorted_seq(views_of(v@).take(i as int)),
        decreases v@.len() - i,
    {
        let x = &v[i];
        let mut p: usize = 0;
        while p < out.len() && !string_lt(x.as_str(), out[p].as_str())
            invariant
                p <= out@.len(),
                forall|q: int| 0 <= q < p ==> !lex_lt(x@, #[trigger] views_of(out@)[q]),
            decreases out@.len() - p,
        {
            p = p + 1;
        }
        proof {
            lemma_insert_at(views_of(out@), x@, p as int);
            assert(views_of(v@).take(i + 1).drop_last() =~= views_of(v@).take(i as int));
            assert(views_of(v@).take(i + 1).last() == x@);
        }
        let ghost before = out@;
        out.insert(p, x.clone());
        proof {
            assert(views_of(out@) =~= views_of(before).take(p as int) + seq![x@] + views_of(before).skip(
                p as int,
            ));
        }
        i = i + 1;
    }
    assert(views_of(v@).take(v@.len() as int) =~= views_of(v@));
    out
}

/// The normalized values separated by commas.
pub fn normalize_list(values: &Vec<String>) -> (r: String)
    ensures
        r@ == normalize_list_spec(views_of(values@)),
{
    let ghost parts = views_of(values@).map_values(|v: Seq<char>| normalize_spec(v));
    let mut out = String::new();
    let mut i: usize = 0;
    assert(parts.take(0) =~= Seq::<Seq<char>>::empty());
    while i < values.len()
        invariant
            i <= values@.len(),
            parts == views_of(values@).map_values(|v: Seq<char>| normalize_spec(v)),
            out@ == join_with(parts.take(i as int), seq![',']),
        decreases values@.len() - i,
    {
        let ghost before = out@;
        if i > 0 {
            push_char(&mut out, ',');
        }
        let piece = normalize_text(values[i].as_str());
        push_str(&mut out, piece.as_str());
        proof {
            assert(parts[i as int] == normalize_spec(values@[i as int]@));
            assert(parts.take(i + 1) =~= parts.take(i as int).push(parts[i as int]));
            if i > 0 {
                lemma_join_push(parts.take(i as int), parts[i as int], seq![',']);
            } else {
                assert(parts.take(1) =~= seq![parts[0]]);
            }
            assert(out@ =~= join_with(parts.take(i + 1), seq![',']));
        }
        i = i + 1;
    }
    assert(parts.take(values@.len() as int) =~= parts);
    out
}

/// The normalized value, or nothing when absent.
pub fn normalize_option(value: &Option<String>) -> (r: String)
    ensures
        r@ == normalize_option_spec(*value),
{
    match value {
        Some(v) => normalize_text(v.as_str()),
        None => String::new(),
    }
}

proof fn lemma_join6(
    a: Seq<char>,
    b: Seq<char>,
    c: Seq<char>,
    d: Seq<char>,
    e: Seq<char>,
    f: Seq<char>,
    sep: Seq<char>,
)
    ensures
        join_with(seq![a, b, c, d, e, f], sep) == a + sep + b + sep + c + sep + d + sep + e + sep + f,
{
    assert(join_with(seq![a], sep) == a);
    lemma_join_push(seq![a], b, sep);
    assert(seq![a].push(b) =~= seq![a, b]);
    lemma_join_push(seq![a, b], c, sep);
    assert(seq![a, b].push(c) =~= seq![a, b, c]);
    lemma_join_push(seq![a, b, c], d, sep);
    assert(seq![a, b, c].push(d) =~= seq![a, b, c, d]);
    lemma_join_push(seq![a, b, c, d], e, sep);
    assert(seq![a, b, c, d].push(e) =~= seq![a, b, c, d, e]);
    lemma_join_push(seq![a, b, c, d, e], f, sep);
    assert(seq![a, b, c, d, e].push(f) =~= seq![a, b, c, d, e, f]);
}

impl DedupKey {
    /// The exact source key of an alert.
    pub fn exact_source(alert: &NormalizedAlert) -> (k: Self)
        ensures
            key_view(k) == (true, exact_key_text(*alert)),
    {
        let mut text = String::new();
        match alert.source {
            AlertSource::Same => push_str(&mut text, "same"),
            AlertSource::NwsApi => push_str(&mut text, "nws_api"),
        }
        push_char(&mut text, ':');
        let id = normalize_text(alert.source_id.as_str());
        push_str(&mut text, id.as_str());
        assert(text@ =~= exact_key_text(*alert));
        DedupKey::ExactSource(text)
    }

    /// The fuzzy key of an alert.
    pub fn fuzzy(alert: &NormalizedAlert) -> (k: Self)
        ensures
            key_view(k) == (false, fuzzy_key_text(*alert)),
    {
        let same_codes = sort_strings(&alert.same_codes);
        let ugc_codes = sort_strings(&alert.ugc_codes);
        let a = normalize_text(alert.event.as_str());
        let b = normalize_list(&same_codes);
        let c = normalize_list(&ugc_codes);
        let d = normalize_option(&alert.effective);
        let e = normalize_option(&alert.expires);
        let f = normalize_option(&alert.area_desc);
        let mut text = String::new();
        push_str(&mut text, a.as_str());
        push_char(&mut text, '|');
        push_str(&mut text, b.as_str());
        push_char(&mut text, '|');
        push_str(&mut text, c.as_str());
        push_char(&mut text, '|');
        push_str(&mut text, d.as_str());
        push_char(&mut text, '|');
        push_str(&mut text, e.as_str());
        push_char(&mut text, '|');
        push_str(&mut text, f.as_str());
        proof {
            assert(views_of(alert.same_codes@) == alert.same_codes@.map_values(|x: String| x@));
            assert(views_of(alert.ugc_codes@) == alert.ugc_codes@.map_values(|x: String| x@));
            lemma_join6(a@, b@, c@, d@, e@, f@, seq!['|']);
            assert(text@ =~= a@ + seq!['|'] + b@ + seq!['|'] + c@ + seq!['|'] + d@ + seq!['|'] + e@
                + seq!['|'] + f@);
        }
        DedupKey::Fuzzy(text)
    }
}

/// A copy of a key.
fn copy_key(k: &DedupKey) -> (r: DedupKey)
    ensures
        key_view(r) == key_view(*k),
{
    match k {
        DedupKey::ExactSource(s) => DedupKey::ExactSource(s.clone()),
        DedupKey::Fuzzy(s) => DedupKey::Fuzzy(s.clone()),
    }
}

/// Whether two keys are equal.
fn same_key(a: &DedupKey, b: &DedupKey) -> (r: bool)
    ensures
        r == (key_view(*a) == key_view(*b)),
{
    match (a, b) {
        (DedupKey::ExactSource(x), DedupKey::ExactSource(y)) => chars_equal(x.as_str(), y.as_str()),
        (DedupKey::Fuzzy(x), DedupKey::Fuzzy(y)) => chars_equal(x.as_str(), y.as_str()),
        _ => false,
    }
}

/// An entry seen at `seen` is still live at `now`: at most `ttl` seconds
/// old (a time before `seen` counts as age 0).
pub open spec fn is_live(seen: u64, now: u64, ttl: u64) -> bool {
    (if now >= seen {
        now - seen
    } else {
        0
    }) <= ttl
}

/// The live entries, in order.
pub open spec fn live_entries(entries: Seq<((bool, Seq<char>), u64)>, now: u64, ttl: u64) -> Seq<
    ((bool, Seq<char>), u64),
>
    decreases entries.len(),
{
    if entries.len() == 0 {
        seq![]
    } else {
        live_entries(entries.drop_last(), now, ttl) + if is_live(entries.last().1, now, ttl) {
            seq![entries.last()]
        } else {
            seq![]
        }
    }
}

/// Whether some entry has key `k`.
pub open spec fn has_key(entries: Seq<((bool, Seq<char>), u64)>, k: (bool, Seq<char>)) -> bool {
    exists|i: int| 0 <= i < entries.len() && #[trigger] entries[i].0 == k
}

/// One check of the deduplicator on entries `entries`, for an alert with
/// exact source key text `exact` and fuzzy key text `fuzzy` at `now`:
/// whether it is a duplicate, and the entries after it.
pub open spec fn keyed_step(
    entries: Seq<((bool, Seq<char>), u64)>,
    ttl: u64,
    exact: Seq<char>,
    fuzzy: Seq<char>,
    now: u64,
) -> (bool, Seq<((bool, Seq<char>), u64)>) {
    let live = live_entries(entries, now, ttl);
    let dup = has_key(live, (true, exact)) || has_key(live, (false, fuzzy));
    (dup, if dup {
        live
    } else {
        live.push(((true, exact), now)).push(((false, fuzzy), now))
    })
}

/// One check of the deduplicator on entries `entries`: whether `alert` at
/// `now` is a duplicate, and the entries after it (see `check_and_record`).
pub open spec fn gate_step(
    entries: Seq<((bool, Seq<char>), u64)>,
    ttl: u64,
    alert: NormalizedAlert,
    now: u64,
) -> (bool, Seq<((bool, Seq<char>), u64)>) {
    keyed_step(entries, ttl, exact_key_text(alert), fuzzy_key_text(alert), now)
}

/// A series of checks `calls` (alert and time) on a new deduplicator: the
/// decision of each, and the entries after the last.
pub open spec fn gate_run(ttl: u64, calls: Seq<(NormalizedAlert, u64)>) -> (Seq<bool>, Seq<((bool, Seq<char>), u64)>)
    decreases calls.len(),
{
    if calls.len() == 0 {
        (seq![], seq![])
    } else {
        let prev = gate_run(ttl, calls.drop_last());
        let step = gate_step(prev.1, ttl, calls.last().0, calls.last().1);
        (prev.0.push(step.0), step.1)
    }
}

/// Check `k` of `calls` is suppressed by an earlier check: one that was not
/// a duplicate, at most `ttl` seconds before, with the same exact source key
/// or the same fuzzy key.
pub open spec fn suppressed_by_earlier(calls: Seq<(NormalizedAlert, u64)>, decisions: Seq<bool>, ttl: u64, k: int) -> bool {
    exists|j: int|
        #![trigger decisions[j], calls[j]]
        0 <= j < k && !decisions[j] && is_live(calls[j].1, calls[k].1, ttl) && (exact_key_text(calls[j].0)
            == exact_key_text(calls[k].0) || fuzzy_key_text(calls[j].0) == fuzzy_key_text(calls[k].0))
}

/// The checks as exact key text, fuzzy key text and time.
pub open spec fn keyed_calls(calls: Seq<(NormalizedAlert, u64)>) -> Seq<(Seq<char>, Seq<char>, u64)> {
    calls.map_values(|c: (NormalizedAlert, u64)| (exact_key_text(c.0), fuzzy_key_text(c.0), c.1))
}

/// `gate_run` over keyed checks.
pub open spec fn keyed_run(ttl: u64, calls: Seq<(Seq<char>, Seq<char>, u64)>) -> (Seq<bool>, Seq<((bool, Seq<char>), u64)>)
    decreases calls.len(),
{
    if calls.len() == 0 {
        (seq![], seq![])
    } else {
        let prev = keyed_run(ttl, calls.drop_last());
        let step = keyed_step(prev.1, ttl, calls.last().0, calls.last().1, calls.last().2);
        (prev.0.push(step.0), step.1)
    }
}

/// `suppressed_by_earlier` over keyed checks.
pub open spec fn keyed_suppressed(calls: Seq<(Seq<char>, Seq<char>, u64)>, decisions: Seq<bool>, ttl: u64, k: int) -> bool {
    exists|j: int|
        #![trigger decisions[j], calls[j]]
        0 <= j < k && !decisions[j] && is_live(calls[j].2, calls[k].2, ttl) && (calls[j].0 == calls[k].0
            || calls[j].1 == calls[k].1)
}

/// Remembers recently seen alerts by key, for a time-to-live.
pub struct DedupGate {
    ttl_secs: u64,
    entries: Vec<(DedupKey, u64)>,
}

impl DedupGate {
    /// The time-to-live of entries, in seconds.
    pub closed spec fn ttl(&self) -> u64 {
        self.ttl_secs
    }

    /// The remembered keys with the time each was recorded, in recording
    /// order.
    pub closed spec fn entries_view(&self) -> Seq<((bool, Seq<char>), u64)> {
        self.entries@.map_values(|e: (DedupKey, u64)| (key_view(e.0), e.1))
    }

    /// An empty gate with the given time-to-live.
    pub fn new(ttl_secs: u64) -> (g: Self)
        ensures
            g.ttl() == ttl_secs,
            g.entries_view().len() == 0,
    {
        let g = Self { ttl_secs, entries: Vec::new() };
        assert(g.entries_view() =~= Seq::<((bool, Seq<char>), u64)>::empty());
        g
    }

    fn prune_expired(&mut self, now_unix_secs: u64)
        ensures
            final(self).ttl() == old(self).ttl(),
            final(self).entries_view() == live_entries(old(self).entries_view(), now_unix_secs, old(self).ttl()),
    {
        let ghost pre = self.entries_view();
        let mut kept: Vec<(DedupKey, u64)> = Vec::new();
        let mut i: usize = 0;
        let ttl = self.ttl_secs;
        while i < self.entries.len()
            invariant
                pre == self.entries@.map_values(|e: (DedupKey, u64)| (key_view(e.0), e.1)),
                ttl == self.ttl_secs,
                i <= self.entries@.len(),
                kept@.map_values(|e: (DedupKey, u64)| (key_view(e.0), e.1)) == live_entries(
                    pre.take(i as int),
                    now_unix_secs,
                    ttl,
                ),
            decreases self.entries@.len() - i,
        {
            let seen = self.entries[i].1;
            let ghost before = kept@;
            proof {
                assert(pre.take(i + 1).drop_last() =~= pre.take(i as int));
                assert(pre.take(i + 1).last() == pre[i as int]);
            }
            if now_unix_secs.saturating_sub(seen) <= ttl {
                let k = copy_key(&self.entries[i].0);
                kept.push((k, seen));
                assert(kept@.map_values(|e: (DedupKey, u64)| (key_view(e.0), e.1)) =~= before.map_values(
                    |e: (DedupKey, u64)| (key_view(e.0), e.1),
                ).push(pre[i as int]));
            } else {
                assert(live_entries(pre.take(i + 1), now_unix_secs, ttl) =~= live_entries(
                    pre.take(i as int),
                    now_unix_secs,
                    ttl,
                ));
            }
            i = i + 1;
        }
        assert(pre.take(self.entries@.len() as int) =~= pre);
        self.entries = kept;
    }

    fn contains_key(&self, key: &DedupKey) -> (r: bool)
        ensures
            r == has_key(self.entries_view(), key_view(*key)),
    {
        let mut i: usize = 0;
        while i < self.entries.len()
            invariant
                i <= self.entries@.len(),
                forall|q: int| 0 <= q < i ==> #[trigger] self.entries_view()[q].0 != key_view(*key),
            decreases self.entries@.len() - i,
        {
            if same_key(&self.entries[i].0, key) {
                assert(self.entries_view()[i as int].0 == key_view(*key));
                return true;
            }
            i = i + 1;
        }
        false
    }

    /// Drops expired entries, then decides whether `alert` is a duplicate:
    /// whether its exact or fuzzy key is among the live entries. A new alert
    /// has both keys recorded at `now_unix_secs`; a duplicate records
    /// nothing. The decision carries the fuzzy key.
    pub fn check_and_record(&mut self, alert: &NormalizedAlert, now_unix_secs: u64) -> (d: DedupDecision)
        ensures
            final(self).ttl() == old(self).ttl(),
            ({
                let live = live_entries(old(self).entries_view(), now_unix_secs, old(self).ttl());
                let exact = (true, exact_key_text(*alert));
                let fuzzy = (false, fuzzy_key_text(*alert));
                &&& d.is_duplicate == (has_key(live, exact) || has_key(live, fuzzy))
                &&& key_view(d.key) == fuzzy
                &&& final(self).entries_view() == if d.is_duplicate {
                    live
                } else {
                    live.push((exact, now_unix_secs)).push((fuzzy, now_unix_secs))
                }
            }),
            (d.is_duplicate, final(self).entries_view()) == gate_step(
                old(self).entries_view(),
                old(self).ttl(),
                *alert,
                now_unix_secs,
            ),
    {
        self.prune_expired(now_unix_secs);
        let exact_key = DedupKey::exact_source(alert);
        let fuzzy_key = DedupKey::fuzzy(alert);
        let is_duplicate = self.contains_key(&exact_key) || self.contains_key(&fuzzy_key);
        if !is_duplicate {
            let ghost before = self.entries@;
            let fz = copy_key(&fuzzy_key);
            self.entries.push((exact_key, now_unix_secs));
            self.entries.push((fz, now_unix_secs));
            assert(self.entries_view() =~= before.map_values(
                |e: (DedupKey, u64)| (key_view(e.0), e.1),
            ).push((key_view(exact_key), now_unix_secs)).push((key_view(fuzzy_key), now_unix_secs)));
        }
        DedupDecision { is_duplicate, key: fuzzy_key }
    }
}

impl Default for DedupGate {
    /// An empty gate with the default time-to-live.
    fn default() -> (g: Self)
        ensures
            g.ttl() == DEFAULT_DEDUP_TTL_SECS,
            g.entries_view().len() == 0,
    {
        Self::new(DEFAULT_DEDUP_TTL_SECS)
    }
}

proof fn lemma_live_entries_member(entries: Seq<((bool, Seq<char>), u64)>, now: u64, ttl: u64, k: (bool, Seq<char>))
    ensures
        has_key(live_entries(entries, now, ttl), k) ==> exists|i: int|
            0 <= i < entries.len() && #[trigger] entries[i].0 == k && is_live(entries[i].1, now, ttl),
    decreases entries.len(),
{
    if entries.len() > 0 {
        let init = entries.drop_last();
        lemma_live_entries_member(init, now, ttl, k);
        let live = live_entries(entries, now, ttl);
        let live_init = live_entries(init, now, ttl);
        if has_key(live, k) {
            let i = choose|i: int| 0 <= i < live.len() && #[trigger] live[i].0 == k;
            if i < live_init.len() {
                assert(live[i] == live_init[i]);
                assert(has_key(live_init, k));
                let j = choose|j: int|
                    0 <= j < init.len() && #[trigger] init[j].0 == k && is_live(init[j].1, now, ttl);
                assert(entries[j] == init[j]);
            } else {
                assert(live[i] == entries.last());
                assert(entries[entries.len() - 1].0 == k);
            }
        }
    }
}

proof fn lemma_ascii_lower_idempotent(c: char)
    ensures
        ascii_lower(ascii_lower(c)) == ascii_lower(c),
{
    if 'A' <= c <= 'Z' {
        let u = (c as u32) + 32;
        assert(97 <= u <= 122);
        assert((u as char) as u32 == u);
    }
}

/// Law: the normalized text of the fuzzy key's fields ignores ASCII case and
/// leading whitespace: lowercasing the text first, or putting a whitespace
/// character before it, changes nothing.
pub proof fn law_normalized_text_ignores_case_and_spacing(s: Seq<char>, w: char)
    requires
        is_whitespace(w),
    ensures
        normalize_spec(lower_seq(s)) == normalize_spec(s),
        normalize_spec(seq![w] + s) == normalize_spec(s),
{
    assert forall|i: int| 0 <= i < s.len() implies #[trigger] lower_seq(lower_seq(s))[i] == lower_seq(s)[i] by {
        lemma_ascii_lower_idempotent(s[i]);
    }
    assert(lower_seq(lower_seq(s)) =~= lower_seq(s));
    assert(!('A' <= w <= 'Z'));
    let t = lower_seq(seq![w] + s);
    assert(t =~= seq![w] + lower_seq(s));
    assert(t.drop_first() =~= lower_seq(s));
}

proof fn lemma_live_entries_contains(entries: Seq<((bool, Seq<char>), u64)>, now: u64, ttl: u64)
    ensures
        forall|x: ((bool, Seq<char>), u64)|
            #[trigger] live_entries(entries, now, ttl).contains(x) <==> entries.contains(x) && is_live(
                x.1,
                now,
                ttl,
            ),
    decreases entries.len(),
{
    if entries.len() > 0 {
        let init = entries.drop_last();
        lemma_live_entries_contains(init, now, ttl);
        let li = live_entries(init, now, ttl);
        let tail: Seq<((bool, Seq<char>), u64)> = if is_live(entries.last().1, now, ttl) {
            seq![entries.last()]
        } else {
            seq![]
        };
        let l = live_entries(entries, now, ttl);
        assert(l == li + tail);
        assert forall|x: ((bool, Seq<char>), u64)| #[trigger] l.contains(x) <==> entries.contains(x) && is_live(
            x.1,
            now,
            ttl,
        ) by {
            if l.contains(x) {
                let i = choose|i: int| 0 <= i < l.len() && l[i] == x;
                if i < li.len() {
                    assert(l[i] == li[i]);
                    assert(li.contains(x));
                    let q = choose|q: int| 0 <= q < init.len() && init[q] == x;
                    assert(entries[q] == x);
                } else {
                    assert(l[i] == tail[i - li.len()]);
                    assert(entries[entries.len() - 1] == x);
                }
            }
            if entries.contains(x) && is_live(x.1, now, ttl) {
                let q = choose|q: int| 0 <= q < entries.len() && entries[q] == x;
                if q < entries.len() - 1 {
                    assert(init[q] == x);
                    assert(init.contains(x));
                    assert(li.contains(x));
                    let i = choose|i: int| 0 <= i < li.len() && li[i] == x;
                    assert(l[i] == x);
                } else {
                    assert(l[li.len() as int] == x);
                }
            }
        }
    }
}

proof fn lemma_has_key_contains(entries: Seq<((bool, Seq<char>), u64)>, k: (bool, Seq<char>))
    ensures
        has_key(entries, k) <==> exists|x: ((bool, Seq<char>), u64)| #[trigger] entries.contains(x) && x.0 == k,
{
    if has_key(entries, k) {
        let i = choose|i: int| 0 <= i < entries.len() && #[trigger] entries[i].0 == k;
        assert(entries.contains(entries[i]));
    }
    if exists|x: ((bool, Seq<char>), u64)| #[trigger] entries.contains(x) && x.0 == k {
        let x = choose|x: ((bool, Seq<char>), u64)| #[trigger] entries.contains(x) && x.0 == k;
        let i = choose|i: int| 0 <= i < entries.len() && entries[i] == x;
        assert(entries[i].0 == k);
    }
}

/// The entries `e` after the checks `calls` with decisions `d` come from
/// checks that were not duplicates, and hold both keys of every such check
/// still live at the time of the last check.
pub open spec fn keyed_entries_from(calls: Seq<(Seq<char>, Seq<char>, u64)>, d: Seq<bool>, e: Seq<((bool, Seq<char>), u64)>, ttl: u64) -> bool {
    &&& forall|x: ((bool, Seq<char>), u64)|
        #[trigger] e.contains(x) ==> exists|j: int|
            #![trigger calls[j]]
            0 <= j < calls.len() && !d[j] && (x == ((true, calls[j].0), calls[j].2) || x == (
                (false, calls[j].1),
                calls[j].2,
            ))
    &&& calls.len() > 0 ==> forall|j: int|
        #![trigger calls[j]]
        0 <= j < calls.len() && !d[j] && is_live(calls[j].2, calls.last().2, ttl) ==> e.contains(
            ((true, calls[j].0), calls[j].2),
        ) && e.contains(((false, calls[j].1), calls[j].2))
}

/// Times that never go back.
pub open spec fn keyed_times_ordered(calls: Seq<(Seq<char>, Seq<char>, u64)>) -> bool {
    forall|i: int, j: int| 0 <= i <= j < calls.len() ==> #[trigger] calls[i].2 <= #[trigger] calls[j].2
}

/// The decision of the last of `calls`, after the earlier ones left
/// decisions `d0` and entries `e0`.
proof fn lemma_gate_last_decision(ttl: u64, calls: Seq<(Seq<char>, Seq<char>, u64)>, d0: Seq<bool>, e0: Seq<((bool, Seq<char>), u64)>)
    requires
        calls.len() > 0,
        keyed_times_ordered(calls),
        d0.len() == calls.len() - 1,
        keyed_entries_from(calls.drop_last(), d0, e0, ttl),
    ensures
        keyed_step(e0, ttl, calls.last().0, calls.last().1, calls.last().2).0 <==> keyed_suppressed(
            calls,
            d0.push(keyed_step(e0, ttl, calls.last().0, calls.last().1, calls.last().2).0),
            ttl,
            calls.len() - 1,
        ),
{
    let n = calls.len() - 1;
    let pc = calls.drop_last();
    let (xa, fa, t) = calls.last();
    let live = live_entries(e0, t, ttl);
    lemma_live_entries_contains(e0, t, ttl);
    let exact = (true, xa);
    let fuzzy = (false, fa);
    lemma_has_key_contains(live, exact);
    lemma_has_key_contains(live, fuzzy);
    let dup = has_key(live, exact) || has_key(live, fuzzy);
    let d1 = d0.push(dup);
    assert(calls[n] == (xa, fa, t));
    if dup {
        let k = if has_key(live, exact) { exact } else { fuzzy };
        let x = choose|x: ((bool, Seq<char>), u64)| #[trigger] live.contains(x) && x.0 == k;
        assert(e0.contains(x));
        let j = choose|j: int|
            #![trigger pc[j]]
            0 <= j < pc.len() && !d0[j] && (x == ((true, pc[j].0), pc[j].2) || x == (
                (false, pc[j].1),
                pc[j].2,
            ));
        assert(calls[j] == pc[j]);
        assert(d1[j] == d0[j]);
        assert(keyed_suppressed(calls, d1, ttl, n));
    }
    if keyed_suppressed(calls, d1, ttl, n) {
        let j = choose|j: int|
            #![trigger d1[j], calls[j]]
            0 <= j < n && !d1[j] && is_live(calls[j].2, calls[n].2, ttl) && (calls[j].0
                == calls[n].0 || calls[j].1 == calls[n].1);
        assert(pc[j] == calls[j]);
        assert(d1[j] == d0[j]);
        assert(pc.last() == calls[n - 1]);
        assert(calls[j].2 <= calls[n - 1].2 && calls[n - 1].2 <= t);
        assert(is_live(pc[j].2, pc.last().2, ttl));
        let xe = ((true, calls[j].0), calls[j].2);
        let xf = ((false, calls[j].1), calls[j].2);
        assert(e0.contains(xe) && e0.contains(xf));
        assert(live.contains(xe) && live.contains(xf));
    }
}

/// The decisions of the earlier checks keep their characterization once
/// one more decision is added.
proof fn lemma_gate_earlier_decisions(ttl: u64, calls: Seq<(Seq<char>, Seq<char>, u64)>, d0: Seq<bool>, dup: bool)
    requires
        calls.len() > 0,
        d0.len() == calls.len() - 1,
        forall|k: int|
            0 <= k < calls.len() - 1 ==> (#[trigger] d0[k] <==> keyed_suppressed(calls.drop_last(), d0, ttl, k)),
    ensures
        forall|k: int|
            0 <= k < calls.len() - 1 ==> (#[trigger] d0.push(dup)[k] <==> keyed_suppressed(calls, d0.push(dup), ttl, k)),
{
    let pc = calls.drop_last();
    let d1 = d0.push(dup);
    assert forall|k: int| 0 <= k < calls.len() - 1 implies (#[trigger] d1[k] <==> keyed_suppressed(
        calls,
        d1,
        ttl,
        k,
    )) by {
        assert(d1[k] == d0[k]);
        assert(d0[k] <==> keyed_suppressed(pc, d0, ttl, k));
        if keyed_suppressed(pc, d0, ttl, k) {
            let j = choose|j: int|
                #![trigger d0[j], pc[j]]
                0 <= j < k && !d0[j] && is_live(pc[j].2, pc[k].2, ttl) && (pc[j].0
                    == pc[k].0 || pc[j].1 == pc[k].1);
            assert(d1[j] == d0[j] && calls[j] == pc[j] && calls[k] == pc[k]);
        }
        if keyed_suppressed(calls, d1, ttl, k) {
            let j = choose|j: int|
                #![trigger d1[j], calls[j]]
                0 <= j < k && !d1[j] && is_live(calls[j].2, calls[k].2, ttl) && (calls[j].0
                    == calls[k].0 || calls[j].1 == calls[k].1);
            assert(d1[j] == d0[j] && calls[j] == pc[j] && calls[k] == pc[k]);
            assert(keyed_suppressed(pc, d0, ttl, k));
        }
    }
}

/// The entries after the last of `calls` come from checks that were not
/// duplicates and hold those still live.
#[verifier::rlimit(60)]
#[verifier::spinoff_prover]
proof fn lemma_gate_last_entries(ttl: u64, calls: Seq<(Seq<char>, Seq<char>, u64)>, d0: Seq<bool>, e0: Seq<((bool, Seq<char>), u64)>)
    requires
        calls.len() > 0,
        keyed_times_ordered(calls),
        d0.len() == calls.len() - 1,
        keyed_entries_from(calls.drop_last(), d0, e0, ttl),
    ensures
        keyed_entries_from(
            calls,
            d0.push(keyed_step(e0, ttl, calls.last().0, calls.last().1, calls.last().2).0),
            keyed_step(e0, ttl, calls.last().0, calls.last().1, calls.last().2).1,
            ttl,
        ),
{
    let n = calls.len() - 1;
    let pc = calls.drop_last();
    let (xa, fa, t) = calls.last();
    let live = live_entries(e0, t, ttl);
    lemma_live_entries_contains(e0, t, ttl);
    let exact = (true, xa);
    let fuzzy = (false, fa);
    let (dup, e1) = keyed_step(e0, ttl, xa, fa, t);
    let d1 = d0.push(dup);
    assert(calls[n] == (xa, fa, t));
    assert(e1 == if dup { live } else { live.push((exact, t)).push((fuzzy, t)) });
    assert forall|x: ((bool, Seq<char>), u64)| #[trigger] e1.contains(x) implies exists|j: int|
        #![trigger calls[j]]
        0 <= j < calls.len() && !d1[j] && (x == ((true, calls[j].0), calls[j].2) || x == (
            (false, calls[j].1),
            calls[j].2,
        )) by {
        if live.contains(x) {
            assert(e0.contains(x));
            let j = choose|j: int|
                #![trigger pc[j]]
                0 <= j < pc.len() && !d0[j] && (x == ((true, pc[j].0), pc[j].2) || x == (
                    (false, pc[j].1),
                    pc[j].2,
                ));
            assert(calls[j] == pc[j] && d1[j] == d0[j]);
        } else {
            let i = choose|i: int| 0 <= i < e1.len() && e1[i] == x;
            if i < live.len() {
                assert(e1[i] == live[i]);
                assert(live.contains(x));
            }
            assert(d1[n] == dup);
        }
    }
    assert forall|j: int|
        #![trigger calls[j]]
        0 <= j < calls.len() && !d1[j] && is_live(calls[j].2, calls.last().2, ttl) implies e1.contains(
            ((true, calls[j].0), calls[j].2),
        ) && e1.contains(((false, calls[j].1), calls[j].2)) by {
        let xe = ((true, calls[j].0), calls[j].2);
        let xf = ((false, calls[j].1), calls[j].2);
        if j < n {
            assert(calls[j] == pc[j] && d1[j] == d0[j]);
            assert(pc.last() == calls[n - 1]);
            assert(calls[j].2 <= calls[n - 1].2 && calls[n - 1].2 <= t);
            assert(is_live(pc[j].2, pc.last().2, ttl));
            assert(e0.contains(xe) && e0.contains(xf));
            assert(live.contains(xe) && live.contains(xf));
            if !dup {
                let ie = choose|i: int| 0 <= i < live.len() && live[i] == xe;
                let i_f = choose|i: int| 0 <= i < live.len() && live[i] == xf;
                assert(e1[ie] == xe);
                assert(e1[i_f] == xf);
            }
        } else {
            assert(d1[n] == dup);
            assert(e1[live.len() as int] == xe);
            assert(e1[live.len() + 1int] == xf);
        }
    }
}

proof fn lemma_keyed_run(ttl: u64, calls: Seq<(Seq<char>, Seq<char>, u64)>)
    requires
        keyed_times_ordered(calls),
    ensures
        keyed_run(ttl, calls).0.len() == calls.len(),
        forall|k: int|
            0 <= k < calls.len() ==> (#[trigger] keyed_run(ttl, calls).0[k] <==> keyed_suppressed(
                calls,
                keyed_run(ttl, calls).0,
                ttl,
                k,
            )),
        keyed_entries_from(calls, keyed_run(ttl, calls).0, keyed_run(ttl, calls).1, ttl),
    decreases calls.len(),
{
    if calls.len() > 0 {
        let pc = calls.drop_last();
        assert(keyed_times_ordered(pc)) by {
            assert forall|i: int, j: int| 0 <= i <= j < pc.len() implies #[trigger] pc[i].2 <= #[trigger] pc[j].2 by {
                assert(pc[i] == calls[i] && pc[j] == calls[j]);
            }
        }
        lemma_keyed_run(ttl, pc);
        let (d0, e0) = keyed_run(ttl, pc);
        let step = keyed_step(e0, ttl, calls.last().0, calls.last().1, calls.last().2);
        lemma_gate_last_decision(ttl, calls, d0, e0);
        lemma_gate_earlier_decisions(ttl, calls, d0, step.0);
        lemma_gate_last_entries(ttl, calls, d0, e0);
        let d1 = d0.push(step.0);
        assert(keyed_run(ttl, calls) == (d1, step.1));
        assert forall|k: int| 0 <= k < calls.len() implies (#[trigger] d1[k] <==> keyed_suppressed(
            calls,
            d1,
            ttl,
            k,
        )) by {
            if k < calls.len() - 1 {
            }
        }
    }
}

/// Times that never go back.
pub open spec fn times_ordered(calls: Seq<(NormalizedAlert, u64)>) -> bool {
    forall|i: int, j: int| 0 <= i <= j < calls.len() ==> #[trigger] calls[i].1 <= #[trigger] calls[j].1
}

proof fn lemma_keyed_calls(ttl: u64, calls: Seq<(NormalizedAlert, u64)>)
    ensures
        keyed_calls(calls).len() == calls.len(),
        gate_run(ttl, calls) == keyed_run(ttl, keyed_calls(calls)),
        forall|j: int|
            0 <= j < calls.len() ==> #[trigger] keyed_calls(calls)[j] == (
                exact_key_text(calls[j].0),
                fuzzy_key_text(calls[j].0),
                calls[j].1,
            ),
    decreases calls.len(),
{
    if calls.len() > 0 {
        lemma_keyed_calls(ttl, calls.drop_last());
        assert(keyed_calls(calls).drop_last() =~= keyed_calls(calls.drop_last()));
    }
}

/// Law: over a series of checks at times that never go back, a check is a
/// duplicate exactly when an earlier check that was not a duplicate, at
/// most the time-to-live before it, had the same exact source key or the
/// same fuzzy key. Checks found to be duplicates record nothing, so they
/// never extend the suppression window.
pub proof fn law_duplicates_never_extend_suppression(ttl: u64, calls: Seq<(NormalizedAlert, u64)>)
    requires
        times_ordered(calls),
    ensures
        gate_run(ttl, calls).0.len() == calls.len(),
        forall|k: int|
            0 <= k < calls.len() ==> (#[trigger] gate_run(ttl, calls).0[k] <==> suppressed_by_earlier(
                calls,
                gate_run(ttl, calls).0,
                ttl,
                k,
            )),
{
    lemma_keyed_calls(ttl, calls);
    let kc = keyed_calls(calls);
    assert(keyed_times_ordered(kc)) by {
        assert forall|i: int, j: int| 0 <= i <= j < kc.len() implies #[trigger] kc[i].2 <= #[trigger] kc[j].2 by {
            assert(calls[i].1 <= calls[j].1);
        }
    }
    lemma_keyed_run(ttl, kc);
    let d = gate_run(ttl, calls).0;
    assert forall|k: int| 0 <= k < calls.len() implies (#[trigger] d[k] <==> suppressed_by_earlier(calls, d, ttl, k)) by {
        assert(d[k] <==> keyed_suppressed(kc, d, ttl, k));
        if keyed_suppressed(kc, d, ttl, k) {
            let j = choose|j: int|
                #![trigger d[j], kc[j]]
                0 <= j < k && !d[j] && is_live(kc[j].2, kc[k].2, ttl) && (kc[j].0 == kc[k].0 || kc[j].1 == kc[k].1);
            assert(calls[j] == calls[j]);
            assert(suppressed_by_earlier(calls, d, ttl, k));
        }
        if suppressed_by_earlier(calls, d, ttl, k) {
            let j = choose|j: int|
                #![trigger d[j], calls[j]]
                0 <= j < k && !d[j] && is_live(calls[j].1, calls[k].1, ttl) && (exact_key_text(calls[j].0)
                    == exact_key_text(calls[k].0) || fuzzy_key_text(calls[j].0) == fuzzy_key_text(calls[k].0));
            assert(kc[j] == (exact_key_text(calls[j].0), fuzzy_key_text(calls[j].0), calls[j].1));
            assert(keyed_suppressed(kc, d, ttl, k));
        }
    }
}

proof fn lemma_lex_lt_irreflexive(a: Seq<char>)
    ensures
        !lex_lt(a, a),
    decreases a.len(),
{
    if a.len() > 0 {
        lemma_lex_lt_irreflexive(a.drop_first());
    }
}

proof fn lemma_lex_lt_trichotomy(a: Seq<char>, b: Seq<char>)
    ensures
        lex_lt(a, b) ==> !lex_lt(b, a),
        a != b ==> lex_lt(a, b) || lex_lt(b, a),
    decreases a.len(),
{
    if a.len() > 0 && b.len() > 0 && a[0] == b[0] {
        lemma_lex_lt_trichotomy(a.drop_first(), b.drop_first());
        if a.drop_first() == b.drop_first() {
            assert forall|i: int| 0 <= i < a.len() implies a[i] == b[i] by {
                if i > 0 {
                    assert(a[i] == a.drop_first()[i - 1]);
                    assert(b[i] == b.drop_first()[i - 1]);
                }
            }
            assert(a =~= b);
        }
    } else if a.len() > 0 && b.len() > 0 {
        let x = a[0];
        let y = b[0];
        vstd::utf8::char_u32_cast(x, x as u32);
        vstd::utf8::char_u32_cast(y, y as u32);
        assert((x as u32) != (y as u32));
    } else if a.len() == 0 && b.len() == 0 {
        assert(a =~= b);
    }
}

proof fn lemma_lex_lt_transitive(a: Seq<char>, b: Seq<char>, c: Seq<char>)
    requires
        lex_lt(a, b),
        lex_lt(b, c),
    ensures
        lex_lt(a, c),
    decreases a.len(),
{
    if a.len() > 0 && a[0] == b[0] && b[0] == c[0] {
        lemma_lex_lt_transitive(a.drop_first(), b.drop_first(), c.drop_first());
    }
}

/// The order of `String`s, as a relation: `a` comes no later than `b`.
pub open spec fn lex_le_rel() -> spec_fn(Seq<char>, Seq<char>) -> bool {
    |a: Seq<char>, b: Seq<char>| !lex_lt(b, a)
}

proof fn lemma_lex_le_total()
    ensures
        total_ordering(lex_le_rel()),
{
    let r = lex_le_rel();
    assert forall|x: Seq<char>| #[trigger] r(x, x) by {
        lemma_lex_lt_irreflexive(x);
    }
    assert forall|x: Seq<char>, y: Seq<char>| #[trigger] r(x, y) && #[trigger] r(y, x) implies x == y by {
        lemma_lex_lt_trichotomy(x, y);
    }
    assert forall|x: Seq<char>, y: Seq<char>, z: Seq<char>| #[trigger] r(x, y) && #[trigger] r(y, z) implies r(
        x,
        z,
    ) by {
        lemma_lex_lt_trichotomy(x, y);
        if lex_lt(z, x) {
            if x == y {
            } else if lex_lt(x, y) {
                lemma_lex_lt_transitive(z, x, y);
            }
        }
    }
    assert forall|x: Seq<char>, y: Seq<char>| #[trigger] r(x, y) || #[trigger] r(y, x) by {
        lemma_lex_lt_trichotomy(x, y);
    }
}

proof fn lemma_insert_sorted(t: Seq<Seq<char>>, x: Seq<char>)
    ensures
        insert_sorted(t, x).len() == t.len() + 1,
        insert_sorted(t, x).to_multiset() == t.to_multiset().insert(x),
        forall|i: int|
            0 <= i < insert_sorted(t, x).len() ==> #[trigger] insert_sorted(t, x)[i] == x || t.contains(
                insert_sorted(t, x)[i],
            ),
        sorted_by(t, lex_le_rel()) ==> sorted_by(insert_sorted(t, x), lex_le_rel()),
    decreases t.len(),
{
    broadcast use vstd::seq_lib::group_to_multiset_ensures;
    broadcast use vstd::multiset::group_multiset_axioms;

    let r = lex_le_rel();
    let ins = insert_sorted(t, x);
    if t.len() == 0 {
        assert(ins =~= Seq::<Seq<char>>::empty().push(x));
        assert(t =~= Seq::<Seq<char>>::empty());
    } else if lex_lt(x, t[0]) {
        assert(ins == seq![x] + t);
        vstd::seq_lib::lemma_multiset_commutative(seq![x], t);
        assert(seq![x] =~= Seq::<Seq<char>>::empty().push(x));
        assert(seq![x].to_multiset() =~= Multiset::<Seq<char>>::empty().insert(x));
        assert forall|i: int| 0 <= i < ins.len() implies #[trigger] ins[i] == x || t.contains(ins[i]) by {
            if i > 0 {
                assert(ins[i] == t[i - 1]);
            }
        }
        if sorted_by(t, r) {
            assert forall|i: int, j: int| 0 <= i < j < ins.len() implies #[trigger] r(ins[i], ins[j]) by {
                if i == 0 {
                    assert(ins[j] == t[j - 1]);
                    lemma_lex_lt_trichotomy(x, t[0]);
                    if j - 1 > 0 {
                        assert(r(t[0], t[j - 1]));
                    } else {
                        lemma_lex_lt_trichotomy(t[0], t[0]);
                    }
                    if lex_lt(t[j - 1], x) {
                        lemma_lex_lt_transitive(t[j - 1], x, t[0]);
                        lemma_lex_lt_irreflexive(t[0]);
                    }
                } else {
                    assert(ins[i] == t[i - 1] && ins[j] == t[j - 1]);
                }
            }
        }
    } else {
        let rest = t.drop_first();
        lemma_insert_sorted(rest, x);
        let ir = insert_sorted(rest, x);
        assert(ins == seq![t[0]] + ir);
        vstd::seq_lib::lemma_multiset_commutative(seq![t[0]], ir);
        vstd::seq_lib::lemma_multiset_commutative(seq![t[0]], rest);
        assert(t =~= seq![t[0]] + rest);
        assert forall|i: int| 0 <= i < ins.len() implies #[trigger] ins[i] == x || t.contains(ins[i]) by {
            if i == 0 {
                assert(t[0] == ins[0]);
            } else {
                assert(ins[i] == ir[i - 1]);
                if rest.contains(ir[i - 1]) {
                    let k = choose|k: int| 0 <= k < rest.len() && rest[k] == ir[i - 1];
                    assert(t[k + 1] == rest[k]);
                }
            }
        }
        if sorted_by(t, r) {
            assert(sorted_by(rest, r)) by {
                assert forall|i: int, j: int| 0 <= i < j < rest.len() implies #[trigger] r(rest[i], rest[j]) by {
                    assert(rest[i] == t[i + 1] && rest[j] == t[j + 1]);
                }
            }
            assert forall|i: int, j: int| 0 <= i < j < ins.len() implies #[trigger] r(ins[i], ins[j]) by {
                assert(ins[j] == ir[j - 1]);
                if i == 0 {
                    if ir[j - 1] == x {
                    } else {
                        let k = choose|k: int| 0 <= k < rest.len() && rest[k] == ir[j - 1];
                        assert(t[k + 1] == rest[k]);
                        assert(r(t[0], t[k + 1]));
                    }
                } else {
                    assert(ins[i] == ir[i - 1]);
                }
            }
        }
    }
}

proof fn lemma_sorted_seq(s: Seq<Seq<char>>)
    ensures
        sorted_by(sorted_seq(s), lex_le_rel()),
        sorted_seq(s).to_multiset() == s.to_multiset(),
    decreases s.len(),
{
    broadcast use vstd::seq_lib::group_to_multiset_ensures;

    if s.len() > 0 {
        lemma_sorted_seq(s.drop_last());
        lemma_insert_sorted(sorted_seq(s.drop_last()), s.last());
        assert(s.drop_last().push(s.last()) =~= s);
    } else {
        assert(sorted_seq(s) =~= s);
    }
}

/// Sorting ignores the order of the values: two lists of the same values,
/// each as often, sort to the same list.
pub proof fn law_sorting_ignores_order(a: Seq<Seq<char>>, b: Seq<Seq<char>>)
    requires
        a.to_multiset() == b.to_multiset(),
    ensures
        sorted_seq(a) == sorted_seq(b),
{
    lemma_sorted_seq(a);
    lemma_sorted_seq(b);
    lemma_lex_le_total();
    vstd::seq_lib::lemma_sorted_unique(sorted_seq(a), sorted_seq(b), lex_le_rel());
}

/// Law: the fuzzy key reads only the event, the SAME and UGC codes, the
/// effective and expiry times and the area, each normalized: two alerts
/// whose normalized values of these agree, whose codes are the same in any
/// order, have the same fuzzy key, whatever their source, source id, texts,
/// severity, urgency, certainty and message.
pub proof fn law_fuzzy_key_reads_only_its_fields(a: NormalizedAlert, b: NormalizedAlert)
    requires
        normalize_spec(a.event@) == normalize_spec(b.event@),
        views_of(a.same_codes@).to_multiset() == views_of(b.same_codes@).to_multiset(),
        views_of(a.ugc_codes@).to_multiset() == views_of(b.ugc_codes@).to_multiset(),
        normalize_option_spec(a.effective) == normalize_option_spec(b.effective),
        normalize_option_spec(a.expires) == normalize_option_spec(b.expires),
        normalize_option_spec(a.area_desc) == normalize_option_spec(b.area_desc),
    ensures
        fuzzy_key_text(a) == fuzzy_key_text(b),
{
    law_sorting_ignores_order(views_of(a.same_codes@), views_of(b.same_codes@));
    law_sorting_ignores_order(views_of(a.ugc_codes@), views_of(b.ugc_codes@));
}

proof fn lemma_split_words_run(p: Seq<char>, q: Seq<char>, w: char, w2: char)
    requires
        is_whitespace(w),
        is_whitespace(w2),
    ensures
        split_words(p + seq![w] + q) == split_words(p + seq![w, w2] + q),
    decreases p.len(),
{
    let a = p + seq![w] + q;
    let b = p + seq![w, w2] + q;
    if p.len() == 0 {
        assert(a[0] == w && b[0] == w);
        assert(a.drop_first() =~= q);
        assert(b.drop_first() =~= seq![w2] + q);
        assert((seq![w2] + q)[0] == w2);
        assert((seq![w2] + q).drop_first() =~= q);
        assert(split_words(b) == split_words(seq![w2] + q));
    } else if is_whitespace(p[0]) {
        assert(a[0] == p[0] && b[0] == p[0]);
        lemma_split_words_run(p.drop_first(), q, w, w2);
        assert(a.drop_first() =~= p.drop_first() + seq![w] + q);
        assert(b.drop_first() =~= p.drop_first() + seq![w, w2] + q);
    } else {
        assert(a[0] == p[0] && b[0] == p[0]);
        lemma_leading_word_len_bound(p);
        let n = leading_word_len(p) as int;
        assert forall|k: int| 0 <= k < n implies !is_whitespace(#[trigger] a[k]) by {
            assert(a[k] == p[k]);
        }
        assert forall|k: int| 0 <= k < n implies !is_whitespace(#[trigger] b[k]) by {
            assert(b[k] == p[k]);
        }
        if n < p.len() {
            assert(a[n] == p[n] && b[n] == p[n]);
        } else {
            assert(a[n] == w && b[n] == w);
        }
        lemma_leading_word_len_at(a, n);
        lemma_leading_word_len_at(b, n);
        assert(a.take(n) =~= p.take(n));
        assert(b.take(n) =~= p.take(n));
        if n < p.len() {
            lemma_split_words_run(p.skip(n), q, w, w2);
            assert(a.skip(n) =~= p.skip(n) + seq![w] + q);
            assert(b.skip(n) =~= p.skip(n) + seq![w, w2] + q);
        } else {
            lemma_split_words_run(Seq::<char>::empty(), q, w, w2);
            assert(a.skip(n) =~= Seq::<char>::empty() + seq![w] + q);
            assert(b.skip(n) =~= Seq::<char>::empty() + seq![w, w2] + q);
        }
        assert(split_words(a) == seq![a.take(n)] + split_words(a.skip(n)));
        assert(split_words(b) == seq![b.take(n)] + split_words(b.skip(n)));
    }
}

/// Law: the normalized text of the fuzzy key's fields ignores runs of
/// whitespace: a whitespace character doubled anywhere changes nothing.
pub proof fn law_normalized_text_ignores_whitespace_runs(p: Seq<char>, q: Seq<char>, w: char, w2: char)
    requires
        is_whitespace(w),
        is_whitespace(w2),
    ensures
        normalize_spec(p + seq![w] + q) == normalize_spec(p + seq![w, w2] + q),
{
    assert(!('A' <= w <= 'Z') && !('A' <= w2 <= 'Z'));
    assert(lower_seq(p + seq![w] + q) =~= lower_seq(p) + seq![w] + lower_seq(q));
    assert(lower_seq(p + seq![w, w2] + q) =~= lower_seq(p) + seq![w, w2] + lower_seq(q));
    lemma_split_words_run(lower_seq(p), lower_seq(q), w, w2);
}

/// Text with at least one character and no whitespace.
pub open spec fn plain_text(s: Seq<char>) -> bool {
    s.len() > 0 && forall|i: int| 0 <= i < s.len() ==> !is_whitespace(#[trigger] s[i])
}

proof fn lemma_normalize_plain(s: Seq<char>)
    requires
        plain_text(s),
    ensures
        normalize_spec(s) == lower_seq(s),
{
    let l = lower_seq(s);
    assert forall|i: int| 0 <= i < l.len() implies !is_whitespace(#[trigger] l[i]) by {
        assert(l[i] == ascii_lower(s[i]));
        assert(!is_whitespace(s[i]));
    }
    lemma_leading_word_len_at(l, l.len() as int);
    assert(l[0] == ascii_lower(s[0]));
    assert(l.take(l.len() as int) =~= l);
    assert(l.skip(l.len() as int) =~= Seq::<char>::empty());
    assert(split_words(l) == seq![l.take(l.len() as int)] + split_words(l.skip(l.len() as int)));
    assert(split_words(l) =~= seq![l]);
    assert(join_with(seq![l], seq![' ']) == l);
}

proof fn lemma_join_six(p: Seq<Seq<char>>, sep: Seq<char>)
    requires
        p.len() == 6,
    ensures
        join_with(p, sep) == p[0] + sep + p[1] + sep + p[2] + sep + p[3] + sep + p[4] + sep + p[5],
{
    let d1 = p.drop_first();
    let d2 = d1.drop_first();
    let d3 = d2.drop_first();
    let d4 = d3.drop_first();
    let d5 = d4.drop_first();
    assert(join_with(d5, sep) == d5[0]);
    assert(join_with(d4, sep) == d4[0] + sep + join_with(d5, sep));
    assert(join_with(d3, sep) == d3[0] + sep + join_with(d4, sep));
    assert(join_with(d2, sep) == d2[0] + sep + join_with(d3, sep));
    assert(join_with(d1, sep) == d1[0] + sep + join_with(d2, sep));
    assert(join_with(p, sep) == p[0] + sep + join_with(d1, sep));
    assert(join_with(p, sep) =~= p[0] + sep + p[1] + sep + p[2] + sep + p[3] + sep + p[4] + sep + p[5]);
}

proof fn lemma_middle_differs(a: Seq<char>, x: Seq<char>, y: Seq<char>, b: Seq<char>)
    requires
        x != y,
    ensures
        a + x + b != a + y + b,
{
    if a + x + b == a + y + b {
        if x.len() == y.len() {
            assert forall|i: int| 0 <= i < x.len() implies x[i] == y[i] by {
                assert((a + x + b)[a.len() + i] == x[i]);
                assert((a + y + b)[a.len() + i] == y[i]);
            }
            assert(x =~= y);
        } else {
            assert((a + x + b).len() != (a + y + b).len());
        }
    }
}

/// The fuzzy key's parts, in order: event, SAME codes, UGC codes, effective
/// time, expiry time, area.
proof fn lemma_fuzzy_parts(a: NormalizedAlert)
    ensures
        fuzzy_key_text(a) == normalize_spec(a.event@) + seq!['|'] + normalize_list_spec(sorted_seq(views_of(a.same_codes@)))
            + seq!['|'] + normalize_list_spec(sorted_seq(views_of(a.ugc_codes@))) + seq!['|']
            + normalize_option_spec(a.effective) + seq!['|'] + normalize_option_spec(a.expires) + seq!['|']
            + normalize_option_spec(a.area_desc),
{
    lemma_join_six(
        seq![
            normalize_spec(a.event@),
            normalize_list_spec(sorted_seq(views_of(a.same_codes@))),
            normalize_list_spec(sorted_seq(views_of(a.ugc_codes@))),
            normalize_option_spec(a.effective),
            normalize_option_spec(a.expires),
            normalize_option_spec(a.area_desc),
        ],
        seq!['|'],
    );
}

/// Law: the fuzzy key tells alerts apart by their times. Two alerts that
/// agree on event, codes and area but whose effective times (or whose
/// expiry times) are different words, beyond ASCII case, have different
/// fuzzy keys: a new warning for the same area at another time is not the
/// same alert.
pub proof fn law_fuzzy_key_tells_times_apart(a: NormalizedAlert, b: NormalizedAlert, x: String, y: String)
    requires
        a.event == b.event,
        a.same_codes@ == b.same_codes@,
        a.ugc_codes@ == b.ugc_codes@,
        a.area_desc == b.area_desc,
        plain_text(x@),
        plain_text(y@),
        lower_seq(x@) != lower_seq(y@),
        (a.effective == Some(x) && b.effective == Some(y) && a.expires == b.expires) || (a.expires == Some(x)
            && b.expires == Some(y) && a.effective == b.effective),
    ensures
        fuzzy_key_text(a) != fuzzy_key_text(b),
{
    lemma_fuzzy_parts(a);
    lemma_fuzzy_parts(b);
    lemma_normalize_plain(x@);
    lemma_normalize_plain(y@);
    let bar = seq!['|'];
    let head = normalize_spec(a.event@) + bar + normalize_list_spec(sorted_seq(views_of(a.same_codes@))) + bar
        + normalize_list_spec(sorted_seq(views_of(a.ugc_codes@))) + bar;
    assert(views_of(a.same_codes@) == views_of(b.same_codes@));
    assert(views_of(a.ugc_codes@) == views_of(b.ugc_codes@));
    if a.effective == Some(x) && b.effective == Some(y) && a.expires == b.expires {
        let tail = bar + normalize_option_spec(a.expires) + bar + normalize_option_spec(a.area_desc);
        lemma_middle_differs(head, lower_seq(x@), lower_seq(y@), tail);
        assert(fuzzy_key_text(a) =~= head + lower_seq(x@) + tail);
        assert(fuzzy_key_text(b) =~= head + lower_seq(y@) + tail);
    } else {
        let head2 = head + normalize_option_spec(a.effective) + bar;
        let tail = bar + normalize_option_spec(a.area_desc);
        lemma_middle_differs(head2, lower_seq(x@), lower_seq(y@), tail);
        assert(fuzzy_key_text(a) =~= head2 + lower_seq(x@) + tail);
        assert(fuzzy_key_text(b) =~= head2 + lower_seq(y@) + tail);
    }
}

/// Law: a check is not a duplicate of one earlier check whose exact source
/// key and fuzzy key both differ from its own, however close in time.
pub proof fn law_other_keys_are_not_duplicates(ttl: u64, a: NormalizedAlert, t1: u64, b: NormalizedAlert, t2: u64)
    requires
        exact_key_text(a) != exact_key_text(b),
        fuzzy_key_text(a) != fuzzy_key_text(b),
    ensures
        !gate_run(ttl, seq![(a, t1), (b, t2)]).0[1],
        !gate_run(ttl, seq![(a, t1)]).0[0],
{
    let c1 = seq![(a, t1)];
    let c2 = seq![(a, t1), (b, t2)];
    assert(c2.drop_last() =~= c1);
    assert(c1.drop_last() =~= Seq::<(NormalizedAlert, u64)>::empty());
    let e0: Seq<((bool, Seq<char>), u64)> = seq![];
    assert(live_entries(e0, t1, ttl) =~= e0);
    let r1 = gate_run(ttl, c1);
    let r0 = gate_run(ttl, c1.drop_last());
    assert(r0.0 =~= Seq::<bool>::empty() && r0.1 =~= e0);
    assert(c1.last() == (a, t1));
    assert(!has_key(e0, (true, exact_key_text(a))));
    assert(!has_key(e0, (false, fuzzy_key_text(a))));
    let st1 = gate_step(r0.1, ttl, a, t1);
    assert(st1 == keyed_step(e0, ttl, exact_key_text(a), fuzzy_key_text(a), t1));
    assert(!st1.0);
    assert(r1 == (r0.0.push(st1.0), st1.1));
    assert(!r1.0[0]);
    let e1 = r1.1;
    assert(e1 == e0.push(((true, exact_key_text(a)), t1)).push(((false, fuzzy_key_text(a)), t1)));
    let live = live_entries(e1, t2, ttl);
    lemma_live_entries_member(e1, t2, ttl, (true, exact_key_text(b)));
    lemma_live_entries_member(e1, t2, ttl, (false, fuzzy_key_text(b)));
    assert forall|i: int| 0 <= i < e1.len() implies #[trigger] e1[i].0 != (true, exact_key_text(b))
        && e1[i].0 != (false, fuzzy_key_text(b)) by {
        if i == 0 {
            assert(e1[0].0 == (true, exact_key_text(a)));
        } else {
            assert(e1[1].0 == (false, fuzzy_key_text(a)));
        }
    }
    assert(c2.last() == (b, t2));
    let st2 = gate_step(r1.1, ttl, b, t2);
    assert(st2 == keyed_step(e1, ttl, exact_key_text(b), fuzzy_key_text(b), t2));
    assert(!has_key(live, (true, exact_key_text(b))));
    assert(!has_key(live, (false, fuzzy_key_text(b))));
    assert(!st2.0);
    assert(gate_run(ttl, c2) == (r1.0.push(st2.0), st2.1));
}

/// Law: only live entries suppress. If a key is among the live entries at
/// `now`, some remembered entry with that key is at most `ttl` seconds old;
/// an entry older than the time-to-live never makes an alert a duplicate.
pub proof fn law_expired_entries_never_suppress(
    entries: Seq<((bool, Seq<char>), u64)>,
    now: u64,
    ttl: u64,
    k: (bool, Seq<char>),
)
    ensures
        has_key(live_entries(entries, now, ttl), k) ==> exists|i: int|
            0 <= i < entries.len() && #[trigger] entries[i].0 == k && is_live(entries[i].1, now, ttl),
{
    lemma_live_entries_member(entries, now, ttl, k);
}

/// Law: an alert that the deduplicator recorded at `t1` makes any later alert with
/// the same exact source key or the same fuzzy key a duplicate at `t2`, as
/// long as `t2` is within the time-to-live of `t1`, whatever the source of
/// either alert.
pub proof fn law_recorded_alert_suppresses_repeat(
    entries: Seq<((bool, Seq<char>), u64)>,
    ttl: u64,
    first: NormalizedAlert,
    t1: u64,
    repeat: NormalizedAlert,
    t2: u64,
)
    requires
        exact_key_text(repeat) == exact_key_text(first) || fuzzy_key_text(repeat) == fuzzy_key_text(
            first,
        ),
        is_live(t1, t2, ttl),
    ensures
        ({
            let recorded = live_entries(entries, t1, ttl).push(((true, exact_key_text(first)), t1)).push(
                ((false, fuzzy_key_text(first)), t1),
            );
            let live = live_entries(recorded, t2, ttl);
            has_key(live, (true, exact_key_text(repeat))) || has_key(
                live,
                (false, fuzzy_key_text(repeat)),
            )
        }),
{
    let recorded = live_entries(entries, t1, ttl).push(((true, exact_key_text(first)), t1)).push(
        ((false, fuzzy_key_text(first)), t1),
    );
    let once = recorded.drop_last();
    assert(once =~= live_entries(entries, t1, ttl).push(((true, exact_key_text(first)), t1)));
    let live = live_entries(recorded, t2, ttl);
    let live_once = live_entries(once, t2, ttl);
    assert(live == live_once + seq![recorded.last()]);
    assert(live_once == live_entries(once.drop_last(), t2, ttl) + seq![once.last()]);
    assert(live[live.len() - 1].0 == (false, fuzzy_key_text(first)));
    assert(live[live_once.len() - 1] == live_once[live_once.len() - 1]);
    assert(live[live_once.len() - 1].0 == (true, exact_key_text(first)));
}

} // verus!
