//! The whole-number facts fuzzy scores are made of: whether the lowercased
//! name equals, starts with or contains the query, how many query words and
//! tags match, and the edit distance against the longer byte length. The
//! weighted sum itself is floating point and is computed by the caller.

use vstd::prelude::*;
use crate::output::table::byte_len;
use crate::spotify::auth::{parse_scopes, words};
use crate::storage::fuzzy::{lev, levenshtein_distance};
use crate::text::{chars_of, contains_chars, contains_seq, lowercase, owned, texts, to_lower};

verus! {

/// `t` is a prefix of `s` (`str::starts_with`).
pub open spec fn starts_with(s: Seq<char>, t: Seq<char>) -> bool {
    t.len() <= s.len() && s.take(t.len() as int) == t
}

pub fn starts_with_exec(s: &Vec<char>, t: &Vec<char>) -> (b: bool)
    ensures
        b == starts_with(s@, t@),
{
    if t.len() > s.len() {
        return false;
    }
    let mut i: usize = 0;
    while i < t.len()
        invariant
            i <= t@.len(),
            t@.len() <= s@.len(),
            forall|k: int| 0 <= k < i ==> s@[k] == t@[k],
        decreases t.len() - i,
    {
        if s[i] != t[i] {
            assert(s@.take(t@.len() as int)[i as int] != t@[i as int]);
            return false;
        }
        i = i + 1;
    }
    assert(s@.take(t@.len() as int) =~= t@);
    true
}

/// How many of the words `s` contains.
pub open spec fn hits(s: Seq<char>, words: Seq<Seq<char>>) -> nat
    decreases words.len(),
{
    if words.len() == 0 {
        0
    } else {
        hits(s, words.drop_last()) + if contains_seq(s, words.last()) {
            1nat
        } else {
            0nat
        }
    }
}

/// The facts about a name and a query (both lowercased).
#[derive(Debug, Clone, Copy)]
pub struct NameMatch {
    pub exact: bool,
    pub starts_with: bool,
    pub contains: bool,
    /// Query words found in the name.
    pub word_hits: usize,
    /// Edit distance between the two (none for strings too long to measure).
    pub distance: Option<usize>,
    /// The larger byte length of the two.
    pub max_len: usize,
}

/// `m` holds the facts about name `n` and query `q`, already lowercased,
/// with the query's words `w`.
pub open spec fn is_match_of(m: NameMatch, n: Seq<char>, q: Seq<char>, w: Seq<Seq<char>>) -> bool {
    &&& m.exact == (n == q)
    &&& m.starts_with == starts_with(n, q)
    &&& m.contains == contains_seq(n, q)
    &&& m.word_hits == hits(n, w)
    &&& (m.distance matches Some(d) ==> d == lev(n, q))
    &&& (n.len() < usize::MAX && q.len() < usize::MAX ==> m.distance is Some)
    &&& m.max_len == if byte_len(n) >= byte_len(q) {
        byte_len(n)
    } else {
        byte_len(q)
    }
}

fn count_hits(n: &Vec<char>, w: &Vec<String>) -> (c: usize)
    ensures
        c == hits(n@, texts(w@)),
{
    let mut c: usize = 0;
    let mut i: usize = 0;
    while i < w.len()
        invariant
            i <= w@.len(),
            c <= i,
            c == hits(n@, texts(w@).take(i as int)),
        decreases w.len() - i,
    {
        assert(texts(w@).take(i + 1).drop_last() =~= texts(w@).take(i as int));
        let wc = chars_of(w[i].as_str());
        if contains_chars(n, &wc) {
            c = c + 1;
        }
        i = i + 1;
    }
    assert(texts(w@).take(w@.len() as int) =~= texts(w@));
    c
}

/// The facts about lowercased `name` and `query`.
pub fn match_facts(name: &str, query: &str) -> (m: NameMatch)
    ensures
        is_match_of(m, name@, query@, words(query@)),
{
    let n = chars_of(name);
    let q = chars_of(query);
    let w = parse_scopes(owned(query));
    assert(texts(w@) =~= crate::rpc::dispatch::strings_view(w));
    let exact = owned(name) == owned(query);
    let sw = starts_with_exec(&n, &q);
    let ct = contains_chars(&n, &q);
    let word_hits = count_hits(&n, &w);
    let distance = if n.len() < usize::MAX && q.len() < usize::MAX {
        Some(levenshtein_distance(name, query))
    } else {
        None
    };
    let a = name.len();
    let b = query.len();
    let max_len = if a >= b {
        a
    } else {
        b
    };
    NameMatch { exact, starts_with: sw, contains: ct, word_hits, distance, max_len }
}

/// The facts about a name and a query, after lowercasing both.
pub fn name_match(name: &str, query: &str) -> (m: NameMatch)
    ensures
        is_match_of(m, lowercase(name@), lowercase(query@), words(lowercase(query@))),
{
    let n = to_lower(name);
    let q = to_lower(query);
    match_facts(n.as_str(), q.as_str())
}

/// Matching ignores case: two names and two queries that lowercase alike
/// get the same facts from `name_match` (for texts short enough to measure).
pub proof fn lemma_match_ignores_case(
    m1: NameMatch,
    m2: NameMatch,
    name1: Seq<char>,
    query1: Seq<char>,
    name2: Seq<char>,
    query2: Seq<char>,
)
    requires
        is_match_of(m1, lowercase(name1), lowercase(query1), words(lowercase(query1))),
        is_match_of(m2, lowercase(name2), lowercase(query2), words(lowercase(query2))),
        lowercase(name1) == lowercase(name2),
        lowercase(query1) == lowercase(query2),
        lowercase(name1).len() < usize::MAX,
        lowercase(query1).len() < usize::MAX,
    ensures
        m1 == m2,
{
}

/// A name equal to the query also starts with it, contains it, and is at
/// distance zero from it.
pub proof fn lemma_exact_match_is_closest(m: NameMatch, n: Seq<char>, q: Seq<char>, w: Seq<Seq<char>>)
    requires
        is_match_of(m, n, q, w),
        m.exact,
    ensures
        m.starts_with,
        m.contains,
        m.distance matches Some(d) ==> d == 0,
{
    assert(n.take(q.len() as int) =~= q);
    assert(crate::text::occurs_at(n, q, 0));
    crate::storage::fuzzy::lemma_lev_self(n);
}

/// How many of `tags` equal `word`, and how many contain it without
/// equalling it.
pub open spec fn word_tag_counts(tags: Seq<Seq<char>>, word: Seq<char>) -> (nat, nat)
    decreases tags.len(),
{
    if tags.len() == 0 {
        (0, 0)
    } else {
        let r = word_tag_counts(tags.drop_last(), word);
        let t = tags.last();
        if t == word {
            ((r.0 + 1) as nat, r.1)
        } else if contains_seq(t, word) {
            (r.0, (r.1 + 1) as nat)
        } else {
            r
        }
    }
}

proof fn lemma_word_tag_counts_bound(tags: Seq<Seq<char>>, word: Seq<char>)
    ensures
        word_tag_counts(tags, word).0 + word_tag_counts(tags, word).1 <= tags.len(),
    decreases tags.len(),
{
    if tags.len() > 0 {
        lemma_word_tag_counts_bound(tags.drop_last(), word);
    }
}

/// The facts of a pin against a query: its lowercased alias against the
/// query, and, for each of the query's words in order, how many of its
/// lowercased tags equal the word and how many contain it otherwise.
#[derive(Debug, Clone)]
pub struct PinMatch {
    pub alias: NameMatch,
    pub tag_hits: Vec<(usize, usize)>,
}

fn lowered(tags: &Vec<String>) -> (r: Vec<String>)
    ensures
        texts(r@) == tags@.map_values(|t: String| lowercase(t@)),
{
    let mut r: Vec<String> = Vec::new();
    let mut i: usize = 0;
    while i < tags.len()
        invariant
            i <= tags@.len(),
            texts(r@) == tags@.map_values(|t: String| lowercase(t@)).take(i as int),
        decreases tags.len() - i,
    {
        let ghost before = r@;
        let l = to_lower(tags[i].as_str());
        r.push(l);
        assert(r@ == before.push(l));
        assert(texts(r@) =~= texts(before).push(l@));
        assert(tags@.map_values(|t: String| lowercase(t@)).take(i + 1) =~= tags@.map_values(
            |t: String| lowercase(t@),
        ).take(i as int).push(lowercase(tags@[i as int]@)));
        i = i + 1;
    }
    assert(tags@.map_values(|t: String| lowercase(t@)).take(tags@.len() as int) =~= tags@.map_values(
        |t: String| lowercase(t@),
    ));
    r
}

fn word_tags(tags: &Vec<String>, word: &String) -> (r: (usize, usize))
    ensures
        (r.0 as nat, r.1 as nat) == word_tag_counts(texts(tags@), word@),
{
    let ghost tv = texts(tags@);
    let wc = chars_of(word.as_str());
    let mut exact: usize = 0;
    let mut partial: usize = 0;
    let mut j: usize = 0;
    while j < tags.len()
        invariant
            j <= tags@.len(),
            tv == texts(tags@),
            wc@ == word@,
            (exact as nat, partial as nat) == word_tag_counts(tv.take(j as int), word@),
        decreases tags.len() - j,
    {
        proof {
            lemma_word_tag_counts_bound(tv.take(j as int), word@);
        }
        assert(tv.take(j + 1).drop_last() =~= tv.take(j as int));
        assert(tv.take(j + 1).last() == tags@[j as int]@);
        let tc = chars_of(tags[j].as_str());
        if owned(tags[j].as_str()) == owned(word.as_str()) {
            exact = exact + 1;
        } else if contains_chars(&tc, &wc) {
            partial = partial + 1;
        }
        j = j + 1;
    }
    assert(tv.take(tags@.len() as int) =~= tv);
    (exact, partial)
}

/// `m` holds the facts of a pin with alias `alias` and tags `tags` against
/// the lowercased query `q`.
pub open spec fn is_pin_match(m: PinMatch, alias: Seq<char>, tags: Seq<String>, q: Seq<char>) -> bool {
    &&& is_match_of(m.alias, lowercase(alias), q, words(q))
    &&& m.tag_hits@.len() == words(q).len()
    &&& forall|i: int|
        0 <= i < words(q).len() ==> (#[trigger] m.tag_hits@[i].0 as nat, m.tag_hits@[i].1 as nat)
            == word_tag_counts(tags.map_values(|t: String| lowercase(t@)), words(q)[i])
}

/// The facts of a pin with alias `alias` and tags `tags` against an already
/// lowercased query.
pub fn pin_match(alias: &str, tags: &Vec<String>, query: &str) -> (m: PinMatch)
    ensures
        is_pin_match(m, alias@, tags@, query@),
{
    let a = to_lower(alias);
    let am = match_facts(a.as_str(), query);
    let lt = lowered(tags);
    let w = parse_scopes(owned(query));
    let ghost wv = crate::rpc::dispatch::strings_view(w);
    assert(texts(w@) =~= wv);
    let mut hits: Vec<(usize, usize)> = Vec::new();
    let mut i: usize = 0;
    while i < w.len()
        invariant
            i <= w@.len(),
            texts(lt@) == tags@.map_values(|t: String| lowercase(t@)),
            wv == words(query@),
            texts(w@) == wv,
            hits@.len() == i,
            forall|k: int|
                0 <= k < i ==> (#[trigger] hits@[k].0 as nat, hits@[k].1 as nat) == word_tag_counts(
                    texts(lt@),
                    wv[k],
                ),
        decreases w.len() - i,
    {
        let h = word_tags(&lt, &w[i]);
        assert(w@[i as int]@ == wv[i as int]);
        hits.push(h);
        i = i + 1;
    }
    PinMatch { alias: am, tag_hits: hits }
}

} // verus!
