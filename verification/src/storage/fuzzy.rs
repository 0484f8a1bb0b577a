//! Edit distance used for fuzzy matching of names.

use vstd::prelude::*;
use crate::text::chars_of;

verus! {

pub open spec fn min2(x: nat, y: nat) -> nat {
    if x <= y { x } else { y }
}

/// Levenshtein distance: the least number of single-character insertions,
/// deletions and substitutions that turn `a` into `b`.
pub open spec fn lev(a: Seq<char>, b: Seq<char>) -> nat
    decreases a.len() + b.len(),
{
    if a.len() == 0 {
        b.len()
    } else if b.len() == 0 {
        a.len()
    } else {
        let cost: nat = if a.last() == b.last() { 0 } else { 1 };
        min2(
            min2(lev(a.drop_last(), b) + 1, lev(a, b.drop_last()) + 1),
            lev(a.drop_last(), b.drop_last()) + cost,
        )
    }
}

/// The distance never exceeds the longer length.
pub proof fn lemma_lev_le_max(a: Seq<char>, b: Seq<char>)
    ensures
        lev(a, b) <= if a.len() >= b.len() { a.len() } else { b.len() },
    decreases a.len() + b.len(),
{
    if a.len() != 0 && b.len() != 0 {
        lemma_lev_le_max(a.drop_last(), b.drop_last());
    }
}

/// A string is at distance zero from itself.
pub proof fn lemma_lev_self(a: Seq<char>)
    ensures
        lev(a, a) == 0,
    decreases a.len(),
{
    if a.len() != 0 {
        lemma_lev_self(a.drop_last());
    }
}

/// The distance does not depend on the order of its arguments.
pub proof fn lemma_lev_symmetric(a: Seq<char>, b: Seq<char>)
    ensures
        lev(a, b) == lev(b, a),
    decreases a.len() + b.len(),
{
    if a.len() != 0 && b.len() != 0 {
        lemma_lev_symmetric(a.drop_last(), b);
        lemma_lev_symmetric(a, b.drop_last());
        lemma_lev_symmetric(a.drop_last(), b.drop_last());
    }
}

/// The distance from the empty string is the other string's length.
pub proof fn lemma_lev_empty(b: Seq<char>)
    ensures
        lev(Seq::empty(), b) == b.len(),
        lev(b, Seq::empty()) == b.len(),
{
}

/// Simple Levenshtein distance over the characters of `a` and `b`.
pub fn levenshtein_distance(a: &str, b: &str) -> (d: usize)
    requires
        a@.len() < usize::MAX,
        b@.len() < usize::MAX,
    ensures
        d == lev(a@, b@),
{
    let a_chars = chars_of(a);
    let b_chars = chars_of(b);
    let a_len = a_chars.len();
    let b_len = b_chars.len();
    if a_len == 0 {
        return b_len;
    }
    if b_len == 0 {
        return a_len;
    }
    let ghost sa = a_chars@;
    let ghost sb = b_chars@;
    // prev[j] = lev(sa.take(i - 1), sb.take(j))
    let mut prev: Vec<usize> = Vec::new();
    let mut j: usize = 0;
    while j <= b_len
        invariant
            j <= b_len + 1,
            b_len == sb.len(),
            b_len < usize::MAX,
            prev@.len() == j,
            forall|k: int| 0 <= k < j ==> prev@[k] == lev(sa.take(0), sb.take(k)),
        decreases b_len + 1 - j,
    {
        assert(sa.take(0).len() == 0);
        prev.push(j);
        j = j + 1;
    }
    let mut i: usize = 1;
    while i <= a_len
        invariant
            1 <= i <= a_len + 1,
            a_len == sa.len(),
            b_len == sb.len(),
            a_len < usize::MAX,
            b_len < usize::MAX,
            sa == a_chars@,
            sb == b_chars@,
            prev@.len() == b_len + 1,
            forall|k: int| 0 <= k <= b_len ==> prev@[k] == lev(sa.take(i - 1), sb.take(k)),
        decreases a_len + 1 - i,
    {
        let mut cur: Vec<usize> = Vec::new();
        assert(sb.take(0).len() == 0);
        cur.push(i);
        let mut j: usize = 1;
        while j <= b_len
            invariant
                1 <= j <= b_len + 1,
                1 <= i <= a_len,
                a_len < usize::MAX,
                a_len == sa.len(),
                b_len == sb.len(),
                b_len < usize::MAX,
                sa == a_chars@,
                sb == b_chars@,
                prev@.len() == b_len + 1,
                forall|k: int| 0 <= k <= b_len ==> prev@[k] == lev(sa.take(i - 1), sb.take(k)),
                cur@.len() == j,
                forall|k: int| 0 <= k < j ==> cur@[k] == lev(sa.take(i as int), sb.take(k)),
            decreases b_len + 1 - j,
        {
            let ghost x = sa.take(i as int);
            let ghost y = sb.take(j as int);
            assert(x.drop_last() == sa.take(i - 1));
            assert(y.drop_last() == sb.take(j - 1));
            assert(x.last() == a_chars@[i - 1]);
            assert(y.last() == b_chars@[j - 1]);
            proof {
                lemma_lev_le_max(sa.take(i - 1), sb.take(j as int));
                lemma_lev_le_max(x, sb.take(j - 1));
                lemma_lev_le_max(sa.take(i - 1), sb.take(j - 1));
            }
            assert(cur@[j - 1] == lev(x, sb.take(j - 1)));
            assert(x.len() == i);
            assert(sb.take(j - 1).len() == j - 1);
            assert(sa.take(i - 1).len() == i - 1);
            assert(y.len() == j);
            let cost: usize = if a_chars[i - 1] == b_chars[j - 1] { 0 } else { 1 };
            let del = prev[j] + 1;
            let ins = cur[j - 1] + 1;
            let sub = prev[j - 1] + cost;
            let m1 = if del <= ins { del } else { ins };
            let m = if m1 <= sub { m1 } else { sub };
            cur.push(m);
            j = j + 1;
        }
        prev = cur;
        i = i + 1;
    }
    assert(sa.take(a_len as int) == sa);
    assert(sb.take(b_len as int) == sb);
    prev[b_len]
}

} // verus!
