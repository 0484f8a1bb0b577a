//! URL pieces the library builds or reads through the `url` crate:
//! `application/x-www-form-urlencoded` query strings, and the path and
//! decoded query pairs of a parsed URL.

use vstd::prelude::*;
use vstd::utf8::*;

verus! {

/// Key/value pairs as text.
pub open spec fn pairs_view(v: Seq<(String, String)>) -> Seq<(Seq<char>, Seq<char>)> {
    v.map_values(|p: (String, String)| (p.0@, p.1@))
}

/// Upper-case hexadecimal digit of `d < 16`.
pub open spec fn hex_digit(d: u8) -> char {
    if d < 10 {
        (('0' as u8) + d) as char
    } else {
        (('A' as u8) + (d - 10)) as char
    }
}

/// How the form-urlencoded byte serializer writes one byte: `*-._`, ASCII
/// letters and digits as they are, space as `+`, anything else as `%XX`.
pub open spec fn form_byte(b: u8) -> Seq<char> {
    if b == 0x2a || b == 0x2d || b == 0x2e || b == 0x5f || (0x30 <= b && b <= 0x39) || (0x41 <= b
        && b <= 0x5a) || (0x61 <= b && b <= 0x7a) {
        seq![b as char]
    } else if b == 0x20 {
        seq!['+']
    } else {
        seq!['%', hex_digit(b / 16), hex_digit(b % 16)]
    }
}

/// The serialization of a byte string.
pub open spec fn form_bytes(bs: Seq<u8>) -> Seq<char>
    decreases bs.len(),
{
    if bs.len() == 0 {
        Seq::empty()
    } else {
        form_bytes(bs.drop_last()) + form_byte(bs.last())
    }
}

/// One `name=value` pair, each side UTF-8 encoded then serialized.
pub open spec fn form_pair(p: (Seq<char>, Seq<char>)) -> Seq<char> {
    form_bytes(encode_utf8(p.0)) + seq!['='] + form_bytes(encode_utf8(p.1))
}

/// The pairs serialized and joined with `&`.
pub open spec fn form_pairs(pairs: Seq<(Seq<char>, Seq<char>)>) -> Seq<char>
    decreases pairs.len(),
{
    if pairs.len() == 0 {
        Seq::empty()
    } else if pairs.len() == 1 {
        form_pair(pairs[0])
    } else {
        form_pairs(pairs.drop_last()) + seq!['&'] + form_pair(pairs.last())
    }
}

/// `url::form_urlencoded::Serializer` on an empty string, fed the pairs in
/// order with `extend_pairs`: each pair is appended as `name=value` through
/// the byte serializer, with `&` before every pair but the first.
#[verifier::external_body]
pub(crate) fn form_encode(pairs: &Vec<(String, String)>) -> (r: String)
    ensures
        r@ == form_pairs(pairs_view(pairs@)),
{
    url::form_urlencoded::Serializer::new(String::new())
        .extend_pairs(pairs.iter().map(|p| (p.0.as_str(), p.1.as_str())))
        .finish()
}

/// Name for what `url::Url::parse` makes of a URL: its path and its
/// percent-decoded query pairs, in order; nothing when it does not parse.
pub uninterp spec fn parsed_url(s: Seq<char>) -> Option<(Seq<char>, Seq<(Seq<char>, Seq<char>)>)>;

/// `url::Url::parse(s)`, then `path()` and `query_pairs()`.
#[verifier::external_body]
pub(crate) fn parse_url(s: &str) -> (r: Option<(String, Vec<(String, String)>)>)
    ensures
        match r {
            Some(p) => parsed_url(s@) == Some((p.0@, pairs_view(p.1@))),
            None => parsed_url(s@) is None,
        },
{
    match url::Url::parse(s) {
        Ok(u) => Some((
            u.path().to_string(),
            u.query_pairs().map(|(k, v)| (k.into_owned(), v.into_owned())).collect(),
        )),
        Err(_) => None,
    }
}

/// The value of the last pair named `key` (later pairs win, as in a map
/// built from the pairs in order).
pub open spec fn last_value(pairs: Seq<(Seq<char>, Seq<char>)>, key: Seq<char>) -> Option<Seq<char>>
    decreases pairs.len(),
{
    if pairs.len() == 0 {
        None
    } else if pairs.last().0 == key {
        Some(pairs.last().1)
    } else {
        last_value(pairs.drop_last(), key)
    }
}

/// The value of the last pair named `key`.
pub fn lookup(pairs: &Vec<(String, String)>, key: &str) -> (r: Option<String>)
    ensures
        match r {
            Some(v) => last_value(pairs_view(pairs@), key@) == Some(v@),
            None => last_value(pairs_view(pairs@), key@) is None,
        },
{
    let k = crate::text::owned(key);
    let mut i: usize = pairs.len();
    assert(pairs_view(pairs@).take(pairs@.len() as int) =~= pairs_view(pairs@));
    while i > 0
        invariant
            i <= pairs@.len(),
            k@ == key@,
            last_value(pairs_view(pairs@), key@) == last_value(pairs_view(pairs@).take(i as int), key@),
        decreases i,
    {
        let ghost t = pairs_view(pairs@).take(i as int);
        assert(t.drop_last() =~= pairs_view(pairs@).take(i - 1));
        if pairs[i - 1].0 == k {
            return Some(crate::text::owned(pairs[i - 1].1.as_str()));
        }
        i = i - 1;
    }
    None
}

/// How `urlencoding::encode` writes one byte: ASCII letters, digits and
/// `-._~` as they are, anything else as `%XX`.
pub open spec fn pct_byte(b: u8) -> Seq<char> {
    if b == 0x2d || b == 0x2e || b == 0x5f || b == 0x7e || (0x30 <= b && b <= 0x39) || (0x41 <= b
        && b <= 0x5a) || (0x61 <= b && b <= 0x7a) {
        seq![b as char]
    } else {
        seq!['%', hex_digit(b / 16), hex_digit(b % 16)]
    }
}

pub open spec fn pct_bytes(bs: Seq<u8>) -> Seq<char>
    decreases bs.len(),
{
    if bs.len() == 0 {
        Seq::empty()
    } else {
        pct_bytes(bs.drop_last()) + pct_byte(bs.last())
    }
}

/// `urlencoding::encode`: the UTF-8 bytes of `s`, each written as above.
#[verifier::external_body]
pub(crate) fn url_encode(s: &str) -> (r: String)
    ensures
        r@ == pct_bytes(encode_utf8(s@)),
{
    urlencoding::encode(s).into_owned()
}

} // verus!
