//! The browser login: the authorize URL, where to listen for the redirect,
//! and what the redirect request says.

use vstd::prelude::*;
use vstd::utf8::*;
use crate::spotify::auth::{ACCOUNTS_BASE, parse_scopes, required_scopes, scope_list, words};
use crate::text::{before_first, chars_of, find_first, first_index_of, joined, join_strings, lemma_first_index_bounds,
    owned, push_str, slice_chars, string_of, texts};
use crate::urls::{last_value, pct_bytes, url_encode};
use crate::rpc::dispatch::{opt_view, strings_view};
use crate::oauth::pkce::{lemma_base64_url_len, base64_url, base64_url_nopad, challenge_for, challenge_of, os_random_bytes, random_bytes};
use crate::spotify::auth::AuthToken;

verus! {

/// The authorize URL of the browser login: code response, the client, all
/// required scopes (space separated, encoded), the encoded redirect URI, the
/// state and the S256 challenge.
pub open spec fn authorize_url_text(client_id: Seq<char>, redirect_uri: Seq<char>, state: Seq<char>, challenge: Seq<char>) -> Seq<char> {
    ACCOUNTS_BASE@ + "/authorize?response_type=code&client_id="@ + client_id + "&scope="@ + pct_bytes(
        encode_utf8(joined(required_scopes(), " "@)),
    ) + "&redirect_uri="@ + pct_bytes(encode_utf8(redirect_uri)) + "&state="@ + state
        + "&code_challenge_method=S256&code_challenge="@ + challenge
}

pub fn build_authorize_url(client_id: &str, redirect_uri: &str, state: &str, code_challenge: &str) -> (u: String)
    ensures
        u@ == authorize_url_text(client_id@, redirect_uri@, state@, code_challenge@),
{
    let scopes = scope_list();
    let scope = join_strings(&scopes, " ");
    assert(texts(scopes@) =~= strings_view(scopes));
    let encoded_scope = url_encode(scope.as_str());
    let encoded_redirect = url_encode(redirect_uri);
    let mut u = owned(ACCOUNTS_BASE);
    push_str(&mut u, "/authorize?response_type=code&client_id=");
    push_str(&mut u, client_id);
    push_str(&mut u, "&scope=");
    push_str(&mut u, encoded_scope.as_str());
    push_str(&mut u, "&redirect_uri=");
    push_str(&mut u, encoded_redirect.as_str());
    push_str(&mut u, "&state=");
    push_str(&mut u, state);
    push_str(&mut u, "&code_challenge_method=S256&code_challenge=");
    push_str(&mut u, code_challenge);
    u
}

/// Name for what `url::Url::parse` makes of a redirect URI: its scheme,
/// host (if any), port or the scheme's known default (if any) and path; the
/// parse error's message when it does not parse.
pub uninterp spec fn redirect_parts(s: Seq<char>) -> Result<(Seq<char>, Option<Seq<char>>, Option<u16>, Seq<char>), Seq<char>>;

/// `Url::parse(s)`, then `scheme()`, `host_str()`, `port_or_known_default()`
/// and `path()`; on failure the `ParseError`'s message (`to_string`).
#[verifier::external_body]
fn parse_redirect(s: &str) -> (r: Result<(String, Option<String>, Option<u16>, String), String>)
    ensures
        match r {
            Ok(p) => redirect_parts(s@) == Ok::<_, Seq<char>>((p.0@, crate::rpc::dispatch::opt_view(p.1), p.2, p.3@)),
            Err(m) => redirect_parts(s@) == Err::<(Seq<char>, Option<Seq<char>>, Option<u16>, Seq<char>), Seq<char>>(m@),
        },
{
    match url::Url::parse(s) {
        Ok(u) => Ok((
            u.scheme().to_string(),
            u.host_str().map(|h| h.to_string()),
            u.port_or_known_default(),
            u.path().to_string(),
        )),
        Err(e) => Err(e.to_string()),
    }
}

/// Where to listen for the redirect: host, port and path.
#[derive(Debug)]
pub struct Listener {
    pub host: String,
    pub port: u16,
    pub path: String,
}

/// The host to listen on: the URI's (`localhost` meaning `127.0.0.1`),
/// `127.0.0.1` when it has none.
pub open spec fn listen_host(host: Option<Seq<char>>) -> Seq<char> {
    match host {
        Some(h) => if h == "localhost"@ {
            "127.0.0.1"@
        } else {
            h
        },
        None => "127.0.0.1"@,
    }
}

/// Where to listen for the redirect to `redirect_uri`: it must be an
/// `http` URI on a loopback host; the port defaults to 8888.
pub fn redirect_listener(redirect_uri: &str) -> (r: Result<Listener, String>)
    ensures
        match redirect_parts(redirect_uri@) {
            Err(m) => r matches Err(e) && e@ == m,
            Ok(p) => if p.0 != "http"@ {
                r matches Err(m) && m@ == "redirect URI must use http"@
            } else if listen_host(p.1) != "127.0.0.1"@ && listen_host(p.1) != "::1"@ {
                r matches Err(m) && m@ == "redirect URI must use a loopback host"@
            } else {
                r matches Ok(l) && l.host@ == listen_host(p.1) && l.port == match p.2 {
                    Some(x) => x,
                    None => 8888u16,
                } && l.path@ == p.3
            },
        },
{
    match parse_redirect(redirect_uri) {
        Err(m) => Err(m),
        Ok((scheme, host, port, path)) => {
            if scheme != owned("http") {
                return Err(owned("redirect URI must use http"));
            }
            let h = match host {
                Some(h) => if h == owned("localhost") {
                    owned("127.0.0.1")
                } else {
                    h
                },
                None => owned("127.0.0.1"),
            };
            if h != owned("127.0.0.1") && h != owned("::1") {
                return Err(owned("redirect URI must use a loopback host"));
            }
            let port = match port {
                Some(p) => p,
                None => 8888,
            };
            Ok(Listener { host: h, port, path })
        },
    }
}

/// The first line of a request (`lines().next()`): up to the first line
/// feed, without a carriage return before it.
pub open spec fn first_line(s: Seq<char>) -> Seq<char> {
    let l = before_first(s, '\n');
    if l.len() > 0 && l.last() == '\r' {
        l.drop_last()
    } else {
        l
    }
}

fn first_line_of(s: &Vec<char>) -> (l: Vec<char>)
    ensures
        l@ == first_line(s@),
{
    let end = find_first(s, '\n');
    proof {
        lemma_first_index_bounds(s@, '\n');
    }
    let mut stop = end;
    if end > 0 && s[end - 1] == '\r' {
        stop = end - 1;
    }
    let l = slice_chars(s, 0, stop);
    assert(l@ =~= first_line(s@));
    l
}

/// The pieces of `s` between the separators `c` (`str::split`): always at
/// least one.
pub open spec fn split_on(s: Seq<char>, c: char) -> Seq<Seq<char>>
    decreases s.len(),
{
    if s.len() == 0 {
        seq![Seq::empty()]
    } else {
        let r = split_on(s.drop_last(), c);
        if s.last() == c {
            r.push(Seq::empty())
        } else {
            r.update(r.len() - 1, r.last().push(s.last()))
        }
    }
}

proof fn lemma_split_nonempty(s: Seq<char>, c: char)
    ensures
        split_on(s, c).len() >= 1,
    decreases s.len(),
{
    if s.len() > 0 {
        lemma_split_nonempty(s.drop_last(), c);
    }
}

/// Name for what `urlencoding::decode` makes of a string: the
/// percent-decoded text, or nothing when the bytes are not UTF-8.
pub uninterp spec fn url_decoded(s: Seq<char>) -> Option<Seq<char>>;

/// `urlencoding::decode`: the percent-decoded text; `None` when the
/// decoded bytes are not UTF-8.
#[verifier::external_body]
fn url_decode(s: &str) -> (r: Option<String>)
    ensures
        match r {
            Some(d) => url_decoded(s@) == Some(d@),
            None => url_decoded(s@) is None,
        },
{
    match urlencoding::decode(s) {
        Ok(d) => Some(d.into_owned()),
        Err(_) => None,
    }
}

/// The decoded text, or the text itself when it does not decode.
pub open spec fn decoded_or_raw(s: Seq<char>) -> Seq<char> {
    match url_decoded(s) {
        Some(d) => d,
        None => s,
    }
}

fn decode_or_keep(s: &Vec<char>) -> (r: String)
    ensures
        r@ == decoded_or_raw(s@),
{
    let raw = string_of(s);
    match url_decode(raw.as_str()) {
        Some(d) => d,
        None => raw,
    }
}

/// One `key=value` piece of a query, both sides decoded (`key` alone
/// means an empty value).
pub open spec fn query_pair(piece: Seq<char>) -> (Seq<char>, Seq<char>) {
    let i = first_index_of(piece, '=');
    if i < piece.len() {
        (decoded_or_raw(piece.take(i)), decoded_or_raw(piece.skip(i + 1)))
    } else {
        (decoded_or_raw(piece), decoded_or_raw(Seq::empty()))
    }
}

/// The pairs of the non-empty pieces, in order.
pub open spec fn query_pairs_of(pieces: Seq<Seq<char>>) -> Seq<(Seq<char>, Seq<char>)>
    decreases pieces.len(),
{
    if pieces.len() == 0 {
        Seq::empty()
    } else {
        let r = query_pairs_of(pieces.drop_last());
        if pieces.last().len() == 0 {
            r
        } else {
            r.push(query_pair(pieces.last()))
        }
    }
}

/// The decoded pairs of a query string.
pub open spec fn query_pairs(q: Seq<char>) -> Seq<(Seq<char>, Seq<char>)> {
    query_pairs_of(split_on(q, '&'))
}

fn split_pieces(s: &Vec<char>, c: char) -> (v: Vec<Vec<char>>)
    ensures
        v@.map_values(|p: Vec<char>| p@) == split_on(s@, c),
{
    let mut v: Vec<Vec<char>> = Vec::new();
    let mut cur: Vec<char> = Vec::new();
    let mut i: usize = 0;
    assert(s@.take(0) =~= Seq::<char>::empty());
    while i < s.len()
        invariant
            i <= s@.len(),
            v@.map_values(|p: Vec<char>| p@).push(cur@) == split_on(s@.take(i as int), c),
        decreases s.len() - i,
    {
        let ghost prev = split_on(s@.take(i as int), c);
        assert(s@.take(i + 1).drop_last() =~= s@.take(i as int));
        assert(s@.take(i + 1).last() == s@[i as int]);
        proof {
            lemma_split_nonempty(s@.take(i as int), c);
        }
        if s[i] == c {
            let ghost before = v@;
            v.push(cur);
            cur = Vec::new();
            assert(v@ == before.push(v@[before.len() as int]));
            assert(v@.map_values(|p: Vec<char>| p@).push(cur@) =~= prev.push(Seq::empty()));
        } else {
            cur.push(s[i]);
            assert(v@.map_values(|p: Vec<char>| p@).push(cur@) =~= prev.update(prev.len() - 1, prev.last().push(s@[i as int])));
        }
        i = i + 1;
    }
    assert(s@.take(s@.len() as int) =~= s@);
    let ghost before = v@;
    v.push(cur);
    assert(v@.map_values(|p: Vec<char>| p@) =~= before.map_values(|p: Vec<char>| p@).push(cur@));
    v
}

/// The decoded pairs of a query string, in order.
pub fn parse_query(query: &str) -> (pairs: Vec<(String, String)>)
    ensures
        crate::urls::pairs_view(pairs@) == query_pairs(query@),
{
    let chars = chars_of(query);
    let pieces = split_pieces(&chars, '&');
    let ghost pv = pieces@.map_values(|p: Vec<char>| p@);
    let mut out: Vec<(String, String)> = Vec::new();
    let mut i: usize = 0;
    while i < pieces.len()
        invariant
            i <= pieces@.len(),
            pv == pieces@.map_values(|p: Vec<char>| p@),
            pv == split_on(query@, '&'),
            crate::urls::pairs_view(out@) == query_pairs_of(pv.take(i as int)),
        decreases pieces.len() - i,
    {
        assert(pv.take(i + 1).drop_last() =~= pv.take(i as int));
        assert(pv.take(i + 1).last() == pieces@[i as int]@);
        let piece = &pieces[i];
        if piece.len() > 0 {
            let eq = find_first(piece, '=');
            proof {
                lemma_first_index_bounds(piece@, '=');
            }
            let (k, v) = if eq < piece.len() {
                let kc = slice_chars(piece, 0, eq);
                let vc = slice_chars(piece, eq + 1, piece.len());
                assert(kc@ =~= piece@.take(eq as int));
                assert(vc@ =~= piece@.skip(eq + 1));
                (decode_or_keep(&kc), decode_or_keep(&vc))
            } else {
                let empty: Vec<char> = Vec::new();
                assert(empty@ =~= Seq::<char>::empty());
                (decode_or_keep(piece), decode_or_keep(&empty))
            };
            let ghost before = out@;
            out.push((k, v));
            assert(out@ == before.push((k, v)));
            assert(crate::urls::pairs_view(out@) =~= crate::urls::pairs_view(before).push((k@, v@)));
        }
        i = i + 1;
    }
    assert(pv.take(pieces@.len() as int) =~= pv);
    out
}

/// The code a redirect request carries for the expected state, or why it
/// carries none.
pub open spec fn redirect_code(request: Seq<char>, path: Seq<char>, expected_state: Seq<char>) -> Result<Seq<char>, Seq<char>> {
    let w = words(first_line(request));
    let method: Seq<char> = if w.len() > 0 {
        w[0]
    } else {
        Seq::empty()
    };
    let target: Seq<char> = if w.len() > 1 {
        w[1]
    } else {
        Seq::empty()
    };
    let q = first_index_of(target, '?');
    let request_path = target.take(q);
    let query = if q < target.len() {
        target.skip(q + 1)
    } else {
        Seq::empty()
    };
    let pairs = query_pairs(query);
    if method != "GET"@ {
        Err("unexpected redirect method: "@ + method)
    } else if request_path != path {
        Err("unexpected redirect path: "@ + request_path)
    } else {
        match last_value(pairs, "state"@) {
            None => Err("missing state in redirect"@),
            Some(s) => if s != expected_state {
                Err("state mismatch during login"@)
            } else {
                match last_value(pairs, "code"@) {
                    None => Err("missing code in redirect"@),
                    Some(c) => Ok(c),
                }
            },
        }
    }
}

/// What the redirect request says: the code, when it is a `GET` of the
/// expected path with the expected state and a code.
pub fn read_redirect_request(request: &str, path: &str, expected_state: &str) -> (r: Result<String, String>)
    ensures
        match redirect_code(request@, path@, expected_state@) {
            Ok(c) => r matches Ok(x) && x@ == c,
            Err(m) => r matches Err(x) && x@ == m,
        },
{
    let chars = chars_of(request);
    let line = first_line_of(&chars);
    let w = parse_scopes(string_of(&line));
    let method = if w.len() > 0 {
        owned(w[0].as_str())
    } else {
        String::new()
    };
    let target = if w.len() > 1 {
        owned(w[1].as_str())
    } else {
        String::new()
    };
    let tc = chars_of(target.as_str());
    let q = find_first(&tc, '?');
    proof {
        lemma_first_index_bounds(tc@, '?');
    }
    let pc = slice_chars(&tc, 0, q);
    assert(pc@ =~= tc@.take(q as int));
    let request_path = string_of(&pc);
    let query = if q < tc.len() {
        let qc = slice_chars(&tc, q + 1, tc.len());
        assert(qc@ =~= tc@.skip(q + 1));
        string_of(&qc)
    } else {
        String::new()
    };
    let pairs = parse_query(query.as_str());
    if method != owned("GET") {
        let mut m = owned("unexpected redirect method: ");
        push_str(&mut m, method.as_str());
        return Err(m);
    }
    if request_path != owned(path) {
        let mut m = owned("unexpected redirect path: ");
        push_str(&mut m, request_path.as_str());
        return Err(m);
    }
    match crate::urls::lookup(&pairs, "state") {
        None => Err(owned("missing state in redirect")),
        Some(s) => if s != owned(expected_state) {
            Err(owned("state mismatch during login"))
        } else {
            match crate::urls::lookup(&pairs, "code") {
                None => Err(owned("missing code in redirect")),
                Some(c) => Ok(c),
            }
        },
    }
}

/// The display name shown for a profile: its display name, else its id,
/// else `You`.
pub fn profile_name(display_name: Option<String>, id: Option<String>) -> (n: String)
    ensures
        n@ == match display_name {
            Some(d) => d@,
            None => match id {
                Some(i) => i@,
                None => "You"@,
            },
        },
{
    match display_name {
        Some(d) => d,
        None => match id {
            Some(i) => i,
            None => owned("You"),
        },
    }
}

/// A fresh login state: `spotify-cli-` and 32 random bytes in base64url.
pub fn oauth_state() -> (s: String)
    ensures
        exists|b: Seq<u8>| b.len() == 32 && s@ == "spotify-cli-"@ + #[trigger] base64_url(b),
        s@.len() == 55,
{
    let bytes = random_bytes(32);
    proof {
        lemma_base64_url_len(bytes@);
        reveal_strlit("spotify-cli-");
    }
    let token = base64_url_nopad(bytes.as_slice());
    let mut s = owned("spotify-cli-");
    push_str(&mut s, token.as_str());
    assert(bytes@.len() == 32 && s@ == "spotify-cli-"@ + base64_url(bytes@));
    s
}

/// A fresh PKCE verifier for the browser login: 32 bytes from the
/// operating system's generator, in base64url.
pub fn pkce_verifier() -> (v: String)
    ensures
        exists|b: Seq<u8>| b.len() == 32 && v@ == #[trigger] base64_url(b),
        v@.len() == 43,
{
    let bytes = os_random_bytes(32);
    proof {
        lemma_base64_url_len(bytes@);
    }
    base64_url_nopad(bytes.as_slice())
}

/// The S256 challenge of a verifier.
pub fn pkce_challenge(verifier: &str) -> (c: String)
    ensures
        c@ == challenge_of(verifier@),
        c@.len() == 43,
{
    challenge_for(verifier)
}

/// The texts of a list of pairs.
pub open spec fn pair_texts(v: Seq<(String, String)>) -> Seq<(Seq<char>, Seq<char>)> {
    v.map_values(|p: (String, String)| (p.0@, p.1@))
}

fn pair(k: &str, v: &str) -> (p: (String, String))
    ensures
        p.0@ == k@,
        p.1@ == v@,
{
    (owned(k), owned(v))
}

/// The form posted to exchange an authorization code for a token.
pub fn code_exchange_form(client_id: &str, redirect_uri: &str, code: &str, code_verifier: &str) -> (f: Vec<
    (String, String),
>)
    ensures
        pair_texts(f@) == seq![
            ("grant_type"@, "authorization_code"@),
            ("code"@, code@),
            ("redirect_uri"@, redirect_uri@),
            ("client_id"@, client_id@),
            ("code_verifier"@, code_verifier@),
        ],
{
    let f = vec![
        pair("grant_type", "authorization_code"),
        pair("code", code),
        pair("redirect_uri", redirect_uri),
        pair("client_id", client_id),
        pair("code_verifier", code_verifier),
    ];
    assert(pair_texts(f@) =~= seq![
        ("grant_type"@, "authorization_code"@),
        ("code"@, code@),
        ("redirect_uri"@, redirect_uri@),
        ("client_id"@, client_id@),
        ("code_verifier"@, code_verifier@),
    ]);
    f
}

/// The form posted to refresh a token.
pub fn refresh_form(client_id: &str, refresh_token: &str) -> (f: Vec<(String, String)>)
    ensures
        pair_texts(f@) == seq![
            ("grant_type"@, "refresh_token"@),
            ("refresh_token"@, refresh_token@),
            ("client_id"@, client_id@),
        ],
{
    let f = vec![
        pair("grant_type", "refresh_token"),
        pair("refresh_token", refresh_token),
        pair("client_id", client_id),
    ];
    assert(pair_texts(f@) =~= seq![
        ("grant_type"@, "refresh_token"@),
        ("refresh_token"@, refresh_token@),
        ("client_id"@, client_id@),
    ]);
    f
}

/// The token a token endpoint answered with, received at `now`: it expires
/// `expires_in` seconds later, and its scopes are the words of `scope`.
pub fn token_from_reply(
    access_token: String,
    refresh_token: Option<String>,
    expires_in: u64,
    scope: Option<String>,
    now: u64,
) -> (t: AuthToken)
    requires
        now + expires_in <= u64::MAX,
    ensures
        t.access_token@ == access_token@,
        opt_view(t.refresh_token) == opt_view(refresh_token),
        t.expires_at == Some((now + expires_in) as u64),
        t.scopes matches Some(v) ==> (scope matches Some(sc) && strings_view(v) == words(sc@)),
        t.scopes is None <==> scope is None,
{
    let scopes = match scope {
        Some(sc) => Some(parse_scopes(sc)),
        None => None,
    };
    AuthToken { access_token, refresh_token, expires_at: Some(now + expires_in), scopes }
}

} // verus!
