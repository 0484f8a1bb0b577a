//! Messages for failed Spotify API calls, with a hint at the likely fix.

use vstd::prelude::*;
use crate::text::{contains_chars, chars_of, contains_seq, dec, fmt_u64, owned, push_str};

verus! {

/// Name for the reason phrase `http::StatusCode::canonical_reason` gives a
/// status code (`<unknown status code>` when it has none).
pub uninterp spec fn status_reason(code: u16) -> Seq<char>;

/// The reason phrase of a status code, as `StatusCode`'s `Display` shows it
/// after the number.
#[verifier::external_body]
fn status_reason_text(code: u16) -> (s: String)
    requires
        100 <= code <= 999,
    ensures
        s@ == status_reason(code),
{
    match reqwest::StatusCode::from_u16(code) {
        Ok(status) => status.canonical_reason().unwrap_or("<unknown status code>").to_string(),
        Err(_) => String::new(),
    }
}

pub const SCOPE_HINT: &'static str = "; hint: missing scope, re-run `spotify auth login` and approve scopes";
pub const UNAUTHORIZED_HINT: &'static str = "; hint: token expired or invalid, run `spotify auth login`";
pub const FORBIDDEN_HINT: &'static str = "; hint: playlist may be read-only or missing modify scope, re-run `spotify auth login`";

/// `operation: <code> <reason> <body>`, then a hint: a missing scope when
/// the body says so, else an expired token for 401, else a read-only
/// playlist or missing scope for 403.
pub open spec fn api_error_text(operation: Seq<char>, status: u16, body: Seq<char>) -> Seq<char> {
    let base = operation + ": "@ + dec(status as nat) + " "@ + status_reason(status) + " "@ + body;
    if contains_seq(body, "Insufficient client scope"@) {
        base + SCOPE_HINT@
    } else if status == 401 {
        base + UNAUTHORIZED_HINT@
    } else if status == 403 {
        base + FORBIDDEN_HINT@
    } else {
        base
    }
}

pub fn format_api_error(operation: &str, status: u16, body: &str) -> (m: String)
    requires
        100 <= status <= 999,
    ensures
        m@ == api_error_text(operation@, status, body@),
{
    let mut m = owned(operation);
    push_str(&mut m, ": ");
    let code = fmt_u64(status as u64);
    push_str(&mut m, code.as_str());
    push_str(&mut m, " ");
    let reason = status_reason_text(status);
    push_str(&mut m, reason.as_str());
    push_str(&mut m, " ");
    push_str(&mut m, body);
    let b = chars_of(body);
    let needle = chars_of("Insufficient client scope");
    if contains_chars(&b, &needle) {
        push_str(&mut m, SCOPE_HINT);
    } else if status == 401 {
        push_str(&mut m, UNAUTHORIZED_HINT);
    } else if status == 403 {
        push_str(&mut m, FORBIDDEN_HINT);
    }
    m
}

/// Where API requests go unless overridden.
pub const DEFAULT_API_BASE: &'static str = "https://api.spotify.com/v1";

/// `s` without trailing `/` characters.
pub open spec fn trim_slashes(s: Seq<char>) -> Seq<char>
    decreases s.len(),
{
    if s.len() > 0 && s.last() == '/' {
        trim_slashes(s.drop_last())
    } else {
        s
    }
}

/// The API base: the override when one is set, else the default, without
/// trailing slashes.
pub fn api_base_from(configured: Option<String>) -> (b: String)
    ensures
        b@ == trim_slashes(
            match configured {
                Some(c) => c@,
                None => DEFAULT_API_BASE@,
            },
        ),
{
    let base = match configured {
        Some(c) => c,
        None => owned(DEFAULT_API_BASE),
    };
    let v = chars_of(base.as_str());
    let mut k: usize = v.len();
    assert(v@.take(k as int) =~= v@);
    while k > 0 && v[k - 1] == '/'
        invariant
            k <= v@.len(),
            v@ == base@,
            trim_slashes(base@) == trim_slashes(v@.take(k as int)),
        decreases k,
    {
        assert(v@.take(k as int).drop_last() =~= v@.take(k - 1));
        k = k - 1;
    }
    let r = owned(base.as_str().substring_char(0, k));
    assert(r@ =~= v@.take(k as int));
    r
}

} // verus!
