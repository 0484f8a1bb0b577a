//! PKCE (RFC 7636): a random code verifier and its S256 challenge.

use vstd::prelude::*;
use vstd::string::*;
use vstd::utf8::*;
use crate::text::push_char;

verus! {

/// Characters of a verifier.
pub const VERIFIER_LENGTH: usize = 128;

/// The unreserved characters a verifier is drawn from.
pub const VERIFIER_CHARSET: &'static str = "ABCDEFGHIJKLMNOPQRSTUVWXYZabcdefghijklmnopqrstuvwxyz0123456789-._~";

/// A code verifier and the challenge sent in its place.
#[derive(Debug)]
pub struct PkceChallenge {
    pub verifier: String,
    pub challenge: String,
}

/// Digit `v < 64` of the URL-safe base64 alphabet.
pub open spec fn b64_digit(v: int) -> char {
    if v < 26 {
        (65 + v) as char
    } else if v < 52 {
        (97 + (v - 26)) as char
    } else if v < 62 {
        (48 + (v - 52)) as char
    } else if v == 62 {
        '-'
    } else {
        '_'
    }
}

/// URL-safe base64 without padding (RFC 4648, section 5): each group of
/// three bytes gives four digits, a final group of one or two bytes gives
/// two or three.
pub open spec fn base64_url(b: Seq<u8>) -> Seq<char>
    decreases b.len(),
{
    if b.len() == 0 {
        Seq::empty()
    } else if b.len() == 1 {
        seq![b64_digit(b[0] as int / 4), b64_digit((b[0] as int % 4) * 16)]
    } else if b.len() == 2 {
        seq![
            b64_digit(b[0] as int / 4),
            b64_digit((b[0] as int % 4) * 16 + b[1] as int / 16),
            b64_digit((b[1] as int % 16) * 4),
        ]
    } else {
        seq![
            b64_digit(b[0] as int / 4),
            b64_digit((b[0] as int % 4) * 16 + b[1] as int / 16),
            b64_digit((b[1] as int % 16) * 4 + b[2] as int / 64),
            b64_digit(b[2] as int % 64),
        ] + base64_url(b.subrange(3, b.len() as int))
    }
}

/// `n` bytes encode to `ceil(4n / 3)` digits.
pub proof fn lemma_base64_url_len(b: Seq<u8>)
    ensures
        base64_url(b).len() == (4 * b.len() + 2) / 3,
    decreases b.len(),
{
    if b.len() >= 3 {
        lemma_base64_url_len(b.subrange(3, b.len() as int));
    }
}

/// `base64::engine::general_purpose::URL_SAFE_NO_PAD.encode(bytes)`: the
/// URL-safe alphabet, no `=` padding.
#[verifier::external_body]
pub(crate) fn base64_url_nopad(bytes: &[u8]) -> (s: String)
    ensures
        s@ == base64_url(bytes@),
{
    base64::Engine::encode(&base64::engine::general_purpose::URL_SAFE_NO_PAD, bytes)
}

/// Name for the SHA-256 digest of a byte string.
pub uninterp spec fn sha256_of(bytes: Seq<u8>) -> Seq<u8>;

/// `sha2::Sha256` over the bytes: the 32-byte digest.
#[verifier::external_body]
fn sha256(bytes: &[u8]) -> (d: Vec<u8>)
    ensures
        d@ == sha256_of(bytes@),
        d@.len() == 32,
{
    let mut hasher = <sha2::Sha256 as sha2::Digest>::new();
    sha2::Digest::update(&mut hasher, bytes);
    sha2::Digest::finalize(hasher).to_vec()
}

/// A uniformly drawn index below `n`, from the thread's random generator
/// (`rand::thread_rng().gen_range(0..n)`). Only the range is stated.
#[verifier::external_body]
fn random_below(n: usize) -> (i: usize)
    requires
        n > 0,
    ensures
        i < n,
{
    rand::Rng::gen_range(&mut rand::thread_rng(), 0..n)
}

/// `n` bytes from the thread's random generator
/// (`rand::RngCore::fill_bytes` on a buffer of that length). Only the length
/// is stated.
#[verifier::external_body]
pub(crate) fn random_bytes(n: usize) -> (b: Vec<u8>)
    ensures
        b@.len() == n,
{
    let mut b = vec![0u8; n];
    rand::RngCore::fill_bytes(&mut rand::thread_rng(), &mut b);
    b
}

/// `n` bytes from the operating system's generator
/// (`rand::RngCore::fill_bytes` on `rand::rngs::OsRng`). Only the length is
/// stated.
#[verifier::external_body]
pub(crate) fn os_random_bytes(n: usize) -> (b: Vec<u8>)
    ensures
        b@.len() == n,
{
    let mut b = vec![0u8; n];
    rand::RngCore::fill_bytes(&mut rand::rngs::OsRng, &mut b);
    b
}

/// The S256 challenge of a verifier: base64url of the SHA-256 of its bytes.
pub open spec fn challenge_of(verifier: Seq<char>) -> Seq<char> {
    base64_url(sha256_of(encode_utf8(verifier)))
}

/// Every character of `s` is one a verifier may hold.
pub open spec fn verifier_chars(s: Seq<char>) -> bool {
    forall|i: int| 0 <= i < s.len() ==> VERIFIER_CHARSET@.contains(#[trigger] s[i])
}

/// The S256 challenge of `verifier`.
pub fn challenge_for(verifier: &str) -> (c: String)
    ensures
        c@ == challenge_of(verifier@),
        c@.len() == 43,
{
    let digest = sha256(verifier.as_bytes());
    proof {
        lemma_base64_url_len(digest@);
    }
    base64_url_nopad(digest.as_slice())
}

/// A random verifier: 128 characters drawn from the unreserved set.
pub fn generate_verifier() -> (v: String)
    ensures
        v@.len() == VERIFIER_LENGTH,
        verifier_chars(v@),
{
    proof {
        reveal_strlit("ABCDEFGHIJKLMNOPQRSTUVWXYZabcdefghijklmnopqrstuvwxyz0123456789-._~");
    }
    let n = VERIFIER_CHARSET.unicode_len();
    let mut v = String::new();
    let mut k: usize = 0;
    while k < VERIFIER_LENGTH
        invariant
            k <= VERIFIER_LENGTH,
            n == VERIFIER_CHARSET@.len(),
            n == 66,
            v@.len() == k,
            verifier_chars(v@),
        decreases VERIFIER_LENGTH - k,
    {
        let i = random_below(n);
        let c = VERIFIER_CHARSET.get_char(i);
        let ghost before = v@;
        push_char(&mut v, c);
        assert forall|j: int| 0 <= j < v@.len() implies VERIFIER_CHARSET@.contains(#[trigger] v@[j]) by {
            if j < before.len() {
                assert(v@[j] == before[j]);
            } else {
                assert(v@[j] == VERIFIER_CHARSET@[i as int]);
            }
        }
        k = k + 1;
    }
    v
}

impl PkceChallenge {
    /// A fresh random verifier with its challenge.
    pub fn generate() -> (p: Self)
        ensures
            p.verifier@.len() == VERIFIER_LENGTH,
            verifier_chars(p.verifier@),
            p.challenge@ == challenge_of(p.verifier@),
            p.challenge@.len() == 43,
    {
        let verifier = generate_verifier();
        let challenge = challenge_for(verifier.as_str());
        PkceChallenge { verifier, challenge }
    }
}

} // verus!
