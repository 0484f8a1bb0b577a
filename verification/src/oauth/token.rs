//! OAuth token values and expiry arithmetic.

use vstd::prelude::*;

verus! {

/// A token counts as expired this many seconds before it really expires.
pub const TOKEN_EXPIRY_BUFFER_SECS: u64 = 60;

/// OAuth token with its absolute expiry time (Unix seconds).
#[derive(Debug)]
pub struct Token {
    pub access_token: String,
    pub token_type: String,
    pub scope: String,
    pub expires_at: u64,
    pub refresh_token: Option<String>,
}

/// Token response of Spotify's token endpoint (expiry relative, in seconds).
#[derive(Debug)]
pub struct SpotifyTokenResponse {
    pub access_token: String,
    pub token_type: String,
    pub scope: String,
    pub expires_in: u64,
    pub refresh_token: Option<String>,
}

/// `a + b`, capped at `u64::MAX`.
pub open spec fn sat_add(a: u64, b: u64) -> u64 {
    if a + b <= u64::MAX { (a + b) as u64 } else { u64::MAX }
}

/// The current time in seconds since the Unix epoch (0 if the clock is
/// before it), as `SystemTime::now().duration_since(UNIX_EPOCH)` gives it.
/// Nothing is stated of the value: it is the machine's clock.
#[verifier::external_body]
pub(crate) fn current_timestamp() -> (t: u64) {
    std::time::SystemTime::now()
        .duration_since(std::time::UNIX_EPOCH)
        .unwrap_or(std::time::Duration::ZERO)
        .as_secs()
}

impl Token {
    /// The token that a response issued at time `now` describes.
    pub fn from_response_at(response: SpotifyTokenResponse, now: u64) -> (t: Token)
        ensures
            t.access_token == response.access_token,
            t.token_type == response.token_type,
            t.scope == response.scope,
            t.refresh_token == response.refresh_token,
            t.expires_at == sat_add(now, response.expires_in),
    {
        let expires_at = now.saturating_add(response.expires_in);
        Token {
            access_token: response.access_token,
            token_type: response.token_type,
            scope: response.scope,
            expires_at,
            refresh_token: response.refresh_token,
        }
    }

    /// Create a token from Spotify's API response, converting the relative
    /// expiry to an absolute timestamp with the current time.
    pub fn from_response(response: SpotifyTokenResponse) -> (t: Token)
        ensures
            t.access_token == response.access_token,
            t.token_type == response.token_type,
            t.scope == response.scope,
            t.refresh_token == response.refresh_token,
            t.expires_at >= response.expires_in,
    {
        Self::from_response_at(response, current_timestamp())
    }

    /// Expired, or expiring within the buffer, at time `now`.
    pub fn is_expired_at(&self, now: u64) -> (b: bool)
        ensures
            b == (now + TOKEN_EXPIRY_BUFFER_SECS >= self.expires_at),
    {
        if self.expires_at <= TOKEN_EXPIRY_BUFFER_SECS {
            true
        } else {
            now >= self.expires_at - TOKEN_EXPIRY_BUFFER_SECS
        }
    }

    /// Check if the token is expired or about to expire, by the machine's
    /// clock: a token whose expiry lies within the buffer of the epoch
    /// always is.
    pub fn is_expired(&self) -> (b: bool)
        ensures
            self.expires_at <= TOKEN_EXPIRY_BUFFER_SECS ==> b,
    {
        self.is_expired_at(current_timestamp())
    }

    /// Seconds from `now` until expiry; negative once expired.
    pub fn seconds_until_expiry_at(&self, now: u64) -> (s: i64)
        ensures
            s == (self.expires_at as i64).wrapping_sub(now as i64),
            self.expires_at <= i64::MAX && now <= i64::MAX ==> s == self.expires_at - now,
    {
        let e = self.expires_at as i64;
        let n = now as i64;
        e.wrapping_sub(n)
    }

    /// Get seconds until the token expires (negative if already expired).
    pub fn seconds_until_expiry(&self) -> (s: i64) {
        self.seconds_until_expiry_at(current_timestamp())
    }
}

/// A token read at the moment it was issued is expired exactly when its
/// lifetime is within the buffer; and the time left is its lifetime.
pub proof fn lemma_fresh_token(now: u64, expires_in: u64)
    requires
        now + expires_in <= i64::MAX,
    ensures
        (now + TOKEN_EXPIRY_BUFFER_SECS >= sat_add(now, expires_in)) == (expires_in <= TOKEN_EXPIRY_BUFFER_SECS),
        sat_add(now, expires_in) - now == expires_in,
{
}

/// Once expired, a token stays expired: expiry is monotone in time.
pub proof fn lemma_expiry_monotone(expires_at: u64, t1: u64, t2: u64)
    requires
        t1 <= t2,
        t1 + TOKEN_EXPIRY_BUFFER_SECS >= expires_at,
    ensures
        t2 + TOKEN_EXPIRY_BUFFER_SECS >= expires_at,
{
}

} // verus!
