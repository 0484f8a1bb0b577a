//! Login bookkeeping: the cached token, the granted scopes and the user's
//! settings, and the values sent to and read from Spotify's accounts service.

use vstd::prelude::*;
use crate::cache::metadata::{AuthTokenCache, ClientIdentity, Metadata};
use crate::domain::auth::{AuthScopes, AuthStatus};
use crate::domain::settings::Settings;
use crate::oauth::token::current_timestamp;
use crate::text::{owned, push_str, push_char, is_ws, char_is_whitespace};
use crate::rpc::dispatch::{opt_view, strings_view};

verus! {

pub const ACCOUNTS_BASE: &'static str = "https://accounts.spotify.com";
pub const API_BASE: &'static str = "https://api.spotify.com/v1";
pub const REDIRECT_URI_DEFAULT: &'static str = "http://127.0.0.1:8888/callback";

/// The scopes the client asks for, in order.
pub open spec fn required_scopes() -> Seq<Seq<char>> {
    seq![
        "user-read-playback-state"@,
        "user-modify-playback-state"@,
        "user-read-currently-playing"@,
        "user-read-playback-position"@,
        "user-top-read"@,
        "user-read-recently-played"@,
        "user-library-modify"@,
        "user-library-read"@,
        "user-read-private"@,
        "user-read-email"@,
        "user-follow-modify"@,
        "user-follow-read"@,
        "playlist-read-private"@,
        "playlist-read-collaborative"@,
        "playlist-modify-public"@,
        "playlist-modify-private"@,
    ]
}

/// The scopes the client asks for.
pub fn scope_list() -> (v: Vec<String>)
    ensures
        strings_view(v) == required_scopes(),
{
    let mut v: Vec<String> = Vec::new();
    v.push(owned("user-read-playback-state"));
    v.push(owned("user-modify-playback-state"));
    v.push(owned("user-read-currently-playing"));
    v.push(owned("user-read-playback-position"));
    v.push(owned("user-top-read"));
    v.push(owned("user-read-recently-played"));
    v.push(owned("user-library-modify"));
    v.push(owned("user-library-read"));
    v.push(owned("user-read-private"));
    v.push(owned("user-read-email"));
    v.push(owned("user-follow-modify"));
    v.push(owned("user-follow-read"));
    v.push(owned("playlist-read-private"));
    v.push(owned("playlist-read-collaborative"));
    v.push(owned("playlist-modify-public"));
    v.push(owned("playlist-modify-private"));
    assert(strings_view(v) =~= required_scopes());
    v
}

/// OAuth token data returned by Spotify.
#[derive(Debug)]
pub struct AuthToken {
    pub access_token: String,
    pub refresh_token: Option<String>,
    pub expires_at: Option<u64>,
    pub scopes: Option<Vec<String>>,
}

/// Why no usable token can be handed out.
#[derive(Debug, Clone, Copy, PartialEq, Eq, Structural)]
pub enum TokenError {
    NotLoggedIn,
    Expired,
}

pub open spec fn token_error_message(e: TokenError) -> Seq<char> {
    match e {
        TokenError::NotLoggedIn => "not logged in; run `spotify auth login`"@,
        TokenError::Expired => "token expired; run `spotify auth login`"@,
    }
}

impl TokenError {
    pub fn message(&self) -> (s: String)
        ensures
            s@ == token_error_message(*self),
    {
        match self {
            TokenError::NotLoggedIn => owned("not logged in; run `spotify auth login`"),
            TokenError::Expired => owned("token expired; run `spotify auth login`"),
        }
    }
}

/// What obtaining a token needs first.
#[derive(Debug)]
pub enum TokenPlan {
    /// No login is cached.
    NotLoggedIn,
    /// The token is due and can be refreshed with these credentials.
    Refresh { client_id: String, refresh_token: String },
    /// The cached token is to be checked as it is.
    Check,
}

/// A token is due for refresh within a minute of its expiry; one without
/// an expiry never is.
pub open spec fn needs_refresh(expires_at: Option<u64>, now: u64) -> bool {
    match expires_at {
        None => false,
        Some(e) => (if now + 60 <= u64::MAX { now + 60 } else { u64::MAX as int }) >= e,
    }
}

/// A token is due for refresh exactly when it expires within a minute of
/// `now`: every token already past its expiry is due, one expiring more than
/// a minute later is not, once due it stays due as time goes on, and a token
/// without an expiry never is.
pub proof fn lemma_refresh_window(e: u64, now: u64, later: u64)
    ensures
        needs_refresh(Some(e), now) == (now + 60 >= e),
        e <= now ==> needs_refresh(Some(e), now),
        e > now + 60 ==> !needs_refresh(Some(e), now),
        now <= later && needs_refresh(Some(e), now) ==> needs_refresh(Some(e), later),
        !needs_refresh(None, now),
{
}

pub fn token_needs_refresh(expires_at: Option<u64>, now: u64) -> (b: bool)
    ensures
        b == needs_refresh(expires_at, now),
{
    match expires_at {
        None => false,
        Some(e) => now.saturating_add(60) >= e,
    }
}

/// The scopes of `required` that `granted` lacks, in order.
pub open spec fn missing_scopes(required: Seq<Seq<char>>, granted: Seq<Seq<char>>) -> Seq<Seq<char>>
    decreases required.len(),
{
    if required.len() == 0 {
        Seq::empty()
    } else {
        let r = missing_scopes(required.drop_last(), granted);
        if granted.contains(required.last()) {
            r
        } else {
            r.push(required.last())
        }
    }
}

pub open spec fn opt_strings_view(o: Option<Vec<String>>) -> Option<Seq<Seq<char>>> {
    match o {
        Some(v) => Some(strings_view(v)),
        None => None,
    }
}

pub fn clone_string(s: &String) -> (r: String)
    ensures
        r@ == s@,
{
    owned(s.as_str())
}

pub fn clone_opt_string(o: &Option<String>) -> (r: Option<String>)
    ensures
        opt_view(r) == opt_view(*o),
{
    match o {
        Some(s) => Some(clone_string(s)),
        None => None,
    }
}

pub fn clone_strings(v: &Vec<String>) -> (r: Vec<String>)
    ensures
        strings_view(r) == strings_view(*v),
{
    let mut out: Vec<String> = Vec::new();
    let mut i: usize = 0;
    while i < v.len()
        invariant
            i <= v@.len(),
            strings_view(out) == strings_view(*v).take(i as int),
        decreases v.len() - i,
    {
        let c = clone_string(&v[i]);
        let ghost before = out@;
        let ghost sv0 = strings_view(out);
        out.push(c);
        assert(out@ == before.push(c));
        assert(strings_view(out) =~= sv0.push(c@));
        assert(strings_view(*v).take(i + 1) =~= strings_view(*v).take(i as int).push(v@[i as int]@));
        i = i + 1;
    }
    assert(strings_view(*v).take(v@.len() as int) =~= strings_view(*v));
    out
}

pub fn clone_opt_strings(o: &Option<Vec<String>>) -> (r: Option<Vec<String>>)
    ensures
        opt_strings_view(r) == opt_strings_view(*o),
{
    match o {
        Some(v) => Some(clone_strings(v)),
        None => None,
    }
}

fn vec_has(v: &Vec<String>, s: &String) -> (b: bool)
    ensures
        b == strings_view(*v).contains(s@),
{
    let mut i: usize = 0;
    while i < v.len()
        invariant
            i <= v@.len(),
            forall|k: int| 0 <= k < i ==> strings_view(*v)[k] != s@,
        decreases v.len() - i,
    {
        if v[i] == *s {
            assert(strings_view(*v)[i as int] == s@);
            return true;
        }
        i = i + 1;
    }
    false
}

/// The scopes of `required` that `granted` lacks.
pub fn missing(required: &Vec<String>, granted: &Vec<String>) -> (r: Vec<String>)
    ensures
        strings_view(r) == missing_scopes(strings_view(*required), strings_view(*granted)),
{
    let mut out: Vec<String> = Vec::new();
    let mut i: usize = 0;
    while i < required.len()
        invariant
            i <= required@.len(),
            strings_view(out) == missing_scopes(strings_view(*required).take(i as int), strings_view(*granted)),
        decreases required.len() - i,
    {
        assert(strings_view(*required).take(i + 1).drop_last() =~= strings_view(*required).take(i as int));
        if !vec_has(granted, &required[i]) {
            out.push(clone_string(&required[i]));
            assert(strings_view(out) =~= missing_scopes(strings_view(*required).take(i as int), strings_view(*granted)).push(required@[i as int]@));
        }
        i = i + 1;
    }
    assert(strings_view(*required).take(required@.len() as int) =~= strings_view(*required));
    out
}

/// The whitespace-separated words of `s`, in order (`str::split_whitespace`).
pub open spec fn words(s: Seq<char>) -> Seq<Seq<char>>
    decreases s.len(),
{
    if s.len() == 0 {
        Seq::empty()
    } else {
        let w = words(s.drop_last());
        if is_ws(s.last()) {
            w
        } else if s.len() == 1 || is_ws(s[s.len() - 2]) {
            w.push(seq![s.last()])
        } else {
            w.update(w.len() - 1, w.last().push(s.last()))
        }
    }
}

/// Words of `s.take(i)` are the finished words followed by the open one.
spec fn words_state(s: Seq<char>, i: int, done: Seq<Seq<char>>, cur: Seq<char>, in_word: bool) -> bool {
    &&& words(s.take(i)) == if in_word { done.push(cur) } else { done }
    &&& in_word == (i > 0 && !is_ws(s[i - 1]))
    &&& in_word ==> cur.len() > 0
}

/// The scope list of a token response (`scope.split_whitespace()`).
pub fn parse_scopes(scope: String) -> (r: Vec<String>)
    ensures
        strings_view(r) == words(scope@),
{
    let s = crate::text::chars_of(scope.as_str());
    let mut done: Vec<String> = Vec::new();
    let mut cur = String::new();
    let mut in_word = false;
    let mut i: usize = 0;
    assert(s@.take(0) =~= Seq::<char>::empty());
    assert(strings_view(done) =~= Seq::<Seq<char>>::empty());
    while i < s.len()
        invariant
            i <= s@.len(),
            s@ == scope@,
            words_state(s@, i as int, strings_view(done), cur@, in_word),
        decreases s.len() - i,
    {
        let c = s[i];
        let ghost prev = s@.take(i as int);
        let ghost t = s@.take(i + 1);
        let ghost done0 = strings_view(done);
        let ghost cur0 = cur@;
        assert(t.drop_last() =~= prev);
        assert(t.last() == c);
        assert(t.len() == i + 1);
        if char_is_whitespace(c) {
            if in_word {
                let ghost before = done@;
                done.push(cur);
                assert(done@ == before.push(cur));
                assert(strings_view(done) =~= done0.push(cur0));
                cur = String::new();
            }
            in_word = false;
            assert(words(t) == words(prev));
        } else {
            if in_word {
                assert(i >= 1 && !is_ws(s@[i - 1]));
                assert(t[t.len() - 2] == s@[i - 1]);
                push_char(&mut cur, c);
                let ghost w = done0.push(cur0);
                assert(words(t) == w.update(w.len() - 1, w.last().push(c)));
                assert(w.update(w.len() - 1, w.last().push(c)) =~= done0.push(cur@));
            } else {
                assert(i == 0 || is_ws(t[t.len() - 2]));
                cur = String::new();
                push_char(&mut cur, c);
                assert(cur@ =~= seq![c]);
                in_word = true;
                assert(words(t) == done0.push(seq![c]));
            }
        }
        i = i + 1;
    }
    if in_word {
        let ghost before = done@;
        let ghost done0 = strings_view(done);
        let ghost cur0 = cur@;
        done.push(cur);
        assert(done@ == before.push(cur));
        assert(strings_view(done) =~= done0.push(cur0));
    }
    assert(s@.take(s@.len() as int) =~= s@);
    done
}

/// Login and token bookkeeping over the cached metadata record.
#[derive(Debug)]
pub struct AuthService {
    metadata: Metadata,
}

impl View for AuthService {
    type V = Metadata;

    closed spec fn view(&self) -> Metadata {
        self.metadata
    }
}

/// The cached record of a token.
pub open spec fn caches_token(c: AuthTokenCache, t: AuthToken) -> bool {
    &&& c.access_token@ == t.access_token@
    &&& opt_view(c.refresh_token) == opt_view(t.refresh_token)
    &&& c.expires_at == t.expires_at
    &&& opt_strings_view(c.granted_scopes) == opt_strings_view(t.scopes)
}

/// The record after a login with `token`: the token is cached, the client
/// and country are kept, and a known display name replaces the stored one.
pub open spec fn after_login(before: Metadata, after: Metadata, token: AuthToken, user_name: Option<String>) -> bool {
    &&& (after.auth matches Some(c) && caches_token(c, token))
    &&& after.client == before.client
    &&& after.settings.country == before.settings.country
    &&& after.settings.user_name == if user_name is Some {
        user_name
    } else {
        before.settings.user_name
    }
}

/// The answer to a token request at time `now`: not logged in, expired
/// (due for refresh), or the cached token.
pub open spec fn token_answer(m: Metadata, now: u64, r: Result<AuthToken, TokenError>) -> bool {
    match m.auth {
        None => r == Err::<AuthToken, TokenError>(TokenError::NotLoggedIn),
        Some(a) => if needs_refresh(a.expires_at, now) {
            r == Err::<AuthToken, TokenError>(TokenError::Expired)
        } else {
            r matches Ok(t) && caches_token(a, t)
        },
    }
}

/// The login status of a record: logged in when a non-empty access token
/// is cached.
pub open spec fn status_answer(m: Metadata, s: AuthStatus) -> bool {
    match m.auth {
        None => !s.logged_in && s.expires_at is None,
        Some(a) => s.logged_in == (a.access_token@.len() > 0) && s.expires_at == a.expires_at,
    }
}

/// Two tokens carry the same text, expiry and scopes.
pub open spec fn same_token(a: AuthToken, b: AuthToken) -> bool {
    &&& a.access_token@ == b.access_token@
    &&& opt_view(a.refresh_token) == opt_view(b.refresh_token)
    &&& a.expires_at == b.expires_at
    &&& opt_strings_view(a.scopes) == opt_strings_view(b.scopes)
}

/// A cached token is handed out while it has more than a minute left, and
/// reported expired once it is past its expiry.
pub proof fn lemma_token_answer_by_expiry(m: Metadata, now: u64, r: Result<AuthToken, TokenError>)
    requires
        token_answer(m, now, r),
        m.auth matches Some(a) && a.expires_at is Some,
    ensures
        m.auth.unwrap().expires_at.unwrap() > now + 60 ==> (r matches Ok(t) && caches_token(m.auth.unwrap(), t)),
        m.auth.unwrap().expires_at.unwrap() <= now ==> r == Err::<AuthToken, TokenError>(TokenError::Expired),
{
    lemma_refresh_window(m.auth.unwrap().expires_at.unwrap(), now, now);
}

/// A token read back right after logging in with it is that token, as long
/// as it is not yet due for refresh.
pub proof fn lemma_login_then_token(
    before: Metadata,
    after: Metadata,
    token: AuthToken,
    user_name: Option<String>,
    now: u64,
    r: Result<AuthToken, TokenError>,
)
    requires
        after_login(before, after, token, user_name),
        !needs_refresh(token.expires_at, now),
        token_answer(after, now, r),
    ensures
        r matches Ok(t) && same_token(t, token),
{
}

/// Without a cached login (as after `clear`) the status is logged out and
/// a token request is answered "not logged in".
pub proof fn lemma_logged_out(m: Metadata, s: AuthStatus, now: u64, r: Result<AuthToken, TokenError>)
    requires
        m.auth is None,
        status_answer(m, s),
        token_answer(m, now, r),
    ensures
        !s.logged_in,
        r == Err::<AuthToken, TokenError>(TokenError::NotLoggedIn),
{
}

impl AuthService {
    pub fn new(metadata: Metadata) -> (s: Self)
        ensures
            s@ == metadata,
    {
        AuthService { metadata }
    }

    /// The metadata record as it stands (to be saved).
    pub fn metadata(&self) -> (m: &Metadata)
        ensures
            *m == self@,
    {
        &self.metadata
    }

    /// Records a fresh OAuth login: the token, the client and a display name.
    pub fn login_oauth(&mut self, client_id: String, token: AuthToken, user_name: Option<String>)
        ensures
            final(self)@.auth matches Some(c) && caches_token(c, token),
            final(self)@.client matches Some(ci) && ci.client_id == client_id,
            final(self)@.settings.user_name == user_name,
            final(self)@.settings.country is None,
    {
        self.metadata = Metadata {
            auth: Some(AuthTokenCache {
                access_token: token.access_token,
                refresh_token: token.refresh_token,
                expires_at: token.expires_at,
                granted_scopes: token.scopes,
            }),
            client: Some(ClientIdentity { client_id }),
            settings: Settings { country: None, user_name },
        };
    }

    /// Records a token; a known display name replaces the stored one.
    pub fn login(&mut self, token: AuthToken, user_name: Option<String>)
        ensures
            after_login(old(self)@, final(self)@, token, user_name),
    {
        self.metadata.auth = Some(AuthTokenCache {
            access_token: token.access_token,
            refresh_token: token.refresh_token,
            expires_at: token.expires_at,
            granted_scopes: token.scopes,
        });
        if user_name.is_some() {
            self.metadata.settings.user_name = user_name;
        }
    }

    /// Logged in when a non-empty access token is cached.
    pub fn status(&self) -> (s: AuthStatus)
        ensures
            status_answer(self@, s),
    {
        match &self.metadata.auth {
            None => AuthStatus { logged_in: false, expires_at: None },
            Some(auth) => AuthStatus { logged_in: !auth.access_token.as_str().is_empty(), expires_at: auth.expires_at },
        }
    }

    /// Required, granted and missing scopes (nothing is missing when the
    /// granted scopes are unknown).
    pub fn scopes(&self) -> (s: AuthScopes)
        ensures
            strings_view(s.required) == required_scopes(),
            opt_strings_view(s.granted) == match self@.auth {
                Some(a) => opt_strings_view(a.granted_scopes),
                None => None,
            },
            strings_view(s.missing) == match opt_strings_view(s.granted) {
                Some(g) => missing_scopes(required_scopes(), g),
                None => Seq::empty(),
            },
    {
        let required = scope_list();
        let granted = match &self.metadata.auth {
            Some(auth) => clone_opt_strings(&auth.granted_scopes),
            None => None,
        };
        let missing = match &granted {
            Some(g) => missing(&required, g),
            None => Vec::new(),
        };
        AuthScopes { required, granted, missing }
    }

    /// What obtaining a token at time `now` needs first.
    pub fn token_plan(&self, now: u64) -> (p: TokenPlan)
        ensures
            match self@.auth {
                None => p is NotLoggedIn,
                Some(a) => if needs_refresh(a.expires_at, now) && a.refresh_token is Some
                    && self@.client is Some {
                    p matches TokenPlan::Refresh { client_id, refresh_token } && client_id@
                        == self@.client.unwrap().client_id@ && refresh_token@
                        == a.refresh_token.unwrap()@
                } else {
                    p is Check
                },
            },
    {
        match &self.metadata.auth {
            None => TokenPlan::NotLoggedIn,
            Some(auth) => {
                if token_needs_refresh(auth.expires_at, now) {
                    match (&auth.refresh_token, &self.metadata.client) {
                        (Some(refresh), Some(client)) => TokenPlan::Refresh {
                            client_id: clone_string(&client.client_id),
                            refresh_token: clone_string(refresh),
                        },
                        _ => TokenPlan::Check,
                    }
                } else {
                    TokenPlan::Check
                }
            },
        }
    }

    /// Takes in a refreshed token: a new refresh token or scope list
    /// replaces the cached one only when the response carried one.
    pub fn apply_refresh(&mut self, refreshed: AuthToken)
        requires
            old(self)@.auth is Some,
        ensures
            final(self)@.client == old(self)@.client,
            final(self)@.settings == old(self)@.settings,
            final(self)@.auth matches Some(c) && c.access_token == refreshed.access_token
                && c.expires_at == refreshed.expires_at && c.refresh_token == if refreshed.refresh_token is Some {
                refreshed.refresh_token
            } else {
                old(self)@.auth.unwrap().refresh_token
            } && c.granted_scopes == if refreshed.scopes is Some {
                refreshed.scopes
            } else {
                old(self)@.auth.unwrap().granted_scopes
            },
    {
        let old_auth = self.metadata.auth.take();
        match old_auth {
            Some(mut auth) => {
                auth.access_token = refreshed.access_token;
                auth.expires_at = refreshed.expires_at;
                if refreshed.refresh_token.is_some() {
                    auth.refresh_token = refreshed.refresh_token;
                }
                if refreshed.scopes.is_some() {
                    auth.granted_scopes = refreshed.scopes;
                }
                self.metadata.auth = Some(auth);
            },
            None => {},
        }
    }

    /// The cached token if it is usable at time `now`.
    pub fn token_at(&self, now: u64) -> (r: Result<AuthToken, TokenError>)
        ensures
            token_answer(self@, now, r),
    {
        match &self.metadata.auth {
            None => Err(TokenError::NotLoggedIn),
            Some(auth) => {
                if token_needs_refresh(auth.expires_at, now) {
                    Err(TokenError::Expired)
                } else {
                    Ok(AuthToken {
                        access_token: clone_string(&auth.access_token),
                        refresh_token: clone_opt_string(&auth.refresh_token),
                        expires_at: auth.expires_at,
                        scopes: clone_opt_strings(&auth.granted_scopes),
                    })
                }
            },
        }
    }

    /// The cached token if it is usable now (by the machine's clock). A
    /// token due for refresh is answered `Expired` here: refreshing it is an
    /// HTTP request, which the caller makes after `token_plan` says so and
    /// hands back through `apply_refresh` before asking again.
    pub fn token(&self) -> (r: Result<AuthToken, TokenError>)
        ensures
            match self@.auth {
                None => r == Err::<AuthToken, TokenError>(TokenError::NotLoggedIn),
                Some(a) => (r == Err::<AuthToken, TokenError>(TokenError::Expired) && a.expires_at is Some)
                    || (r matches Ok(t) && caches_token(a, t)),
            },
    {
        let now = current_timestamp();
        self.token_at(now)
    }

    /// Forgets the login, the client and the settings.
    pub fn clear(&mut self)
        ensures
            final(self)@.auth is None,
            final(self)@.client is None,
            final(self)@.settings.country is None,
            final(self)@.settings.user_name is None,
    {
        self.metadata = Metadata { auth: None, client: None, settings: Settings::default() };
    }

    pub fn country(&self) -> (c: Option<String>)
        ensures
            opt_view(c) == opt_view(self@.settings.country),
    {
        clone_opt_string(&self.metadata.settings.country)
    }

    pub fn set_country(&mut self, country: Option<String>)
        ensures
            final(self)@.settings.country == country,
            final(self)@.settings.user_name == old(self)@.settings.user_name,
            final(self)@.auth == old(self)@.auth,
            final(self)@.client == old(self)@.client,
    {
        self.metadata.settings.country = country;
    }

    pub fn user_name(&self) -> (n: Option<String>)
        ensures
            opt_view(n) == opt_view(self@.settings.user_name),
    {
        clone_opt_string(&self.metadata.settings.user_name)
    }

    pub fn set_user_name(&mut self, user_name: Option<String>)
        ensures
            final(self)@.settings.user_name == user_name,
            final(self)@.settings.country == old(self)@.settings.country,
            final(self)@.auth == old(self)@.auth,
            final(self)@.client == old(self)@.client,
    {
        self.metadata.settings.user_name = user_name;
    }

    /// The access token to look the profile up with, when no display name
    /// is known yet and a login is cached.
    pub fn profile_token(&self) -> (t: Option<String>)
        ensures
            match (self@.settings.user_name, self@.auth) {
                (None, Some(a)) => t matches Some(x) && x@ == a.access_token@,
                _ => t is None,
            },
    {
        match (&self.metadata.settings.user_name, &self.metadata.auth) {
            (None, Some(auth)) => Some(clone_string(&auth.access_token)),
            _ => None,
        }
    }

    /// The display name: the stored one, else the one just looked up (which
    /// is then stored), else none.
    pub fn ensure_user_name(&mut self, fetched: Option<String>) -> (n: Option<String>)
        ensures
            old(self)@.settings.user_name is Some ==> final(self)@ == old(self)@ && opt_view(n)
                == opt_view(old(self)@.settings.user_name),
            old(self)@.settings.user_name is None ==> opt_view(n) == opt_view(fetched)
                && final(self)@.settings.user_name == fetched && final(self)@.auth == old(
                self,
            )@.auth && final(self)@.client == old(self)@.client && final(self)@.settings.country
                == old(self)@.settings.country,
    {
        if self.metadata.settings.user_name.is_some() {
            return clone_opt_string(&self.metadata.settings.user_name);
        }
        let r = clone_opt_string(&fetched);
        self.metadata.settings.user_name = fetched;
        r
    }
}

} // verus!
