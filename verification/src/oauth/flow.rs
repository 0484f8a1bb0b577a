//! The authorization code flow with PKCE: its settings, the authorize URL
//! it sends the user to, and its errors. Opening the browser, waiting for
//! the redirect and the token requests are the caller's.

use vstd::prelude::*;
use crate::oauth::callback_server::{CallbackError, DEFAULT_PORT, redirect_uri, redirect_uri_for};
use crate::oauth::pkce::PkceChallenge;
use crate::rpc::dispatch::strings_view;
use crate::spotify::auth::clone_strings;
use crate::text::{join_strings, joined, owned, push_str, texts};
use crate::urls::{form_encode, form_pairs, pairs_view};

verus! {

/// Where the user authorizes the application.
pub const AUTHORIZE_URL: &'static str = "https://accounts.spotify.com/authorize";

/// Why the flow stopped.
#[derive(Debug)]
pub enum OAuthError {
    Callback(CallbackError),
    /// The token endpoint refused or failed; its message.
    Auth(String),
    Browser(String),
    TokenParse,
}

impl OAuthError {
    /// The error's message.
    pub fn message(&self) -> (m: String)
        ensures
            m@ == match self {
                OAuthError::Callback(e) => "Callback error: "@ + callback_message(*e),
                OAuthError::Auth(e) => "Auth error: "@ + e@,
                OAuthError::Browser(e) => "Failed to open browser: "@ + e@,
                OAuthError::TokenParse => "Failed to parse token response"@,
            },
    {
        match self {
            OAuthError::Callback(e) => {
                let mut m = owned("Callback error: ");
                let inner = e.message();
                push_str(&mut m, inner.as_str());
                m
            },
            OAuthError::Auth(e) => {
                let mut m = owned("Auth error: ");
                push_str(&mut m, e.as_str());
                m
            },
            OAuthError::Browser(e) => {
                let mut m = owned("Failed to open browser: ");
                push_str(&mut m, e.as_str());
                m
            },
            OAuthError::TokenParse => owned("Failed to parse token response"),
        }
    }
}

/// The message of a callback error.
pub open spec fn callback_message(e: CallbackError) -> Seq<char> {
    match e {
        CallbackError::ServerStart(x) => "Failed to start server: "@ + x@,
        CallbackError::Timeout => "Timeout waiting for callback"@,
        CallbackError::MissingCode => "Missing authorization code"@,
        CallbackError::Denied(x) => "Authorization denied: "@ + x@,
        CallbackError::InvalidRequest => "Invalid callback request"@,
    }
}

impl From<CallbackError> for OAuthError {
    fn from(e: CallbackError) -> (r: OAuthError) {
        OAuthError::Callback(e)
    }
}

impl vstd::std_specs::convert::FromSpecImpl<CallbackError> for OAuthError {
    open spec fn obeys_from_spec() -> bool {
        true
    }

    open spec fn from_spec(e: CallbackError) -> OAuthError {
        OAuthError::Callback(e)
    }
}

/// The scopes asked for unless told otherwise.
pub open spec fn default_scope_names() -> Seq<Seq<char>> {
    seq![
        "user-read-playback-state"@,
        "user-modify-playback-state"@,
        "user-read-currently-playing"@,
        "user-library-read"@,
        "user-library-modify"@,
        "playlist-read-private"@,
        "playlist-read-collaborative"@,
        "playlist-modify-private"@,
        "playlist-modify-public"@,
        "user-read-private"@,
        "user-read-email"@,
        "user-top-read"@,
        "user-read-recently-played"@,
        "user-follow-read"@,
        "user-follow-modify"@,
    ]
}

/// The scopes asked for unless told otherwise.
pub fn default_scopes() -> (v: Vec<String>)
    ensures
        strings_view(v) == default_scope_names(),
{
    let mut v: Vec<String> = Vec::new();
    v.push(owned("user-read-playback-state"));
    v.push(owned("user-modify-playback-state"));
    v.push(owned("user-read-currently-playing"));
    v.push(owned("user-library-read"));
    v.push(owned("user-library-modify"));
    v.push(owned("playlist-read-private"));
    v.push(owned("playlist-read-collaborative"));
    v.push(owned("playlist-modify-private"));
    v.push(owned("playlist-modify-public"));
    v.push(owned("user-read-private"));
    v.push(owned("user-read-email"));
    v.push(owned("user-top-read"));
    v.push(owned("user-read-recently-played"));
    v.push(owned("user-follow-read"));
    v.push(owned("user-follow-modify"));
    assert(strings_view(v) =~= default_scope_names());
    v
}

/// Settings of one authorization: the client, where Spotify redirects to,
/// the scopes asked for and the local port that receives the redirect.
#[derive(Debug)]
pub struct OAuthFlow {
    client_id: String,
    redirect_uri: String,
    scopes: Vec<String>,
    port: u16,
}

/// What a flow is: client id, redirect URI, scopes, port.
pub struct FlowView {
    pub client_id: Seq<char>,
    pub redirect_uri: Seq<char>,
    pub scopes: Seq<Seq<char>>,
    pub port: u16,
}

impl View for OAuthFlow {
    type V = FlowView;

    closed spec fn view(&self) -> FlowView {
        FlowView {
            client_id: self.client_id@,
            redirect_uri: self.redirect_uri@,
            scopes: strings_view(self.scopes),
            port: self.port,
        }
    }
}

/// The flow asking for other scopes.
pub open spec fn flow_with_scopes(f: FlowView, scopes: Seq<Seq<char>>) -> FlowView {
    FlowView { client_id: f.client_id, redirect_uri: f.redirect_uri, scopes, port: f.port }
}

/// The flow receiving the redirect on another port (and so at another URI).
pub open spec fn flow_with_port(f: FlowView, port: u16) -> FlowView {
    FlowView { client_id: f.client_id, redirect_uri: redirect_uri_for(port), scopes: f.scopes, port }
}

/// The redirect URI is the callback server's for the flow's port.
pub open spec fn redirect_matches_port(f: FlowView) -> bool {
    f.redirect_uri == redirect_uri_for(f.port)
}

/// Choosing the port and the scopes are independent: either order gives
/// the same flow.
pub proof fn lemma_settings_commute(f: FlowView, port: u16, scopes: Seq<Seq<char>>)
    ensures
        flow_with_port(flow_with_scopes(f, scopes), port) == flow_with_scopes(flow_with_port(f, port), scopes),
{
}

/// A new flow redirects to the callback server on its port, and changing
/// the port or the scopes keeps it so.
pub proof fn lemma_redirect_follows_port(client_id: Seq<char>, f: FlowView, port: u16, scopes: Seq<Seq<char>>)
    ensures
        redirect_matches_port(
            FlowView {
                client_id,
                redirect_uri: redirect_uri_for(DEFAULT_PORT),
                scopes: default_scope_names(),
                port: DEFAULT_PORT,
            },
        ),
        redirect_matches_port(flow_with_port(f, port)),
        redirect_matches_port(f) ==> redirect_matches_port(flow_with_scopes(f, scopes)),
{
}

/// The query of the authorize URL, in order.
pub open spec fn authorize_query(f: FlowView, challenge: Seq<char>) -> Seq<(Seq<char>, Seq<char>)> {
    seq![
        ("client_id"@, f.client_id),
        ("response_type"@, "code"@),
        ("redirect_uri"@, f.redirect_uri),
        ("scope"@, joined(f.scopes, " "@)),
        ("code_challenge_method"@, "S256"@),
        ("code_challenge"@, challenge),
    ]
}

impl OAuthFlow {
    /// A flow for `client_id` with the default scopes, on the default port.
    pub fn new(client_id: String) -> (f: Self)
        ensures
            f@.client_id == client_id@,
            f@.port == DEFAULT_PORT,
            f@.redirect_uri == redirect_uri_for(DEFAULT_PORT),
            f@.scopes == default_scope_names(),
    {
        OAuthFlow {
            client_id,
            redirect_uri: redirect_uri(DEFAULT_PORT),
            scopes: default_scopes(),
            port: DEFAULT_PORT,
        }
    }

    /// The same flow asking for `scopes` instead.
    pub fn with_scopes(self, scopes: Vec<String>) -> (f: Self)
        ensures
            f@ == flow_with_scopes(self@, strings_view(scopes)),
    {
        OAuthFlow { client_id: self.client_id, redirect_uri: self.redirect_uri, scopes, port: self.port }
    }

    /// The same flow receiving the redirect on `port` instead.
    pub fn with_port(self, port: u16) -> (f: Self)
        ensures
            f@ == flow_with_port(self@, port),
    {
        OAuthFlow { client_id: self.client_id, redirect_uri: redirect_uri(port), scopes: self.scopes, port }
    }

    pub fn client_id(&self) -> (s: &str)
        ensures
            s@ == self@.client_id,
    {
        self.client_id.as_str()
    }

    pub fn redirect_uri(&self) -> (s: &str)
        ensures
            s@ == self@.redirect_uri,
    {
        self.redirect_uri.as_str()
    }

    pub fn scopes(&self) -> (v: Vec<String>)
        ensures
            strings_view(v) == self@.scopes,
    {
        clone_strings(&self.scopes)
    }

    pub fn port(&self) -> (p: u16)
        ensures
            p == self@.port,
    {
        self.port
    }

    /// The URL to send the user to: the authorize endpoint with the client,
    /// `response_type=code`, the redirect URI, the space-separated scopes and
    /// the S256 challenge, form-encoded in that order.
    pub fn build_auth_url(&self, pkce: &PkceChallenge) -> (u: String)
        ensures
            u@ == AUTHORIZE_URL@ + "?"@ + form_pairs(authorize_query(self@, pkce.challenge@)),
    {
        let mut pairs: Vec<(String, String)> = Vec::new();
        pairs.push((owned("client_id"), owned(self.client_id.as_str())));
        pairs.push((owned("response_type"), owned("code")));
        pairs.push((owned("redirect_uri"), owned(self.redirect_uri.as_str())));
        pairs.push((owned("scope"), join_strings(&self.scopes, " ")));
        pairs.push((owned("code_challenge_method"), owned("S256")));
        pairs.push((owned("code_challenge"), owned(pkce.challenge.as_str())));
        proof {
            assert(texts(self.scopes@) =~= strings_view(self.scopes));
            assert(pairs_view(pairs@) =~= authorize_query(self@, pkce.challenge@));
        }
        let query = form_encode(&pairs);
        let mut u = owned(AUTHORIZE_URL);
        push_str(&mut u, "?");
        push_str(&mut u, query.as_str());
        u
    }
}

} // verus!
