//! The local page that receives Spotify's redirect after the user approves
//! (or denies) access: what each incoming request means and what to answer.

use vstd::prelude::*;
use crate::rpc::dispatch::opt_view;
use crate::text::{dec, fmt_u64, owned, push_str};
use crate::urls::{last_value, lookup, pairs_view, parse_url, parsed_url};

verus! {

/// Port the callback server listens on unless told otherwise.
pub const DEFAULT_PORT: u16 = 8888;

/// Path Spotify redirects to.
pub const CALLBACK_PATH: &'static str = "/callback";

/// How long to wait for the redirect unless told otherwise (5 minutes).
pub const DEFAULT_TIMEOUT_SECS: u64 = 300;

/// The page shown once the code arrived.
pub const SUCCESS_PAGE: &'static str = r#"<!DOCTYPE html>
<html>
<head>
    <title>spotify-cli</title>
    <style>
        body {
            font-family: -apple-system, BlinkMacSystemFont, "Segoe UI", Roboto, sans-serif;
            display: flex;
            justify-content: center;
            align-items: center;
            height: 100vh;
            margin: 0;
            background: #191414;
            color: #1DB954;
        }
        .container { text-align: center; }
        h1 { font-size: 2rem; margin-bottom: 1rem; }
        p { color: #b3b3b3; }
    </style>
</head>
<body>
    <div class="container">
        <h1>Authenticated!</h1>
        <p>You can close this window and return to your terminal.</p>
    </div>
</body>
</html>"#;

/// The part of the error page before the message.
pub const ERROR_PAGE_HEAD: &'static str = r#"<!DOCTYPE html>
<html>
<head>
    <title>spotify-cli - Error</title>
    <style>
        body {
            font-family: -apple-system, BlinkMacSystemFont, "Segoe UI", Roboto, sans-serif;
            display: flex;
            justify-content: center;
            align-items: center;
            height: 100vh;
            margin: 0;
            background: #191414;
            color: #e22134;
        }
        .container { text-align: center; }
        h1 { font-size: 2rem; margin-bottom: 1rem; }
        p { color: #b3b3b3; }
    </style>
</head>
<body>
    <div class="container">
        <h1>Authentication Failed</h1>
        <p>"#;

/// The part of the error page after the message.
pub const ERROR_PAGE_TAIL: &'static str = r#"</p>
    </div>
</body>
</html>"#;

/// Why no authorization code came back.
#[derive(Debug)]
pub enum CallbackError {
    ServerStart(String),
    Timeout,
    MissingCode,
    Denied(String),
    InvalidRequest,
}

impl CallbackError {
    /// The error's message.
    pub fn message(&self) -> (m: String)
        ensures
            m@ == match self {
                CallbackError::ServerStart(e) => "Failed to start server: "@ + e@,
                CallbackError::Timeout => "Timeout waiting for callback"@,
                CallbackError::MissingCode => "Missing authorization code"@,
                CallbackError::Denied(e) => "Authorization denied: "@ + e@,
                CallbackError::InvalidRequest => "Invalid callback request"@,
            },
    {
        match self {
            CallbackError::ServerStart(e) => {
                let mut m = owned("Failed to start server: ");
                push_str(&mut m, e.as_str());
                m
            },
            CallbackError::Timeout => owned("Timeout waiting for callback"),
            CallbackError::MissingCode => owned("Missing authorization code"),
            CallbackError::Denied(e) => {
                let mut m = owned("Authorization denied: ");
                push_str(&mut m, e.as_str());
                m
            },
            CallbackError::InvalidRequest => owned("Invalid callback request"),
        }
    }
}

/// Where the callback server listens, and how long it waits (seconds).
#[derive(Debug)]
pub struct CallbackServer {
    port: u16,
    timeout_secs: u64,
}

impl View for CallbackServer {
    type V = (u16, u64);

    closed spec fn view(&self) -> (u16, u64) {
        (self.port, self.timeout_secs)
    }
}

/// What a successful redirect carried.
#[derive(Debug)]
pub struct CallbackResult {
    pub code: String,
    pub state: Option<String>,
}

/// What to do with one request to the callback server.
#[derive(Debug)]
pub enum CallbackStep {
    /// Not the callback path: answer 404 "Not found" and keep waiting.
    Ignore,
    /// Stop waiting: answer with the page, if any, and report the result.
    Finish { page: Option<String>, result: Result<CallbackResult, CallbackError> },
}

/// `http://127.0.0.1:<port>/callback`.
pub open spec fn redirect_uri_for(port: u16) -> Seq<char> {
    "http://127.0.0.1:"@ + dec(port as nat) + "/callback"@
}

/// The error page showing `message`.
pub open spec fn error_page(message: Seq<char>) -> Seq<char> {
    ERROR_PAGE_HEAD@ + message + ERROR_PAGE_TAIL@
}

impl CallbackServer {
    /// A server on `port` that waits five minutes.
    pub fn new(port: u16) -> (s: Self)
        ensures
            s@ == (port, DEFAULT_TIMEOUT_SECS),
    {
        CallbackServer { port, timeout_secs: DEFAULT_TIMEOUT_SECS }
    }

    /// The same server waiting `timeout_secs` seconds instead.
    pub fn with_timeout(self, timeout_secs: u64) -> (s: Self)
        ensures
            s@ == (self@.0, timeout_secs),
    {
        CallbackServer { port: self.port, timeout_secs }
    }

    pub fn port(&self) -> (p: u16)
        ensures
            p == self@.0,
    {
        self.port
    }

    pub fn timeout_secs(&self) -> (t: u64)
        ensures
            t == self@.1,
    {
        self.timeout_secs
    }

    /// The redirect URI to register with Spotify for this server.
    pub fn redirect_uri(&self) -> (r: String)
        ensures
            r@ == redirect_uri_for(self@.0),
    {
        redirect_uri(self.port)
    }
}

/// `http://127.0.0.1:<port>/callback`.
pub fn redirect_uri(port: u16) -> (r: String)
    ensures
        r@ == redirect_uri_for(port),
{
    let mut r = owned("http://127.0.0.1:");
    let p = fmt_u64(port as u64);
    push_str(&mut r, p.as_str());
    push_str(&mut r, CALLBACK_PATH);
    r
}

/// The page shown once the code arrived.
pub fn success_html() -> (h: String)
    ensures
        h@ == SUCCESS_PAGE@,
{
    owned(SUCCESS_PAGE)
}

/// The page shown when authorization failed.
pub fn error_html(message: &str) -> (h: String)
    ensures
        h@ == error_page(message@),
{
    let mut h = owned(ERROR_PAGE_HEAD);
    push_str(&mut h, message);
    push_str(&mut h, ERROR_PAGE_TAIL);
    h
}

/// `r` is the right step for a request with this path and these query pairs.
pub open spec fn is_callback_step(path: Seq<char>, pairs: Seq<(Seq<char>, Seq<char>)>, r: CallbackStep) -> bool {
    &&& path != CALLBACK_PATH@ ==> r is Ignore
    &&& path == CALLBACK_PATH@ ==> match last_value(pairs, "error"@) {
            Some(e) => {
                let d = match last_value(pairs, "error_description"@) {
                    Some(x) => x,
                    None => e,
                };
                match r {
                    CallbackStep::Finish { page: Some(h), result: Err(CallbackError::Denied(m)) } =>
                        h@ == error_page(d) && m@ == d,
                    _ => false,
                }
            },
            None => match last_value(pairs, "code"@) {
                None => r matches CallbackStep::Finish {
                    page: None,
                    result: Err(CallbackError::MissingCode),
                },
                Some(c) => match r {
                    CallbackStep::Finish { page: Some(h), result: Ok(res) } => h@ == SUCCESS_PAGE@
                        && res.code@ == c && opt_view(res.state) == last_value(
                        pairs,
                        "state"@,
                    ),
                    _ => false,
                },
            },
        }
}

/// What a request with this path and these (decoded) query pairs means:
/// another path is ignored; an `error` pair means access was denied (the
/// description, else the error, is shown and reported); otherwise the `code`
/// pair is the result, with the `state` pair if any.
pub fn decide_callback(path: &String, pairs: &Vec<(String, String)>) -> (r: CallbackStep)
    ensures
        is_callback_step(path@, pairs_view(pairs@), r),
{
    if *path != owned(CALLBACK_PATH) {
        return CallbackStep::Ignore;
    }
    match lookup(pairs, "error") {
        Some(e) => {
            let description = match lookup(pairs, "error_description") {
                Some(d) => d,
                None => e,
            };
            let page = error_html(description.as_str());
            CallbackStep::Finish { page: Some(page), result: Err(CallbackError::Denied(description)) }
        },
        None => match lookup(pairs, "code") {
            None => CallbackStep::Finish { page: None, result: Err(CallbackError::MissingCode) },
            Some(code) => {
                let state = lookup(pairs, "state");
                CallbackStep::Finish {
                    page: Some(success_html()),
                    result: Ok(CallbackResult { code, state }),
                }
            },
        },
    }
}

/// What the request for `target` (the path and query the browser asked
/// for) means, read as a URL on the loopback host; one that does not parse
/// ends the wait with `InvalidRequest` and no page.
pub fn handle_callback_request(target: &str) -> (r: CallbackStep)
    ensures
        match parsed_url("http://127.0.0.1"@ + target@) {
            None => r matches CallbackStep::Finish {
                page: None,
                result: Err(CallbackError::InvalidRequest),
            },
            Some(p) => is_callback_step(p.0, p.1, r),
        },
{
    let mut full = owned("http://127.0.0.1");
    push_str(&mut full, target);
    match parse_url(full.as_str()) {
        None => CallbackStep::Finish { page: None, result: Err(CallbackError::InvalidRequest) },
        Some((path, pairs)) => decide_callback(&path, &pairs),
    }
}

} // verus!
