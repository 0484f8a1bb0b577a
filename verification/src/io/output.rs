//! The response a command produces.

use vstd::prelude::*;
use crate::json::JsonValue;
use crate::text::owned;

verus! {

#[derive(Debug, Clone, Copy, PartialEq, Eq, Structural)]
pub enum Status {
    Success,
    Error,
}

#[derive(Debug, Clone, Copy, PartialEq, Eq, Structural)]
pub enum ErrorKind {
    Network,
    Api,
    Auth,
    NotFound,
    Forbidden,
    RateLimited,
    Validation,
    Storage,
    Config,
    Player,
}

/// The name of an error kind, as `format!("{:?}", kind)` shows it.
pub open spec fn error_kind_name(k: ErrorKind) -> Seq<char> {
    match k {
        ErrorKind::Network => "Network"@,
        ErrorKind::Api => "Api"@,
        ErrorKind::Auth => "Auth"@,
        ErrorKind::NotFound => "NotFound"@,
        ErrorKind::Forbidden => "Forbidden"@,
        ErrorKind::RateLimited => "RateLimited"@,
        ErrorKind::Validation => "Validation"@,
        ErrorKind::Storage => "Storage"@,
        ErrorKind::Config => "Config"@,
        ErrorKind::Player => "Player"@,
    }
}

pub fn error_kind_name_exec(k: ErrorKind) -> (s: String)
    ensures
        s@ == error_kind_name(k),
{
    match k {
        ErrorKind::Network => owned("Network"),
        ErrorKind::Api => owned("Api"),
        ErrorKind::Auth => owned("Auth"),
        ErrorKind::NotFound => owned("NotFound"),
        ErrorKind::Forbidden => owned("Forbidden"),
        ErrorKind::RateLimited => owned("RateLimited"),
        ErrorKind::Validation => owned("Validation"),
        ErrorKind::Storage => owned("Storage"),
        ErrorKind::Config => owned("Config"),
        ErrorKind::Player => owned("Player"),
    }
}

/// The snake-case label of an error kind, as written into JSON output.
pub open spec fn error_kind_label(k: ErrorKind) -> Seq<char> {
    match k {
        ErrorKind::Network => "network_error"@,
        ErrorKind::Api => "api_error"@,
        ErrorKind::Auth => "auth_error"@,
        ErrorKind::NotFound => "not_found"@,
        ErrorKind::Forbidden => "forbidden"@,
        ErrorKind::RateLimited => "rate_limited"@,
        ErrorKind::Validation => "validation_error"@,
        ErrorKind::Storage => "storage_error"@,
        ErrorKind::Config => "config_error"@,
        ErrorKind::Player => "player_error"@,
    }
}

impl ErrorKind {
    pub fn as_str(&self) -> (s: &'static str)
        ensures
            s@ == error_kind_label(*self),
    {
        proof {
            reveal_strlit("network_error");
            reveal_strlit("api_error");
            reveal_strlit("auth_error");
            reveal_strlit("not_found");
            reveal_strlit("forbidden");
            reveal_strlit("rate_limited");
            reveal_strlit("validation_error");
            reveal_strlit("storage_error");
            reveal_strlit("config_error");
            reveal_strlit("player_error");
        }
        match self {
            ErrorKind::Network => "network_error",
            ErrorKind::Api => "api_error",
            ErrorKind::Auth => "auth_error",
            ErrorKind::NotFound => "not_found",
            ErrorKind::Forbidden => "forbidden",
            ErrorKind::RateLimited => "rate_limited",
            ErrorKind::Validation => "validation_error",
            ErrorKind::Storage => "storage_error",
            ErrorKind::Config => "config_error",
            ErrorKind::Player => "player_error",
        }
    }
}

#[derive(Debug)]
pub struct ErrorInfo {
    pub kind: ErrorKind,
    pub details: Option<JsonValue>,
}

#[derive(Debug)]
pub struct Response {
    pub status: Status,
    pub code: u16,
    pub message: String,
    pub payload: Option<JsonValue>,
    pub error: Option<ErrorInfo>,
}

impl Response {
    pub fn success(code: u16, message: &str) -> (r: Response)
        ensures
            r.status == Status::Success,
            r.code == code,
            r.message@ == message@,
            r.payload is None,
            r.error is None,
    {
        Response { status: Status::Success, code, message: owned(message), payload: None, error: None }
    }

    pub fn success_with_payload(code: u16, message: &str, payload: JsonValue) -> (r: Response)
        ensures
            r.status == Status::Success,
            r.code == code,
            r.message@ == message@,
            r.payload == Some(payload),
            r.error is None,
    {
        Response {
            status: Status::Success,
            code,
            message: owned(message),
            payload: Some(payload),
            error: None,
        }
    }

    pub fn err(code: u16, message: &str, kind: ErrorKind) -> (r: Response)
        ensures
            r.status == Status::Error,
            r.code == code,
            r.message@ == message@,
            r.payload is None,
            r.error matches Some(e) && e.kind == kind && e.details is None,
    {
        Response {
            status: Status::Error,
            code,
            message: owned(message),
            payload: None,
            error: Some(ErrorInfo { kind, details: None }),
        }
    }

    /// An error response whose error carries a text of details.
    pub fn err_with_details(code: u16, message: &str, kind: ErrorKind, details: &str) -> (r: Response)
        ensures
            r.status == Status::Error,
            r.code == code,
            r.message@ == message@,
            r.payload is None,
            r.error matches Some(e) && e.kind == kind && (e.details matches Some(JsonValue::Str(d)) && d@
                == details@),
    {
        Response {
            status: Status::Error,
            code,
            message: owned(message),
            payload: None,
            error: Some(ErrorInfo { kind, details: Some(JsonValue::Str(owned(details))) }),
        }
    }
}

} // verus!
