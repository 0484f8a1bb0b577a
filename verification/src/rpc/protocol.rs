//! JSON-RPC 2.0 request, response and notification values.

use vstd::prelude::*;
use crate::io::output::{ErrorInfo, Response, Status, error_kind_name, error_kind_name_exec};
use crate::json::JsonValue;
use crate::text::owned;

pub mod error_codes;

verus! {

/// JSON-RPC 2.0 request.
#[derive(Debug)]
pub struct RpcRequest {
    pub jsonrpc: String,
    pub method: String,
    pub params: Option<JsonValue>,
    pub id: Option<JsonValue>,
}

impl RpcRequest {
    /// A notification carries no id and gets no response.
    pub fn is_notification(&self) -> (b: bool)
        ensures
            b == self.id is None,
    {
        self.id.is_none()
    }
}

/// JSON-RPC 2.0 error object.
#[derive(Debug)]
pub struct RpcError {
    pub code: i32,
    pub message: String,
    pub data: Option<JsonValue>,
}

/// JSON-RPC 2.0 response: exactly one of `result` and `error` is present.
#[derive(Debug)]
pub struct RpcResponse {
    pub jsonrpc: String,
    pub result: Option<JsonValue>,
    pub error: Option<RpcError>,
    pub id: JsonValue,
}

/// An object entry with the given key and value.
pub open spec fn is_entry(e: (String, JsonValue), key: Seq<char>, v: JsonValue) -> bool {
    e.0@ == key && e.1 == v
}

/// An optional value as JSON (`null` when absent).
pub open spec fn or_null(o: Option<JsonValue>) -> JsonValue {
    match o {
        Some(v) => v,
        None => JsonValue::Null,
    }
}

/// A JSON string with the given characters.
pub open spec fn is_str_of(v: JsonValue, s: Seq<char>) -> bool {
    match v {
        JsonValue::Str(x) => x@ == s,
        _ => false,
    }
}

/// `{"message": message, "payload": payload}`.
pub open spec fn is_success_result(v: JsonValue, message: String, payload: Option<JsonValue>) -> bool {
    match v {
        JsonValue::Object(entries) => {
            &&& entries@.len() == 2
            &&& is_entry(entries@[0], "message"@, JsonValue::Str(message))
            &&& is_entry(entries@[1], "payload"@, or_null(payload))
        },
        _ => false,
    }
}

/// `{"details": details, "kind": kind name}` when the command gave error details.
pub open spec fn is_error_data(d: Option<JsonValue>, info: Option<ErrorInfo>) -> bool {
    match info {
        None => d is None,
        Some(i) => match d {
            Some(JsonValue::Object(entries)) => {
                &&& entries@.len() == 2
                &&& is_entry(entries@[0], "details"@, or_null(i.details))
                &&& entries@[1].0@ == "kind"@
                &&& is_str_of(entries@[1].1, error_kind_name(i.kind))
            },
            _ => false,
        },
    }
}

/// `r` answers a request with id `id` with the command's response: a
/// success carries `{"message", "payload"}`, an error the command's code,
/// message and error data.
pub open spec fn is_response_of(r: RpcResponse, id: JsonValue, response: Response) -> bool {
    &&& r.jsonrpc@ == "2.0"@
    &&& r.id == id
    &&& response.status == Status::Success ==> r.error is None && (r.result matches Some(v)
        && is_success_result(v, response.message, response.payload))
    &&& response.status == Status::Error ==> r.result is None && (r.error matches Some(e)
        && e.code == response.code as i32 && e.message@ == response.message@
        && is_error_data(e.data, response.error))
}

impl RpcResponse {
    /// A success response.
    pub fn success(id: JsonValue, result: JsonValue) -> (r: Self)
        ensures
            r.jsonrpc@ == "2.0"@,
            r.result == Some(result),
            r.error is None,
            r.id == id,
    {
        RpcResponse { jsonrpc: owned("2.0"), result: Some(result), error: None, id }
    }

    /// An error response.
    pub fn error(id: JsonValue, code: i32, message: &str, data: Option<JsonValue>) -> (r: Self)
        ensures
            r.jsonrpc@ == "2.0"@,
            r.result is None,
            r.error matches Some(e) && e.code == code && e.message@ == message@ && e.data == data,
            r.id == id,
    {
        RpcResponse {
            jsonrpc: owned("2.0"),
            result: None,
            error: Some(RpcError { code, message: owned(message), data }),
            id,
        }
    }

    /// The response to a request, from the command's response: a success
    /// carries `{"message", "payload"}`, an error carries the command's code,
    /// message and `{"details", "kind"}` when the command gave error details.
    pub fn from_response(id: JsonValue, response: Response) -> (r: Self)
        ensures
            is_response_of(r, id, response),
    {
        match response.status {
            Status::Success => {
                let payload = match response.payload {
                    Some(p) => p,
                    None => JsonValue::Null,
                };
                let mut entries: Vec<(String, JsonValue)> = Vec::new();
                entries.push((owned("message"), JsonValue::Str(response.message)));
                entries.push((owned("payload"), payload));
                Self::success(id, JsonValue::Object(entries))
            },
            Status::Error => {
                let data = match response.error {
                    Some(info) => {
                        let details = match info.details {
                            Some(d) => d,
                            None => JsonValue::Null,
                        };
                        let mut entries: Vec<(String, JsonValue)> = Vec::new();
                        entries.push((owned("details"), details));
                        entries.push(
                            (owned("kind"), JsonValue::Str(error_kind_name_exec(info.kind))),
                        );
                        Some(JsonValue::Object(entries))
                    },
                    None => None,
                };
                Self::error(id, response.code as i32, response.message.as_str(), data)
            },
        }
    }
}

/// JSON-RPC 2.0 notification (server to client, no id).
#[derive(Debug)]
pub struct RpcNotification {
    pub jsonrpc: String,
    pub method: String,
    pub params: Option<JsonValue>,
}

impl RpcNotification {
    pub fn new(method: &str, params: Option<JsonValue>) -> (r: Self)
        ensures
            r.jsonrpc@ == "2.0"@,
            r.method@ == method@,
            r.params == params,
    {
        RpcNotification { jsonrpc: owned("2.0"), method: owned(method), params }
    }
}

} // verus!
