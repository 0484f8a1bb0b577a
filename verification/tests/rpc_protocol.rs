use spotify_cli::io::output::{ErrorKind, Response};
use spotify_cli::json::{JsonNumber, JsonValue};
use spotify_cli::rpc::protocol::error_codes;
use spotify_cli::rpc::protocol::{RpcNotification, RpcRequest, RpcResponse};
use spotify_cli::rpc::server::ServerConfig;

fn num(n: u64) -> JsonValue {
    JsonValue::Number(JsonNumber::PosInt(n))
}

fn obj(entries: Vec<(&str, JsonValue)>) -> JsonValue {
    JsonValue::Object(entries.into_iter().map(|(k, v)| (k.to_string(), v)).collect())
}

fn field<'a>(v: &'a JsonValue, key: &str) -> Option<&'a JsonValue> {
    match v {
        JsonValue::Object(entries) => entries.iter().find(|(k, _)| k == key).map(|(_, v)| v),
        _ => None,
    }
}

fn text(v: Option<&JsonValue>) -> Option<&str> {
    match v {
        Some(JsonValue::Str(s)) => Some(s.as_str()),
        _ => None,
    }
}

#[test]
fn test_rpc_request_parsing() {
    let req = RpcRequest { jsonrpc: "2.0".to_string(), method: "ping".to_string(), params: None, id: Some(num(1)) };

    assert_eq!(req.jsonrpc, "2.0");
    assert_eq!(req.method, "ping");
    assert!(!req.is_notification());
}

#[test]
fn test_rpc_request_with_params() {
    let req = RpcRequest {
        jsonrpc: "2.0".to_string(),
        method: "player.play".to_string(),
        params: Some(obj(vec![("uri", JsonValue::Str("spotify:track:123".to_string()))])),
        id: Some(num(2)),
    };

    assert_eq!(req.method, "player.play");
    assert!(req.params.is_some());
    let params = req.params.unwrap();
    assert_eq!(text(field(&params, "uri")), Some("spotify:track:123"));
}

#[test]
fn test_rpc_notification_no_id() {
    let req = RpcRequest { jsonrpc: "2.0".to_string(), method: "player.next".to_string(), params: None, id: None };

    assert!(req.is_notification());
    assert!(req.id.is_none());
}

#[test]
fn test_rpc_response_success_serialization() {
    let resp = RpcResponse::success(num(1), obj(vec![("status", JsonValue::Str("ok".to_string()))]));

    assert_eq!(resp.jsonrpc, "2.0");
    assert!(resp.result.is_some());
    assert!(matches!(resp.id, JsonValue::Number(JsonNumber::PosInt(1))));
    assert!(resp.error.is_none());
}

#[test]
fn test_rpc_response_error_serialization() {
    let resp = RpcResponse::error(num(1), error_codes::METHOD_NOT_FOUND, "Method not found", None);

    assert!(resp.error.is_some());
    assert_eq!(resp.error.as_ref().unwrap().code, -32601);
    assert!(resp.result.is_none());
}

#[test]
fn test_rpc_notification_serialization() {
    let notif =
        RpcNotification::new("event.trackChanged", Some(obj(vec![("track_id", JsonValue::Str("abc123".to_string()))])));

    assert_eq!(notif.method, "event.trackChanged");
    assert!(notif.params.is_some());
}

#[test]
fn test_rpc_notification_without_params() {
    let notif = RpcNotification::new("event.playbackPaused", None);

    assert_eq!(notif.method, "event.playbackPaused");
    assert!(notif.params.is_none());
}

#[test]
fn test_error_codes_values() {
    assert_eq!(error_codes::PARSE_ERROR, -32700);
    assert_eq!(error_codes::INVALID_REQUEST, -32600);
    assert_eq!(error_codes::METHOD_NOT_FOUND, -32601);
    assert_eq!(error_codes::INVALID_PARAMS, -32602);
    assert_eq!(error_codes::INTERNAL_ERROR, -32603);
}

#[test]
fn test_server_config_custom_path() {
    let config = ServerConfig { socket_path: "/tmp/custom.sock".to_string() };
    assert_eq!(config.socket_path, "/tmp/custom.sock");
}

#[test]
fn test_rpc_response_from_success() {
    let cli_response = Response::success(200, "Success message");
    let rpc_response = RpcResponse::from_response(num(1), cli_response);

    assert!(rpc_response.result.is_some());
    assert!(rpc_response.error.is_none());

    let result = rpc_response.result.unwrap();
    assert_eq!(text(field(&result, "message")), Some("Success message"));
}

#[test]
fn test_rpc_response_from_success_with_payload() {
    let cli_response =
        Response::success_with_payload(200, "Data retrieved", obj(vec![("key", JsonValue::Str("value".to_string()))]));
    let rpc_response = RpcResponse::from_response(num(2), cli_response);

    assert!(rpc_response.result.is_some());
    let result = rpc_response.result.unwrap();
    let payload = field(&result, "payload").unwrap();
    assert_eq!(text(field(payload, "key")), Some("value"));
}

#[test]
fn test_rpc_response_from_error() {
    let cli_response = Response::err(404, "Not found", ErrorKind::NotFound);
    let rpc_response = RpcResponse::from_response(num(3), cli_response);

    assert!(rpc_response.error.is_some());
    assert!(rpc_response.result.is_none());

    let error = rpc_response.error.unwrap();
    assert_eq!(error.code, 404);
    assert_eq!(error.message, "Not found");
    let data = error.data.unwrap();
    assert_eq!(text(field(&data, "kind")), Some("NotFound"));
}
