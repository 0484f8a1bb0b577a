use spotify_cli::io::output::{ErrorKind, Response};
use spotify_cli::json::{JsonNumber, JsonValue};
use spotify_cli::rpc::dispatch::{Command, Dispatcher, Routed};
use spotify_cli::rpc::protocol::error_codes::METHOD_NOT_FOUND;
use spotify_cli::rpc::protocol::{RpcNotification, RpcRequest, RpcResponse};

fn obj(entries: Vec<(&str, JsonValue)>) -> JsonValue {
    JsonValue::Object(entries.into_iter().map(|(k, v)| (k.to_string(), v)).collect())
}

fn num(n: u64) -> JsonValue {
    JsonValue::Number(JsonNumber::PosInt(n))
}

#[test]
fn parse_request_with_params() {
    let req = RpcRequest {
        jsonrpc: "2.0".to_string(),
        method: "player.play".to_string(),
        params: Some(obj(vec![("uri", JsonValue::Str("spotify:track:123".to_string()))])),
        id: Some(num(1)),
    };
    assert_eq!(req.method, "player.play");
    assert!(req.params.is_some());
    assert!(!req.is_notification());
}

#[test]
fn parse_notification() {
    let req = RpcRequest { jsonrpc: "2.0".to_string(), method: "player.next".to_string(), params: None, id: None };
    assert!(req.is_notification());
}

#[test]
fn serialize_success_response() {
    let resp = RpcResponse::success(num(1), obj(vec![("status", JsonValue::Str("ok".to_string()))]));
    assert_eq!(resp.jsonrpc, "2.0");
    assert!(resp.result.is_some());
    assert!(resp.error.is_none());
}

#[test]
fn serialize_error_response() {
    let resp = RpcResponse::error(num(1), -32601, "Method not found", None);
    let error = resp.error.as_ref().unwrap();
    assert_eq!(error.code, METHOD_NOT_FOUND);
    assert_eq!(error.message, "Method not found");
    assert!(resp.result.is_none());
}

#[test]
fn serialize_notification() {
    let notif = RpcNotification::new("event.trackChanged", Some(obj(vec![("track", JsonValue::Str("test".to_string()))])));
    assert_eq!(notif.method, "event.trackChanged");
    assert_eq!(notif.jsonrpc, "2.0");
    assert!(notif.params.is_some());
}

#[test]
fn test_dispatcher_default() {
    let _dispatcher = Dispatcher::default();
}

#[test]
fn response_from_command_error_carries_kind() {
    let resp = RpcResponse::from_response(num(7), Response::err(404, "Not found", ErrorKind::Api));
    let error = resp.error.unwrap();
    assert_eq!(error.code, 404);
    assert_eq!(error.message, "Not found");
    assert!(resp.result.is_none());
}

#[test]
fn response_from_command_success_wraps_message() {
    let resp = RpcResponse::from_response(num(7), Response::success(200, "done"));
    match resp.result {
        Some(JsonValue::Object(entries)) => {
            assert_eq!(entries[0].0, "message");
            assert!(matches!(&entries[0].1, JsonValue::Str(m) if m == "done"));
            assert_eq!(entries[1].0, "payload");
            assert!(matches!(entries[1].1, JsonValue::Null));
        }
        other => panic!("unexpected {:?}", other),
    }
}

fn make_request(method: &str, params: Option<JsonValue>) -> RpcRequest {
    RpcRequest { jsonrpc: "2.0".to_string(), method: method.to_string(), params, id: Some(num(1)) }
}

#[test]
fn test_ping() {
    let dispatcher = Dispatcher::new();
    let req = make_request("ping", None);
    match dispatcher.route(&req) {
        Routed::Reply(resp) => assert_eq!(resp.message, "pong"),
        Routed::Run(_) => panic!("ping is answered at once"),
    }
}

#[test]
fn version_routes_to_its_command() {
    let dispatcher = Dispatcher::new();
    let req = make_request("version", None);
    assert!(matches!(dispatcher.route(&req), Routed::Run(Command::Version)));
}

#[test]
fn test_unknown_method() {
    let dispatcher = Dispatcher::new();
    let req = make_request("unknown.method", None);
    match dispatcher.route(&req) {
        Routed::Reply(resp) => {
            assert_eq!(resp.code, 404);
            assert!(resp.message.contains("Method not found"));
        }
        Routed::Run(_) => panic!("unknown methods are refused"),
    }
}

#[test]
fn test_player_transfer_missing_device() {
    let dispatcher = Dispatcher::new();
    let req = make_request("player.transfer", None);
    match dispatcher.route(&req) {
        Routed::Reply(resp) => {
            assert_eq!(resp.code, 400);
            assert!(resp.message.contains("device"));
        }
        Routed::Run(_) => panic!("a transfer needs a device"),
    }
}

#[test]
fn player_transfer_with_device_runs() {
    let dispatcher = Dispatcher::new();
    let req = make_request("player.transfer", Some(obj(vec![("device", JsonValue::Str("abc".to_string()))])));
    match dispatcher.route(&req) {
        Routed::Run(Command::PlayerDevicesTransfer { device }) => assert_eq!(device, "abc"),
        other => panic!("unexpected {:?}", other),
    }
}
