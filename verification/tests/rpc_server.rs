use spotify_cli::io::output::Response;
use spotify_cli::json::JsonValue;
use spotify_cli::rpc::dispatch::{Dispatcher, Routed};
use spotify_cli::rpc::protocol::error_codes::PARSE_ERROR;
use spotify_cli::rpc::protocol::RpcRequest;
use spotify_cli::rpc::server::{answer, is_blank, request_step, trim_line, LineStep, ServerConfig};

#[test]
fn blank_lines_are_skipped() {
    assert!(is_blank("  \t\r\n"));
    assert!(is_blank(""));
    assert!(!is_blank(" x "));
    assert_eq!(trim_line("  {\"a\":1}\r\n"), "{\"a\":1}");
}

#[test]
fn unparsable_line_gets_parse_error() {
    let d = Dispatcher::new();
    match request_step(&d, Err("expected value".to_string())) {
        LineStep::Answer(r) => {
            let e = r.error.unwrap();
            assert_eq!(e.code, PARSE_ERROR);
            assert_eq!(e.message, "Parse error: expected value");
            assert!(matches!(r.id, JsonValue::Null));
        }
        _ => panic!("expected an answer"),
    }
}

#[test]
fn ping_is_answered_and_notifications_are_not() {
    let d = Dispatcher::new();
    let req = RpcRequest { jsonrpc: "2.0".to_string(), method: "ping".to_string(), params: None, id: None };
    match request_step(&d, Ok(req)) {
        LineStep::Run { routed: Routed::Reply(resp), id } => {
            assert_eq!(resp.message, "pong");
            assert!(answer(id, resp).is_none());
        }
        _ => panic!("expected a reply"),
    }
    let resp = Response::success(200, "ok");
    let a = answer(Some(JsonValue::Str("7".to_string())), resp).unwrap();
    assert!(matches!(a.id, JsonValue::Str(ref s) if s == "7"));
}

#[test]
fn test_server_config_default() {
    let config = ServerConfig::default();
    assert!(config.socket_path.contains("daemon.sock"));
}
