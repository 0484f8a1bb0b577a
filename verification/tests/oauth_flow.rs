use base64::engine::general_purpose::URL_SAFE_NO_PAD;
use base64::Engine;
use spotify_cli::oauth::callback_server::{
    CallbackError, CallbackServer, CallbackStep, decide_callback, handle_callback_request, DEFAULT_PORT,
    SUCCESS_PAGE,
};
use spotify_cli::oauth::flow::{default_scopes, OAuthError, OAuthFlow};
use spotify_cli::oauth::pkce::{challenge_for, PkceChallenge, VERIFIER_LENGTH};

#[test]
fn redirect_uri_uses_correct_format() {
    let server = CallbackServer::new(8888);
    assert_eq!(server.redirect_uri(), "http://127.0.0.1:8888/callback");
}

#[test]
fn can_customize_port() {
    let server = CallbackServer::new(9999);
    assert_eq!(server.redirect_uri(), "http://127.0.0.1:9999/callback");
}

#[test]
fn callback_server_timeout_defaults_to_five_minutes() {
    let server = CallbackServer::new(1);
    assert_eq!(server.timeout_secs(), 300);
    let server = server.with_timeout(5);
    assert_eq!(server.timeout_secs(), 5);
    assert_eq!(server.port(), 1);
}

#[test]
fn oauth_flow_new_creates_with_defaults() {
    let flow = OAuthFlow::new("test_client_id".to_string());
    assert_eq!(flow.client_id(), "test_client_id");
    assert_eq!(flow.port(), DEFAULT_PORT);
    assert!(flow.redirect_uri().contains("127.0.0.1"));
    assert!(flow.redirect_uri().contains("/callback"));
}

#[test]
fn oauth_flow_with_scopes() {
    let flow = OAuthFlow::new("client".to_string()).with_scopes(vec!["scope1".to_string(), "scope2".to_string()]);
    let scopes = flow.scopes();
    assert_eq!(scopes.len(), 2);
    assert!(scopes.contains(&"scope1".to_string()));
    assert!(scopes.contains(&"scope2".to_string()));
}

#[test]
fn oauth_flow_with_port() {
    let flow = OAuthFlow::new("client".to_string()).with_port(9999);
    assert_eq!(flow.port(), 9999);
    assert!(flow.redirect_uri().contains("9999"));
}

#[test]
fn oauth_flow_port_updates_redirect_uri() {
    let flow = OAuthFlow::new("client".to_string()).with_port(3000);
    assert_eq!(flow.redirect_uri(), "http://127.0.0.1:3000/callback");
}

#[test]
fn default_scopes_contains_required_scopes() {
    let scopes = default_scopes();
    assert!(scopes.contains(&"user-read-playback-state".to_string()));
    assert!(scopes.contains(&"user-modify-playback-state".to_string()));
    assert!(scopes.contains(&"user-library-read".to_string()));
    assert!(scopes.contains(&"user-library-modify".to_string()));
    assert!(scopes.contains(&"playlist-read-private".to_string()));
    assert!(scopes.contains(&"user-read-private".to_string()));
}

#[test]
fn default_scopes_count() {
    assert_eq!(default_scopes().len(), 15);
}

#[test]
fn oauth_error_display_callback() {
    let err = OAuthError::Callback(CallbackError::Timeout);
    let display = err.message();
    assert!(display.contains("Callback"));
    assert_eq!(display, "Callback error: Timeout waiting for callback");
}

#[test]
fn oauth_error_display_browser() {
    let err = OAuthError::Browser("failed to open".to_string());
    let display = err.message();
    assert!(display.contains("browser"));
    assert!(display.contains("failed to open"));
}

#[test]
fn oauth_error_display_token_parse() {
    let display = OAuthError::TokenParse.message();
    assert!(display.contains("token"));
}

#[test]
fn oauth_error_from_callback_error() {
    let callback_err = CallbackError::Timeout;
    let oauth_err: OAuthError = callback_err.into();
    match oauth_err {
        OAuthError::Callback(_) => {}
        _ => panic!("Expected Callback variant"),
    }
}

#[test]
fn oauth_flow_chaining_works() {
    let flow = OAuthFlow::new("client".to_string()).with_port(5000).with_scopes(vec!["scope1".to_string()]);
    assert_eq!(flow.port(), 5000);
    assert_eq!(flow.scopes().len(), 1);
}

#[test]
fn build_auth_url_contains_required_params() {
    let flow = OAuthFlow::new("test_client".to_string());
    let pkce = PkceChallenge::generate();
    let url = flow.build_auth_url(&pkce);
    assert!(url.starts_with("https://accounts.spotify.com/authorize?"));
    assert!(url.contains("client_id=test_client"));
    assert!(url.contains("response_type=code"));
    assert!(url.contains("code_challenge_method=S256"));
    assert!(url.contains("redirect_uri=http%3A%2F%2F127.0.0.1%3A8888%2Fcallback"));
    assert!(url.contains("scope=user-read-playback-state+user-modify-playback-state"));
}

#[test]
fn build_auth_url_includes_pkce_challenge() {
    let flow = OAuthFlow::new("client".to_string());
    let pkce = PkceChallenge::generate();
    let url = flow.build_auth_url(&pkce);
    assert!(url.contains(&pkce.challenge));
}

#[test]
fn build_auth_url_exact_for_small_flow() {
    let flow = OAuthFlow::new("c id".to_string()).with_port(1).with_scopes(vec!["a".to_string(), "b".to_string()]);
    let pkce = PkceChallenge { verifier: "v".to_string(), challenge: "ch~".to_string() };
    assert_eq!(
        flow.build_auth_url(&pkce),
        "https://accounts.spotify.com/authorize?client_id=c+id&response_type=code&redirect_uri=http%3A%2F%2F127.0.0.1%3A1%2Fcallback&scope=a+b&code_challenge_method=S256&code_challenge=ch%7E"
    );
}

#[test]
fn verifier_has_correct_length() {
    let pkce = PkceChallenge::generate();
    assert_eq!(pkce.verifier.len(), VERIFIER_LENGTH);
}

#[test]
fn verifier_uses_valid_characters() {
    let pkce = PkceChallenge::generate();
    let valid_chars: &str = "ABCDEFGHIJKLMNOPQRSTUVWXYZabcdefghijklmnopqrstuvwxyz0123456789-._~";
    for c in pkce.verifier.chars() {
        assert!(valid_chars.contains(c));
    }
}

#[test]
fn challenge_is_sha256_of_verifier() {
    let pkce = PkceChallenge::generate();
    assert_eq!(pkce.challenge, challenge_for(&pkce.verifier));
    assert_eq!(pkce.challenge.len(), 43);
}

#[test]
fn challenge_matches_rfc7636_example() {
    assert_eq!(
        challenge_for("dBjftJeZ4CVP-mB92K27uhbUJU1p1r_wW1gFWFOEjXk"),
        "E9Melhoa2OwvFrEMTJguCHaoeK1t8URWbuGJSstw-cM"
    );
}

fn pairs(v: &[(&str, &str)]) -> Vec<(String, String)> {
    v.iter().map(|(k, v)| (k.to_string(), v.to_string())).collect()
}

#[test]
fn callback_other_path_is_ignored() {
    assert!(matches!(decide_callback(&"/favicon.ico".to_string(), &pairs(&[])), CallbackStep::Ignore));
}

#[test]
fn callback_with_code_finishes() {
    match decide_callback(&"/callback".to_string(), &pairs(&[("code", "abc"), ("state", "xyz")])) {
        CallbackStep::Finish { page: Some(page), result: Ok(result) } => {
            assert_eq!(page, SUCCESS_PAGE);
            assert_eq!(result.code, "abc");
            assert_eq!(result.state, Some("xyz".to_string()));
        }
        other => panic!("unexpected {:?}", other),
    }
}

#[test]
fn callback_error_reports_description() {
    match decide_callback(&"/callback".to_string(), &pairs(&[("error", "access_denied"), ("error_description", "nope")])) {
        CallbackStep::Finish { page: Some(page), result: Err(CallbackError::Denied(d)) } => {
            assert_eq!(d, "nope");
            assert!(page.contains("<p>nope</p>"));
        }
        other => panic!("unexpected {:?}", other),
    }
    match decide_callback(&"/callback".to_string(), &pairs(&[("error", "access_denied")])) {
        CallbackStep::Finish { result: Err(CallbackError::Denied(d)), .. } => assert_eq!(d, "access_denied"),
        other => panic!("unexpected {:?}", other),
    }
}

#[test]
fn callback_without_code_is_missing_code() {
    assert!(matches!(
        decide_callback(&"/callback".to_string(), &pairs(&[("state", "s")])),
        CallbackStep::Finish { page: None, result: Err(CallbackError::MissingCode) }
    ));
}

#[test]
fn callback_request_target_is_parsed_and_decoded() {
    match handle_callback_request("/callback?code=a%20b&state=s") {
        CallbackStep::Finish { result: Ok(result), .. } => {
            assert_eq!(result.code, "a b");
            assert_eq!(result.state, Some("s".to_string()));
        }
        other => panic!("unexpected {:?}", other),
    }
    assert!(matches!(handle_callback_request("/other?code=1"), CallbackStep::Ignore));
}

#[test]
fn challenge_is_base64url_encoded() {
    let pkce = PkceChallenge::generate();
    assert!(URL_SAFE_NO_PAD.decode(&pkce.challenge).is_ok());
}
