use spotify_cli::oauth::token::{SpotifyTokenResponse, Token, TOKEN_EXPIRY_BUFFER_SECS};
use std::time::{SystemTime, UNIX_EPOCH};

fn now() -> u64 {
    SystemTime::now().duration_since(UNIX_EPOCH).unwrap().as_secs()
}

fn make_token(expires_in: u64) -> Token {
    let response = SpotifyTokenResponse {
        access_token: "test_access".to_string(),
        token_type: "Bearer".to_string(),
        scope: "user-read-playback-state".to_string(),
        expires_in,
        refresh_token: Some("test_refresh".to_string()),
    };
    Token::from_response(response)
}

#[test]
fn fresh_token_is_not_expired() {
    let token = make_token(3600);
    assert!(!token.is_expired());
}

#[test]
fn token_expiring_soon_is_expired() {
    let token = make_token(30);
    assert!(token.is_expired());
}

#[test]
fn seconds_until_expiry_is_positive_for_fresh_token() {
    let token = make_token(3600);
    assert!(token.seconds_until_expiry() > 0);
}

#[test]
fn token_from_response_sets_fields() {
    let response = SpotifyTokenResponse {
        access_token: "access123".to_string(),
        token_type: "Bearer".to_string(),
        scope: "scope1 scope2".to_string(),
        expires_in: 3600,
        refresh_token: Some("refresh456".to_string()),
    };
    let token = Token::from_response(response);
    assert_eq!(token.access_token, "access123");
    assert_eq!(token.token_type, "Bearer");
    assert_eq!(token.scope, "scope1 scope2");
    assert_eq!(token.refresh_token, Some("refresh456".to_string()));
}

#[test]
fn token_from_response_without_refresh_token() {
    let response = SpotifyTokenResponse {
        access_token: "access123".to_string(),
        token_type: "Bearer".to_string(),
        scope: "scope1".to_string(),
        expires_in: 3600,
        refresh_token: None,
    };
    let token = Token::from_response(response);
    assert!(token.refresh_token.is_none());
}

#[test]
fn token_deserializes_from_json() {
    let token = Token {
        access_token: "access123".to_string(),
        token_type: "Bearer".to_string(),
        scope: "user-read-playback-state".to_string(),
        expires_at: now() + 3600,
        refresh_token: Some("refresh456".to_string()),
    };
    assert_eq!(token.access_token, "access123");
    assert!(!token.is_expired());
}

#[test]
fn expired_token_is_expired() {
    let token = Token {
        access_token: "expired".to_string(),
        token_type: "Bearer".to_string(),
        scope: "scope".to_string(),
        expires_at: now() - 100,
        refresh_token: None,
    };
    assert!(token.is_expired());
}

#[test]
fn seconds_until_expiry_negative_for_expired() {
    let token = Token {
        access_token: "expired".to_string(),
        token_type: "Bearer".to_string(),
        scope: "scope".to_string(),
        expires_at: now() - 100,
        refresh_token: None,
    };
    assert!(token.seconds_until_expiry() < 0);
}

#[test]
fn expiry_at_fixed_times() {
    let response = SpotifyTokenResponse {
        access_token: "a".to_string(),
        token_type: "Bearer".to_string(),
        scope: "s".to_string(),
        expires_in: 3600,
        refresh_token: None,
    };
    let token = Token::from_response_at(response, 1_000);
    assert_eq!(token.expires_at, 4_600);
    assert!(!token.is_expired_at(4_600 - TOKEN_EXPIRY_BUFFER_SECS - 1));
    assert!(token.is_expired_at(4_600 - TOKEN_EXPIRY_BUFFER_SECS));
    assert_eq!(token.seconds_until_expiry_at(4_000), 600);
    assert_eq!(token.seconds_until_expiry_at(4_700), -100);
}

#[test]
fn expiry_saturates_at_the_end_of_time() {
    let response = SpotifyTokenResponse {
        access_token: "a".to_string(),
        token_type: "Bearer".to_string(),
        scope: "s".to_string(),
        expires_in: u64::MAX,
        refresh_token: None,
    };
    let token = Token::from_response_at(response, 5);
    assert_eq!(token.expires_at, u64::MAX);
    assert!(!token.is_expired_at(5));
}
