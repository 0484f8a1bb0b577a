use spotify_cli::storage::config::{ConfigError, SpotifyConfig, TokenStorageBackend};
use spotify_cli::storage::keyring::{delete_outcome, read_outcome, KeyringError, KeyringFailure};
use spotify_cli::storage::paths::{
    config_dir, config_dir_from, config_file, config_path_from, join_path, socket_file, token_file, PathError,
};
use spotify_cli::storage::token_store::{TokenStore, TokenStoreError};
use spotify_cli::oauth::token::Token;
use spotify_cli::storage::unified_token::{exists_outcome, file_outcome, load_outcome, UnifiedTokenError, UnifiedTokenStore};
use std::path::Path;

#[test]
fn keyring_error_display() {
    let display = KeyringError::NotFound.message();
    assert!(display.contains("not found"));
}

#[test]
fn keyring_error_serialize() {
    let json_err = serde_json::from_str::<serde_json::Value>("invalid").unwrap_err();
    let err = KeyringError::Serialize(json_err.to_string());
    let display = err.message();
    assert!(display.contains("serialize"));
}

#[test]
fn keyring_read_outcomes() {
    assert_eq!(read_outcome(Ok("t".to_string())).unwrap(), "t");
    assert!(matches!(
        read_outcome(Err(KeyringFailure { no_entry: true, message: "none".to_string() })),
        Err(KeyringError::NotFound)
    ));
    match read_outcome(Err(KeyringFailure { no_entry: false, message: "locked".to_string() })) {
        Err(KeyringError::Keyring(m)) => assert_eq!(m, "locked"),
        other => panic!("unexpected {:?}", other),
    }
    assert!(delete_outcome(Err(KeyringFailure { no_entry: true, message: String::new() })).is_ok());
    assert!(delete_outcome(Err(KeyringFailure { no_entry: false, message: String::new() })).is_err());
}

#[test]
fn unified_token_error_display() {
    let display = UnifiedTokenError::NotFound.message();
    assert!(display.contains("not found"));
}

#[test]
fn file_backend_creates_successfully() {
    let store = UnifiedTokenStore::new(TokenStorageBackend::File);
    assert!(store.is_ok());
    assert_eq!(store.unwrap().backend(), TokenStorageBackend::File);
}

#[test]
fn exists_returns_false_when_empty() {
    let store = UnifiedTokenStore::with_parts(TokenStorageBackend::File, TokenStore::at("/nonexistent/token.json".to_string()));
    assert!(!store.token_exists(false));
    assert!(store.token_exists(true));
    assert!(!store.migrates_file_token());
    assert!(matches!(store.load_start(), Ok(None)));
    assert!(matches!(store.save("{}"), Ok(false)));
    assert!(store.delete().is_ok());
}

#[test]
fn file_read_outcomes() {
    assert!(matches!(file_outcome(Err(TokenStoreError::NotFound)), Err(UnifiedTokenError::NotFound)));
    assert!(matches!(
        file_outcome(Err(TokenStoreError::CreateDir("denied".to_string()))),
        Err(UnifiedTokenError::File(TokenStoreError::CreateDir(_)))
    ));
}

#[test]
fn config_file_is_toml() {
    let path = config_file().unwrap();
    assert_eq!(Path::new(&path).extension().unwrap(), "toml");
}

#[test]
fn token_file_is_json() {
    let path = token_file().unwrap();
    assert_eq!(Path::new(&path).extension().unwrap(), "json");
}

#[test]
fn config_dir_ends_with_app_name() {
    let dir = config_dir().unwrap();
    assert!(Path::new(&dir).ends_with("spotify-cli"));
    assert!(dir.contains(".config"));
}

#[test]
fn join_path_adds_one_separator() {
    assert_eq!(join_path("/home/u", ".config"), "/home/u/.config");
    assert_eq!(join_path("/home/u/", ".config"), "/home/u/.config");
    assert_eq!(join_path("/", ".config"), "/.config");
    assert_eq!(join_path("", "a"), "a");
}

#[test]
fn path_error_display() {
    assert_eq!(PathError::NoHomeDir.message(), "Could not determine home directory");
    assert_eq!(
        TokenStoreError::Path(PathError::NoHomeDir).message(),
        "Could not determine config directory: Could not determine home directory"
    );
}

#[test]
fn token_storage_backend_default() {
    let backend = TokenStorageBackend::default();
    assert_eq!(backend, TokenStorageBackend::Keyring);
}

#[test]
fn token_storage_backend_names() {
    assert_eq!(TokenStorageBackend::from_name("file"), Some(TokenStorageBackend::File));
    assert_eq!(TokenStorageBackend::from_name("keyring"), Some(TokenStorageBackend::Keyring));
    assert_eq!(TokenStorageBackend::from_name("Keyring"), None);
    assert_eq!(TokenStorageBackend::File.name(), "file");
}

#[test]
fn missing_client_id_is_reported() {
    let empty = SpotifyConfig { client_id: String::new(), token_storage: TokenStorageBackend::Keyring };
    assert_eq!(empty.missing_field(), Some("client_id".to_string()));
    let ok = SpotifyConfig { client_id: "abc".to_string(), token_storage: TokenStorageBackend::File };
    assert_eq!(ok.missing_field(), None);
}

#[test]
fn unix_uses_xdg_config() {
    let dir = config_dir().unwrap();
    assert!(dir.contains(".config"));
}

#[test]
fn socket_file_is_in_config_dir() {
    let sock = socket_file().unwrap();
    let dir = config_dir().unwrap();
    assert_eq!(sock, format!("{}/daemon.sock", dir));
}

#[test]
fn config_error_display() {
    let err = ConfigError::NotFound("/path/to/config".to_string());
    assert!(err.message().contains("/path/to/config"));

    let err = ConfigError::MissingField("client_id".to_string());
    assert!(err.message().contains("client_id"));
}

#[test]
fn empty_client_id_is_a_missing_field() {
    let cfg = SpotifyConfig { client_id: String::new(), token_storage: TokenStorageBackend::File };
    match cfg.checked() {
        Err(e) => assert_eq!(e.message(), "Missing required field: client_id"),
        Ok(_) => panic!("empty client id accepted"),
    }
    let ok = SpotifyConfig { client_id: "abc123".to_string(), token_storage: TokenStorageBackend::Keyring };
    assert_eq!(ok.checked().unwrap().client_id, "abc123");
}

#[test]
fn unified_store_keeps_its_token_file() {
    let store = UnifiedTokenStore::with_parts(TokenStorageBackend::File, TokenStore::at("/tmp/x/token.json".to_string()));
    assert_eq!(store.file().path(), "/tmp/x/token.json");
    let fresh = TokenStore::new().unwrap();
    assert!(fresh.path().ends_with("/.config/spotify-cli/token.json"));
}

#[test]
fn load_outcome_maps_each_keychain_answer() {
    assert!(matches!(load_outcome(Ok("{}".to_string())), Ok(Some(ref t)) if t == "{}"));
    assert!(matches!(load_outcome(Err(KeyringError::NotFound)), Ok(None)));
    assert!(matches!(
        load_outcome(Err(KeyringError::Keyring("locked".to_string()))),
        Err(UnifiedTokenError::Keyring(KeyringError::Keyring(ref m))) if m == "locked"
    ));
}

#[test]
fn exists_outcome_counts_either_store() {
    assert!(exists_outcome(true, false));
    assert!(exists_outcome(false, true));
    assert!(!exists_outcome(false, false));
}

fn token(access: &str) -> Token {
    Token {
        access_token: access.to_string(),
        token_type: "Bearer".to_string(),
        scope: String::new(),
        expires_at: 10,
        refresh_token: None,
    }
}

#[test]
fn finish_load_with_file_backend_never_migrates() {
    let store = UnifiedTokenStore::from_parts(TokenStorageBackend::File, TokenStore::at("t.json".to_string()), None);
    assert_eq!(store.backend(), TokenStorageBackend::File);
    let (r, stored) = store.finish_load(Ok(token("a")), "{}");
    assert_eq!(r.unwrap().access_token, "a");
    assert!(!stored);
    let (r, stored) = store.finish_load(Err(TokenStoreError::NotFound), "");
    assert!(matches!(r, Err(UnifiedTokenError::NotFound)));
    assert!(!stored);
    let (r, _) = store.finish_load(Err(TokenStoreError::Serialize("bad".to_string())), "");
    assert!(matches!(r, Err(UnifiedTokenError::File(TokenStoreError::Serialize(_)))));
}

#[test]
fn keyring_preference_without_keychain_falls_back_to_file() {
    let store = UnifiedTokenStore::from_parts(TokenStorageBackend::Keyring, TokenStore::at("t.json".to_string()), None);
    assert_eq!(store.backend(), TokenStorageBackend::File);
    assert!(!store.migrates_file_token());
}

#[test]
fn config_paths_follow_the_home_directory() {
    assert_eq!(config_dir_from(Some("/home/u".to_string())).unwrap(), "/home/u/.config/spotify-cli");
    assert_eq!(config_dir_from(Some("/".to_string())).unwrap(), "/.config/spotify-cli");
    assert!(matches!(config_dir_from(None), Err(PathError::NoHomeDir)));
    assert_eq!(
        config_path_from(Some("/home/u".to_string()), "token.json").unwrap(),
        "/home/u/.config/spotify-cli/token.json"
    );
    assert_eq!(
        config_path_from(Some("/home/u".to_string()), "config.toml").unwrap(),
        "/home/u/.config/spotify-cli/config.toml"
    );
    assert!(matches!(config_path_from(None, "pins.json"), Err(PathError::NoHomeDir)));
}
