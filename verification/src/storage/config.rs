//! The `[spotify-cli]` section of the configuration file.

use vstd::prelude::*;
use crate::storage::paths::PathError;
use crate::text::{owned, push_str};

verus! {

/// Where tokens are kept.
#[derive(Debug, Clone, Copy, PartialEq, Eq, Structural)]
pub enum TokenStorageBackend {
    /// The system keychain (the default).
    Keyring,
    File,
}

impl Default for TokenStorageBackend {
    fn default() -> (b: Self)
        ensures
            b == TokenStorageBackend::Keyring,
    {
        TokenStorageBackend::Keyring
    }
}

impl TokenStorageBackend {
    /// The backend a configuration value names (`keyring` or `file`).
    pub fn from_name(s: &str) -> (r: Option<TokenStorageBackend>)
        ensures
            r == (if s@ == "keyring"@ {
                Some(TokenStorageBackend::Keyring)
            } else if s@ == "file"@ {
                Some(TokenStorageBackend::File)
            } else {
                None
            }),
    {
        let t = owned(s);
        if t == owned("keyring") {
            Some(TokenStorageBackend::Keyring)
        } else if t == owned("file") {
            Some(TokenStorageBackend::File)
        } else {
            None
        }
    }

    /// The configuration value naming the backend.
    pub fn name(&self) -> (s: &'static str)
        ensures
            s@ == match self {
                TokenStorageBackend::Keyring => "keyring"@,
                TokenStorageBackend::File => "file"@,
            },
    {
        match self {
            TokenStorageBackend::Keyring => "keyring",
            TokenStorageBackend::File => "file",
        }
    }
}

/// The application's registration and token storage choice.
#[derive(Debug, Clone)]
pub struct SpotifyConfig {
    pub client_id: String,
    pub token_storage: TokenStorageBackend,
}

impl SpotifyConfig {
    /// The required field that is missing: the client id must not be empty.
    pub fn missing_field(&self) -> (r: Option<String>)
        ensures
            self.client_id@.len() == 0 ==> (r matches Some(f) && f@ == "client_id"@),
            self.client_id@.len() > 0 ==> r is None,
    {
        if self.client_id.as_str().is_empty() {
            Some(owned("client_id"))
        } else {
            None
        }
    }
}

/// Why the configuration could not be had. The errors of reading,
/// parsing and writing the file are carried as their messages.
#[derive(Debug)]
pub enum ConfigError {
    NotFound(String),
    Read(String),
    Parse(String),
    Serialize(String),
    Path(PathError),
    MissingField(String),
}

pub open spec fn config_error_text(e: ConfigError) -> Seq<char> {
    match e {
        ConfigError::NotFound(p) => "Config file not found at "@ + p@,
        ConfigError::Read(m) => "Failed to read config: "@ + m@,
        ConfigError::Parse(m) => "Failed to parse config: "@ + m@,
        ConfigError::Serialize(m) => "Failed to serialize config: "@ + m@,
        ConfigError::Path(_) => "Could not determine config path: Could not determine home directory"@,
        ConfigError::MissingField(f) => "Missing required field: "@ + f@,
    }
}

fn prefixed(prefix: &str, rest: &str) -> (r: String)
    ensures
        r@ == prefix@ + rest@,
{
    let mut r = owned(prefix);
    push_str(&mut r, rest);
    r
}

impl ConfigError {
    /// The error's message.
    pub fn message(&self) -> (m: String)
        ensures
            m@ == config_error_text(*self),
    {
        match self {
            ConfigError::NotFound(p) => prefixed("Config file not found at ", p.as_str()),
            ConfigError::Read(x) => prefixed("Failed to read config: ", x.as_str()),
            ConfigError::Parse(x) => prefixed("Failed to parse config: ", x.as_str()),
            ConfigError::Serialize(x) => prefixed("Failed to serialize config: ", x.as_str()),
            ConfigError::Path(_) => owned("Could not determine config path: Could not determine home directory"),
            ConfigError::MissingField(f) => prefixed("Missing required field: ", f.as_str()),
        }
    }
}

impl SpotifyConfig {
    /// The configuration as loaded, or the error for its missing field.
    pub fn checked(self) -> (r: Result<SpotifyConfig, ConfigError>)
        ensures
            self.client_id@.len() > 0 ==> r == Ok::<SpotifyConfig, ConfigError>(self),
            self.client_id@.len() == 0 ==> (r matches Err(ConfigError::MissingField(f)) && f@ == "client_id"@),
    {
        match self.missing_field() {
            Some(f) => Err(ConfigError::MissingField(f)),
            None => Ok(self),
        }
    }
}

} // verus!
