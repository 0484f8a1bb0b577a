//! The token kept in the system keychain (one entry, service
//! `spotify-cli`, key `oauth_token`), holding the token's JSON text.

use vstd::prelude::*;
use crate::text::{owned, push_str};

verus! {

pub const SERVICE_NAME: &'static str = "spotify-cli";
pub const TOKEN_KEY: &'static str = "oauth_token";

#[verifier::external_type_specification]
#[verifier::external_body]
pub struct ExKeyringEntry(keyring::Entry);

/// A keychain failure: whether it was "no such entry", and its message.
#[derive(Debug)]
pub struct KeyringFailure {
    pub no_entry: bool,
    pub message: String,
}

/// `keyring::Entry::new(service, user)`. Whether it succeeds depends on
/// the platform's credential store; nothing is stated.
#[verifier::external_body]
fn entry_new(service: &str, user: &str) -> (r: Result<keyring::Entry, KeyringFailure>) {
    keyring::Entry::new(service, user).map_err(
        |e| KeyringFailure { no_entry: matches!(e, keyring::Error::NoEntry), message: e.to_string() },
    )
}

/// `Entry::set_password`: stores the text; the outcome depends on the
/// credential store.
#[verifier::external_body]
fn entry_set(entry: &keyring::Entry, text: &str) -> (r: Result<(), KeyringFailure>) {
    entry.set_password(text).map_err(
        |e| KeyringFailure { no_entry: matches!(e, keyring::Error::NoEntry), message: e.to_string() },
    )
}

/// `Entry::get_password`: the stored text; the outcome depends on the
/// credential store.
#[verifier::external_body]
fn entry_get(entry: &keyring::Entry) -> (r: Result<String, KeyringFailure>) {
    entry.get_password().map_err(
        |e| KeyringFailure { no_entry: matches!(e, keyring::Error::NoEntry), message: e.to_string() },
    )
}

/// `Entry::delete_credential`; the outcome depends on the credential store.
#[verifier::external_body]
fn entry_delete(entry: &keyring::Entry) -> (r: Result<(), KeyringFailure>) {
    entry.delete_credential().map_err(
        |e| KeyringFailure { no_entry: matches!(e, keyring::Error::NoEntry), message: e.to_string() },
    )
}

#[derive(Debug)]
pub enum KeyringError {
    /// The credential store failed; its message.
    Keyring(String),
    /// The token could not be turned into text; the reason.
    Serialize(String),
    NotFound,
}

impl KeyringError {
    pub fn message(&self) -> (m: String)
        ensures
            m@ == match self {
                KeyringError::Keyring(e) => "Keyring error: "@ + e@,
                KeyringError::Serialize(e) => "Failed to serialize token: "@ + e@,
                KeyringError::NotFound => "Token not found in keyring"@,
            },
    {
        match self {
            KeyringError::Keyring(e) => {
                let mut m = owned("Keyring error: ");
                push_str(&mut m, e.as_str());
                m
            },
            KeyringError::Serialize(e) => {
                let mut m = owned("Failed to serialize token: ");
                push_str(&mut m, e.as_str());
                m
            },
            KeyringError::NotFound => owned("Token not found in keyring"),
        }
    }
}

/// A failure of the credential store as the library reports it.
pub fn store_error(f: KeyringFailure) -> (e: KeyringError)
    ensures
        e == KeyringError::Keyring(f.message),
{
    KeyringError::Keyring(f.message)
}

/// What a read of the entry means: its text, "not found" when there is no
/// entry, else the store's failure.
pub fn read_outcome(r: Result<String, KeyringFailure>) -> (o: Result<String, KeyringError>)
    ensures
        match r {
            Ok(t) => o == Ok::<String, KeyringError>(t),
            Err(f) => if f.no_entry {
                o == Err::<String, KeyringError>(KeyringError::NotFound)
            } else {
                o == Err::<String, KeyringError>(KeyringError::Keyring(f.message))
            },
        },
{
    match r {
        Ok(t) => Ok(t),
        Err(f) => if f.no_entry {
            Err(KeyringError::NotFound)
        } else {
            Err(store_error(f))
        },
    }
}

/// What a deletion means: an entry that is already gone counts as deleted.
pub fn delete_outcome(r: Result<(), KeyringFailure>) -> (o: Result<(), KeyringError>)
    ensures
        match r {
            Ok(_) => o is Ok,
            Err(f) => if f.no_entry {
                o is Ok
            } else {
                o == Err::<(), KeyringError>(KeyringError::Keyring(f.message))
            },
        },
{
    match r {
        Ok(()) => Ok(()),
        Err(f) => if f.no_entry {
            Ok(())
        } else {
            Err(store_error(f))
        },
    }
}

/// The keychain entry holding the token.
pub struct KeyringStore {
    entry: keyring::Entry,
}

impl KeyringStore {
    /// The entry for service `spotify-cli`, key `oauth_token`.
    pub fn new() -> (r: Result<KeyringStore, KeyringError>)
        ensures
            r matches Err(e) ==> e is Keyring,
    {
        match entry_new(SERVICE_NAME, TOKEN_KEY) {
            Ok(entry) => Ok(KeyringStore { entry }),
            Err(f) => Err(store_error(f)),
        }
    }

    /// Stores the token's JSON text.
    pub fn save(&self, token_json: &str) -> (r: Result<(), KeyringError>)
        ensures
            r matches Err(e) ==> e is Keyring,
    {
        match entry_set(&self.entry, token_json) {
            Ok(()) => Ok(()),
            Err(f) => Err(store_error(f)),
        }
    }

    /// The stored JSON text; `NotFound` when there is none.
    pub fn load(&self) -> (r: Result<String, KeyringError>)
        ensures
            r matches Err(e) ==> (e is NotFound || e is Keyring),
    {
        read_outcome(entry_get(&self.entry))
    }

    /// Removes the entry; one that is already gone is no error.
    pub fn delete(&self) -> (r: Result<(), KeyringError>)
        ensures
            r matches Err(e) ==> e is Keyring,
    {
        delete_outcome(entry_delete(&self.entry))
    }

    /// Whether the entry can be read.
    pub fn token_exists(&self) -> (b: bool) {
        entry_get(&self.entry).is_ok()
    }
}

} // verus!
