//! Token storage with the backend chosen once: the keychain when it is
//! configured and available, else the token file. The keychain part runs
//! here; the file is read, written and removed by the caller when a step
//! says so.

use vstd::prelude::*;
use crate::oauth::token::Token;
use crate::storage::config::TokenStorageBackend;
use crate::storage::paths::{config_dir_in, joined_path, PathError};
use crate::storage::keyring::{KeyringError, KeyringStore};
use crate::storage::token_store::{TokenStore, TokenStoreError};
use crate::text::{owned, push_str};

verus! {

#[derive(Debug)]
pub enum UnifiedTokenError {
    File(TokenStoreError),
    Keyring(KeyringError),
    NotFound,
}

impl UnifiedTokenError {
    pub fn message(&self) -> (m: String)
        ensures
            self is NotFound ==> m@ == "Token not found"@,
    {
        match self {
            UnifiedTokenError::File(e) => {
                let mut m = owned("File storage error: ");
                let inner = e.message();
                push_str(&mut m, inner.as_str());
                m
            },
            UnifiedTokenError::Keyring(e) => {
                let mut m = owned("Keyring error: ");
                let inner = e.message();
                push_str(&mut m, inner.as_str());
                m
            },
            UnifiedTokenError::NotFound => owned("Token not found"),
        }
    }
}

/// Token storage over the keychain or the token file.
pub struct UnifiedTokenStore {
    backend: TokenStorageBackend,
    keyring: Option<KeyringStore>,
    file: TokenStore,
}

/// The backend in use for the configured one, given whether the keychain
/// could be opened: the keychain only when both hold.
pub open spec fn backend_for(preferred: TokenStorageBackend, opened: bool) -> TokenStorageBackend {
    if preferred == TokenStorageBackend::Keyring && opened {
        TokenStorageBackend::Keyring
    } else {
        TokenStorageBackend::File
    }
}

/// What a read of the keychain means for loading: its token text; `None`
/// (read the file) when there is no entry; else the keychain's error.
pub open spec fn load_result(r: Result<String, KeyringError>) -> Result<Option<String>, UnifiedTokenError> {
    match r {
        Ok(t) => Ok(Some(t)),
        Err(KeyringError::NotFound) => Ok(None),
        Err(e) => Err(UnifiedTokenError::Keyring(e)),
    }
}

/// What reading the token file means for the store: a missing file is
/// "not found", any other failure is the file's.
pub open spec fn file_result(r: Result<Token, TokenStoreError>) -> Result<Token, UnifiedTokenError> {
    match r {
        Ok(t) => Ok(t),
        Err(TokenStoreError::NotFound) => Err(UnifiedTokenError::NotFound),
        Err(e) => Err(UnifiedTokenError::File(e)),
    }
}

/// The first step of loading, from the keychain's read outcome.
pub fn load_outcome(r: Result<String, KeyringError>) -> (o: Result<Option<String>, UnifiedTokenError>)
    ensures
        o == load_result(r),
{
    match r {
        Ok(t) => Ok(Some(t)),
        Err(KeyringError::NotFound) => Ok(None),
        Err(e) => Err(UnifiedTokenError::Keyring(e)),
    }
}

/// A token is stored when the keychain entry can be read or the token
/// file exists.
pub open spec fn stored_anywhere(keyring_read_ok: bool, file_exists: bool) -> bool {
    keyring_read_ok || file_exists
}

/// Whether a token is stored, from whether the keychain entry could be read
/// and whether the token file exists.
pub fn exists_outcome(keyring_read_ok: bool, file_exists: bool) -> (b: bool)
    ensures
        b == stored_anywhere(keyring_read_ok, file_exists),
{
    keyring_read_ok || file_exists
}

impl UnifiedTokenStore {
    /// The keychain is in use exactly when it was opened.
    #[verifier::type_invariant]
    spec fn keyring_iff_backend(self) -> bool {
        (self.backend == TokenStorageBackend::Keyring) == (self.keyring is Some)
    }

    pub closed spec fn spec_backend(self) -> TokenStorageBackend {
        self.backend
    }

    /// The token file the store falls back to.
    pub closed spec fn spec_file(self) -> TokenStore {
        self.file
    }

    /// Opens the storage: the token file always, the keychain when it is
    /// the configured backend (falling back to the file when it cannot be
    /// opened).
    pub fn new(preferred_backend: TokenStorageBackend) -> (r: Result<Self, UnifiedTokenError>)
        ensures
            r matches Ok(s) ==> exists|opened: bool| s.spec_backend() == backend_for(preferred_backend, opened),
            r matches Ok(s) ==> exists|h: Seq<char>| s.spec_file()@ == joined_path(
                #[trigger] config_dir_in(h),
                "token.json"@,
            ),
            r matches Err(e) ==> e == UnifiedTokenError::File(TokenStoreError::Path(PathError::NoHomeDir)),
    {
        let file = match TokenStore::new() {
            Ok(f) => f,
            Err(e) => return Err(UnifiedTokenError::File(e)),
        };
        Ok(Self::with_parts(preferred_backend, file))
    }

    /// The storage over a given token file and the keychain store, if one
    /// was opened: the keychain is used when it is configured and open.
    pub fn from_parts(preferred_backend: TokenStorageBackend, file: TokenStore, keyring: Option<KeyringStore>) -> (s:
        Self)
        ensures
            s.spec_backend() == backend_for(preferred_backend, keyring is Some),
            s.spec_file() == file,
    {
        match preferred_backend {
            TokenStorageBackend::Keyring => match keyring {
                Some(k) => UnifiedTokenStore { backend: TokenStorageBackend::Keyring, keyring: Some(k), file },
                None => UnifiedTokenStore { backend: TokenStorageBackend::File, keyring: None, file },
            },
            TokenStorageBackend::File => UnifiedTokenStore {
                backend: TokenStorageBackend::File,
                keyring: None,
                file,
            },
        }
    }

    /// The storage over a given token file, opening the keychain when it is
    /// the configured backend.
    pub fn with_parts(preferred_backend: TokenStorageBackend, file: TokenStore) -> (s: Self)
        ensures
            exists|opened: bool| s.spec_backend() == backend_for(preferred_backend, opened),
            s.spec_file() == file,
    {
        let keyring = match preferred_backend {
            TokenStorageBackend::Keyring => match KeyringStore::new() {
                Ok(k) => Some(k),
                Err(_) => None,
            },
            TokenStorageBackend::File => None,
        };
        let ghost opened = keyring is Some;
        let s = Self::from_parts(preferred_backend, file, keyring);
        assert(s.spec_backend() == backend_for(preferred_backend, opened));
        s
    }

    /// The backend in use.
    pub fn backend(&self) -> (b: TokenStorageBackend)
        ensures
            b == self.spec_backend(),
    {
        self.backend
    }

    /// The token file.
    pub fn file(&self) -> (f: &TokenStore)
        ensures
            *f == self.spec_file(),
    {
        &self.file
    }

    /// Saves the token's JSON text: into the keychain when it is in use
    /// (`Ok(true)`), else `Ok(false)`: the caller writes the token file.
    pub fn save(&self, token_json: &str) -> (r: Result<bool, UnifiedTokenError>)
        ensures
            self.spec_backend() == TokenStorageBackend::File ==> r == Ok::<bool, UnifiedTokenError>(
                false,
            ),
            self.spec_backend() == TokenStorageBackend::Keyring ==> (r matches Ok(b) ==> b),
            r matches Err(e) ==> (e matches UnifiedTokenError::Keyring(KeyringError::Keyring(_))),
    {
        proof {
            use_type_invariant(self);
        }
        match &self.keyring {
            Some(k) => match k.save(token_json) {
                Ok(()) => Ok(true),
                Err(e) => Err(UnifiedTokenError::Keyring(e)),
            },
            None => Ok(false),
        }
    }

    /// The first step of loading: the keychain's token text when it is in
    /// use and holds one (`Ok(Some(text))`); `Ok(None)` when the token file
    /// is to be read instead (the file backend, or a keychain without the
    /// entry); else the keychain's error. The keychain's read outcome goes
    /// through `load_outcome`.
    pub fn load_start(&self) -> (r: Result<Option<String>, UnifiedTokenError>)
        ensures
            self.spec_backend() == TokenStorageBackend::File ==> r == Ok::<
                Option<String>,
                UnifiedTokenError,
            >(None),
            self.spec_backend() == TokenStorageBackend::Keyring ==> exists|kr: Result<String, KeyringError>|
                r == load_result(kr),
    {
        proof {
            use_type_invariant(self);
        }
        match &self.keyring {
            Some(k) => {
                let kr = k.load();
                let ghost g = kr;
                let r = load_outcome(kr);
                assert(r == load_result(g));
                r
            },
            None => Ok(None),
        }
    }

    /// Whether a token read from the file is to be moved into the keychain.
    pub fn migrates_file_token(&self) -> (b: bool)
        ensures
            b == (self.spec_backend() == TokenStorageBackend::Keyring),
    {
        proof {
            use_type_invariant(self);
        }
        self.keyring.is_some()
    }

    /// Moves a token read from the file into the keychain (its JSON text);
    /// true when the keychain stored it, so that the file may be removed.
    pub fn migrate(&self, token_json: &str) -> (stored: bool)
        ensures
            stored ==> self.spec_backend() == TokenStorageBackend::Keyring,
    {
        proof {
            use_type_invariant(self);
        }
        match &self.keyring {
            Some(k) => k.save(token_json).is_ok(),
            None => false,
        }
    }

    /// The second step of loading, once the token file was read (after
    /// `load_start` gave `Ok(None)`): the file's token, "not found" when
    /// there is no file, or the file's error. A token found there is moved
    /// into the keychain when the keychain is in use (`token_json` is its
    /// JSON text); the second component says the keychain stored it, so
    /// that the caller removes the file.
    pub fn finish_load(&self, file_read: Result<Token, TokenStoreError>, token_json: &str) -> (r: (
        Result<Token, UnifiedTokenError>,
        bool,
    ))
        ensures
            r.0 == file_result(file_read),
            r.1 ==> (file_read is Ok && self.spec_backend() == TokenStorageBackend::Keyring),
    {
        let ghost g = file_read;
        match file_outcome(file_read) {
            Ok(t) => {
                let stored = if self.migrates_file_token() {
                    self.migrate(token_json)
                } else {
                    false
                };
                (Ok(t), stored)
            },
            Err(e) => (Err(e), false),
        }
    }

    /// Removes the keychain's token when the keychain is open; the caller
    /// then removes the token file. A missing entry counts as removed.
    pub fn delete(&self) -> (r: Result<(), UnifiedTokenError>)
        ensures
            self.spec_backend() == TokenStorageBackend::File ==> r is Ok,
            r matches Err(e) ==> (e matches UnifiedTokenError::Keyring(KeyringError::Keyring(_))),
    {
        proof {
            use_type_invariant(self);
        }
        match &self.keyring {
            Some(k) => match k.delete() {
                Ok(()) => Ok(()),
                Err(e) => Err(UnifiedTokenError::Keyring(e)),
            },
            None => Ok(()),
        }
    }

    /// Whether a token is stored: in the keychain or the file when the
    /// keychain is in use, else in the file (`file_exists` says whether the
    /// token file exists). The keychain's answer goes through
    /// `exists_outcome`.
    pub fn token_exists(&self, file_exists: bool) -> (b: bool)
        ensures
            self.spec_backend() == TokenStorageBackend::File ==> b == file_exists,
            self.spec_backend() == TokenStorageBackend::Keyring ==> exists|read_ok: bool|
                b == #[trigger] stored_anywhere(read_ok, file_exists),
    {
        proof {
            use_type_invariant(self);
        }
        match &self.keyring {
            Some(k) => {
                let read_ok = k.token_exists();
                let b = exists_outcome(read_ok, file_exists);
                assert(b == stored_anywhere(read_ok, file_exists));
                b
            },
            None => file_exists,
        }
    }
}

/// What reading the token file means for the store: a missing file is
/// "not found", any other failure is the file's.
pub fn file_outcome(r: Result<Token, TokenStoreError>) -> (o: Result<Token, UnifiedTokenError>)
    ensures
        o == file_result(r),
{
    match r {
        Ok(t) => Ok(t),
        Err(TokenStoreError::NotFound) => Err(UnifiedTokenError::NotFound),
        Err(e) => Err(UnifiedTokenError::File(e)),
    }
}

} // verus!
