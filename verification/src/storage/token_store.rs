//! The token file, `~/.config/spotify-cli/token.json`. Reading and
//! writing it is the caller's; this is where it is and what its errors say.

use vstd::prelude::*;
use crate::storage::paths::{config_dir_in, joined_path, PathError, token_file};
use crate::text::{owned, push_str};

verus! {

#[derive(Debug)]
pub enum TokenStoreError {
    Path(PathError),
    /// Creating the directory or reading or writing the file failed.
    CreateDir(String),
    Serialize(String),
    NotFound,
}

impl TokenStoreError {
    pub fn message(&self) -> (m: String)
        ensures
            m@ == match self {
                TokenStoreError::Path(_) => "Could not determine config directory: "@ + "Could not determine home directory"@,
                TokenStoreError::CreateDir(e) => "Failed to create directory: "@ + e@,
                TokenStoreError::Serialize(e) => "Failed to serialize token: "@ + e@,
                TokenStoreError::NotFound => "Token not found"@,
            },
    {
        match self {
            TokenStoreError::Path(p) => {
                let mut m = owned("Could not determine config directory: ");
                let inner = p.message();
                push_str(&mut m, inner.as_str());
                m
            },
            TokenStoreError::CreateDir(e) => {
                let mut m = owned("Failed to create directory: ");
                push_str(&mut m, e.as_str());
                m
            },
            TokenStoreError::Serialize(e) => {
                let mut m = owned("Failed to serialize token: ");
                push_str(&mut m, e.as_str());
                m
            },
            TokenStoreError::NotFound => owned("Token not found"),
        }
    }
}

/// The token file's location.
#[derive(Debug)]
pub struct TokenStore {
    path: String,
}

impl View for TokenStore {
    type V = Seq<char>;

    closed spec fn view(&self) -> Seq<char> {
        self.path@
    }
}

impl TokenStore {
    /// The store at `~/.config/spotify-cli/token.json`.
    pub fn new() -> (r: Result<TokenStore, TokenStoreError>)
        ensures
            r matches Err(e) ==> e == TokenStoreError::Path(PathError::NoHomeDir),
            r matches Ok(s) ==> exists|h: Seq<char>| s@ == joined_path(#[trigger] config_dir_in(h), "token.json"@),
    {
        match token_file() {
            Ok(path) => Ok(TokenStore { path }),
            Err(e) => Err(TokenStoreError::Path(e)),
        }
    }

    /// A store at the given file.
    pub fn at(path: String) -> (s: TokenStore)
        ensures
            s@ == path@,
    {
        TokenStore { path }
    }

    /// The token file.
    pub fn path(&self) -> (p: &str)
        ensures
            p@ == self@,
    {
        self.path.as_str()
    }
}

} // verus!
