//! Where the configuration, token and pins files live:
//! `~/.config/spotify-cli/`.

use vstd::prelude::*;
use crate::text::{owned, push_str};

verus! {

/// The application's directory name.
pub const APP_DIR: &'static str = "spotify-cli";

#[derive(Debug, Clone, Copy, PartialEq, Eq, Structural)]
pub enum PathError {
    NoHomeDir,
}

impl PathError {
    pub fn message(&self) -> (m: String)
        ensures
            m@ == "Could not determine home directory"@,
    {
        owned("Could not determine home directory")
    }
}

/// The user's home directory as `dirs::home_dir` finds it (from the
/// environment and the password database), if it is known and valid UTF-8.
/// Nothing is stated of the value: it depends on the machine.
#[verifier::external_body]
fn home_dir() -> (h: Option<String>) {
    dirs::home_dir().and_then(|p| p.to_str().map(|s| s.to_string()))
}

/// `base` with the relative component `part` appended, a `/` between them
/// unless `base` is empty or already ends with one (as `Path::join` does
/// for a relative component on Unix).
pub open spec fn joined_path(base: Seq<char>, part: Seq<char>) -> Seq<char> {
    if base.len() == 0 || base.last() == '/' {
        base + part
    } else {
        base + "/"@ + part
    }
}

pub fn join_path(base: &str, part: &str) -> (p: String)
    ensures
        p@ == joined_path(base@, part@),
{
    let mut p = owned(base);
    let n = base.unicode_len();
    if n > 0 && base.get_char(n - 1) != '/' {
        push_str(&mut p, "/");
    }
    push_str(&mut p, part);
    p
}

/// The configuration directory under a given home directory.
pub open spec fn config_dir_in(home: Seq<char>) -> Seq<char> {
    joined_path(joined_path(home, ".config"@), APP_DIR@)
}

/// A path result by its text.
pub open spec fn path_view(r: Result<String, PathError>) -> Result<Seq<char>, PathError> {
    match r {
        Ok(p) => Ok(p@),
        Err(e) => Err(e),
    }
}

/// The configuration directory for a home directory, if one is known.
pub open spec fn config_dir_of(home: Option<Seq<char>>) -> Result<Seq<char>, PathError> {
    match home {
        Some(h) => Ok(config_dir_in(h)),
        None => Err(PathError::NoHomeDir),
    }
}

/// The file `name` in the configuration directory for a home directory.
pub open spec fn config_path_of(home: Option<Seq<char>>, name: Seq<char>) -> Result<Seq<char>, PathError> {
    match home {
        Some(h) => Ok(joined_path(config_dir_in(h), name)),
        None => Err(PathError::NoHomeDir),
    }
}

/// The configuration directory for a home directory: `home/.config/spotify-cli`,
/// or `NoHomeDir` when no home directory is known.
pub fn config_dir_from(home: Option<String>) -> (r: Result<String, PathError>)
    ensures
        path_view(r) == config_dir_of(crate::rpc::dispatch::opt_view(home)),
{
    match home {
        Some(h) => {
            let c = join_path(h.as_str(), ".config");
            Ok(join_path(c.as_str(), APP_DIR))
        },
        None => Err(PathError::NoHomeDir),
    }
}

/// The file `name` in the configuration directory for a home directory.
pub fn config_path_from(home: Option<String>, name: &str) -> (r: Result<String, PathError>)
    ensures
        path_view(r) == config_path_of(crate::rpc::dispatch::opt_view(home), name@),
{
    match config_dir_from(home) {
        Ok(d) => Ok(join_path(d.as_str(), name)),
        Err(e) => Err(e),
    }
}

/// `~/.config/spotify-cli`, for the home directory the machine reports.
pub fn config_dir() -> (r: Result<String, PathError>)
    ensures
        exists|home: Option<Seq<char>>| path_view(r) == #[trigger] config_dir_of(home),
{
    let home = home_dir();
    let ghost g = crate::rpc::dispatch::opt_view(home);
    let r = config_dir_from(home);
    assert(path_view(r) == config_dir_of(g));
    r
}

/// The file `name` in `~/.config/spotify-cli`, for the home directory the
/// machine reports.
fn config_path(name: &str) -> (r: Result<String, PathError>)
    ensures
        exists|home: Option<Seq<char>>| path_view(r) == #[trigger] config_path_of(home, name@),
{
    let home = home_dir();
    let ghost g = crate::rpc::dispatch::opt_view(home);
    let r = config_path_from(home, name);
    assert(path_view(r) == config_path_of(g, name@));
    r
}

/// `~/.config/spotify-cli/config.toml`.
pub fn config_file() -> (r: Result<String, PathError>)
    ensures
        exists|home: Option<Seq<char>>| path_view(r) == #[trigger] config_path_of(home, "config.toml"@),
{
    config_path("config.toml")
}

/// `~/.config/spotify-cli/token.json`.
pub fn token_file() -> (r: Result<String, PathError>)
    ensures
        exists|home: Option<Seq<char>>| path_view(r) == #[trigger] config_path_of(home, "token.json"@),
{
    config_path("token.json")
}

/// `~/.config/spotify-cli/daemon.sock`, the daemon's socket.
pub fn socket_file() -> (r: Result<String, PathError>)
    ensures
        exists|home: Option<Seq<char>>| path_view(r) == #[trigger] config_path_of(home, "daemon.sock"@),
{
    config_path("daemon.sock")
}

/// `~/.config/spotify-cli/pins.json`.
pub fn pins_file() -> (r: Result<String, PathError>)
    ensures
        exists|home: Option<Seq<char>>| path_view(r) == #[trigger] config_path_of(home, "pins.json"@),
{
    config_path("pins.json")
}

} // verus!
