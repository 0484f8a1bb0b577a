//! Verified core of a Spotify command-line client: pin storage, fuzzy
//! matching, OAuth token bookkeeping, JSON-RPC routing and output rendering.

pub mod text;
pub mod json;
pub mod io;
pub mod rpc;
pub mod oauth;
pub mod domain;
pub mod cache;
pub mod spotify;
pub mod storage;
pub mod types;
pub mod urls;
pub mod output;
