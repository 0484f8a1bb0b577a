//! Spotify account and API logic: login bookkeeping, scopes, request
//! building and response mapping.

pub mod auth;
pub mod error;
pub mod playback;
pub mod search;
pub mod library;
pub mod login;
