//! Persistent storage: configuration, tokens and pins.

pub mod fuzzy;
pub mod pins;
pub mod paths;
pub mod config;
pub mod keyring;
pub mod token_store;
pub mod unified_token;
pub mod scoring;
