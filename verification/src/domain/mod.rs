//! Plain values that commands produce and that output renders.

pub mod auth;
pub mod settings;
pub mod media;
