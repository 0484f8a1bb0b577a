//! Cached metadata: the login and the user's settings.

pub mod metadata;
