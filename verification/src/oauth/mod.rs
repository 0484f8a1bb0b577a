//! OAuth 2.0 authorization code flow with PKCE: tokens, challenge and
//! callback handling.

pub mod token;
pub mod callback_server;
pub mod pkce;
pub mod flow;
