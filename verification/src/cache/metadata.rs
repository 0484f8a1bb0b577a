//! The metadata record kept between runs.

use vstd::prelude::*;
use crate::domain::settings::Settings;

verus! {

#[derive(Debug)]
pub struct AuthTokenCache {
    pub access_token: String,
    pub refresh_token: Option<String>,
    pub expires_at: Option<u64>,
    pub granted_scopes: Option<Vec<String>>,
}

#[derive(Debug)]
pub struct ClientIdentity {
    pub client_id: String,
}

#[derive(Debug)]
pub struct Metadata {
    pub auth: Option<AuthTokenCache>,
    pub client: Option<ClientIdentity>,
    pub settings: Settings,
}

} // verus!
