//! Authentication status values.

use vstd::prelude::*;

verus! {

#[derive(Debug)]
pub struct AuthStatus {
    pub logged_in: bool,
    pub expires_at: Option<u64>,
}

#[derive(Debug)]
pub struct AuthScopes {
    pub required: Vec<String>,
    pub granted: Option<Vec<String>>,
    pub missing: Vec<String>,
}

} // verus!
