//! User settings kept with the cached metadata.

use vstd::prelude::*;

verus! {

#[derive(Debug)]
pub struct Settings {
    pub country: Option<String>,
    pub user_name: Option<String>,
}

impl Default for Settings {
    fn default() -> (s: Self)
        ensures
            s.country is None,
            s.user_name is None,
    {
        Settings { country: None, user_name: None }
    }
}

} // verus!
