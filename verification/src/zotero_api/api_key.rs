//! The credential and what the service reports about it.

use vstd::prelude::*;

verus! {

/// Wrapper for the API key string.
pub struct ApiKey(pub String);

impl Clone for ApiKey {
    fn clone(&self) -> (copy: ApiKey)
        ensures
            copy == *self,
    {
        ApiKey(self.0.clone())
    }
}

/// What the key may do with the items of the user's own library.
pub struct KeyUserAccessInfo {
    pub library: bool,
}

/// What the key may access, as far as this library needs to know.
pub struct KeyAccessInfo {
    pub user: KeyUserAccessInfo,
}

/// What the service reports about the key in use.
pub struct ApiKeyInfo {
    pub user_id: u64,
    pub username: String,
    pub access: KeyAccessInfo,
}

impl ApiKeyInfo {
    /// Whether the key grants read access to the user's library.
    pub open spec fn spec_can_access_library(&self) -> bool {
        self.access.user.library
    }

    /// Whether the key grants read access to the user's library.
    #[verifier::when_used_as_spec(spec_can_access_library)]
    pub fn can_access_library(&self) -> (allowed: bool)
        ensures
            allowed == self.access.user.library,
    {
        self.access.user.library
    }
}

/// Why a key cannot be used.
#[derive(Debug)]
pub enum ApiKeyError {
    /// The key lacks read access to the user's library.
    InsufficientRights,
}

} // verus!
