//! Stored OAuth2 tokens.
use std::time::SystemTime;
use vstd::prelude::*;

verus! {

/// OAuth2 token pair (access and refresh tokens).
#[derive(Debug, Clone)]
pub struct TokenPair {
    pub access_token: String,
    pub refresh_token: Option<String>,
    pub expires_at: SystemTime,
}

} // verus!
