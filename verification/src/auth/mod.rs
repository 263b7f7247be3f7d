//! Authentication support: PKCE and OAuth2 tokens.
pub mod pkce;
pub mod token_storage;
