//! Credentials: OAuth2 bearer tokens and the keychain entries that hold the
//! client credentials.

pub mod token;
pub mod keychain;
