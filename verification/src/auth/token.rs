//! Signed tokens: the access token that authorizes a request and the
//! refresh token that renews it.
pub mod access_token;
pub mod clock;
pub mod constants;
pub mod errors;
pub mod jwt;
pub mod keys;
pub mod refresh_token;
