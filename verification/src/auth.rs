//! Credentials, tokens, cookies and the request flows built from them.
pub mod api_requests;
pub mod cookies;
pub mod errors;
pub mod token;
pub mod user;
pub mod utils;
