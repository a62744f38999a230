//! Cookie transport: tokens and the session identifier travel in cookies
//! that scripts cannot read, that only go over TLS, and that are never sent
//! across sites.
pub mod errors;
pub mod headers;
pub mod utils;
