//! Password hashing and the request guard.
pub mod errors;
pub mod password;
pub mod validate_request;
