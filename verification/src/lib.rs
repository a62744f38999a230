//! Authentication and session lifecycle engine.
//!
//! The crate decides; it performs no input or output. Passwords are hashed
//! and checked, access and refresh tokens are issued and validated, cookies
//! are written and read, and each request flow (register, login, logout,
//! refresh) is a state machine that names the database request it needs next
//! and is resumed with the reply.
pub mod auth;
pub mod db;
pub mod logging;
pub mod startup;
pub mod utils;
