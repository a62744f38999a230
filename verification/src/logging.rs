//! Log records.
pub mod log;
