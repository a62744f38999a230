//! Lifetimes, key lengths and signing algorithms of the two token classes.
use vstd::prelude::*;

verus! {

/// The keyed-hash schemes that sign tokens.
#[derive(Debug, Clone, Copy, PartialEq, Eq, Structural)]
pub enum SigningAlgorithm {
    /// HMAC with SHA-256.
    HS256,
    /// HMAC with SHA-512.
    HS512,
}

/// Seconds an access token lives.
pub const ACCESS_TOKEN_EXPIRATION: i64 = 60 * 60;

/// Seconds a refresh token lives.
pub const REFRESH_TOKEN_EXPIRATION: i64 = 60 * 60 * 24;

/// Characters in a user's access-token secret. A secret is drawn as
/// letters and digits, 62 to choose from, and 86 of them carry a little
/// more than the 64 random bytes that a secret must hold.
pub const SECRET_KEY_LENGTH: usize = 86;

/// Characters in a user's refresh-token secret; see
/// [`SECRET_KEY_LENGTH`].
pub const REFRESH_KEY_LENGTH: usize = 86;

/// The scheme that signs access tokens.
pub const ALGORITHM: SigningAlgorithm = SigningAlgorithm::HS256;

/// The scheme that signs refresh tokens; it differs from [`ALGORITHM`] so
/// that one token class cannot stand in for the other.
pub const REFRESH_ALGORITHM: SigningAlgorithm = SigningAlgorithm::HS512;

} // verus!
