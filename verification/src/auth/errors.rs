//! The error taxonomy of the engine.
use vstd::prelude::*;
use vstd::string::StringExecFns;

verus! {

/// Every way an operation of the engine can fail. Inside the service the
/// distinctions serve diagnosis; toward a client the authentication
/// failures all read as `Unauthorized`.
#[derive(Debug, Clone, Copy, PartialEq, Eq, Structural)]
pub enum AuthError {
    /// Unknown user name or wrong password; the two are not told apart.
    InvalidCredentials,
    /// No signing secret is stored for the user.
    KeyNotFound,
    /// A signing secret is already stored for the user and is left as it is.
    KeyAlreadyProvisioned,
    /// The token is malformed or not signed with the user's key.
    SignatureInvalid,
    /// The token is well signed and past its expiry.
    Expired,
    /// No session has this identifier; it may have been revoked.
    UnknownSession,
    /// The user has no session.
    NoActiveSession,
    /// The request lacks a cookie that the operation needs.
    MissingCookie,
    /// The catch-all shown to clients.
    Unauthorized,
    /// The store did not answer, or answered with something unreadable.
    PersistenceUnavailable,
}

/// How an error reads to a client. Whatever went wrong with a credential,
/// a token, a cookie or a session is `Unauthorized` and no more, so that a
/// client cannot learn which check failed. A store that is unavailable and
/// a key that is already provisioned say nothing about anyone's
/// credentials and are passed on as they are.
pub open spec fn shown_to_client(e: AuthError) -> AuthError {
    match e {
        AuthError::PersistenceUnavailable => AuthError::PersistenceUnavailable,
        AuthError::KeyAlreadyProvisioned => AuthError::KeyAlreadyProvisioned,
        _ => AuthError::Unauthorized,
    }
}

impl AuthError {
    /// The error as a client may see it.
    pub fn for_client(self) -> (r: AuthError)
        ensures
            r == shown_to_client(self),
    {
        match self {
            AuthError::PersistenceUnavailable => AuthError::PersistenceUnavailable,
            AuthError::KeyAlreadyProvisioned => AuthError::KeyAlreadyProvisioned,
            _ => AuthError::Unauthorized,
        }
    }
}

/// What the service writes in its own log for an error.
pub open spec fn error_text(e: AuthError) -> Seq<char> {
    match e {
        AuthError::InvalidCredentials => "Invalid username or password"@,
        AuthError::KeyNotFound => "No signing key is stored for the user"@,
        AuthError::KeyAlreadyProvisioned => "A signing key is already stored for the user"@,
        AuthError::SignatureInvalid => "Token is malformed or not signed with the user's key"@,
        AuthError::Expired => "Token has expired"@,
        AuthError::UnknownSession => "Session was not found"@,
        AuthError::NoActiveSession => "User has no session"@,
        AuthError::MissingCookie => "Value in cookie not found"@,
        AuthError::Unauthorized => "You are not authorized to make this request"@,
        AuthError::PersistenceUnavailable => "Cannot reach the database"@,
    }
}

impl AuthError {
    /// The text of the error for the service's own log.
    pub fn message(self) -> (r: String)
        ensures
            r@ == error_text(self),
    {
        match self {
            AuthError::InvalidCredentials => String::from_str("Invalid username or password"),
            AuthError::KeyNotFound => String::from_str("No signing key is stored for the user"),
            AuthError::KeyAlreadyProvisioned => String::from_str(
                "A signing key is already stored for the user",
            ),
            AuthError::SignatureInvalid => String::from_str(
                "Token is malformed or not signed with the user's key",
            ),
            AuthError::Expired => String::from_str("Token has expired"),
            AuthError::UnknownSession => String::from_str("Session was not found"),
            AuthError::NoActiveSession => String::from_str("User has no session"),
            AuthError::MissingCookie => String::from_str("Value in cookie not found"),
            AuthError::Unauthorized => String::from_str(
                "You are not authorized to make this request",
            ),
            AuthError::PersistenceUnavailable => String::from_str("Cannot reach the database"),
        }
    }
}

} // verus!
