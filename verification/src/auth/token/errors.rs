//! Failures of token issuing and validation.
use vstd::prelude::*;
use vstd::string::StringExecFns;

verus! {

/// Why a token was not issued or not accepted.
#[derive(Debug, Clone, Copy, PartialEq, Eq, Structural)]
pub enum TokenError {
    /// The signature does not verify under the user's key, or the token is
    /// malformed.
    SignatureInvalid,
    /// The signature verifies, but the token's expiry has passed.
    Expired,
    /// The expiry of a new token would not fit in a timestamp.
    ExpiryOutOfRange,
    /// The encoder refused to sign.
    SigningFailed,
}

/// A validly signed access token was presented after its expiry.
#[derive(Debug)]
pub struct ExpiredAccessTokenError;

/// A validly signed refresh token was presented after its expiry.
#[derive(Debug)]
pub struct ExpiredRefreshTokenError;

/// The request guard turned a request away; which check failed is not
/// told.
#[derive(Debug)]
pub struct TokenValidationNotSuccessfull;

impl ExpiredAccessTokenError {
    /// The text shown for this error.
    pub open spec fn spec_message() -> Seq<char> {
        "Access token has expired!"@
    }

    /// The text shown for this error.
    pub fn message(&self) -> (r: String)
        ensures
            r@ == Self::spec_message(),
    {
        String::from_str("Access token has expired!")
    }
}

impl ExpiredRefreshTokenError {
    /// The text shown for this error.
    pub open spec fn spec_message() -> Seq<char> {
        "Refresh token has expired"@
    }

    /// The text shown for this error.
    pub fn message(&self) -> (r: String)
        ensures
            r@ == Self::spec_message(),
    {
        String::from_str("Refresh token has expired")
    }
}

impl TokenValidationNotSuccessfull {
    /// The text shown for this error.
    pub open spec fn spec_message() -> Seq<char> {
        "Validation of the access token was not successfull!"@
    }

    /// The text shown for this error.
    pub fn message(&self) -> (r: String)
        ensures
            r@ == Self::spec_message(),
    {
        String::from_str("Validation of the access token was not successfull!")
    }
}

} // verus!
