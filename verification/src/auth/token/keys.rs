//! The pair of signing secrets that every user has.
//!
//! The pair is made once, when the user registers, and never rotated. The
//! two secrets differ, so that the theft of one token class's secret does
//! not open the other.
use crate::auth::token::constants::{REFRESH_KEY_LENGTH, SECRET_KEY_LENGTH};
use crate::utils::random::{all_alphanumeric, random_string};
use vstd::prelude::*;

verus! {

/// The signing secrets of one user.
#[derive(Debug)]
pub struct SigningKeyPair {
    pub user_id: i64,
    pub access_secret: String,
    pub refresh_secret: String,
}

/// Mathematical value of a [`SigningKeyPair`].
pub struct SigningKeyPairView {
    pub user_id: i64,
    pub access_secret: Seq<char>,
    pub refresh_secret: Seq<char>,
}

impl View for SigningKeyPair {
    type V = SigningKeyPairView;

    open spec fn view(&self) -> SigningKeyPairView {
        SigningKeyPairView {
            user_id: self.user_id,
            access_secret: self.access_secret@,
            refresh_secret: self.refresh_secret@,
        }
    }
}

/// Whether two secrets may serve as a pair: each has its full length, and
/// they differ.
pub open spec fn acceptable_secrets(access_secret: Seq<char>, refresh_secret: Seq<char>) -> bool {
    &&& access_secret.len() == SECRET_KEY_LENGTH
    &&& refresh_secret.len() == REFRESH_KEY_LENGTH
    &&& access_secret != refresh_secret
}

impl SigningKeyPair {
    /// The invariant of a pair.
    pub open spec fn well_formed(&self) -> bool {
        acceptable_secrets(self.access_secret@, self.refresh_secret@)
    }

    /// Makes a pair of two secrets, or nothing where they are not
    /// [`acceptable_secrets`].
    pub fn new(user_id: i64, access_secret: String, refresh_secret: String) -> (r: Option<
        SigningKeyPair,
    >)
        ensures
            r is Some <==> acceptable_secrets(access_secret@, refresh_secret@),
            r matches Some(pair) ==> pair.well_formed() && pair@ == (SigningKeyPairView {
                user_id,
                access_secret: access_secret@,
                refresh_secret: refresh_secret@,
            }),
    {
        if access_secret.as_str().unicode_len() != SECRET_KEY_LENGTH {
            return None;
        }
        if refresh_secret.as_str().unicode_len() != REFRESH_KEY_LENGTH {
            return None;
        }
        if access_secret == refresh_secret {
            return None;
        }
        Some(SigningKeyPair { user_id, access_secret, refresh_secret })
    }
}

/// Draws the signing secrets of `user_id`: two strings of random letters
/// and digits, each of full length, and makes the pair of them.
///
/// The result is [`pair_of_draws`] of the two strings that came: the pair
/// that holds them under `user_id` where they differ, and nothing where the
/// two draws are equal. Which strings come is left to chance.
pub fn provision_keys(user_id: i64) -> (r: Option<SigningKeyPair>)
    ensures
        exists|access_secret: Seq<char>, refresh_secret: Seq<char>|
            is_drawn_secret(access_secret, SECRET_KEY_LENGTH) && is_drawn_secret(
                refresh_secret,
                REFRESH_KEY_LENGTH,
            ) && provisioned(r) == #[trigger] pair_of_draws(user_id, access_secret, refresh_secret),
        r matches Some(pair) ==> {
            &&& pair.user_id == user_id
            &&& pair.well_formed()
            &&& all_alphanumeric(pair.access_secret@)
            &&& all_alphanumeric(pair.refresh_secret@)
        },
{
    let access_secret = random_string(SECRET_KEY_LENGTH);
    let refresh_secret = random_string(REFRESH_KEY_LENGTH);
    let ghost access = access_secret@;
    let ghost refresh = refresh_secret@;
    let r = SigningKeyPair::new(user_id, access_secret, refresh_secret);
    assert(provisioned(r) == pair_of_draws(user_id, access, refresh));
    r
}

/// A secret as it is drawn: `length` letters and digits.
pub open spec fn is_drawn_secret(secret: Seq<char>, length: usize) -> bool {
    secret.len() == length && all_alphanumeric(secret)
}

/// The pair that two drawn secrets make for `user_id`: none where the two
/// are the same string.
pub open spec fn pair_of_draws(
    user_id: i64,
    access_secret: Seq<char>,
    refresh_secret: Seq<char>,
) -> Option<SigningKeyPairView> {
    if access_secret == refresh_secret {
        None
    } else {
        Some(SigningKeyPairView { user_id, access_secret, refresh_secret })
    }
}

/// The outcome of provisioning seen as a mathematical value.
pub open spec fn provisioned(r: Option<SigningKeyPair>) -> Option<SigningKeyPairView> {
    match r {
        Some(pair) => Some(pair@),
        None => None,
    }
}

} // verus!
