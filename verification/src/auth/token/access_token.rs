//! The access token: a short-lived proof of identity that carries a user
//! name and an expiry, signed with the user's access secret.
//!
//! An access token names no session. It is valid on signature and expiry
//! alone, so a logout does not end it before its hour is over.
use crate::auth::token::clock::{
    current_timestamp, format_timestamp, timestamp_text, LATEST_TIMESTAMP,
};
use crate::auth::token::constants::{ACCESS_TOKEN_EXPIRATION, ALGORITHM, REFRESH_ALGORITHM};
use crate::auth::token::errors::TokenError;
use crate::auth::token::jwt::{
    claims_of, find_integer, find_text, integer_claim, joined, jwt_decode, jwt_decoding, jwt_encode,
    jwt_signing_input, jwt_token, payload_signature, signable, text_claim, Claim, ClaimValue,
    ClaimValueView, ClaimView,
};
use crate::auth::user::UserInfo;
use vstd::prelude::*;
use vstd::string::StringExecFns;

verus! {

/// The payload of an access token.
#[derive(Debug)]
pub struct Claims {
    pub username: String,
    pub exp: i64,
}

/// Mathematical value of [`Claims`].
pub struct ClaimsView {
    pub username: Seq<char>,
    pub exp: i64,
}

impl View for Claims {
    type V = ClaimsView;

    open spec fn view(&self) -> ClaimsView {
        ClaimsView { username: self.username@, exp: self.exp }
    }
}

/// The text of claims: the user name, and the expiry as a date in UTC.
/// There is none where the expiry lies outside the dates that can be
/// written.
pub open spec fn claims_text(claims: ClaimsView) -> Option<Seq<char>> {
    match timestamp_text(claims.exp) {
        Some(date) => Some(
            "Claims { username: "@ + claims.username + ", exp: "@ + date + " }"@,
        ),
        None => None,
    }
}

impl Claims {
    /// Writes the claims out for a reader, as
    /// `Claims { username: alice, exp: 01:16:40 01-01-1970 }`.
    pub fn to_text(&self) -> (r: Option<String>)
        ensures
            match r {
                Some(text) => claims_text(self@) == Some(text@),
                None => claims_text(self@) is None,
            },
    {
        match format_timestamp(self.exp) {
            Some(date) => {
                let mut out = String::from_str("Claims { username: ");
                out.append(self.username.as_str());
                out.append(", exp: ");
                out.append(date.as_str());
                out.append(" }");
                Some(out)
            },
            None => None,
        }
    }
}

/// The outcome of a validation seen as a mathematical value.
pub open spec fn validated(r: Result<Claims, TokenError>) -> Result<ClaimsView, TokenError> {
    match r {
        Ok(claims) => Ok(claims@),
        Err(e) => Err(e),
    }
}

/// The claims of a token issued for `username` at time `now`, where the
/// expiry fits in a timestamp.
pub open spec fn issued_claims(username: Seq<char>, now: i64) -> ClaimsView
    recommends
        now + ACCESS_TOKEN_EXPIRATION <= i64::MAX,
{
    ClaimsView { username, exp: (now + ACCESS_TOKEN_EXPIRATION) as i64 }
}

/// The payload that carries `claims`: `username`, then `exp`.
pub open spec fn access_payload(claims: ClaimsView) -> Seq<ClaimView> {
    seq![
        ClaimView { name: "username"@, value: ClaimValueView::Text(claims.username) },
        ClaimView { name: "exp"@, value: ClaimValueView::Integer(claims.exp) },
    ]
}

/// The claims that a payload carries, if it has a text `username` and an
/// integer `exp`.
pub open spec fn access_claims(payload: Seq<ClaimView>) -> Option<ClaimsView> {
    match (text_claim(payload, "username"@), integer_claim(payload, "exp"@)) {
        (Some(username), Some(exp)) => Some(ClaimsView { username, exp }),
        _ => None,
    }
}

/// The access token for `claims` under `secret`.
pub open spec fn access_token_text(claims: ClaimsView, secret: Seq<char>) -> Seq<char> {
    jwt_token(ALGORITHM, access_payload(claims), secret)
}

/// What the expiry check makes of decoded claims at time `now`: claims that
/// are missing or ill-typed count as a bad token, and a token is expired
/// once `now` is past its expiry.
pub open spec fn checked_claims(claims: Option<ClaimsView>, now: i64) -> Result<
    ClaimsView,
    TokenError,
> {
    match claims {
        None => Err(TokenError::SignatureInvalid),
        Some(claims) => if now > claims.exp {
            Err(TokenError::Expired)
        } else {
            Ok(claims)
        },
    }
}

/// What validating `token` under `secret` at time `now` gives. The
/// signature is judged first and without regard to the clock; only a token
/// that passes is then held against its expiry.
pub open spec fn access_validation(token: Seq<char>, secret: Seq<char>, now: i64) -> Result<
    ClaimsView,
    TokenError,
> {
    match jwt_decoding(ALGORITHM, token, secret) {
        None => Err(TokenError::SignatureInvalid),
        Some(payload) => checked_claims(access_claims(payload), now),
    }
}

/// Lifecycle of a token: under the key that signed it, it validates to its
/// claims at every time up to its expiry and is `Expired` at every time
/// after.
pub open spec fn valid_until_expiry(token: Seq<char>, secret: Seq<char>, claims: ClaimsView) -> bool {
    forall|now: i64| #[trigger]
        access_validation(token, secret, now) == (if now > claims.exp {
            Err::<ClaimsView, TokenError>(TokenError::Expired)
        } else {
            Ok(claims)
        })
}

/// Tamper evidence: the signed part of the token for `claims`, joined to
/// any text other than the signature that `secret` computes, is
/// `SignatureInvalid` at every time.
pub open spec fn rejects_forged_signatures(claims: ClaimsView, secret: Seq<char>) -> bool {
    forall|signature: Seq<char>, now: i64|
        signature != payload_signature(
            ALGORITHM,
            access_payload(claims),
            secret,
        ) ==> #[trigger] access_validation(
            joined(jwt_signing_input(ALGORITHM, access_payload(claims)), signature),
            secret,
            now,
        ) == Err::<ClaimsView, TokenError>(TokenError::SignatureInvalid)
}

/// Key isolation: under any key that does not compute the very signature
/// the token bears, the token is `SignatureInvalid` at every time.
pub open spec fn bound_to_key(token: Seq<char>, secret: Seq<char>, claims: ClaimsView) -> bool {
    forall|other: Seq<char>, now: i64|
        payload_signature(ALGORITHM, access_payload(claims), other) != payload_signature(
            ALGORITHM,
            access_payload(claims),
            secret,
        ) ==> #[trigger] access_validation(token, other, now) == Err::<ClaimsView, TokenError>(
            TokenError::SignatureInvalid,
        )
}

/// Class separation: an access token is no refresh token. Under whatever
/// key and at whatever time, refresh validation refuses it as
/// `SignatureInvalid`, because it is signed under another algorithm.
pub open spec fn refused_as_refresh_token(token: Seq<char>) -> bool {
    forall|key: Seq<char>, now: i64| #[trigger]
        crate::auth::token::refresh_token::refresh_validation(token, key, now) == Err::<
            bool,
            TokenError,
        >(TokenError::SignatureInvalid)
}

/// The payload of `claims` is signable and carries exactly `claims`.
pub proof fn lemma_access_payload(claims: ClaimsView)
    ensures
        signable(access_payload(claims)),
        access_claims(access_payload(claims)) == Some(claims),
{
    reveal_strlit("username");
    reveal_strlit("exp");
    let payload = access_payload(claims);
    assert("username"@.len() != "exp"@.len());
    assert(payload.drop_first()[0] == payload[1]);
    reveal_with_fuel(crate::auth::token::jwt::claim_named, 3);
}

/// Builds the list of claims for `claims`.
fn access_claims_list(claims: &Claims) -> (payload: Vec<Claim>)
    ensures
        claims_of(payload@) == access_payload(claims@),
{
    let mut payload: Vec<Claim> = Vec::new();
    payload.push(
        Claim {
            name: String::from_str("username"),
            value: ClaimValue::Text(claims.username.clone()),
        },
    );
    payload.push(Claim { name: String::from_str("exp"), value: ClaimValue::Integer(claims.exp) });
    assert(claims_of(payload@) =~= access_payload(claims@));
    payload
}

/// Reads the claims out of a decoded payload.
pub fn claims_from_payload(payload: &Vec<Claim>) -> (r: Option<Claims>)
    ensures
        match r {
            Some(claims) => access_claims(claims_of(payload@)) == Some(claims@),
            None => access_claims(claims_of(payload@)) is None,
        },
{
    let username_key = String::from_str("username");
    let exp_key = String::from_str("exp");
    match (find_text(payload, &username_key), find_integer(payload, &exp_key)) {
        (Some(username), Some(exp)) => Some(Claims { username, exp }),
        _ => None,
    }
}

/// Judges a decoded payload at time `now`: `None` stands for a token whose
/// signature or shape was refused.
pub fn check_decoded(decoded: Option<Vec<Claim>>, now: i64) -> (r: Result<Claims, TokenError>)
    ensures
        validated(r) == match decoded {
            None => Err(TokenError::SignatureInvalid),
            Some(payload) => checked_claims(access_claims(claims_of(payload@)), now),
        },
{
    match decoded {
        None => Err(TokenError::SignatureInvalid),
        Some(payload) => match claims_from_payload(&payload) {
            None => Err(TokenError::SignatureInvalid),
            Some(claims) => if now > claims.exp {
                Err(TokenError::Expired)
            } else {
                Ok(claims)
            },
        },
    }
}

/// Issues the access token of `user` at time `now`, signed with
/// `secret_key`.
///
/// The token expires [`ACCESS_TOKEN_EXPIRATION`] seconds after `now`; where
/// that time does not fit in a timestamp nothing is issued. An issued token
/// is [`access_token_text`] of its claims, and the laws of
/// [`valid_until_expiry`], [`rejects_forged_signatures`], [`bound_to_key`]
/// and [`refused_as_refresh_token`] hold of it.
pub fn create_access_token_at(user: &UserInfo, secret_key: &str, now: i64) -> (r: Result<
    String,
    TokenError,
>)
    ensures
        now + ACCESS_TOKEN_EXPIRATION > i64::MAX ==> r == Err::<String, TokenError>(
            TokenError::ExpiryOutOfRange,
        ),
        now + ACCESS_TOKEN_EXPIRATION <= i64::MAX ==> (r matches Ok(token) && {
            let claims = issued_claims(user.username@, now);
            &&& token@ == access_token_text(claims, secret_key@)
            &&& valid_until_expiry(token@, secret_key@, claims)
            &&& rejects_forged_signatures(claims, secret_key@)
            &&& bound_to_key(token@, secret_key@, claims)
            &&& refused_as_refresh_token(token@)
        }),
{
    let exp = match now.checked_add(ACCESS_TOKEN_EXPIRATION) {
        Some(exp) => exp,
        None => {
            return Err(TokenError::ExpiryOutOfRange);
        },
    };
    let claims = Claims { username: user.username.clone(), exp };
    let payload = access_claims_list(&claims);
    proof {
        lemma_access_payload(claims@);
    }
    match jwt_encode(ALGORITHM, &payload, secret_key) {
        Ok(token) => {
            proof {
                let input = jwt_signing_input(ALGORITHM, access_payload(claims@));
                let signature = payload_signature(ALGORITHM, access_payload(claims@), secret_key@);
                assert(jwt_decoding(ALGORITHM, joined(input, signature), secret_key@) == Some(
                    access_payload(claims@),
                ));
                assert forall|other: Seq<char>, later: i64|
                    payload_signature(ALGORITHM, access_payload(claims@), other)
                        != signature implies #[trigger] access_validation(token@, other, later)
                    == Err::<ClaimsView, TokenError>(TokenError::SignatureInvalid) by {
                    assert(jwt_decoding(ALGORITHM, joined(input, signature), other) is None);
                }
                assert forall|key: Seq<char>, later: i64| #[trigger]
                    crate::auth::token::refresh_token::refresh_validation(token@, key, later)
                        == Err::<bool, TokenError>(TokenError::SignatureInvalid) by {
                    assert(jwt_decoding(REFRESH_ALGORITHM, joined(input, signature), key) is None);
                }
            }
            Ok(token)
        },
        Err(_) => Err(TokenError::SigningFailed),
    }
}

/// Issues the access token of `user` at the present time of the system
/// clock; see [`create_access_token_at`]. The clock gives no time so late
/// that the expiry would not fit, so a token is always issued.
pub fn create_access_token(user: &UserInfo, secret_key: &str) -> (r: Result<String, TokenError>)
    ensures
        r matches Ok(token) && exists|now: i64|
            now <= LATEST_TIMESTAMP && {
                let claims = #[trigger] issued_claims(user.username@, now);
                &&& token@ == access_token_text(claims, secret_key@)
                &&& valid_until_expiry(token@, secret_key@, claims)
                &&& rejects_forged_signatures(claims, secret_key@)
                &&& bound_to_key(token@, secret_key@, claims)
                &&& refused_as_refresh_token(token@)
            },
{
    let now = current_timestamp();
    create_access_token_at(user, secret_key, now)
}

/// Validates `token` under `secret_key` at time `now`.
///
/// The key is the caller's, looked up for the user the session names; no
/// claim of the token chooses it. The result is [`access_validation`]:
/// `SignatureInvalid` for a token that is malformed or not signed with this
/// key, `Expired` exactly when the signature holds and `now` is past the
/// expiry, and the claims otherwise.
pub fn validate_token_at(token: &str, secret_key: &str, now: i64) -> (r: Result<Claims, TokenError>)
    ensures
        validated(r) == access_validation(token@, secret_key@, now),
{
    check_decoded(jwt_decode(ALGORITHM, token, secret_key), now)
}

/// Validates `token` under `secret_key` at the present time of the system
/// clock; see [`validate_token_at`].
pub fn validate_token(token: &str, secret_key: &str) -> (r: Result<Claims, TokenError>)
    ensures
        exists|now: i64|
            now <= LATEST_TIMESTAMP && validated(r) == #[trigger] access_validation(
                token@,
                secret_key@,
                now,
            ),
{
    let now = current_timestamp();
    validate_token_at(token, secret_key, now)
}

} // verus!
