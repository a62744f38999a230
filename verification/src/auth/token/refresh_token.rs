//! The refresh token: a longer-lived proof that names a session, used only
//! to obtain new tokens, signed with the user's refresh secret under an
//! algorithm of its own.
//!
//! Validation here is cryptographic only. Whether the named session still
//! exists is a question for the store, asked by the refresh flow.
use crate::auth::token::clock::{current_timestamp, LATEST_TIMESTAMP};
use crate::auth::token::constants::{ALGORITHM, REFRESH_ALGORITHM, REFRESH_TOKEN_EXPIRATION};
use crate::auth::token::errors::TokenError;
use crate::auth::token::jwt::{
    claims_of, find_integer, find_text, integer_claim, joined, jwt_decode, jwt_decoding, jwt_encode,
    jwt_signing_input, jwt_token, payload_signature, signable, text_claim, Claim, ClaimValue,
    ClaimValueView, ClaimView,
};
use crate::auth::user::UserInfo;
use vstd::prelude::*;
use vstd::string::StringExecFns;

verus! {

/// The payload of a refresh token.
#[derive(Debug)]
pub struct RefreshClaims {
    pub session: String,
    pub sub: String,
    pub exp: i64,
}

/// Mathematical value of [`RefreshClaims`].
pub struct RefreshClaimsView {
    pub session: Seq<char>,
    pub sub: Seq<char>,
    pub exp: i64,
}

impl View for RefreshClaims {
    type V = RefreshClaimsView;

    open spec fn view(&self) -> RefreshClaimsView {
        RefreshClaimsView { session: self.session@, sub: self.sub@, exp: self.exp }
    }
}

/// The claims of a token issued at time `now` for the user `username` and
/// the session `session`, where the expiry fits in a timestamp.
pub open spec fn issued_refresh_claims(
    username: Seq<char>,
    session: Seq<char>,
    now: i64,
) -> RefreshClaimsView
    recommends
        now + REFRESH_TOKEN_EXPIRATION <= i64::MAX,
{
    RefreshClaimsView { session, sub: username, exp: (now + REFRESH_TOKEN_EXPIRATION) as i64 }
}

/// The payload that carries `claims`: `session`, `sub`, then `exp`.
pub open spec fn refresh_payload(claims: RefreshClaimsView) -> Seq<ClaimView> {
    seq![
        ClaimView { name: "session"@, value: ClaimValueView::Text(claims.session) },
        ClaimView { name: "sub"@, value: ClaimValueView::Text(claims.sub) },
        ClaimView { name: "exp"@, value: ClaimValueView::Integer(claims.exp) },
    ]
}

/// The claims that a payload carries, if it has a text `session`, a text
/// `sub` and an integer `exp`.
pub open spec fn refresh_claims(payload: Seq<ClaimView>) -> Option<RefreshClaimsView> {
    match (
        text_claim(payload, "session"@),
        text_claim(payload, "sub"@),
        integer_claim(payload, "exp"@),
    ) {
        (Some(session), Some(sub), Some(exp)) => Some(RefreshClaimsView { session, sub, exp }),
        _ => None,
    }
}

/// The refresh token for `claims` under `secret`.
pub open spec fn refresh_token_text(claims: RefreshClaimsView, secret: Seq<char>) -> Seq<char> {
    jwt_token(REFRESH_ALGORITHM, refresh_payload(claims), secret)
}

/// What the expiry check makes of decoded claims at time `now`: claims that
/// are missing or ill-typed count as a bad token; otherwise the token is
/// good exactly while its expiry lies ahead.
pub open spec fn checked_refresh_claims(claims: Option<RefreshClaimsView>, now: i64) -> Result<
    bool,
    TokenError,
> {
    match claims {
        None => Err(TokenError::SignatureInvalid),
        Some(claims) => Ok(claims.exp > now),
    }
}

/// What validating `token` under `secret` at time `now` gives. No store is
/// asked: the answer is the same whether or not the session still exists.
pub open spec fn refresh_validation(token: Seq<char>, secret: Seq<char>, now: i64) -> Result<
    bool,
    TokenError,
> {
    match jwt_decoding(REFRESH_ALGORITHM, token, secret) {
        None => Err(TokenError::SignatureInvalid),
        Some(payload) => checked_refresh_claims(refresh_claims(payload), now),
    }
}

/// The claims that `token` carries under `secret`, if it is well signed and
/// well formed.
pub open spec fn refresh_token_claims(token: Seq<char>, secret: Seq<char>) -> Option<
    RefreshClaimsView,
> {
    match jwt_decoding(REFRESH_ALGORITHM, token, secret) {
        None => None,
        Some(payload) => refresh_claims(payload),
    }
}

/// Lifecycle of a token: under the key that signed it, it validates to
/// `true` at every time before its expiry and to `false` from then on.
pub open spec fn valid_before_expiry(
    token: Seq<char>,
    secret: Seq<char>,
    claims: RefreshClaimsView,
) -> bool {
    forall|now: i64| #[trigger]
        refresh_validation(token, secret, now) == Ok::<bool, TokenError>(claims.exp > now)
}

/// Tamper evidence: the signed part of the token for `claims`, joined to
/// any text other than the signature that `secret` computes, is
/// `SignatureInvalid` at every time.
pub open spec fn rejects_forged_signatures(claims: RefreshClaimsView, secret: Seq<char>) -> bool {
    forall|signature: Seq<char>, now: i64|
        signature != payload_signature(
            REFRESH_ALGORITHM,
            refresh_payload(claims),
            secret,
        ) ==> #[trigger] refresh_validation(
            joined(jwt_signing_input(REFRESH_ALGORITHM, refresh_payload(claims)), signature),
            secret,
            now,
        ) == Err::<bool, TokenError>(TokenError::SignatureInvalid)
}

/// Key isolation: under any key that does not compute the very signature
/// the token bears, the token is `SignatureInvalid` at every time.
pub open spec fn bound_to_key(token: Seq<char>, secret: Seq<char>, claims: RefreshClaimsView) -> bool {
    forall|other: Seq<char>, now: i64|
        payload_signature(REFRESH_ALGORITHM, refresh_payload(claims), other) != payload_signature(
            REFRESH_ALGORITHM,
            refresh_payload(claims),
            secret,
        ) ==> #[trigger] refresh_validation(token, other, now) == Err::<bool, TokenError>(
            TokenError::SignatureInvalid,
        )
}

/// Class separation: a refresh token is no access token. Under whatever
/// key and at whatever time, access validation refuses it as
/// `SignatureInvalid`, because it is signed under another algorithm.
pub open spec fn refused_as_access_token(token: Seq<char>) -> bool {
    forall|key: Seq<char>, now: i64| #[trigger]
        crate::auth::token::access_token::access_validation(token, key, now) == Err::<
            crate::auth::token::access_token::ClaimsView,
            TokenError,
        >(TokenError::SignatureInvalid)
}

/// The payload of `claims` is signable and carries exactly `claims`.
pub proof fn lemma_refresh_payload(claims: RefreshClaimsView)
    ensures
        signable(refresh_payload(claims)),
        refresh_claims(refresh_payload(claims)) == Some(claims),
{
    reveal_strlit("session");
    reveal_strlit("sub");
    reveal_strlit("exp");
    let payload = refresh_payload(claims);
    assert("session"@.len() != "sub"@.len());
    assert("session"@.len() != "exp"@.len());
    assert("sub"@[0] != "exp"@[0]);
    assert(payload.drop_first()[0] == payload[1]);
    assert(payload.drop_first().drop_first()[0] == payload[2]);
    reveal_with_fuel(crate::auth::token::jwt::claim_named, 4);
}

/// Builds the list of claims for `claims`.
fn refresh_claims_list(claims: &RefreshClaims) -> (payload: Vec<Claim>)
    ensures
        claims_of(payload@) == refresh_payload(claims@),
{
    let mut payload: Vec<Claim> = Vec::new();
    payload.push(
        Claim { name: String::from_str("session"), value: ClaimValue::Text(claims.session.clone()) },
    );
    payload.push(Claim { name: String::from_str("sub"), value: ClaimValue::Text(claims.sub.clone()) });
    payload.push(Claim { name: String::from_str("exp"), value: ClaimValue::Integer(claims.exp) });
    assert(claims_of(payload@) =~= refresh_payload(claims@));
    payload
}

/// Reads the claims out of a decoded payload.
pub fn refresh_claims_from_payload(payload: &Vec<Claim>) -> (r: Option<RefreshClaims>)
    ensures
        match r {
            Some(claims) => refresh_claims(claims_of(payload@)) == Some(claims@),
            None => refresh_claims(claims_of(payload@)) is None,
        },
{
    let session_key = String::from_str("session");
    let sub_key = String::from_str("sub");
    let exp_key = String::from_str("exp");
    match (
        find_text(payload, &session_key),
        find_text(payload, &sub_key),
        find_integer(payload, &exp_key),
    ) {
        (Some(session), Some(sub), Some(exp)) => Some(RefreshClaims { session, sub, exp }),
        _ => None,
    }
}

/// Judges a decoded payload at time `now`: `None` stands for a token whose
/// signature or shape was refused.
pub fn check_decoded_refresh(decoded: Option<Vec<Claim>>, now: i64) -> (r: Result<bool, TokenError>)
    ensures
        r == match decoded {
            None => Err(TokenError::SignatureInvalid),
            Some(payload) => checked_refresh_claims(refresh_claims(claims_of(payload@)), now),
        },
{
    match decoded {
        None => Err(TokenError::SignatureInvalid),
        Some(payload) => match refresh_claims_from_payload(&payload) {
            None => Err(TokenError::SignatureInvalid),
            Some(claims) => Ok(claims.exp > now),
        },
    }
}

/// Issues the refresh token of `user` at time `now`, bound to the session
/// `session_uuid` and signed with `secret_refresh_key`.
///
/// The token expires [`REFRESH_TOKEN_EXPIRATION`] seconds after `now`;
/// where that time does not fit in a timestamp nothing is issued. An issued
/// token is [`refresh_token_text`] of its claims, and the laws of
/// [`valid_before_expiry`], [`rejects_forged_signatures`], [`bound_to_key`]
/// and [`refused_as_access_token`] hold of it.
pub fn create_refresh_token_at(
    user: &UserInfo,
    session_uuid: &str,
    secret_refresh_key: &str,
    now: i64,
) -> (r: Result<String, TokenError>)
    ensures
        now + REFRESH_TOKEN_EXPIRATION > i64::MAX ==> r == Err::<String, TokenError>(
            TokenError::ExpiryOutOfRange,
        ),
        now + REFRESH_TOKEN_EXPIRATION <= i64::MAX ==> (r matches Ok(token) && {
            let claims = issued_refresh_claims(user.username@, session_uuid@, now);
            &&& token@ == refresh_token_text(claims, secret_refresh_key@)
            &&& refresh_token_claims(token@, secret_refresh_key@) == Some(claims)
            &&& valid_before_expiry(token@, secret_refresh_key@, claims)
            &&& rejects_forged_signatures(claims, secret_refresh_key@)
            &&& bound_to_key(token@, secret_refresh_key@, claims)
            &&& refused_as_access_token(token@)
        }),
{
    let exp = match now.checked_add(REFRESH_TOKEN_EXPIRATION) {
        Some(exp) => exp,
        None => {
            return Err(TokenError::ExpiryOutOfRange);
        },
    };
    let claims = RefreshClaims {
        session: session_uuid.to_owned(),
        sub: user.username.clone(),
        exp,
    };
    let payload = refresh_claims_list(&claims);
    proof {
        lemma_refresh_payload(claims@);
    }
    match jwt_encode(REFRESH_ALGORITHM, &payload, secret_refresh_key) {
        Ok(token) => {
            proof {
                let input = jwt_signing_input(REFRESH_ALGORITHM, refresh_payload(claims@));
                let signature = payload_signature(
                    REFRESH_ALGORITHM,
                    refresh_payload(claims@),
                    secret_refresh_key@,
                );
                assert(jwt_decoding(REFRESH_ALGORITHM, joined(input, signature), secret_refresh_key@)
                    == Some(refresh_payload(claims@)));
                assert forall|other: Seq<char>, later: i64|
                    payload_signature(REFRESH_ALGORITHM, refresh_payload(claims@), other)
                        != signature implies #[trigger] refresh_validation(token@, other, later)
                    == Err::<bool, TokenError>(TokenError::SignatureInvalid) by {
                    assert(jwt_decoding(REFRESH_ALGORITHM, joined(input, signature), other) is None);
                }
                assert forall|key: Seq<char>, later: i64| #[trigger]
                    crate::auth::token::access_token::access_validation(token@, key, later)
                        == Err::<crate::auth::token::access_token::ClaimsView, TokenError>(
                        TokenError::SignatureInvalid,
                    ) by {
                    assert(jwt_decoding(ALGORITHM, joined(input, signature), key) is None);
                }
            }
            Ok(token)
        },
        Err(_) => Err(TokenError::SigningFailed),
    }
}

/// Issues the refresh token of `user` at the present time of the system
/// clock; see [`create_refresh_token_at`]. The clock gives no time so late
/// that the expiry would not fit, so a token is always issued.
pub fn create_refresh_token(user: &UserInfo, session_uuid: &str, secret_refresh_key: &str) -> (r:
    Result<String, TokenError>)
    ensures
        r matches Ok(token) && exists|now: i64|
            now <= LATEST_TIMESTAMP && {
                let claims = #[trigger] issued_refresh_claims(user.username@, session_uuid@, now);
                &&& token@ == refresh_token_text(claims, secret_refresh_key@)
                &&& refresh_token_claims(token@, secret_refresh_key@) == Some(claims)
                &&& valid_before_expiry(token@, secret_refresh_key@, claims)
                &&& rejects_forged_signatures(claims, secret_refresh_key@)
                &&& bound_to_key(token@, secret_refresh_key@, claims)
                &&& refused_as_access_token(token@)
            },
{
    let now = current_timestamp();
    create_refresh_token_at(user, session_uuid, secret_refresh_key, now)
}

/// Reads the claims of `token` under `secret_refresh_key`: there are none
/// where the token is malformed, not signed with this key, or lacks a
/// claim. The expiry is not judged here.
pub fn read_refresh_claims(token: &str, secret_refresh_key: &str) -> (r: Option<RefreshClaims>)
    ensures
        match r {
            Some(claims) => refresh_token_claims(token@, secret_refresh_key@) == Some(claims@),
            None => refresh_token_claims(token@, secret_refresh_key@) is None,
        },
{
    match jwt_decode(REFRESH_ALGORITHM, token, secret_refresh_key) {
        Some(payload) => refresh_claims_from_payload(&payload),
        None => None,
    }
}

/// Validates `token` under `secret_refresh_key` at time `now`.
///
/// The result is [`refresh_validation`]: `SignatureInvalid` for a token
/// that is malformed or not signed with this key, and otherwise whether the
/// expiry still lies ahead of `now`. That the session named in the token
/// still exists is not checked here.
pub fn validate_refresh_token_at(token: &str, secret_refresh_key: &str, now: i64) -> (r: Result<
    bool,
    TokenError,
>)
    ensures
        r == refresh_validation(token@, secret_refresh_key@, now),
{
    check_decoded_refresh(jwt_decode(REFRESH_ALGORITHM, token, secret_refresh_key), now)
}

/// Validates `token` under `secret_refresh_key` at the present time of the
/// system clock; see [`validate_refresh_token_at`].
pub fn validate_refresh_token(token: &str, secret_refresh_key: &str) -> (r: Result<bool, TokenError>)
    ensures
        exists|now: i64|
            now <= LATEST_TIMESTAMP && r == #[trigger] refresh_validation(
                token@,
                secret_refresh_key@,
                now,
            ),
{
    let now = current_timestamp();
    validate_refresh_token_at(token, secret_refresh_key, now)
}

} // verus!
