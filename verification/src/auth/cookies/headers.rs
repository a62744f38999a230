//! Writing `Set-Cookie` lines.
//!
//! Every cookie this service sets is `HttpOnly`, `Secure` and
//! `SameSite=Strict`. No caller can ask for less.
use crate::auth::cookies::errors::NoValueInCookie;
use crate::auth::cookies::utils::{cookie_read, refresh_cookie_name, RequestCookie};
use crate::auth::token::access_token::{
    access_token_text, bound_to_key, create_access_token, create_access_token_at, issued_claims,
    rejects_forged_signatures, valid_until_expiry,
};
use crate::auth::token::clock::LATEST_TIMESTAMP;
use crate::auth::token::constants::{ACCESS_TOKEN_EXPIRATION, REFRESH_TOKEN_EXPIRATION};
use crate::auth::token::errors::TokenError;
use crate::auth::token::refresh_token::{
    create_refresh_token, create_refresh_token_at, issued_refresh_claims, refresh_token_claims,
    refresh_token_text, valid_before_expiry,
};
use crate::auth::user::UserInfo;
use vstd::prelude::*;

verus! {

/// The attributes that every cookie of this service carries.
pub open spec fn security_flags() -> Seq<char> {
    "; HttpOnly"@ + "; SameSite=Strict"@ + "; Secure"@
}

/// The `Set-Cookie` line for a cookie called `name` with value `value`.
pub open spec fn set_cookie_line(name: Seq<char>, value: Seq<char>) -> Seq<char> {
    name + "="@ + value + security_flags()
}

/// An attribute as it stands in a line where it is set.
pub open spec fn attribute(set: bool, text: Seq<char>) -> Seq<char> {
    if set {
        text
    } else {
        Seq::<char>::empty()
    }
}

/// The `Set-Cookie` line for a cookie with the attributes that are set,
/// of `HttpOnly`, `SameSite=Strict` and `Secure`.
pub open spec fn cookie_line(
    name: Seq<char>,
    value: Seq<char>,
    http_only: bool,
    same_site_strict: bool,
    secure: bool,
) -> Seq<char> {
    name + "="@ + value + attribute(http_only, "; HttpOnly"@) + attribute(
        same_site_strict,
        "; SameSite=Strict"@,
    ) + attribute(secure, "; Secure"@)
}

/// Text `line` ends in the security flags.
pub open spec fn is_secured(line: Seq<char>) -> bool {
    line.len() >= security_flags().len() && line.subrange(
        line.len() - security_flags().len(),
        line.len() as int,
    ) == security_flags()
}

/// Every cookie line that this service writes ends in the security flags.
pub proof fn lemma_cookie_line_secured(name: Seq<char>, value: Seq<char>)
    ensures
        is_secured(set_cookie_line(name, value)),
{
    let line = set_cookie_line(name, value);
    let flags = security_flags();
    assert(line.subrange(line.len() - flags.len(), line.len() as int) =~= flags);
}

/// Builds a cookie with `cookie::Cookie::new`, sets its `HttpOnly` and
/// `Secure` marks and its `SameSite` attribute with the crate's setters as
/// the arguments say, and formats it with its `Display`.
///
/// Claimed of it: `Display` writes name, `=`, value, then `; HttpOnly`
/// where that mark is set, `; SameSite=Strict` where the attribute is
/// `Strict`, and `; Secure` where that mark is set, in this order, and
/// nothing else for a cookie with no other attribute; name and value are
/// written as they are.
#[verifier::external_body]
fn format_cookie(name: &str, value: &str, http_only: bool, same_site_strict: bool, secure: bool) -> (line:
    String)
    ensures
        line@ == cookie_line(name@, value@, http_only, same_site_strict, secure),
{
    let mut cookie = cookie::Cookie::new(name, value);
    cookie.set_http_only(http_only);
    cookie.set_secure(secure);
    cookie.set_same_site(same_site_strict.then_some(cookie::SameSite::Strict));
    cookie.to_string()
}

/// Encodes one cookie. It is `HttpOnly`, `Secure` and `SameSite=Strict`,
/// whatever its name and value: no caller has a say in that.
pub fn encode_cookie(name: &str, value: &str) -> (line: String)
    ensures
        line@ == set_cookie_line(name@, value@),
{
    let line = format_cookie(name, value, true, true, true);
    assert(line@ =~= set_cookie_line(name@, value@));
    line
}

/// The `Set-Cookie` line of a fresh access token for `stored_user`, issued
/// at time `now` under `secret_key`. Nothing is issued where the expiry
/// would not fit in a timestamp.
pub fn get_new_access_token_cookie_header_at(
    stored_user: &UserInfo,
    secret_key: &str,
    now: i64,
) -> (r: Result<String, TokenError>)
    ensures
        now + ACCESS_TOKEN_EXPIRATION > i64::MAX ==> r == Err::<String, TokenError>(
            TokenError::ExpiryOutOfRange,
        ),
        now + ACCESS_TOKEN_EXPIRATION <= i64::MAX ==> (r matches Ok(line) && {
            let claims = issued_claims(stored_user.username@, now);
            let token = access_token_text(claims, secret_key@);
            &&& line@ == set_cookie_line("token"@, token)
            &&& valid_until_expiry(token, secret_key@, claims)
            &&& rejects_forged_signatures(claims, secret_key@)
            &&& bound_to_key(token, secret_key@, claims)
        }),
{
    match create_access_token_at(stored_user, secret_key, now) {
        Ok(token) => Ok(encode_cookie("token", token.as_str())),
        Err(e) => Err(e),
    }
}

/// The `Set-Cookie` line of a fresh access token for `stored_user`, issued
/// at the present time of the system clock. The clock gives no time so
/// late that the expiry would not fit, so there always is one.
pub fn get_new_access_token_cookie_header(stored_user: &UserInfo, secret_key: &str) -> (r: Result<
    String,
    TokenError,
>)
    ensures
        r matches Ok(line) && exists|now: i64|
            now <= LATEST_TIMESTAMP && line@ == set_cookie_line(
                "token"@,
                access_token_text(#[trigger] issued_claims(stored_user.username@, now), secret_key@),
            ),
{
    match create_access_token(stored_user, secret_key) {
        Ok(token) => Ok(encode_cookie("token", token.as_str())),
        Err(e) => Err(e),
    }
}

/// The `Set-Cookie` line of a fresh refresh token for `stored_user`, bound
/// to `session_uuid` and issued at time `now` under `secret_refresh_key`.
/// Nothing is issued where the expiry would not fit in a timestamp.
pub fn get_new_refresh_token_cookie_header_at(
    stored_user: &UserInfo,
    session_uuid: &str,
    secret_refresh_key: &str,
    now: i64,
) -> (r: Result<String, TokenError>)
    ensures
        now + REFRESH_TOKEN_EXPIRATION > i64::MAX ==> r == Err::<String, TokenError>(
            TokenError::ExpiryOutOfRange,
        ),
        now + REFRESH_TOKEN_EXPIRATION <= i64::MAX ==> (r matches Ok(line) && {
            let claims = issued_refresh_claims(stored_user.username@, session_uuid@, now);
            let token = refresh_token_text(claims, secret_refresh_key@);
            &&& line@ == set_cookie_line("refresh_token"@, token)
            &&& refresh_token_claims(token, secret_refresh_key@) == Some(claims)
            &&& valid_before_expiry(token, secret_refresh_key@, claims)
        }),
{
    match create_refresh_token_at(stored_user, session_uuid, secret_refresh_key, now) {
        Ok(token) => Ok(encode_cookie("refresh_token", token.as_str())),
        Err(e) => Err(e),
    }
}

/// The `Set-Cookie` line of a fresh refresh token for `stored_user`, bound
/// to `session_uuid` and issued at the present time of the system clock.
/// The clock gives no time so late that the expiry would not fit, so there
/// always is one.
pub fn get_new_refresh_token_cookie_header(
    stored_user: &UserInfo,
    session_uuid: &str,
    secret_refresh_key: &str,
) -> (r: Result<String, TokenError>)
    ensures
        r matches Ok(line) && exists|now: i64|
            now <= LATEST_TIMESTAMP && line@ == set_cookie_line(
                "refresh_token"@,
                refresh_token_text(
                    #[trigger] issued_refresh_claims(stored_user.username@, session_uuid@, now),
                    secret_refresh_key@,
                ),
            ),
{
    match create_refresh_token(stored_user, session_uuid, secret_refresh_key) {
        Ok(token) => Ok(encode_cookie("refresh_token", token.as_str())),
        Err(e) => Err(e),
    }
}

/// The `Set-Cookie` line that hands the session identifier to the client.
pub fn get_new_session_uuid_cookie_header(session_uuid: &String) -> (line: String)
    ensures
        line@ == set_cookie_line("session"@, session_uuid@),
{
    encode_cookie("session", session_uuid.as_str())
}

/// Reads the refresh token from the cookie `refresh_token`.
pub fn extract_refresh_token(cookies: &Vec<RequestCookie>) -> (r: Result<String, NoValueInCookie>)
    ensures
        cookie_read(r, cookies@, refresh_cookie_name()),
{
    crate::auth::cookies::utils::extract_refresh_token(cookies)
}

} // verus!
