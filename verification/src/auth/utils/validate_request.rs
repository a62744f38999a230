//! The request guard: a request is let through on a valid access token
//! and turned away otherwise.
//!
//! The guard reads the access token from its cookie, asks the store who
//! owns the session named in the session cookie, asks for that user's
//! access secret, and validates the token under it. The key is chosen by
//! the session, never by anything the token claims.
//!
//! Whatever fails, the guard's answer is the same `Unauthorized`. Which
//! check it was goes into a record for the service's log and nowhere else.
use crate::auth::cookies::utils::{
    cookie_named, cookies_of, extract_user_id_from_cookie, get_token_from_cookie,
    session_cookie_name, token_cookie_name, RequestCookie, RequestCookieView,
};
use crate::auth::errors::AuthError;
use crate::auth::token::access_token::{access_validation, validate_token_at, Claims, ClaimsView};
use crate::auth::errors::error_text;
use crate::auth::token::clock::{current_timestamp, LATEST_TIMESTAMP};
use crate::logging::log::{log_warn, LogLevel, LogRecord, LogRecordView};
use crate::auth::token::errors::TokenError;
use crate::db::{
    int_answer, read_secret_key, read_session_user_id, text_answer, DbReply, DbReplyView, DbRequest,
    DbRequestView,
};
use vstd::prelude::*;

verus! {

/// Where the guard stands while it waits for the store.
#[derive(Debug)]
pub enum GuardState {
    /// Asked who owns the session.
    FindingOwner { token: String },
    /// Asked for the owner's access secret.
    LoadingKey { token: String },
}

/// What the guard does next.
#[derive(Debug)]
pub enum GuardStep {
    /// Put this question to the store and come back with the reply.
    Ask(DbRequest, GuardState),
    /// The request is authorized; these are the token's claims.
    Authorized(Claims),
    /// The request is turned away, always as `Unauthorized`. The record
    /// names the check that failed; it is for the service's own log and
    /// must not reach the client.
    Rejected(AuthError, LogRecord),
}

/// Mathematical value of a [`GuardState`].
pub enum GuardStateView {
    FindingOwner { token: Seq<char> },
    LoadingKey { token: Seq<char> },
}

/// Mathematical value of a [`GuardStep`].
pub enum GuardStepView {
    Ask(DbRequestView, GuardStateView),
    Authorized(ClaimsView),
    Rejected(AuthError, LogRecordView),
}

impl View for GuardState {
    type V = GuardStateView;

    open spec fn view(&self) -> GuardStateView {
        match self {
            GuardState::FindingOwner { token } => GuardStateView::FindingOwner { token: token@ },
            GuardState::LoadingKey { token } => GuardStateView::LoadingKey { token: token@ },
        }
    }
}

impl View for GuardStep {
    type V = GuardStepView;

    open spec fn view(&self) -> GuardStepView {
        match self {
            GuardStep::Ask(request, state) => GuardStepView::Ask(request@, state@),
            GuardStep::Authorized(claims) => GuardStepView::Authorized(claims@),
            GuardStep::Rejected(error, record) => GuardStepView::Rejected(*error, record@),
        }
    }
}

/// The guard's one rejection: `Unauthorized`, with a warning for the log
/// that names `reason`, the check that failed.
pub open spec fn turned_away(reason: AuthError) -> GuardStepView {
    GuardStepView::Rejected(
        AuthError::Unauthorized,
        LogRecordView { level: LogLevel::Warn, message: error_text(reason) },
    )
}

/// How a failed validation reads in the engine's taxonomy.
pub open spec fn rejection(e: TokenError) -> AuthError {
    match e {
        TokenError::SignatureInvalid => AuthError::SignatureInvalid,
        TokenError::Expired => AuthError::Expired,
        _ => AuthError::Unauthorized,
    }
}

/// What the guard does once it holds the access token: without a session
/// cookie it turns the request away, with one it asks who owns the
/// session.
pub open spec fn guard_with_token(token: Seq<char>, cookies: Seq<RequestCookieView>) -> GuardStepView {
    match cookie_named(cookies, session_cookie_name()) {
        None => turned_away(AuthError::MissingCookie),
        Some(session_uuid) => GuardStepView::Ask(
            DbRequestView::SessionOwner { session_uuid },
            GuardStateView::FindingOwner { token },
        ),
    }
}

/// The guard's first step on a request with these cookies.
pub open spec fn guard_start(cookies: Seq<RequestCookieView>) -> GuardStepView {
    match cookie_named(cookies, token_cookie_name()) {
        None => turned_away(AuthError::MissingCookie),
        Some(token) => guard_with_token(token, cookies),
    }
}

/// The guard's step from `state` on `reply` at time `now`.
pub open spec fn guard_next(state: GuardStateView, reply: DbReplyView, now: i64) -> GuardStepView {
    match state {
        GuardStateView::FindingOwner { token } => match int_answer(
            reply,
            AuthError::UnknownSession,
        ) {
            Ok(user_id) => GuardStepView::Ask(
                DbRequestView::AccessKey { user_id },
                GuardStateView::LoadingKey { token },
            ),
            Err(e) => turned_away(e),
        },
        GuardStateView::LoadingKey { token } => match text_answer(reply, AuthError::KeyNotFound) {
            Ok(secret_key) => match access_validation(token, secret_key, now) {
                Ok(claims) => GuardStepView::Authorized(claims),
                Err(e) => turned_away(rejection(e)),
            },
            Err(e) => turned_away(e),
        },
    }
}

fn reject(e: TokenError) -> (r: AuthError)
    ensures
        r == rejection(e),
{
    match e {
        TokenError::SignatureInvalid => AuthError::SignatureInvalid,
        TokenError::Expired => AuthError::Expired,
        _ => AuthError::Unauthorized,
    }
}

fn turn_away(reason: AuthError) -> (step: GuardStep)
    ensures
        step@ == turned_away(reason),
{
    let text = reason.message();
    GuardStep::Rejected(AuthError::Unauthorized, log_warn(text.as_str()))
}

/// Continues the guard once the access token has been read.
pub fn proceed_with_validation(token: String, cookies: &Vec<RequestCookie>) -> (step: GuardStep)
    ensures
        step@ == guard_with_token(token@, cookies_of(cookies@)),
{
    match extract_user_id_from_cookie(cookies) {
        Ok(request) => GuardStep::Ask(request, GuardState::FindingOwner { token }),
        Err(_) => turn_away(AuthError::MissingCookie),
    }
}

/// Starts the guard on a request with these cookies.
pub fn validate_http_request(cookies: &Vec<RequestCookie>) -> (step: GuardStep)
    ensures
        step@ == guard_start(cookies_of(cookies@)),
{
    match get_token_from_cookie(cookies) {
        Ok(token) => proceed_with_validation(token, cookies),
        Err(_) => turn_away(AuthError::MissingCookie),
    }
}

/// Resumes the guard from `state` with the store's `reply`, at time `now`.
pub fn resume_validation_at(state: GuardState, reply: &DbReply, now: i64) -> (step: GuardStep)
    ensures
        step@ == guard_next(state@, reply@, now),
{
    match state {
        GuardState::FindingOwner { token } => match read_session_user_id(reply) {
            Ok(user_id) => GuardStep::Ask(
                DbRequest::AccessKey { user_id },
                GuardState::LoadingKey { token },
            ),
            Err(e) => turn_away(e),
        },
        GuardState::LoadingKey { token } => match read_secret_key(reply) {
            Ok(secret_key) => match validate_token_at(token.as_str(), secret_key.as_str(), now) {
                Ok(claims) => GuardStep::Authorized(claims),
                Err(e) => turn_away(reject(e)),
            },
            Err(e) => turn_away(e),
        },
    }
}

/// Resumes the guard from `state` with the store's `reply`, at the
/// present time of the system clock.
pub fn resume_validation(state: GuardState, reply: &DbReply) -> (step: GuardStep)
    ensures
        exists|now: i64|
            now <= LATEST_TIMESTAMP && step@ == #[trigger] guard_next(state@, reply@, now),
{
    let now = current_timestamp();
    resume_validation_at(state, reply, now)
}

/// Every rejection reads alike. Whichever check fails, a missing cookie,
/// an unknown session, a missing key, a forged or an expired token or a
/// failing store, the guard answers `Unauthorized` and nothing else; the
/// checks differ in the warning for the log alone.
pub proof fn lemma_guard_rejections_alike(
    cookies: Seq<RequestCookieView>,
    state: GuardStateView,
    reply: DbReplyView,
    now: i64,
)
    ensures
        guard_start(cookies) matches GuardStepView::Rejected(error, record) ==> error
            == AuthError::Unauthorized && record.level == LogLevel::Warn,
        guard_next(state, reply, now) matches GuardStepView::Rejected(error, record) ==> error
            == AuthError::Unauthorized && record.level == LogLevel::Warn,
{
}

/// The guard never lets a request through without a store reply that
/// carries a key under which the token validates, and it never asks the
/// store on behalf of a request that lacks either cookie.
pub proof fn lemma_guard_is_closed(cookies: Seq<RequestCookieView>, state: GuardStateView, reply: DbReplyView, now: i64)
    ensures
        !(guard_start(cookies) is Authorized),
        guard_start(cookies) is Ask ==> cookie_named(cookies, token_cookie_name()) is Some
            && cookie_named(cookies, session_cookie_name()) is Some,
        guard_next(state, reply, now) is Authorized ==> (state matches GuardStateView::LoadingKey {
            token,
        } && (text_answer(reply, AuthError::KeyNotFound) matches Ok(secret_key)
            && access_validation(token, secret_key, now) is Ok)),
{
}

} // verus!
