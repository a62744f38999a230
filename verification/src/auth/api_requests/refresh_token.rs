//! Refresh: trade a valid refresh token for a new access token and a new
//! refresh token, without a password.
//!
//! The session cookie says whose secrets to load. The refresh token is
//! validated under that user's refresh secret, and the session that the
//! token names must still exist and be that user's: the store is asked for
//! its owner as the last question before the tokens are issued, so that a
//! logout which lands in between makes the refresh fail. Whatever makes a
//! refresh fail, be it a missing cookie, an unknown session, a bad token or
//! a failing store, the answer is the same `Unauthorized`, and a refresh
//! that fails sets no cookie.
use crate::auth::api_requests::response::{bare, with_cookies, Response, ResponseView, Status};
use crate::auth::cookies::headers::{
    get_new_access_token_cookie_header_at, get_new_refresh_token_cookie_header_at, is_secured,
    lemma_cookie_line_secured, set_cookie_line,
};
use crate::auth::cookies::utils::{
    cookie_named, cookies_of, extract_refresh_token, get_session_uuid_from_cookie,
    refresh_cookie_name, session_cookie_name, RequestCookie, RequestCookieView,
};
use crate::auth::errors::AuthError;
use crate::auth::token::access_token::{access_token_text, issued_claims};
use crate::auth::token::clock::{current_timestamp, LATEST_TIMESTAMP};
use crate::auth::token::constants::REFRESH_TOKEN_EXPIRATION;
use crate::auth::token::errors::TokenError;
use crate::auth::token::refresh_token::{
    issued_refresh_claims, read_refresh_claims, refresh_token_claims, refresh_token_text,
    refresh_validation, valid_before_expiry, RefreshClaimsView,
};
use crate::auth::user::{UserInfo, UserInfoView};
use crate::db::store::{
    created, lemma_created_session_has_its_owner, lemma_revoked_session_has_no_owner, owner_reply,
    revoked, session_exists, SessionRow,
};
use crate::db::{
    exists_answer, int_answer, read_exists, read_secret_key, read_session_user_id,
    read_session_uuid, read_user_with_user_id, text_answer, user_by_id_answer, DbReply,
    DbReplyView, DbRequest, DbRequestView, SqlValueView,
};
use vstd::prelude::*;

verus! {

/// Where a refresh stands while it waits for the store.
#[derive(Debug)]
pub enum RefreshState {
    /// Asked who owns the session in the session cookie.
    FindingOwner { token: String },
    /// Asked whether the owner is a user.
    CheckingUser { token: String, user_id: i64 },
    /// Asked for the owner's credential.
    LoadingUser { token: String, user_id: i64 },
    /// Asked for the owner's refresh secret, to validate the token.
    LoadingRefreshKey { token: String, user: UserInfo },
    /// The token is valid and names `token_session`; asked for the owner's
    /// access secret.
    LoadingAccessKey { token_session: String, user: UserInfo, secret_refresh_key: String },
    /// Asked for the owner's current session, to which the new refresh
    /// token is bound.
    LoadingSession {
        token_session: String,
        user: UserInfo,
        secret_refresh_key: String,
        secret_key: String,
    },
    /// Asked who owns the session that the token names; the tokens are
    /// issued on the reply.
    ConfirmingSession {
        token_session: String,
        user: UserInfo,
        secret_refresh_key: String,
        secret_key: String,
        current_session: String,
    },
}

/// What a refresh does next.
#[derive(Debug)]
pub enum RefreshStep {
    /// Put this question to the store and come back with the reply.
    Ask(DbRequest, RefreshState),
    /// Send this response; the flow is over.
    Respond(Response),
}

/// Mathematical value of a [`RefreshState`].
pub enum RefreshStateView {
    FindingOwner { token: Seq<char> },
    CheckingUser { token: Seq<char>, user_id: i64 },
    LoadingUser { token: Seq<char>, user_id: i64 },
    LoadingRefreshKey { token: Seq<char>, user: UserInfoView },
    LoadingAccessKey { token_session: Seq<char>, user: UserInfoView, secret_refresh_key: Seq<char> },
    LoadingSession {
        token_session: Seq<char>,
        user: UserInfoView,
        secret_refresh_key: Seq<char>,
        secret_key: Seq<char>,
    },
    ConfirmingSession {
        token_session: Seq<char>,
        user: UserInfoView,
        secret_refresh_key: Seq<char>,
        secret_key: Seq<char>,
        current_session: Seq<char>,
    },
}

/// Mathematical value of a [`RefreshStep`].
pub enum RefreshStepView {
    Ask(DbRequestView, RefreshStateView),
    Respond(ResponseView),
}

impl View for RefreshState {
    type V = RefreshStateView;

    open spec fn view(&self) -> RefreshStateView {
        match self {
            RefreshState::FindingOwner { token } => RefreshStateView::FindingOwner { token: token@ },
            RefreshState::CheckingUser { token, user_id } => RefreshStateView::CheckingUser {
                token: token@,
                user_id: *user_id,
            },
            RefreshState::LoadingUser { token, user_id } => RefreshStateView::LoadingUser {
                token: token@,
                user_id: *user_id,
            },
            RefreshState::LoadingRefreshKey { token, user } => RefreshStateView::LoadingRefreshKey {
                token: token@,
                user: user@,
            },
            RefreshState::LoadingAccessKey {
                token_session,
                user,
                secret_refresh_key,
            } => RefreshStateView::LoadingAccessKey {
                token_session: token_session@,
                user: user@,
                secret_refresh_key: secret_refresh_key@,
            },
            RefreshState::LoadingSession {
                token_session,
                user,
                secret_refresh_key,
                secret_key,
            } => RefreshStateView::LoadingSession {
                token_session: token_session@,
                user: user@,
                secret_refresh_key: secret_refresh_key@,
                secret_key: secret_key@,
            },
            RefreshState::ConfirmingSession {
                token_session,
                user,
                secret_refresh_key,
                secret_key,
                current_session,
            } => RefreshStateView::ConfirmingSession {
                token_session: token_session@,
                user: user@,
                secret_refresh_key: secret_refresh_key@,
                secret_key: secret_key@,
                current_session: current_session@,
            },
        }
    }
}

impl View for RefreshStep {
    type V = RefreshStepView;

    open spec fn view(&self) -> RefreshStepView {
        match self {
            RefreshStep::Ask(request, state) => RefreshStepView::Ask(request@, state@),
            RefreshStep::Respond(response) => RefreshStepView::Respond(response@),
        }
    }
}

/// The one answer to every refresh that is turned away.
pub open spec fn refresh_unauthorized() -> RefreshStepView {
    RefreshStepView::Respond(bare(Status::Unauthorized))
}

/// A refresh's first step on a request with these cookies: with both
/// cookies it asks who owns the session, and a request that lacks either
/// is turned away like any other.
pub open spec fn refresh_start(cookies: Seq<RequestCookieView>) -> RefreshStepView {
    match (
        cookie_named(cookies, refresh_cookie_name()),
        cookie_named(cookies, session_cookie_name()),
    ) {
        (Some(token), Some(session_uuid)) => RefreshStepView::Ask(
            DbRequestView::SessionOwner { session_uuid },
            RefreshStateView::FindingOwner { token },
        ),
        _ => refresh_unauthorized(),
    }
}

/// The two cookies of a successful refresh, in the order in which they are
/// set: access token, refresh token.
pub open spec fn refresh_cookies(
    user: UserInfoView,
    current_session: Seq<char>,
    secret_key: Seq<char>,
    secret_refresh_key: Seq<char>,
    now: i64,
) -> Seq<Seq<char>> {
    seq![
        set_cookie_line(
            "token"@,
            access_token_text(issued_claims(user.username, now), secret_key),
        ),
        set_cookie_line(
            "refresh_token"@,
            refresh_token_text(
                issued_refresh_claims(user.username, current_session, now),
                secret_refresh_key,
            ),
        ),
    ]
}

/// A refresh's last step: issue both tokens at time `now`. Where an expiry
/// would not fit in a timestamp nothing is issued and the refresh is
/// turned away.
pub open spec fn refresh_issue(
    user: UserInfoView,
    current_session: Seq<char>,
    secret_key: Seq<char>,
    secret_refresh_key: Seq<char>,
    now: i64,
) -> RefreshStepView {
    if now + REFRESH_TOKEN_EXPIRATION <= i64::MAX {
        RefreshStepView::Respond(
            with_cookies(
                refresh_cookies(user, current_session, secret_key, secret_refresh_key, now),
            ),
        )
    } else {
        refresh_unauthorized()
    }
}

/// What a refresh makes of the token once the owner's refresh secret is at
/// hand: a token that is well signed and not expired at `now` lets it go
/// on, carrying the session that the token names.
pub open spec fn refresh_with_key(
    token: Seq<char>,
    user: UserInfoView,
    secret_refresh_key: Seq<char>,
    now: i64,
) -> RefreshStepView {
    match refresh_token_claims(token, secret_refresh_key) {
        Some(claims) => if claims.exp > now {
            RefreshStepView::Ask(
                DbRequestView::AccessKey { user_id: user.user_id },
                RefreshStateView::LoadingAccessKey {
                    token_session: claims.session,
                    user,
                    secret_refresh_key,
                },
            )
        } else {
            refresh_unauthorized()
        },
        None => refresh_unauthorized(),
    }
}

/// A refresh's step from `state` on `reply` at time `now`.
pub open spec fn refresh_next(state: RefreshStateView, reply: DbReplyView, now: i64) -> RefreshStepView {
    match state {
        RefreshStateView::FindingOwner { token } => match int_answer(
            reply,
            AuthError::UnknownSession,
        ) {
            Ok(user_id) => RefreshStepView::Ask(
                DbRequestView::UserIdExists { user_id },
                RefreshStateView::CheckingUser { token, user_id },
            ),
            Err(_) => refresh_unauthorized(),
        },
        RefreshStateView::CheckingUser { token, user_id } => match exists_answer(reply) {
            Ok(true) => RefreshStepView::Ask(
                DbRequestView::UserById { user_id },
                RefreshStateView::LoadingUser { token, user_id },
            ),
            _ => refresh_unauthorized(),
        },
        RefreshStateView::LoadingUser { token, user_id } => match user_by_id_answer(user_id, reply) {
            Ok(user) => RefreshStepView::Ask(
                DbRequestView::RefreshKey { user_id },
                RefreshStateView::LoadingRefreshKey { token, user },
            ),
            Err(_) => refresh_unauthorized(),
        },
        RefreshStateView::LoadingRefreshKey { token, user } => match text_answer(
            reply,
            AuthError::KeyNotFound,
        ) {
            Ok(secret_refresh_key) => refresh_with_key(token, user, secret_refresh_key, now),
            Err(_) => refresh_unauthorized(),
        },
        RefreshStateView::LoadingAccessKey {
            token_session,
            user,
            secret_refresh_key,
        } => match text_answer(reply, AuthError::KeyNotFound) {
            Ok(secret_key) => RefreshStepView::Ask(
                DbRequestView::LatestSession { user_id: user.user_id },
                RefreshStateView::LoadingSession {
                    token_session,
                    user,
                    secret_refresh_key,
                    secret_key,
                },
            ),
            Err(_) => refresh_unauthorized(),
        },
        RefreshStateView::LoadingSession {
            token_session,
            user,
            secret_refresh_key,
            secret_key,
        } => match text_answer(reply, AuthError::NoActiveSession) {
            Ok(current_session) => RefreshStepView::Ask(
                DbRequestView::SessionOwner { session_uuid: token_session },
                RefreshStateView::ConfirmingSession {
                    token_session,
                    user,
                    secret_refresh_key,
                    secret_key,
                    current_session,
                },
            ),
            Err(_) => refresh_unauthorized(),
        },
        RefreshStateView::ConfirmingSession {
            token_session,
            user,
            secret_refresh_key,
            secret_key,
            current_session,
        } => match int_answer(reply, AuthError::UnknownSession) {
            Ok(owner) => if owner == user.user_id {
                refresh_issue(user, current_session, secret_key, secret_refresh_key, now)
            } else {
                refresh_unauthorized()
            },
            Err(_) => refresh_unauthorized(),
        },
    }
}

fn turn_away() -> (step: RefreshStep)
    ensures
        step@ == refresh_unauthorized(),
{
    RefreshStep::Respond(Response::bare(Status::Unauthorized))
}

/// Starts a refresh on a request with these cookies.
pub fn refresh_token(cookies: &Vec<RequestCookie>) -> (step: RefreshStep)
    ensures
        step@ == refresh_start(cookies_of(cookies@)),
{
    match (extract_refresh_token(cookies), get_session_uuid_from_cookie(cookies)) {
        (Ok(token), Ok(session_uuid)) => RefreshStep::Ask(
            DbRequest::SessionOwner { session_uuid },
            RefreshState::FindingOwner { token },
        ),
        _ => turn_away(),
    }
}

fn issue(
    user: &UserInfo,
    current_session: &str,
    secret_key: &str,
    secret_refresh_key: &str,
    now: i64,
) -> (step: RefreshStep)
    ensures
        step@ == refresh_issue(user@, current_session@, secret_key@, secret_refresh_key@, now),
{
    let access = get_new_access_token_cookie_header_at(user, secret_key, now);
    let refresh = get_new_refresh_token_cookie_header_at(
        user,
        current_session,
        secret_refresh_key,
        now,
    );
    match (access, refresh) {
        (Ok(access_line), Ok(refresh_line)) => RefreshStep::Respond(
            Response::with_two_cookies(access_line, refresh_line),
        ),
        _ => turn_away(),
    }
}

fn with_key(token: &str, user: UserInfo, secret_refresh_key: String, now: i64) -> (step: RefreshStep)
    ensures
        step@ == refresh_with_key(token@, user@, secret_refresh_key@, now),
{
    match read_refresh_claims(token, secret_refresh_key.as_str()) {
        Some(claims) => if claims.exp > now {
            RefreshStep::Ask(
                DbRequest::AccessKey { user_id: user.user_id },
                RefreshState::LoadingAccessKey {
                    token_session: claims.session,
                    user,
                    secret_refresh_key,
                },
            )
        } else {
            turn_away()
        },
        None => turn_away(),
    }
}

/// Resumes a refresh from `state` with the store's `reply`, at time `now`.
pub fn refresh_resume_at(state: RefreshState, reply: &DbReply, now: i64) -> (step: RefreshStep)
    ensures
        step@ == refresh_next(state@, reply@, now),
{
    match state {
        RefreshState::FindingOwner { token } => match read_session_user_id(reply) {
            Ok(user_id) => RefreshStep::Ask(
                DbRequest::UserIdExists { user_id },
                RefreshState::CheckingUser { token, user_id },
            ),
            Err(_) => turn_away(),
        },
        RefreshState::CheckingUser { token, user_id } => match read_exists(reply) {
            Ok(true) => RefreshStep::Ask(
                DbRequest::UserById { user_id },
                RefreshState::LoadingUser { token, user_id },
            ),
            _ => turn_away(),
        },
        RefreshState::LoadingUser { token, user_id } => match read_user_with_user_id(
            user_id,
            reply,
        ) {
            Ok(user) => RefreshStep::Ask(
                DbRequest::RefreshKey { user_id },
                RefreshState::LoadingRefreshKey { token, user },
            ),
            Err(_) => turn_away(),
        },
        RefreshState::LoadingRefreshKey { token, user } => match read_secret_key(reply) {
            Ok(secret_refresh_key) => with_key(token.as_str(), user, secret_refresh_key, now),
            Err(_) => turn_away(),
        },
        RefreshState::LoadingAccessKey {
            token_session,
            user,
            secret_refresh_key,
        } => match read_secret_key(reply) {
            Ok(secret_key) => RefreshStep::Ask(
                DbRequest::LatestSession { user_id: user.user_id },
                RefreshState::LoadingSession { token_session, user, secret_refresh_key, secret_key },
            ),
            Err(_) => turn_away(),
        },
        RefreshState::LoadingSession {
            token_session,
            user,
            secret_refresh_key,
            secret_key,
        } => match read_session_uuid(reply) {
            Ok(current_session) => RefreshStep::Ask(
                DbRequest::SessionOwner { session_uuid: token_session.clone() },
                RefreshState::ConfirmingSession {
                    token_session,
                    user,
                    secret_refresh_key,
                    secret_key,
                    current_session,
                },
            ),
            Err(_) => turn_away(),
        },
        RefreshState::ConfirmingSession {
            token_session,
            user,
            secret_refresh_key,
            secret_key,
            current_session,
        } => match read_session_user_id(reply) {
            Ok(owner) => if owner == user.user_id {
                issue(
                    &user,
                    current_session.as_str(),
                    secret_key.as_str(),
                    secret_refresh_key.as_str(),
                    now,
                )
            } else {
                turn_away()
            },
            Err(_) => turn_away(),
        },
    }
}

/// Resumes a refresh from `state` with the store's `reply`, at the present
/// time of the system clock, which is never so late that an expiry would
/// not fit.
pub fn refresh_resume(state: RefreshState, reply: &DbReply) -> (step: RefreshStep)
    ensures
        exists|now: i64|
            now <= LATEST_TIMESTAMP && step@ == #[trigger] refresh_next(state@, reply@, now),
{
    let now = current_timestamp();
    refresh_resume_at(state, reply, now)
}

/// Every refusal reads alike. A refresh that is turned away, at whatever
/// step and for whatever reason, answers with the same `Unauthorized`
/// response: no body, no cookie. A request without the refresh token or
/// without the session cookie, an unknown session, a forged or expired
/// token and a store that fails cannot be told apart by the client.
pub proof fn lemma_refresh_refusals_alike(
    cookies: Seq<RequestCookieView>,
    state: RefreshStateView,
    reply: DbReplyView,
    now: i64,
)
    ensures
        refresh_start(cookies) is Respond ==> refresh_start(cookies) == refresh_unauthorized(),
        refresh_start(cookies) is Ask ==> cookie_named(cookies, refresh_cookie_name()) is Some
            && cookie_named(cookies, session_cookie_name()) is Some,
        refresh_next(state, reply, now) matches RefreshStepView::Respond(response)
            ==> response.status == Status::Success || refresh_next(state, reply, now)
            == refresh_unauthorized(),
{
}

/// The token's worth is judged as validation judges it: the refresh goes
/// on from the owner's refresh secret exactly when `validate_refresh_token`
/// would answer `true` at that time, and it then carries the session that
/// the token names.
pub proof fn lemma_refresh_validates_token(
    token: Seq<char>,
    user: UserInfoView,
    secret_refresh_key: Seq<char>,
    now: i64,
)
    ensures
        refresh_with_key(token, user, secret_refresh_key, now) is Ask <==> refresh_validation(
            token,
            secret_refresh_key,
            now,
        ) == Ok::<bool, TokenError>(true),
        refresh_with_key(token, user, secret_refresh_key, now) matches RefreshStepView::Ask(
            _,
            RefreshStateView::LoadingAccessKey { token_session, .. },
        ) ==> refresh_token_claims(token, secret_refresh_key) matches Some(claims)
            && claims.session == token_session,
{
}

/// A revoked session ends the refresh, whatever the token is worth. Where
/// the store has no owner for the session, be it the cookie's at the first
/// question or the token's at the last one before issuing, the answer is
/// `Unauthorized`.
pub proof fn lemma_revoked_session_is_refused(
    token: Seq<char>,
    token_session: Seq<char>,
    user: UserInfoView,
    secret_refresh_key: Seq<char>,
    secret_key: Seq<char>,
    current_session: Seq<char>,
    now: i64,
)
    ensures
        int_answer(DbReplyView::NoRow, AuthError::UnknownSession) == Err::<i64, AuthError>(
            AuthError::UnknownSession,
        ),
        refresh_next(RefreshStateView::FindingOwner { token }, DbReplyView::NoRow, now)
            == refresh_unauthorized(),
        refresh_next(
            RefreshStateView::ConfirmingSession {
                token_session,
                user,
                secret_refresh_key,
                secret_key,
                current_session,
            },
            DbReplyView::NoRow,
            now,
        ) == refresh_unauthorized(),
{
}

/// No partial refresh. A refresh that succeeds sets exactly two cookies,
/// each `HttpOnly`, `Secure` and `SameSite=Strict`; every other response
/// sets none. Tokens are issued only on the reply to the last question,
/// and only where that reply names the user whose secrets were loaded as
/// the owner. That last question is asked about the session which the
/// token names, and about no other.
pub proof fn lemma_refresh_all_or_nothing(state: RefreshStateView, reply: DbReplyView, now: i64)
    ensures
        refresh_next(state, reply, now) matches RefreshStepView::Respond(response) ==> {
            &&& response.status == Status::Success ==> {
                &&& response.set_cookies.len() == 2
                &&& forall|i: int| 0 <= i < 2 ==> is_secured(#[trigger] response.set_cookies[i])
                &&& state matches RefreshStateView::ConfirmingSession { user, .. } && int_answer(
                    reply,
                    AuthError::UnknownSession,
                ) == Ok::<i64, AuthError>(user.user_id)
            }
            &&& response.status != Status::Success ==> response.set_cookies.len() == 0
        },
        refresh_next(state, reply, now) matches RefreshStepView::Ask(
            request,
            RefreshStateView::ConfirmingSession { token_session: confirmed, .. },
        ) ==> (state matches RefreshStateView::LoadingSession { token_session, .. } && (
        confirmed == token_session && request == (DbRequestView::SessionOwner {
            session_uuid: token_session,
        }))),
{
    if let RefreshStateView::ConfirmingSession {
        token_session,
        user,
        secret_refresh_key,
        secret_key,
        current_session,
    } = state {
        lemma_cookie_line_secured(
            "token"@,
            access_token_text(issued_claims(user.username, now), secret_key),
        );
        lemma_cookie_line_secured(
            "refresh_token"@,
            refresh_token_text(
                issued_refresh_claims(user.username, current_session, now),
                secret_refresh_key,
            ),
        );
    }
}

/// Refresh binding. Take a refresh token that carries `claims` under the
/// user's refresh secret and is valid before its expiry, as every issued
/// token is, and a time before that expiry. The token then validates,
/// whatever the session table holds. A refresh that presents it carries
/// the session named in the token to its last question. While that session
/// exists and is the user's, the last question is answered with the user
/// and the tokens are issued. Once that session is revoked the token still
/// validates, but the last question finds no owner and the refresh is
/// turned away, whichever session the cookie names.
pub proof fn lemma_refresh_binding(
    sessions: Seq<SessionRow>,
    user: UserInfoView,
    secret_refresh_key: Seq<char>,
    secret_key: Seq<char>,
    current_session: Seq<char>,
    token: Seq<char>,
    claims: RefreshClaimsView,
    now: i64,
)
    requires
        refresh_token_claims(token, secret_refresh_key) == Some(claims),
        valid_before_expiry(token, secret_refresh_key, claims),
        now < claims.exp,
        now + REFRESH_TOKEN_EXPIRATION <= i64::MAX,
        !session_exists(sessions, claims.session),
    ensures
        refresh_validation(token, secret_refresh_key, now) == Ok::<bool, TokenError>(true),
        refresh_next(
            RefreshStateView::LoadingRefreshKey { token, user },
            DbReplyView::Row(seq![SqlValueView::Text(secret_refresh_key)]),
            now,
        ) == RefreshStepView::Ask(
            DbRequestView::AccessKey { user_id: user.user_id },
            RefreshStateView::LoadingAccessKey {
                token_session: claims.session,
                user,
                secret_refresh_key,
            },
        ),
        refresh_next(
            RefreshStateView::LoadingSession {
                token_session: claims.session,
                user,
                secret_refresh_key,
                secret_key,
            },
            DbReplyView::Row(seq![SqlValueView::Text(current_session)]),
            now,
        ) == RefreshStepView::Ask(
            DbRequestView::SessionOwner { session_uuid: claims.session },
            RefreshStateView::ConfirmingSession {
                token_session: claims.session,
                user,
                secret_refresh_key,
                secret_key,
                current_session,
            },
        ),
        refresh_next(
            RefreshStateView::ConfirmingSession {
                token_session: claims.session,
                user,
                secret_refresh_key,
                secret_key,
                current_session,
            },
            owner_reply(created(sessions, user.user_id, claims.session), claims.session),
            now,
        ) == RefreshStepView::Respond(
            with_cookies(
                refresh_cookies(user, current_session, secret_key, secret_refresh_key, now),
            ),
        ),
        refresh_next(
            RefreshStateView::ConfirmingSession {
                token_session: claims.session,
                user,
                secret_refresh_key,
                secret_key,
                current_session,
            },
            owner_reply(
                revoked(created(sessions, user.user_id, claims.session), claims.session),
                claims.session,
            ),
            now,
        ) == refresh_unauthorized(),
{
    lemma_created_session_has_its_owner(sessions, user.user_id, claims.session);
    lemma_revoked_session_has_no_owner(
        created(sessions, user.user_id, claims.session),
        claims.session,
    );
}

} // verus!
