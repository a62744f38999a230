//! Logout: revoke the session of an authorized request.
//!
//! Revocation is the deletion of the session row. Refresh tokens that name
//! the session stop working with it; an access token already issued stays
//! valid until it expires.
use crate::auth::api_requests::response::{bare, with_text, Response, ResponseView, Status};
use crate::auth::cookies::utils::{
    cookie_named, cookies_of, get_session_uuid_from_cookie, session_cookie_name, RequestCookie,
    RequestCookieView,
};
use crate::auth::errors::{error_text, AuthError};
use crate::auth::token::clock::{current_timestamp, LATEST_TIMESTAMP};
use crate::logging::log::{log_warn, LogLevel, LogRecord, LogRecordView};
use crate::auth::utils::validate_request::{
    guard_next, guard_start, resume_validation_at, validate_http_request, GuardState,
    GuardStateView, GuardStep, GuardStepView,
};
use crate::db::{drop_session, write_answer, DbReply, DbReplyView, DbRequest, DbRequestView};
use vstd::prelude::*;

verus! {

/// Where a logout stands while it waits for the store.
#[derive(Debug)]
pub enum LogoutState {
    /// The guard is at work; `session_uuid` is the session to revoke.
    Authorizing { guard: GuardState, session_uuid: String },
    /// Asked to delete the session.
    Dropping,
}

/// What a logout does next.
#[derive(Debug)]
pub enum LogoutStep {
    /// Put this question to the store and come back with the reply.
    Ask(DbRequest, LogoutState),
    /// Send this response; the flow is over.
    Respond(Response),
    /// Send this response, which turns the request away, and write the
    /// record to the service's log; the flow is over.
    Reject(Response, LogRecord),
}

/// Mathematical value of a [`LogoutState`].
pub enum LogoutStateView {
    Authorizing { guard: GuardStateView, session_uuid: Seq<char> },
    Dropping,
}

/// Mathematical value of a [`LogoutStep`].
pub enum LogoutStepView {
    Ask(DbRequestView, LogoutStateView),
    Respond(ResponseView),
    Reject(ResponseView, LogRecordView),
}

impl View for LogoutState {
    type V = LogoutStateView;

    open spec fn view(&self) -> LogoutStateView {
        match self {
            LogoutState::Authorizing { guard, session_uuid } => LogoutStateView::Authorizing {
                guard: guard@,
                session_uuid: session_uuid@,
            },
            LogoutState::Dropping => LogoutStateView::Dropping,
        }
    }
}

impl View for LogoutStep {
    type V = LogoutStepView;

    open spec fn view(&self) -> LogoutStepView {
        match self {
            LogoutStep::Ask(request, state) => LogoutStepView::Ask(request@, state@),
            LogoutStep::Respond(response) => LogoutStepView::Respond(response@),
            LogoutStep::Reject(response, record) => LogoutStepView::Reject(response@, record@),
        }
    }
}

/// The response to a logout that the guard turned away.
pub open spec fn logout_unauthorized() -> ResponseView {
    with_text(Status::Unauthorized, "You are not authorized to make this request"@)
}

/// The response to a logout that went through.
pub open spec fn logout_done() -> ResponseView {
    with_text(Status::Success, "logout sucessfull"@)
}

/// How a logout goes on after a step of the guard: it follows the guard's
/// questions, revokes the session once the guard is satisfied, and answers
/// `Unauthorized` where the guard is not, whatever the reason; the guard's
/// record goes along for the log.
pub open spec fn logout_after_guard(step: GuardStepView, session_uuid: Seq<char>) -> LogoutStepView {
    match step {
        GuardStepView::Ask(request, guard) => LogoutStepView::Ask(
            request,
            LogoutStateView::Authorizing { guard, session_uuid },
        ),
        GuardStepView::Authorized(_) => LogoutStepView::Ask(
            DbRequestView::DropSession { session_uuid },
            LogoutStateView::Dropping,
        ),
        GuardStepView::Rejected(_, record) => LogoutStepView::Reject(logout_unauthorized(), record),
    }
}

/// A logout's first step on a request with these cookies.
pub open spec fn logout_start(cookies: Seq<RequestCookieView>) -> LogoutStepView {
    match cookie_named(cookies, session_cookie_name()) {
        Some(session_uuid) => logout_after_guard(guard_start(cookies), session_uuid),
        None => LogoutStepView::Reject(
            logout_unauthorized(),
            LogRecordView { level: LogLevel::Warn, message: error_text(AuthError::MissingCookie) },
        ),
    }
}

/// A logout's step from `state` on `reply` at time `now`. Once the delete
/// has run the logout has succeeded, whether or not a row was left to
/// delete.
pub open spec fn logout_next(state: LogoutStateView, reply: DbReplyView, now: i64) -> LogoutStepView {
    match state {
        LogoutStateView::Authorizing { guard, session_uuid } => logout_after_guard(
            guard_next(guard, reply, now),
            session_uuid,
        ),
        LogoutStateView::Dropping => match write_answer(reply, AuthError::PersistenceUnavailable) {
            Ok(_) => LogoutStepView::Respond(logout_done()),
            Err(_) => LogoutStepView::Respond(bare(Status::InternalServerError)),
        },
    }
}

fn after_guard(step: GuardStep, session_uuid: String) -> (r: LogoutStep)
    ensures
        r@ == logout_after_guard(step@, session_uuid@),
{
    match step {
        GuardStep::Ask(request, guard) => LogoutStep::Ask(
            request,
            LogoutState::Authorizing { guard, session_uuid },
        ),
        GuardStep::Authorized(_) => LogoutStep::Ask(
            DbRequest::DropSession { session_uuid },
            LogoutState::Dropping,
        ),
        GuardStep::Rejected(_, record) => LogoutStep::Reject(
            Response::with_text(Status::Unauthorized, "You are not authorized to make this request"),
            record,
        ),
    }
}

/// Starts a logout on a request with these cookies.
pub fn logout(cookies: &Vec<RequestCookie>) -> (step: LogoutStep)
    ensures
        step@ == logout_start(cookies_of(cookies@)),
{
    match get_session_uuid_from_cookie(cookies) {
        Ok(session_uuid) => after_guard(validate_http_request(cookies), session_uuid),
        Err(_) => {
            let text = AuthError::MissingCookie.message();
            LogoutStep::Reject(
                Response::with_text(
                    Status::Unauthorized,
                    "You are not authorized to make this request",
                ),
                log_warn(text.as_str()),
            )
        },
    }
}

/// Resumes a logout from `state` with the store's `reply`, at time `now`.
pub fn logout_resume_at(state: LogoutState, reply: &DbReply, now: i64) -> (step: LogoutStep)
    ensures
        step@ == logout_next(state@, reply@, now),
{
    match state {
        LogoutState::Authorizing { guard, session_uuid } => after_guard(
            resume_validation_at(guard, reply, now),
            session_uuid,
        ),
        LogoutState::Dropping => match drop_session(reply) {
            Ok(_) => LogoutStep::Respond(Response::with_text(Status::Success, "logout sucessfull")),
            Err(_) => LogoutStep::Respond(Response::bare(Status::InternalServerError)),
        },
    }
}

/// Resumes a logout from `state` with the store's `reply`, at the present
/// time of the system clock.
pub fn logout_resume(state: LogoutState, reply: &DbReply) -> (step: LogoutStep)
    ensures
        exists|now: i64|
            now <= LATEST_TIMESTAMP && step@ == #[trigger] logout_next(state@, reply@, now),
{
    let now = current_timestamp();
    logout_resume_at(state, reply, now)
}

/// Every refusal reads alike: a logout that is turned away, at whatever
/// step and for whatever reason, sends the same `Unauthorized` response.
pub proof fn lemma_logout_refusals_alike(
    cookies: Seq<RequestCookieView>,
    state: LogoutStateView,
    reply: DbReplyView,
    now: i64,
)
    ensures
        logout_start(cookies) matches LogoutStepView::Reject(response, _) ==> response
            == logout_unauthorized(),
        !(logout_start(cookies) is Respond),
        logout_next(state, reply, now) matches LogoutStepView::Reject(response, _) ==> response
            == logout_unauthorized(),
{
}

/// Logout is idempotent: once the guard has let the request through, the
/// response is the same whether the delete removed the session or found it
/// gone already.
pub proof fn lemma_logout_idempotent(removed: u64, now: i64)
    ensures
        logout_next(LogoutStateView::Dropping, DbReplyView::Done(removed), now)
            == LogoutStepView::Respond(logout_done()),
{
}

/// A logout never revokes a session on behalf of a request that the guard
/// has not let through.
pub proof fn lemma_logout_needs_authorization(
    cookies: Seq<RequestCookieView>,
    state: LogoutStateView,
    reply: DbReplyView,
    now: i64,
)
    ensures
        !(logout_start(cookies) matches LogoutStepView::Ask(DbRequestView::DropSession { .. }, _)),
        logout_next(state, reply, now) matches LogoutStepView::Ask(
            DbRequestView::DropSession { session_uuid },
            _,
        ) ==> (state matches LogoutStateView::Authorizing { guard, session_uuid: revoked } && (
        revoked == session_uuid && guard_next(guard, reply, now) is Authorized)),
{
}

} // verus!
