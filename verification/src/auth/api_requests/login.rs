//! Login: check a password, open a session, and hand out the access
//! token, the refresh token and the session identifier as cookies.
//!
//! An unknown user name and a wrong password get the same answer, so that
//! the service does not tell which names exist.
use crate::auth::api_requests::response::{bare, with_cookies, with_text, Response, ResponseView, Status};
use crate::auth::cookies::headers::{
    get_new_access_token_cookie_header_at, get_new_refresh_token_cookie_header_at,
    get_new_session_uuid_cookie_header, is_secured, lemma_cookie_line_secured, set_cookie_line,
};
use crate::auth::errors::AuthError;
use crate::auth::token::access_token::{access_token_text, issued_claims};
use crate::auth::token::clock::{current_timestamp, LATEST_TIMESTAMP};
use crate::auth::token::constants::REFRESH_TOKEN_EXPIRATION;
use crate::auth::token::refresh_token::{issued_refresh_claims, refresh_token_text};
use crate::auth::user::{User, UserInfo, UserInfoView, UserView};
use crate::auth::utils::password::{password_matches, verify_password};
use crate::db::{
    create_session, is_session_uuid, read_secret_key, read_session_uuid, read_user,
    session_created, text_answer, user_answer, DbReply, DbReplyView, DbRequest, DbRequestView,
};
use vstd::prelude::*;

verus! {

/// Where a login stands while it waits for the store.
#[derive(Debug)]
pub enum LoginState {
    /// Asked for the credential stored under the user name.
    FindingUser { user_data: User },
    /// Asked to store the new session.
    StoringSession { user: UserInfo, session_uuid: String },
    /// Asked for the user's access secret.
    LoadingAccessKey { user: UserInfo, session_uuid: String },
    /// Asked for the user's refresh secret.
    LoadingRefreshKey { user: UserInfo, session_uuid: String, secret_key: String },
    /// Asked for the user's current session, to which the refresh token is
    /// bound.
    LoadingSession {
        user: UserInfo,
        session_uuid: String,
        secret_key: String,
        secret_refresh_key: String,
    },
}

/// What a login does next.
#[derive(Debug)]
pub enum LoginStep {
    /// Put this question to the store and come back with the reply.
    Ask(DbRequest, LoginState),
    /// Send this response; the flow is over.
    Respond(Response),
}

/// Mathematical value of a [`LoginState`].
pub enum LoginStateView {
    FindingUser { user_data: UserView },
    StoringSession { user: UserInfoView, session_uuid: Seq<char> },
    LoadingAccessKey { user: UserInfoView, session_uuid: Seq<char> },
    LoadingRefreshKey { user: UserInfoView, session_uuid: Seq<char>, secret_key: Seq<char> },
    LoadingSession {
        user: UserInfoView,
        session_uuid: Seq<char>,
        secret_key: Seq<char>,
        secret_refresh_key: Seq<char>,
    },
}

/// Mathematical value of a [`LoginStep`].
pub enum LoginStepView {
    Ask(DbRequestView, LoginStateView),
    Respond(ResponseView),
}

impl View for LoginState {
    type V = LoginStateView;

    open spec fn view(&self) -> LoginStateView {
        match self {
            LoginState::FindingUser { user_data } => LoginStateView::FindingUser {
                user_data: user_data@,
            },
            LoginState::StoringSession { user, session_uuid } => LoginStateView::StoringSession {
                user: user@,
                session_uuid: session_uuid@,
            },
            LoginState::LoadingAccessKey {
                user,
                session_uuid,
            } => LoginStateView::LoadingAccessKey { user: user@, session_uuid: session_uuid@ },
            LoginState::LoadingRefreshKey {
                user,
                session_uuid,
                secret_key,
            } => LoginStateView::LoadingRefreshKey {
                user: user@,
                session_uuid: session_uuid@,
                secret_key: secret_key@,
            },
            LoginState::LoadingSession {
                user,
                session_uuid,
                secret_key,
                secret_refresh_key,
            } => LoginStateView::LoadingSession {
                user: user@,
                session_uuid: session_uuid@,
                secret_key: secret_key@,
                secret_refresh_key: secret_refresh_key@,
            },
        }
    }
}

impl View for LoginStep {
    type V = LoginStepView;

    open spec fn view(&self) -> LoginStepView {
        match self {
            LoginStep::Ask(request, state) => LoginStepView::Ask(request@, state@),
            LoginStep::Respond(response) => LoginStepView::Respond(response@),
        }
    }
}

/// The response to a login that is refused, for whatever reason.
pub open spec fn login_unauthorized() -> ResponseView {
    with_text(Status::Unauthorized, "Invalid username or password"@)
}

/// A login's first step: ask for the credential stored under the name.
pub open spec fn login_start(user_data: UserView) -> LoginStepView {
    LoginStepView::Ask(
        DbRequestView::UserByName { username: user_data.username },
        LoginStateView::FindingUser { user_data },
    )
}

/// What a login does once the stored credential is at hand: on a matching
/// password it opens the session `fresh_session`, otherwise it refuses.
pub open spec fn login_checked(
    user_data: UserView,
    stored_user: UserInfoView,
    fresh_session: Seq<char>,
) -> LoginStepView {
    if password_matches(user_data.password, stored_user.password) {
        LoginStepView::Ask(
            DbRequestView::StoreSession {
                user_id: stored_user.user_id,
                session_uuid: fresh_session,
            },
            LoginStateView::StoringSession { user: stored_user, session_uuid: fresh_session },
        )
    } else {
        LoginStepView::Respond(login_unauthorized())
    }
}

/// The three cookies of a successful login, in the order in which they are
/// set: access token, refresh token, session identifier. The refresh token
/// is bound to `current_session`, the session that the store reports as
/// the user's newest.
pub open spec fn login_cookies(
    user: UserInfoView,
    session_uuid: Seq<char>,
    current_session: Seq<char>,
    secret_key: Seq<char>,
    secret_refresh_key: Seq<char>,
    now: i64,
) -> Seq<Seq<char>> {
    seq![
        set_cookie_line(
            "token"@,
            access_token_text(issued_claims(user.username, now), secret_key),
        ),
        set_cookie_line(
            "refresh_token"@,
            refresh_token_text(
                issued_refresh_claims(user.username, current_session, now),
                secret_refresh_key,
            ),
        ),
        set_cookie_line("session"@, session_uuid),
    ]
}

/// A login's last step: issue both tokens at time `now`. Where an expiry
/// would not fit in a timestamp the login fails as a whole.
pub open spec fn login_issue(
    user: UserInfoView,
    session_uuid: Seq<char>,
    current_session: Seq<char>,
    secret_key: Seq<char>,
    secret_refresh_key: Seq<char>,
    now: i64,
) -> LoginStepView {
    if now + REFRESH_TOKEN_EXPIRATION <= i64::MAX {
        LoginStepView::Respond(
            with_cookies(
                login_cookies(
                    user,
                    session_uuid,
                    current_session,
                    secret_key,
                    secret_refresh_key,
                    now,
                ),
            ),
        )
    } else {
        LoginStepView::Respond(bare(Status::InternalServerError))
    }
}

/// A login's step from `state` on `reply`. `fresh_session` is the
/// identifier for a session to open and `now` the time at which tokens are
/// issued.
pub open spec fn login_next(
    state: LoginStateView,
    reply: DbReplyView,
    now: i64,
    fresh_session: Seq<char>,
) -> LoginStepView {
    match state {
        LoginStateView::FindingUser { user_data } => match user_answer(user_data.username, reply) {
            Ok(stored_user) => login_checked(user_data, stored_user, fresh_session),
            Err(_) => LoginStepView::Respond(login_unauthorized()),
        },
        LoginStateView::StoringSession { user, session_uuid } => if reply is Done {
            LoginStepView::Ask(
                DbRequestView::AccessKey { user_id: user.user_id },
                LoginStateView::LoadingAccessKey { user, session_uuid },
            )
        } else {
            LoginStepView::Respond(bare(Status::InternalServerError))
        },
        LoginStateView::LoadingAccessKey { user, session_uuid } => match text_answer(
            reply,
            AuthError::KeyNotFound,
        ) {
            Ok(secret_key) => LoginStepView::Ask(
                DbRequestView::RefreshKey { user_id: user.user_id },
                LoginStateView::LoadingRefreshKey { user, session_uuid, secret_key },
            ),
            Err(_) => LoginStepView::Respond(bare(Status::InternalServerError)),
        },
        LoginStateView::LoadingRefreshKey { user, session_uuid, secret_key } => match text_answer(
            reply,
            AuthError::KeyNotFound,
        ) {
            Ok(secret_refresh_key) => LoginStepView::Ask(
                DbRequestView::LatestSession { user_id: user.user_id },
                LoginStateView::LoadingSession {
                    user,
                    session_uuid,
                    secret_key,
                    secret_refresh_key,
                },
            ),
            Err(_) => LoginStepView::Respond(bare(Status::InternalServerError)),
        },
        LoginStateView::LoadingSession {
            user,
            session_uuid,
            secret_key,
            secret_refresh_key,
        } => match text_answer(reply, AuthError::NoActiveSession) {
            Ok(current_session) => login_issue(
                user,
                session_uuid,
                current_session,
                secret_key,
                secret_refresh_key,
                now,
            ),
            Err(_) => LoginStepView::Respond(bare(Status::InternalServerError)),
        },
    }
}

fn refuse() -> (step: LoginStep)
    ensures
        step@ == LoginStepView::Respond(login_unauthorized()),
{
    LoginStep::Respond(Response::with_text(Status::Unauthorized, "Invalid username or password"))
}

fn fail() -> (step: LoginStep)
    ensures
        step@ == LoginStepView::Respond(bare(Status::InternalServerError)),
{
    LoginStep::Respond(Response::bare(Status::InternalServerError))
}

/// Starts a login.
pub fn login(user_data: User) -> (step: LoginStep)
    ensures
        step@ == login_start(user_data@),
{
    let request = DbRequest::UserByName { username: user_data.username.clone() };
    LoginStep::Ask(request, LoginState::FindingUser { user_data })
}

/// Continues a login with the stored credential, opening the session
/// `session_uuid` where the password matches.
pub fn proceed_with_login_in(user_data: &User, stored_user: UserInfo, session_uuid: String) -> (step:
    LoginStep)
    ensures
        step@ == login_checked(user_data@, stored_user@, session_uuid@),
{
    if verify_password(user_data.password.as_str(), stored_user.password.as_str()) {
        let request = DbRequest::StoreSession {
            user_id: stored_user.user_id,
            session_uuid: session_uuid.clone(),
        };
        LoginStep::Ask(request, LoginState::StoringSession { user: stored_user, session_uuid })
    } else {
        refuse()
    }
}

/// Continues a login with the stored credential, opening a session under
/// a fresh identifier where the password matches.
pub fn proceed_with_login(user_data: &User, stored_user: UserInfo) -> (step: LoginStep)
    ensures
        exists|fresh_session: Seq<char>|
            is_session_uuid(fresh_session) && step@ == #[trigger] login_checked(
                user_data@,
                stored_user@,
                fresh_session,
            ),
{
    let (session_uuid, _) = create_session(&stored_user);
    proceed_with_login_in(user_data, stored_user, session_uuid)
}

fn issue(
    user: &UserInfo,
    session_uuid: &String,
    current_session: &str,
    secret_key: &str,
    secret_refresh_key: &str,
    now: i64,
) -> (step: LoginStep)
    ensures
        step@ == login_issue(
            user@,
            session_uuid@,
            current_session@,
            secret_key@,
            secret_refresh_key@,
            now,
        ),
{
    let access = get_new_access_token_cookie_header_at(user, secret_key, now);
    let refresh = get_new_refresh_token_cookie_header_at(
        user,
        current_session,
        secret_refresh_key,
        now,
    );
    match (access, refresh) {
        (Ok(access_line), Ok(refresh_line)) => LoginStep::Respond(
            Response::with_three_cookies(
                access_line,
                refresh_line,
                get_new_session_uuid_cookie_header(session_uuid),
            ),
        ),
        _ => fail(),
    }
}

/// Resumes a login from `state` with the store's `reply`; `fresh_session`
/// is used where a session is opened and `now` where tokens are issued.
pub fn login_resume_with(state: LoginState, reply: &DbReply, now: i64, fresh_session: String) -> (step:
    LoginStep)
    ensures
        step@ == login_next(state@, reply@, now, fresh_session@),
{
    match state {
        LoginState::FindingUser { user_data } => match read_user(
            user_data.username.as_str(),
            reply,
        ) {
            Ok(stored_user) => proceed_with_login_in(&user_data, stored_user, fresh_session),
            Err(_) => refuse(),
        },
        LoginState::StoringSession { user, session_uuid } => match session_created(reply) {
            Ok(_) => LoginStep::Ask(
                DbRequest::AccessKey { user_id: user.user_id },
                LoginState::LoadingAccessKey { user, session_uuid },
            ),
            Err(_) => fail(),
        },
        LoginState::LoadingAccessKey { user, session_uuid } => match read_secret_key(reply) {
            Ok(secret_key) => LoginStep::Ask(
                DbRequest::RefreshKey { user_id: user.user_id },
                LoginState::LoadingRefreshKey { user, session_uuid, secret_key },
            ),
            Err(_) => fail(),
        },
        LoginState::LoadingRefreshKey { user, session_uuid, secret_key } => match read_secret_key(
            reply,
        ) {
            Ok(secret_refresh_key) => LoginStep::Ask(
                DbRequest::LatestSession { user_id: user.user_id },
                LoginState::LoadingSession { user, session_uuid, secret_key, secret_refresh_key },
            ),
            Err(_) => fail(),
        },
        LoginState::LoadingSession {
            user,
            session_uuid,
            secret_key,
            secret_refresh_key,
        } => match read_session_uuid(reply) {
            Ok(current_session) => issue(
                &user,
                &session_uuid,
                current_session.as_str(),
                secret_key.as_str(),
                secret_refresh_key.as_str(),
                now,
            ),
            Err(_) => fail(),
        },
    }
}

/// Resumes a login from `state` with the store's `reply`, drawing a fresh
/// session identifier where a session is opened and reading the system
/// clock where tokens are issued. The clock is never so late that an
/// expiry would not fit.
pub fn login_resume(state: LoginState, reply: &DbReply) -> (step: LoginStep)
    ensures
        exists|now: i64, fresh_session: Seq<char>| #[trigger]
            login_next(state@, reply@, now, fresh_session) == step@ && now <= LATEST_TIMESTAMP && (
            state is FindingUser ==> is_session_uuid(fresh_session)),
{
    match state {
        LoginState::FindingUser { user_data } => match read_user(
            user_data.username.as_str(),
            reply,
        ) {
            Ok(stored_user) => {
                let step = proceed_with_login(&user_data, stored_user);
                proof {
                    let fresh_session = choose|fresh_session: Seq<char>|
                        is_session_uuid(fresh_session) && step@ == #[trigger] login_checked(
                            user_data@,
                            stored_user@,
                            fresh_session,
                        );
                    assert(login_next(state@, reply@, 0, fresh_session) == step@);
                }
                step
            },
            Err(_) => {
                let step = refuse();
                proof {
                    let fresh_session = Seq::new(36, |i: int| '0');
                    assert(login_next(state@, reply@, 0, fresh_session) == step@);
                }
                step
            },
        },
        LoginState::LoadingSession { .. } => {
            let now = current_timestamp();
            let step = login_resume_with(state, reply, now, String::new());
            assert(login_next(state@, reply@, now, Seq::<char>::empty()) == step@);
            step
        },
        _ => {
            let step = login_resume_with(state, reply, 0, String::new());
            assert(login_next(state@, reply@, 0, Seq::<char>::empty()) == step@);
            step
        },
    }
}

/// A wrong password and an unknown user name are answered alike: with the
/// same status, the same body and no cookie.
pub proof fn lemma_login_refusals_alike(
    user_data: UserView,
    found: DbReplyView,
    now: i64,
    fresh_session: Seq<char>,
)
    requires
        user_answer(user_data.username, found) matches Ok(stored_user) && !password_matches(
            user_data.password,
            stored_user.password,
        ),
    ensures
        login_next(LoginStateView::FindingUser { user_data }, found, now, fresh_session)
            == login_next(
            LoginStateView::FindingUser { user_data },
            DbReplyView::NoRow,
            now,
            fresh_session,
        ),
        login_next(LoginStateView::FindingUser { user_data }, DbReplyView::NoRow, now, fresh_session)
            == LoginStepView::Respond(login_unauthorized()),
{
}

/// A login that succeeds sets exactly three cookies, each `HttpOnly`,
/// `Secure` and `SameSite=Strict`; a login that does not succeed sets none.
/// No session is opened before the password has matched.
pub proof fn lemma_login_cookies(
    state: LoginStateView,
    reply: DbReplyView,
    now: i64,
    fresh_session: Seq<char>,
)
    ensures
        login_next(state, reply, now, fresh_session) matches LoginStepView::Respond(response) ==> {
            &&& response.status == Status::Success ==> response.set_cookies.len() == 3 && forall|
                i: int,
            |
                0 <= i < 3 ==> is_secured(#[trigger] response.set_cookies[i])
            &&& response.status != Status::Success ==> response.set_cookies.len() == 0
        },
        login_next(state, reply, now, fresh_session) matches LoginStepView::Ask(
            DbRequestView::StoreSession { .. },
            _,
        ) ==> (state matches LoginStateView::FindingUser { user_data } && (user_answer(
            user_data.username,
            reply,
        ) matches Ok(stored_user) && password_matches(user_data.password, stored_user.password))),
{
    if let LoginStateView::LoadingSession { user, session_uuid, secret_key, secret_refresh_key } =
        state {
        if let Ok(current_session) = text_answer(reply, AuthError::NoActiveSession) {
            let cookies = login_cookies(
                user,
                session_uuid,
                current_session,
                secret_key,
                secret_refresh_key,
                now,
            );
            lemma_cookie_line_secured(
                "token"@,
                access_token_text(issued_claims(user.username, now), secret_key),
            );
            lemma_cookie_line_secured(
                "refresh_token"@,
                refresh_token_text(
                    issued_refresh_claims(user.username, current_session, now),
                    secret_refresh_key,
                ),
            );
            lemma_cookie_line_secured("session"@, session_uuid);
        }
    }
}

/// At a time that the clock can give, both expiries fit: a login that has
/// come to its last step then issues its tokens and sets its cookies.
pub proof fn lemma_login_issues_by_the_clock(
    user: UserInfoView,
    session_uuid: Seq<char>,
    current_session: Seq<char>,
    secret_key: Seq<char>,
    secret_refresh_key: Seq<char>,
    now: i64,
)
    requires
        now <= LATEST_TIMESTAMP,
    ensures
        login_issue(user, session_uuid, current_session, secret_key, secret_refresh_key, now)
            == LoginStepView::Respond(
            with_cookies(
                login_cookies(
                    user,
                    session_uuid,
                    current_session,
                    secret_key,
                    secret_refresh_key,
                    now,
                ),
            ),
        ),
{
}

} // verus!
