use auth_server::auth::api_requests::login::{
    login, login_resume, login_resume_with, proceed_with_login, proceed_with_login_in, LoginState,
    LoginStep,
};
use auth_server::auth::api_requests::logout::{
    logout, logout_resume, logout_resume_at, LogoutState, LogoutStep,
};
use auth_server::auth::api_requests::refresh_token::{
    refresh_resume, refresh_resume_at, refresh_token, RefreshState, RefreshStep,
};
use auth_server::auth::api_requests::register::{
    create_user, create_user_with_salt, register, register_resume, register_resume_with,
    RegisterState, RegisterStep,
};
use auth_server::auth::api_requests::response::{Body, Response, Status};
use auth_server::auth::cookies::utils::RequestCookie;
use auth_server::auth::errors::AuthError;
use auth_server::auth::token::access_token::{create_access_token_at, validate_token_at};
use auth_server::auth::token::errors::TokenError;
use auth_server::auth::token::refresh_token::{
    create_refresh_token_at, validate_refresh_token_at,
};
use auth_server::auth::user::{RegisterUserInfo, User, UserInfo};
use auth_server::auth::utils::password::{hash_password_with_salt, verify_password};
use auth_server::auth::utils::validate_request::{
    proceed_with_validation, resume_validation, resume_validation_at, validate_http_request,
    GuardState, GuardStep,
};
use auth_server::db::{create_session, session_created, DbReply, DbRequest, SqlValue};
use auth_server::logging::log::LogLevel;

const FLAGS: &str = "; HttpOnly; SameSite=Strict; Secure";

/// A store in memory that answers as the database would.
struct Store {
    users: Vec<(i64, String, String, String)>,
    access_keys: Vec<(i64, String)>,
    refresh_keys: Vec<(i64, String)>,
    sessions: Vec<(String, i64)>,
    asked: Vec<String>,
}

impl Store {
    fn new() -> Store {
        Store {
            users: Vec::new(),
            access_keys: Vec::new(),
            refresh_keys: Vec::new(),
            sessions: Vec::new(),
            asked: Vec::new(),
        }
    }

    fn answer(&mut self, request: &DbRequest) -> DbReply {
        self.asked.push(format!("{:?}", request).split(' ').next().unwrap().to_string());
        match request {
            DbRequest::UserIdExists { user_id } => DbReply::Row(vec![SqlValue::Int(
                self.users.iter().filter(|u| u.0 == *user_id).count() as i64,
            )]),
            DbRequest::UsernameExists { username } => DbReply::Row(vec![SqlValue::Int(
                self.users.iter().filter(|u| &u.1 == username).count() as i64,
            )]),
            DbRequest::AccessKey { user_id } => {
                match self.access_keys.iter().find(|k| k.0 == *user_id) {
                    Some(k) => DbReply::Row(vec![SqlValue::Text(k.1.clone())]),
                    None => DbReply::NoRow,
                }
            },
            DbRequest::RefreshKey { user_id } => {
                match self.refresh_keys.iter().find(|k| k.0 == *user_id) {
                    Some(k) => DbReply::Row(vec![SqlValue::Text(k.1.clone())]),
                    None => DbReply::NoRow,
                }
            },
            DbRequest::UserByName { username } => {
                match self.users.iter().find(|u| &u.1 == username) {
                    Some(u) => DbReply::Row(vec![
                        SqlValue::Int(u.0),
                        SqlValue::Text(u.2.clone()),
                        SqlValue::Text(u.3.clone()),
                    ]),
                    None => DbReply::NoRow,
                }
            },
            DbRequest::UserById { user_id } => match self.users.iter().find(|u| u.0 == *user_id) {
                Some(u) => DbReply::Row(vec![
                    SqlValue::Text(u.1.clone()),
                    SqlValue::Text(u.2.clone()),
                    SqlValue::Text(u.3.clone()),
                ]),
                None => DbReply::NoRow,
            },
            DbRequest::StoreAccessKey { user_id, secret_key } => {
                if self.access_keys.iter().any(|k| k.0 == *user_id) {
                    return DbReply::Conflict;
                }
                self.access_keys.push((*user_id, secret_key.clone()));
                DbReply::Done(1)
            },
            DbRequest::StoreRefreshKey { user_id, secret_refresh_key } => {
                if self.refresh_keys.iter().any(|k| k.0 == *user_id) {
                    return DbReply::Conflict;
                }
                self.refresh_keys.push((*user_id, secret_refresh_key.clone()));
                DbReply::Done(1)
            },
            DbRequest::LatestSession { user_id } => {
                match self.sessions.iter().rev().find(|s| s.1 == *user_id) {
                    Some(s) => DbReply::Row(vec![SqlValue::Text(s.0.clone())]),
                    None => DbReply::NoRow,
                }
            },
            DbRequest::SessionOwner { session_uuid } => {
                match self.sessions.iter().find(|s| &s.0 == session_uuid) {
                    Some(s) => DbReply::Row(vec![SqlValue::Int(s.1)]),
                    None => DbReply::NoRow,
                }
            },
            DbRequest::StoreSession { user_id, session_uuid } => {
                if self.sessions.iter().any(|s| &s.0 == session_uuid)
                    || !self.users.iter().any(|u| u.0 == *user_id)
                {
                    return DbReply::Conflict;
                }
                self.sessions.push((session_uuid.clone(), *user_id));
                DbReply::Done(1)
            },
            DbRequest::StoreUser { username, password_hash, email } => {
                if self.users.iter().any(|u| &u.1 == username) {
                    return DbReply::Conflict;
                }
                let id = self.users.len() as i64 + 1;
                self.users.push((id, username.clone(), password_hash.clone(), email.clone()));
                DbReply::Done(1)
            },
            DbRequest::DropSession { session_uuid } => {
                let before = self.sessions.len();
                self.sessions.retain(|s| &s.0 != session_uuid);
                DbReply::Done((before - self.sessions.len()) as u64)
            },
        }
    }
}

fn run_register(store: &mut Store, username: &str, password: &str, email: &str) -> Response {
    let mut step = register(RegisterUserInfo {
        username: username.to_string(),
        password: password.to_string(),
        email: email.to_string(),
    });
    loop {
        match step {
            RegisterStep::Ask(request, state) => {
                let reply = store.answer(&request);
                step = register_resume(state, &reply);
            },
            RegisterStep::Respond(response) => return response,
        }
    }
}

fn run_login_at(store: &mut Store, username: &str, password: &str, now: i64, session: &str) -> Response {
    let mut step = login(User { username: username.to_string(), password: password.to_string() });
    loop {
        match step {
            LoginStep::Ask(request, state) => {
                let reply = store.answer(&request);
                step = login_resume_with(state, &reply, now, session.to_string());
            },
            LoginStep::Respond(response) => return response,
        }
    }
}

fn run_login(store: &mut Store, username: &str, password: &str) -> Response {
    let mut step = login(User { username: username.to_string(), password: password.to_string() });
    loop {
        match step {
            LoginStep::Ask(request, state) => {
                let reply = store.answer(&request);
                step = login_resume(state, &reply);
            },
            LoginStep::Respond(response) => return response,
        }
    }
}

fn run_refresh_at(store: &mut Store, cookies: &Vec<RequestCookie>, now: i64) -> Response {
    let mut step = refresh_token(cookies);
    loop {
        match step {
            RefreshStep::Ask(request, state) => {
                let reply = store.answer(&request);
                step = refresh_resume_at(state, &reply, now);
            },
            RefreshStep::Respond(response) => return response,
        }
    }
}

fn run_logout_at(store: &mut Store, cookies: &Vec<RequestCookie>, now: i64) -> Response {
    let mut step = logout(cookies);
    loop {
        match step {
            LogoutStep::Ask(request, state) => {
                let reply = store.answer(&request);
                step = logout_resume_at(state, &reply, now);
            },
            LogoutStep::Respond(response) => return response,
            LogoutStep::Reject(response, record) => {
                assert_eq!(record.level, LogLevel::Warn);
                return response;
            },
        }
    }
}

fn run_guard_at(store: &mut Store, cookies: &Vec<RequestCookie>, now: i64) -> GuardStep {
    let mut step = validate_http_request(cookies);
    loop {
        match step {
            GuardStep::Ask(request, state) => {
                let reply = store.answer(&request);
                step = resume_validation_at(state, &reply, now);
            },
            done => return done,
        }
    }
}

/// The cookies that a client holds after a response.
fn client_cookies(response: &Response) -> Vec<RequestCookie> {
    response
        .set_cookies
        .iter()
        .map(|line| {
            let pair = line.strip_suffix(FLAGS).unwrap();
            let (name, value) = pair.split_once('=').unwrap();
            RequestCookie { name: name.to_string(), value: value.to_string() }
        })
        .collect()
}

fn value_of<'a>(cookies: &'a Vec<RequestCookie>, name: &str) -> &'a str {
    &cookies.iter().find(|c| c.name == name).unwrap().value
}

fn text_of(body: &Body) -> Option<&str> {
    match body {
        Body::Empty => None,
        Body::Text(text) => Some(text),
        Body::Json(text) => Some(text),
    }
}

fn same_response(a: &Response, b: &Response) -> bool {
    a.status == b.status
        && a.set_cookies == b.set_cookies
        && match (&a.body, &b.body) {
            (Body::Empty, Body::Empty) => true,
            (Body::Text(x), Body::Text(y)) => x == y,
            (Body::Json(x), Body::Json(y)) => x == y,
            _ => false,
        }
}

#[test]
fn register_then_login_sets_three_secured_cookies() {
    let mut store = Store::new();
    let registered = run_register(&mut store, "alice", "p@ss", "a@x.com");
    assert_eq!(registered.status, Status::Success);
    assert!(registered.set_cookies.is_empty());
    let response = run_login(&mut store, "alice", "p@ss");
    assert_eq!(response.status, Status::Success);
    assert_eq!(response.set_cookies.len(), 3);
    for line in &response.set_cookies {
        assert!(line.ends_with("; HttpOnly; SameSite=Strict; Secure"));
    }
    assert!(response.set_cookies[0].starts_with("token="));
    assert!(response.set_cookies[1].starts_with("refresh_token="));
    assert!(response.set_cookies[2].starts_with("session="));
    assert_eq!(store.sessions.len(), 1);
    assert_eq!(response.set_cookies[2], format!("session={}{}", store.sessions[0].0, FLAGS));
}

#[test]
fn registration_stores_a_hash_and_two_secrets() {
    let mut store = Store::new();
    run_register(&mut store, "alice", "p@ss", "a@x.com");
    assert_eq!(store.users.len(), 1);
    let (id, name, hash, email) = store.users[0].clone();
    assert_eq!((id, name.as_str(), email.as_str()), (1, "alice", "a@x.com"));
    assert_ne!(hash, "p@ss");
    assert!(hash.starts_with("$argon2id$"));
    assert!(verify_password("p@ss", &hash));
    assert_eq!(store.access_keys.len(), 1);
    assert_eq!(store.refresh_keys.len(), 1);
    assert_eq!(store.access_keys[0].1.len(), 86);
    assert_eq!(store.refresh_keys[0].1.len(), 86);
    assert_ne!(store.access_keys[0].1, store.refresh_keys[0].1);
    assert_eq!(
        store.asked,
        ["UsernameExists", "StoreUser", "UserByName", "StoreAccessKey", "StoreRefreshKey"]
    );
}

#[test]
fn taken_name_is_a_conflict() {
    let mut store = Store::new();
    run_register(&mut store, "alice", "p@ss", "a@x.com");
    let again = run_register(&mut store, "alice", "other", "b@x.com");
    assert_eq!(again.status, Status::Conflict);
    assert!(matches!(&again.body, Body::Json(t) if t == "{\"message\":\"Username already exists.\"}"));
    assert_eq!(store.users.len(), 1);
    assert!(verify_password("p@ss", &store.users[0].2));
}

#[test]
fn registration_fails_where_the_store_fails() {
    let start = || {
        register(RegisterUserInfo {
            username: "a".into(),
            password: "p".into(),
            email: "e".into(),
        })
    };
    let state = match start() {
        RegisterStep::Ask(DbRequest::UsernameExists { username }, state) => {
            assert_eq!(username, "a");
            state
        },
        other => panic!("unexpected step {:?}", other),
    };
    match register_resume(state, &DbReply::Unavailable) {
        RegisterStep::Respond(r) => assert_eq!(r.status, Status::InternalServerError),
        other => panic!("unexpected step {:?}", other),
    }
    let lost_race = register_resume(
        RegisterState::StoringUser { username: "a".into() },
        &DbReply::Conflict,
    );
    assert!(matches!(lost_race, RegisterStep::Respond(r) if r.status == Status::Conflict));
    let broken = register_resume(
        RegisterState::StoringUser { username: "a".into() },
        &DbReply::Unavailable,
    );
    assert!(matches!(broken, RegisterStep::Respond(r) if r.status == Status::InternalServerError));
    let gone = register_resume(RegisterState::LoadingUser { username: "a".into() }, &DbReply::NoRow);
    assert!(matches!(gone, RegisterStep::Respond(r) if r.status == Status::InternalServerError));
}

#[test]
fn provisioned_keys_are_not_overwritten() {
    let mut store = Store::new();
    run_register(&mut store, "alice", "p@ss", "a@x.com");
    let kept = (store.access_keys.clone(), store.refresh_keys.clone());
    let state = RegisterState::LoadingUser { username: "alice".into() };
    let reply = store.answer(&DbRequest::UserByName { username: "alice".into() });
    let mut step = register_resume(state, &reply);
    let response = loop {
        match step {
            RegisterStep::Ask(request, state) => {
                let reply = store.answer(&request);
                step = register_resume(state, &reply);
            },
            RegisterStep::Respond(response) => break response,
        }
    };
    assert_eq!(response.status, Status::InternalServerError);
    assert_eq!((store.access_keys.clone(), store.refresh_keys.clone()), kept);
    let refused = register_resume(RegisterState::StoringRefreshKey, &DbReply::Conflict);
    assert!(matches!(refused, RegisterStep::Respond(r) if r.status == Status::InternalServerError));
    let stored = register_resume(RegisterState::StoringRefreshKey, &DbReply::Done(1));
    assert!(matches!(stored, RegisterStep::Respond(r) if r.status == Status::Success));
}

#[test]
fn equal_or_short_secrets_are_not_stored() {
    let user_row = DbReply::Row(vec![
        SqlValue::Int(1),
        SqlValue::Text("h".into()),
        SqlValue::Text("e".into()),
    ]);
    let key = "k".repeat(86);
    let step = register_resume_with(
        RegisterState::LoadingUser { username: "a".into() },
        &user_row,
        "",
        key.clone(),
        key.clone(),
    );
    assert!(matches!(step, RegisterStep::Respond(r) if r.status == Status::InternalServerError));
    let step = register_resume_with(
        RegisterState::LoadingUser { username: "a".into() },
        &user_row,
        "",
        key.clone(),
        "r".repeat(85),
    );
    assert!(matches!(step, RegisterStep::Respond(r) if r.status == Status::InternalServerError));
    let step = register_resume_with(
        RegisterState::LoadingUser { username: "a".into() },
        &user_row,
        "",
        key.clone(),
        "r".repeat(86),
    );
    match step {
        RegisterStep::Ask(
            DbRequest::StoreAccessKey { user_id, secret_key },
            RegisterState::StoringAccessKey { user_id: owner, secret_refresh_key },
        ) => {
            assert_eq!((user_id, owner), (1, 1));
            assert_eq!(secret_key, key);
            assert_eq!(secret_refresh_key, "r".repeat(86));
        },
        other => panic!("unexpected step {:?}", other),
    }
}

#[test]
fn user_is_created_with_the_hash_of_the_password() {
    match create_user_with_salt("bob", "pw", "b@x.com", "saltsalt") {
        RegisterStep::Ask(
            DbRequest::StoreUser { username, password_hash, email },
            RegisterState::StoringUser { username: kept },
        ) => {
            assert_eq!((username.as_str(), email.as_str(), kept.as_str()), ("bob", "b@x.com", "bob"));
            assert_eq!(password_hash, hash_password_with_salt("pw", "saltsalt").unwrap());
        },
        other => panic!("unexpected step {:?}", other),
    }
    let unsalted = create_user_with_salt("bob", "pw", "b@x.com", "short");
    assert!(matches!(unsalted, RegisterStep::Respond(r) if r.status == Status::InternalServerError));
    match create_user("Zenek", "Super", "lol@kekw.com") {
        RegisterStep::Ask(DbRequest::StoreUser { password_hash, .. }, _) => {
            assert!(verify_password("Super", &password_hash));
        },
        other => panic!("unexpected step {:?}", other),
    }
}

#[test]
fn wrong_password_and_unknown_name_are_answered_alike() {
    let mut store = Store::new();
    run_register(&mut store, "alice", "p@ss", "a@x.com");
    let wrong = run_login(&mut store, "alice", "wrong");
    let unknown = run_login(&mut store, "nobody", "p@ss");
    assert_eq!(wrong.status, Status::Unauthorized);
    assert_eq!(text_of(&wrong.body), Some("Invalid username or password"));
    assert!(wrong.set_cookies.is_empty());
    assert!(same_response(&wrong, &unknown));
    assert!(store.sessions.is_empty());
}

#[test]
fn login_asks_the_store_in_order() {
    let mut store = Store::new();
    run_register(&mut store, "alice", "p@ss", "a@x.com");
    store.asked.clear();
    let response = run_login_at(&mut store, "alice", "p@ss", 1000, "sess-1");
    assert_eq!(response.status, Status::Success);
    assert_eq!(
        store.asked,
        ["UserByName", "StoreSession", "AccessKey", "RefreshKey", "LatestSession"]
    );
    let user = UserInfo {
        user_id: 1,
        username: "alice".into(),
        password: String::new(),
        email: String::new(),
    };
    let access = create_access_token_at(&user, &store.access_keys[0].1, 1000).unwrap();
    let refresh = create_refresh_token_at(&user, "sess-1", &store.refresh_keys[0].1, 1000).unwrap();
    assert_eq!(
        response.set_cookies,
        [
            format!("token={}{}", access, FLAGS),
            format!("refresh_token={}{}", refresh, FLAGS),
            format!("session=sess-1{}", FLAGS),
        ]
    );
}

#[test]
fn login_fails_where_the_store_fails() {
    let user = || UserInfo { user_id: 1, username: "a".into(), password: "h".into(), email: "e".into() };
    let states = vec![
        LoginState::StoringSession { user: user(), session_uuid: "s".into() },
        LoginState::LoadingAccessKey { user: user(), session_uuid: "s".into() },
        LoginState::LoadingRefreshKey {
            user: user(),
            session_uuid: "s".into(),
            secret_key: "k".into(),
        },
        LoginState::LoadingSession {
            user: user(),
            session_uuid: "s".into(),
            secret_key: "k".into(),
            secret_refresh_key: "r".into(),
        },
    ];
    for state in states {
        match login_resume(state, &DbReply::Unavailable) {
            LoginStep::Respond(r) => {
                assert_eq!(r.status, Status::InternalServerError);
                assert!(r.set_cookies.is_empty());
            },
            other => panic!("unexpected step {:?}", other),
        }
    }
    let no_key = login_resume(
        LoginState::LoadingAccessKey { user: user(), session_uuid: "s".into() },
        &DbReply::NoRow,
    );
    assert!(matches!(no_key, LoginStep::Respond(r) if r.status == Status::InternalServerError));
    let late = login_resume_with(
        LoginState::LoadingSession {
            user: user(),
            session_uuid: "s".into(),
            secret_key: "k".into(),
            secret_refresh_key: "r".into(),
        },
        &DbReply::Row(vec![SqlValue::Text("s".into())]),
        i64::MAX,
        String::new(),
    );
    assert!(matches!(late, LoginStep::Respond(r) if r.status == Status::InternalServerError));
    let down = login_resume(
        LoginState::FindingUser { user_data: User { username: "a".into(), password: "p".into() } },
        &DbReply::Unavailable,
    );
    assert!(matches!(down, LoginStep::Respond(r) if r.status == Status::Unauthorized));
}

#[test]
fn password_check_opens_the_session() {
    let stored = || UserInfo {
        user_id: 5,
        username: "a".into(),
        password: hash_password_with_salt("pw", "saltsalt").unwrap(),
        email: "e".into(),
    };
    let right = User { username: "a".into(), password: "pw".into() };
    match proceed_with_login_in(&right, stored(), "sess-7".into()) {
        LoginStep::Ask(
            DbRequest::StoreSession { user_id, session_uuid },
            LoginState::StoringSession { user, session_uuid: kept },
        ) => {
            assert_eq!((user_id, user.user_id), (5, 5));
            assert_eq!((session_uuid.as_str(), kept.as_str()), ("sess-7", "sess-7"));
        },
        other => panic!("unexpected step {:?}", other),
    }
    match proceed_with_login(&right, stored()) {
        LoginStep::Ask(DbRequest::StoreSession { session_uuid, .. }, _) => {
            assert_eq!(session_uuid.len(), 36)
        },
        other => panic!("unexpected step {:?}", other),
    }
    let wrong = User { username: "a".into(), password: "pW".into() };
    assert!(matches!(
        proceed_with_login(&wrong, stored()),
        LoginStep::Respond(r) if r.status == Status::Unauthorized
    ));
}

#[test]
fn refresh_gives_new_tokens_that_are_valid() {
    let mut store = Store::new();
    run_register(&mut store, "alice", "p@ss", "a@x.com");
    let first = run_login_at(&mut store, "alice", "p@ss", 1000, "sess-1");
    let cookies = client_cookies(&first);
    store.asked.clear();
    let second = run_refresh_at(&mut store, &cookies, 2000);
    assert_eq!(second.status, Status::Success);
    assert_eq!(second.set_cookies.len(), 2);
    assert_eq!(
        store.asked,
        [
            "SessionOwner",
            "UserIdExists",
            "UserById",
            "RefreshKey",
            "AccessKey",
            "LatestSession",
            "SessionOwner"
        ]
    );
    let renewed = client_cookies(&second);
    assert_ne!(value_of(&renewed, "token"), value_of(&cookies, "token"));
    assert_ne!(value_of(&renewed, "refresh_token"), value_of(&cookies, "refresh_token"));
    for line in &second.set_cookies {
        assert!(line.ends_with(FLAGS));
    }
    let access_key = store.access_keys[0].1.clone();
    let refresh_key = store.refresh_keys[0].1.clone();
    let claims = validate_token_at(value_of(&renewed, "token"), &access_key, 2000).unwrap();
    assert_eq!((claims.username.as_str(), claims.exp), ("alice", 5600));
    assert_eq!(
        validate_refresh_token_at(value_of(&renewed, "refresh_token"), &refresh_key, 2000),
        Ok(true)
    );
    assert_eq!(
        validate_refresh_token_at(value_of(&renewed, "refresh_token"), &refresh_key, 88400),
        Ok(false)
    );
}

#[test]
fn refresh_after_logout_is_rejected_though_the_token_is_good() {
    let mut store = Store::new();
    run_register(&mut store, "alice", "p@ss", "a@x.com");
    let cookies = client_cookies(&run_login_at(&mut store, "alice", "p@ss", 1000, "sess-1"));
    let out = run_logout_at(&mut store, &cookies, 1500);
    assert_eq!(out.status, Status::Success);
    assert_eq!(text_of(&out.body), Some("logout sucessfull"));
    assert!(store.sessions.is_empty());
    let refresh_key = store.refresh_keys[0].1.clone();
    assert_eq!(
        validate_refresh_token_at(value_of(&cookies, "refresh_token"), &refresh_key, 2000),
        Ok(true)
    );
    let response = run_refresh_at(&mut store, &cookies, 2000);
    assert_eq!(response.status, Status::Unauthorized);
    assert!(response.set_cookies.is_empty());
    assert!(matches!(response.body, Body::Empty));
}

#[test]
fn access_token_outlives_the_logout() {
    let mut store = Store::new();
    run_register(&mut store, "alice", "p@ss", "a@x.com");
    let cookies = client_cookies(&run_login_at(&mut store, "alice", "p@ss", 1000, "sess-1"));
    run_logout_at(&mut store, &cookies, 1500);
    let access_key = store.access_keys[0].1.clone();
    assert!(validate_token_at(value_of(&cookies, "token"), &access_key, 2000).is_ok());
    assert_eq!(
        validate_token_at(value_of(&cookies, "token"), &access_key, 4601).unwrap_err(),
        TokenError::Expired
    );
}

#[test]
fn session_revoked_in_mid_refresh_fails_the_refresh() {
    let mut store = Store::new();
    run_register(&mut store, "alice", "p@ss", "a@x.com");
    let cookies = client_cookies(&run_login_at(&mut store, "alice", "p@ss", 1000, "sess-1"));
    run_login_at(&mut store, "alice", "p@ss", 1100, "sess-2");
    let mut step = refresh_token(&cookies);
    let mut asked = 0;
    let response = loop {
        match step {
            RefreshStep::Ask(request, state) => {
                asked += 1;
                if asked == 4 {
                    store.answer(&DbRequest::DropSession { session_uuid: "sess-1".into() });
                }
                let reply = store.answer(&request);
                step = refresh_resume_at(state, &reply, 2000);
            },
            RefreshStep::Respond(response) => break response,
        }
    };
    assert_eq!(asked, 7);
    assert_eq!(response.status, Status::Unauthorized);
    assert!(response.set_cookies.is_empty());
}

#[test]
fn refresh_without_cookies_is_turned_away_like_any_other() {
    let mut store = Store::new();
    run_register(&mut store, "alice", "p@ss", "a@x.com");
    let cookies = client_cookies(&run_login_at(&mut store, "alice", "p@ss", 1000, "sess-1"));
    let expired = run_refresh_at(&mut store, &cookies, 87400);
    let unknown: Vec<RequestCookie> = cookies
        .iter()
        .map(|c| RequestCookie {
            name: c.name.clone(),
            value: if c.name == "session" { "no-such-session".into() } else { c.value.clone() },
        })
        .collect();
    let unknown_session = run_refresh_at(&mut store, &unknown, 2000);
    assert_eq!(expired.status, Status::Unauthorized);
    assert!(matches!(expired.body, Body::Empty) && expired.set_cookies.is_empty());
    assert!(same_response(&unknown_session, &expired));
    let only_token = vec![RequestCookie { name: "refresh_token".into(), value: "t".into() }];
    let only_session = vec![RequestCookie { name: "session".into(), value: "s".into() }];
    for cookies in [Vec::new(), only_token, only_session] {
        match refresh_token(&cookies) {
            RefreshStep::Respond(r) => assert!(same_response(&r, &expired)),
            other => panic!("unexpected step {:?}", other),
        }
    }
}

#[test]
fn refresh_token_of_a_revoked_session_is_refused_under_another_sessions_cookie() {
    let mut store = Store::new();
    run_register(&mut store, "alice", "p@ss", "a@x.com");
    let first = client_cookies(&run_login_at(&mut store, "alice", "p@ss", 1000, "sess-1"));
    let second = client_cookies(&run_login_at(&mut store, "alice", "p@ss", 1100, "sess-2"));
    // the token names sess-1, the cookie names sess-2
    let mixed = vec![
        RequestCookie {
            name: "refresh_token".into(),
            value: value_of(&first, "refresh_token").to_string(),
        },
        RequestCookie { name: "session".into(), value: value_of(&second, "session").to_string() },
    ];
    let while_alive = run_refresh_at(&mut store, &mixed, 2000);
    assert_eq!(while_alive.status, Status::Success);
    store.answer(&DbRequest::DropSession { session_uuid: "sess-1".into() });
    store.asked.clear();
    let after = run_refresh_at(&mut store, &mixed, 2000);
    assert_eq!(after.status, Status::Unauthorized);
    assert!(after.set_cookies.is_empty());
    assert_eq!(store.asked.len(), 7);
    // the second session's own token still refreshes
    assert_eq!(run_refresh_at(&mut store, &second, 2000).status, Status::Success);
}

#[test]
fn refresh_token_of_another_users_session_is_refused() {
    let mut store = Store::new();
    run_register(&mut store, "alice", "p@ss", "a@x.com");
    run_register(&mut store, "bob", "p@ss", "b@x.com");
    let alice = client_cookies(&run_login_at(&mut store, "alice", "p@ss", 1000, "sess-a"));
    let bob = client_cookies(&run_login_at(&mut store, "bob", "p@ss", 1000, "sess-b"));
    let mixed = vec![
        RequestCookie {
            name: "refresh_token".into(),
            value: value_of(&alice, "refresh_token").to_string(),
        },
        RequestCookie { name: "session".into(), value: value_of(&bob, "session").to_string() },
    ];
    assert_eq!(run_refresh_at(&mut store, &mixed, 2000).status, Status::Unauthorized);
}

#[test]
fn refresh_with_a_bad_token_is_unauthorized() {
    let mut store = Store::new();
    run_register(&mut store, "alice", "p@ss", "a@x.com");
    let mut cookies = client_cookies(&run_login_at(&mut store, "alice", "p@ss", 1000, "sess-1"));
    let expired = run_refresh_at(&mut store, &cookies, 87400);
    assert_eq!(expired.status, Status::Unauthorized);
    for c in cookies.iter_mut() {
        if c.name == "refresh_token" {
            c.value.push('x');
        }
    }
    let forged = run_refresh_at(&mut store, &cookies, 2000);
    assert!(same_response(&forged, &expired));
    let access_as_refresh: Vec<RequestCookie> = client_cookies(&run_login_at(
        &mut store, "alice", "p@ss", 1000, "sess-3",
    ))
    .into_iter()
    .filter(|c| c.name != "refresh_token")
    .map(|c| RequestCookie {
        name: if c.name == "token" { "refresh_token".into() } else { c.name },
        value: c.value,
    })
    .collect();
    let swapped = run_refresh_at(&mut store, &access_as_refresh, 2000);
    assert!(same_response(&swapped, &expired));
}

#[test]
fn refresh_steps_turn_away_on_every_failure() {
    let user = || UserInfo { user_id: 1, username: "a".into(), password: "h".into(), email: "e".into() };
    let states = || {
        vec![
            RefreshState::FindingOwner { token: "t".into() },
            RefreshState::CheckingUser { token: "t".into(), user_id: 1 },
            RefreshState::LoadingUser { token: "t".into(), user_id: 1 },
            RefreshState::LoadingRefreshKey { token: "t".into(), user: user() },
            RefreshState::LoadingAccessKey {
                token_session: "s".into(),
                user: user(),
                secret_refresh_key: "r".into(),
            },
            RefreshState::LoadingSession {
                token_session: "s".into(),
                user: user(),
                secret_refresh_key: "r".into(),
                secret_key: "k".into(),
            },
            RefreshState::ConfirmingSession {
                token_session: "s".into(),
                user: user(),
                secret_refresh_key: "r".into(),
                secret_key: "k".into(),
                current_session: "s".into(),
            },
        ]
    };
    for reply in [DbReply::NoRow, DbReply::Unavailable, DbReply::Conflict, DbReply::Done(1)] {
        for state in states() {
            match refresh_resume(state, &reply) {
                RefreshStep::Respond(r) => {
                    assert_eq!(r.status, Status::Unauthorized);
                    assert!(r.set_cookies.is_empty());
                },
                other => panic!("unexpected step {:?}", other),
            }
        }
    }
    let other_owner = refresh_resume_at(
        RefreshState::ConfirmingSession {
            token_session: "s".into(),
            user: user(),
            secret_refresh_key: "r".into(),
            secret_key: "k".into(),
            current_session: "s".into(),
        },
        &DbReply::Row(vec![SqlValue::Int(2)]),
        0,
    );
    assert!(matches!(other_owner, RefreshStep::Respond(r) if r.status == Status::Unauthorized));
    let no_user = refresh_resume_at(
        RefreshState::CheckingUser { token: "t".into(), user_id: 1 },
        &DbReply::Row(vec![SqlValue::Int(0)]),
        0,
    );
    assert!(matches!(no_user, RefreshStep::Respond(r) if r.status == Status::Unauthorized));
    let too_late = refresh_resume_at(
        RefreshState::ConfirmingSession {
            token_session: "s".into(),
            user: user(),
            secret_refresh_key: "r".into(),
            secret_key: "k".into(),
            current_session: "s".into(),
        },
        &DbReply::Row(vec![SqlValue::Int(1)]),
        i64::MAX,
    );
    assert!(matches!(
        too_late,
        RefreshStep::Respond(r) if r.status == Status::Unauthorized && r.set_cookies.is_empty()
    ));
}

#[test]
fn guard_lets_a_valid_token_through() {
    let mut store = Store::new();
    run_register(&mut store, "alice", "p@ss", "a@x.com");
    let cookies = client_cookies(&run_login_at(&mut store, "alice", "p@ss", 1000, "sess-1"));
    store.asked.clear();
    match run_guard_at(&mut store, &cookies, 1001) {
        GuardStep::Authorized(claims) => {
            assert_eq!((claims.username.as_str(), claims.exp), ("alice", 4600))
        },
        other => panic!("unexpected step {:?}", other),
    }
    assert_eq!(store.asked, ["SessionOwner", "AccessKey"]);
}

#[test]
fn guard_turns_every_failure_away_as_unauthorized() {
    let mut store = Store::new();
    run_register(&mut store, "alice", "p@ss", "a@x.com");
    run_register(&mut store, "bob", "p@ss", "b@x.com");
    let alice = client_cookies(&run_login_at(&mut store, "alice", "p@ss", 1000, "sess-a"));
    let bob = client_cookies(&run_login_at(&mut store, "bob", "p@ss", 1000, "sess-b"));
    // the error is the same whatever failed; the check is named in the log alone
    let logged = |step: GuardStep| match step {
        GuardStep::Rejected(error, record) => {
            assert_eq!(error, AuthError::Unauthorized);
            assert_eq!(record.level, LogLevel::Warn);
            record.message
        },
        other => panic!("unexpected step {:?}", other),
    };
    assert_eq!(logged(run_guard_at(&mut store, &alice, 4601)), "Token has expired");
    assert_eq!(logged(run_guard_at(&mut store, &Vec::new(), 0)), "Value in cookie not found");
    let no_session: Vec<RequestCookie> =
        client_cookies(&run_login_at(&mut store, "alice", "p@ss", 1000, "sess-c"))
            .into_iter()
            .filter(|c| c.name != "session")
            .collect();
    assert_eq!(logged(run_guard_at(&mut store, &no_session, 0)), "Value in cookie not found");
    // alice's token presented with bob's session is checked under bob's key
    let mixed = vec![
        RequestCookie { name: "token".into(), value: value_of(&alice, "token").to_string() },
        RequestCookie { name: "session".into(), value: value_of(&bob, "session").to_string() },
    ];
    assert_eq!(
        logged(run_guard_at(&mut store, &mixed, 1001)),
        "Token is malformed or not signed with the user's key"
    );
    let stale = vec![
        RequestCookie { name: "token".into(), value: value_of(&alice, "token").to_string() },
        RequestCookie { name: "session".into(), value: "no-such-session".into() },
    ];
    assert_eq!(logged(run_guard_at(&mut store, &stale, 1001)), "Session was not found");
    assert_eq!(
        logged(resume_validation(GuardState::LoadingKey { token: "t".into() }, &DbReply::NoRow)),
        "No signing key is stored for the user"
    );
    assert_eq!(
        logged(resume_validation(
            GuardState::FindingOwner { token: "t".into() },
            &DbReply::Unavailable
        )),
        "Cannot reach the database"
    );
    assert_eq!(
        logged(proceed_with_validation("t".into(), &Vec::new())),
        "Value in cookie not found"
    );
}

#[test]
fn logout_hands_the_reason_to_the_log_only() {
    let mut store = Store::new();
    run_register(&mut store, "alice", "p@ss", "a@x.com");
    let cookies = client_cookies(&run_login_at(&mut store, "alice", "p@ss", 1000, "sess-1"));
    let mut step = logout(&cookies);
    let (response, record) = loop {
        match step {
            LogoutStep::Ask(request, state) => {
                let reply = store.answer(&request);
                step = logout_resume_at(state, &reply, 4601);
            },
            LogoutStep::Reject(response, record) => break (response, record),
            other => panic!("unexpected step {:?}", other),
        }
    };
    assert_eq!(record.message, "Token has expired");
    match logout(&Vec::new()) {
        LogoutStep::Reject(other, record) => {
            assert_eq!(record.message, "Value in cookie not found");
            assert!(same_response(&other, &response));
        },
        other => panic!("unexpected step {:?}", other),
    }
}

#[test]
fn logout_needs_a_valid_access_token() {
    let mut store = Store::new();
    run_register(&mut store, "alice", "p@ss", "a@x.com");
    let cookies = client_cookies(&run_login_at(&mut store, "alice", "p@ss", 1000, "sess-1"));
    let late = run_logout_at(&mut store, &cookies, 4601);
    assert_eq!(late.status, Status::Unauthorized);
    assert_eq!(text_of(&late.body), Some("You are not authorized to make this request"));
    assert_eq!(store.sessions.len(), 1);
    let none = run_logout_at(&mut store, &Vec::new(), 1000);
    assert!(same_response(&none, &late));
    let only_token: Vec<RequestCookie> =
        cookies.iter().filter(|c| c.name == "token").map(|c| RequestCookie {
            name: c.name.clone(),
            value: c.value.clone(),
        }).collect();
    assert!(same_response(&run_logout_at(&mut store, &only_token, 1000), &late));
    assert_eq!(store.sessions.len(), 1);
}

#[test]
fn logout_succeeds_whether_or_not_a_row_was_left() {
    let gone = logout_resume(LogoutState::Dropping, &DbReply::Done(0));
    let removed = logout_resume(LogoutState::Dropping, &DbReply::Done(1));
    match (gone, removed) {
        (LogoutStep::Respond(a), LogoutStep::Respond(b)) => {
            assert_eq!(a.status, Status::Success);
            assert!(same_response(&a, &b));
        },
        other => panic!("unexpected steps {:?}", other),
    }
    let broken = logout_resume(LogoutState::Dropping, &DbReply::Unavailable);
    assert!(matches!(broken, LogoutStep::Respond(r) if r.status == Status::InternalServerError));
}

#[test]
fn access_token_is_expired_once_the_clock_is_past_the_hour() {
    let user = UserInfo { user_id: 1, username: "alice".into(), password: "h".into(), email: "e".into() };
    let issued_at = 1_700_000_000;
    let token = create_access_token_at(&user, "key", issued_at).unwrap();
    assert!(validate_token_at(&token, "key", issued_at + 3600).is_ok());
    assert_eq!(
        validate_token_at(&token, "key", issued_at + 3601).unwrap_err(),
        TokenError::Expired
    );
}

#[test]
fn responses_are_built_as_asked() {
    let r = Response::bare(Status::BadRequest);
    assert!(r.status == Status::BadRequest && matches!(r.body, Body::Empty) && r.set_cookies.is_empty());
    let r = Response::with_text(Status::Unauthorized, "no");
    assert!(matches!(&r.body, Body::Text(t) if t == "no") && r.set_cookies.is_empty());
    let r = Response::with_json(Status::Conflict, "{}");
    assert!(matches!(&r.body, Body::Json(t) if t == "{}"));
    let r = Response::with_two_cookies("a".into(), "b".into());
    assert_eq!((r.status, r.set_cookies), (Status::Success, vec!["a".to_string(), "b".to_string()]));
    let r = Response::with_three_cookies("a".into(), "b".into(), "c".into());
    assert_eq!(r.set_cookies, ["a", "b", "c"]);
}

#[test]
fn session_of_an_unknown_user_is_refused() {
    let mut store = Store::new();
    run_register(&mut store, "alice", "p@ss", "a@x.com");
    let ghost = UserInfo { user_id: 99, username: "x".into(), password: "h".into(), email: "e".into() };
    let (session_uuid, request) = create_session(&ghost);
    let reply = store.answer(&request);
    assert!(session_created(&reply).is_err());
    assert!(store.sessions.is_empty());
    let step = login_resume(LoginState::StoringSession { user: ghost, session_uuid }, &reply);
    assert!(matches!(
        step,
        LoginStep::Respond(r) if r.status == Status::InternalServerError && r.set_cookies.is_empty()
    ));
    let known = UserInfo { user_id: 1, username: "alice".into(), password: "h".into(), email: "e".into() };
    let (_, request) = create_session(&known);
    assert!(session_created(&store.answer(&request)).is_ok());
    assert_eq!(store.sessions.len(), 1);
}
