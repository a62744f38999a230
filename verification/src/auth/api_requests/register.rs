//! Registration: store a credential under a new user name and provision
//! the user's signing secrets.
//!
//! The password is hashed before anything is stored. The credential and
//! the secrets are written one after the other, not in one transaction: a
//! failure between the writes leaves a credential without usable secrets,
//! and the later writes refuse to overwrite what is there.
use crate::auth::api_requests::response::{bare, with_json, Response, ResponseView, Status};
use crate::auth::errors::AuthError;
use crate::auth::token::constants::{REFRESH_KEY_LENGTH, SECRET_KEY_LENGTH};
use crate::auth::token::keys::{
    acceptable_secrets, is_drawn_secret, pair_of_draws, provision_keys, SigningKeyPair,
};
use crate::auth::user::{RegisterUserInfo, RegisterUserInfoView};
use crate::auth::utils::password::{
    fresh_salt, hash_password_with_salt, hashable, is_salt, password_hash,
};
use crate::db::{
    exists_answer, read_exists, read_user, read_written, user_answer, write_answer, DbReply,
    DbReplyView, DbRequest, DbRequestView,
};
use crate::utils::random::all_alphanumeric;
use vstd::prelude::*;
use vstd::string::StringExecFns;

verus! {

/// Where a registration stands while it waits for the store.
#[derive(Debug)]
pub enum RegisterState {
    /// Asked whether the user name is taken.
    CheckingName { user_data: RegisterUserInfo },
    /// Asked to store the credential.
    StoringUser { username: String },
    /// Asked for the id under which the credential was stored.
    LoadingUser { username: String },
    /// Asked to store the access secret; the refresh secret comes next.
    StoringAccessKey { user_id: i64, secret_refresh_key: String },
    /// Asked to store the refresh secret.
    StoringRefreshKey,
}

/// What a registration does next.
#[derive(Debug)]
pub enum RegisterStep {
    /// Put this question to the store and come back with the reply.
    Ask(DbRequest, RegisterState),
    /// Send this response; the flow is over.
    Respond(Response),
}

/// Mathematical value of a [`RegisterState`].
pub enum RegisterStateView {
    CheckingName { user_data: RegisterUserInfoView },
    StoringUser { username: Seq<char> },
    LoadingUser { username: Seq<char> },
    StoringAccessKey { user_id: i64, secret_refresh_key: Seq<char> },
    StoringRefreshKey,
}

/// Mathematical value of a [`RegisterStep`].
pub enum RegisterStepView {
    Ask(DbRequestView, RegisterStateView),
    Respond(ResponseView),
}

impl View for RegisterState {
    type V = RegisterStateView;

    open spec fn view(&self) -> RegisterStateView {
        match self {
            RegisterState::CheckingName { user_data } => RegisterStateView::CheckingName {
                user_data: user_data@,
            },
            RegisterState::StoringUser { username } => RegisterStateView::StoringUser {
                username: username@,
            },
            RegisterState::LoadingUser { username } => RegisterStateView::LoadingUser {
                username: username@,
            },
            RegisterState::StoringAccessKey {
                user_id,
                secret_refresh_key,
            } => RegisterStateView::StoringAccessKey {
                user_id: *user_id,
                secret_refresh_key: secret_refresh_key@,
            },
            RegisterState::StoringRefreshKey => RegisterStateView::StoringRefreshKey,
        }
    }
}

impl View for RegisterStep {
    type V = RegisterStepView;

    open spec fn view(&self) -> RegisterStepView {
        match self {
            RegisterStep::Ask(request, state) => RegisterStepView::Ask(request@, state@),
            RegisterStep::Respond(response) => RegisterStepView::Respond(response@),
        }
    }
}

/// The response to a registration under a name that is taken.
pub open spec fn name_taken() -> ResponseView {
    with_json(Status::Conflict, "{\"message\":\"Username already exists.\"}"@)
}

/// The response to a registration that failed inside the service.
pub open spec fn registration_failed() -> ResponseView {
    bare(Status::InternalServerError)
}

/// A registration's first step: ask whether the name is taken.
pub open spec fn register_start(user_data: RegisterUserInfoView) -> RegisterStepView {
    RegisterStepView::Ask(
        DbRequestView::UsernameExists { username: user_data.username },
        RegisterStateView::CheckingName { user_data },
    )
}

/// The creation of a user: hash the password under `salt` and ask to store
/// the credential with the hash in place of the password. A password that
/// cannot be hashed ends the registration.
pub open spec fn user_creation(
    username: Seq<char>,
    password: Seq<char>,
    email: Seq<char>,
    salt: Seq<char>,
) -> RegisterStepView {
    if hashable(password, salt) {
        RegisterStepView::Ask(
            DbRequestView::StoreUser {
                username,
                password_hash: password_hash(password, salt),
                email,
            },
            RegisterStateView::StoringUser { username },
        )
    } else {
        RegisterStepView::Respond(registration_failed())
    }
}

/// A registration's step from `state` on `reply`. `salt` is used where the
/// password is hashed, and the two secrets where the keys are provisioned.
pub open spec fn register_next(
    state: RegisterStateView,
    reply: DbReplyView,
    salt: Seq<char>,
    access_secret: Seq<char>,
    refresh_secret: Seq<char>,
) -> RegisterStepView {
    match state {
        RegisterStateView::CheckingName { user_data } => match exists_answer(reply) {
            Ok(true) => RegisterStepView::Respond(name_taken()),
            Ok(false) => user_creation(
                user_data.username,
                user_data.password,
                user_data.email,
                salt,
            ),
            Err(_) => RegisterStepView::Respond(registration_failed()),
        },
        RegisterStateView::StoringUser { username } => match write_answer(
            reply,
            AuthError::InvalidCredentials,
        ) {
            Ok(_) => RegisterStepView::Ask(
                DbRequestView::UserByName { username },
                RegisterStateView::LoadingUser { username },
            ),
            Err(AuthError::InvalidCredentials) => RegisterStepView::Respond(name_taken()),
            Err(_) => RegisterStepView::Respond(registration_failed()),
        },
        RegisterStateView::LoadingUser { username } => match user_answer(username, reply) {
            Ok(user) => if acceptable_secrets(access_secret, refresh_secret) {
                RegisterStepView::Ask(
                    DbRequestView::StoreAccessKey { user_id: user.user_id, secret_key: access_secret },
                    RegisterStateView::StoringAccessKey {
                        user_id: user.user_id,
                        secret_refresh_key: refresh_secret,
                    },
                )
            } else {
                RegisterStepView::Respond(registration_failed())
            },
            Err(_) => RegisterStepView::Respond(registration_failed()),
        },
        RegisterStateView::StoringAccessKey { user_id, secret_refresh_key } => match write_answer(
            reply,
            AuthError::KeyAlreadyProvisioned,
        ) {
            Ok(_) => RegisterStepView::Ask(
                DbRequestView::StoreRefreshKey { user_id, secret_refresh_key },
                RegisterStateView::StoringRefreshKey,
            ),
            Err(_) => RegisterStepView::Respond(registration_failed()),
        },
        RegisterStateView::StoringRefreshKey => match write_answer(
            reply,
            AuthError::KeyAlreadyProvisioned,
        ) {
            Ok(_) => RegisterStepView::Respond(bare(Status::Success)),
            Err(_) => RegisterStepView::Respond(registration_failed()),
        },
    }
}

fn fail() -> (step: RegisterStep)
    ensures
        step@ == RegisterStepView::Respond(registration_failed()),
{
    RegisterStep::Respond(Response::bare(Status::InternalServerError))
}

fn taken() -> (step: RegisterStep)
    ensures
        step@ == RegisterStepView::Respond(name_taken()),
{
    RegisterStep::Respond(
        Response::with_json(Status::Conflict, "{\"message\":\"Username already exists.\"}"),
    )
}

/// Starts a registration.
pub fn register(user_data: RegisterUserInfo) -> (step: RegisterStep)
    ensures
        step@ == register_start(user_data@),
{
    let request = DbRequest::UsernameExists { username: user_data.username.clone() };
    RegisterStep::Ask(request, RegisterState::CheckingName { user_data })
}

/// Creates a user, hashing the password under the given salt.
pub fn create_user_with_salt(username: &str, password: &str, email: &str, salt: &str) -> (step:
    RegisterStep)
    ensures
        step@ == user_creation(username@, password@, email@, salt@),
{
    match hash_password_with_salt(password, salt) {
        Ok(password_hash) => RegisterStep::Ask(
            DbRequest::StoreUser {
                username: String::from_str(username),
                password_hash,
                email: String::from_str(email),
            },
            RegisterState::StoringUser { username: String::from_str(username) },
        ),
        Err(_) => fail(),
    }
}

/// Creates a user, hashing the password under a fresh salt.
pub fn create_user(username: &str, password: &str, email: &str) -> (step: RegisterStep)
    ensures
        exists|salt: Seq<char>|
            is_salt(salt) && step@ == #[trigger] user_creation(username@, password@, email@, salt),
{
    let salt = fresh_salt();
    create_user_with_salt(username, password, email, salt.as_str())
}

/// Resumes a registration from `state` with the store's `reply`.
pub fn register_resume_with(
    state: RegisterState,
    reply: &DbReply,
    salt: &str,
    access_secret: String,
    refresh_secret: String,
) -> (step: RegisterStep)
    ensures
        step@ == register_next(state@, reply@, salt@, access_secret@, refresh_secret@),
{
    match state {
        RegisterState::CheckingName { user_data } => match read_exists(reply) {
            Ok(true) => taken(),
            Ok(false) => create_user_with_salt(
                user_data.username.as_str(),
                user_data.password.as_str(),
                user_data.email.as_str(),
                salt,
            ),
            Err(_) => fail(),
        },
        RegisterState::StoringUser { username } => match read_written(
            reply,
            AuthError::InvalidCredentials,
        ) {
            Ok(_) => RegisterStep::Ask(
                DbRequest::UserByName { username: username.clone() },
                RegisterState::LoadingUser { username },
            ),
            Err(AuthError::InvalidCredentials) => taken(),
            Err(_) => fail(),
        },
        RegisterState::LoadingUser { username } => match read_user(username.as_str(), reply) {
            Ok(user) => match SigningKeyPair::new(user.user_id, access_secret, refresh_secret) {
                Some(pair) => RegisterStep::Ask(
                    DbRequest::StoreAccessKey {
                        user_id: pair.user_id,
                        secret_key: pair.access_secret,
                    },
                    RegisterState::StoringAccessKey {
                        user_id: pair.user_id,
                        secret_refresh_key: pair.refresh_secret,
                    },
                ),
                None => fail(),
            },
            Err(_) => fail(),
        },
        RegisterState::StoringAccessKey { user_id, secret_refresh_key } => match read_written(
            reply,
            AuthError::KeyAlreadyProvisioned,
        ) {
            Ok(_) => RegisterStep::Ask(
                DbRequest::StoreRefreshKey { user_id, secret_refresh_key },
                RegisterState::StoringRefreshKey,
            ),
            Err(_) => fail(),
        },
        RegisterState::StoringRefreshKey => match read_written(
            reply,
            AuthError::KeyAlreadyProvisioned,
        ) {
            Ok(_) => RegisterStep::Respond(Response::bare(Status::Success)),
            Err(_) => fail(),
        },
    }
}

/// What is known of the random inputs that [`register_resume`] drew for a
/// step from `state`.
pub open spec fn drawn_for(
    state: RegisterStateView,
    salt: Seq<char>,
    access_secret: Seq<char>,
    refresh_secret: Seq<char>,
) -> bool {
    &&& state is CheckingName ==> is_salt(salt)
    &&& state is LoadingUser ==> {
        &&& access_secret.len() == SECRET_KEY_LENGTH
        &&& refresh_secret.len() == REFRESH_KEY_LENGTH
        &&& all_alphanumeric(access_secret)
        &&& all_alphanumeric(refresh_secret)
    }
}

/// Resumes a registration from `state` with the store's `reply`, drawing a
/// fresh salt where the password is hashed and fresh secrets where the
/// keys are provisioned.
pub fn register_resume(state: RegisterState, reply: &DbReply) -> (step: RegisterStep)
    ensures
        exists|salt: Seq<char>, access_secret: Seq<char>, refresh_secret: Seq<char>| #[trigger]
            register_next(state@, reply@, salt, access_secret, refresh_secret) == step@
                && drawn_for(state@, salt, access_secret, refresh_secret),
{
    match state {
        RegisterState::CheckingName { .. } => {
            let salt = fresh_salt();
            let step = register_resume_with(state, reply, salt.as_str(), String::new(), String::new());
            assert(register_next(state@, reply@, salt@, Seq::<char>::empty(), Seq::<char>::empty())
                == step@);
            step
        },
        RegisterState::LoadingUser { username } => match read_user(username.as_str(), reply) {
            Ok(user) => match provision_keys(user.user_id) {
                Some(pair) => {
                    let ghost access = pair.access_secret@;
                    let ghost refresh = pair.refresh_secret@;
                    let step = register_resume_with(
                        RegisterState::LoadingUser { username },
                        reply,
                        "",
                        pair.access_secret,
                        pair.refresh_secret,
                    );
                    assert(register_next(state@, reply@, ""@, access, refresh) == step@);
                    step
                },
                None => {
                    let step = fail();
                    proof {
                        let (access, refresh) = choose|access: Seq<char>, refresh: Seq<char>|
                            is_drawn_secret(access, SECRET_KEY_LENGTH) && is_drawn_secret(
                                refresh,
                                REFRESH_KEY_LENGTH,
                            ) && #[trigger] pair_of_draws(user.user_id, access, refresh) is None;
                        assert(register_next(state@, reply@, ""@, access, refresh) == step@);
                    }
                    step
                },
            },
            Err(_) => {
                let step = fail();
                proof {
                    let drawn = Seq::new(SECRET_KEY_LENGTH as nat, |i: int| 'a');
                    assert(register_next(state@, reply@, ""@, drawn, drawn) == step@);
                }
                step
            },
        },
        _ => {
            let step = register_resume_with(state, reply, "", String::new(), String::new());
            assert(register_next(state@, reply@, ""@, Seq::<char>::empty(), Seq::<char>::empty())
                == step@);
            step
        },
    }
}

/// What a registration writes, and when. A credential is stored only after
/// the store has said that the name is free, and it carries the hash of the
/// password, not the password. Secrets are stored only for a credential
/// that the store has returned, and only as an acceptable pair: of full
/// length and different from each other.
pub proof fn lemma_register_writes(
    state: RegisterStateView,
    reply: DbReplyView,
    salt: Seq<char>,
    access_secret: Seq<char>,
    refresh_secret: Seq<char>,
)
    ensures
        register_next(state, reply, salt, access_secret, refresh_secret) matches RegisterStepView::Ask(
            DbRequestView::StoreUser { username, password_hash: stored, email },
            _,
        ) ==> (state matches RegisterStateView::CheckingName { user_data } && (exists_answer(reply)
            == Ok::<bool, AuthError>(false) && stored == password_hash(user_data.password, salt)
            && username == user_data.username && email == user_data.email)),
        register_next(state, reply, salt, access_secret, refresh_secret) matches RegisterStepView::Ask(
            DbRequestView::StoreAccessKey { user_id, secret_key },
            RegisterStateView::StoringAccessKey { user_id: owner, secret_refresh_key },
        ) ==> (state matches RegisterStateView::LoadingUser { username } && (user_answer(
            username,
            reply,
        ) matches Ok(user) && user.user_id == user_id && owner == user_id && acceptable_secrets(
            secret_key,
            secret_refresh_key,
        ))),
        register_next(state, reply, salt, access_secret, refresh_secret) matches RegisterStepView::Ask(
            DbRequestView::StoreRefreshKey { user_id, secret_refresh_key },
            _,
        ) ==> (state matches RegisterStateView::StoringAccessKey {
            user_id: owner,
            secret_refresh_key: kept,
        } && (owner == user_id && kept == secret_refresh_key && reply is Done)),
{
}

/// A secret that is already provisioned stays as it is: where the store
/// refuses a secret because the user has one, the registration fails and
/// writes nothing more.
pub proof fn lemma_keys_not_overwritten(
    user_id: i64,
    secret_refresh_key: Seq<char>,
    salt: Seq<char>,
    access_secret: Seq<char>,
    refresh_secret: Seq<char>,
)
    ensures
        write_answer(DbReplyView::Conflict, AuthError::KeyAlreadyProvisioned) == Err::<
            u64,
            AuthError,
        >(AuthError::KeyAlreadyProvisioned),
        register_next(
            RegisterStateView::StoringAccessKey { user_id, secret_refresh_key },
            DbReplyView::Conflict,
            salt,
            access_secret,
            refresh_secret,
        ) == RegisterStepView::Respond(registration_failed()),
        register_next(
            RegisterStateView::StoringRefreshKey,
            DbReplyView::Conflict,
            salt,
            access_secret,
            refresh_secret,
        ) == RegisterStepView::Respond(registration_failed()),
{
}

} // verus!
