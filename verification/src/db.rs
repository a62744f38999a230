//! The persistence interface.
//!
//! The engine never talks to a database. It names what it wants as a
//! [`DbRequest`], which [`statement_for`] turns into one parameterized SQL
//! statement, and it is handed back a [`DbReply`] that the readers of this
//! module interpret. User-supplied text only ever travels as a bound
//! parameter, never inside the SQL.
pub mod store;

use crate::auth::errors::AuthError;
use crate::auth::user::{UserInfo, UserInfoView};
use vstd::prelude::*;
use vstd::string::StringExecFns;

verus! {

/// Most connections the pool may hold open.
pub const MAX_DB_CONNECTIONS: u32 = 7;

/// A value bound to a statement or read from a row.
#[derive(Debug)]
pub enum SqlValue {
    Int(i64),
    Text(String),
}

/// The type of a column that a query returns.
#[derive(Debug, Clone, Copy, PartialEq, Eq, Structural)]
pub enum SqlType {
    Int,
    Text,
}

/// One SQL statement with `$1`, `$2`, ... standing for `params`. A
/// statement with `columns` is a query whose first row is wanted, with
/// these column types; one without is a write.
#[derive(Debug)]
pub struct Statement {
    pub sql: String,
    pub params: Vec<SqlValue>,
    pub columns: Vec<SqlType>,
}

/// What the store answered.
#[derive(Debug)]
pub enum DbReply {
    /// The first row of a query, column by column.
    Row(Vec<SqlValue>),
    /// The query ran and found no row.
    NoRow,
    /// The write ran; the number of rows it changed.
    Done(u64),
    /// A rule of the schema refused the write: a value that must be unique
    /// is there already, or a row refers to one that does not exist.
    Conflict,
    /// The store could not be reached, or failed in another way.
    Unavailable,
}

/// What the engine can ask of the store.
#[derive(Debug)]
pub enum DbRequest {
    /// Is there a user with this id?
    UserIdExists { user_id: i64 },
    /// Is there a user with this name?
    UsernameExists { username: String },
    /// The access secret of a user.
    AccessKey { user_id: i64 },
    /// The refresh secret of a user.
    RefreshKey { user_id: i64 },
    /// The credential stored under a user name.
    UserByName { username: String },
    /// The credential stored under a user id.
    UserById { user_id: i64 },
    /// Store the access secret of a user.
    StoreAccessKey { user_id: i64, secret_key: String },
    /// Store the refresh secret of a user.
    StoreRefreshKey { user_id: i64, secret_refresh_key: String },
    /// The most recently created session of a user.
    LatestSession { user_id: i64 },
    /// The user who owns a session.
    SessionOwner { session_uuid: String },
    /// Store a new session of a user.
    StoreSession { user_id: i64, session_uuid: String },
    /// Store a new credential.
    StoreUser { username: String, password_hash: String, email: String },
    /// Delete a session.
    DropSession { session_uuid: String },
}

/// Mathematical value of a [`SqlValue`].
pub enum SqlValueView {
    Int(i64),
    Text(Seq<char>),
}

/// Mathematical value of a [`Statement`].
pub struct StatementView {
    pub sql: Seq<char>,
    pub params: Seq<SqlValueView>,
    pub columns: Seq<SqlType>,
}

/// Mathematical value of a [`DbReply`].
pub enum DbReplyView {
    Row(Seq<SqlValueView>),
    NoRow,
    Done(u64),
    Conflict,
    Unavailable,
}

/// Mathematical value of a [`DbRequest`].
pub enum DbRequestView {
    UserIdExists { user_id: i64 },
    UsernameExists { username: Seq<char> },
    AccessKey { user_id: i64 },
    RefreshKey { user_id: i64 },
    UserByName { username: Seq<char> },
    UserById { user_id: i64 },
    StoreAccessKey { user_id: i64, secret_key: Seq<char> },
    StoreRefreshKey { user_id: i64, secret_refresh_key: Seq<char> },
    LatestSession { user_id: i64 },
    SessionOwner { session_uuid: Seq<char> },
    StoreSession { user_id: i64, session_uuid: Seq<char> },
    StoreUser { username: Seq<char>, password_hash: Seq<char>, email: Seq<char> },
    DropSession { session_uuid: Seq<char> },
}

impl View for SqlValue {
    type V = SqlValueView;

    open spec fn view(&self) -> SqlValueView {
        match self {
            SqlValue::Int(number) => SqlValueView::Int(*number),
            SqlValue::Text(text) => SqlValueView::Text(text@),
        }
    }
}

/// The values that a list stands for.
pub open spec fn values_of(values: Seq<SqlValue>) -> Seq<SqlValueView> {
    values.map_values(|value: SqlValue| value@)
}

impl View for Statement {
    type V = StatementView;

    open spec fn view(&self) -> StatementView {
        StatementView { sql: self.sql@, params: values_of(self.params@), columns: self.columns@ }
    }
}

impl View for DbReply {
    type V = DbReplyView;

    open spec fn view(&self) -> DbReplyView {
        match self {
            DbReply::Row(columns) => DbReplyView::Row(values_of(columns@)),
            DbReply::NoRow => DbReplyView::NoRow,
            DbReply::Done(rows) => DbReplyView::Done(*rows),
            DbReply::Conflict => DbReplyView::Conflict,
            DbReply::Unavailable => DbReplyView::Unavailable,
        }
    }
}

impl View for DbRequest {
    type V = DbRequestView;

    open spec fn view(&self) -> DbRequestView {
        match self {
            DbRequest::UserIdExists { user_id } => DbRequestView::UserIdExists { user_id: *user_id },
            DbRequest::UsernameExists { username } => DbRequestView::UsernameExists {
                username: username@,
            },
            DbRequest::AccessKey { user_id } => DbRequestView::AccessKey { user_id: *user_id },
            DbRequest::RefreshKey { user_id } => DbRequestView::RefreshKey { user_id: *user_id },
            DbRequest::UserByName { username } => DbRequestView::UserByName { username: username@ },
            DbRequest::UserById { user_id } => DbRequestView::UserById { user_id: *user_id },
            DbRequest::StoreAccessKey { user_id, secret_key } => DbRequestView::StoreAccessKey {
                user_id: *user_id,
                secret_key: secret_key@,
            },
            DbRequest::StoreRefreshKey {
                user_id,
                secret_refresh_key,
            } => DbRequestView::StoreRefreshKey {
                user_id: *user_id,
                secret_refresh_key: secret_refresh_key@,
            },
            DbRequest::LatestSession { user_id } => DbRequestView::LatestSession {
                user_id: *user_id,
            },
            DbRequest::SessionOwner { session_uuid } => DbRequestView::SessionOwner {
                session_uuid: session_uuid@,
            },
            DbRequest::StoreSession { user_id, session_uuid } => DbRequestView::StoreSession {
                user_id: *user_id,
                session_uuid: session_uuid@,
            },
            DbRequest::StoreUser { username, password_hash, email } => DbRequestView::StoreUser {
                username: username@,
                password_hash: password_hash@,
                email: email@,
            },
            DbRequest::DropSession { session_uuid } => DbRequestView::DropSession {
                session_uuid: session_uuid@,
            },
        }
    }
}

/// A statement that returns nothing.
pub open spec fn write(sql: Seq<char>, params: Seq<SqlValueView>) -> StatementView {
    StatementView { sql, params, columns: seq![] }
}

/// A statement whose first row is wanted.
pub open spec fn query(sql: Seq<char>, params: Seq<SqlValueView>, columns: Seq<SqlType>) -> StatementView {
    StatementView { sql, params, columns }
}

fn make_statement(sql: &str, params: Vec<SqlValue>, columns: Vec<SqlType>) -> (r: Statement)
    ensures
        r@ == query(sql@, values_of(params@), columns@),
{
    Statement { sql: String::from_str(sql), params, columns }
}

fn no_values() -> (r: Vec<SqlValue>)
    ensures
        values_of(r@) == Seq::<SqlValueView>::empty(),
{
    let r: Vec<SqlValue> = Vec::new();
    assert(values_of(r@) =~= Seq::<SqlValueView>::empty());
    r
}

fn one_value(a: SqlValue) -> (r: Vec<SqlValue>)
    ensures
        values_of(r@) == seq![a@],
{
    let mut r: Vec<SqlValue> = Vec::new();
    r.push(a);
    assert(values_of(r@) =~= seq![a@]);
    r
}

fn two_values(a: SqlValue, b: SqlValue) -> (r: Vec<SqlValue>)
    ensures
        values_of(r@) == seq![a@, b@],
{
    let mut r: Vec<SqlValue> = Vec::new();
    r.push(a);
    r.push(b);
    assert(values_of(r@) =~= seq![a@, b@]);
    r
}

fn three_values(a: SqlValue, b: SqlValue, c: SqlValue) -> (r: Vec<SqlValue>)
    ensures
        values_of(r@) == seq![a@, b@, c@],
{
    let mut r: Vec<SqlValue> = Vec::new();
    r.push(a);
    r.push(b);
    r.push(c);
    assert(values_of(r@) =~= seq![a@, b@, c@]);
    r
}

fn no_columns() -> (r: Vec<SqlType>)
    ensures
        r@ == Seq::<SqlType>::empty(),
{
    Vec::new()
}

fn one_column(a: SqlType) -> (r: Vec<SqlType>)
    ensures
        r@ == seq![a],
{
    let mut r: Vec<SqlType> = Vec::new();
    r.push(a);
    assert(r@ =~= seq![a]);
    r
}

fn three_columns(a: SqlType, b: SqlType, c: SqlType) -> (r: Vec<SqlType>)
    ensures
        r@ == seq![a, b, c],
{
    let mut r: Vec<SqlType> = Vec::new();
    r.push(a);
    r.push(b);
    r.push(c);
    assert(r@ =~= seq![a, b, c]);
    r
}

/// Counts the users with this id.
pub fn does_user_id_exists(user_id: i64) -> (r: Statement)
    ensures
        r@ == query(
            "SELECT COUNT(*) FROM users WHERE user_id = $1"@,
            seq![SqlValueView::Int(user_id)],
            seq![SqlType::Int],
        ),
{
    make_statement(
        "SELECT COUNT(*) FROM users WHERE user_id = $1",
        one_value(SqlValue::Int(user_id)),
        one_column(SqlType::Int),
    )
}

/// Counts the users with this name.
pub fn does_username_exists(username: &str) -> (r: Statement)
    ensures
        r@ == query(
            "SELECT COUNT(*) FROM users WHERE username = $1"@,
            seq![SqlValueView::Text(username@)],
            seq![SqlType::Int],
        ),
{
    make_statement(
        "SELECT COUNT(*) FROM users WHERE username = $1",
        one_value(SqlValue::Text(String::from_str(username))),
        one_column(SqlType::Int),
    )
}

/// Fetches the access secret of a user.
pub fn get_secret_access_key(user_id: i64) -> (r: Statement)
    ensures
        r@ == query(
            "SELECT secret_key FROM secret_access_keys WHERE user_id = $1"@,
            seq![SqlValueView::Int(user_id)],
            seq![SqlType::Text],
        ),
{
    make_statement(
        "SELECT secret_key FROM secret_access_keys WHERE user_id = $1",
        one_value(SqlValue::Int(user_id)),
        one_column(SqlType::Text),
    )
}

/// Fetches the refresh secret of a user.
pub fn get_secret_refresh_key(user_id: i64) -> (r: Statement)
    ensures
        r@ == query(
            "SELECT secret_refresh_key FROM refresh_access_keys WHERE user_id = $1"@,
            seq![SqlValueView::Int(user_id)],
            seq![SqlType::Text],
        ),
{
    make_statement(
        "SELECT secret_refresh_key FROM refresh_access_keys WHERE user_id = $1",
        one_value(SqlValue::Int(user_id)),
        one_column(SqlType::Text),
    )
}

/// Fetches id, password hash and e-mail of the user with this name.
pub fn get_user_from_db(username: &str) -> (r: Statement)
    ensures
        r@ == query(
            "SELECT user_id, password, email FROM users WHERE username = $1"@,
            seq![SqlValueView::Text(username@)],
            seq![SqlType::Int, SqlType::Text, SqlType::Text],
        ),
{
    make_statement(
        "SELECT user_id, password, email FROM users WHERE username = $1",
        one_value(SqlValue::Text(String::from_str(username))),
        three_columns(SqlType::Int, SqlType::Text, SqlType::Text),
    )
}

/// Fetches name, password hash and e-mail of the user with this id.
pub fn get_user_from_db_with_user_id(user_id: i64) -> (r: Statement)
    ensures
        r@ == query(
            "SELECT username, password, email FROM users WHERE user_id = $1"@,
            seq![SqlValueView::Int(user_id)],
            seq![SqlType::Text, SqlType::Text, SqlType::Text],
        ),
{
    make_statement(
        "SELECT username, password, email FROM users WHERE user_id = $1",
        one_value(SqlValue::Int(user_id)),
        three_columns(SqlType::Text, SqlType::Text, SqlType::Text),
    )
}

/// Stores the access secret of a user. The table admits one secret per
/// user, so a second one is refused and the first stays.
pub fn store_secret_access_key(user_id: i64, secret_key: &str) -> (r: Statement)
    ensures
        r@ == write(
            "INSERT INTO secret_access_keys (user_id, secret_key) VALUES ($1, $2)"@,
            seq![SqlValueView::Int(user_id), SqlValueView::Text(secret_key@)],
        ),
{
    make_statement(
        "INSERT INTO secret_access_keys (user_id, secret_key) VALUES ($1, $2)",
        two_values(SqlValue::Int(user_id), SqlValue::Text(String::from_str(secret_key))),
        no_columns(),
    )
}

/// Stores the refresh secret of a user. The table admits one secret per
/// user, so a second one is refused and the first stays.
pub fn store_secret_refresh_key(user_id: i64, secret_refresh_key: &str) -> (r: Statement)
    ensures
        r@ == write(
            "INSERT INTO refresh_access_keys (user_id, secret_refresh_key) VALUES ($1, $2)"@,
            seq![SqlValueView::Int(user_id), SqlValueView::Text(secret_refresh_key@)],
        ),
{
    make_statement(
        "INSERT INTO refresh_access_keys (user_id, secret_refresh_key) VALUES ($1, $2)",
        two_values(SqlValue::Int(user_id), SqlValue::Text(String::from_str(secret_refresh_key))),
        no_columns(),
    )
}

/// Fetches the sessions of a user, newest first; the first row is the
/// current session.
pub fn get_session_uuid(user_id: i64) -> (r: Statement)
    ensures
        r@ == query(
            "SELECT session_uuid FROM session_table WHERE user_id = $1 ORDER BY session_id DESC"@,
            seq![SqlValueView::Int(user_id)],
            seq![SqlType::Text],
        ),
{
    make_statement(
        "SELECT session_uuid FROM session_table WHERE user_id = $1 ORDER BY session_id DESC",
        one_value(SqlValue::Int(user_id)),
        one_column(SqlType::Text),
    )
}

/// Fetches the owner of a session.
pub fn get_session_user_id(session_uuid: &str) -> (r: Statement)
    ensures
        r@ == query(
            "SELECT user_id FROM session_table WHERE session_uuid = $1"@,
            seq![SqlValueView::Text(session_uuid@)],
            seq![SqlType::Int],
        ),
{
    make_statement(
        "SELECT user_id FROM session_table WHERE session_uuid = $1",
        one_value(SqlValue::Text(String::from_str(session_uuid))),
        one_column(SqlType::Int),
    )
}

/// Fetches the owner of a session; the same question as
/// [`get_session_user_id`].
pub fn get_user_id_with_session_uuid(session_uuid: &str) -> (r: Statement)
    ensures
        r@ == query(
            "SELECT user_id FROM session_table WHERE session_uuid = $1"@,
            seq![SqlValueView::Text(session_uuid@)],
            seq![SqlType::Int],
        ),
{
    get_session_user_id(session_uuid)
}

/// Stores a new session of a user.
pub fn store_session_info(user_id: i64, session_uuid: &str) -> (r: Statement)
    ensures
        r@ == write(
            "INSERT INTO session_table (user_id, session_uuid) VALUES ($1, $2)"@,
            seq![SqlValueView::Int(user_id), SqlValueView::Text(session_uuid@)],
        ),
{
    make_statement(
        "INSERT INTO session_table (user_id, session_uuid) VALUES ($1, $2)",
        two_values(SqlValue::Int(user_id), SqlValue::Text(String::from_str(session_uuid))),
        no_columns(),
    )
}

/// Stores a new credential. User names are unique, so a second credential
/// of the same name is refused.
pub fn store_new_user(username: &str, password_hash: &str, email: &str) -> (r: Statement)
    ensures
        r@ == write(
            "INSERT INTO users (username, password, email) VALUES ($1, $2, $3)"@,
            seq![
                SqlValueView::Text(username@),
                SqlValueView::Text(password_hash@),
                SqlValueView::Text(email@),
            ],
        ),
{
    make_statement(
        "INSERT INTO users (username, password, email) VALUES ($1, $2, $3)",
        three_values(
            SqlValue::Text(String::from_str(username)),
            SqlValue::Text(String::from_str(password_hash)),
            SqlValue::Text(String::from_str(email)),
        ),
        no_columns(),
    )
}

/// Deletes a session.
pub fn proceed_drop_session(session_uuid: &str) -> (r: Statement)
    ensures
        r@ == write(
            "DELETE FROM session_table WHERE session_uuid = $1"@,
            seq![SqlValueView::Text(session_uuid@)],
        ),
{
    make_statement(
        "DELETE FROM session_table WHERE session_uuid = $1",
        one_value(SqlValue::Text(String::from_str(session_uuid))),
        no_columns(),
    )
}

/// Sets the subscription level of a user.
pub fn set_user_subscription_level(user_id: i64, level: &str) -> (r: Statement)
    ensures
        r@ == write(
            "UPDATE users SET subscription = $1 WHERE user_id = $2"@,
            seq![SqlValueView::Text(level@), SqlValueView::Int(user_id)],
        ),
{
    make_statement(
        "UPDATE users SET subscription = $1 WHERE user_id = $2",
        two_values(SqlValue::Text(String::from_str(level)), SqlValue::Int(user_id)),
        no_columns(),
    )
}

/// The statement that a request stands for.
pub open spec fn statement_of(request: DbRequestView) -> StatementView {
    match request {
        DbRequestView::UserIdExists { user_id } => query(
            "SELECT COUNT(*) FROM users WHERE user_id = $1"@,
            seq![SqlValueView::Int(user_id)],
            seq![SqlType::Int],
        ),
        DbRequestView::UsernameExists { username } => query(
            "SELECT COUNT(*) FROM users WHERE username = $1"@,
            seq![SqlValueView::Text(username)],
            seq![SqlType::Int],
        ),
        DbRequestView::AccessKey { user_id } => query(
            "SELECT secret_key FROM secret_access_keys WHERE user_id = $1"@,
            seq![SqlValueView::Int(user_id)],
            seq![SqlType::Text],
        ),
        DbRequestView::RefreshKey { user_id } => query(
            "SELECT secret_refresh_key FROM refresh_access_keys WHERE user_id = $1"@,
            seq![SqlValueView::Int(user_id)],
            seq![SqlType::Text],
        ),
        DbRequestView::UserByName { username } => query(
            "SELECT user_id, password, email FROM users WHERE username = $1"@,
            seq![SqlValueView::Text(username)],
            seq![SqlType::Int, SqlType::Text, SqlType::Text],
        ),
        DbRequestView::UserById { user_id } => query(
            "SELECT username, password, email FROM users WHERE user_id = $1"@,
            seq![SqlValueView::Int(user_id)],
            seq![SqlType::Text, SqlType::Text, SqlType::Text],
        ),
        DbRequestView::StoreAccessKey { user_id, secret_key } => write(
            "INSERT INTO secret_access_keys (user_id, secret_key) VALUES ($1, $2)"@,
            seq![SqlValueView::Int(user_id), SqlValueView::Text(secret_key)],
        ),
        DbRequestView::StoreRefreshKey { user_id, secret_refresh_key } => write(
            "INSERT INTO refresh_access_keys (user_id, secret_refresh_key) VALUES ($1, $2)"@,
            seq![SqlValueView::Int(user_id), SqlValueView::Text(secret_refresh_key)],
        ),
        DbRequestView::LatestSession { user_id } => query(
            "SELECT session_uuid FROM session_table WHERE user_id = $1 ORDER BY session_id DESC"@,
            seq![SqlValueView::Int(user_id)],
            seq![SqlType::Text],
        ),
        DbRequestView::SessionOwner { session_uuid } => query(
            "SELECT user_id FROM session_table WHERE session_uuid = $1"@,
            seq![SqlValueView::Text(session_uuid)],
            seq![SqlType::Int],
        ),
        DbRequestView::StoreSession { user_id, session_uuid } => write(
            "INSERT INTO session_table (user_id, session_uuid) VALUES ($1, $2)"@,
            seq![SqlValueView::Int(user_id), SqlValueView::Text(session_uuid)],
        ),
        DbRequestView::StoreUser { username, password_hash, email } => write(
            "INSERT INTO users (username, password, email) VALUES ($1, $2, $3)"@,
            seq![
                SqlValueView::Text(username),
                SqlValueView::Text(password_hash),
                SqlValueView::Text(email),
            ],
        ),
        DbRequestView::DropSession { session_uuid } => write(
            "DELETE FROM session_table WHERE session_uuid = $1"@,
            seq![SqlValueView::Text(session_uuid)],
        ),
    }
}

/// Turns a request into the statement to run. Whatever text the request
/// carries ends up among the parameters; the SQL is one of thirteen fixed
/// texts.
pub fn statement_for(request: &DbRequest) -> (r: Statement)
    ensures
        r@ == statement_of(request@),
{
    match request {
        DbRequest::UserIdExists { user_id } => does_user_id_exists(*user_id),
        DbRequest::UsernameExists { username } => does_username_exists(username.as_str()),
        DbRequest::AccessKey { user_id } => get_secret_access_key(*user_id),
        DbRequest::RefreshKey { user_id } => get_secret_refresh_key(*user_id),
        DbRequest::UserByName { username } => get_user_from_db(username.as_str()),
        DbRequest::UserById { user_id } => get_user_from_db_with_user_id(*user_id),
        DbRequest::StoreAccessKey { user_id, secret_key } => store_secret_access_key(
            *user_id,
            secret_key.as_str(),
        ),
        DbRequest::StoreRefreshKey { user_id, secret_refresh_key } => store_secret_refresh_key(
            *user_id,
            secret_refresh_key.as_str(),
        ),
        DbRequest::LatestSession { user_id } => get_session_uuid(*user_id),
        DbRequest::SessionOwner { session_uuid } => get_session_user_id(session_uuid.as_str()),
        DbRequest::StoreSession { user_id, session_uuid } => store_session_info(
            *user_id,
            session_uuid.as_str(),
        ),
        DbRequest::StoreUser { username, password_hash, email } => store_new_user(
            username.as_str(),
            password_hash.as_str(),
            email.as_str(),
        ),
        DbRequest::DropSession { session_uuid } => proceed_drop_session(session_uuid.as_str()),
    }
}

/// What a reply means where a single text column was asked for; `missing`
/// is the error for "no row". A row of another shape, like any failure of
/// the store, counts as the store being unavailable.
pub open spec fn text_answer(reply: DbReplyView, missing: AuthError) -> Result<Seq<char>, AuthError> {
    match reply {
        DbReplyView::Row(columns) => if columns.len() == 1 && columns[0] is Text {
            Ok(columns[0]->Text_0)
        } else {
            Err(AuthError::PersistenceUnavailable)
        },
        DbReplyView::NoRow => Err(missing),
        _ => Err(AuthError::PersistenceUnavailable),
    }
}

/// What a reply means where a single integer column was asked for;
/// `missing` is the error for "no row".
pub open spec fn int_answer(reply: DbReplyView, missing: AuthError) -> Result<i64, AuthError> {
    match reply {
        DbReplyView::Row(columns) => if columns.len() == 1 && columns[0] is Int {
            Ok(columns[0]->Int_0)
        } else {
            Err(AuthError::PersistenceUnavailable)
        },
        DbReplyView::NoRow => Err(missing),
        _ => Err(AuthError::PersistenceUnavailable),
    }
}

/// What a reply means where a count was asked for: whether it is one.
pub open spec fn exists_answer(reply: DbReplyView) -> Result<bool, AuthError> {
    match int_answer(reply, AuthError::PersistenceUnavailable) {
        Ok(count) => Ok(count == 1),
        Err(e) => Err(e),
    }
}

/// What a reply means where a write was asked for: the number of rows it
/// changed; `refused` is the error for a write that a uniqueness rule
/// turned down.
pub open spec fn write_answer(reply: DbReplyView, refused: AuthError) -> Result<u64, AuthError> {
    match reply {
        DbReplyView::Done(rows) => Ok(rows),
        DbReplyView::Conflict => Err(refused),
        _ => Err(AuthError::PersistenceUnavailable),
    }
}

/// What a reply means where the credential of `username` was asked for. A
/// missing row is `InvalidCredentials`, as a wrong password is.
pub open spec fn user_answer(username: Seq<char>, reply: DbReplyView) -> Result<
    UserInfoView,
    AuthError,
> {
    match reply {
        DbReplyView::Row(columns) => if columns.len() == 3 && columns[0] is Int
            && columns[1] is Text && columns[2] is Text {
            Ok(
                UserInfoView {
                    user_id: columns[0]->Int_0,
                    username,
                    password: columns[1]->Text_0,
                    email: columns[2]->Text_0,
                },
            )
        } else {
            Err(AuthError::PersistenceUnavailable)
        },
        DbReplyView::NoRow => Err(AuthError::InvalidCredentials),
        _ => Err(AuthError::PersistenceUnavailable),
    }
}

/// What a reply means where the credential of `user_id` was asked for.
pub open spec fn user_by_id_answer(user_id: i64, reply: DbReplyView) -> Result<
    UserInfoView,
    AuthError,
> {
    match reply {
        DbReplyView::Row(columns) => if columns.len() == 3 && columns[0] is Text
            && columns[1] is Text && columns[2] is Text {
            Ok(
                UserInfoView {
                    user_id,
                    username: columns[0]->Text_0,
                    password: columns[1]->Text_0,
                    email: columns[2]->Text_0,
                },
            )
        } else {
            Err(AuthError::PersistenceUnavailable)
        },
        DbReplyView::NoRow => Err(AuthError::InvalidCredentials),
        _ => Err(AuthError::PersistenceUnavailable),
    }
}

/// A text result seen as a mathematical value.
pub open spec fn text_result(r: Result<String, AuthError>) -> Result<Seq<char>, AuthError> {
    match r {
        Ok(text) => Ok(text@),
        Err(e) => Err(e),
    }
}

/// A user result seen as a mathematical value.
pub open spec fn user_result(r: Result<UserInfo, AuthError>) -> Result<UserInfoView, AuthError> {
    match r {
        Ok(user) => Ok(user@),
        Err(e) => Err(e),
    }
}

fn text_at(columns: &Vec<SqlValue>, i: usize) -> (r: Option<String>)
    requires
        i < columns.len(),
    ensures
        match r {
            Some(text) => values_of(columns@)[i as int] == SqlValueView::Text(text@),
            None => !(values_of(columns@)[i as int] is Text),
        },
{
    match &columns[i] {
        SqlValue::Text(text) => Some(text.clone()),
        SqlValue::Int(_) => None,
    }
}

fn int_at(columns: &Vec<SqlValue>, i: usize) -> (r: Option<i64>)
    requires
        i < columns.len(),
    ensures
        match r {
            Some(number) => values_of(columns@)[i as int] == SqlValueView::Int(number),
            None => !(values_of(columns@)[i as int] is Int),
        },
{
    match &columns[i] {
        SqlValue::Int(number) => Some(*number),
        SqlValue::Text(_) => None,
    }
}

/// Reads a reply to a question for one text column.
pub fn read_text(reply: &DbReply, missing: AuthError) -> (r: Result<String, AuthError>)
    ensures
        text_result(r) == text_answer(reply@, missing),
{
    match reply {
        DbReply::Row(columns) => {
            if columns.len() != 1 {
                return Err(AuthError::PersistenceUnavailable);
            }
            match text_at(columns, 0) {
                Some(text) => Ok(text),
                None => Err(AuthError::PersistenceUnavailable),
            }
        },
        DbReply::NoRow => Err(missing),
        _ => Err(AuthError::PersistenceUnavailable),
    }
}

/// Reads a reply to a question for one integer column.
pub fn read_int(reply: &DbReply, missing: AuthError) -> (r: Result<i64, AuthError>)
    ensures
        r == int_answer(reply@, missing),
{
    match reply {
        DbReply::Row(columns) => {
            if columns.len() != 1 {
                return Err(AuthError::PersistenceUnavailable);
            }
            match int_at(columns, 0) {
                Some(number) => Ok(number),
                None => Err(AuthError::PersistenceUnavailable),
            }
        },
        DbReply::NoRow => Err(missing),
        _ => Err(AuthError::PersistenceUnavailable),
    }
}

/// Reads the reply to [`does_user_id_exists`] or
/// [`does_username_exists`]: whether the count is one.
pub fn read_exists(reply: &DbReply) -> (r: Result<bool, AuthError>)
    ensures
        r == exists_answer(reply@),
{
    match read_int(reply, AuthError::PersistenceUnavailable) {
        Ok(count) => Ok(count == 1),
        Err(e) => Err(e),
    }
}

/// Reads the reply to [`get_secret_access_key`] or
/// [`get_secret_refresh_key`]: the secret, or `KeyNotFound` where the user
/// has none.
pub fn read_secret_key(reply: &DbReply) -> (r: Result<String, AuthError>)
    ensures
        text_result(r) == text_answer(reply@, AuthError::KeyNotFound),
{
    read_text(reply, AuthError::KeyNotFound)
}

/// Reads the reply to [`get_session_uuid`]: the user's current session, or
/// `NoActiveSession` where the user has none.
pub fn read_session_uuid(reply: &DbReply) -> (r: Result<String, AuthError>)
    ensures
        text_result(r) == text_answer(reply@, AuthError::NoActiveSession),
{
    read_text(reply, AuthError::NoActiveSession)
}

/// Reads the reply to [`get_session_user_id`]: the owner of the session, or
/// `UnknownSession` where the session does not exist, as after a logout.
pub fn read_session_user_id(reply: &DbReply) -> (r: Result<i64, AuthError>)
    ensures
        r == int_answer(reply@, AuthError::UnknownSession),
{
    read_int(reply, AuthError::UnknownSession)
}

/// Reads the reply to a write: the number of rows changed, or `refused`
/// where a uniqueness rule turned the write down.
pub fn read_written(reply: &DbReply, refused: AuthError) -> (r: Result<u64, AuthError>)
    ensures
        r == write_answer(reply@, refused),
{
    match reply {
        DbReply::Done(rows) => Ok(*rows),
        DbReply::Conflict => Err(refused),
        _ => Err(AuthError::PersistenceUnavailable),
    }
}

/// Reads the reply to [`get_user_from_db`].
pub fn read_user(username: &str, reply: &DbReply) -> (r: Result<UserInfo, AuthError>)
    ensures
        user_result(r) == user_answer(username@, reply@),
{
    match reply {
        DbReply::Row(columns) => {
            if columns.len() != 3 {
                return Err(AuthError::PersistenceUnavailable);
            }
            match (int_at(columns, 0), text_at(columns, 1), text_at(columns, 2)) {
                (Some(user_id), Some(password), Some(email)) => Ok(
                    UserInfo { user_id, username: String::from_str(username), password, email },
                ),
                _ => Err(AuthError::PersistenceUnavailable),
            }
        },
        DbReply::NoRow => Err(AuthError::InvalidCredentials),
        _ => Err(AuthError::PersistenceUnavailable),
    }
}

/// Reads the reply to [`get_user_from_db_with_user_id`].
pub fn read_user_with_user_id(user_id: i64, reply: &DbReply) -> (r: Result<UserInfo, AuthError>)
    ensures
        user_result(r) == user_by_id_answer(user_id, reply@),
{
    match reply {
        DbReply::Row(columns) => {
            if columns.len() != 3 {
                return Err(AuthError::PersistenceUnavailable);
            }
            match (text_at(columns, 0), text_at(columns, 1), text_at(columns, 2)) {
                (Some(username), Some(password), Some(email)) => Ok(
                    UserInfo { user_id, username, password, email },
                ),
                _ => Err(AuthError::PersistenceUnavailable),
            }
        },
        DbReply::NoRow => Err(AuthError::InvalidCredentials),
        _ => Err(AuthError::PersistenceUnavailable),
    }
}

/// Reads the reply to [`proceed_drop_session`]: whether a session was
/// removed. `false` means that it was gone already, which callers take as
/// success; only a store that could not run the statement is an error.
pub fn drop_session(reply: &DbReply) -> (r: Result<bool, AuthError>)
    ensures
        r == match write_answer(reply@, AuthError::PersistenceUnavailable) {
            Ok(rows) => Ok::<bool, AuthError>(rows > 0),
            Err(e) => Err(e),
        },
{
    match read_written(reply, AuthError::PersistenceUnavailable) {
        Ok(rows) => Ok(rows > 0),
        Err(e) => Err(e),
    }
}

/// The session could not be stored.
#[derive(Debug)]
pub struct SessionCreationError;

impl SessionCreationError {
    /// The text shown for this error.
    pub open spec fn spec_message() -> Seq<char> {
        "Session was not created!"@
    }

    /// The text shown for this error.
    pub fn message(&self) -> (r: String)
        ensures
            r@ == Self::spec_message(),
    {
        String::from_str("Session was not created!")
    }
}

/// A lower-case hexadecimal digit or a hyphen.
pub open spec fn is_uuid_char(c: char) -> bool {
    ||| '0' <= c <= '9'
    ||| 'a' <= c <= 'f'
    ||| c == '-'
}

/// The shape of a session identifier: 36 characters, each a lower-case
/// hexadecimal digit or a hyphen.
pub open spec fn is_session_uuid(text: Seq<char>) -> bool {
    &&& text.len() == 36
    &&& forall|i: int| 0 <= i < text.len() ==> is_uuid_char(#[trigger] text[i])
}

/// Formats `uuid::Uuid::new_v4()` with its `Display`: a random identifier
/// of 122 random bits in the hyphenated lower-case form. Which identifier
/// comes is left open.
#[verifier::external_body]
fn new_session_uuid() -> (r: String)
    ensures
        is_session_uuid(r@),
{
    uuid::Uuid::new_v4().to_string()
}

/// Allocates a fresh session identifier for `user` and names the write
/// that stores the session. The store refuses the write where it holds no
/// credential of that user; [`session_created`] reads the refusal.
pub fn create_session(user: &UserInfo) -> (r: (String, DbRequest))
    ensures
        is_session_uuid(r.0@),
        r.1@ == (DbRequestView::StoreSession { user_id: user.user_id, session_uuid: r.0@ }),
{
    let session_uuid = new_session_uuid();
    let request = DbRequest::StoreSession {
        user_id: user.user_id,
        session_uuid: session_uuid.clone(),
    };
    (session_uuid, request)
}

/// Reads the reply to the write that [`create_session`] named: the session
/// exists exactly when the write ran. A write that the store refused, as
/// it does for a user it does not hold, is an error.
pub fn session_created(reply: &DbReply) -> (r: Result<(), SessionCreationError>)
    ensures
        r is Ok <==> reply@ is Done,
{
    match reply {
        DbReply::Done(_) => Ok(()),
        _ => Err(SessionCreationError),
    }
}

fn plain(sql: &str) -> (r: Statement)
    ensures
        r@ == write(sql@, seq![]),
{
    make_statement(sql, no_values(), no_columns())
}

/// The statements that empty the database and set its schema up again, in
/// the order in which they are to run: users and their subscription type,
/// then access secrets, refresh secrets and sessions, each dropped before
/// it is created. A session refers to its user, so the store refuses a
/// session of a user that it does not hold; dropping the users takes that
/// reference along.
pub open spec fn schema_reset() -> Seq<StatementView> {
    seq![
        write("DROP TABLE IF EXISTS users CASCADE"@, seq![]),
        write("DROP TYPE IF EXISTS subscription_level"@, seq![]),
        write(
            "DO $$ BEGIN CREATE TYPE subscription_level AS ENUM ('non-premium', 'basic-premium', 'normal-premium', 'enterprise-premium'); EXCEPTION WHEN duplicate_object THEN null; END $$;"@,
            seq![],
        ),
        write(
            "CREATE TABLE IF NOT EXISTS users (user_id BIGSERIAL PRIMARY KEY, username VARCHAR(50) NOT NULL UNIQUE, password VARCHAR(256) NOT NULL, email VARCHAR(50) NOT NULL, subscription subscription_level NOT NULL DEFAULT 'non-premium');"@,
            seq![],
        ),
        write("DROP TABLE IF EXISTS secret_access_keys"@, seq![]),
        write(
            "CREATE TABLE IF NOT EXISTS secret_access_keys (user_id BIGINT PRIMARY KEY, secret_key VARCHAR(255) NOT NULL)"@,
            seq![],
        ),
        write("DROP TABLE IF EXISTS refresh_access_keys"@, seq![]),
        write(
            "CREATE TABLE IF NOT EXISTS refresh_access_keys (user_id BIGINT PRIMARY KEY, secret_refresh_key VARCHAR(255) NOT NULL)"@,
            seq![],
        ),
        write("DROP TABLE IF EXISTS session_table"@, seq![]),
        write(
            "CREATE TABLE IF NOT EXISTS session_table (session_uuid varchar(36) PRIMARY KEY, user_id BIGINT NOT NULL REFERENCES users(user_id), session_id BIGSERIAL UNIQUE, log_date TIMESTAMP NOT NULL DEFAULT current_timestamp)"@,
            seq![],
        ),
    ]
}

/// The statements of a list.
pub open spec fn statements_of(statements: Seq<Statement>) -> Seq<StatementView> {
    statements.map_values(|statement: Statement| statement@)
}

fn drop_user_table() -> (r: Statement)
    ensures
        r@ == schema_reset()[0],
{
    plain("DROP TABLE IF EXISTS users CASCADE")
}

fn drop_level_subscription_type() -> (r: Statement)
    ensures
        r@ == schema_reset()[1],
{
    plain("DROP TYPE IF EXISTS subscription_level")
}

fn create_user_level_enum_type() -> (r: Statement)
    ensures
        r@ == schema_reset()[2],
{
    plain(
        "DO $$ BEGIN CREATE TYPE subscription_level AS ENUM ('non-premium', 'basic-premium', 'normal-premium', 'enterprise-premium'); EXCEPTION WHEN duplicate_object THEN null; END $$;",
    )
}

fn create_user_table() -> (r: Statement)
    ensures
        r@ == schema_reset()[3],
{
    plain(
        "CREATE TABLE IF NOT EXISTS users (user_id BIGSERIAL PRIMARY KEY, username VARCHAR(50) NOT NULL UNIQUE, password VARCHAR(256) NOT NULL, email VARCHAR(50) NOT NULL, subscription subscription_level NOT NULL DEFAULT 'non-premium');",
    )
}

fn drop_secret_access_key_table() -> (r: Statement)
    ensures
        r@ == schema_reset()[4],
{
    plain("DROP TABLE IF EXISTS secret_access_keys")
}

fn create_secret_access_key_table() -> (r: Statement)
    ensures
        r@ == schema_reset()[5],
{
    plain(
        "CREATE TABLE IF NOT EXISTS secret_access_keys (user_id BIGINT PRIMARY KEY, secret_key VARCHAR(255) NOT NULL)",
    )
}

fn drop_secret_refresh_key_table() -> (r: Statement)
    ensures
        r@ == schema_reset()[6],
{
    plain("DROP TABLE IF EXISTS refresh_access_keys")
}

fn create_secret_refresh_key_table() -> (r: Statement)
    ensures
        r@ == schema_reset()[7],
{
    plain(
        "CREATE TABLE IF NOT EXISTS refresh_access_keys (user_id BIGINT PRIMARY KEY, secret_refresh_key VARCHAR(255) NOT NULL)",
    )
}

fn drop_session_table() -> (r: Statement)
    ensures
        r@ == schema_reset()[8],
{
    plain("DROP TABLE IF EXISTS session_table")
}

fn create_session_table() -> (r: Statement)
    ensures
        r@ == schema_reset()[9],
{
    plain(
        "CREATE TABLE IF NOT EXISTS session_table (session_uuid varchar(36) PRIMARY KEY, user_id BIGINT NOT NULL REFERENCES users(user_id), session_id BIGSERIAL UNIQUE, log_date TIMESTAMP NOT NULL DEFAULT current_timestamp)",
    )
}

/// Lists the statements that empty the database and set its schema up
/// again.
pub fn clear_database() -> (script: Vec<Statement>)
    ensures
        statements_of(script@) == schema_reset(),
{
    let mut script: Vec<Statement> = Vec::new();
    script.push(drop_user_table());
    script.push(drop_level_subscription_type());
    script.push(create_user_level_enum_type());
    script.push(create_user_table());
    script.push(drop_secret_access_key_table());
    script.push(create_secret_access_key_table());
    script.push(drop_secret_refresh_key_table());
    script.push(create_secret_refresh_key_table());
    script.push(drop_session_table());
    script.push(create_session_table());
    assert(statements_of(script@) =~= schema_reset());
    script
}

} // verus!
