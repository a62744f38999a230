//! The user records that requests carry and the store returns.
use vstd::prelude::*;

verus! {

/// What a client sends to register.
#[derive(Debug)]
pub struct RegisterUserInfo {
    pub username: String,
    pub password: String,
    pub email: String,
}

/// What a client sends to log in.
#[derive(Debug)]
pub struct User {
    pub username: String,
    pub password: String,
}

/// A stored credential. `password` holds the encoded hash, never the
/// password itself.
#[derive(Debug)]
pub struct UserInfo {
    pub user_id: i64,
    pub username: String,
    pub password: String,
    pub email: String,
}

/// Mathematical value of a [`RegisterUserInfo`].
pub struct RegisterUserInfoView {
    pub username: Seq<char>,
    pub password: Seq<char>,
    pub email: Seq<char>,
}

/// Mathematical value of a [`User`].
pub struct UserView {
    pub username: Seq<char>,
    pub password: Seq<char>,
}

/// Mathematical value of a [`UserInfo`].
pub struct UserInfoView {
    pub user_id: i64,
    pub username: Seq<char>,
    pub password: Seq<char>,
    pub email: Seq<char>,
}

impl View for RegisterUserInfo {
    type V = RegisterUserInfoView;

    open spec fn view(&self) -> RegisterUserInfoView {
        RegisterUserInfoView {
            username: self.username@,
            password: self.password@,
            email: self.email@,
        }
    }
}

impl View for User {
    type V = UserView;

    open spec fn view(&self) -> UserView {
        UserView { username: self.username@, password: self.password@ }
    }
}

impl View for UserInfo {
    type V = UserInfoView;

    open spec fn view(&self) -> UserInfoView {
        UserInfoView {
            user_id: self.user_id,
            username: self.username@,
            password: self.password@,
            email: self.email@,
        }
    }
}

} // verus!
