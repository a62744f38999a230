//! Reading cookies out of a request.
//!
//! A request's cookies are a list of name and value pairs in the order the
//! client sent them. Values are opaque: a tampered token is caught when its
//! signature is checked, not here.
use crate::auth::cookies::errors::NoValueInCookie;
use crate::db::DbRequest;
use vstd::prelude::*;
use vstd::string::StringExecFns;

verus! {

/// One cookie of a request.
#[derive(Debug)]
pub struct RequestCookie {
    pub name: String,
    pub value: String,
}

/// Mathematical value of a [`RequestCookie`].
pub struct RequestCookieView {
    pub name: Seq<char>,
    pub value: Seq<char>,
}

impl View for RequestCookie {
    type V = RequestCookieView;

    open spec fn view(&self) -> RequestCookieView {
        RequestCookieView { name: self.name@, value: self.value@ }
    }
}

/// The cookies that a list stands for.
pub open spec fn cookies_of(cookies: Seq<RequestCookie>) -> Seq<RequestCookieView> {
    cookies.map_values(|cookie: RequestCookie| cookie@)
}

/// Name of the cookie that carries the access token.
pub open spec fn token_cookie_name() -> Seq<char> {
    "token"@
}

/// Name of the cookie that carries the refresh token.
pub open spec fn refresh_cookie_name() -> Seq<char> {
    "refresh_token"@
}

/// Name of the cookie that carries the session identifier.
pub open spec fn session_cookie_name() -> Seq<char> {
    "session"@
}

/// The value of the first cookie called `name`, if there is one.
pub open spec fn cookie_named(cookies: Seq<RequestCookieView>, name: Seq<char>) -> Option<
    Seq<char>,
>
    decreases cookies.len(),
{
    if cookies.len() == 0 {
        None
    } else if cookies[0].name == name {
        Some(cookies[0].value)
    } else {
        cookie_named(cookies.drop_first(), name)
    }
}

/// Looks up the value of the first cookie called `name`.
pub fn cookie_value(cookies: &Vec<RequestCookie>, name: &String) -> (r: Option<String>)
    ensures
        match r {
            Some(value) => cookie_named(cookies_of(cookies@), name@) == Some(value@),
            None => cookie_named(cookies_of(cookies@), name@) is None,
        },
{
    let ghost all = cookies_of(cookies@);
    let mut i: usize = 0;
    assert(all.subrange(0, all.len() as int) =~= all);
    while i < cookies.len()
        invariant
            i <= cookies.len(),
            all == cookies_of(cookies@),
            cookie_named(all, name@) == cookie_named(all.subrange(i as int, all.len() as int), name@),
        decreases cookies.len() - i,
    {
        let ghost rest = all.subrange(i as int, all.len() as int);
        assert(rest[0] == cookies@[i as int]@);
        assert(rest.drop_first() =~= all.subrange(i as int + 1, all.len() as int));
        if cookies[i].name == *name {
            return Some(cookies[i].value.clone());
        }
        i += 1;
    }
    assert(all.subrange(i as int, all.len() as int).len() == 0);
    None
}

/// What reading the cookie called `name` gives: its value, or
/// `NoValueInCookie` exactly when no cookie has that name.
pub open spec fn cookie_read(r: Result<String, NoValueInCookie>, cookies: Seq<RequestCookie>, name: Seq<char>) -> bool {
    match r {
        Ok(value) => cookie_named(cookies_of(cookies), name) == Some(value@),
        Err(_) => cookie_named(cookies_of(cookies), name) is None,
    }
}

/// Reads the access token from the cookie `token`.
pub fn get_token_from_cookie(cookies: &Vec<RequestCookie>) -> (r: Result<String, NoValueInCookie>)
    ensures
        cookie_read(r, cookies@, token_cookie_name()),
{
    match cookie_value(cookies, &String::from_str("token")) {
        Some(value) => Ok(value),
        None => Err(NoValueInCookie),
    }
}

/// Reads the session identifier from the cookie `session`.
pub fn get_session_uuid_from_cookie(cookies: &Vec<RequestCookie>) -> (r: Result<
    String,
    NoValueInCookie,
>)
    ensures
        cookie_read(r, cookies@, session_cookie_name()),
{
    match cookie_value(cookies, &String::from_str("session")) {
        Some(value) => Ok(value),
        None => Err(NoValueInCookie),
    }
}

/// Reads the refresh token from the cookie `refresh_token`.
pub fn extract_refresh_token(cookies: &Vec<RequestCookie>) -> (r: Result<String, NoValueInCookie>)
    ensures
        cookie_read(r, cookies@, refresh_cookie_name()),
{
    match cookie_value(cookies, &String::from_str("refresh_token")) {
        Some(value) => Ok(value),
        None => Err(NoValueInCookie),
    }
}

/// Names the question whose answer is the user that the session cookie
/// implies: who owns the session in the cookie `session`. Without that
/// cookie there is nothing to ask.
pub fn extract_user_id_from_cookie(cookies: &Vec<RequestCookie>) -> (r: Result<
    DbRequest,
    NoValueInCookie,
>)
    ensures
        match r {
            Ok(request) => cookie_named(cookies_of(cookies@), session_cookie_name()) matches Some(
                session_uuid,
            ) && request@ == (crate::db::DbRequestView::SessionOwner { session_uuid }),
            Err(_) => cookie_named(cookies_of(cookies@), session_cookie_name()) is None,
        },
{
    match get_session_uuid_from_cookie(cookies) {
        Ok(session_uuid) => Ok(DbRequest::SessionOwner { session_uuid }),
        Err(e) => Err(e),
    }
}

} // verus!
