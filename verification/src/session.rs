//! The session negotiator: what to ask of the join endpoint, and what its
//! answers mean.
//!
//! The HTTP exchange itself is the driver's. It hands over the cookies that a
//! response set, or the status that a login was answered with.

use vstd::prelude::*;
use vstd::string::StringExecFns;
use crate::error::{ClientFault, FoundryClientError};
use crate::text::{
    first_position,
    is_first_position,
    join2,
    lemma_first_position_absent,
    lemma_first_position_found,
    lemma_first_position_sound,
    str_eq,
};

verus! {

/// One cookie that a response set.
#[derive(Debug, PartialEq, Eq)]
pub struct Cookie {
    pub name: String,
    pub value: String,
}

/// The mathematical value of a [`Cookie`].
pub struct CookieView {
    pub name: Seq<char>,
    pub value: Seq<char>,
}

impl View for Cookie {
    type V = CookieView;

    open spec fn view(&self) -> CookieView {
        CookieView { name: self.name@, value: self.value@ }
    }
}

impl DeepView for Cookie {
    type V = CookieView;

    open spec fn deep_view(&self) -> CookieView {
        self@
    }
}

/// The join endpoint of the server at `host`.
pub open spec fn join_endpoint(host: Seq<char>) -> Seq<char> {
    host + "/join"@
}

/// The URL of the join endpoint of the server at `host`: the target of the
/// request that acquires a session and of the one that logs in.
pub fn join_url(host: &str) -> (url: String)
    ensures
        url@ == join_endpoint(host@),
{
    join2(host, "/join")
}

/// The names of cookies, in order.
pub open spec fn cookie_names(cookies: Seq<CookieView>) -> Seq<Seq<char>> {
    Seq::new(cookies.len(), |i: int| cookies[i].name)
}

/// The session token among the cookies of a response: the value of the first
/// cookie named `session`.
pub open spec fn session_in(cookies: Seq<CookieView>) -> Option<Seq<char>> {
    match first_position(cookie_names(cookies), "session"@) {
        Some(i) => Some(cookies[i].value),
        None => None,
    }
}

/// Extracts the session token from the cookies that the join endpoint set.
///
/// Fails with `SessionError` exactly where no cookie is named `session`.
pub fn session_from_cookies(cookies: &Vec<Cookie>) -> (token: Result<String, FoundryClientError>)
    ensures
        match token {
            Ok(token) => session_in(cookies.deep_view()) == Some(token@),
            Err(fault) => session_in(cookies.deep_view()) is None && fault@
                == ClientFault::SessionError,
        },
{
    let ghost names = cookie_names(cookies.deep_view());
    let mut i: usize = 0;
    while i < cookies.len()
        invariant
            i <= cookies@.len(),
            names == cookie_names(cookies.deep_view()),
            names.len() == cookies@.len(),
            forall|j: int| 0 <= j < i ==> names[j] != "session"@,
        decreases cookies@.len() - i,
    {
        if str_eq(cookies[i].name.as_str(), "session") {
            proof {
                assert(is_first_position(names, "session"@, i as int));
                lemma_first_position_found(names, "session"@, i as int);
            }
            return Ok(cookies[i].value.clone());
        }
        i += 1;
    }
    proof {
        lemma_first_position_absent(names, "session"@);
    }
    Err(FoundryClientError::SessionError)
}

/// A response that sets a cookie named `session` yields a token, and one that
/// sets none yields none. The token is the value of the first such cookie: so
/// it is non-empty wherever no cookie named `session` has an empty value.
pub proof fn law_session_cookie_decides(cookies: Seq<CookieView>)
    ensures
        session_in(cookies) is Some <==> exists|i: int|
            0 <= i < cookies.len() && (#[trigger] cookies[i]).name == "session"@,
        (forall|i: int|
            0 <= i < cookies.len() && (#[trigger] cookies[i]).name == "session"@
                ==> cookies[i].value.len() > 0) ==> (session_in(cookies) matches Some(token)
            ==> token.len() > 0),
{
    let names = cookie_names(cookies);
    lemma_first_position_sound(names, "session"@);
    match first_position(names, "session"@) {
        Some(i) => {
            assert(cookies[i].name == "session"@);
        },
        None => {
            assert forall|i: int| 0 <= i < cookies.len() implies (#[trigger] cookies[i]).name
                != "session"@ by {
                assert(names[i] != "session"@);
            }
        },
    }
}

/// The body of a login request.
#[derive(Debug, PartialEq, Eq)]
pub struct LoginForm {
    /// The identity to log in as; absent where none was resolved.
    pub userid: Option<String>,
    pub password: String,
    pub action: String,
}

/// The mathematical value of a [`LoginForm`].
pub struct LoginFormView {
    pub userid: Option<Seq<char>>,
    pub password: Seq<char>,
    pub action: Seq<char>,
}

impl View for LoginForm {
    type V = LoginFormView;

    open spec fn view(&self) -> LoginFormView {
        LoginFormView {
            userid: self.userid.deep_view(),
            password: self.password@,
            action: self.action@,
        }
    }
}

/// The body that logs `userid` in with `password`: the action is `join`.
pub open spec fn login_form_for(userid: Option<Seq<char>>, password: Seq<char>) -> LoginFormView {
    LoginFormView { userid: userid, password: password, action: "join"@ }
}

impl LoginForm {
    /// The body that logs `userid` in with `password`.
    pub fn new(userid: Option<String>, password: &str) -> (form: LoginForm)
        ensures
            form@ == login_form_for(userid.deep_view(), password@),
    {
        LoginForm {
            userid,
            password: String::from_str(password),
            action: String::from_str("join"),
        }
    }
}

/// A login request: where to post, and what.
#[derive(Debug, PartialEq, Eq)]
pub struct LoginRequest {
    pub url: String,
    pub form: LoginForm,
}

/// The mathematical value of a [`LoginRequest`].
pub struct LoginRequestView {
    pub url: Seq<char>,
    pub form: LoginFormView,
}

impl View for LoginRequest {
    type V = LoginRequestView;

    open spec fn view(&self) -> LoginRequestView {
        LoginRequestView { url: self.url@, form: self.form@ }
    }
}

impl DeepView for LoginRequest {
    type V = LoginRequestView;

    open spec fn deep_view(&self) -> LoginRequestView {
        self@
    }
}

/// Whether an HTTP status reports success.
pub open spec fn is_success(status: u16) -> bool {
    200 <= status < 300
}

/// What the status that a login was answered with means: the login stands
/// on a success status, and is rejected with `AuthError` on any other.
pub fn login_verdict(status: u16) -> (verdict: Result<(), FoundryClientError>)
    ensures
        match verdict {
            Ok(_) => is_success(status),
            Err(fault) => !is_success(status) && fault@ == ClientFault::AuthError(status),
        },
{
    if 200 <= status && status < 300 {
        Ok(())
    } else {
        Err(FoundryClientError::AuthError(status))
    }
}

} // verus!
