use foundry_client::error::FoundryClientError;
use foundry_client::session::{join_url, login_verdict, session_from_cookies, Cookie, LoginForm};

fn cookie(name: &str, value: &str) -> Cookie {
    Cookie { name: name.to_string(), value: value.to_string() }
}

#[test]
fn join_url_appends_the_join_path() {
    assert_eq!(join_url("http://vtt.test"), "http://vtt.test/join");
    assert_eq!(join_url("https://example.net/game"), "https://example.net/game/join");
    assert_eq!(join_url(""), "/join");
}

#[test]
fn session_cookie_yields_its_value() {
    let jar = vec![cookie("session", "abc123")];
    assert_eq!(session_from_cookies(&jar), Ok("abc123".to_string()));
}

#[test]
fn session_cookie_is_found_among_others() {
    let jar = vec![cookie("theme", "dark"), cookie("session", "s-42"), cookie("lang", "en")];
    assert_eq!(session_from_cookies(&jar), Ok("s-42".to_string()));
}

#[test]
fn first_session_cookie_wins() {
    let jar = vec![cookie("session", "first"), cookie("session", "second")];
    assert_eq!(session_from_cookies(&jar), Ok("first".to_string()));
}

#[test]
fn missing_session_cookie_is_a_session_error() {
    let jar = vec![cookie("theme", "dark"), cookie("Session", "wrong-case")];
    assert_eq!(session_from_cookies(&jar), Err(FoundryClientError::SessionError));
}

#[test]
fn empty_cookie_jar_is_a_session_error() {
    assert_eq!(session_from_cookies(&Vec::new()), Err(FoundryClientError::SessionError));
}

#[test]
fn session_cookie_without_value_yields_the_empty_token() {
    let jar = vec![cookie("session", "")];
    assert_eq!(session_from_cookies(&jar), Ok(String::new()));
}

#[test]
fn login_form_joins_as_the_identity() {
    let form = LoginForm::new(Some("u1".to_string()), "secret");
    assert_eq!(form.userid, Some("u1".to_string()));
    assert_eq!(form.password, "secret");
    assert_eq!(form.action, "join");
}

#[test]
fn login_form_without_identity_has_no_userid() {
    let form = LoginForm::new(None, "");
    assert_eq!(form.userid, None);
    assert_eq!(form.password, "");
    assert_eq!(form.action, "join");
}

#[test]
fn login_stands_on_success_statuses() {
    assert_eq!(login_verdict(200), Ok(()));
    assert_eq!(login_verdict(204), Ok(()));
    assert_eq!(login_verdict(299), Ok(()));
}

#[test]
fn login_is_rejected_on_other_statuses() {
    assert_eq!(login_verdict(199), Err(FoundryClientError::AuthError(199)));
    assert_eq!(login_verdict(300), Err(FoundryClientError::AuthError(300)));
    assert_eq!(login_verdict(401), Err(FoundryClientError::AuthError(401)));
    assert_eq!(login_verdict(500), Err(FoundryClientError::AuthError(500)));
    assert_eq!(login_verdict(0), Err(FoundryClientError::AuthError(0)));
}
