use easycar::client::{
    authorize_request, get_csrf_token, login_form_request, lookup, Awaited, Client, LoginReply,
    LoginStep, AUTHORIZE_URL, LOGIN_URL,
};
use easycar::error::{
    CsrfTokenError, LoginError, LogoutError, NoBearerError, RefreshTokenError, TransportError,
};
use easycar::request::{Method, Payload};

fn pairs(items: &[(&str, &str)]) -> Vec<(String, String)> {
    items.iter().map(|(k, v)| (k.to_string(), v.to_string())).collect()
}

#[test]
fn refresh_takes_token_and_expiry_from_fragment() {
    let mut client = Client::new();
    let fragment = "access_token=XYZ&expires_in=120&token_type=bearer".to_string();
    let outcome = client.refresh_token(Ok(Some(fragment)), 1_700_000_000);
    assert_eq!(outcome, Ok(1_700_000_120));
    assert_eq!(client.token(), Some(&"XYZ".to_string()));
    assert_eq!(client.token_expire_date(), Some(1_700_000_120));
}

#[test]
fn expiry_is_now_plus_lifetime() {
    let mut client = Client::new();
    let now = 1_234_567;
    let outcome = client.refresh_token(Ok(Some("access_token=a&expires_in=3600".to_string())), now);
    assert_eq!(outcome, Ok(now + 3600));
    assert_eq!(client.token_expire_date(), Some(now + 3600));
}

#[test]
fn refresh_without_access_token_keeps_the_session() {
    let mut client = Client::new();
    client.refresh_token(Ok(Some("access_token=old&expires_in=10".to_string())), 100).unwrap();
    let outcome = client.refresh_token(Ok(Some("expires_in=120&token_type=bearer".to_string())), 500);
    assert_eq!(
        outcome,
        Err(RefreshTokenError::AccessTokenNotProvided(pairs(&[
            ("expires_in", "120"),
            ("token_type", "bearer"),
        ])))
    );
    assert_eq!(client.token(), Some(&"old".to_string()));
    assert_eq!(client.token_expire_date(), Some(110));
}

#[test]
fn refresh_decodes_percent_escapes() {
    let mut client = Client::new();
    let outcome = client.refresh_token(Ok(Some("access_token=a%2Fb+c&expires_in=1".to_string())), 0);
    assert_eq!(outcome, Ok(1));
    assert_eq!(client.token(), Some(&"a/b c".to_string()));
}

#[test]
fn refresh_fails_without_fragment() {
    let mut client = Client::new();
    assert_eq!(client.refresh_token(Ok(None), 0), Err(RefreshTokenError::NoFragmentProvided));
    assert_eq!(client.token(), None);
}

#[test]
fn refresh_fails_without_lifetime() {
    let mut client = Client::new();
    assert_eq!(
        client.refresh_token(Ok(Some("access_token=XYZ".to_string())), 0),
        Err(RefreshTokenError::ExpireTimeNotProvided)
    );
    assert_eq!(client.token(), None);
}

#[test]
fn refresh_fails_on_a_lifetime_that_is_no_number() {
    let mut client = Client::new();
    for text in ["soon", "", "12s", " 12", "1.5", "9223372036854775808", "-", "+"] {
        let fragment = format!("access_token=XYZ&expires_in={text}");
        assert_eq!(
            client.refresh_token(Ok(Some(fragment)), 0),
            Err(RefreshTokenError::ExpireTimeParseError)
        );
    }
    assert_eq!(client.token(), None);
}

#[test]
fn refresh_fails_on_an_expiry_past_the_range() {
    let mut client = Client::new();
    let fragment = "access_token=XYZ&expires_in=9223372036854775807".to_string();
    assert_eq!(client.refresh_token(Ok(Some(fragment)), 1), Err(RefreshTokenError::ExpireTimeParseError));
}

#[test]
fn refresh_hands_on_the_transport_failure() {
    let mut client = Client::new();
    let failure = TransportError { message: "connection reset".to_string() };
    assert_eq!(
        client.refresh_token(Err(failure.clone()), 0),
        Err(RefreshTokenError::ReqwestError(failure))
    );
}

#[test]
fn refresh_takes_the_last_of_repeated_keys() {
    let mut client = Client::new();
    let fragment = "access_token=first&expires_in=5&access_token=second".to_string();
    assert_eq!(client.refresh_token(Ok(Some(fragment)), 10), Ok(15));
    assert_eq!(client.token(), Some(&"second".to_string()));
}

#[test]
fn lookup_finds_the_last_value_of_a_key() {
    let list = pairs(&[("a", "1"), ("b", "2"), ("a", "3")]);
    assert_eq!(lookup(&list, "a"), Some(&"3".to_string()));
    assert_eq!(lookup(&list, "b"), Some(&"2".to_string()));
    assert_eq!(lookup(&list, "c"), None);
}

#[test]
fn csrf_token_is_read_from_the_hidden_field() {
    let page = r#"<html><body><form><input type="hidden" name="_csrf" value="abc123"><input name="username"></form></body></html>"#;
    assert_eq!(get_csrf_token(Ok(page.to_string())), Ok("abc123".to_string()));
}

#[test]
fn csrf_token_missing_field() {
    let page = r#"<form><input type="text" name="_csrf" value="abc123"></form>"#;
    assert_eq!(get_csrf_token(Ok(page.to_string())), Err(CsrfTokenError::TokenNotFound));
    assert_eq!(get_csrf_token(Ok(String::new())), Err(CsrfTokenError::TokenNotFound));
}

#[test]
fn csrf_token_field_without_value() {
    let page = r#"<form><input type="hidden" name="_csrf"></form>"#;
    assert_eq!(get_csrf_token(Ok(page.to_string())), Err(CsrfTokenError::TokenValueNotFound));
}

#[test]
fn csrf_token_transport_failure() {
    let failure = TransportError { message: "timed out".to_string() };
    assert_eq!(get_csrf_token(Err(failure.clone())), Err(CsrfTokenError::ReqwestError(failure)));
}

#[test]
fn login_form_carries_the_csrf_token_twice() {
    let page = r#"<input type="hidden" name="_csrf" value="abc123">"#;
    let mut client = Client::new();
    let step = client.login("jan", "secret", Some(LoginReply::Page(Ok(page.to_string()))), 0);
    let request = match step {
        LoginStep::Send(request, Awaited::Submitted) => request,
        other => panic!("unexpected step {other:?}"),
    };
    assert_eq!(request.method, Method::Post);
    assert_eq!(request.url, LOGIN_URL);
    assert_eq!(
        request.payload,
        Payload::Form(pairs(&[
            ("username", "jan"),
            ("_csrf", "abc123"),
            ("password", "secret"),
            ("_csrf", "abc123"),
        ]))
    );
    let body = request.form_body().unwrap();
    assert_eq!(body, "username=jan&_csrf=abc123&password=secret&_csrf=abc123");
    assert_eq!(body.matches("_csrf=abc123").count(), 2);
}

#[test]
fn form_body_escapes_what_it_must() {
    let request = login_form_request("a b", "p&q=r", "t/1");
    assert_eq!(request.form_body().unwrap(), "username=a+b&_csrf=t%2F1&password=p%26q%3Dr&_csrf=t%2F1");
    assert_eq!(authorize_request().form_body(), None);
}

#[test]
fn login_walks_through_its_steps() {
    let mut client = Client::new();
    let first = client.login("jan", "secret", None, 0);
    match first {
        LoginStep::Send(request, awaited) => {
            assert_eq!(awaited, Awaited::Page);
            assert_eq!(request.method, Method::Get);
            assert_eq!(request.url, LOGIN_URL);
            assert_eq!(request.payload, Payload::Empty);
        }
        other => panic!("unexpected step {other:?}"),
    }
    let third = client.login("jan", "secret", Some(LoginReply::Submitted(Ok(()))), 0);
    match third {
        LoginStep::Send(request, awaited) => {
            assert_eq!(awaited, Awaited::Redirected);
            assert_eq!(request.method, Method::Get);
            assert_eq!(request.url, AUTHORIZE_URL);
            assert_eq!(
                request.query,
                pairs(&[
                    ("response_type", "id_token token"),
                    ("client_id", "client"),
                    ("redirect_uri", "https://info-car.pl/new/assets/refresh.html"),
                    ("scope", "openid profile email resource.read"),
                    ("prompt", "none"),
                ])
            );
        }
        other => panic!("unexpected step {other:?}"),
    }
    assert_eq!(client.token(), None);
    let last = client.login(
        "jan",
        "secret",
        Some(LoginReply::Redirected(Ok(Some("access_token=T&expires_in=60".to_string())))),
        1000,
    );
    assert_eq!(last, LoginStep::Done(1060));
    assert_eq!(client.token(), Some(&"T".to_string()));
}

#[test]
fn login_fails_with_the_step_that_failed() {
    let mut client = Client::new();
    let failure = TransportError { message: "down".to_string() };
    assert_eq!(
        client.login("u", "p", Some(LoginReply::Page(Err(failure.clone()))), 0),
        LoginStep::Failed(LoginError::CsrfTokenError(CsrfTokenError::ReqwestError(failure.clone())))
    );
    assert_eq!(
        client.login("u", "p", Some(LoginReply::Page(Ok("<p>hello</p>".to_string()))), 0),
        LoginStep::Failed(LoginError::CsrfTokenError(CsrfTokenError::TokenNotFound))
    );
    assert_eq!(
        client.login("u", "p", Some(LoginReply::Submitted(Err(failure.clone()))), 0),
        LoginStep::Failed(LoginError::ReqwestError(failure))
    );
    assert_eq!(
        client.login("u", "p", Some(LoginReply::Redirected(Ok(None))), 0),
        LoginStep::Failed(LoginError::TokenGetError(RefreshTokenError::NoFragmentProvided))
    );
    assert_eq!(client.token(), None);
}

#[test]
fn logout_clears_token_and_expiry() {
    let mut client = Client::new();
    assert_eq!(client.logout_request(), Err(LogoutError::NoBearer(NoBearerError)));
    assert_eq!(client.logout(Ok(())), Err(LogoutError::NoBearer(NoBearerError)));
    client.refresh_token(Ok(Some("access_token=T&expires_in=60".to_string())), 0).unwrap();
    let request = client.logout_request().unwrap();
    assert_eq!(request.url, "https://info-car.pl/oauth2/endsession?id_token_hint=T");
    let failure = TransportError { message: "down".to_string() };
    assert_eq!(client.logout(Err(failure.clone())), Err(LogoutError::ReqwestError(failure)));
    assert_eq!(client.token(), Some(&"T".to_string()));
    assert_eq!(client.logout(Ok(())), Ok(()));
    assert_eq!(client.token(), None);
    assert_eq!(client.token_expire_date(), None);
}

#[test]
fn set_token_keeps_the_expiry() {
    let mut client = Client::new();
    client.set_token("first".to_string());
    assert_eq!(client.token(), Some(&"first".to_string()));
    assert_eq!(client.token_expire_date(), None);
    assert_eq!(client.bearer(), Ok(&"first".to_string()));
    assert_eq!(Client::new().bearer(), Err(NoBearerError));
}
