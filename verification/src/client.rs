//! The session with the booking service: the token, its expiry, and the
//! steps by which both are won and renewed.

use vstd::prelude::*;
use crate::error::{
    CsrfTokenError, EnrollError, GenericClientError, LoginError, LogoutError, NoBearerError,
    RefreshTokenError, TransportError,
};
use crate::request::{
    pair, pair_texts, plain_call, Method, PairView, Payload, PayloadView, Request, RequestView,
};
use crate::text::{concat, decimal_text, parse_i64, spec_parse_i64, str_eq, u64_to_decimal};
use crate::types::endpoint::EndpointResponse;
use crate::types::license_category::LicenseCategory;
use crate::types::reservation::new::NewReservation;
use crate::types::unit_id::UnitId;

pub use crate::types::user_info::UserInfo;

verus! {

/// Where the login page is, and where its form is sent.
pub const LOGIN_URL: &'static str = "https://info-car.pl/oauth2/login";

/// Where a token is asked for.
pub const AUTHORIZE_URL: &'static str = "https://info-car.pl/oauth2/authorize";

/// Where the service sends the browser once it has granted a token.
pub const REDIRECT_URI: &'static str = "https://info-car.pl/new/assets/refresh.html";

/// The value that `pairs` give to `key`: that of the last pair with this
/// key, as in a map filled pair by pair.
pub open spec fn value_of(pairs: Seq<PairView>, key: Seq<char>) -> Option<Seq<char>>
    decreases pairs.len(),
{
    if pairs.len() == 0 {
        None
    } else if pairs.last().0 == key {
        Some(pairs.last().1)
    } else {
        value_of(pairs.drop_last(), key)
    }
}

/// Looks up the value that `pairs` give to `key`.
pub fn lookup<'a>(pairs: &'a Vec<(String, String)>, key: &str) -> (value: Option<&'a String>)
    ensures
        value is Some <==> value_of(pair_texts(pairs@), key@) is Some,
        value matches Some(v) ==> value_of(pair_texts(pairs@), key@) == Some(v@),
{
    let mut i: usize = pairs.len();
    assert(pair_texts(pairs@).take(i as int) == pair_texts(pairs@));
    while i > 0
        invariant
            i <= pairs.len(),
            value_of(pair_texts(pairs@), key@) == value_of(pair_texts(pairs@).take(i as int), key@),
        decreases i,
    {
        i -= 1;
        let ghost upto = pair_texts(pairs@).take(i + 1);
        assert(upto.drop_last() == pair_texts(pairs@).take(i as int));
        assert(upto.last() == (pairs@[i as int].0@, pairs@[i as int].1@));
        if str_eq(pairs[i].0.as_str(), key) {
            return Some(&pairs[i].1);
        }
    }
    None
}

/// The keys and values that a fragment holds when it is read as a form
/// (`application/x-www-form-urlencoded`), in order; `None` where it cannot
/// be read so.
pub uninterp spec fn urlencoded_pairs(input: Seq<char>) -> Option<Seq<PairView>>;

/// Reads `input` as a form with `serde_urlencoded::from_str`, into a list of
/// pairs of strings. The contract names what the decoder gives and says no
/// more of it; of a failure it keeps the decoder's words.
#[verifier::external_body]
fn decode_urlencoded(input: &str) -> (decoded: Result<Vec<(String, String)>, String>)
    ensures
        match decoded {
            Ok(pairs) => urlencoded_pairs(input@) == Some(pair_texts(pairs@)),
            Err(_) => urlencoded_pairs(input@) is None,
        },
{
    serde_urlencoded::from_str::<Vec<(String, String)>>(input).map_err(|e| e.to_string())
}

/// The hidden field of the login page that is named `_csrf`: `None` where
/// the page has no such field, `Some(None)` where the first such field has
/// no value, else the value of the first.
pub uninterp spec fn csrf_field(page: Seq<char>) -> Option<Option<Seq<char>>>;

/// The text of a field that was looked for.
pub open spec fn field_text(field: Option<Option<String>>) -> Option<Option<Seq<char>>> {
    match field {
        None => None,
        Some(None) => Some(None),
        Some(Some(value)) => Some(Some(value@)),
    }
}

/// Looks for the anti-forgery field with `scraper`: parses the page as a
/// fragment (`Html::parse_fragment`), selects the hidden inputs named
/// `_csrf` (`Selector::parse`, `Html::select`) and reads the attribute
/// `value` of the first (`Element::attr`). The contract names what the
/// parser finds and says no more of it.
#[verifier::external_body]
fn find_csrf_field(page: &str) -> (field: Option<Option<String>>)
    ensures
        field_text(field) == csrf_field(page@),
{
    let fragment = scraper::Html::parse_fragment(page);
    let selector = scraper::Selector::parse("input[type=\"hidden\"][name=\"_csrf\"]").unwrap();
    fragment.select(&selector).next().map(|e| e.value().attr("value").map(|v| v.to_owned()))
}

/// Why a field gives no anti-forgery token, without the transport's words.
pub enum CsrfFailure {
    TokenNotFound,
    TokenValueNotFound,
}

/// The anti-forgery token that the field holds, or why it holds none.
pub open spec fn csrf_of(field: Option<Option<Seq<char>>>) -> Result<Seq<char>, CsrfFailure> {
    match field {
        None => Err(CsrfFailure::TokenNotFound),
        Some(None) => Err(CsrfFailure::TokenValueNotFound),
        Some(Some(value)) => Ok(value),
    }
}

/// The failure that `error` is; `None` for a failure of the transport.
pub open spec fn csrf_failure(error: CsrfTokenError) -> Option<CsrfFailure> {
    match error {
        CsrfTokenError::ReqwestError(_) => None,
        CsrfTokenError::TokenNotFound => Some(CsrfFailure::TokenNotFound),
        CsrfTokenError::TokenValueNotFound => Some(CsrfFailure::TokenValueNotFound),
    }
}

/// Takes the anti-forgery token out of the field that was looked for.
pub fn csrf_from_field(field: Option<Option<String>>) -> (token: Result<String, CsrfTokenError>)
    ensures
        match csrf_of(field_text(field)) {
            Ok(value) => token matches Ok(t) && t@ == value,
            Err(failure) => token matches Err(e) && csrf_failure(e) == Some(failure),
        },
{
    match field {
        None => Err(CsrfTokenError::TokenNotFound),
        Some(None) => Err(CsrfTokenError::TokenValueNotFound),
        Some(Some(value)) => Ok(value),
    }
}

/// Takes the anti-forgery token out of what fetching the login page came
/// to: the page's text, or the transport's failure.
pub fn get_csrf_token(page: Result<String, TransportError>) -> (token: Result<String, CsrfTokenError>)
    ensures
        match page {
            Err(failure) => token == Err::<String, CsrfTokenError>(
                CsrfTokenError::ReqwestError(failure),
            ),
            Ok(text) => match csrf_of(csrf_field(text@)) {
                Ok(value) => token matches Ok(t) && t@ == value,
                Err(failure) => token matches Err(e) && csrf_failure(e) == Some(failure),
            },
        },
{
    match page {
        Err(failure) => Err(CsrfTokenError::ReqwestError(failure)),
        Ok(text) => csrf_from_field(find_csrf_field(text.as_str())),
    }
}

/// The form that logs `username` in: the anti-forgery token stands in it
/// twice, before the password and after it, as the service asks.
pub open spec fn login_form(username: Seq<char>, password: Seq<char>, csrf: Seq<char>) -> Seq<PairView> {
    seq![("username"@, username), ("_csrf"@, csrf), ("password"@, password), ("_csrf"@, csrf)]
}

/// The parameters of the call that asks for a token without prompting.
pub open spec fn authorize_query() -> Seq<PairView> {
    seq![
        ("response_type"@, "id_token token"@),
        ("client_id"@, "client"@),
        ("redirect_uri"@, REDIRECT_URI@),
        ("scope"@, "openid profile email resource.read"@),
        ("prompt"@, "none"@),
    ]
}

/// The call that fetches the login page.
pub fn login_page_request() -> (request: Request)
    ensures
        request@ == plain_call(Method::Get, LOGIN_URL@, None),
{
    Request::plain(Method::Get, LOGIN_URL.to_owned(), None)
}

/// The call that submits the login form.
pub fn login_form_request(username: &str, password: &str, csrf: &str) -> (request: Request)
    ensures
        request@ == (RequestView {
            method: Method::Post,
            url: LOGIN_URL@,
            query: Seq::empty(),
            bearer: None,
            payload: PayloadView::Form(login_form(username@, password@, csrf@)),
        }),
{
    let mut form: Vec<(String, String)> = Vec::new();
    form.push(pair("username", username));
    form.push(pair("_csrf", csrf));
    form.push(pair("password", password));
    form.push(pair("_csrf", csrf));
    assert(pair_texts(form@) =~= login_form(username@, password@, csrf@));
    let request = Request {
        method: Method::Post,
        url: LOGIN_URL.to_owned(),
        query: Vec::new(),
        bearer: None,
        payload: Payload::Form(form),
    };
    assert(request@.query =~= Seq::empty());
    request
}

/// The call that asks for a token on the strength of the session's cookies,
/// without prompting.
pub fn authorize_request() -> (request: Request)
    ensures
        request@ == (RequestView {
            method: Method::Get,
            url: AUTHORIZE_URL@,
            query: authorize_query(),
            bearer: None,
            payload: PayloadView::Empty,
        }),
{
    let mut query: Vec<(String, String)> = Vec::new();
    query.push(pair("response_type", "id_token token"));
    query.push(pair("client_id", "client"));
    query.push(pair("redirect_uri", REDIRECT_URI));
    query.push(pair("scope", "openid profile email resource.read"));
    query.push(pair("prompt", "none"));
    assert(pair_texts(query@) =~= authorize_query());
    Request {
        method: Method::Get,
        url: AUTHORIZE_URL.to_owned(),
        query,
        bearer: None,
        payload: Payload::Empty,
    }
}

/// What is known of a session: the token, and the point in time, in seconds
/// since the epoch, at which it expires.
pub struct SessionView {
    pub token: Option<Seq<char>>,
    pub expires_at: Option<int>,
}

impl SessionView {
    /// An expiry is only known of a token that is held.
    pub open spec fn well_formed(self) -> bool {
        self.expires_at is Some ==> self.token is Some
    }
}

/// The session with the booking service.
pub struct Client {
    token: Option<String>,
    token_expire_date: Option<i64>,
}

/// Why a fragment gives no token, without what the failure carries along.
pub enum RefreshFailure {
    NoFragmentProvided,
    UrlFragmentParseError,
    AccessTokenNotProvided(Seq<PairView>),
    ExpireTimeNotProvided,
    ExpireTimeParseError,
}

/// The failure that `error` is; `None` for a failure of the transport.
pub open spec fn refresh_failure(error: RefreshTokenError) -> Option<RefreshFailure> {
    match error {
        RefreshTokenError::ReqwestError(_) => None,
        RefreshTokenError::NoFragmentProvided => Some(RefreshFailure::NoFragmentProvided),
        RefreshTokenError::UrlFragmentParseError(_) => Some(RefreshFailure::UrlFragmentParseError),
        RefreshTokenError::AccessTokenNotProvided(pairs) => Some(
            RefreshFailure::AccessTokenNotProvided(pair_texts(pairs@)),
        ),
        RefreshTokenError::ExpireTimeNotProvided => Some(RefreshFailure::ExpireTimeNotProvided),
        RefreshTokenError::ExpireTimeParseError => Some(RefreshFailure::ExpireTimeParseError),
    }
}

/// The expiry of a token won at `now` whose lifetime is written as
/// `lifetime`: `now` and the lifetime in seconds together. `None` where the
/// lifetime is no decimal number or the sum is past what 64 bits count.
pub open spec fn expiry_of(now: int, lifetime: Seq<char>) -> Option<int> {
    match spec_parse_i64(lifetime) {
        Some(seconds) => if i64::MIN <= now + seconds <= i64::MAX {
            Some(now + seconds)
        } else {
            None
        },
        None => None,
    }
}

/// The token and its expiry that the decoded fragment `pairs` grants at
/// `now`, or why it grants none.
pub open spec fn granted(pairs: Seq<PairView>, now: int) -> Result<(Seq<char>, int), RefreshFailure> {
    match value_of(pairs, "access_token"@) {
        None => Err(RefreshFailure::AccessTokenNotProvided(pairs)),
        Some(token) => match value_of(pairs, "expires_in"@) {
            None => Err(RefreshFailure::ExpireTimeNotProvided),
            Some(lifetime) => match expiry_of(now, lifetime) {
                None => Err(RefreshFailure::ExpireTimeParseError),
                Some(expires_at) => Ok((token, expires_at)),
            },
        },
    }
}

/// What the fragment of the answer's address grants at `now`.
pub open spec fn granted_by_fragment(fragment: Option<Seq<char>>, now: int) -> Result<
    (Seq<char>, int),
    RefreshFailure,
> {
    match fragment {
        None => Err(RefreshFailure::NoFragmentProvided),
        Some(text) => match urlencoded_pairs(text) {
            None => Err(RefreshFailure::UrlFragmentParseError),
            Some(pairs) => granted(pairs, now),
        },
    }
}

/// What a silent refresh comes to, from the session `before` to the
/// session `after`. A failure of the transport is handed on. A fragment that
/// grants a token puts the token and its expiry into the session and gives
/// the expiry. Any other fragment, and a missing one, fails with the reason,
/// and the session stays as it was.
pub open spec fn refresh_outcome(
    before: SessionView,
    after: SessionView,
    redirect: Result<Option<String>, TransportError>,
    now: i64,
    outcome: Result<i64, RefreshTokenError>,
) -> bool {
    match redirect {
        Err(failure) => outcome == Err::<i64, RefreshTokenError>(
            RefreshTokenError::ReqwestError(failure),
        ) && after == before,
        Ok(fragment) => match granted_by_fragment(
            match fragment {
                Some(f) => Some(f@),
                None => None,
            },
            now as int,
        ) {
            Ok((token, expires_at)) => outcome matches Ok(given) && given == expires_at && after == (
            SessionView { token: Some(token), expires_at: Some(expires_at) }),
            Err(failure) => outcome matches Err(e) && refresh_failure(e) == Some(failure) && after
                == before,
        },
    }
}

/// The token and the expiry that a silent refresh wins at `now`, where it
/// wins any.
pub open spec fn grant(redirect: Result<Option<String>, TransportError>, now: i64) -> Option<
    (Seq<char>, int),
> {
    match redirect {
        Ok(Some(fragment)) => match granted_by_fragment(Some(fragment@), now as int) {
            Ok(won) => Some(won),
            Err(_) => None,
        },
        _ => None,
    }
}

/// What came back from the step of a login that was taken last.
#[derive(Debug, PartialEq, Eq)]
pub enum LoginReply {
    /// The login page was fetched: its text, or the transport's failure.
    Page(Result<String, TransportError>),
    /// The login form was sent, or the transport failed.
    Submitted(Result<(), TransportError>),
    /// The authorisation call ended: the fragment of the address at which
    /// the redirects ended, or the transport's failure.
    Redirected(Result<Option<String>, TransportError>),
}

/// What is to be brought back from a call.
#[derive(Clone, Copy, Debug, PartialEq, Eq, Structural)]
pub enum Awaited {
    /// The text of the answer: the login page.
    Page,
    /// No more than that the call went through.
    Submitted,
    /// The fragment of the address at which the redirects ended.
    Redirected,
}

/// What a login does next.
#[derive(Debug, PartialEq, Eq)]
pub enum LoginStep {
    /// Make this call and come back with what is awaited of it.
    Send(Request, Awaited),
    /// The login is complete; the token expires at this point in time.
    Done(i64),
    /// The login failed.
    Failed(LoginError),
}

/// The step that follows the fetching of the login page.
pub open spec fn after_page(
    username: Seq<char>,
    password: Seq<char>,
    page: Result<String, TransportError>,
    step: LoginStep,
) -> bool {
    match page {
        Err(failure) => step == LoginStep::Failed(
            LoginError::CsrfTokenError(CsrfTokenError::ReqwestError(failure)),
        ),
        Ok(text) => match csrf_of(csrf_field(text@)) {
            Ok(csrf) => step matches LoginStep::Send(request, Awaited::Submitted) && request@ == (RequestView {
                method: Method::Post,
                url: LOGIN_URL@,
                query: Seq::empty(),
                bearer: None,
                payload: PayloadView::Form(login_form(username, password, csrf)),
            }),
            Err(failure) => step matches LoginStep::Failed(LoginError::CsrfTokenError(e))
                && csrf_failure(e) == Some(failure),
        },
    }
}

/// The step that follows the authorisation call.
pub open spec fn after_redirect(
    before: SessionView,
    after: SessionView,
    redirect: Result<Option<String>, TransportError>,
    now: i64,
    step: LoginStep,
) -> bool {
    match step {
        LoginStep::Done(expires_at) => refresh_outcome(
            before,
            after,
            redirect,
            now,
            Ok(expires_at),
        ),
        LoginStep::Failed(LoginError::TokenGetError(e)) => refresh_outcome(
            before,
            after,
            redirect,
            now,
            Err(e),
        ),
        _ => false,
    }
}

/// What one step of a login comes to, from the session `before` to the
/// session `after`. With no reply the login page is fetched. With the page,
/// the form is sent, or the login fails for want of the anti-forgery token.
/// With the form sent, a token is asked for. With the end of that call, the
/// login is done, or it fails as a refresh fails. The session changes with
/// the last step alone, and only where a token is granted.
pub open spec fn login_outcome(
    before: SessionView,
    after: SessionView,
    username: Seq<char>,
    password: Seq<char>,
    reply: Option<LoginReply>,
    now: i64,
    step: LoginStep,
) -> bool {
    match reply {
        None => step matches LoginStep::Send(request, Awaited::Page) && request@ == plain_call(
            Method::Get,
            LOGIN_URL@,
            None,
        ) && after == before,
        Some(LoginReply::Page(page)) => after_page(username, password, page, step) && after
            == before,
        Some(LoginReply::Submitted(Err(failure))) => step == LoginStep::Failed(
            LoginError::ReqwestError(failure),
        ) && after == before,
        Some(LoginReply::Submitted(Ok(_))) => step matches LoginStep::Send(
            request,
            Awaited::Redirected,
        ) && request@ == (RequestView {
            method: Method::Get,
            url: AUTHORIZE_URL@,
            query: authorize_query(),
            bearer: None,
            payload: PayloadView::Empty,
        }) && after == before,
        Some(LoginReply::Redirected(redirect)) => after_redirect(before, after, redirect, now, step),
    }
}

/// Where a session is ended.
pub const END_SESSION_URL: &'static str = "https://info-car.pl/oauth2/endsession?id_token_hint=";

/// Where the account's details are read.
pub const USER_INFO_URL: &'static str = "https://info-car.pl/oauth2/userinfo";

/// Where reservations are listed and made.
pub const RESERVATIONS_URL: &'static str = "https://info-car.pl/api/word/reservations";

/// Where the exam centres are listed.
pub const WORD_CENTERS_URL: &'static str = "https://info-car.pl/api/word/word-centers";

/// Where a centre says whether it reschedules.
pub const RESCHEDULE_ENABLED_URL: &'static str =
    "https://info-car.pl/api/word/word-centers/reschedule-enabled/";

/// Where a centre's schedule is asked for.
pub const EXAM_SCHEDULE_URL: &'static str = "https://info-car.pl/api/word/word-centers/exam-schedule";

/// The fields of the call that asks for a centre's schedule.
pub open spec fn exam_schedule_fields(
    word_id: Seq<char>,
    start_date: Seq<char>,
    end_date: Seq<char>,
    category: LicenseCategory,
) -> Seq<PairView> {
    seq![
        ("category"@, category.name()),
        ("endDate"@, end_date),
        ("startDate"@, start_date),
        ("wordId"@, word_id),
    ]
}

impl View for Client {
    type V = SessionView;

    closed spec fn view(&self) -> SessionView {
        SessionView {
            token: match self.token {
                Some(t) => Some(t@),
                None => None,
            },
            expires_at: match self.token_expire_date {
                Some(e) => Some(e as int),
                None => None,
            },
        }
    }
}

impl Client {
    #[verifier::type_invariant]
    spec fn expiry_has_token(self) -> bool {
        self.token_expire_date is Some ==> self.token is Some
    }

    /// A session that holds no token yet.
    pub fn new() -> (client: Self)
        ensures
            client@ == (SessionView { token: None, expires_at: None }),
    {
        Client { token: None, token_expire_date: None }
    }

    /// Whatever was done to a session, it knows an expiry only of a token
    /// that it holds.
    pub fn assert_well_formed(&self)
        ensures
            self@.well_formed(),
    {
        proof {
            use_type_invariant(self);
        }
    }

    /// Holds `token` from now on; the expiry stays what it was.
    pub fn set_token(&mut self, token: String)
        ensures
            final(self)@ == (SessionView { token: Some(token@), expires_at: old(self)@.expires_at }),
    {
        proof {
            use_type_invariant(&*self);
        }
        self.token = Some(token);
    }

    /// The token that is held, whether or not it has expired.
    pub fn token(&self) -> (token: Option<&String>)
        ensures
            token is Some <==> self@.token is Some,
            token matches Some(t) ==> self@.token == Some(t@),
    {
        self.token.as_ref()
    }

    /// The token for a call that needs one.
    pub fn bearer(&self) -> (token: Result<&String, NoBearerError>)
        ensures
            token is Ok <==> self@.token is Some,
            token matches Ok(t) ==> self@.token == Some(t@),
    {
        match &self.token {
            Some(t) => Ok(t),
            None => Err(NoBearerError),
        }
    }

    /// The point in time at which the token expires, where one was granted.
    pub fn token_expire_date(&self) -> (expires_at: Option<i64>)
        ensures
            expires_at is Some <==> self@.expires_at is Some,
            expires_at matches Some(e) ==> self@.expires_at == Some(e as int),
    {
        self.token_expire_date
    }

    /// Takes the token and the lifetime out of a decoded fragment. Where the
    /// fragment grants a token, the session holds it from now on, with the
    /// expiry `now` plus the lifetime, and the expiry is returned. Where it
    /// grants none, the session stays as it was.
    pub fn refresh_from_pairs(&mut self, pairs: Vec<(String, String)>, now: i64) -> (outcome: Result<
        i64,
        RefreshTokenError,
    >)
        ensures
            match granted(pair_texts(pairs@), now as int) {
                Ok((token, expires_at)) => outcome matches Ok(given) && given == expires_at
                    && final(self)@ == (SessionView {
                    token: Some(token),
                    expires_at: Some(expires_at),
                }),
                Err(failure) => outcome matches Err(e) && refresh_failure(e) == Some(failure)
                    && final(self)@ == old(self)@,
            },
    {
        proof {
            use_type_invariant(&*self);
        }
        let token = match lookup(&pairs, "access_token") {
            Some(t) => t.clone(),
            None => {
                return Err(RefreshTokenError::AccessTokenNotProvided(pairs));
            },
        };
        let lifetime = match lookup(&pairs, "expires_in") {
            Some(text) => match parse_i64(text.as_str()) {
                Some(seconds) => seconds,
                None => {
                    return Err(RefreshTokenError::ExpireTimeParseError);
                },
            },
            None => {
                return Err(RefreshTokenError::ExpireTimeNotProvided);
            },
        };
        let expires_at = match now.checked_add(lifetime) {
            Some(e) => e,
            None => {
                return Err(RefreshTokenError::ExpireTimeParseError);
            },
        };
        self.token = Some(token);
        self.token_expire_date = Some(expires_at);
        Ok(expires_at)
    }

    /// Completes a silent refresh from what the authorisation call came to:
    /// the fragment of the address at which the redirects ended, or the
    /// transport's failure. `now` is the time of the call's return.
    pub fn refresh_token(
        &mut self,
        redirect: Result<Option<String>, TransportError>,
        now: i64,
    ) -> (outcome: Result<i64, RefreshTokenError>)
        ensures
            refresh_outcome(old(self)@, final(self)@, redirect, now, outcome),
    {
        let fragment = match redirect {
            Ok(Some(f)) => f,
            Ok(None) => {
                return Err(RefreshTokenError::NoFragmentProvided);
            },
            Err(failure) => {
                return Err(RefreshTokenError::ReqwestError(failure));
            },
        };
        match decode_urlencoded(fragment.as_str()) {
            Ok(pairs) => self.refresh_from_pairs(pairs, now),
            Err(words) => Err(RefreshTokenError::UrlFragmentParseError(words)),
        }
    }

    /// Takes a login one step further. A login starts with no reply, and
    /// goes on with what each call that it asked for came to: it fetches the
    /// login page, sends the form with the page's anti-forgery token, and
    /// asks for a token. The session changes with the last step alone, and
    /// only where a token is granted.
    pub fn login(
        &mut self,
        username: &str,
        password: &str,
        reply: Option<LoginReply>,
        now: i64,
    ) -> (step: LoginStep)
        ensures
            login_outcome(old(self)@, final(self)@, username@, password@, reply, now, step),
    {
        match reply {
            None => LoginStep::Send(login_page_request(), Awaited::Page),
            Some(LoginReply::Page(page)) => match get_csrf_token(page) {
                Ok(csrf) => LoginStep::Send(
                    login_form_request(username, password, csrf.as_str()),
                    Awaited::Submitted,
                ),
                Err(e) => LoginStep::Failed(LoginError::CsrfTokenError(e)),
            },
            Some(LoginReply::Submitted(Err(failure))) => LoginStep::Failed(
                LoginError::ReqwestError(failure),
            ),
            Some(LoginReply::Submitted(Ok(_))) => LoginStep::Send(
                authorize_request(),
                Awaited::Redirected,
            ),
            Some(LoginReply::Redirected(redirect)) => match self.refresh_token(redirect, now) {
                Ok(expires_at) => LoginStep::Done(expires_at),
                Err(e) => LoginStep::Failed(LoginError::TokenGetError(e)),
            },
        }
    }

    /// The call that ends the session at the service; it names the token.
    pub fn logout_request(&self) -> (request: Result<Request, LogoutError>)
        ensures
            match self@.token {
                Some(token) => request matches Ok(r) && r@ == plain_call(
                    Method::Get,
                    END_SESSION_URL@ + token,
                    None,
                ),
                None => request == Err::<Request, LogoutError>(LogoutError::NoBearer(NoBearerError)),
            },
    {
        match &self.token {
            Some(token) => Ok(
                Request::plain(Method::Get, concat(END_SESSION_URL, token.as_str()), None),
            ),
            None => Err(LogoutError::NoBearer(NoBearerError)),
        }
    }

    /// Completes a logout from what the call that ends the session came
    /// to. Once the call is through, the session holds neither token nor
    /// expiry; after a failure it stays as it was.
    pub fn logout(&mut self, sent: Result<(), TransportError>) -> (outcome: Result<(), LogoutError>)
        ensures
            match (old(self)@.token, sent) {
                (None, _) => outcome == Err::<(), LogoutError>(LogoutError::NoBearer(NoBearerError))
                    && final(self)@ == old(self)@,
                (Some(_), Err(failure)) => outcome == Err::<(), LogoutError>(
                    LogoutError::ReqwestError(failure),
                ) && final(self)@ == old(self)@,
                (Some(_), Ok(_)) => outcome == Ok::<(), LogoutError>(()) && final(self)@ == (
                SessionView { token: None, expires_at: None }),
            },
    {
        if self.token.is_none() {
            return Err(LogoutError::NoBearer(NoBearerError));
        }
        match sent {
            Err(failure) => Err(LogoutError::ReqwestError(failure)),
            Ok(_) => {
                self.token_expire_date = None;
                self.token = None;
                Ok(())
            },
        }
    }

    /// A call that sends nothing but its address and the token.
    fn authorised(&self, method: Method, url: String) -> (request: Result<Request, NoBearerError>)
        ensures
            match self@.token {
                Some(token) => request matches Ok(r) && r@ == plain_call(method, url@, Some(token)),
                None => request is Err,
            },
    {
        match &self.token {
            Some(token) => Ok(Request::plain(method, url, Some(token.clone()))),
            None => Err(NoBearerError),
        }
    }

    /// The call that reads the account's details.
    pub fn user_info(&self) -> (request: Result<Request, GenericClientError>)
        ensures
            match self@.token {
                Some(token) => request matches Ok(r) && r@ == plain_call(
                    Method::Get,
                    USER_INFO_URL@,
                    Some(token),
                ),
                None => request == Err::<Request, GenericClientError>(
                    GenericClientError::NoBearer(NoBearerError),
                ),
            },
    {
        match self.authorised(Method::Get, USER_INFO_URL.to_owned()) {
            Ok(r) => Ok(r),
            Err(e) => Err(GenericClientError::NoBearer(e)),
        }
    }

    /// The call that lists the account's reservations.
    pub fn my_reservations(&self) -> (request: Result<Request, GenericClientError>)
        ensures
            match self@.token {
                Some(token) => request matches Ok(r) && r@ == plain_call(
                    Method::Get,
                    RESERVATIONS_URL@,
                    Some(token),
                ),
                None => request == Err::<Request, GenericClientError>(
                    GenericClientError::NoBearer(NoBearerError),
                ),
            },
    {
        match self.authorised(Method::Get, RESERVATIONS_URL.to_owned()) {
            Ok(r) => Ok(r),
            Err(e) => Err(GenericClientError::NoBearer(e)),
        }
    }

    /// The call that lists the exam centres.
    pub fn word_centers(&self) -> (request: Result<Request, GenericClientError>)
        ensures
            match self@.token {
                Some(token) => request matches Ok(r) && r@ == plain_call(
                    Method::Get,
                    WORD_CENTERS_URL@,
                    Some(token),
                ),
                None => request == Err::<Request, GenericClientError>(
                    GenericClientError::NoBearer(NoBearerError),
                ),
            },
    {
        match self.authorised(Method::Get, WORD_CENTERS_URL.to_owned()) {
            Ok(r) => Ok(r),
            Err(e) => Err(GenericClientError::NoBearer(e)),
        }
    }

    /// The call that asks whether the centre `word_id` reschedules. The
    /// centre's number ends the address, written in decimal.
    pub fn is_word_reschedule_enabled(&self, word_id: UnitId) -> (request: Result<
        Request,
        GenericClientError,
    >)
        ensures
            match self@.token {
                Some(token) => request matches Ok(r) && r@ == plain_call(
                    Method::Get,
                    RESCHEDULE_ENABLED_URL@ + decimal_text(word_id.value() as nat),
                    Some(token),
                ),
                None => request == Err::<Request, GenericClientError>(
                    GenericClientError::NoBearer(NoBearerError),
                ),
            },
    {
        let number = u64_to_decimal(word_id.get() as u64);
        let url = concat(RESCHEDULE_ENABLED_URL, number.as_str());
        match self.authorised(Method::Get, url) {
            Ok(r) => Ok(r),
            Err(e) => Err(GenericClientError::NoBearer(e)),
        }
    }

    /// The call that asks the centre `word_id` for its exams of one
    /// category from `start_date` to `end_date`.
    pub fn exam_schedule(
        &self,
        word_id: String,
        end_date: String,
        start_date: String,
        category: LicenseCategory,
    ) -> (request: Result<Request, GenericClientError>)
        ensures
            match self@.token {
                Some(token) => request matches Ok(r) && r@ == (RequestView {
                    method: Method::Put,
                    url: EXAM_SCHEDULE_URL@,
                    query: Seq::empty(),
                    bearer: Some(token),
                    payload: PayloadView::Fields(
                        exam_schedule_fields(word_id@, start_date@, end_date@, category),
                    ),
                }),
                None => request == Err::<Request, GenericClientError>(
                    GenericClientError::NoBearer(NoBearerError),
                ),
            },
    {
        let token = match &self.token {
            Some(token) => token.clone(),
            None => {
                return Err(GenericClientError::NoBearer(NoBearerError));
            },
        };
        let mut fields: Vec<(String, String)> = Vec::new();
        fields.push(("category".to_owned(), category.to_string()));
        fields.push(("endDate".to_owned(), end_date));
        fields.push(("startDate".to_owned(), start_date));
        fields.push(("wordId".to_owned(), word_id));
        assert(pair_texts(fields@) =~= exam_schedule_fields(
            word_id@,
            start_date@,
            end_date@,
            category,
        ));
        let request = Request {
            method: Method::Put,
            url: EXAM_SCHEDULE_URL.to_owned(),
            query: Vec::new(),
            bearer: Some(token),
            payload: Payload::Fields(fields),
        };
        assert(request@.query =~= Seq::empty());
        Ok(request)
    }

    /// The call that makes `reservation`.
    pub fn new_reservation(&self, reservation: NewReservation) -> (request: Result<
        Request,
        EnrollError,
    >)
        ensures
            match self@.token {
                Some(token) => request matches Ok(r) && r@ == (RequestView {
                    method: Method::Post,
                    url: RESERVATIONS_URL@,
                    query: Seq::empty(),
                    bearer: Some(token),
                    payload: PayloadView::Reservation(reservation),
                }),
                None => request matches Err(EnrollError::NoBearer(_)),
            },
    {
        let token = match &self.token {
            Some(token) => token.clone(),
            None => {
                return Err(EnrollError::NoBearer(NoBearerError));
            },
        };
        let request = Request {
            method: Method::Post,
            url: RESERVATIONS_URL.to_owned(),
            query: Vec::new(),
            bearer: Some(token),
            payload: Payload::Reservation(reservation),
        };
        assert(request@.query =~= Seq::empty());
        Ok(request)
    }

    /// The call that reads the state of the reservation `reservation_id`.
    pub fn reservation_status(&self, reservation_id: &str) -> (request: Result<Request, EnrollError>)
        ensures
            match self@.token {
                Some(token) => request matches Ok(r) && r@ == plain_call(
                    Method::Get,
                    RESERVATIONS_URL@ + "/"@ + reservation_id@,
                    Some(token),
                ),
                None => request matches Err(EnrollError::NoBearer(_)),
            },
    {
        let mut url = concat(RESERVATIONS_URL, "/");
        url.append(reservation_id);
        match self.authorised(Method::Get, url) {
            Ok(r) => Ok(r),
            Err(e) => Err(EnrollError::NoBearer(e)),
        }
    }

    /// The call that cancels the reservation `reservation_id`.
    pub fn cancel_reservation(&self, reservation_id: &str) -> (request: Result<
        Request,
        GenericClientError,
    >)
        ensures
            match self@.token {
                Some(token) => request matches Ok(r) && r@ == plain_call(
                    Method::Post,
                    RESERVATIONS_URL@ + "/"@ + reservation_id@ + "/cancel"@,
                    Some(token),
                ),
                None => request == Err::<Request, GenericClientError>(
                    GenericClientError::NoBearer(NoBearerError),
                ),
            },
    {
        let mut url = concat(RESERVATIONS_URL, "/");
        url.append(reservation_id);
        url.append("/cancel");
        match self.authorised(Method::Post, url) {
            Ok(r) => Ok(r),
            Err(e) => Err(GenericClientError::NoBearer(e)),
        }
    }
}

/// A fragment that names no access token wins nothing: whatever else it
/// holds, the refresh fails for want of the access token, with what the
/// fragment held, and the session stays as it was.
pub proof fn lemma_refresh_without_access_token(
    before: SessionView,
    after: SessionView,
    fragment: String,
    now: i64,
    outcome: Result<i64, RefreshTokenError>,
)
    requires
        urlencoded_pairs(fragment@) matches Some(pairs) && value_of(pairs, "access_token"@) is None,
        refresh_outcome(before, after, Ok(Some(fragment)), now, outcome),
    ensures
        outcome matches Err(RefreshTokenError::AccessTokenNotProvided(held)) && Some(
            pair_texts(held@),
        ) == urlencoded_pairs(fragment@),
        after == before,
{
}

/// A refresh that fails leaves the session as it was, whatever the failure.
pub proof fn lemma_failed_refresh_keeps_session(
    before: SessionView,
    after: SessionView,
    redirect: Result<Option<String>, TransportError>,
    now: i64,
    outcome: Result<i64, RefreshTokenError>,
)
    requires
        refresh_outcome(before, after, redirect, now, outcome),
        outcome is Err,
    ensures
        after == before,
{
}

/// The expiry that a refresh gives is the time of the refresh plus the
/// lifetime that the fragment names, to the second, and it is the expiry
/// that the session holds from then on.
pub proof fn lemma_expiry_is_now_plus_lifetime(
    before: SessionView,
    after: SessionView,
    fragment: String,
    now: i64,
    outcome: Result<i64, RefreshTokenError>,
)
    requires
        refresh_outcome(before, after, Ok(Some(fragment)), now, outcome),
        outcome is Ok,
    ensures
        urlencoded_pairs(fragment@) matches Some(pairs) && value_of(pairs, "expires_in"@) matches Some(
            lifetime,
        ) && spec_parse_i64(lifetime) matches Some(seconds) && outcome matches Ok(given) && given
            == now + seconds && after.expires_at == Some(now + seconds) && after.token == value_of(
            pairs,
            "access_token"@,
        ),
{
}

/// A session that was well formed stays so through a refresh.
pub proof fn lemma_refresh_keeps_session_well_formed(
    before: SessionView,
    after: SessionView,
    redirect: Result<Option<String>, TransportError>,
    now: i64,
    outcome: Result<i64, RefreshTokenError>,
)
    requires
        before.well_formed(),
        refresh_outcome(before, after, redirect, now, outcome),
    ensures
        after.well_formed(),
{
}

/// What a call that reserves, or reads a reservation, comes to once the
/// service's answer is decoded: the payload, or the errors that the service
/// listed in its place.
pub fn endpoint_result<T>(answer: EndpointResponse<T>) -> (outcome: Result<T, EnrollError>)
    ensures
        match answer {
            EndpointResponse::Success(value) => outcome matches Ok(v) && v == value,
            EndpointResponse::Errors(errors) => outcome matches Err(
                EnrollError::GenericEndpointError(e),
            ) && e.0 == errors,
        },
{
    match answer.ok() {
        Ok(value) => Ok(value),
        Err(errors) => Err(EnrollError::GenericEndpointError(errors)),
    }
}

} // verus!
