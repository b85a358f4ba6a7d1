//! The ways in which a call to the booking service fails, and the reading of
//! the challenge that the service sends with an unauthorised answer.

use vstd::prelude::*;
use vstd::std_specs::convert::FromSpecImpl;
use crate::types::endpoint::GenericEndpointError;

verus! {

/// The status with which the service refuses a token.
pub const UNAUTHORIZED: u16 = 401;

/// What a challenge header must hold at least: a kind, a description and an address.
pub const CHALLENGE_PARTS: usize = 3;

/// The texts that `strings` hold, in order.
pub open spec fn texts(strings: Seq<String>) -> Seq<Seq<char>> {
    strings.map_values(|s: String| s@)
}

/// `parts` written one after another with `separator` between neighbours.
pub open spec fn joined(parts: Seq<Seq<char>>, separator: Seq<char>) -> Seq<char>
    decreases parts.len(),
{
    if parts.len() == 0 {
        Seq::empty()
    } else if parts.len() == 1 {
        parts[0]
    } else {
        joined(parts.drop_last(), separator) + separator + parts.last()
    }
}

/// Writes `parts` one after another with `separator` between neighbours.
pub fn join(parts: &Vec<String>, separator: &str) -> (text: String)
    ensures
        text@ == joined(texts(parts@), separator@),
{
    let mut text = String::new();
    let mut i: usize = 0;
    while i < parts.len()
        invariant
            i <= parts.len(),
            text@ == joined(texts(parts@).take(i as int), separator@),
        decreases parts.len() - i,
    {
        if i > 0 {
            text.append(separator);
        }
        text.append(parts[i].as_str());
        proof {
            let upto = texts(parts@).take(i + 1);
            assert(upto.drop_last() == texts(parts@).take(i as int));
            assert(upto.last() == parts@[i as int]@);
        }
        i += 1;
    }
    assert(texts(parts@).take(i as int) == texts(parts@));
    text
}

/// The transport failed before an answer came: the network, or the
/// connection's security.
#[derive(Clone, Debug, PartialEq, Eq)]
pub struct TransportError {
    /// What the transport said of the failure.
    pub message: String,
}

/// A call that needs a token was made without one.
#[derive(Clone, Copy, Debug, PartialEq, Eq, Structural)]
pub struct NoBearerError;

/// Why the login page gave no anti-forgery token.
#[derive(Debug, PartialEq, Eq)]
pub enum CsrfTokenError {
    ReqwestError(TransportError),
    /// The element containing the token could not be found.
    TokenNotFound,
    /// The element holding the token has no value.
    TokenValueNotFound,
}

/// Why a silent refresh gave no token.
#[derive(Debug, PartialEq, Eq)]
pub enum RefreshTokenError {
    ReqwestError(TransportError),
    /// No fragment was provided in the answer's address.
    NoFragmentProvided,
    /// The fragment is no list of keys and values. The decoder's words come along.
    UrlFragmentParseError(String),
    /// The access token was not provided. The keys and values that were
    /// provided come along, in the order in which they were.
    AccessTokenNotProvided(Vec<(String, String)>),
    /// The token's lifetime was not provided.
    ExpireTimeNotProvided,
    /// The token's lifetime is no number of seconds from now.
    ExpireTimeParseError,
}

/// Why a login failed: the step that failed, and why.
#[derive(Debug, PartialEq, Eq)]
pub enum LoginError {
    ReqwestError(TransportError),
    TokenGetError(RefreshTokenError),
    CsrfTokenError(CsrfTokenError),
}

/// Why a logout failed.
#[derive(Debug, PartialEq, Eq)]
pub enum LogoutError {
    ReqwestError(TransportError),
    NoBearer(NoBearerError),
}

/// What a challenge says: the kind of the failure, its description, and an
/// address that documents it.
#[derive(Debug, PartialEq, Eq)]
pub struct JWTErrorMessage {
    pub error_type: String,
    pub description: String,
    pub url: String,
}

/// The texts of a challenge.
pub struct ChallengeView {
    pub error_type: Seq<char>,
    pub description: Seq<char>,
    pub url: Seq<char>,
}

impl View for JWTErrorMessage {
    type V = ChallengeView;

    open spec fn view(&self) -> ChallengeView {
        ChallengeView {
            error_type: self.error_type@,
            description: self.description@,
            url: self.url@,
        }
    }
}

/// The challenge that a list of quoted strings stands for. Of three or more
/// strings the last three are its kind, description and address, in that
/// order. A shorter list is a failure of unknown kind, described by what
/// strings there are.
pub open spec fn challenge_of(strings: Seq<Seq<char>>) -> ChallengeView {
    if strings.len() < CHALLENGE_PARTS {
        ChallengeView {
            error_type: "unknown_error"@,
            description: joined(strings, " "@),
            url: Seq::empty(),
        }
    } else {
        ChallengeView {
            error_type: strings[strings.len() - 3],
            description: strings[strings.len() - 2],
            url: strings[strings.len() - 1],
        }
    }
}

/// The conversion is specified on `from` itself, over the texts of the
/// strings: two strings with one text are not told apart.
impl FromSpecImpl<Vec<String>> for JWTErrorMessage {
    open spec fn obeys_from_spec() -> bool {
        false
    }

    open spec fn from_spec(value: Vec<String>) -> Self {
        arbitrary()
    }
}

impl From<Vec<String>> for JWTErrorMessage {
    /// Reads a challenge from the quoted strings of a header.
    fn from(value: Vec<String>) -> (message: Self)
        ensures
            message@ == challenge_of(texts(value@)),
    {
        let mut value = value;
        if value.len() < CHALLENGE_PARTS {
            return JWTErrorMessage {
                error_type: "unknown_error".to_owned(),
                description: join(&value, " "),
                url: String::new(),
            };
        }
        let ghost all = texts(value@);
        let url = value.pop().unwrap();
        let description = value.pop().unwrap();
        let error_type = value.pop().unwrap();
        JWTErrorMessage { error_type, description, url }
    }
}

/// The service refused the token and said why.
#[derive(Debug, PartialEq, Eq)]
pub struct JWTError(pub JWTErrorMessage);

impl JWTError {
    /// The refusal in one line: its kind, its description, and in brackets
    /// the address that documents it.
    pub fn message(&self) -> (text: String)
        ensures
            text@ == challenge_text(self.0@),
    {
        let mut text = "Error (".to_owned();
        text.append(self.0.error_type.as_str());
        text.append("): ");
        text.append(self.0.description.as_str());
        text.append(" (");
        text.append(self.0.url.as_str());
        text.append(")");
        text
    }
}

/// The double-quoted substrings of a header, in the order in which they
/// stand in it, without their quotes.
pub uninterp spec fn quoted_strings(input: Seq<char>) -> Seq<Seq<char>>;

/// Finds the double-quoted substrings of `input` with `regex`: the first
/// capture group of each successive match of a quote, as few characters as
/// possible, and a quote (`Regex::captures_iter`). The contract gives the
/// list a name and claims nothing of what it holds.
#[verifier::external_body]
fn extract_all_quoted_strings(input: &str) -> (strings: Vec<String>)
    ensures
        texts(strings@) == quoted_strings(input@),
{
    let re = regex::Regex::new(r#""(.*?)""#).unwrap();
    re.captures_iter(input).map(|cap| cap[1].to_string()).collect()
}

/// What the classifier reads of an answer: its status, and the challenge
/// header where the answer carries one.
#[derive(Debug, PartialEq, Eq)]
pub struct ResponseHead {
    pub status: u16,
    pub www_authenticate: Option<String>,
}

/// Why an answer is not passed on to the caller.
#[derive(Debug, PartialEq, Eq)]
pub enum AuthError {
    /// The service refused the token and said why.
    Challenge(JWTError),
    /// The service refused the token, and its challenge holds fewer quoted
    /// strings than a challenge has parts. The strings found come along.
    MalformedChallengeHeader(Vec<String>),
}

/// The texts of an `AuthError`.
pub enum AuthErrorView {
    Challenge(ChallengeView),
    MalformedChallengeHeader(Seq<Seq<char>>),
}

impl View for AuthError {
    type V = AuthErrorView;

    open spec fn view(&self) -> AuthErrorView {
        match self {
            AuthError::Challenge(e) => AuthErrorView::Challenge(e.0@),
            AuthError::MalformedChallengeHeader(found) => AuthErrorView::MalformedChallengeHeader(
                texts(found@),
            ),
        }
    }
}

/// The refusal that the quoted strings of a challenge header stand for.
pub open spec fn refusal_of(strings: Seq<Seq<char>>) -> AuthErrorView {
    if strings.len() < CHALLENGE_PARTS {
        AuthErrorView::MalformedChallengeHeader(strings)
    } else {
        AuthErrorView::Challenge(challenge_of(strings))
    }
}

/// The quoted strings of the challenge of `response`; none where the answer
/// carries no challenge header.
pub open spec fn challenge_strings(response: ResponseHead) -> Seq<Seq<char>> {
    match response.www_authenticate {
        Some(header) => quoted_strings(header@),
        None => Seq::empty(),
    }
}

/// Reads the refusal from the quoted strings of a challenge header.
pub fn refusal_from_strings(strings: Vec<String>) -> (refusal: AuthError)
    ensures
        refusal@ == refusal_of(texts(strings@)),
{
    if strings.len() < CHALLENGE_PARTS {
        AuthError::MalformedChallengeHeader(strings)
    } else {
        AuthError::Challenge(JWTError(JWTErrorMessage::from(strings)))
    }
}

/// Tells an answer that refuses the token from every other answer. An answer
/// with any status but 401 is passed on as it is. One with status 401 fails
/// with what its challenge header says, or as malformed where the header
/// holds fewer than three quoted strings or is missing.
pub fn handle_response(response: ResponseHead) -> (outcome: Result<ResponseHead, AuthError>)
    ensures
        response.status != UNAUTHORIZED ==> outcome == Ok::<ResponseHead, AuthError>(response),
        response.status == UNAUTHORIZED ==> (outcome matches Err(refusal) && refusal@
            == refusal_of(challenge_strings(response))),
{
    if response.status == UNAUTHORIZED {
        let strings = match &response.www_authenticate {
            Some(header) => extract_all_quoted_strings(header.as_str()),
            None => Vec::new(),
        };
        assert(texts(strings@) == challenge_strings(response));
        return Err(refusal_from_strings(strings));
    }
    Ok(response)
}

/// Why a call that reads from the service failed.
#[derive(Debug, PartialEq, Eq)]
pub enum GenericClientError {
    NoBearer(NoBearerError),
    ReqwestError(TransportError),
    JWTError(JWTError),
    MalformedChallengeHeader(Vec<String>),
}

/// Why a call that reserves, or reads a reservation, failed.
#[derive(Debug)]
pub enum EnrollError {
    NoBearer(NoBearerError),
    ReqwestError(TransportError),
    JWTError(JWTError),
    MalformedChallengeHeader(Vec<String>),
    /// The service took the call and answered with errors of its own.
    GenericEndpointError(GenericEndpointError),
}

impl GenericClientError {
    /// The failure of a call that the classifier did not pass on.
    pub fn from_auth(refusal: AuthError) -> (error: Self)
        ensures
            match refusal {
                AuthError::Challenge(e) => error == GenericClientError::JWTError(e),
                AuthError::MalformedChallengeHeader(found) => error
                    == GenericClientError::MalformedChallengeHeader(found),
            },
    {
        match refusal {
            AuthError::Challenge(e) => GenericClientError::JWTError(e),
            AuthError::MalformedChallengeHeader(found) => GenericClientError::MalformedChallengeHeader(
                found,
            ),
        }
    }
}

impl EnrollError {
    /// The failure of a call that the classifier did not pass on.
    pub fn from_auth(refusal: AuthError) -> (error: Self)
        ensures
            match refusal {
                AuthError::Challenge(e) => error == EnrollError::JWTError(e),
                AuthError::MalformedChallengeHeader(found) => error
                    == EnrollError::MalformedChallengeHeader(found),
            },
    {
        match refusal {
            AuthError::Challenge(e) => EnrollError::JWTError(e),
            AuthError::MalformedChallengeHeader(found) => EnrollError::MalformedChallengeHeader(found),
        }
    }

    /// The same failure, of a call that reads.
    pub fn from_generic(failure: GenericClientError) -> (error: Self)
        ensures
            match failure {
                GenericClientError::NoBearer(e) => error == EnrollError::NoBearer(e),
                GenericClientError::ReqwestError(e) => error == EnrollError::ReqwestError(e),
                GenericClientError::JWTError(e) => error == EnrollError::JWTError(e),
                GenericClientError::MalformedChallengeHeader(found) => error
                    == EnrollError::MalformedChallengeHeader(found),
            },
    {
        match failure {
            GenericClientError::NoBearer(e) => EnrollError::NoBearer(e),
            GenericClientError::ReqwestError(e) => EnrollError::ReqwestError(e),
            GenericClientError::JWTError(e) => EnrollError::JWTError(e),
            GenericClientError::MalformedChallengeHeader(found) => EnrollError::MalformedChallengeHeader(
                found,
            ),
        }
    }

    /// The machine code of the first error that the service listed, where
    /// the failure is a list of the service's own errors.
    pub open spec fn first_code(&self) -> Option<Seq<char>> {
        match self {
            EnrollError::GenericEndpointError(errors) => errors.first_code(),
            _ => None,
        }
    }
}

/// A list of keys and values in words: each key, an equals sign and the
/// value, with a comma and a blank between neighbours.
pub open spec fn pairs_text(pairs: Seq<(String, String)>) -> Seq<char>
    decreases pairs.len(),
{
    if pairs.len() == 0 {
        Seq::empty()
    } else if pairs.len() == 1 {
        pairs[0].0@ + "="@ + pairs[0].1@
    } else {
        pairs_text(pairs.drop_last()) + ", "@ + pairs.last().0@ + "="@ + pairs.last().1@
    }
}

/// Writes a list of keys and values in words.
pub fn pairs_message(pairs: &Vec<(String, String)>) -> (text: String)
    ensures
        text@ == pairs_text(pairs@),
{
    let mut text = String::new();
    let mut i: usize = 0;
    while i < pairs.len()
        invariant
            i <= pairs.len(),
            text@ == pairs_text(pairs@.take(i as int)),
        decreases pairs.len() - i,
    {
        if i > 0 {
            text.append(", ");
        }
        text.append(pairs[i].0.as_str());
        text.append("=");
        text.append(pairs[i].1.as_str());
        proof {
            let upto = pairs@.take(i + 1);
            assert(upto.drop_last() == pairs@.take(i as int));
            assert(upto.last() == pairs@[i as int]);
        }
        i += 1;
    }
    assert(pairs@.take(i as int) == pairs@);
    text
}

impl TransportError {
    /// The failure in words: what the transport said.
    pub open spec fn text(&self) -> Seq<char> {
        self.message@
    }

    pub fn message(&self) -> (text: String)
        ensures
            text@ == self.text(),
    {
        self.message.clone()
    }
}

impl NoBearerError {
    /// The failure in words.
    pub open spec fn text(&self) -> Seq<char> {
        "Bearer token not found"@
    }

    pub fn message(&self) -> (text: String)
        ensures
            text@ == self.text(),
    {
        "Bearer token not found".to_owned()
    }
}

impl CsrfTokenError {
    /// The failure in words.
    pub open spec fn text(&self) -> Seq<char> {
        match self {
            CsrfTokenError::ReqwestError(e) => e.text(),
            CsrfTokenError::TokenNotFound =>
                "The element containing the CSRF token could not be found"@,
            CsrfTokenError::TokenValueNotFound =>
                "The CSRF token value could not be found on the input element"@,
        }
    }

    pub fn message(&self) -> (text: String)
        ensures
            text@ == self.text(),
    {
        match self {
            CsrfTokenError::ReqwestError(e) => e.message(),
            CsrfTokenError::TokenNotFound =>
                "The element containing the CSRF token could not be found".to_owned(),
            CsrfTokenError::TokenValueNotFound =>
                "The CSRF token value could not be found on the input element".to_owned(),
        }
    }
}

impl RefreshTokenError {
    /// The failure in words.
    pub open spec fn text(&self) -> Seq<char> {
        match self {
            RefreshTokenError::ReqwestError(e) => e.text(),
            RefreshTokenError::NoFragmentProvided => "No fragment was provided in the response URL"@,
            RefreshTokenError::UrlFragmentParseError(words) => words@,
            RefreshTokenError::AccessTokenNotProvided(pairs) =>
                "The access token was not provided in the response. Response: "@ + pairs_text(
                    pairs@,
                ),
            RefreshTokenError::ExpireTimeNotProvided =>
                "The expire time was not provided in the response"@,
            RefreshTokenError::ExpireTimeParseError => "Could not parse the expire time as a number"@,
        }
    }

    pub fn message(&self) -> (text: String)
        ensures
            text@ == self.text(),
    {
        match self {
            RefreshTokenError::ReqwestError(e) => e.message(),
            RefreshTokenError::NoFragmentProvided =>
                "No fragment was provided in the response URL".to_owned(),
            RefreshTokenError::UrlFragmentParseError(words) => words.clone(),
            RefreshTokenError::AccessTokenNotProvided(pairs) => {
                let mut text = "The access token was not provided in the response. Response: ".to_owned();
                text.append(pairs_message(pairs).as_str());
                text
            },
            RefreshTokenError::ExpireTimeNotProvided =>
                "The expire time was not provided in the response".to_owned(),
            RefreshTokenError::ExpireTimeParseError =>
                "Could not parse the expire time as a number".to_owned(),
        }
    }
}

impl LoginError {
    /// The failure in words: those of the step that failed.
    pub open spec fn text(&self) -> Seq<char> {
        match self {
            LoginError::ReqwestError(e) => e.text(),
            LoginError::TokenGetError(e) => e.text(),
            LoginError::CsrfTokenError(e) => e.text(),
        }
    }

    pub fn message(&self) -> (text: String)
        ensures
            text@ == self.text(),
    {
        match self {
            LoginError::ReqwestError(e) => e.message(),
            LoginError::TokenGetError(e) => e.message(),
            LoginError::CsrfTokenError(e) => e.message(),
        }
    }
}

impl LogoutError {
    /// The failure in words.
    pub open spec fn text(&self) -> Seq<char> {
        match self {
            LogoutError::ReqwestError(e) => e.text(),
            LogoutError::NoBearer(e) => e.text(),
        }
    }

    pub fn message(&self) -> (text: String)
        ensures
            text@ == self.text(),
    {
        match self {
            LogoutError::ReqwestError(e) => e.message(),
            LogoutError::NoBearer(e) => e.message(),
        }
    }
}

/// A challenge in one line: its kind, its description, and in brackets the
/// address that documents it.
pub open spec fn challenge_text(challenge: ChallengeView) -> Seq<char> {
    "Error ("@ + challenge.error_type + "): "@ + challenge.description + " ("@ + challenge.url
        + ")"@
}

/// A malformed challenge in words: the quoted strings that it did hold.
pub open spec fn malformed_text(found: Seq<String>) -> Seq<char> {
    "Malformed challenge header: "@ + joined(texts(found), ", "@)
}

/// Writes a malformed challenge in words.
pub fn malformed_message(found: &Vec<String>) -> (text: String)
    ensures
        text@ == malformed_text(found@),
{
    let mut text = "Malformed challenge header: ".to_owned();
    text.append(join(found, ", ").as_str());
    text
}

impl AuthError {
    /// The failure in words.
    pub open spec fn text(&self) -> Seq<char> {
        match self {
            AuthError::Challenge(e) => challenge_text(e.0@),
            AuthError::MalformedChallengeHeader(found) => malformed_text(found@),
        }
    }

    pub fn message(&self) -> (text: String)
        ensures
            text@ == self.text(),
    {
        match self {
            AuthError::Challenge(e) => e.message(),
            AuthError::MalformedChallengeHeader(found) => malformed_message(found),
        }
    }
}

impl GenericClientError {
    /// The failure in words.
    pub open spec fn text(&self) -> Seq<char> {
        match self {
            GenericClientError::NoBearer(e) => e.text(),
            GenericClientError::ReqwestError(e) => e.text(),
            GenericClientError::JWTError(e) => challenge_text(e.0@),
            GenericClientError::MalformedChallengeHeader(found) => malformed_text(found@),
        }
    }

    pub fn message(&self) -> (text: String)
        ensures
            text@ == self.text(),
    {
        match self {
            GenericClientError::NoBearer(e) => e.message(),
            GenericClientError::ReqwestError(e) => e.message(),
            GenericClientError::JWTError(e) => e.message(),
            GenericClientError::MalformedChallengeHeader(found) => malformed_message(found),
        }
    }
}

impl EnrollError {
    /// The failure in words.
    pub open spec fn text(&self) -> Seq<char> {
        match self {
            EnrollError::NoBearer(e) => e.text(),
            EnrollError::ReqwestError(e) => e.text(),
            EnrollError::JWTError(e) => challenge_text(e.0@),
            EnrollError::MalformedChallengeHeader(found) => malformed_text(found@),
            EnrollError::GenericEndpointError(e) => crate::types::endpoint::error_lines(e.0@),
        }
    }

    pub fn message(&self) -> (text: String)
        ensures
            text@ == self.text(),
    {
        match self {
            EnrollError::NoBearer(e) => e.message(),
            EnrollError::ReqwestError(e) => e.message(),
            EnrollError::JWTError(e) => e.message(),
            EnrollError::MalformedChallengeHeader(found) => malformed_message(found),
            EnrollError::GenericEndpointError(e) => e.message(),
        }
    }
}

/// An unauthorised answer whose challenge holds fewer than three quoted
/// strings is never read as a challenge: it fails as malformed, with the
/// strings that were found.
pub proof fn lemma_short_challenge_is_malformed(strings: Seq<Seq<char>>)
    requires
        strings.len() < 3,
    ensures
        refusal_of(strings) == AuthErrorView::MalformedChallengeHeader(strings),
{
}

} // verus!
