//! Calls to the booking service, described as plain values: what to send,
//! and where. The transport that sends them lives outside this library.

use vstd::prelude::*;
use crate::types::payment::BlikPaymentRequest;
use crate::types::reservation::new::NewReservation;

verus! {

/// A key with its value, as texts.
pub type PairView = (Seq<char>, Seq<char>);

/// The texts of a list of keys and values.
pub open spec fn pair_texts(pairs: Seq<(String, String)>) -> Seq<PairView> {
    pairs.map_values(|p: (String, String)| (p.0@, p.1@))
}

/// A key with its value, as owned strings.
pub fn pair(key: &str, value: &str) -> (p: (String, String))
    ensures
        p.0@ == key@,
        p.1@ == value@,
{
    (key.to_owned(), value.to_owned())
}

/// The verb of a call.
#[derive(Clone, Copy, Debug, PartialEq, Eq, Structural)]
pub enum Method {
    Get,
    Post,
    Put,
}

/// What a call carries in its body.
#[derive(Debug, PartialEq, Eq)]
pub enum Payload {
    /// Nothing.
    Empty,
    /// A form: keys and values in this order, repeated keys included.
    Form(Vec<(String, String)>),
    /// An object of text fields.
    Fields(Vec<(String, String)>),
    /// A reservation to make.
    Reservation(NewReservation),
    /// A payment to make.
    Payment(BlikPaymentRequest),
}

/// The texts of a payload.
pub enum PayloadView {
    Empty,
    Form(Seq<PairView>),
    Fields(Seq<PairView>),
    Reservation(NewReservation),
    Payment(BlikPaymentRequest),
}

impl View for Payload {
    type V = PayloadView;

    open spec fn view(&self) -> PayloadView {
        match self {
            Payload::Empty => PayloadView::Empty,
            Payload::Form(pairs) => PayloadView::Form(pair_texts(pairs@)),
            Payload::Fields(pairs) => PayloadView::Fields(pair_texts(pairs@)),
            Payload::Reservation(reservation) => PayloadView::Reservation(*reservation),
            Payload::Payment(payment) => PayloadView::Payment(*payment),
        }
    }
}

/// One call to the service.
#[derive(Debug, PartialEq, Eq)]
pub struct Request {
    pub method: Method,
    pub url: String,
    /// The parameters written behind the address, in order.
    pub query: Vec<(String, String)>,
    /// The token to authorise the call with, where it needs one.
    pub bearer: Option<String>,
    pub payload: Payload,
}

/// The texts of a call.
pub struct RequestView {
    pub method: Method,
    pub url: Seq<char>,
    pub query: Seq<PairView>,
    pub bearer: Option<Seq<char>>,
    pub payload: PayloadView,
}

impl View for Request {
    type V = RequestView;

    open spec fn view(&self) -> RequestView {
        RequestView {
            method: self.method,
            url: self.url@,
            query: pair_texts(self.query@),
            bearer: match self.bearer {
                Some(token) => Some(token@),
                None => None,
            },
            payload: self.payload@,
        }
    }
}

/// A call that sends nothing but its address, with `token` where one is given.
pub open spec fn plain_call(method: Method, url: Seq<char>, token: Option<Seq<char>>) -> RequestView {
    RequestView { method, url, query: Seq::empty(), bearer: token, payload: PayloadView::Empty }
}

/// The text that a form makes when it is written out
/// (`application/x-www-form-urlencoded`); `None` where it cannot be written.
pub uninterp spec fn urlencoded_text(pairs: Seq<PairView>) -> Option<Seq<char>>;

/// Writes a form out with `serde_urlencoded::to_string`. The contract names
/// the text that the encoder gives and says no more of it; of a failure it
/// keeps the encoder's words.
#[verifier::external_body]
fn encode_urlencoded(pairs: &Vec<(String, String)>) -> (encoded: Result<String, String>)
    ensures
        match encoded {
            Ok(text) => urlencoded_text(pair_texts(pairs@)) == Some(text@),
            Err(_) => urlencoded_text(pair_texts(pairs@)) is None,
        },
{
    serde_urlencoded::to_string(pairs).map_err(|e| e.to_string())
}

impl Request {
    /// A call that sends nothing but its address, with `bearer` where one
    /// is given.
    pub fn plain(method: Method, url: String, bearer: Option<String>) -> (request: Request)
        ensures
            request@ == plain_call(
                method,
                url@,
                match bearer {
                    Some(token) => Some(token@),
                    None => None,
                },
            ),
    {
        let request = Request { method, url, query: Vec::new(), bearer, payload: Payload::Empty };
        assert(request@.query =~= Seq::empty());
        request
    }

    /// The body of a call that carries a form, as the text to send; `None`
    /// for a call that carries no form or whose form cannot be written.
    pub fn form_body(&self) -> (body: Option<String>)
        ensures
            match self@.payload {
                PayloadView::Form(pairs) => match urlencoded_text(pairs) {
                    Some(text) => body matches Some(b) && b@ == text,
                    None => body is None,
                },
                _ => body is None,
            },
    {
        match &self.payload {
            Payload::Form(pairs) => match encode_urlencoded(pairs) {
                Ok(text) => Some(text),
                Err(_) => None,
            },
            _ => None,
        }
    }
}

} // verus!
