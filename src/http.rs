//! HTTP requests as plain values, and the first step of reading a response.
use vstd::prelude::*;
use vstd::string::*;
use crate::error::{AdapterError, ErrorModel};

verus! {

/// The HTTP method of a request.
#[derive(Debug, Clone, Copy, PartialEq, Eq, Structural)]
pub enum Method {
    Get,
    Post,
    Patch,
    Delete,
}

/// One outbound request: what the transport is asked to send.
#[derive(Debug, Clone, PartialEq, Eq)]
pub struct Request {
    pub method: Method,
    pub url: String,
    /// Header names and values, in the order they are sent.
    pub headers: Vec<(String, String)>,
    /// The JSON body, if the request carries one.
    pub body: Option<String>,
}

/// The mathematical value of a [`Request`].
pub struct RequestModel {
    pub method: Method,
    pub url: Seq<char>,
    pub headers: Seq<(Seq<char>, Seq<char>)>,
    pub body: Option<Seq<char>>,
}

impl View for Request {
    type V = RequestModel;

    open spec fn view(&self) -> RequestModel {
        RequestModel {
            method: self.method,
            url: self.url@,
            headers: self.headers@.map_values(|h: (String, String)| (h.0@, h.1@)),
            body: self.body.deep_view(),
        }
    }
}

/// What the transport received: the status code and the raw body.
#[derive(Debug, Clone, PartialEq, Eq)]
pub struct Response {
    pub status: u16,
    pub body: Vec<u8>,
}

/// The text of `bytes` read as UTF-8, if they are valid UTF-8.
pub uninterp spec fn utf8_decoded(bytes: Seq<u8>) -> Option<Seq<char>>;

/// Relies on `String::from_utf8`: it fails exactly on invalid UTF-8 and never
/// replaces bytes.
#[verifier::external_body]
fn decode_utf8(bytes: Vec<u8>) -> (r: Option<String>)
    ensures
        r.deep_view() == utf8_decoded(bytes@),
{
    String::from_utf8(bytes).ok()
}

/// The response text that a transport outcome gives, or why there is none.
pub open spec fn received(outcome: Result<Response, String>) -> Result<Seq<char>, ErrorModel> {
    match outcome {
        Err(message) => Err(ErrorModel::RequestFailed(message@)),
        Ok(response) => match utf8_decoded(response.body@) {
            Some(text) => Ok(text),
            None => Err(ErrorModel::InvalidEncoding),
        },
    }
}

/// Turns a transport outcome into the response text: a transport failure
/// becomes `RequestFailed`, bytes that are not UTF-8 `InvalidEncoding`.
pub fn response_text(outcome: Result<Response, String>) -> (r: Result<String, AdapterError>)
    ensures
        crate::error::result_view(r) == received(outcome),
{
    match outcome {
        Err(message) => Err(AdapterError::RequestFailed(message)),
        Ok(response) => match decode_utf8(response.body) {
            Some(text) => Ok(text),
            None => Err(AdapterError::InvalidEncoding),
        },
    }
}

/// Builds a header pair.
pub fn header(name: &str, value: String) -> (r: (String, String))
    ensures
        r.0@ == name@,
        r.1@ == value@,
{
    (String::from_str(name), value)
}

/// `prefix` followed by `rest`.
pub fn prefixed(prefix: &str, rest: &str) -> (r: String)
    ensures
        r@ == prefix@ + rest@,
{
    let mut s = String::from_str(prefix);
    s.append(rest);
    s
}

/// A response whose bytes are not valid UTF-8 fails with `InvalidEncoding`,
/// whatever step would have followed.
pub proof fn invalid_utf8_fails<B>(
    response: Response,
    next: spec_fn(Seq<char>) -> Result<B, ErrorModel>,
)
    requires
        utf8_decoded(response.body@) is None,
    ensures
        crate::error::and_then_model(received(Ok(response)), next) == Err::<B, _>(
            ErrorModel::InvalidEncoding,
        ),
{
}

} // verus!
