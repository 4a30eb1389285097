//! The plain values that cross the HTTP edge: the request that the caller is
//! asked to send, what came back, and how a status code is judged and shown.

use crate::text::{decimal, decimal_string};
use vstd::prelude::*;
use vstd::string::*;

verus! {

/// The method of a request to the worker.
#[derive(Clone, Copy, Debug, PartialEq, Eq, Structural)]
pub enum HttpMethod {
    Get,
    Post,
}

/// One request to the worker's control surface, to be sent once, without
/// retry, and given up after `timeout_ms` milliseconds.
#[derive(Debug, PartialEq, Eq)]
pub struct HttpRequest {
    pub method: HttpMethod,
    pub url: String,
    /// The JSON document to send as the body, if the request has one.
    pub json_body: Option<Vec<u8>>,
    pub timeout_ms: u64,
}

/// What an `HttpRequest` is, as mathematical values.
pub struct HttpRequestView {
    pub method: HttpMethod,
    pub url: Seq<char>,
    pub json_body: Option<Seq<u8>>,
    pub timeout_ms: u64,
}

impl View for HttpRequest {
    type V = HttpRequestView;

    open spec fn view(&self) -> HttpRequestView {
        HttpRequestView {
            method: self.method,
            url: self.url@,
            json_body: match self.json_body {
                Some(body) => Some(body@),
                None => None,
            },
            timeout_ms: self.timeout_ms,
        }
    }
}

/// How one exchange with the worker ended. `B` is the form in which the body
/// was read: bytes or text.
#[derive(Debug, PartialEq, Eq)]
pub enum HttpOutcome<B> {
    /// The transport failed before any response arrived; the text says why.
    Unreachable(String),
    /// A response arrived. `body` is what reading it gave: the body, or the
    /// reason why it could not be read.
    Replied { status: u16, body: Result<B, String> },
}

/// A status code counts as success when it lies in `200..=299`.
pub open spec fn is_success(status: u16) -> bool {
    200 <= status < 300
}

/// Tells whether `status` counts as success.
pub fn status_is_success(status: u16) -> (r: bool)
    ensures
        r == is_success(status),
{
    200 <= status && status < 300
}

/// The text that `reqwest::StatusCode` displays for the status code `code`,
/// for `100 <= code <= 999`: the number and the standard reason phrase.
pub uninterp spec fn status_code_display(code: u16) -> Seq<char>;

/// `reqwest::StatusCode::from_u16` followed by the code's `Display`.
///
/// Claimed of the outside code: `from_u16` accepts exactly the codes from
/// 100 to 999, and the displayed text is a function of the code alone.
#[verifier::external_body]
fn status_display(code: u16) -> (shown: Option<String>)
    ensures
        shown is Some <==> 100 <= code <= 999,
        shown matches Some(text) ==> text@ == status_code_display(code),
{
    match reqwest::StatusCode::from_u16(code) {
        Ok(status) => Some(status.to_string()),
        Err(_) => None,
    }
}

/// How a status code is shown in messages: as the HTTP library displays it
/// where the code is one that HTTP allows, else as a bare number.
pub open spec fn status_text(code: u16) -> Seq<char> {
    if 100 <= code <= 999 {
        status_code_display(code)
    } else {
        decimal(code as nat)
    }
}

/// Picks the displayed form of a status code where there is one, and the
/// bare number otherwise.
pub fn label_or_number(code: u16, shown: Option<String>) -> (label: String)
    ensures
        label@ == match shown {
            Some(text) => text@,
            None => decimal(code as nat),
        },
{
    match shown {
        Some(text) => text,
        None => decimal_string(code as u64),
    }
}

/// The text of a status code for use in messages.
pub fn status_label(code: u16) -> (label: String)
    ensures
        label@ == status_text(code),
{
    label_or_number(code, status_display(code))
}

} // verus!
