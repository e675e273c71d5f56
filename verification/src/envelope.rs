//! The request envelope.
//!
//! One logical exchange with the remote API is: build a request, send it,
//! retry exactly once where the transport itself failed, and classify the
//! response by status code into a success body or a typed error.  This module
//! holds everything about that exchange except the sending: what a request
//! looks like, and how the outcome of each transport attempt is resolved.

use vstd::prelude::*;

use crate::error::Error;
use crate::wire;
use crate::wire::JsonVal;

verus! {

/// The HTTP method of a request.
#[derive(Clone, Copy, Debug, PartialEq, Eq, Structural)]
pub enum Method {
    /// `GET`.
    Get,
    /// `POST`.
    Post,
    /// `DELETE`.
    Delete,
}

/// The credential that goes into the `Authorization` header of a request.
#[derive(Clone, Debug, PartialEq)]
pub enum Auth {
    /// `Basic` credentials, for token issuance.
    Basic {
        /// The application identifier.
        username: String,
        /// The base64-encoded application secret.
        password: String,
    },
    /// A `Bearer` token, for every authenticated call.
    Bearer {
        /// The opaque token string.
        token: String,
    },
}

/// One fully built request, ready to be sent: everything an HTTP transport
/// needs except the connection.
#[derive(Clone, Debug, PartialEq)]
pub struct RequestSpec {
    /// The HTTP method.
    pub method: Method,
    /// The fully qualified URL.
    pub url: String,
    /// The `Authorization` credential.
    pub auth: Auth,
    /// The JSON body, where the endpoint takes one.
    pub body: Option<String>,
}

/// Whether `r` turns the request down with exactly the forbidden message
/// `msg`: how every operation answers a failed local authorization check.
pub open spec fn is_forbidden(r: Result<RequestSpec, Error>, msg: Seq<char>) -> bool {
    r matches Err(e) && e matches Error::Forbidden(m) && m@ == msg
}

/// Whether `a` is a bearer credential carrying exactly the token `token`.
pub open spec fn is_bearer(a: Auth, token: Seq<char>) -> bool {
    a matches Auth::Bearer { token: t } && t@ == token
}

/// What one transport attempt came to.
#[derive(Clone, Debug, PartialEq)]
pub enum AttemptOutcome {
    /// The transport itself failed: no HTTP response was received.  Carries
    /// the transport's error text.
    Failure(String),
    /// An HTTP response was received: its status code and its full body.
    Response(u16, String),
}

/// What to do after the first transport attempt.
#[derive(Debug, PartialEq)]
pub enum FirstStep {
    /// The exchange is decided: hand this to the caller.
    Settled(Result<String, Error>),
    /// The transport failed; send the identical request once more.
    RetryNeeded,
}

/// The `message` field of a modelled response document, where the document is
/// an object whose `message` field is a string.
pub open spec fn spec_message_of(v: JsonVal) -> Option<Seq<char>> {
    match v {
        JsonVal::Object(m) => if m.dom().contains("message"@) {
            match m["message"@] {
                JsonVal::Str(s) => Some(s),
                _ => None,
            }
        } else {
            None
        },
        _ => None,
    }
}

/// The `message` field read out of a response body text.
pub open spec fn spec_body_message(body: Seq<char>) -> Option<Seq<char>> {
    match wire::json_parse(body) {
        Some(v) => spec_message_of(v),
        None => None,
    }
}

/// Reads the `{"message": ...}` envelope that every non-200 response carries.
pub fn decode_message(body: &str) -> (r: Option<String>)
    ensures
        r matches Some(s) ==> spec_body_message(body@) == Some(s@),
        r is Some <==> spec_body_message(body@) is Some,
{
    match wire::json_from_str(body) {
        Some(j) => match wire::json_find(&j, "message") {
            Some(v) => match wire::json_as_string(v) {
                Some(s) => Some(s.to_owned()),
                None => None,
            },
            None => None,
        },
        None => None,
    }
}

/// Whether `e` is the error that the status-code table assigns to a non-200
/// response with message `msg`: 401 is forbidden, 400 a bad request, 404 not
/// found, 202 an application-level validation error, and anything else a
/// server error.
pub open spec fn classified_error(status: u16, e: Error, msg: Seq<char>) -> bool {
    match e {
        Error::Forbidden(s) => status == 401 && s@ == msg,
        Error::BadRequest(s) => status == 400 && s@ == msg,
        Error::NotFound(s) => status == 404 && s@ == msg,
        Error::Client(s) => status == 202 && s@ == msg,
        Error::Server(s) => status != 200 && status != 202 && status != 400 && status != 401
            && status != 404 && s@ == msg,
        _ => false,
    }
}

/// Whether `r` is the full interpretation of a response: a 200 hands its body
/// back; any other status carries a `{"message": ...}` body whose message
/// goes into the error the table assigns; a non-200 body that cannot be read
/// is a decode error.
pub open spec fn interpreted(status: u16, body: Seq<char>, r: Result<String, Error>) -> bool {
    if status == 200 {
        r matches Ok(b) && b@ == body
    } else {
        match spec_body_message(body) {
            Some(m) => r matches Err(e) && classified_error(status, e, m),
            None => r matches Err(e) && e is JSONDecode,
        }
    }
}

/// Classifies one received response by its status code.
pub fn interpret_response(status: u16, body: String) -> (r: Result<String, Error>)
    ensures
        interpreted(status, body@, r),
{
    if status == 200 {
        Ok(body)
    } else {
        match decode_message(body.as_str()) {
            Some(m) => {
                if status == 401 {
                    Err(Error::Forbidden(m))
                } else if status == 400 {
                    Err(Error::BadRequest(m))
                } else if status == 404 {
                    Err(Error::NotFound(m))
                } else if status == 202 {
                    Err(Error::Client(m))
                } else {
                    Err(Error::Server(m))
                }
            },
            None => Err(
                Error::JSONDecode("the error response did not carry a readable message".to_owned()),
            ),
        }
    }
}

/// Decides what follows the first transport attempt: a received response is
/// classified and settles the exchange; a transport failure asks for exactly
/// one more attempt.
pub fn resolve_first(outcome: AttemptOutcome) -> (r: FirstStep)
    ensures
        outcome is Failure ==> r is RetryNeeded,
        outcome matches AttemptOutcome::Response(status, body) ==> r matches FirstStep::Settled(
            res,
        ) && interpreted(status, body@, res),
{
    match outcome {
        AttemptOutcome::Failure(_) => FirstStep::RetryNeeded,
        AttemptOutcome::Response(status, body) => FirstStep::Settled(
            interpret_response(status, body),
        ),
    }
}

/// Settles the exchange after the single retry: a received response is
/// classified; a second transport failure surfaces as a transport error.
pub fn resolve_retry(outcome: AttemptOutcome) -> (r: Result<String, Error>)
    ensures
        outcome matches AttemptOutcome::Failure(m) ==> r matches Err(e) && e matches Error::Hyper(
            t,
        ) && t@ == m@,
        outcome matches AttemptOutcome::Response(status, body) ==> interpreted(status, body@, r),
{
    match outcome {
        AttemptOutcome::Failure(m) => Err(Error::Hyper(m)),
        AttemptOutcome::Response(status, body) => interpret_response(status, body),
    }
}

/// Resolves a whole exchange from the outcomes the transport would hand back,
/// and says how many attempts were used.
///
/// This states the retry law: a response on the first attempt settles the
/// exchange with one attempt; a transport failure is followed by exactly one
/// more attempt, never a third, and a response on that second attempt — a 200
/// in particular — settles the exchange normally.
pub fn resolve_exchange(first: AttemptOutcome, second: AttemptOutcome) -> (r: (
    u32,
    Result<String, Error>,
))
    ensures
        first matches AttemptOutcome::Response(status, body) ==> r.0 == 1 && interpreted(
            status,
            body@,
            r.1,
        ),
        first is Failure ==> r.0 == 2,
        first is Failure ==> (second matches AttemptOutcome::Response(status, body)
            ==> interpreted(status, body@, r.1)),
        first is Failure ==> (second matches AttemptOutcome::Failure(m) ==> r.1 matches Err(e)
            && e matches Error::Hyper(t) && t@ == m@),
{
    match resolve_first(first) {
        FirstStep::Settled(res) => (1, res),
        FirstStep::RetryNeeded => (2, resolve_retry(second)),
    }
}

} // verus!
