//! Error module.
//!
//! Contains API errors along with result types.

use vstd::prelude::*;

verus! {

/// Error raised when a wire value cannot be turned into its domain type.
#[derive(Clone, Debug, PartialEq)]
pub struct FromDTOError {
    /// A human-readable description of what was wrong with the wire value.
    pub error: String,
}

impl FromDTOError {
    /// Creates a new `FromDTOError`.
    pub fn new(error: &str) -> (r: FromDTOError)
        ensures
            r.error@ == error@,
    {
        FromDTOError { error: error.to_owned() }
    }

    /// Gets the description of the error.
    pub fn description(&self) -> (r: String)
        ensures
            r@ == self.error@,
    {
        self.error.clone()
    }
}

/// The error type of the API.
///
/// Errors raised by the transport or by the wire codec carry the text of the
/// underlying error; errors classified from a response status carry the
/// server's message.
#[derive(Clone, Debug, PartialEq)]
pub enum Error {
    /// Transport-level request error.
    Hyper(String),
    /// IO error.
    IO(String),
    /// Error converting a wire value into its domain type.
    FromDTO(FromDTOError),
    /// JSON decode error.
    JSONDecode(String),
    /// Forbidden.
    Forbidden(String),
    /// Bad request.
    BadRequest(String),
    /// Application-level validation error reported by the server.
    Client(String),
    /// Not found.
    NotFound(String),
    /// Internal server error.
    Server(String),
    /// The token type is not valid.
    InvalidTokenType,
    /// The scope is not valid.
    InvalidScope,
    /// The secret is not valid.
    InvalidSecret,
    /// Registration error.
    Registration,
    /// An error occurred generating a transaction.
    Transaction,
    /// Connection confirmation error.
    ConfirmConnection,
}

impl Error {
    /// Gets a human-readable description of the error.
    pub fn description(&self) -> (r: String)
        ensures
            (match self {
                Error::Hyper(e) => r@ == e@,
                Error::IO(e) => r@ == e@,
                Error::FromDTO(e) => r@ == e.error@,
                Error::JSONDecode(e) => r@ == e@,
                Error::Forbidden(e) => r@ == e@,
                Error::BadRequest(e) => r@ == e@,
                Error::Client(e) => r@ == e@,
                Error::NotFound(e) => r@ == e@,
                Error::Server(e) => r@ == e@,
                Error::InvalidTokenType => r@ == "the provided token type is not a valid token type"@,
                Error::InvalidScope => r@ == "the provided scope is not a valid scope"@,
                Error::InvalidSecret => r@ == "the provided secret is not a valid secret"@,
                Error::Registration => r@ == "error registering user"@,
                Error::Transaction => r@ == "error generating transaction"@,
                Error::ConfirmConnection => r@ == "error trying to confirm connection"@,
            }),
    {
        match self {
            Error::Hyper(e) => e.clone(),
            Error::IO(e) => e.clone(),
            Error::FromDTO(e) => e.description(),
            Error::JSONDecode(e) => e.clone(),
            Error::Forbidden(e) => e.clone(),
            Error::BadRequest(e) => e.clone(),
            Error::Client(e) => e.clone(),
            Error::NotFound(e) => e.clone(),
            Error::Server(e) => e.clone(),
            Error::InvalidTokenType => {
                "the provided token type is not a valid token type".to_owned()
            },
            Error::InvalidScope => "the provided scope is not a valid scope".to_owned(),
            Error::InvalidSecret => "the provided secret is not a valid secret".to_owned(),
            Error::Registration => "error registering user".to_owned(),
            Error::Transaction => "error generating transaction".to_owned(),
            Error::ConfirmConnection => "error trying to confirm connection".to_owned(),
        }
    }
}

} // verus!
