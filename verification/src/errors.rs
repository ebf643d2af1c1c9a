//! The service's error taxonomy (`ApiError`) and the user-facing error body
//! (`ErrorResponse`).

use vstd::prelude::*;

verus! {

/// Every failure the service can surface. Only `NotFound` (an unknown short
/// code, carrying that code) and `ValidationError` (the messages of rejected
/// request fields) arise from the core; the rest are reserved for the HTTP
/// adapter's collaborators.
#[derive(Debug, PartialEq, Eq)]
pub enum ApiError {
    BadRequest(String),
    BlockingError(String),
    CacheError(String),
    CannotDecodeJwtToken(String),
    CannotEncodeJwtToken(String),
    InternalServerError(String),
    NotFound(String),
    ParseError(String),
    PoolError(String),
    ReqwestError(String),
    SerdeJsonError(String),
    ValidationError(Vec<String>),
    Unauthorized(String),
}

/// User-friendly error messages, the body of an error response. Its abstract
/// value is the sequence of messages.
#[derive(Debug)]
pub struct ErrorResponse {
    errors: Vec<String>,
}

impl View for ErrorResponse {
    type V = Seq<Seq<char>>;

    closed spec fn view(&self) -> Seq<Seq<char>> {
        self.errors.deep_view()
    }
}

impl ErrorResponse {
    /// The messages carried by this response.
    pub fn errors(&self) -> (msgs: &Vec<String>)
        ensures
            msgs.deep_view() == self@,
    {
        &self.errors
    }
}

/// Turns one message into an `ErrorResponse` carrying exactly that message.
impl From<&String> for ErrorResponse {
    fn from(error: &String) -> (r: ErrorResponse)
        ensures
            r@ =~= seq![error@],
    {
        ErrorResponse { errors: vec![error.clone()] }
    }
}

/// What this conversion returns cannot be written as a spec-level value (it
/// builds a fresh vector), so the contract stands on the `From` impl above
/// and no claim is made through `from_spec`.
impl vstd::std_specs::convert::FromSpecImpl<&String> for ErrorResponse {
    closed spec fn obeys_from_spec() -> bool {
        false
    }

    closed spec fn from_spec(error: &String) -> ErrorResponse {
        arbitrary()
    }
}

/// Turns a vector of messages into an `ErrorResponse` carrying them all.
impl From<Vec<String>> for ErrorResponse {
    fn from(errors: Vec<String>) -> (r: ErrorResponse)
        ensures
            r@ == errors.deep_view(),
    {
        ErrorResponse { errors }
    }
}

impl vstd::std_specs::convert::FromSpecImpl<Vec<String>> for ErrorResponse {
    closed spec fn obeys_from_spec() -> bool {
        true
    }

    closed spec fn from_spec(errors: Vec<String>) -> ErrorResponse {
        ErrorResponse { errors }
    }
}

} // verus!
