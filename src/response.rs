//! Turning what a transport brought back into a record or an error.
//!
//! A transport sends the request, reads the body and tries to decode it as
//! JSON into the record that the operation expects; the functions here decide,
//! from those plain values, what the caller gets.
use vstd::prelude::*;

use crate::errors::{APIError, HttpError};

verus! {

/// Why a transport got no response.
#[derive(Debug, Clone, Copy, PartialEq, Eq)]
pub enum TransportFailure {
    /// The transport gave up waiting.
    Timeout,
    /// The connection failed (refused, DNS, TLS and the like).
    Unreachable,
}

/// What became of decoding the response body as JSON.
#[derive(Debug, Clone, PartialEq, Eq)]
pub enum Decoded<T> {
    /// The body held the expected record.
    Record(T),
    /// The body was read but does not have the expected shape; carries the
    /// decoder's message.
    Malformed(String),
    /// The body could not be read; carries the transport's message.
    Unreadable(String),
}

/// A response that a transport received.
#[derive(Debug, Clone, PartialEq, Eq)]
pub struct Received<T> {
    /// The HTTP status code.
    pub status: u16,
    /// The body as text (for server errors).
    pub body: String,
    /// The body decoded as the expected record.
    pub json: Decoded<T>,
}

/// What the status code of a response calls for.
#[derive(Debug, Clone, Copy, PartialEq, Eq)]
pub enum StatusClass {
    /// 2xx and 3xx: decode the body.
    Decode,
    BadRequest,
    Forbidden,
    NotFound,
    TooManyRequests,
    /// 5xx.
    ServerError,
    /// Any other code.
    Unexpected,
}

/// What the status code `code` calls for. Server errors are told apart first,
/// then the four documented client errors; the other 4xx codes, and codes
/// outside 200 to 599, are unexpected.
pub open spec fn status_class(code: u16) -> StatusClass {
    if 500 <= code <= 599 {
        StatusClass::ServerError
    } else if code == 400 {
        StatusClass::BadRequest
    } else if code == 403 {
        StatusClass::Forbidden
    } else if code == 404 {
        StatusClass::NotFound
    } else if code == 429 {
        StatusClass::TooManyRequests
    } else if 200 <= code <= 399 {
        StatusClass::Decode
    } else {
        StatusClass::Unexpected
    }
}

/// What the status code `code` calls for.
pub fn classify_status(code: u16) -> (r: StatusClass)
    ensures
        r == status_class(code),
{
    if 500 <= code && code <= 599 {
        StatusClass::ServerError
    } else if code == 400 {
        StatusClass::BadRequest
    } else if code == 403 {
        StatusClass::Forbidden
    } else if code == 404 {
        StatusClass::NotFound
    } else if code == 429 {
        StatusClass::TooManyRequests
    } else if 200 <= code && code <= 399 {
        StatusClass::Decode
    } else {
        StatusClass::Unexpected
    }
}

/// The error that the status code `code` maps to, with `body` as the server's
/// message; `None` where the body is to be decoded.
pub open spec fn status_error(code: u16, body: String) -> Option<HttpError> {
    match status_class(code) {
        StatusClass::Decode => None,
        StatusClass::BadRequest => Some(HttpError::APIError(APIError::BadRequest)),
        StatusClass::Forbidden => Some(HttpError::APIError(APIError::Forbidden)),
        StatusClass::NotFound => Some(HttpError::APIError(APIError::NotFound)),
        StatusClass::TooManyRequests => Some(HttpError::APIError(APIError::TooManyRequests)),
        StatusClass::ServerError => Some(HttpError::APIError(APIError::ServerError(body))),
        StatusClass::Unexpected => Some(HttpError::Unknown),
    }
}

/// The error for a transport that got no response.
pub open spec fn failure_error(failure: TransportFailure) -> HttpError {
    match failure {
        TransportFailure::Timeout => HttpError::Timeout,
        TransportFailure::Unreachable => HttpError::NoInternet,
    }
}

/// The outcome of an exchange: the transport's failure, else the error of the
/// status code, else the decoded record or the error of a body that did not
/// decode. A transport reports those last errors in its own variants:
/// `malformed` for a body of the wrong shape, `unreadable` for one it could
/// not read, each from the message it gave.
pub open spec fn exchange_outcome<T>(
    response: Result<Received<T>, TransportFailure>,
    malformed: spec_fn(String) -> HttpError,
    unreadable: spec_fn(String) -> HttpError,
) -> Result<T, HttpError> {
    match response {
        Err(failure) => Err(failure_error(failure)),
        Ok(received) => match status_error(received.status, received.body) {
            Some(e) => Err(e),
            None => match received.json {
                Decoded::Record(v) => Ok(v),
                Decoded::Malformed(m) => Err(malformed(m)),
                Decoded::Unreadable(m) => Err(unreadable(m)),
            },
        },
    }
}

/// The error of a transport that got no response.
pub fn failure_to_error(failure: TransportFailure) -> (r: HttpError)
    ensures
        r == failure_error(failure),
{
    match failure {
        TransportFailure::Timeout => HttpError::Timeout,
        TransportFailure::Unreachable => HttpError::NoInternet,
    }
}

/// The error that the status code `code` maps to, or `None` where the body
/// is to be decoded.
pub fn status_to_error(code: u16, body: String) -> (r: Option<HttpError>)
    ensures
        r == status_error(code, body),
{
    match classify_status(code) {
        StatusClass::Decode => None,
        StatusClass::BadRequest => Some(HttpError::APIError(APIError::BadRequest)),
        StatusClass::Forbidden => Some(HttpError::APIError(APIError::Forbidden)),
        StatusClass::NotFound => Some(HttpError::APIError(APIError::NotFound)),
        StatusClass::TooManyRequests => Some(HttpError::APIError(APIError::TooManyRequests)),
        StatusClass::ServerError => Some(HttpError::APIError(APIError::ServerError(body))),
        StatusClass::Unexpected => Some(HttpError::Unknown),
    }
}

/// The status mapping is total and each code has exactly one meaning: 400,
/// 403, 404 and 429 their named errors, 5xx a server error with the body,
/// 2xx and 3xx a decoded body, any other code `Unknown`.
pub proof fn lemma_status_mapping(code: u16, body: String)
    ensures
        (status_error(code, body) == Some(HttpError::APIError(APIError::BadRequest))) <==> code
            == 400,
        (status_error(code, body) == Some(HttpError::APIError(APIError::Forbidden))) <==> code
            == 403,
        (status_error(code, body) == Some(HttpError::APIError(APIError::NotFound))) <==> code
            == 404,
        (status_error(code, body) == Some(HttpError::APIError(APIError::TooManyRequests)))
            <==> code == 429,
        (status_error(code, body) == Some(HttpError::APIError(APIError::ServerError(body))))
            <==> 500 <= code <= 599,
        (status_error(code, body) is None) <==> 200 <= code <= 399,
        (status_error(code, body) == Some(HttpError::Unknown)) <==> !(200 <= code <= 599 && (
        code < 400 || code >= 500 || code == 400 || code == 403 || code == 404 || code == 429)),
{
}

} // verus!
