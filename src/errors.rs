//! The closed set of failures that an operation can report.
use vstd::prelude::*;

use crate::decimal::Decimal;

verus! {

/// A failure that the API reported through its HTTP status code.
#[derive(Debug, Clone, PartialEq, Eq)]
pub enum APIError {
    /// 400: the request was malformed.
    BadRequest,
    /// 403: the token is invalid or disabled.
    Forbidden,
    /// 404: nothing was found.
    NotFound,
    /// 429: the token's quota is used up.
    TooManyRequests,
    /// 5xx: the server failed; carries the response body.
    ServerError(String),
}

/// Every way in which an operation can fail.
#[derive(Debug, Clone, PartialEq, Eq)]
pub enum HttpError {
    /// The API answered with one of its documented error codes.
    APIError(APIError),
    /// The transport gave up waiting.
    Timeout,
    /// The transport could not reach the API.
    NoInternet,
    /// An outcome that no other variant covers.
    Unknown,
    /// The response body did not have the expected shape (blocking reqwest transport).
    ResponseError(String),
    /// The response body did not have the expected shape (ureq transport).
    UreqResponseError(String),
    /// The search text is empty or whitespace only.
    SearchTextNotSet,
    /// The area id is empty or whitespace only.
    AreaIdNotSet,
    /// A coordinate is zero, which the API reads as "not set".
    LongitudeOrLatitudeNotSet { longitude: Decimal, latitude: Decimal },
    /// The response body could not be read; carries the transport's message.
    UnknownError(String),
    /// No usable token was found under the named environment variable.
    TokenNotSet { variable: String },
}

} // verus!
