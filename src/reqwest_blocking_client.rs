//! What the blocking `reqwest` transport brought back, mapped to a record or
//! an error.
use vstd::prelude::*;

use crate::errors::HttpError;
use crate::response::{exchange_outcome, failure_to_error, status_to_error, Decoded, Received, TransportFailure};

verus! {

/// The outcome of an exchange over blocking `reqwest`: a body of the wrong
/// shape gives `ResponseError` with the decoder's message, one that could not
/// be read `Unknown`.
pub fn handle_reqwest_response_blocking<T>(response: Result<Received<T>, TransportFailure>) -> (r:
    Result<T, HttpError>)
    ensures
        r == exchange_outcome(
            response,
            |m: String| HttpError::ResponseError(m),
            |m: String| HttpError::Unknown,
        ),
{
    match response {
        Err(failure) => Err(failure_to_error(failure)),
        Ok(received) => {
            let Received { status, body, json } = received;
            match status_to_error(status, body) {
                Some(e) => Err(e),
                None => match json {
                    Decoded::Record(v) => Ok(v),
                    Decoded::Malformed(m) => Err(HttpError::ResponseError(m)),
                    Decoded::Unreadable(_) => Err(HttpError::Unknown),
                },
            }
        },
    }
}

} // verus!
