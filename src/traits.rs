//! What every endpoint descriptor offers, whatever transport sends its request.
use vstd::prelude::*;

use crate::errors::HttpError;
use crate::request::{resolves_to, ApiRequest};

verus! {

/// An API operation, described by its parameters.
pub trait Endpoint {
    /// The address of the operation, without a query.
    spec fn base(&self) -> Seq<char>;

    /// The query that the request carries, if any.
    spec fn query(&self) -> Option<Seq<char>>;

    /// The validation error that the parameters raise, if any.
    spec fn refusal(&self) -> Option<HttpError>;

    /// The HTTP method of the operation, always GET.
    fn method(&self) -> (r: &'static str)
        ensures
            r@ == "GET"@,
    {
        "GET"
    }

    /// The address of the operation, without a query.
    fn endpoint(&self) -> (r: &'static str)
        ensures
            r@ == self.base(),
    ;

    /// The full URL of the request, or the validation error that the
    /// parameters raise; a refused descriptor never reaches the URL parser.
    fn url(&self) -> (r: Result<String, HttpError>)
        ensures
            resolves_to(self.refusal(), self.base(), self.query(), r),
    ;
}

/// Whether `r` is the request for `endpoint` with `token`, or the error that
/// resolving its URL gives.
pub open spec fn prepared<E: Endpoint>(endpoint: &E, token: Seq<char>, r: Result<ApiRequest, HttpError>) -> bool {
    match r {
        Ok(req) => {
            &&& resolves_to(endpoint.refusal(), endpoint.base(), endpoint.query(), Ok::<String, HttpError>(req.url))
            &&& req.token@ == token
        },
        Err(e) => resolves_to(endpoint.refusal(), endpoint.base(), endpoint.query(), Err::<String, HttpError>(e)),
    }
}

/// The request for `endpoint`, carrying `token`.
pub fn prepare<E: Endpoint>(endpoint: &E, token: &str) -> (r: Result<ApiRequest, HttpError>)
    ensures
        prepared(endpoint, token@, r),
{
    match endpoint.url() {
        Ok(url) => Ok(ApiRequest { url, token: String::from_str(token) }),
        Err(e) => Err(e),
    }
}

/// Resolving a descriptor is a function of the descriptor: any two
/// resolutions of it give the same error, or byte-identical URLs.
pub proof fn lemma_resolution_is_pure<E: Endpoint>(
    endpoint: E,
    r1: Result<String, HttpError>,
    r2: Result<String, HttpError>,
)
    requires
        resolves_to(endpoint.refusal(), endpoint.base(), endpoint.query(), r1),
        resolves_to(endpoint.refusal(), endpoint.base(), endpoint.query(), r2),
    ensures
        r1 is Ok <==> r2 is Ok,
        r1 is Ok ==> r1->Ok_0@ == r2->Ok_0@,
        r1 is Err ==> r1 == r2,
{
}

} // verus!
