//! Resolving an endpoint's URL, and the request that a transport sends.
use vstd::prelude::*;

use crate::errors::HttpError;

verus! {

/// The name of the request header that carries the API token.
pub const TOKEN_KEY: &'static str = "token";

#[verifier::external_type_specification]
#[verifier::external_body]
pub struct ExParseError(url::ParseError);

/// The view of an optional string slice.
pub open spec fn opt_view(q: Option<&str>) -> Option<Seq<char>> {
    match q {
        Some(s) => Some(s@),
        None => None,
    }
}

/// The serialised URL that the `url` crate makes of `base` with its query set to
/// `query`, or `None` where it cannot parse `base`.
pub uninterp spec fn url_of(base: Seq<char>, query: Option<Seq<char>>) -> Option<Seq<char>>;

/// Relies on `url::Url::parse` of `base`, then `Url::set_query` with `query`,
/// which percent-encodes the query; the result is the serialisation
/// (`String::from(Url)`) and depends on the two texts alone.
#[verifier::external_body]
fn parse_with_query(base: &str, query: Option<&str>) -> (r: Result<String, url::ParseError>)
    ensures
        match r {
            Ok(u) => url_of(base@, opt_view(query)) == Some(u@),
            Err(_) => url_of(base@, opt_view(query)) is None,
        },
{
    match url::Url::parse(base) {
        Ok(mut u) => {
            u.set_query(query);
            Ok(String::from(u))
        },
        Err(e) => Err(e),
    }
}

/// Whether `r` is what resolving an endpoint gives: the validation error if
/// the parameters raise one, else the URL made of `base` and `query`
/// (`Unknown` where the base does not parse).
pub open spec fn resolves_to(
    refusal: Option<HttpError>,
    base: Seq<char>,
    query: Option<Seq<char>>,
    r: Result<String, HttpError>,
) -> bool {
    match refusal {
        Some(e) => r == Err::<String, HttpError>(e),
        None => match url_of(base, query) {
            Some(u) => r is Ok && r->Ok_0@ == u,
            None => r == Err::<String, HttpError>(HttpError::Unknown),
        },
    }
}

/// The URL made of `base` and `query`.
pub(crate) fn resolve(base: &str, query: Option<&str>) -> (r: Result<String, HttpError>)
    ensures
        resolves_to(None, base@, opt_view(query), r),
{
    match parse_with_query(base, query) {
        Ok(u) => Ok(u),
        Err(_) => Err(HttpError::Unknown),
    }
}

/// A request ready to be sent: a GET of `url` with the token in the
/// `TOKEN_KEY` header.
#[derive(Debug, Clone, PartialEq, Eq)]
pub struct ApiRequest {
    pub url: String,
    pub token: String,
}

impl ApiRequest {
    /// The HTTP method, always GET.
    pub fn method(&self) -> (r: &'static str)
        ensures
            r@ == "GET"@,
    {
        "GET"
    }

    /// The name of the header that carries the token.
    pub fn header(&self) -> (r: &'static str)
        ensures
            r@ == TOKEN_KEY@,
    {
        TOKEN_KEY
    }
}

} // verus!
