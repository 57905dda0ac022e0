//! The client for the blocking `ureq` transport: it prepares each operation's
//! request with its token, and maps what `ureq` brought back.
use vstd::prelude::*;

use crate::allowance::AllowanceCheckURL;
use crate::area_info::AreaInfoURL;
use crate::area_nearby::AreasNearbyURL;
use crate::area_search::AreaSearchURL;
use crate::config::{get_token_from_env, token_outcome};
use crate::decimal::Decimal;
use crate::endpoints;
use crate::errors::HttpError;
use crate::request::ApiRequest;
use crate::response::{exchange_outcome, failure_to_error, status_to_error, Decoded, Received, TransportFailure};
use crate::status::EskomStatusUrl;
use crate::topics_nearby::TopicsNearbyUrl;
use crate::traits::prepared;

verus! {

/// A client that holds the API token.
pub struct UreqClient {
    token: String,
}

impl UreqClient {
    /// The token that the client sends.
    pub closed spec fn token_view(&self) -> Seq<char> {
        self.token@
    }

    /// A client that sends `token`.
    pub fn new(token: String) -> (r: UreqClient)
        ensures
            r.token_view() == token@,
    {
        UreqClient { token }
    }

    /// A client whose token is `value`, the value of the environment variable
    /// named `var_name` (`ESKOMSEPUSH_API_KEY` where it is `None`); an absent or
    /// empty value is refused.
    pub fn new_with_env(var_name: Option<&str>, value: Option<String>) -> (r: Result<
        UreqClient,
        HttpError,
    >)
        ensures
            match r {
                Ok(c) => token_outcome(var_name, value, Ok::<Seq<char>, HttpError>(c.token_view())),
                Err(e) => token_outcome(var_name, value, Err::<Seq<char>, HttpError>(e)),
            },
    {
        match get_token_from_env(var_name, value) {
            Ok(token) => Ok(UreqClient { token }),
            Err(e) => Err(e),
        }
    }

    /// The request for the current and coming load-shedding status.
    pub fn get_load_shedding_status(&self) -> (r: Result<ApiRequest, HttpError>)
        ensures
            prepared(&EskomStatusUrl {  }, self.token_view(), r),
    {
        endpoints::get_load_shedding_status(self.token.as_str())
    }

    /// The request for what the API knows of the area `area_id`; a blank id is
    /// refused here, before any request exists.
    pub fn get_area_info(&self, area_id: &str) -> (r: Result<ApiRequest, HttpError>)
        ensures
            exists|d: AreaInfoURL| d.area_id@ == area_id@ && prepared(&d, self.token_view(), r),
    {
        let r = endpoints::get_area_info(self.token.as_str(), area_id);
        let ghost d = choose|d: AreaInfoURL| d.area_id@ == area_id@ && prepared(&d, self.token@, r);
        assert(prepared(&d, self.token_view(), r));
        r
    }

    /// The request for the areas near (`lat`, `long`); a zero coordinate is
    /// refused here.
    pub fn areas_nearby(&self, lat: Decimal, long: Decimal) -> (r: Result<ApiRequest, HttpError>)
        ensures
            prepared(&AreasNearbyURL { latitude: lat, longitude: long }, self.token_view(), r),
    {
        endpoints::get_areas_nearby(self.token.as_str(), lat, long)
    }

    /// The request for the areas that match `search_term`; a blank term is
    /// refused here.
    pub fn areas_search(&self, search_term: &str) -> (r: Result<ApiRequest, HttpError>)
        ensures
            exists|d: AreaSearchURL|
                d.search_term@ == search_term@ && prepared(&d, self.token_view(), r),
    {
        let r = endpoints::get_areas_search(self.token.as_str(), search_term);
        let ghost d = choose|d: AreaSearchURL|
            d.search_term@ == search_term@ && prepared(&d, self.token@, r);
        assert(prepared(&d, self.token_view(), r));
        r
    }

    /// The request for the topics near (`lat`, `long`); a zero coordinate is
    /// refused here.
    pub fn topics_nearby(&self, lat: Decimal, long: Decimal) -> (r: Result<ApiRequest, HttpError>)
        ensures
            prepared(&TopicsNearbyUrl { latitude: lat, longitude: long }, self.token_view(), r),
    {
        endpoints::get_topics_search(self.token.as_str(), lat, long)
    }

    /// The request for the token's allowance.
    pub fn check_allowance(&self) -> (r: Result<ApiRequest, HttpError>)
        ensures
            prepared(&AllowanceCheckURL {  }, self.token_view(), r),
    {
        endpoints::check_allowance(self.token.as_str())
    }
}

/// The outcome of an exchange over `ureq`: a body of the wrong shape gives
/// `UreqResponseError`, one that could not be read `UnknownError`, each with
/// the message.
pub fn handle_ureq_response<T>(response: Result<Received<T>, TransportFailure>) -> (r: Result<
    T,
    HttpError,
>)
    ensures
        r == exchange_outcome(
            response,
            |m: String| HttpError::UreqResponseError(m),
            |m: String| HttpError::UnknownError(m),
        ),
{
    match response {
        Err(failure) => Err(failure_to_error(failure)),
        Ok(received) => {
            let Received { status, body, json } = received;
            match status_to_error(status, body) {
                Some(e) => Err(e),
                None => match json {
                    Decoded::Record(v) => Ok(v),
                    Decoded::Malformed(m) => Err(HttpError::UreqResponseError(m)),
                    Decoded::Unreadable(m) => Err(HttpError::UnknownError(m)),
                },
            }
        },
    }
}

} // verus!
