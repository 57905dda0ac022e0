//! The request of each operation, for a token.
use vstd::prelude::*;

use crate::allowance::AllowanceCheckURL;
use crate::area_info::AreaInfoURL;
use crate::area_nearby::AreasNearbyURL;
use crate::area_search::AreaSearchURL;
use crate::area_nearby::position_query;
use crate::decimal::{denotes_zero, Decimal};
use crate::request::{resolves_to, url_of};
use crate::text::blank;
use crate::traits::Endpoint;
use crate::errors::HttpError;
use crate::request::ApiRequest;
use crate::status::EskomStatusUrl;
use crate::topics_nearby::TopicsNearbyUrl;
use crate::traits::{prepare, prepared};

verus! {

/// The status request.
pub fn get_load_shedding_status(token: &str) -> (r: Result<ApiRequest, HttpError>)
    ensures
        prepared(&EskomStatusUrl {  }, token@, r),
{
    prepare(&EskomStatusUrl {  }, token)
}

/// The area-information request for `area_id`.
pub fn get_area_info(token: &str, area_id: &str) -> (r: Result<ApiRequest, HttpError>)
    ensures
        exists|d: AreaInfoURL| d.area_id@ == area_id@ && prepared(&d, token@, r),
{
    let d = AreaInfoURL::new(String::from_str(area_id));
    prepare(&d, token)
}

/// The area-search request for `search_term`.
pub fn get_areas_search(token: &str, search_term: &str) -> (r: Result<ApiRequest, HttpError>)
    ensures
        exists|d: AreaSearchURL| d.search_term@ == search_term@ && prepared(&d, token@, r),
{
    let d = AreaSearchURL::new(String::from_str(search_term));
    prepare(&d, token)
}

/// The areas-nearby request for (`lat`, `long`).
pub fn get_areas_nearby(token: &str, lat: Decimal, long: Decimal) -> (r: Result<ApiRequest, HttpError>)
    ensures
        prepared(&AreasNearbyURL { latitude: lat, longitude: long }, token@, r),
{
    prepare(&AreasNearbyURL::new(lat, long), token)
}

/// The topics-nearby request for (`lat`, `long`).
pub fn get_topics_search(token: &str, lat: Decimal, long: Decimal) -> (r: Result<ApiRequest, HttpError>)
    ensures
        prepared(&TopicsNearbyUrl { latitude: lat, longitude: long }, token@, r),
{
    prepare(&TopicsNearbyUrl::new(lat, long), token)
}

/// The allowance request.
pub fn check_allowance(token: &str) -> (r: Result<ApiRequest, HttpError>)
    ensures
        prepared(&AllowanceCheckURL {  }, token@, r),
{
    prepare(&AllowanceCheckURL {  }, token)
}

/// An area id or a search text that is empty or white space only is refused
/// with its own error, whatever else holds, so no URL is made of it; any other
/// is not refused.
pub proof fn lemma_blank_parameter_refused(
    info: AreaInfoURL,
    search: AreaSearchURL,
    r_info: Result<String, HttpError>,
    r_search: Result<String, HttpError>,
)
    requires
        resolves_to(info.refusal(), info.base(), info.query(), r_info),
        resolves_to(search.refusal(), search.base(), search.query(), r_search),
    ensures
        (r_info == Err::<String, HttpError>(HttpError::AreaIdNotSet)) <==> blank(info.area_id@),
        (r_search == Err::<String, HttpError>(HttpError::SearchTextNotSet)) <==> blank(
            search.search_term@,
        ),
        !blank(info.area_id@) ==> (r_info is Ok <==> url_of(info.base(), info.query()) is Some),
        !blank(search.search_term@) ==> (r_search is Ok <==> url_of(
            search.base(),
            search.query(),
        ) is Some),
{
}

/// A position with a zero coordinate is refused, carrying both coordinates,
/// by both position operations. Any other position is not refused: its query
/// is `lat=<latitude>&long=<longitude>`, with both texts as they were given.
pub proof fn lemma_position_validation(
    latitude: Decimal,
    longitude: Decimal,
    r_areas: Result<String, HttpError>,
    r_topics: Result<String, HttpError>,
)
    requires
        resolves_to(
            AreasNearbyURL { latitude, longitude }.refusal(),
            AreasNearbyURL { latitude, longitude }.base(),
            AreasNearbyURL { latitude, longitude }.query(),
            r_areas,
        ),
        resolves_to(
            TopicsNearbyUrl { latitude, longitude }.refusal(),
            TopicsNearbyUrl { latitude, longitude }.base(),
            TopicsNearbyUrl { latitude, longitude }.query(),
            r_topics,
        ),
    ensures
        denotes_zero(latitude@) || denotes_zero(longitude@) ==> {
            &&& r_areas == Err::<String, HttpError>(
                HttpError::LongitudeOrLatitudeNotSet { longitude, latitude },
            )
            &&& r_topics == Err::<String, HttpError>(
                HttpError::LongitudeOrLatitudeNotSet { longitude, latitude },
            )
        },
        !denotes_zero(latitude@) && !denotes_zero(longitude@) ==> {
            let q = position_query(latitude@, longitude@);
            &&& AreasNearbyURL { latitude, longitude }.refusal() is None
            &&& TopicsNearbyUrl { latitude, longitude }.refusal() is None
            &&& AreasNearbyURL { latitude, longitude }.query() == Some(q)
            &&& TopicsNearbyUrl { latitude, longitude }.query() == Some(q)
            &&& (r_areas is Ok <==> url_of(
                AreasNearbyURL { latitude, longitude }.base(),
                Some(q),
            ) is Some)
            &&& (r_topics is Ok <==> url_of(
                TopicsNearbyUrl { latitude, longitude }.base(),
                Some(q),
            ) is Some)
            &&& q.subrange(4, 4 + latitude@.len() as int) == latitude@
            &&& q.subrange(q.len() - longitude@.len(), q.len() as int) == longitude@
        },
{
    let q = position_query(latitude@, longitude@);
    assert(q.subrange(4, 4 + latitude@.len() as int) =~= latitude@) by {
        reveal_strlit("lat=");
    }
    assert(q.subrange(q.len() - longitude@.len(), q.len() as int) =~= longitude@);
}

} // verus!
