//! The areas-nearby operation: areas close to a GPS position.
use vstd::prelude::*;

use crate::decimal::{denotes_zero, Decimal};
use crate::errors::HttpError;
use crate::request::resolve;
use crate::traits::Endpoint;
use crate::Endpoints;

verus! {

/// The query that carries a position: `lat=<latitude>&long=<longitude>`.
pub open spec fn position_query(latitude: Seq<char>, longitude: Seq<char>) -> Seq<char> {
    "lat="@ + latitude + "&long="@ + longitude
}

/// The error for a position of which a coordinate is zero, which the API
/// reads as "not set".
pub open spec fn position_refusal(latitude: Decimal, longitude: Decimal) -> Option<HttpError> {
    if denotes_zero(latitude@) || denotes_zero(longitude@) {
        Some(HttpError::LongitudeOrLatitudeNotSet { longitude, latitude })
    } else {
        None
    }
}

/// The URL for a position at `base`, shared by the two position operations.
pub(crate) fn position_url(base: &str, latitude: &Decimal, longitude: &Decimal) -> (r: Result<
    String,
    HttpError,
>)
    ensures
        crate::request::resolves_to(
            position_refusal(*latitude, *longitude),
            base@,
            Some(position_query(latitude@, longitude@)),
            r,
        ),
{
    if latitude.is_zero() || longitude.is_zero() {
        return Err(
            HttpError::LongitudeOrLatitudeNotSet {
                longitude: longitude.duplicate(),
                latitude: latitude.duplicate(),
            },
        );
    }
    let mut query = String::from_str("lat=");
    query.append(latitude.as_str());
    query.append("&long=");
    query.append(longitude.as_str());
    resolve(base, Some(query.as_str()))
}

/// The descriptor of the areas-nearby operation.
#[derive(Debug, Clone, Default)]
pub struct AreasNearbyURL {
    pub latitude: Decimal,
    pub longitude: Decimal,
}

impl AreasNearbyURL {
    /// The descriptor for the position (`latitude`, `longitude`).
    pub fn new(latitude: Decimal, longitude: Decimal) -> (r: AreasNearbyURL)
        ensures
            r.latitude == latitude,
            r.longitude == longitude,
    {
        AreasNearbyURL { latitude, longitude }
    }
}

impl Endpoint for AreasNearbyURL {
    open spec fn base(&self) -> Seq<char> {
        Endpoints::AreasNearby.address()
    }

    open spec fn query(&self) -> Option<Seq<char>> {
        Some(position_query(self.latitude@, self.longitude@))
    }

    open spec fn refusal(&self) -> Option<HttpError> {
        position_refusal(self.latitude, self.longitude)
    }

    fn endpoint(&self) -> (r: &'static str) {
        Endpoints::AreasNearby.as_str()
    }

    fn url(&self) -> (r: Result<String, HttpError>) {
        position_url(self.endpoint(), &self.latitude, &self.longitude)
    }
}

/// The areas near a position, the closest first.
#[derive(Debug, Clone, PartialEq, Eq, Default)]
pub struct AreaNearby {
    pub areas: Vec<Area>,
}

/// One area near a position.
#[derive(Debug, Clone, PartialEq, Eq, Default)]
pub struct Area {
    pub count: i64,
    pub id: String,
    pub name: String,
    pub region: String,
}

} // verus!
