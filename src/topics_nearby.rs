//! The topics-nearby operation: what users report close to a GPS position.
use vstd::prelude::*;

use crate::area_nearby::{position_query, position_refusal, position_url};
use crate::decimal::Decimal;
use crate::errors::HttpError;
use crate::traits::Endpoint;
use crate::Endpoints;

verus! {

/// The descriptor of the topics-nearby operation.
#[derive(Debug, Clone, Default)]
pub struct TopicsNearbyUrl {
    pub latitude: Decimal,
    pub longitude: Decimal,
}

impl TopicsNearbyUrl {
    /// The descriptor for the position (`latitude`, `longitude`).
    pub fn new(latitude: Decimal, longitude: Decimal) -> (r: TopicsNearbyUrl)
        ensures
            r.latitude == latitude,
            r.longitude == longitude,
    {
        TopicsNearbyUrl { latitude, longitude }
    }
}

impl Endpoint for TopicsNearbyUrl {
    open spec fn base(&self) -> Seq<char> {
        Endpoints::TopicsNearby.address()
    }

    open spec fn query(&self) -> Option<Seq<char>> {
        Some(position_query(self.latitude@, self.longitude@))
    }

    open spec fn refusal(&self) -> Option<HttpError> {
        position_refusal(self.latitude, self.longitude)
    }

    fn endpoint(&self) -> (r: &'static str) {
        Endpoints::TopicsNearby.as_str()
    }

    fn url(&self) -> (r: Result<String, HttpError>) {
        position_url(self.endpoint(), &self.latitude, &self.longitude)
    }
}

/// The topics near a position.
#[derive(Debug, Clone, PartialEq, Eq, Default)]
pub struct TopicsNearby {
    pub topics: Vec<Topic>,
}

/// One topic that users opened.
#[derive(Debug, Clone, PartialEq, Eq, Default)]
pub struct Topic {
    pub active: String,
    pub body: String,
    pub category: String,
    /// How far away the topic is.
    pub distance: Decimal,
    pub followers: i64,
    pub timestamp: String,
}

} // verus!
