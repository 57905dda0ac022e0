//! The area-information operation: everything needed to follow the
//! load-shedding events of one area.
use vstd::prelude::*;

use crate::errors::HttpError;
use crate::request::resolve;
use crate::text::{blank, is_blank};
use crate::traits::Endpoint;
use crate::Endpoints;

verus! {

/// The descriptor of the area-information operation.
#[derive(Debug, Clone, Default)]
pub struct AreaInfoURL {
    /// The id of the area, as Area Search or Areas Nearby give it.
    pub area_id: String,
}

impl AreaInfoURL {
    /// The descriptor for the area with id `area_id`.
    pub fn new(area_id: String) -> (r: AreaInfoURL)
        ensures
            r.area_id == area_id,
    {
        AreaInfoURL { area_id }
    }
}

impl Endpoint for AreaInfoURL {
    open spec fn base(&self) -> Seq<char> {
        Endpoints::AreaInfo.address()
    }

    open spec fn query(&self) -> Option<Seq<char>> {
        Some("id="@ + self.area_id@)
    }

    open spec fn refusal(&self) -> Option<HttpError> {
        if blank(self.area_id@) {
            Some(HttpError::AreaIdNotSet)
        } else {
            None
        }
    }

    fn endpoint(&self) -> (r: &'static str) {
        Endpoints::AreaInfo.as_str()
    }

    fn url(&self) -> (r: Result<String, HttpError>) {
        if is_blank(self.area_id.as_str()) {
            return Err(HttpError::AreaIdNotSet);
        }
        let mut query = String::from_str("id=");
        query.append(self.area_id.as_str());
        resolve(self.endpoint(), Some(query.as_str()))
    }
}

/// What the API knows of one area.
#[derive(Debug, Clone, PartialEq, Eq, Default)]
pub struct AreaInfo {
    /// The coming events, sorted; empty where the area is not affected.
    pub events: Vec<Event>,
    /// The name and region of the area.
    pub info: Info,
    /// The raw schedule, per stage.
    pub schedule: Schedule,
}

/// One load-shedding event.
#[derive(Debug, Clone, PartialEq, Eq, Default)]
pub struct Event {
    /// When the event ends, such as `2022-08-08T22:30:00+02:00`.
    pub end: String,
    /// The stage of the event, such as `Stage 2`.
    pub note: String,
    /// When the event starts, such as `2022-08-08T20:00:00+02:00`.
    pub start: String,
}

/// The name and region of an area.
#[derive(Debug, Clone, PartialEq, Eq, Default)]
pub struct Info {
    pub name: String,
    pub region: String,
}

/// The raw schedule of an area.
#[derive(Debug, Clone, PartialEq, Eq, Default)]
pub struct Schedule {
    /// The days and their stages.
    pub days: Vec<Day>,
    /// Where the data came from.
    pub source: String,
}

/// The schedule of one day.
#[derive(Debug, Clone, PartialEq, Eq, Default)]
pub struct Day {
    /// The date, such as `2022-08-08`.
    pub date: String,
    /// The day of the week, such as `Monday`.
    pub name: String,
    /// The time slots per stage: index 0 is stage 1. An empty list means no
    /// events at that stage; some regions give four stages instead of eight.
    pub stages: Vec<Vec<String>>,
}

} // verus!
