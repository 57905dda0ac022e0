//! Client library for the EskomSePush load-shedding API.
//!
//! The library builds and validates the request for each API operation,
//! classifies what a transport brought back into a closed set of errors,
//! and holds the typed response records. Sending requests and decoding
//! JSON are left to the caller's transport.
use vstd::prelude::*;

pub mod allowance;
pub mod area_info;
pub mod area_nearby;
pub mod area_search;
pub mod config;
pub mod decimal;
pub mod endpoints;
pub mod errors;
pub mod reqwest_blocking_client;
pub mod request;
pub mod response;
pub mod status;
pub mod text;
pub mod topics_nearby;
pub mod traits;
pub mod ureq_client;

pub use config::get_token_from_env;
pub use traits::Endpoint;

verus! {

/// The operations of the API, each with its address.
pub enum Endpoints {
    Status,
    AreaInfo,
    AreasNearby,
    AreasSearch,
    TopicsNearby,
    CheckAllowace,
}

impl Endpoints {
    /// The address of the operation, without a query.
    pub open spec fn address(&self) -> Seq<char> {
        match self {
            Endpoints::Status => "https://developer.sepush.co.za/business/2.0/status"@,
            Endpoints::AreaInfo => "https://developer.sepush.co.za/business/2.0/area"@,
            Endpoints::AreasNearby => "https://developer.sepush.co.za/business/2.0/areas_nearby"@,
            Endpoints::AreasSearch => "https://developer.sepush.co.za/business/2.0/areas_search"@,
            Endpoints::TopicsNearby => "https://developer.sepush.co.za/business/2.0/topics_nearby"@,
            Endpoints::CheckAllowace => "https://developer.sepush.co.za/business/2.0/api_allowance"@,
        }
    }

    /// The address of the operation, without a query.
    pub fn as_str(&self) -> (r: &'static str)
        ensures
            r@ == self.address(),
    {
        match self {
            Endpoints::Status => "https://developer.sepush.co.za/business/2.0/status",
            Endpoints::AreaInfo => "https://developer.sepush.co.za/business/2.0/area",
            Endpoints::AreasNearby => "https://developer.sepush.co.za/business/2.0/areas_nearby",
            Endpoints::AreasSearch => "https://developer.sepush.co.za/business/2.0/areas_search",
            Endpoints::TopicsNearby => "https://developer.sepush.co.za/business/2.0/topics_nearby",
            Endpoints::CheckAllowace => "https://developer.sepush.co.za/business/2.0/api_allowance",
        }
    }

    /// The address of the operation, as an owned string.
    pub fn to_string(&self) -> (r: String)
        ensures
            r@ == self.address(),
    {
        String::from_str(self.as_str())
    }
}

} // verus!
