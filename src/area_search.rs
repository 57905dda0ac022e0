//! The area-search operation: areas whose name matches a text.
use vstd::prelude::*;

use crate::errors::HttpError;
use crate::request::resolve;
use crate::text::{blank, is_blank};
use crate::traits::Endpoint;
use crate::Endpoints;

verus! {

/// The descriptor of the area-search operation.
#[derive(Debug, Clone, Default)]
pub struct AreaSearchURL {
    /// The text to search for.
    pub search_term: String,
}

impl AreaSearchURL {
    /// The descriptor of a search for `search_term`.
    pub fn new(search_term: String) -> (r: AreaSearchURL)
        ensures
            r.search_term == search_term,
    {
        AreaSearchURL { search_term }
    }
}

impl Endpoint for AreaSearchURL {
    open spec fn base(&self) -> Seq<char> {
        Endpoints::AreasSearch.address()
    }

    open spec fn query(&self) -> Option<Seq<char>> {
        Some("text="@ + self.search_term@)
    }

    open spec fn refusal(&self) -> Option<HttpError> {
        if blank(self.search_term@) {
            Some(HttpError::SearchTextNotSet)
        } else {
            None
        }
    }

    fn endpoint(&self) -> (r: &'static str) {
        Endpoints::AreasSearch.as_str()
    }

    fn url(&self) -> (r: Result<String, HttpError>) {
        if is_blank(self.search_term.as_str()) {
            return Err(HttpError::SearchTextNotSet);
        }
        let mut query = String::from_str("text=");
        query.append(self.search_term.as_str());
        resolve(self.endpoint(), Some(query.as_str()))
    }
}

/// The areas that a search found.
#[derive(Debug, Clone, PartialEq, Eq, Default)]
pub struct AreaSearch {
    pub areas: Vec<Area>,
}

/// One area that a search found.
#[derive(Debug, Clone, PartialEq, Eq, Default)]
pub struct Area {
    /// The id of the area, for the area-information operation.
    pub id: String,
    /// The name of the area.
    pub name: String,
    /// The region the area is in.
    pub region: String,
}

} // verus!
