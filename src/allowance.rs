//! The allowance operation: how much of the token's quota is used.
use vstd::prelude::*;

use crate::errors::HttpError;
use crate::request::resolve;
use crate::traits::Endpoint;
use crate::Endpoints;

verus! {

/// The descriptor of the allowance operation, which takes no parameters and
/// does not count towards the quota.
#[derive(Debug, Clone, Default)]
pub struct AllowanceCheckURL {}

impl Endpoint for AllowanceCheckURL {
    open spec fn base(&self) -> Seq<char> {
        Endpoints::CheckAllowace.address()
    }

    open spec fn query(&self) -> Option<Seq<char>> {
        None
    }

    open spec fn refusal(&self) -> Option<HttpError> {
        None
    }

    fn endpoint(&self) -> (r: &'static str) {
        Endpoints::CheckAllowace.as_str()
    }

    fn url(&self) -> (r: Result<String, HttpError>) {
        resolve(self.endpoint(), None)
    }
}

/// The state of the token's allowance.
#[derive(Debug, Clone, PartialEq, Eq, Default)]
pub struct AllowanceCheck {
    pub allowance: Allowance,
}

/// The counters of an allowance.
#[derive(Debug, Clone, PartialEq, Eq, Default)]
pub struct Allowance {
    /// How many calls were made today, this operation left out.
    pub count: i64,
    /// How many calls are allowed.
    pub limit: i64,
    /// The kind of account.
    pub type_field: String,
}

} // verus!
