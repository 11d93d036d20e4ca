use vstd::prelude::*;
use crate::api::endpoint_prelude::{BuildError, Endpoint, Method};
use crate::api::params::QueryParams;
use crate::api::v1::{Limit, DEFAULT_SECS_BETWEEN_CALLS};

verus! {

/// Create a Get endpoint for tags.
///
/// <https://pinboard.in/api/#tags_get>
///
/// There are no arguments for this endpoint.
#[derive(Debug, Clone, Copy, PartialEq, Eq, Structural)]
pub struct Get {}

/// The builder of a `Get` endpoint.
#[derive(Debug, Clone, Copy, PartialEq, Eq, Structural)]
pub struct GetBuilder {}

impl Get {
    /// Create a builder for the endpoint.
    pub fn builder() -> (b: GetBuilder)
        ensures
            b == (GetBuilder {}),
    {
        GetBuilder {}
    }
}

impl GetBuilder {
    /// Builds the endpoint; with nothing to set, nothing can be amiss.
    pub fn build(self) -> (r: Result<Get, BuildError>)
        ensures
            r == Ok::<Get, BuildError>((Get {})),
    {
        Ok(Get {})
    }
}

impl Endpoint for Get {
    open spec fn spec_method(&self) -> Method {
        Method::Get
    }

    open spec fn spec_endpoint(&self) -> Seq<char> {
        "v1/tags/get"@
    }

    open spec fn spec_parameters(&self) -> Seq<(Seq<char>, Seq<char>)> {
        Seq::empty()
    }

    fn method(&self) -> (m: Method) {
        Method::Get
    }

    fn endpoint(&self) -> (path: String) {
        String::from_str("v1/tags/get")
    }

    fn parameters(&self) -> (params: QueryParams) {
        QueryParams::new()
    }
}

impl Limit for Get {
    open spec fn spec_secs_between_calls() -> nat {
        DEFAULT_SECS_BETWEEN_CALLS as nat
    }

    fn secs_between_calls() -> (secs: usize) {
        DEFAULT_SECS_BETWEEN_CALLS
    }
}

} // verus!
