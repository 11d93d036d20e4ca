use vstd::prelude::*;
use crate::api::endpoint_prelude::{BuildError, Endpoint, Method};
use crate::api::params::QueryParams;

verus! {

/// Query the `last_update` endpoint.
#[derive(Debug, Clone, Copy, PartialEq, Eq, Structural)]
pub struct LastUpdate {}

/// The builder of a `LastUpdate` endpoint.
#[derive(Debug, Clone, Copy, PartialEq, Eq, Structural)]
pub struct LastUpdateBuilder {}

impl LastUpdate {
    /// Create a builder for the endpoint.
    pub fn builder() -> (b: LastUpdateBuilder)
        ensures
            b == (LastUpdateBuilder {}),
    {
        LastUpdateBuilder {}
    }
}

impl LastUpdateBuilder {
    /// Builds the endpoint; with nothing to set, nothing can be amiss.
    pub fn build(self) -> (r: Result<LastUpdate, BuildError>)
        ensures
            r == Ok::<LastUpdate, BuildError>((LastUpdate {})),
    {
        Ok(LastUpdate {})
    }
}

impl Endpoint for LastUpdate {
    open spec fn spec_method(&self) -> Method {
        Method::Get
    }

    open spec fn spec_endpoint(&self) -> Seq<char> {
        "last_update"@
    }

    open spec fn spec_parameters(&self) -> Seq<(Seq<char>, Seq<char>)> {
        Seq::empty()
    }

    fn method(&self) -> (m: Method) {
        Method::Get
    }

    fn endpoint(&self) -> (path: String) {
        String::from_str("last_update")
    }

    fn parameters(&self) -> (params: QueryParams) {
        QueryParams::new()
    }
}

} // verus!
