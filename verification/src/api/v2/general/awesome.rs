use vstd::prelude::*;
use crate::api::endpoint_prelude::{BuildError, Endpoint, Method};
use crate::api::params::QueryParams;

verus! {

/// Posts to the `hello` endpoint.
#[derive(Debug, Clone, Copy, PartialEq, Eq, Structural)]
pub struct Awesome {}

/// The builder of an `Awesome` endpoint.
#[derive(Debug, Clone, Copy, PartialEq, Eq, Structural)]
pub struct AwesomeBuilder {}

impl Awesome {
    /// Create a builder for the endpoint.
    pub fn builder() -> (b: AwesomeBuilder)
        ensures
            b == (AwesomeBuilder {}),
    {
        AwesomeBuilder {}
    }
}

impl AwesomeBuilder {
    /// Builds the endpoint; with nothing to set, nothing can be amiss.
    pub fn build(self) -> (r: Result<Awesome, BuildError>)
        ensures
            r == Ok::<Awesome, BuildError>((Awesome {})),
    {
        Ok(Awesome {})
    }
}

impl Endpoint for Awesome {
    open spec fn spec_method(&self) -> Method {
        Method::Post
    }

    open spec fn spec_endpoint(&self) -> Seq<char> {
        "hello"@
    }

    open spec fn spec_parameters(&self) -> Seq<(Seq<char>, Seq<char>)> {
        Seq::empty()
    }

    fn method(&self) -> (m: Method) {
        Method::Post
    }

    fn endpoint(&self) -> (path: String) {
        String::from_str("hello")
    }

    fn parameters(&self) -> (params: QueryParams) {
        QueryParams::new()
    }
}

} // verus!
