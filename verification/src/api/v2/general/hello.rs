use vstd::prelude::*;
use crate::api::endpoint_prelude::{BuildError, Endpoint, Method};
use crate::api::params::QueryParams;

verus! {

/// Query the `hello` endpoint.
#[derive(Debug, Clone, Copy, PartialEq, Eq, Structural)]
pub struct Hello {}

/// The builder of a `Hello` endpoint.
#[derive(Debug, Clone, Copy, PartialEq, Eq, Structural)]
pub struct HelloBuilder {}

impl Hello {
    /// Create a builder for the endpoint.
    pub fn builder() -> (b: HelloBuilder)
        ensures
            b == (HelloBuilder {}),
    {
        HelloBuilder {}
    }
}

impl HelloBuilder {
    /// Builds the endpoint; with nothing to set, nothing can be amiss.
    pub fn build(self) -> (r: Result<Hello, BuildError>)
        ensures
            r == Ok::<Hello, BuildError>((Hello {})),
    {
        Ok(Hello {})
    }
}

impl Endpoint for Hello {
    open spec fn spec_method(&self) -> Method {
        Method::Get
    }

    open spec fn spec_endpoint(&self) -> Seq<char> {
        "hello"@
    }

    open spec fn spec_parameters(&self) -> Seq<(Seq<char>, Seq<char>)> {
        Seq::empty()
    }

    fn method(&self) -> (m: Method) {
        Method::Get
    }

    fn endpoint(&self) -> (path: String) {
        String::from_str("hello")
    }

    fn parameters(&self) -> (params: QueryParams) {
        QueryParams::new()
    }
}

} // verus!
