use vstd::prelude::*;
use crate::api::endpoint_prelude::{BuildError, Endpoint, Method};
use crate::api::params::QueryParams;

verus! {

/// Posts to the `auth` endpoint.
#[derive(Debug, Clone, Copy, PartialEq, Eq, Structural)]
pub struct Auth {}

/// The builder of an `Auth` endpoint.
#[derive(Debug, Clone, Copy, PartialEq, Eq, Structural)]
pub struct AuthBuilder {}

impl Auth {
    /// Create a builder for the endpoint.
    pub fn builder() -> (b: AuthBuilder)
        ensures
            b == (AuthBuilder {}),
    {
        AuthBuilder {}
    }
}

impl AuthBuilder {
    /// Builds the endpoint; with nothing to set, nothing can be amiss.
    pub fn build(self) -> (r: Result<Auth, BuildError>)
        ensures
            r == Ok::<Auth, BuildError>((Auth {})),
    {
        Ok(Auth {})
    }
}

impl Endpoint for Auth {
    open spec fn spec_method(&self) -> Method {
        Method::Post
    }

    open spec fn spec_endpoint(&self) -> Seq<char> {
        "auth"@
    }

    open spec fn spec_parameters(&self) -> Seq<(Seq<char>, Seq<char>)> {
        Seq::empty()
    }

    fn method(&self) -> (m: Method) {
        Method::Post
    }

    fn endpoint(&self) -> (path: String) {
        String::from_str("auth")
    }

    fn parameters(&self) -> (params: QueryParams) {
        QueryParams::new()
    }
}

} // verus!
