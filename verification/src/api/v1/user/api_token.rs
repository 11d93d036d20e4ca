use vstd::prelude::*;
use crate::api::endpoint_prelude::{BuildError, Endpoint, Method};
use crate::api::params::QueryParams;
use crate::api::v1::{Limit, DEFAULT_SECS_BETWEEN_CALLS};

verus! {

/// Query the `api_token` endpoint.
#[derive(Debug, Clone, Copy, PartialEq, Eq, Structural)]
pub struct ApiToken {}

/// The builder of an `ApiToken` endpoint.
#[derive(Debug, Clone, Copy, PartialEq, Eq, Structural)]
pub struct ApiTokenBuilder {}

impl ApiToken {
    /// Create a builder for the endpoint.
    pub fn builder() -> (b: ApiTokenBuilder)
        ensures
            b == (ApiTokenBuilder {}),
    {
        ApiTokenBuilder {}
    }
}

impl ApiTokenBuilder {
    /// Builds the endpoint; with nothing to set, nothing can be amiss.
    pub fn build(self) -> (r: Result<ApiToken, BuildError>)
        ensures
            r == Ok::<ApiToken, BuildError>((ApiToken {})),
    {
        Ok(ApiToken {})
    }
}

impl Endpoint for ApiToken {
    open spec fn spec_method(&self) -> Method {
        Method::Get
    }

    open spec fn spec_endpoint(&self) -> Seq<char> {
        "v1/user/api_token"@
    }

    open spec fn spec_parameters(&self) -> Seq<(Seq<char>, Seq<char>)> {
        Seq::empty()
    }

    fn method(&self) -> (m: Method) {
        Method::Get
    }

    fn endpoint(&self) -> (path: String) {
        String::from_str("v1/user/api_token")
    }

    fn parameters(&self) -> (params: QueryParams) {
        QueryParams::new()
    }
}

impl Limit for ApiToken {
    open spec fn spec_secs_between_calls() -> nat {
        DEFAULT_SECS_BETWEEN_CALLS as nat
    }

    fn secs_between_calls() -> (secs: usize) {
        DEFAULT_SECS_BETWEEN_CALLS
    }
}

} // verus!
