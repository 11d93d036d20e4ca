use vstd::prelude::*;
use crate::api::endpoint_prelude::{BuildError, Endpoint, Method};
use crate::api::params::QueryParams;
use crate::api::v1::{Limit, DEFAULT_SECS_BETWEEN_CALLS};

verus! {

/// Create a Secret endpoint for users.
///
/// <https://pinboard.in/api/#user_secret>
///
/// This endpoint returns the user's secret RSS key.
#[derive(Debug, Clone, Copy, PartialEq, Eq, Structural)]
pub struct Secret {}

/// The builder of a `Secret` endpoint.
#[derive(Debug, Clone, Copy, PartialEq, Eq, Structural)]
pub struct SecretBuilder {}

impl Secret {
    /// Create a builder for the endpoint.
    pub fn builder() -> (b: SecretBuilder)
        ensures
            b == (SecretBuilder {}),
    {
        SecretBuilder {}
    }
}

impl SecretBuilder {
    /// Builds the endpoint; with nothing to set, nothing can be amiss.
    pub fn build(self) -> (r: Result<Secret, BuildError>)
        ensures
            r == Ok::<Secret, BuildError>((Secret {})),
    {
        Ok(Secret {})
    }
}

impl Endpoint for Secret {
    open spec fn spec_method(&self) -> Method {
        Method::Get
    }

    open spec fn spec_endpoint(&self) -> Seq<char> {
        "v1/user/secret"@
    }

    open spec fn spec_parameters(&self) -> Seq<(Seq<char>, Seq<char>)> {
        Seq::empty()
    }

    fn method(&self) -> (m: Method) {
        Method::Get
    }

    fn endpoint(&self) -> (path: String) {
        String::from_str("v1/user/secret")
    }

    fn parameters(&self) -> (params: QueryParams) {
        QueryParams::new()
    }
}

impl Limit for Secret {
    open spec fn spec_secs_between_calls() -> nat {
        DEFAULT_SECS_BETWEEN_CALLS as nat
    }

    fn secs_between_calls() -> (secs: usize) {
        DEFAULT_SECS_BETWEEN_CALLS
    }
}

} // verus!
