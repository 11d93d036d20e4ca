use vstd::prelude::*;
use crate::api::endpoint_prelude::{BuildError, Endpoint, Method};
use crate::api::params::QueryParams;
use crate::api::v1::{Limit, DEFAULT_SECS_BETWEEN_CALLS};

verus! {

/// Create an Update endpoint for posts.
///
/// <https://pinboard.in/api/#posts_update>
///
/// This endpoint returns the most recent time a bookmark was added, updated, or deleted.
/// The guidance is to use this before All to see if a call to get all bookmarks is necessary.
#[derive(Debug, Clone, Copy, PartialEq, Eq, Structural)]
pub struct Update {}

/// The builder of an `Update` endpoint.
#[derive(Debug, Clone, Copy, PartialEq, Eq, Structural)]
pub struct UpdateBuilder {}

impl Update {
    /// Create a builder for the endpoint.
    pub fn builder() -> (b: UpdateBuilder)
        ensures
            b == (UpdateBuilder {}),
    {
        UpdateBuilder {}
    }
}

impl UpdateBuilder {
    /// Builds the endpoint; with nothing to set, nothing can be amiss.
    pub fn build(self) -> (r: Result<Update, BuildError>)
        ensures
            r == Ok::<Update, BuildError>((Update {})),
    {
        Ok(Update {})
    }
}

impl Endpoint for Update {
    open spec fn spec_method(&self) -> Method {
        Method::Get
    }

    open spec fn spec_endpoint(&self) -> Seq<char> {
        "v1/posts/update"@
    }

    open spec fn spec_parameters(&self) -> Seq<(Seq<char>, Seq<char>)> {
        Seq::empty()
    }

    fn method(&self) -> (m: Method) {
        Method::Get
    }

    fn endpoint(&self) -> (path: String) {
        String::from_str("v1/posts/update")
    }

    fn parameters(&self) -> (params: QueryParams) {
        QueryParams::new()
    }
}

impl Limit for Update {
    open spec fn spec_secs_between_calls() -> nat {
        DEFAULT_SECS_BETWEEN_CALLS as nat
    }

    fn secs_between_calls() -> (secs: usize) {
        DEFAULT_SECS_BETWEEN_CALLS
    }
}

} // verus!
