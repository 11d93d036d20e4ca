use vstd::prelude::*;
use crate::api::endpoint_prelude::{BuildError, Endpoint, Method};
use crate::api::params::QueryParams;
use crate::api::v1::{Limit, DEFAULT_SECS_BETWEEN_CALLS};

verus! {

/// Create a List endpoint for notes.
///
/// <https://pinboard.in/api/#notes_list>
///
/// There are no arguments for this endpoint.
#[derive(Debug, Clone, Copy, PartialEq, Eq, Structural)]
pub struct List {}

/// The builder of a `List` endpoint.
#[derive(Debug, Clone, Copy, PartialEq, Eq, Structural)]
pub struct ListBuilder {}

impl List {
    /// Create a builder for the endpoint.
    pub fn builder() -> (b: ListBuilder)
        ensures
            b == (ListBuilder {}),
    {
        ListBuilder {}
    }
}

impl ListBuilder {
    /// Builds the endpoint; with nothing to set, nothing can be amiss.
    pub fn build(self) -> (r: Result<List, BuildError>)
        ensures
            r == Ok::<List, BuildError>((List {})),
    {
        Ok(List {})
    }
}

impl Endpoint for List {
    open spec fn spec_method(&self) -> Method {
        Method::Get
    }

    open spec fn spec_endpoint(&self) -> Seq<char> {
        "v1/notes/list"@
    }

    open spec fn spec_parameters(&self) -> Seq<(Seq<char>, Seq<char>)> {
        Seq::empty()
    }

    fn method(&self) -> (m: Method) {
        Method::Get
    }

    fn endpoint(&self) -> (path: String) {
        String::from_str("v1/notes/list")
    }

    fn parameters(&self) -> (params: QueryParams) {
        QueryParams::new()
    }
}

impl Limit for List {
    open spec fn spec_secs_between_calls() -> nat {
        DEFAULT_SECS_BETWEEN_CALLS as nat
    }

    fn secs_between_calls() -> (secs: usize) {
        DEFAULT_SECS_BETWEEN_CALLS
    }
}

} // verus!
