use vstd::prelude::*;
use crate::api::endpoint_prelude::{BuildError, Endpoint, Method, RequiredField};
use crate::api::params::QueryParams;
use crate::api::v1::{Limit, DEFAULT_SECS_BETWEEN_CALLS};

verus! {

/// Query the `v1/tags/delete` endpoint.
#[derive(Debug, Clone)]
pub struct Delete {
    tag: String,
}

/// The builder of a `Delete` endpoint.
#[derive(Debug, Clone)]
pub struct DeleteBuilder {
    tag: Option<String>,
}

impl Delete {
    /// The tag to delete.
    pub closed spec fn spec_tag(&self) -> Seq<char> {
        self.tag@
    }

    /// Create a builder for the endpoint.
    pub fn builder() -> (b: DeleteBuilder)
        ensures
            b.spec_tag() is None,
    {
        DeleteBuilder { tag: None }
    }
}

impl DeleteBuilder {
    /// The tag to delete, if it was set.
    pub closed spec fn spec_tag(&self) -> Option<Seq<char>> {
        match self.tag {
            Some(tag) => Some(tag@),
            None => None,
        }
    }

    /// The tag to delete.
    pub fn tag(self, tag: &str) -> (b: DeleteBuilder)
        ensures
            b.spec_tag() == Some(tag@),
    {
        DeleteBuilder { tag: Some(String::from_str(tag)) }
    }

    /// Builds the endpoint, or says that `tag` was never set.
    pub fn build(self) -> (r: Result<Delete, BuildError>)
        ensures
            match self.spec_tag() {
                Some(tag) => r matches Ok(e) && e.spec_tag() == tag,
                None => r matches Err(e) && e == (BuildError::MissingRequiredField {
                    field: RequiredField::Tag,
                }),
            },
    {
        match self.tag {
            Some(tag) => Ok(Delete { tag }),
            None => Err(BuildError::MissingRequiredField { field: RequiredField::Tag }),
        }
    }
}

impl Endpoint for Delete {
    open spec fn spec_method(&self) -> Method {
        Method::Get
    }

    open spec fn spec_endpoint(&self) -> Seq<char> {
        "v1/tags/delete"@
    }

    open spec fn spec_parameters(&self) -> Seq<(Seq<char>, Seq<char>)> {
        seq![("tag"@, self.spec_tag())]
    }

    fn method(&self) -> (m: Method) {
        Method::Get
    }

    fn endpoint(&self) -> (path: String) {
        String::from_str("v1/tags/delete")
    }

    fn parameters(&self) -> (params: QueryParams) {
        let mut params = QueryParams::new();
        params.push("tag", &self.tag);
        assert(params@ =~= self.spec_parameters());
        params
    }
}

impl Limit for Delete {
    open spec fn spec_secs_between_calls() -> nat {
        DEFAULT_SECS_BETWEEN_CALLS as nat
    }

    fn secs_between_calls() -> (secs: usize) {
        DEFAULT_SECS_BETWEEN_CALLS
    }
}

} // verus!
