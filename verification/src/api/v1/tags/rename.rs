use vstd::prelude::*;
use crate::api::endpoint_prelude::{BuildError, Endpoint, Method, RequiredField};
use crate::api::params::QueryParams;
use crate::api::v1::{Limit, DEFAULT_SECS_BETWEEN_CALLS};

verus! {

/// Query the `v1/tags/rename` endpoint.
#[derive(Debug, Clone)]
pub struct Rename {
    old_name: String,
    new_name: String,
}

/// The builder of a `Rename` endpoint.
#[derive(Debug, Clone)]
pub struct RenameBuilder {
    old_name: Option<String>,
    new_name: Option<String>,
}

impl Rename {
    /// The old tag name.
    pub closed spec fn spec_old(&self) -> Seq<char> {
        self.old_name@
    }

    /// The new tag name.
    pub closed spec fn spec_new(&self) -> Seq<char> {
        self.new_name@
    }

    /// Create a builder for the endpoint.
    pub fn builder() -> (b: RenameBuilder)
        ensures
            b.spec_old() is None,
            b.spec_new() is None,
    {
        RenameBuilder { old_name: None, new_name: None }
    }
}

impl RenameBuilder {
    /// The old tag name, if it was set.
    pub closed spec fn spec_old(&self) -> Option<Seq<char>> {
        match self.old_name {
            Some(name) => Some(name@),
            None => None,
        }
    }

    /// The new tag name, if it was set.
    pub closed spec fn spec_new(&self) -> Option<Seq<char>> {
        match self.new_name {
            Some(name) => Some(name@),
            None => None,
        }
    }

    /// The old tag name.
    pub fn old_name(self, name: &str) -> (b: RenameBuilder)
        ensures
            b.spec_old() == Some(name@),
            b.spec_new() == self.spec_new(),
    {
        RenameBuilder { old_name: Some(String::from_str(name)), new_name: self.new_name }
    }

    /// The new tag name.
    pub fn new(self, name: &str) -> (b: RenameBuilder)
        ensures
            b.spec_new() == Some(name@),
            b.spec_old() == self.spec_old(),
    {
        RenameBuilder { old_name: self.old_name, new_name: Some(String::from_str(name)) }
    }

    /// Builds the endpoint, or names the first of `old` and `new` that was
    /// never set.
    pub fn build(self) -> (r: Result<Rename, BuildError>)
        ensures
            match (self.spec_old(), self.spec_new()) {
                (Some(from), Some(to)) => r matches Ok(e) && e.spec_old() == from && e.spec_new()
                    == to,
                (None, _) => r matches Err(e) && e == (BuildError::MissingRequiredField {
                    field: RequiredField::Old,
                }),
                (Some(_), None) => r matches Err(e) && e == (BuildError::MissingRequiredField {
                    field: RequiredField::New,
                }),
            },
    {
        match self.old_name {
            None => Err(BuildError::MissingRequiredField { field: RequiredField::Old }),
            Some(old_name) => match self.new_name {
                None => Err(BuildError::MissingRequiredField { field: RequiredField::New }),
                Some(new_name) => Ok(Rename { old_name, new_name }),
            },
        }
    }
}

impl Endpoint for Rename {
    open spec fn spec_method(&self) -> Method {
        Method::Get
    }

    open spec fn spec_endpoint(&self) -> Seq<char> {
        "v1/tags/rename"@
    }

    open spec fn spec_parameters(&self) -> Seq<(Seq<char>, Seq<char>)> {
        seq![("old"@, self.spec_old()), ("new"@, self.spec_new())]
    }

    fn method(&self) -> (m: Method) {
        Method::Get
    }

    fn endpoint(&self) -> (path: String) {
        String::from_str("v1/tags/rename")
    }

    fn parameters(&self) -> (params: QueryParams) {
        let mut params = QueryParams::new();
        params.push("old", &self.old_name).push("new", &self.new_name);
        assert(params@ =~= self.spec_parameters());
        params
    }
}

impl Limit for Rename {
    open spec fn spec_secs_between_calls() -> nat {
        DEFAULT_SECS_BETWEEN_CALLS as nat
    }

    fn secs_between_calls() -> (secs: usize) {
        DEFAULT_SECS_BETWEEN_CALLS
    }
}

} // verus!
