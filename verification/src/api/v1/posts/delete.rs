use vstd::prelude::*;
use crate::api::endpoint_prelude::{BuildError, Endpoint, Method, RequiredField};
use crate::api::params::QueryParams;
use crate::api::v1::{Limit, DEFAULT_SECS_BETWEEN_CALLS};
use crate::bindings::weburl::{url_clone, url_text};

verus! {

/// Create a Delete endpoint for posts.
///
/// <https://pinboard.in/api/#posts_delete>
///
/// # Arguments
/// * `url` - the bookmark to delete
#[derive(Debug)]
pub struct Delete {
    url: url::Url,
}

/// The builder of a `Delete` endpoint.
#[derive(Debug)]
pub struct DeleteBuilder {
    url: Option<url::Url>,
}

impl Clone for Delete {
    fn clone(&self) -> (copy: Delete)
        ensures
            copy.spec_url() == self.spec_url(),
    {
        Delete { url: url_clone(&self.url) }
    }
}

impl Clone for DeleteBuilder {
    fn clone(&self) -> (copy: DeleteBuilder)
        ensures
            copy.spec_url() == self.spec_url(),
    {
        DeleteBuilder {
            url: match &self.url {
                Some(url) => Some(url_clone(url)),
                None => None,
            },
        }
    }
}

impl Delete {
    /// The bookmark to delete, as text.
    pub closed spec fn spec_url(&self) -> Seq<char> {
        url_text(self.url)
    }

    /// Create a builder for the endpoint.
    pub fn builder() -> (b: DeleteBuilder)
        ensures
            b.spec_url() is None,
    {
        DeleteBuilder { url: None }
    }
}

impl DeleteBuilder {
    /// The bookmark to delete, as text, if it was set.
    pub closed spec fn spec_url(&self) -> Option<Seq<char>> {
        match self.url {
            Some(url) => Some(url_text(url)),
            None => None,
        }
    }

    /// The bookmark to delete.
    pub fn url(self, url: url::Url) -> (b: DeleteBuilder)
        ensures
            b.spec_url() == Some(url_text(url)),
    {
        DeleteBuilder { url: Some(url) }
    }

    /// Builds the endpoint, or says that `url` was never set.
    pub fn build(self) -> (r: Result<Delete, BuildError>)
        ensures
            match self.spec_url() {
                Some(url) => r matches Ok(e) && e.spec_url() == url,
                None => r matches Err(e) && e == (BuildError::MissingRequiredField {
                    field: RequiredField::Url,
                }),
            },
    {
        match self.url {
            Some(url) => Ok(Delete { url }),
            None => Err(BuildError::MissingRequiredField { field: RequiredField::Url }),
        }
    }
}

impl Endpoint for Delete {
    open spec fn spec_method(&self) -> Method {
        Method::Get
    }

    open spec fn spec_endpoint(&self) -> Seq<char> {
        "v1/posts/delete"@
    }

    open spec fn spec_parameters(&self) -> Seq<(Seq<char>, Seq<char>)> {
        seq![("url"@, self.spec_url())]
    }

    fn method(&self) -> (m: Method) {
        Method::Get
    }

    fn endpoint(&self) -> (path: String) {
        String::from_str("v1/posts/delete")
    }

    fn parameters(&self) -> (params: QueryParams) {
        let mut params = QueryParams::new();
        params.push("url", &self.url);
        assert(params@ =~= self.spec_parameters());
        params
    }
}

impl Limit for Delete {
    open spec fn spec_secs_between_calls() -> nat {
        DEFAULT_SECS_BETWEEN_CALLS as nat
    }

    fn secs_between_calls() -> (secs: usize) {
        DEFAULT_SECS_BETWEEN_CALLS
    }
}

} // verus!
