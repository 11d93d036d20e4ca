use vstd::prelude::*;
use crate::api::endpoint_prelude::{BuildError, Endpoint, Method, RequiredField};
use crate::api::params::QueryParams;
use crate::api::v1::{Limit, DEFAULT_SECS_BETWEEN_CALLS};
use crate::bindings::weburl::{url_clone, url_text};

verus! {

/// Create a Suggest endpoint for posts.
///
/// <https://pinboard.in/api/#posts_suggest>
///
/// # Arguments
/// * `url` - the bookmark to suggest tags for
#[derive(Debug)]
pub struct Suggest {
    url: url::Url,
}

/// The builder of a `Suggest` endpoint.
#[derive(Debug)]
pub struct SuggestBuilder {
    url: Option<url::Url>,
}

impl Clone for Suggest {
    fn clone(&self) -> (copy: Suggest)
        ensures
            copy.spec_url() == self.spec_url(),
    {
        Suggest { url: url_clone(&self.url) }
    }
}

impl Clone for SuggestBuilder {
    fn clone(&self) -> (copy: SuggestBuilder)
        ensures
            copy.spec_url() == self.spec_url(),
    {
        SuggestBuilder {
            url: match &self.url {
                Some(url) => Some(url_clone(url)),
                None => None,
            },
        }
    }
}

impl Suggest {
    /// The bookmark to suggest tags for, as text.
    pub closed spec fn spec_url(&self) -> Seq<char> {
        url_text(self.url)
    }

    /// Create a builder for the endpoint.
    pub fn builder() -> (b: SuggestBuilder)
        ensures
            b.spec_url() is None,
    {
        SuggestBuilder { url: None }
    }
}

impl SuggestBuilder {
    /// The bookmark to suggest tags for, as text, if it was set.
    pub closed spec fn spec_url(&self) -> Option<Seq<char>> {
        match self.url {
            Some(url) => Some(url_text(url)),
            None => None,
        }
    }

    /// The bookmark to suggest tags for.
    pub fn url(self, url: url::Url) -> (b: SuggestBuilder)
        ensures
            b.spec_url() == Some(url_text(url)),
    {
        SuggestBuilder { url: Some(url) }
    }

    /// Builds the endpoint, or says that `url` was never set.
    pub fn build(self) -> (r: Result<Suggest, BuildError>)
        ensures
            match self.spec_url() {
                Some(url) => r matches Ok(e) && e.spec_url() == url,
                None => r matches Err(e) && e == (BuildError::MissingRequiredField {
                    field: RequiredField::Url,
                }),
            },
    {
        match self.url {
            Some(url) => Ok(Suggest { url }),
            None => Err(BuildError::MissingRequiredField { field: RequiredField::Url }),
        }
    }
}

impl Endpoint for Suggest {
    open spec fn spec_method(&self) -> Method {
        Method::Get
    }

    open spec fn spec_endpoint(&self) -> Seq<char> {
        "v1/posts/suggest"@
    }

    open spec fn spec_parameters(&self) -> Seq<(Seq<char>, Seq<char>)> {
        seq![("url"@, self.spec_url())]
    }

    fn method(&self) -> (m: Method) {
        Method::Get
    }

    fn endpoint(&self) -> (path: String) {
        String::from_str("v1/posts/suggest")
    }

    fn parameters(&self) -> (params: QueryParams) {
        let mut params = QueryParams::new();
        params.push("url", &self.url);
        assert(params@ =~= self.spec_parameters());
        params
    }
}

impl Limit for Suggest {
    open spec fn spec_secs_between_calls() -> nat {
        DEFAULT_SECS_BETWEEN_CALLS as nat
    }

    fn secs_between_calls() -> (secs: usize) {
        DEFAULT_SECS_BETWEEN_CALLS
    }
}

} // verus!
