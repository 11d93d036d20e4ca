use vstd::prelude::*;
use crate::api::endpoint_prelude::{
    date_value, duplicate_text, duplicate_url, flag_text, has_key, lemma_has_key_concat,
    lemma_has_key_opt_pair, opt_pair, text_view, url_view, yes_no, BuildError, Date, Endpoint,
    Method,
};
use crate::api::params::QueryParams;
use crate::api::v1::{Limit, DEFAULT_SECS_BETWEEN_CALLS};

verus! {

/// What a `Get` endpoint, or its builder, holds.
pub struct GetView {
    /// Tag filter.
    pub tag: Option<Seq<char>>,
    /// Return results on the provided day.
    pub dt: Option<Date>,
    /// Return the bookmark for this URL, given by its serialization.
    pub url: Option<Seq<char>>,
    /// Include a change detection signature in results.
    pub meta: Option<bool>,
}

/// Create a Get endpoint for posts.
///
/// <https://pinboard.in/api/#posts_get>
///
/// # Arguments
/// This builder takes four optional arguments.
/// * `tag` - a tag to filter by
/// * `dt` - return results bookmarked on this day
/// * `url` - return the bookmark for this URL
/// * `meta` - include a change detection signature in results
#[derive(Debug)]
pub struct Get {
    tag: Option<String>,
    dt: Option<Date>,
    url: Option<url::Url>,
    meta: Option<bool>,
}

/// The builder of a `Get` endpoint.
#[derive(Debug)]
pub struct GetBuilder {
    tag: Option<String>,
    dt: Option<Date>,
    url: Option<url::Url>,
    meta: Option<bool>,
}

impl View for Get {
    type V = GetView;

    closed spec fn view(&self) -> GetView {
        GetView {
            tag: text_view(self.tag),
            dt: self.dt,
            url: url_view(self.url),
            meta: self.meta,
        }
    }
}

impl View for GetBuilder {
    type V = GetView;

    closed spec fn view(&self) -> GetView {
        GetView {
            tag: text_view(self.tag),
            dt: self.dt,
            url: url_view(self.url),
            meta: self.meta,
        }
    }
}

impl Clone for Get {
    fn clone(&self) -> (copy: Get)
        ensures
            copy@ == self@,
    {
        Get {
            tag: duplicate_text(&self.tag),
            dt: self.dt,
            url: duplicate_url(&self.url),
            meta: self.meta,
        }
    }
}

impl Clone for GetBuilder {
    fn clone(&self) -> (copy: GetBuilder)
        ensures
            copy@ == self@,
    {
        GetBuilder {
            tag: duplicate_text(&self.tag),
            dt: self.dt,
            url: duplicate_url(&self.url),
            meta: self.meta,
        }
    }
}

impl Get {
    /// Create a builder for the endpoint.
    pub fn builder() -> (b: GetBuilder)
        ensures
            b@ == (GetView { tag: None, dt: None, url: None, meta: None }),
    {
        GetBuilder { tag: None, dt: None, url: None, meta: None }
    }
}

impl GetBuilder {
    /// Tag filter.
    pub fn tag(self, tag: &str) -> (b: GetBuilder)
        ensures
            b@ == (GetView { tag: Some(tag@), ..self@ }),
    {
        GetBuilder {
            tag: Some(String::from_str(tag)),
            dt: self.dt,
            url: self.url,
            meta: self.meta,
        }
    }

    /// Return results on the provided day.
    pub fn dt(self, dt: Date) -> (b: GetBuilder)
        ensures
            b@ == (GetView { dt: Some(dt), ..self@ }),
    {
        GetBuilder { tag: self.tag, dt: Some(dt), url: self.url, meta: self.meta }
    }

    /// Return the bookmark for this URL.
    pub fn url(self, url: url::Url) -> (b: GetBuilder)
        ensures
            b@ == (GetView { url: url_view(Some(url)), ..self@ }),
    {
        GetBuilder { tag: self.tag, dt: self.dt, url: Some(url), meta: self.meta }
    }

    /// Include a change detection signature in results.
    pub fn meta(self, meta: bool) -> (b: GetBuilder)
        ensures
            b@ == (GetView { meta: Some(meta), ..self@ }),
    {
        GetBuilder { tag: self.tag, dt: self.dt, url: self.url, meta: Some(meta) }
    }

    /// Builds the endpoint; with nothing required and nothing bounded,
    /// nothing can be amiss.
    pub fn build(self) -> (r: Result<Get, BuildError>)
        ensures
            r matches Ok(e) && e@ == self@,
    {
        Ok(Get { tag: self.tag, dt: self.dt, url: self.url, meta: self.meta })
    }
}

impl Endpoint for Get {
    open spec fn spec_method(&self) -> Method {
        Method::Get
    }

    open spec fn spec_endpoint(&self) -> Seq<char> {
        "v1/posts/get"@
    }

    open spec fn spec_parameters(&self) -> Seq<(Seq<char>, Seq<char>)> {
        opt_pair("meta"@, flag_text(self@.meta)) + opt_pair("tag"@, self@.tag) + opt_pair(
            "url"@,
            self@.url,
        ) + opt_pair("dt"@, date_value(self@.dt))
    }

    fn method(&self) -> (m: Method) {
        Method::Get
    }

    fn endpoint(&self) -> (path: String) {
        String::from_str("v1/posts/get")
    }

    fn parameters(&self) -> (params: QueryParams) {
        let mut params = QueryParams::new();
        params
            .push_opt("meta", yes_no(self.meta))
            .push_opt("tag", self.tag.as_ref())
            .push_opt("url", self.url.as_ref())
            .push_opt("dt", self.dt);
        assert(params@ =~= self.spec_parameters());
        params
    }
}

impl Limit for Get {
    open spec fn spec_secs_between_calls() -> nat {
        DEFAULT_SECS_BETWEEN_CALLS as nat
    }

    fn secs_between_calls() -> (secs: usize) {
        DEFAULT_SECS_BETWEEN_CALLS
    }
}

/// The names that occur in the query are those of the parameters that
/// were set.
pub proof fn lemma_get_names(e: Get, key: Seq<char>)
    ensures
        has_key(e.spec_parameters(), key) <==> (e@.meta is Some && key == "meta"@) || (
        e@.tag is Some && key == "tag"@) || (e@.url is Some && key == "url"@) || (e@.dt is Some
            && key == "dt"@),
{
    let first = opt_pair("meta"@, flag_text(e@.meta));
    let second = opt_pair("tag"@, e@.tag);
    let third = opt_pair("url"@, e@.url);
    let fourth = opt_pair("dt"@, date_value(e@.dt));
    lemma_has_key_concat(first, second, key);
    lemma_has_key_concat(first + second, third, key);
    lemma_has_key_concat(first + second + third, fourth, key);
    lemma_has_key_opt_pair("meta"@, flag_text(e@.meta), key);
    lemma_has_key_opt_pair("tag"@, e@.tag, key);
    lemma_has_key_opt_pair("url"@, e@.url, key);
    lemma_has_key_opt_pair("dt"@, date_value(e@.dt), key);
}

/// A parameter that was not set does not occur in the query.
pub proof fn lemma_get_omits_unset(e: Get)
    ensures
        e@.meta is None ==> !has_key(e.spec_parameters(), "meta"@),
        e@.tag is None ==> !has_key(e.spec_parameters(), "tag"@),
        e@.url is None ==> !has_key(e.spec_parameters(), "url"@),
        e@.dt is None ==> !has_key(e.spec_parameters(), "dt"@),
{
    reveal_strlit("meta");
    reveal_strlit("tag");
    reveal_strlit("url");
    reveal_strlit("dt");
    assert("meta"@.len() == 4 && "tag"@.len() == 3 && "url"@.len() == 3 && "dt"@.len() == 2);
    assert("tag"@[0] == 't' && "url"@[0] == 'u');
    lemma_get_names(e, "meta"@);
    lemma_get_names(e, "tag"@);
    lemma_get_names(e, "url"@);
    lemma_get_names(e, "dt"@);
}

} // verus!
