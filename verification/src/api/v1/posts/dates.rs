use vstd::prelude::*;
use crate::api::endpoint_prelude::{
    check_tags, duplicate_tags, has_key, lemma_has_key_opt_pair, opt_pair, tags_text, tags_view,
    tags_violation, BuildError, Endpoint, Method, TagList, FILTER_TAG_LIMIT,
};
use crate::api::params::QueryParams;
use crate::api::v1::{Limit, DEFAULT_SECS_BETWEEN_CALLS};

verus! {

/// Create a Dates endpoint for posts.
///
/// <https://pinboard.in/api/#posts_dates>
///
/// # Arguments
/// This builder takes one optional argument.
/// * `tags` - a vec of up to three tags to use as a filter
#[derive(Debug)]
pub struct Dates {
    tags: Option<TagList>,
}

/// The builder of a `Dates` endpoint.
#[derive(Debug, Clone)]
pub struct DatesBuilder {
    tags: Option<TagList>,
}

impl Clone for Dates {
    fn clone(&self) -> (copy: Dates)
        ensures
            copy.spec_tags() == self.spec_tags(),
    {
        proof {
            use_type_invariant(self);
        }
        Dates { tags: duplicate_tags(&self.tags) }
    }
}

impl Dates {
    #[verifier::type_invariant]
    spec fn bounded(self) -> bool {
        tags_violation(self.spec_tags(), FILTER_TAG_LIMIT) is None
    }

    /// Tag filter, if set.
    pub closed spec fn spec_tags(&self) -> Option<Seq<Seq<char>>> {
        tags_view(self.tags)
    }

    /// Create a builder for the endpoint.
    pub fn builder() -> (b: DatesBuilder)
        ensures
            b.spec_tags() is None,
    {
        DatesBuilder { tags: None }
    }

    /// A built endpoint is within the service's bound: at most 3 tags.
    pub fn bounds_hold(&self)
        ensures
            self.spec_tags() matches Some(tags) ==> tags.len() <= FILTER_TAG_LIMIT,
    {
        proof {
            use_type_invariant(self);
        }
    }
}

impl DatesBuilder {
    /// Tag filter, if set.
    pub closed spec fn spec_tags(&self) -> Option<Seq<Seq<char>>> {
        tags_view(self.tags)
    }

    /// Tag filter (up to 3 tags).
    pub fn tags(self, tags: Vec<&str>) -> (b: DatesBuilder)
        ensures
            b.spec_tags() == Some(Seq::new(tags@.len(), |i: int| tags@[i]@)),
    {
        DatesBuilder { tags: Some(TagList::from_strs(&tags)) }
    }

    /// Check the tags for constraints: there can only be 3 tags.
    pub fn validate(&self) -> (r: Result<(), BuildError>)
        ensures
            match tags_violation(self.spec_tags(), FILTER_TAG_LIMIT) {
                Some(violation) => r == Err::<(), BuildError>(violation),
                None => r is Ok,
            },
    {
        check_tags(&self.tags, FILTER_TAG_LIMIT)
    }

    /// Builds the endpoint, or says that there are more than 3 tags.
    pub fn build(self) -> (r: Result<Dates, BuildError>)
        ensures
            match tags_violation(self.spec_tags(), FILTER_TAG_LIMIT) {
                None => r matches Ok(e) && e.spec_tags() == self.spec_tags(),
                Some(violation) => r matches Err(e) && e == violation,
            },
    {
        match self.validate() {
            Err(e) => Err(e),
            Ok(_) => Ok(Dates { tags: self.tags }),
        }
    }
}

impl Endpoint for Dates {
    open spec fn spec_method(&self) -> Method {
        Method::Get
    }

    open spec fn spec_endpoint(&self) -> Seq<char> {
        "v1/posts/dates"@
    }

    open spec fn spec_parameters(&self) -> Seq<(Seq<char>, Seq<char>)> {
        opt_pair("tag"@, tags_text(self.spec_tags()))
    }

    fn method(&self) -> (m: Method) {
        Method::Get
    }

    fn endpoint(&self) -> (path: String) {
        String::from_str("v1/posts/dates")
    }

    fn parameters(&self) -> (params: QueryParams) {
        let mut params = QueryParams::new();
        params.push_opt("tag", self.tags.as_ref());
        assert(params@ =~= self.spec_parameters());
        params
    }
}

impl Limit for Dates {
    open spec fn spec_secs_between_calls() -> nat {
        DEFAULT_SECS_BETWEEN_CALLS as nat
    }

    fn secs_between_calls() -> (secs: usize) {
        DEFAULT_SECS_BETWEEN_CALLS
    }
}

/// A parameter that was not set does not occur in the query.
pub proof fn lemma_dates_omits_unset(e: Dates)
    ensures
        e.spec_tags() is None ==> !has_key(e.spec_parameters(), "tag"@),
{
    lemma_has_key_opt_pair("tag"@, tags_text(e.spec_tags()), "tag"@);
}

} // verus!
