use vstd::prelude::*;
use crate::api::endpoint_prelude::{
    check_count, check_tags, count_violation, duplicate_tags, has_key, lemma_has_key_concat,
    lemma_has_key_opt_pair, number_text, opt_pair,
    tags_text, tags_view, tags_violation, BuildError, Endpoint, Method, TagList, COUNT_LIMIT,
    FILTER_TAG_LIMIT,
};
use crate::api::params::QueryParams;
use crate::api::v1::Limit;

verus! {

/// What a `Recent` endpoint, or its builder, holds.
pub struct RecentView {
    /// Tag filter.
    pub tags: Option<Seq<Seq<char>>>,
    /// Number of results to return.
    pub count: Option<u8>,
}

impl RecentView {
    /// Whether the service's bounds hold: at most 3 tags, at most 100
    /// results.
    pub open spec fn within_limits(self) -> bool {
        &&& self.tags matches Some(tags) ==> tags.len() <= FILTER_TAG_LIMIT
        &&& self.count matches Some(count) ==> count <= COUNT_LIMIT
    }
}

/// Create a Recent endpoint for posts.
///
/// <https://pinboard.in/api/#posts_recent>
///
/// # Arguments
/// This builder takes two optional arguments.
/// * `tags` - A tag filter
/// * `count` - number of results to return
#[derive(Debug)]
pub struct Recent {
    tags: Option<TagList>,
    count: Option<u8>,
}

/// The builder of a `Recent` endpoint.
#[derive(Debug, Clone)]
pub struct RecentBuilder {
    tags: Option<TagList>,
    count: Option<u8>,
}

impl View for Recent {
    type V = RecentView;

    closed spec fn view(&self) -> RecentView {
        RecentView {
            tags: tags_view(self.tags),
            count: self.count,
        }
    }
}

impl View for RecentBuilder {
    type V = RecentView;

    closed spec fn view(&self) -> RecentView {
        RecentView {
            tags: tags_view(self.tags),
            count: self.count,
        }
    }
}

impl Clone for Recent {
    fn clone(&self) -> (copy: Recent)
        ensures
            copy@ == self@,
    {
        proof {
            use_type_invariant(self);
        }
        Recent {
            tags: duplicate_tags(&self.tags),
            count: self.count,
        }
    }
}

impl Recent {
    #[verifier::type_invariant]
    spec fn bounded(self) -> bool {
        self@.within_limits()
    }

    /// Create a builder for the endpoint.
    pub fn builder() -> (b: RecentBuilder)
        ensures
            b@ == (RecentView { tags: None, count: None }),
    {
        RecentBuilder { tags: None, count: None }
    }

    /// A built endpoint is within the service's bounds.
    pub fn bounds_hold(&self)
        ensures
            self@.within_limits(),
    {
        proof {
            use_type_invariant(self);
        }
    }
}

impl RecentBuilder {
    /// Tag filter (up to 3 tags).
    pub fn tags(self, tags: Vec<&str>) -> (b: RecentBuilder)
        ensures
            b@ == (RecentView { tags: Some(Seq::new(tags@.len(), |i: int| tags@[i]@)), ..self@ }),
    {
        RecentBuilder { tags: Some(TagList::from_strs(&tags)), count: self.count }
    }

    /// Number of results to return (up to 100).
    pub fn count(self, count: u8) -> (b: RecentBuilder)
        ensures
            b@ == (RecentView { count: Some(count), ..self@ }),
    {
        RecentBuilder { tags: self.tags, count: Some(count) }
    }

    /// Check tags and count for constraints: there can only be 3 tags, and
    /// count is limited to 100.
    pub fn validate(&self) -> (r: Result<(), BuildError>)
        ensures
            match Self::spec_validate(self@) {
                Some(violation) => r == Err::<(), BuildError>(violation),
                None => r is Ok,
            },
    {
        match check_tags(&self.tags, FILTER_TAG_LIMIT) {
            Err(e) => Err(e),
            Ok(_) => check_count(self.count, COUNT_LIMIT),
        }
    }

    /// The first bound exceeded, tags before count, if any is.
    pub open spec fn spec_validate(v: RecentView) -> Option<BuildError> {
        match tags_violation(v.tags, FILTER_TAG_LIMIT) {
            Some(violation) => Some(violation),
            None => count_violation(v.count, COUNT_LIMIT),
        }
    }

    /// Builds the endpoint, or says which bound was exceeded.
    pub fn build(self) -> (r: Result<Recent, BuildError>)
        ensures
            match Self::spec_validate(self@) {
                None => r matches Ok(e) && e@ == self@,
                Some(violation) => r == Err::<Recent, BuildError>(violation),
            },
    {
        match self.validate() {
            Err(e) => Err(e),
            Ok(_) => Ok(Recent { tags: self.tags, count: self.count }),
        }
    }
}

impl Endpoint for Recent {
    open spec fn spec_method(&self) -> Method {
        Method::Get
    }

    open spec fn spec_endpoint(&self) -> Seq<char> {
        "v1/posts/recent"@
    }

    open spec fn spec_parameters(&self) -> Seq<(Seq<char>, Seq<char>)> {
        opt_pair("tag"@, tags_text(self@.tags)) + opt_pair(
            "count"@,
            number_text(
                match self@.count {
                    Some(count) => Some(count as nat),
                    None => None,
                },
            ),
        )
    }

    fn method(&self) -> (m: Method) {
        Method::Get
    }

    fn endpoint(&self) -> (path: String) {
        String::from_str("v1/posts/recent")
    }

    fn parameters(&self) -> (params: QueryParams) {
        let mut params = QueryParams::new();
        params
            .push_opt("tag", self.tags.as_ref())
            .push_opt("count", self.count);
        assert(params@ =~= self.spec_parameters());
        params
    }
}

impl Limit for Recent {
    /// Pinboard has a 60s limit between these calls.
    open spec fn spec_secs_between_calls() -> nat {
        60
    }

    fn secs_between_calls() -> (secs: usize) {
        60
    }
}

/// A parameter that was not set does not occur in the query.
pub proof fn lemma_recent_omits_unset(e: Recent)
    ensures
        e@.tags is None ==> !has_key(e.spec_parameters(), "tag"@),
        e@.count is None ==> !has_key(e.spec_parameters(), "count"@),
{
    reveal_strlit("tag");
    reveal_strlit("count");
    assert("tag"@.len() != "count"@.len());
    let count = match e@.count {
        Some(count) => Some(count as nat),
        None => None,
    };
    let first = opt_pair("tag"@, tags_text(e@.tags));
    let second = opt_pair("count"@, number_text(count));
    assert forall|key: Seq<char>|
        has_key(e.spec_parameters(), key) <==> (e@.tags is Some && key == "tag"@) || (
        e@.count is Some && key == "count"@) by {
        lemma_has_key_concat(first, second, key);
        lemma_has_key_opt_pair("tag"@, tags_text(e@.tags), key);
        lemma_has_key_opt_pair("count"@, number_text(count), key);
    }
}

} // verus!
