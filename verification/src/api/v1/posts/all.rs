use vstd::prelude::*;
use crate::api::endpoint_prelude::{
    check_tags, date_value, duplicate_tags, flag_text, has_key, lemma_has_key_concat,
    lemma_has_key_opt_pair, number_text, opt_pair, tags_text, tags_view, tags_violation, yes_no,
    BuildError, Date, Endpoint, Method, TagList, FILTER_TAG_LIMIT,
};
use crate::api::params::QueryParams;
use crate::api::v1::Limit;

verus! {

/// What an `All` endpoint, or its builder, holds.
pub struct AllView {
    /// Filter by up to 3 tags.
    pub tags: Option<Seq<Seq<char>>>,
    /// Offset value.
    pub start: Option<u64>,
    /// Number of results to return.
    pub results: Option<u64>,
    /// Return only bookmarks created after this time.
    pub fromdt: Option<Date>,
    /// Return only bookmarks created before this time.
    pub todt: Option<Date>,
    /// Include a change detection signature for each bookmark.
    pub meta: Option<bool>,
}

/// A number that may be unset, as a natural number.
pub open spec fn as_nat(number: Option<u64>) -> Option<nat> {
    match number {
        Some(number) => Some(number as nat),
        None => None,
    }
}

/// Create an All endpoint for posts.
///
/// <https://pinboard.in/api/#posts_all>
///
/// # Arguments
/// This builder takes six optional arguments.
/// * `tags` - a vec of up to 3 tags to use as a filter
/// * `start` - offset value
/// * `results` - number of results to return (defaults to all).
/// * `fromdt` - return bookmarks created after this time
/// * `todt` - return bookmarks created before this time
/// * `meta` - include a change detection signature in results
#[derive(Debug)]
pub struct All {
    tags: Option<TagList>,
    start: Option<u64>,
    results: Option<u64>,
    fromdt: Option<Date>,
    todt: Option<Date>,
    meta: Option<bool>,
}

/// The builder of an `All` endpoint.
#[derive(Debug, Clone)]
pub struct AllBuilder {
    tags: Option<TagList>,
    start: Option<u64>,
    results: Option<u64>,
    fromdt: Option<Date>,
    todt: Option<Date>,
    meta: Option<bool>,
}

impl View for All {
    type V = AllView;

    closed spec fn view(&self) -> AllView {
        AllView {
            tags: tags_view(self.tags),
            start: self.start,
            results: self.results,
            fromdt: self.fromdt,
            todt: self.todt,
            meta: self.meta,
        }
    }
}

impl View for AllBuilder {
    type V = AllView;

    closed spec fn view(&self) -> AllView {
        AllView {
            tags: tags_view(self.tags),
            start: self.start,
            results: self.results,
            fromdt: self.fromdt,
            todt: self.todt,
            meta: self.meta,
        }
    }
}

impl Clone for All {
    fn clone(&self) -> (copy: All)
        ensures
            copy@ == self@,
    {
        proof {
            use_type_invariant(self);
        }
        All {
            tags: duplicate_tags(&self.tags),
            start: self.start,
            results: self.results,
            fromdt: self.fromdt,
            todt: self.todt,
            meta: self.meta,
        }
    }
}

impl All {
    #[verifier::type_invariant]
    spec fn bounded(self) -> bool {
        tags_violation(self@.tags, FILTER_TAG_LIMIT) is None
    }

    /// Create a builder for the endpoint.
    pub fn builder() -> (b: AllBuilder)
        ensures
            b@ == (AllView {
                tags: None,
                start: None,
                results: None,
                fromdt: None,
                todt: None,
                meta: None,
            }),
    {
        AllBuilder { tags: None, start: None, results: None, fromdt: None, todt: None, meta: None }
    }

    /// A built endpoint is within the service's bound: at most 3 tags.
    pub fn bounds_hold(&self)
        ensures
            self@.tags matches Some(tags) ==> tags.len() <= FILTER_TAG_LIMIT,
    {
        proof {
            use_type_invariant(self);
        }
    }
}

impl AllBuilder {
    /// Filter by up to 3 tags.
    pub fn tags(self, tags: Vec<&str>) -> (b: AllBuilder)
        ensures
            b@ == (AllView { tags: Some(Seq::new(tags@.len(), |i: int| tags@[i]@)), ..self@ }),
    {
        AllBuilder {
            tags: Some(TagList::from_strs(&tags)),
            start: self.start,
            results: self.results,
            fromdt: self.fromdt,
            todt: self.todt,
            meta: self.meta,
        }
    }

    /// Offset value (the service starts at 0).
    pub fn start(self, start: u64) -> (b: AllBuilder)
        ensures
            b@ == (AllView { start: Some(start), ..self@ }),
    {
        AllBuilder {
            tags: self.tags,
            start: Some(start),
            results: self.results,
            fromdt: self.fromdt,
            todt: self.todt,
            meta: self.meta,
        }
    }

    /// Number of results to return (the service returns all).
    pub fn results(self, results: u64) -> (b: AllBuilder)
        ensures
            b@ == (AllView { results: Some(results), ..self@ }),
    {
        AllBuilder {
            tags: self.tags,
            start: self.start,
            results: Some(results),
            fromdt: self.fromdt,
            todt: self.todt,
            meta: self.meta,
        }
    }

    /// Return only bookmarks created after this time.
    pub fn fromdt(self, fromdt: Date) -> (b: AllBuilder)
        ensures
            b@ == (AllView { fromdt: Some(fromdt), ..self@ }),
    {
        AllBuilder {
            tags: self.tags,
            start: self.start,
            results: self.results,
            fromdt: Some(fromdt),
            todt: self.todt,
            meta: self.meta,
        }
    }

    /// Return only bookmarks created before this time.
    pub fn todt(self, todt: Date) -> (b: AllBuilder)
        ensures
            b@ == (AllView { todt: Some(todt), ..self@ }),
    {
        AllBuilder {
            tags: self.tags,
            start: self.start,
            results: self.results,
            fromdt: self.fromdt,
            todt: Some(todt),
            meta: self.meta,
        }
    }

    /// Include a change detection signature for each bookmark.
    pub fn meta(self, meta: bool) -> (b: AllBuilder)
        ensures
            b@ == (AllView { meta: Some(meta), ..self@ }),
    {
        AllBuilder {
            tags: self.tags,
            start: self.start,
            results: self.results,
            fromdt: self.fromdt,
            todt: self.todt,
            meta: Some(meta),
        }
    }

    /// Ensure the number of tags does not exceed 3.
    pub fn validate(&self) -> (r: Result<(), BuildError>)
        ensures
            match tags_violation(self@.tags, FILTER_TAG_LIMIT) {
                Some(violation) => r == Err::<(), BuildError>(violation),
                None => r is Ok,
            },
    {
        check_tags(&self.tags, FILTER_TAG_LIMIT)
    }

    /// Builds the endpoint, or says that there are more than 3 tags.
    pub fn build(self) -> (r: Result<All, BuildError>)
        ensures
            match tags_violation(self@.tags, FILTER_TAG_LIMIT) {
                None => r matches Ok(e) && e@ == self@,
                Some(violation) => r matches Err(e) && e == violation,
            },
    {
        match self.validate() {
            Err(e) => Err(e),
            Ok(_) => Ok(
                All {
                    tags: self.tags,
                    start: self.start,
                    results: self.results,
                    fromdt: self.fromdt,
                    todt: self.todt,
                    meta: self.meta,
                },
            ),
        }
    }
}

impl Endpoint for All {
    open spec fn spec_method(&self) -> Method {
        Method::Get
    }

    open spec fn spec_endpoint(&self) -> Seq<char> {
        "v1/posts/all"@
    }

    open spec fn spec_parameters(&self) -> Seq<(Seq<char>, Seq<char>)> {
        opt_pair("tag"@, tags_text(self@.tags)) + opt_pair(
            "start"@,
            number_text(as_nat(self@.start)),
        ) + opt_pair("results"@, number_text(as_nat(self@.results))) + opt_pair(
            "fromdt"@,
            date_value(self@.fromdt),
        ) + opt_pair("todt"@, date_value(self@.todt)) + opt_pair("meta"@, flag_text(self@.meta))
    }

    fn method(&self) -> (m: Method) {
        Method::Get
    }

    fn endpoint(&self) -> (path: String) {
        String::from_str("v1/posts/all")
    }

    fn parameters(&self) -> (params: QueryParams) {
        let mut params = QueryParams::new();
        params
            .push_opt("tag", self.tags.as_ref())
            .push_opt("start", self.start)
            .push_opt("results", self.results)
            .push_opt("fromdt", self.fromdt)
            .push_opt("todt", self.todt)
            .push_opt("meta", yes_no(self.meta));
        assert(params@ =~= self.spec_parameters());
        params
    }
}

impl Limit for All {
    /// Pinboard has a 5 min limit between these calls.
    open spec fn spec_secs_between_calls() -> nat {
        300
    }

    fn secs_between_calls() -> (secs: usize) {
        300
    }
}

/// The names that occur in the query are those of the parameters that
/// were set.
pub proof fn lemma_all_names(e: All, key: Seq<char>)
    ensures
        has_key(e.spec_parameters(), key) <==> (e@.tags is Some && key == "tag"@) || (
        e@.start is Some && key == "start"@) || (e@.results is Some && key == "results"@) || (
        e@.fromdt is Some && key == "fromdt"@) || (e@.todt is Some && key == "todt"@) || (
        e@.meta is Some && key == "meta"@),
{
    let first = opt_pair("tag"@, tags_text(e@.tags));
    let second = opt_pair("start"@, number_text(as_nat(e@.start)));
    let third = opt_pair("results"@, number_text(as_nat(e@.results)));
    let fourth = opt_pair("fromdt"@, date_value(e@.fromdt));
    let fifth = opt_pair("todt"@, date_value(e@.todt));
    let sixth = opt_pair("meta"@, flag_text(e@.meta));
    lemma_has_key_concat(first, second, key);
    lemma_has_key_concat(first + second, third, key);
    lemma_has_key_concat(first + second + third, fourth, key);
    lemma_has_key_concat(first + second + third + fourth, fifth, key);
    lemma_has_key_concat(first + second + third + fourth + fifth, sixth, key);
    lemma_has_key_opt_pair("tag"@, tags_text(e@.tags), key);
    lemma_has_key_opt_pair("start"@, number_text(as_nat(e@.start)), key);
    lemma_has_key_opt_pair("results"@, number_text(as_nat(e@.results)), key);
    lemma_has_key_opt_pair("fromdt"@, date_value(e@.fromdt), key);
    lemma_has_key_opt_pair("todt"@, date_value(e@.todt), key);
    lemma_has_key_opt_pair("meta"@, flag_text(e@.meta), key);
}

/// A parameter that was not set does not occur in the query.
pub proof fn lemma_all_omits_unset(e: All)
    ensures
        e@.tags is None ==> !has_key(e.spec_parameters(), "tag"@),
        e@.start is None ==> !has_key(e.spec_parameters(), "start"@),
        e@.results is None ==> !has_key(e.spec_parameters(), "results"@),
        e@.fromdt is None ==> !has_key(e.spec_parameters(), "fromdt"@),
        e@.todt is None ==> !has_key(e.spec_parameters(), "todt"@),
        e@.meta is None ==> !has_key(e.spec_parameters(), "meta"@),
{
    reveal_strlit("tag");
    reveal_strlit("start");
    reveal_strlit("results");
    reveal_strlit("fromdt");
    reveal_strlit("todt");
    reveal_strlit("meta");
    assert("tag"@.len() == 3 && "start"@.len() == 5 && "results"@.len() == 7 && "fromdt"@.len() == 6
        && "todt"@.len() == 4 && "meta"@.len() == 4);
    assert("todt"@[0] == 't' && "meta"@[0] == 'm');
    lemma_all_names(e, "tag"@);
    lemma_all_names(e, "start"@);
    lemma_all_names(e, "results"@);
    lemma_all_names(e, "fromdt"@);
    lemma_all_names(e, "todt"@);
    lemma_all_names(e, "meta"@);
}

} // verus!
