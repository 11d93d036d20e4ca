use vstd::prelude::*;
use crate::api::endpoint_prelude::{
    check_tags, date_value, duplicate_tags, duplicate_text, duplicate_url, flag_text, has_key,
    lemma_has_key_concat, lemma_has_key_opt_pair, opt_pair, tags_text, tags_view, tags_violation,
    text_view, url_view, yes_no, BuildError, Date, Endpoint, Method, RequiredField, TagList,
    BOOKMARK_TAG_LIMIT,
};
use crate::api::params::QueryParams;
use crate::api::v1::{Limit, DEFAULT_SECS_BETWEEN_CALLS};
use crate::bindings::weburl::{url_as_str, url_clone, url_text};

verus! {

/// What an `Add` endpoint holds.
pub struct AddView {
    /// The bookmark to save, given by its serialization.
    pub url: Seq<char>,
    /// The title of the link.
    pub description: Seq<char>,
    /// The description of the link.
    pub extended: Option<Seq<char>>,
    /// The tags to add.
    pub tags: Option<Seq<Seq<char>>>,
    /// Creation time of this bookmark.
    pub dt: Option<Date>,
    /// Whether or not to replace the current bookmark.
    pub replace: Option<bool>,
    /// Make the bookmark public.
    pub shared: Option<bool>,
    /// Marks the bookmark as unread.
    pub toread: Option<bool>,
}

/// What the builder of an `Add` endpoint holds: as the endpoint, but the
/// URL and the title may still be unset.
pub struct AddBuilderView {
    /// The bookmark to save, given by its serialization.
    pub url: Option<Seq<char>>,
    /// The title of the link.
    pub description: Option<Seq<char>>,
    /// The description of the link.
    pub extended: Option<Seq<char>>,
    /// The tags to add.
    pub tags: Option<Seq<Seq<char>>>,
    /// Creation time of this bookmark.
    pub dt: Option<Date>,
    /// Whether or not to replace the current bookmark.
    pub replace: Option<bool>,
    /// Make the bookmark public.
    pub shared: Option<bool>,
    /// Marks the bookmark as unread.
    pub toread: Option<bool>,
}

impl AddBuilderView {
    /// The title that stands in for one that was not set: the URL.
    pub open spec fn default_description(self) -> Result<Seq<char>, BuildError> {
        match self.url {
            Some(url) => Ok(url),
            None => Err(BuildError::MissingRequiredField { field: RequiredField::Url }),
        }
    }

    /// What building gives: the violation where there are more than 100
    /// tags; else the missing field where the URL was not set; else the
    /// endpoint, its title defaulting to the URL.
    pub open spec fn built(self) -> Result<AddView, BuildError> {
        match tags_violation(self.tags, BOOKMARK_TAG_LIMIT) {
            Some(violation) => Err(violation),
            None => match self.url {
                None => Err(BuildError::MissingRequiredField { field: RequiredField::Url }),
                Some(url) => Ok(
                    AddView {
                        url,
                        description: match self.description {
                            Some(description) => description,
                            None => url,
                        },
                        extended: self.extended,
                        tags: self.tags,
                        dt: self.dt,
                        replace: self.replace,
                        shared: self.shared,
                        toread: self.toread,
                    },
                ),
            },
        }
    }
}

/// Create an Add endpoint for posts.
///
/// <https://pinboard.in/api/#posts_add>
#[derive(Debug)]
pub struct Add {
    url: url::Url,
    description: String,
    extended: Option<String>,
    tags: Option<TagList>,
    dt: Option<Date>,
    replace: Option<bool>,
    shared: Option<bool>,
    toread: Option<bool>,
}

/// The builder of an `Add` endpoint.
#[derive(Debug)]
pub struct AddBuilder {
    url: Option<url::Url>,
    description: Option<String>,
    extended: Option<String>,
    tags: Option<TagList>,
    dt: Option<Date>,
    replace: Option<bool>,
    shared: Option<bool>,
    toread: Option<bool>,
}

impl View for Add {
    type V = AddView;

    closed spec fn view(&self) -> AddView {
        AddView {
            url: url_text(self.url),
            description: self.description@,
            extended: text_view(self.extended),
            tags: tags_view(self.tags),
            dt: self.dt,
            replace: self.replace,
            shared: self.shared,
            toread: self.toread,
        }
    }
}

impl View for AddBuilder {
    type V = AddBuilderView;

    closed spec fn view(&self) -> AddBuilderView {
        AddBuilderView {
            url: url_view(self.url),
            description: text_view(self.description),
            extended: text_view(self.extended),
            tags: tags_view(self.tags),
            dt: self.dt,
            replace: self.replace,
            shared: self.shared,
            toread: self.toread,
        }
    }
}

impl Clone for Add {
    fn clone(&self) -> (copy: Add)
        ensures
            copy@ == self@,
    {
        proof {
            use_type_invariant(self);
        }
        Add {
            url: url_clone(&self.url),
            description: self.description.clone(),
            extended: duplicate_text(&self.extended),
            tags: duplicate_tags(&self.tags),
            dt: self.dt,
            replace: self.replace,
            shared: self.shared,
            toread: self.toread,
        }
    }
}

impl Clone for AddBuilder {
    fn clone(&self) -> (copy: AddBuilder)
        ensures
            copy@ == self@,
    {
        AddBuilder {
            url: duplicate_url(&self.url),
            description: duplicate_text(&self.description),
            extended: duplicate_text(&self.extended),
            tags: duplicate_tags(&self.tags),
            dt: self.dt,
            replace: self.replace,
            shared: self.shared,
            toread: self.toread,
        }
    }
}

impl Add {
    #[verifier::type_invariant]
    spec fn bounded(self) -> bool {
        tags_violation(self@.tags, BOOKMARK_TAG_LIMIT) is None
    }

    /// Create a builder for the endpoint.
    pub fn builder() -> (b: AddBuilder)
        ensures
            b@ == (AddBuilderView {
                url: None,
                description: None,
                extended: None,
                tags: None,
                dt: None,
                replace: None,
                shared: None,
                toread: None,
            }),
    {
        AddBuilder {
            url: None,
            description: None,
            extended: None,
            tags: None,
            dt: None,
            replace: None,
            shared: None,
            toread: None,
        }
    }

    /// A built endpoint is within the service's bound: at most 100 tags.
    pub fn bounds_hold(&self)
        ensures
            self@.tags matches Some(tags) ==> tags.len() <= BOOKMARK_TAG_LIMIT,
    {
        proof {
            use_type_invariant(self);
        }
    }

    /// The title of the link.
    pub fn description(&self) -> (title: &str)
        ensures
            title@ == self@.description,
    {
        self.description.as_str()
    }
}

impl AddBuilder {
    /// The bookmark to save.
    pub fn url(self, url: url::Url) -> (b: AddBuilder)
        ensures
            b@ == (AddBuilderView { url: url_view(Some(url)), ..self@ }),
    {
        AddBuilder {
            url: Some(url),
            description: self.description,
            extended: self.extended,
            tags: self.tags,
            dt: self.dt,
            replace: self.replace,
            shared: self.shared,
            toread: self.toread,
        }
    }

    /// The title of the link.
    pub fn description(self, description: &str) -> (b: AddBuilder)
        ensures
            b@ == (AddBuilderView { description: Some(description@), ..self@ }),
    {
        AddBuilder {
            url: self.url,
            description: Some(String::from_str(description)),
            extended: self.extended,
            tags: self.tags,
            dt: self.dt,
            replace: self.replace,
            shared: self.shared,
            toread: self.toread,
        }
    }

    /// The description of the link.
    pub fn extended(self, extended: &str) -> (b: AddBuilder)
        ensures
            b@ == (AddBuilderView { extended: Some(extended@), ..self@ }),
    {
        AddBuilder {
            url: self.url,
            description: self.description,
            extended: Some(String::from_str(extended)),
            tags: self.tags,
            dt: self.dt,
            replace: self.replace,
            shared: self.shared,
            toread: self.toread,
        }
    }

    /// The tags to add (limit of 100).
    pub fn tags(self, tags: Vec<&str>) -> (b: AddBuilder)
        ensures
            b@ == (AddBuilderView {
                tags: Some(Seq::new(tags@.len(), |i: int| tags@[i]@)),
                ..self@
            }),
    {
        AddBuilder {
            url: self.url,
            description: self.description,
            extended: self.extended,
            tags: Some(TagList::from_strs(&tags)),
            dt: self.dt,
            replace: self.replace,
            shared: self.shared,
            toread: self.toread,
        }
    }

    /// Creation time of this bookmark.
    pub fn dt(self, dt: Date) -> (b: AddBuilder)
        ensures
            b@ == (AddBuilderView { dt: Some(dt), ..self@ }),
    {
        AddBuilder {
            url: self.url,
            description: self.description,
            extended: self.extended,
            tags: self.tags,
            dt: Some(dt),
            replace: self.replace,
            shared: self.shared,
            toread: self.toread,
        }
    }

    /// Whether or not to replace the current bookmark (the service replaces).
    pub fn replace(self, replace: bool) -> (b: AddBuilder)
        ensures
            b@ == (AddBuilderView { replace: Some(replace), ..self@ }),
    {
        AddBuilder {
            url: self.url,
            description: self.description,
            extended: self.extended,
            tags: self.tags,
            dt: self.dt,
            replace: Some(replace),
            shared: self.shared,
            toread: self.toread,
        }
    }

    /// Make the bookmark public.
    pub fn shared(self, shared: bool) -> (b: AddBuilder)
        ensures
            b@ == (AddBuilderView { shared: Some(shared), ..self@ }),
    {
        AddBuilder {
            url: self.url,
            description: self.description,
            extended: self.extended,
            tags: self.tags,
            dt: self.dt,
            replace: self.replace,
            shared: Some(shared),
            toread: self.toread,
        }
    }

    /// Marks the bookmark as unread.
    pub fn toread(self, toread: bool) -> (b: AddBuilder)
        ensures
            b@ == (AddBuilderView { toread: Some(toread), ..self@ }),
    {
        AddBuilder {
            url: self.url,
            description: self.description,
            extended: self.extended,
            tags: self.tags,
            dt: self.dt,
            replace: self.replace,
            shared: self.shared,
            toread: Some(toread),
        }
    }

    /// Ensure there is something for a default description.
    pub fn default_description(&self) -> (r: Result<String, BuildError>)
        ensures
            match self@.default_description() {
                Ok(title) => r matches Ok(s) && s@ == title,
                Err(missing) => r matches Err(e) && e == missing,
            },
    {
        match &self.url {
            Some(url) => Ok(String::from_str(url_as_str(url))),
            None => Err(BuildError::MissingRequiredField { field: RequiredField::Url }),
        }
    }

    /// Check that the tags do not exceed 100.
    pub fn validate(&self) -> (r: Result<(), BuildError>)
        ensures
            match tags_violation(self@.tags, BOOKMARK_TAG_LIMIT) {
                Some(violation) => r == Err::<(), BuildError>(violation),
                None => r is Ok,
            },
    {
        check_tags(&self.tags, BOOKMARK_TAG_LIMIT)
    }

    /// Builds the endpoint: see [`AddBuilderView::built`].
    pub fn build(self) -> (r: Result<Add, BuildError>)
        ensures
            match self@.built() {
                Ok(view) => r matches Ok(e) && e@ == view,
                Err(error) => r matches Err(e) && e == error,
            },
    {
        match self.validate() {
            Err(e) => Err(e),
            Ok(_) => {
                let description = match &self.description {
                    Some(description) => description.clone(),
                    None => match self.default_description() {
                        Ok(description) => description,
                        Err(e) => {
                            return Err(e);
                        },
                    },
                };
                match self.url {
                    None => Err(BuildError::MissingRequiredField { field: RequiredField::Url }),
                    Some(url) => Ok(
                        Add {
                            url,
                            description,
                            extended: self.extended,
                            tags: self.tags,
                            dt: self.dt,
                            replace: self.replace,
                            shared: self.shared,
                            toread: self.toread,
                        },
                    ),
                }
            },
        }
    }
}

impl Endpoint for Add {
    open spec fn spec_method(&self) -> Method {
        Method::Get
    }

    open spec fn spec_endpoint(&self) -> Seq<char> {
        "v1/posts/add"@
    }

    open spec fn spec_parameters(&self) -> Seq<(Seq<char>, Seq<char>)> {
        seq![("url"@, self@.url), ("description"@, self@.description)] + opt_pair(
            "extended"@,
            self@.extended,
        ) + opt_pair("tags"@, tags_text(self@.tags)) + opt_pair("dt"@, date_value(self@.dt))
            + opt_pair("replace"@, flag_text(self@.replace)) + opt_pair(
            "shared"@,
            flag_text(self@.shared),
        ) + opt_pair("toread"@, flag_text(self@.toread))
    }

    fn method(&self) -> (m: Method) {
        Method::Get
    }

    fn endpoint(&self) -> (path: String) {
        String::from_str("v1/posts/add")
    }

    fn parameters(&self) -> (params: QueryParams) {
        let mut params = QueryParams::new();
        params
            .push("url", &self.url)
            .push("description", &self.description)
            .push_opt("extended", self.extended.as_ref())
            .push_opt("tags", self.tags.as_ref())
            .push_opt("dt", self.dt)
            .push_opt("replace", yes_no(self.replace))
            .push_opt("shared", yes_no(self.shared))
            .push_opt("toread", yes_no(self.toread));
        assert(params@ =~= self.spec_parameters());
        params
    }
}

impl Limit for Add {
    open spec fn spec_secs_between_calls() -> nat {
        DEFAULT_SECS_BETWEEN_CALLS as nat
    }

    fn secs_between_calls() -> (secs: usize) {
        DEFAULT_SECS_BETWEEN_CALLS
    }
}

/// A title that was not set defaults to the URL, and without a URL to take
/// it from the build fails for want of the URL.
pub proof fn lemma_add_title_defaults_to_url(b: AddBuilderView)
    requires
        b.description is None,
        tags_violation(b.tags, BOOKMARK_TAG_LIMIT) is None,
    ensures
        b.url matches Some(url) ==> b.built() matches Ok(e) && e.description == url && e.url
            == url,
        b.url is None ==> b.built() == Err::<AddView, BuildError>(
            BuildError::MissingRequiredField { field: RequiredField::Url },
        ),
{
}

/// The names of the parameters of `Add` differ from one another.
proof fn lemma_add_names_differ()
    ensures
        "url"@.len() == 3,
        "description"@.len() == 11,
        "extended"@.len() == 8,
        "tags"@.len() == 4,
        "dt"@.len() == 2,
        "replace"@.len() == 7,
        "shared"@.len() == 6,
        "toread"@.len() == 6,
        "shared"@ != "toread"@,
{
    reveal_strlit("url");
    reveal_strlit("description");
    reveal_strlit("extended");
    reveal_strlit("tags");
    reveal_strlit("dt");
    reveal_strlit("replace");
    reveal_strlit("shared");
    reveal_strlit("toread");
    assert("shared"@[0] == 's' && "toread"@[0] == 't');
}

/// The two parameters that are always sent carry the names `url` and
/// `description`.
proof fn lemma_add_fixed_names(url: Seq<char>, description: Seq<char>, key: Seq<char>)
    ensures
        has_key(seq![("url"@, url), ("description"@, description)], key) <==> key == "url"@ || key
            == "description"@,
{
    reveal(has_key);
    let fixed = seq![("url"@, url), ("description"@, description)];
    if has_key(fixed, key) {
        let i = choose|i: int| 0 <= i < fixed.len() && (#[trigger] fixed[i]).0 == key;
        assert(i == 0 || i == 1);
    }
    if key == "url"@ {
        assert(fixed[0].0 == key);
    }
    if key == "description"@ {
        assert(fixed[1].0 == key);
    }
}

/// The names that occur in the query are `url`, `description` and those of
/// the parameters that were set.
pub proof fn lemma_add_names(e: Add, key: Seq<char>)
    ensures
        has_key(e.spec_parameters(), key) <==> key == "url"@ || key == "description"@ || (
        e@.extended is Some && key == "extended"@) || (e@.tags is Some && key == "tags"@) || (
        e@.dt is Some && key == "dt"@) || (e@.replace is Some && key == "replace"@) || (
        e@.shared is Some && key == "shared"@) || (e@.toread is Some && key == "toread"@),
{
    let fixed = seq![("url"@, e@.url), ("description"@, e@.description)];
    let first = opt_pair("extended"@, e@.extended);
    let second = opt_pair("tags"@, tags_text(e@.tags));
    let third = opt_pair("dt"@, date_value(e@.dt));
    let fourth = opt_pair("replace"@, flag_text(e@.replace));
    let fifth = opt_pair("shared"@, flag_text(e@.shared));
    let sixth = opt_pair("toread"@, flag_text(e@.toread));
    lemma_has_key_concat(fixed, first, key);
    lemma_has_key_concat(fixed + first, second, key);
    lemma_has_key_concat(fixed + first + second, third, key);
    lemma_has_key_concat(fixed + first + second + third, fourth, key);
    lemma_has_key_concat(fixed + first + second + third + fourth, fifth, key);
    lemma_has_key_concat(fixed + first + second + third + fourth + fifth, sixth, key);
    lemma_has_key_opt_pair("extended"@, e@.extended, key);
    lemma_has_key_opt_pair("tags"@, tags_text(e@.tags), key);
    lemma_has_key_opt_pair("dt"@, date_value(e@.dt), key);
    lemma_has_key_opt_pair("replace"@, flag_text(e@.replace), key);
    lemma_has_key_opt_pair("shared"@, flag_text(e@.shared), key);
    lemma_has_key_opt_pair("toread"@, flag_text(e@.toread), key);
    lemma_add_fixed_names(e@.url, e@.description, key);
}

/// A parameter that was not set does not occur in the query.
pub proof fn lemma_add_omits_unset(e: Add)
    ensures
        e@.extended is None ==> !has_key(e.spec_parameters(), "extended"@),
        e@.tags is None ==> !has_key(e.spec_parameters(), "tags"@),
        e@.dt is None ==> !has_key(e.spec_parameters(), "dt"@),
        e@.replace is None ==> !has_key(e.spec_parameters(), "replace"@),
        e@.shared is None ==> !has_key(e.spec_parameters(), "shared"@),
        e@.toread is None ==> !has_key(e.spec_parameters(), "toread"@),
{
    lemma_add_names_differ();
    lemma_add_names(e, "extended"@);
    lemma_add_names(e, "tags"@);
    lemma_add_names(e, "dt"@);
    lemma_add_names(e, "replace"@);
    lemma_add_names(e, "shared"@);
    lemma_add_names(e, "toread"@);
}

} // verus!
