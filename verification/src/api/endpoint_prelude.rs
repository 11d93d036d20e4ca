//! What the endpoint definitions share: tag lists, optional parameters and
//! the bounds the service sets.

use vstd::prelude::*;
use crate::api::params::{decimal, ParamValue};
use crate::bindings::weburl::{url_clone, url_text};

pub use crate::api::endpoint::Endpoint;
pub use crate::api::error::{check_limit, BuildError, Constraint, RequiredField};
pub use crate::api::types::{Date, Method, YesNo};

verus! {

/// The most tags a filter takes.
pub const FILTER_TAG_LIMIT: u64 = 3;

/// The most tags a bookmark takes.
pub const BOOKMARK_TAG_LIMIT: u64 = 100;

/// The most results a listing returns.
pub const COUNT_LIMIT: u64 = 100;

/// The texts of `parts` with `separator` between each two neighbours.
pub open spec fn joined(parts: Seq<Seq<char>>, separator: Seq<char>) -> Seq<char>
    decreases parts.len(),
{
    if parts.len() == 0 {
        Seq::empty()
    } else if parts.len() == 1 {
        parts[0]
    } else {
        joined(parts.drop_last(), separator) + separator + parts.last()
    }
}

/// The query pair for a parameter that may be unset: nothing where it is.
pub open spec fn opt_pair(key: Seq<char>, value: Option<Seq<char>>) -> Seq<(Seq<char>, Seq<char>)> {
    match value {
        Some(v) => seq![(key, v)],
        None => Seq::empty(),
    }
}

/// Whether some pair of `pairs` has the name `key`.
#[verifier::opaque]
pub open spec fn has_key(pairs: Seq<(Seq<char>, Seq<char>)>, key: Seq<char>) -> bool {
    exists|i: int| 0 <= i < pairs.len() && (#[trigger] pairs[i]).0 == key
}

/// A name occurs in two lists put together exactly when it occurs in one of
/// them.
pub proof fn lemma_has_key_concat(
    a: Seq<(Seq<char>, Seq<char>)>,
    b: Seq<(Seq<char>, Seq<char>)>,
    key: Seq<char>,
)
    ensures
        has_key(a + b, key) <==> has_key(a, key) || has_key(b, key),
{
    reveal(has_key);
    if has_key(a + b, key) {
        let i = choose|i: int| 0 <= i < (a + b).len() && (#[trigger] (a + b)[i]).0 == key;
        if i < a.len() {
            assert(a[i].0 == key);
        } else {
            assert(b[i - a.len()].0 == key);
        }
    }
    if has_key(a, key) {
        let i = choose|i: int| 0 <= i < a.len() && (#[trigger] a[i]).0 == key;
        assert((a + b)[i].0 == key);
    }
    if has_key(b, key) {
        let i = choose|i: int| 0 <= i < b.len() && (#[trigger] b[i]).0 == key;
        assert((a + b)[a.len() + i].0 == key);
    }
}

/// A parameter that may be unset puts its name into the query exactly when
/// it is set.
pub proof fn lemma_has_key_opt_pair(name: Seq<char>, value: Option<Seq<char>>, key: Seq<char>)
    ensures
        has_key(opt_pair(name, value), key) <==> value is Some && name == key,
{
    reveal(has_key);
    if value is Some && name == key {
        assert(opt_pair(name, value)[0].0 == key);
    }
}

/// The text the service reads for a flag.
pub open spec fn yes_no_text(flag: bool) -> Seq<char> {
    if flag {
        "yes"@
    } else {
        "no"@
    }
}

/// The flag, if set, as the service reads it.
pub fn yes_no(flag: Option<bool>) -> (r: Option<YesNo>)
    ensures
        match flag {
            Some(flag) => r matches Some(v) && v.value_text() == yes_no_text(flag),
            None => r is None,
        },
{
    match flag {
        Some(flag) => Some(YesNo::from_bool(flag)),
        None => None,
    }
}

/// The text of a tag filter, if set: the tags with a space between each two
/// neighbours.
pub open spec fn tags_text(tags: Option<Seq<Seq<char>>>) -> Option<Seq<char>> {
    match tags {
        Some(tags) => Some(joined(tags, " "@)),
        None => None,
    }
}

/// The text of a number, if set: its decimal numeral.
pub open spec fn number_text(number: Option<nat>) -> Option<Seq<char>> {
    match number {
        Some(number) => Some(decimal(number)),
        None => None,
    }
}

/// The text of a date, if set.
pub open spec fn date_value(date: Option<Date>) -> Option<Seq<char>> {
    match date {
        Some(date) => Some(date.value_text()),
        None => None,
    }
}

/// The text of a flag, if set: `yes` or `no`.
pub open spec fn flag_text(flag: Option<bool>) -> Option<Seq<char>> {
    match flag {
        Some(flag) => Some(yes_no_text(flag)),
        None => None,
    }
}

/// What a tag list, if there is one, holds.
pub open spec fn tags_view(tags: Option<TagList>) -> Option<Seq<Seq<char>>> {
    match tags {
        Some(tags) => Some(tags@),
        None => None,
    }
}

/// What a text, if there is one, holds.
pub open spec fn text_view(text: Option<String>) -> Option<Seq<char>> {
    match text {
        Some(text) => Some(text@),
        None => None,
    }
}

/// The serialization of a URL, if there is one.
pub open spec fn url_view(url: Option<url::Url>) -> Option<Seq<char>> {
    match url {
        Some(url) => Some(url_text(url)),
        None => None,
    }
}

/// A copy of a text, if there is one.
pub fn duplicate_text(text: &Option<String>) -> (copy: Option<String>)
    ensures
        text_view(copy) == text_view(*text),
{
    match text {
        Some(text) => Some(text.clone()),
        None => None,
    }
}

/// A copy of a URL, if there is one.
pub fn duplicate_url(url: &Option<url::Url>) -> (copy: Option<url::Url>)
    ensures
        copy == *url,
{
    match url {
        Some(url) => Some(url_clone(url)),
        None => None,
    }
}

/// A copy of a tag list, if there is one.
pub fn duplicate_tags(tags: &Option<TagList>) -> (copy: Option<TagList>)
    ensures
        tags_view(copy) == tags_view(*tags),
{
    match tags {
        Some(tags) => Some(tags.duplicate()),
        None => None,
    }
}

/// A list of tags.
#[derive(Debug, Clone)]
pub struct TagList {
    tags: Vec<String>,
}

impl View for TagList {
    type V = Seq<Seq<char>>;

    closed spec fn view(&self) -> Seq<Seq<char>> {
        Seq::new(self.tags@.len(), |i: int| self.tags@[i]@)
    }
}

impl TagList {
    /// The list of the given tags, in order.
    pub fn from_strs(tags: &Vec<&str>) -> (list: TagList)
        ensures
            list@ == Seq::new(tags@.len(), |i: int| tags@[i]@),
    {
        let mut list = TagList { tags: Vec::new() };
        let mut i: usize = 0;
        while i < tags.len()
            invariant
                i <= tags@.len(),
                list@ == Seq::new(i as nat, |j: int| tags@[j]@),
            decreases tags@.len() - i,
        {
            let ghost before = list@;
            list.tags.push(String::from_str(tags[i]));
            assert(list@ =~= before.push(tags@[i as int]@));
            i += 1;
        }
        list
    }

    /// The number of tags.
    pub fn len(&self) -> (n: usize)
        ensures
            n == self@.len(),
    {
        self.tags.len()
    }

    /// A copy of the list.
    pub fn duplicate(&self) -> (list: TagList)
        ensures
            list@ == self@,
    {
        let mut list = TagList { tags: Vec::new() };
        let mut i: usize = 0;
        while i < self.tags.len()
            invariant
                i <= self.tags@.len(),
                list@ == self@.subrange(0, i as int),
            decreases self.tags@.len() - i,
        {
            let ghost before = list@;
            list.tags.push(self.tags[i].clone());
            assert(list@ =~= before.push(self@[i as int]));
            assert(list@ =~= self@.subrange(0, i + 1));
            i += 1;
        }
        assert(self@.subrange(0, i as int) =~= self@);
        list
    }
}

impl<'a> ParamValue for &'a TagList {
    /// The tags with a space between each two neighbours.
    open spec fn value_text(&self) -> Seq<char> {
        joined(self@, " "@)
    }

    fn as_value(&self) -> (s: String) {
        let mut s = String::new();
        let mut i: usize = 0;
        while i < self.tags.len()
            invariant
                i <= self.tags@.len(),
                s@ == joined(self@.subrange(0, i as int), " "@),
            decreases self.tags@.len() - i,
        {
            let ghost before = self@.subrange(0, i as int);
            let ghost after = self@.subrange(0, i + 1);
            assert(after.drop_last() =~= before);
            assert(after.last() == self.tags@[i as int]@);
            if i > 0 {
                s.append(" ");
            }
            s.append(self.tags[i].as_str());
            assert(s@ =~= joined(after, " "@));
            i += 1;
        }
        assert(self@.subrange(0, i as int) =~= self@);
        s
    }
}

/// The violation, if any, of a bound on the number of tags.
pub open spec fn tags_violation(tags: Option<Seq<Seq<char>>>, limit: u64) -> Option<BuildError> {
    match tags {
        Some(tags) => if tags.len() > limit {
            Some(
                BuildError::ConstraintViolation {
                    constraint: Constraint::Tags,
                    limit,
                    actual: tags.len() as u64,
                },
            )
        } else {
            None
        },
        None => None,
    }
}

/// The violation, if any, of a bound on a count.
pub open spec fn count_violation(count: Option<u8>, limit: u64) -> Option<BuildError> {
    match count {
        Some(count) => if count > limit {
            Some(
                BuildError::ConstraintViolation {
                    constraint: Constraint::Count,
                    limit,
                    actual: count as u64,
                },
            )
        } else {
            None
        },
        None => None,
    }
}

/// A bound is sharp: as many tags as the limit are accepted, and one more
/// is refused with a violation that reports the limit and the number given.
pub proof fn lemma_tag_bound_is_sharp(tags: Seq<Seq<char>>, limit: u64)
    requires
        limit < u64::MAX,
    ensures
        tags.len() == limit ==> tags_violation(Some(tags), limit) is None,
        tags.len() == limit + 1 ==> tags_violation(Some(tags), limit) == Some(
            BuildError::ConstraintViolation {
                constraint: Constraint::Tags,
                limit,
                actual: (limit + 1) as u64,
            },
        ),
{
}

/// A bound is sharp: a count equal to the limit is accepted, and one more
/// is refused with a violation that reports the limit and the count given.
pub proof fn lemma_count_bound_is_sharp(count: u8, limit: u64)
    ensures
        count == limit ==> count_violation(Some(count), limit) is None,
        count == limit + 1 ==> count_violation(Some(count), limit) == Some(
            BuildError::ConstraintViolation {
                constraint: Constraint::Count,
                limit,
                actual: (limit + 1) as u64,
            },
        ),
{
}

/// Holds a tag list, if there is one, against the most tags accepted.
pub fn check_tags(tags: &Option<TagList>, limit: u64) -> (r: Result<(), BuildError>)
    ensures
        match tags_violation(tags_view(*tags), limit) {
            Some(violation) => r == Err::<(), BuildError>(violation),
            None => r is Ok,
        },
{
    match tags {
        Some(tags) => check_limit(Constraint::Tags, limit, tags.len() as u64),
        None => Ok(()),
    }
}

/// Holds a count, if there is one, against the highest count accepted.
pub fn check_count(count: Option<u8>, limit: u64) -> (r: Result<(), BuildError>)
    ensures
        match count_violation(count, limit) {
            Some(violation) => r == Err::<(), BuildError>(violation),
            None => r is Ok,
        },
{
    match count {
        Some(count) => check_limit(Constraint::Count, limit, count as u64),
        None => Ok(()),
    }
}

} // verus!
