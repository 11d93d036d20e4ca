//! What this library relies on from the `url` crate.
//!
//! A [`url::Url`] is known to Verus by its serialization alone. The
//! serialization in turn is treated as a container: a resource (scheme,
//! authority and path) followed by an ordered list of query pairs and,
//! where there is one, a fragment. The spec functions below give these
//! names and the wrappers say how each call of the crate changes them.

use vstd::prelude::*;
use vstd::utf8::encode_utf8;

verus! {

/// `url::Url`, a parsed URL.
#[verifier::external_type_specification]
#[verifier::external_body]
pub struct ExUrl(url::Url);

/// `url::ParseError`, why a text is no URL.
#[verifier::external_type_specification]
#[verifier::external_body]
pub struct ExParseError(url::ParseError);

/// The serialization of a URL, as `Url::as_str` returns it.
pub uninterp spec fn url_text(u: url::Url) -> Seq<char>;

/// The decoded name/value pairs of the query of the URL with serialization
/// `text`, in order, as `Url::query_pairs` yields them.
pub uninterp spec fn query_pairs_of(text: Seq<char>) -> Seq<(Seq<char>, Seq<char>)>;

/// The part of the serialization `text` of a URL that precedes its query:
/// scheme, authority and path.
pub uninterp spec fn resource_of(text: Seq<char>) -> Seq<char>;

/// The fragment of the URL with serialization `text`, where it has one, as
/// `Url::fragment` returns it.
pub uninterp spec fn fragment_of(text: Seq<char>) -> Option<Seq<char>>;

/// The fragment of a URL, where it has one.
pub open spec fn url_fragment(u: url::Url) -> Option<Seq<char>> {
    fragment_of(url_text(u))
}

/// The query pairs of a URL.
pub open spec fn url_query_pairs(u: url::Url) -> Seq<(Seq<char>, Seq<char>)> {
    query_pairs_of(url_text(u))
}

/// The resource of a URL.
pub open spec fn url_resource(u: url::Url) -> Seq<char> {
    resource_of(url_text(u))
}

/// The number of octets that a text takes in UTF-8.
pub open spec fn octets(text: Seq<char>) -> nat {
    encode_utf8(text).len()
}

/// The number of octets of the serialization of a URL.
pub open spec fn url_size(u: url::Url) -> nat {
    octets(url_text(u))
}

/// The most octets that the `url` crate lets a serialization have: it
/// counts them in 32 bits.
pub open spec fn url_limit() -> nat {
    0xFFFF_FFFF
}

/// The most octets by which a query pair makes a serialization longer: each
/// octet of the name and of the value is written as three at most, a
/// question mark or an ampersand goes before the pair and an equals sign
/// into it.
pub open spec fn pair_cost(name: Seq<char>, value: Seq<char>) -> nat {
    3 * (octets(name) + octets(value)) + 2
}

/// The serialization of the URL that `Url::parse` builds from `input`, or
/// `None` where it rejects the input.
pub uninterp spec fn url_parsed(input: Seq<char>) -> Option<Seq<char>>;

/// The serialization of the URL that `Url::join` builds from a base URL with
/// serialization `base` and the reference `input`, or `None` where it rejects
/// the reference.
pub uninterp spec fn url_joined(base: Seq<char>, input: Seq<char>) -> Option<Seq<char>>;

/// `Url::parse`: the outcome depends on the input text alone.
#[verifier::external_body]
pub(crate) fn url_parse(input: &str) -> (r: Result<url::Url, url::ParseError>)
    ensures
        match r {
            Ok(u) => url_parsed(input@) == Some(url_text(u)),
            Err(_) => url_parsed(input@) is None,
        },
{
    url::Url::parse(input)
}

/// `Url::join`: the outcome depends on the base URL's serialization and on
/// the reference alone.
#[verifier::external_body]
pub(crate) fn url_join(base: &url::Url, input: &str) -> (r: Result<url::Url, url::ParseError>)
    ensures
        match r {
            Ok(u) => url_joined(url_text(*base), input@) == Some(url_text(u)),
            Err(_) => url_joined(url_text(*base), input@) is None,
        },
{
    base.join(input)
}

/// `Url::clone`: the copy is the same URL.
#[verifier::external_body]
pub(crate) fn url_clone(u: &url::Url) -> (copy: url::Url)
    ensures
        copy == *u,
{
    u.clone()
}

/// `ParseError::Overflow`, the crate's word for a URL beyond its limit.
#[verifier::external_body]
pub(crate) fn url_too_long() -> url::ParseError {
    url::ParseError::Overflow
}

/// `Url::as_str`: the stored serialization.
#[verifier::external_body]
pub(crate) fn url_as_str(u: &url::Url) -> (s: &str)
    ensures
        s@ == url_text(*u),
{
    u.as_str()
}

/// `Url::query_pairs_mut` followed by `append_pair`: the pair is
/// form-urlencoded and appended to the query, so that it decodes back as the
/// last pair; the pairs before it and the resource are untouched, and the
/// fragment, which the crate takes off for the time, is put back as it was.
/// The crate panics where the serialization outgrows its limit; the
/// precondition leaves that out.
#[verifier::external_body]
pub(crate) fn url_append_pair(u: &mut url::Url, name: &str, value: &str)
    requires
        url_size(*old(u)) + pair_cost(name@, value@) <= url_limit(),
    ensures
        query_pairs_of(url_text(*final(u))) == query_pairs_of(url_text(*old(u))).push(
            (name@, value@),
        ),
        resource_of(url_text(*final(u))) == resource_of(url_text(*old(u))),
        fragment_of(url_text(*final(u))) == fragment_of(url_text(*old(u))),
        url_size(*final(u)) <= url_size(*old(u)) + pair_cost(name@, value@),
{
    u.query_pairs_mut().append_pair(name, value);
}

} // verus!
