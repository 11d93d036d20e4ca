//! What this library relies on from the `http` crate.
//!
//! A header map is kept as the crate's own [`http::HeaderMap`]. Its entries
//! are named by a spec function: for each header name, in lower case, the
//! values stored under it, each as its octets and its sensitivity mark.

use vstd::prelude::*;
use vstd::utf8::encode_utf8;

verus! {

/// `http::HeaderMap`, a multimap from header names to values.
#[verifier::external_type_specification]
#[verifier::external_body]
#[verifier::reject_recursive_types(T)]
pub struct ExHeaderMap<T>(http::HeaderMap<T>);

/// `http::HeaderValue`, the octets of a header value and its sensitivity mark.
#[verifier::external_type_specification]
#[verifier::external_body]
pub struct ExHeaderValue(http::HeaderValue);

/// `http::header::InvalidHeaderValue`, the refusal of a text as a header value.
#[verifier::external_type_specification]
#[verifier::external_body]
pub struct ExInvalidHeaderValue(http::header::InvalidHeaderValue);

/// The entries of a header map: lower-case header name to the values under
/// it, in order, each as (octets, sensitive).
pub uninterp spec fn header_map_entries(m: http::HeaderMap<http::HeaderValue>) -> Map<
    Seq<char>,
    Seq<(Seq<u8>, bool)>,
>;

/// The number of values a header map holds.
pub uninterp spec fn header_map_len(m: http::HeaderMap<http::HeaderValue>) -> nat;

/// The octets of a header value.
pub uninterp spec fn header_value_octets(v: http::HeaderValue) -> Seq<u8>;

/// Whether a header value is marked as sensitive.
pub uninterp spec fn header_value_sensitive(v: http::HeaderValue) -> bool;

/// The entries of a map without headers.
pub open spec fn no_headers() -> Map<Seq<char>, Seq<(Seq<u8>, bool)>> {
    Map::empty()
}

/// A number of values below which `HeaderMap::insert` is sure to find room.
/// The map refuses to grow beyond 32768 slots. It asks for more when three
/// quarters of them are taken, and, under its guard against hash flooding,
/// when a fifth of them are: with fewer than 6554 values it never asks for
/// more than it can have.
pub open spec fn header_map_capacity() -> nat {
    6554
}

/// The number of values that stand under a name.
pub open spec fn values_under(
    entries: Map<Seq<char>, Seq<(Seq<u8>, bool)>>,
    name: Seq<char>,
) -> nat {
    if entries.dom().contains(name) {
        entries[name].len()
    } else {
        0
    }
}

/// An octet that `HeaderValue::from_str` accepts: a tab, or anything from
/// the space upwards but the delete character.
pub open spec fn header_octet_ok(b: u8) -> bool {
    b == 9 || (b >= 32 && b != 127)
}

/// Octets that `HeaderValue::from_str` accepts: each of them is acceptable.
pub open spec fn header_octets_ok(octets: Seq<u8>) -> bool {
    forall|i: int| 0 <= i < octets.len() ==> header_octet_ok(#[trigger] octets[i])
}

/// A header name this library is prepared to hand to `HeaderMap::insert`:
/// not empty, at most 64 characters, ASCII letters, digits and hyphens only.
pub open spec fn header_name_ok(name: Seq<char>) -> bool {
    &&& 0 < name.len() <= 64
    &&& forall|i: int|
        0 <= i < name.len() ==> {
            let c = #[trigger] name[i];
            ('a' <= c && c <= 'z') || ('A' <= c && c <= 'Z') || ('0' <= c && c <= '9') || c == '-'
        }
}

/// A character with ASCII capitals turned into small letters.
pub open spec fn ascii_lower_char(c: char) -> char {
    if 'A' <= c && c <= 'Z' {
        ((c as u8) + 32) as char
    } else {
        c
    }
}

/// A text with its ASCII capitals turned into small letters.
pub open spec fn ascii_lower(s: Seq<char>) -> Seq<char> {
    Seq::new(s.len(), |i: int| ascii_lower_char(s[i]))
}

/// `HeaderMap::new`: an empty map.
#[verifier::external_body]
pub(crate) fn header_map_new() -> (m: http::HeaderMap<http::HeaderValue>)
    ensures
        header_map_entries(m) == no_headers(),
        header_map_len(m) == 0,
{
    http::HeaderMap::new()
}

/// `HeaderMap::len`: the number of values in the map.
#[verifier::external_body]
pub(crate) fn header_map_count(m: &http::HeaderMap<http::HeaderValue>) -> (n: usize)
    ensures
        n == header_map_len(*m),
{
    m.len()
}

/// `HeaderValue::from_str`: accepted exactly when every octet of the text is
/// acceptable; the value then holds those octets and is not sensitive.
#[verifier::external_body]
pub(crate) fn header_value_from_str(src: &str) -> (r: Result<
    http::HeaderValue,
    http::header::InvalidHeaderValue,
>)
    ensures
        r is Ok <==> header_octets_ok(encode_utf8(src@)),
        r matches Ok(v) ==> header_value_octets(v) == encode_utf8(src@) && !header_value_sensitive(
            v,
        ),
{
    http::HeaderValue::from_str(src)
}

/// `HeaderValue::set_sensitive`: sets the mark and leaves the octets.
#[verifier::external_body]
pub(crate) fn header_value_set_sensitive(v: &mut http::HeaderValue, sensitive: bool)
    ensures
        header_value_sensitive(*final(v)) == sensitive,
        header_value_octets(*final(v)) == header_value_octets(*old(v)),
{
    v.set_sensitive(sensitive);
}

/// `HeaderMap::insert` with a static name: the name is stored in lower case
/// and the value replaces whatever stood under it; the other names keep
/// their values. The map then holds the values it held, less those that
/// stood under the name, and the new one. The call panics on a name that is
/// no header name and on a map that cannot grow; the preconditions leave
/// both out.
#[verifier::external_body]
pub(crate) fn header_map_insert(
    m: &mut http::HeaderMap<http::HeaderValue>,
    name: &'static str,
    value: http::HeaderValue,
)
    requires
        header_name_ok(name@),
        header_map_len(*old(m)) < header_map_capacity(),
    ensures
        header_map_entries(*final(m)) == header_map_entries(*old(m)).insert(
            ascii_lower(name@),
            seq![(header_value_octets(value), header_value_sensitive(value))],
        ),
        header_map_len(*final(m)) + values_under(
            header_map_entries(*old(m)),
            ascii_lower(name@),
        ) == header_map_len(*old(m)) + 1,
{
    m.insert(name, value);
}

} // verus!
