//! The credential of a user, and the two places it can travel in.

use vstd::prelude::*;
use vstd::utf8::encode_utf8;
use crate::api::params::pair_fits;
use crate::bindings::headers::{
    ascii_lower, header_map_capacity, header_map_count, header_map_entries, header_map_insert,
    header_map_len, header_name_ok, header_octets_ok, header_value_from_str,
    header_value_set_sensitive, values_under,
};
use crate::bindings::weburl::{
    pair_cost, url_append_pair, url_fragment, url_limit, url_query_pairs, url_resource, url_size,
};

verus! {

/// Errors which may occur when a credential is put to use.
#[non_exhaustive]
#[derive(Debug)]
pub enum AuthError {
    /// The token holds a character that no header value may hold.
    InvalidCredential {
        /// The source of the error.
        source: http::header::InvalidHeaderValue,
    },
}

/// A Pinboard API Token
pub enum Auth {
    /// A personal access token, obtained online or through an api call
    Token(String),
}

impl Clone for Auth {
    fn clone(&self) -> (copy: Auth)
        ensures
            copy.spec_token() == self.spec_token(),
    {
        match self {
            Auth::Token(token) => Auth::Token(token.clone()),
        }
    }
}

/// The name of the query parameter that carries the token.
pub open spec fn token_parameter() -> Seq<char> {
    "auth_token"@
}

/// The name of the header that carries the token, as a header map keeps it.
pub open spec fn token_header() -> Seq<char> {
    "x-auth-token"@
}

impl Auth {
    /// The token.
    pub open spec fn spec_token(&self) -> Seq<char> {
        match self {
            Auth::Token(token) => token@,
        }
    }

    /// Whether the token can stand in a header: it holds no control
    /// character but, at most, tabs.
    pub open spec fn fits_header(&self) -> bool {
        header_octets_ok(encode_utf8(self.spec_token()))
    }

    /// Whether a header map has room for the token's header.
    pub fn has_room(headers: &http::HeaderMap<http::HeaderValue>) -> (room: bool)
        ensures
            room == (header_map_len(*headers) < header_map_capacity()),
    {
        header_map_count(headers) < 6554
    }

    /// Add the token to a request header, marked as sensitive. A token that
    /// cannot stand in a header is refused, and the headers stay as they
    /// were.
    pub fn set_header<'a>(&self, headers: &'a mut http::HeaderMap<http::HeaderValue>) -> (r:
        Result<&'a mut http::HeaderMap<http::HeaderValue>, AuthError>)
        requires
            header_map_len(*old(headers)) < header_map_capacity(),
        ensures
            r is Ok <==> self.fits_header(),
            r matches Ok(map) ==> header_map_entries(*map) == header_map_entries(
                *old(headers),
            ).insert(token_header(), seq![(encode_utf8(self.spec_token()), true)])
                && header_map_len(*map) + values_under(
                header_map_entries(*old(headers)),
                token_header(),
            ) == header_map_len(*old(headers)) + 1 && *final(headers) == *final(map),
            r is Err ==> *final(headers) == *old(headers),
    {
        match self {
            Auth::Token(token) => {
                match header_value_from_str(token.as_str()) {
                    Err(source) => Err(AuthError::InvalidCredential { source }),
                    Ok(value) => {
                        let mut value = value;
                        header_value_set_sensitive(&mut value, true);
                        proof {
                            lemma_token_header_name();
                        }
                        header_map_insert(headers, "X-Auth-Token", value);
                        Ok(headers)
                    },
                }
            },
        }
    }

    /// Whether a URL has room for the token.
    pub fn fits_url(&self, url: &url::Url) -> (fits: bool)
        ensures
            fits == (url_size(*url) + pair_cost(token_parameter(), self.spec_token())
                <= url_limit()),
    {
        match self {
            Auth::Token(token) => pair_fits(url, "auth_token", token.as_str()),
        }
    }

    /// Add the token to a url, as its last query pair.
    pub fn add_to_url(&self, url: &mut url::Url)
        requires
            url_size(*old(url)) + pair_cost(token_parameter(), self.spec_token()) <= url_limit(),
        ensures
            url_query_pairs(*final(url)) == url_query_pairs(*old(url)).push(
                (token_parameter(), self.spec_token()),
            ),
            url_resource(*final(url)) == url_resource(*old(url)),
            url_fragment(*final(url)) == url_fragment(*old(url)),
            url_size(*final(url)) <= url_size(*old(url)) + pair_cost(
                token_parameter(),
                self.spec_token(),
            ),
    {
        match self {
            Auth::Token(token) => {
                url_append_pair(url, "auth_token", token.as_str());
            },
        }
    }
}

/// The header's name is one a header map takes, and is kept in lower case.
proof fn lemma_token_header_name()
    ensures
        header_name_ok("X-Auth-Token"@),
        ascii_lower("X-Auth-Token"@) == token_header(),
{
    reveal_strlit("X-Auth-Token");
    reveal_strlit("x-auth-token");
    assert(ascii_lower("X-Auth-Token"@) =~= "x-auth-token"@);
}

} // verus!
