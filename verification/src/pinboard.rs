//! The client for one user of the service.

use vstd::prelude::*;
use vstd::utf8::encode_utf8;
use crate::api::client::{Client, Request, Response, RestClient};
use crate::api::error::ApiError;
use crate::auth::{token_header, token_parameter, Auth, AuthError};
use crate::api::params::{
    lemma_pairs_cost_concat, lemma_pairs_cost_single, pairs_cost, QueryParams,
};
use crate::bindings::headers::{
    header_map_entries, header_map_len, header_map_new, header_octets_ok, no_headers,
    values_under,
};
use crate::bindings::weburl::{
    url_append_pair, url_as_str, url_clone, url_fragment, url_join, url_joined, url_limit,
    url_parse, url_parsed, url_query_pairs, url_resource, url_size, url_text, url_too_long,
};

verus! {

/// Errors which may occur when a client is set up.
#[non_exhaustive]
#[derive(Debug)]
#[allow(inconsistent_fields)]
pub enum PinboardError {
    /// The host does not make a URL.
    UrlParse {
        /// The source of the error.
        source: url::ParseError,
    },
    /// The credential cannot be used.
    AuthError {
        /// The source of the error.
        source: AuthError,
    },
}

/// Errors which may occur when a request is sent.
#[non_exhaustive]
#[derive(Debug)]
#[allow(inconsistent_fields)]
pub enum RestError<E> {
    /// The credential cannot be used.
    AuthError {
        /// The source of the error.
        source: AuthError,
    },
    /// The exchange with the service failed.
    Communication {
        /// The source of the error.
        source: E,
    },
}

impl<E> RestError<E> {
    /// Whether this is the refusal of the credential.
    pub open spec fn is_auth_error(self) -> bool {
        self is AuthError
    }

    /// Whether this is the transport's error `source`.
    pub open spec fn is_communication_error(self, source: E) -> bool {
        self matches RestError::Communication { source: s } && s == source
    }
}

/// Whether an error is the refusal of the credential, as a client error.
pub open spec fn is_refusal<E>(e: ApiError<RestError<E>>) -> bool {
    e matches ApiError::Client { source } && source.is_auth_error()
}

/// Whether an error is the transport's error `source`, as a client error.
pub open spec fn is_transport_error<E>(e: ApiError<RestError<E>>, source: E) -> bool {
    e matches ApiError::Client { source: s } && s.is_communication_error(source)
}

/// Where the token travels.
#[derive(Debug, Clone, Copy, PartialEq, Eq, Structural)]
pub enum AuthStyle {
    /// In the URL, as a query parameter.
    Url,
    /// In a request header that is marked as sensitive.
    Header,
}

/// What performs the exchange with the service: it is handed a request, the
/// headers to send with it and a body, and hands back the response.
pub trait Transport {
    /// The errors that may occur in an exchange.
    type Error;

    /// Performs one exchange.
    fn send(
        &self,
        request: Request,
        headers: http::HeaderMap<http::HeaderValue>,
        body: Vec<u8>,
    ) -> Result<Response, Self::Error>;
}

/// A pinboard API for a single user
pub struct Pinboard<T> {
    /// The transport to use for the API calls
    client: T,
    /// The base URL to use for API calls
    url: url::Url,
    /// The authentication information to use for communication
    auth: Auth,
    /// Where the token travels
    style: AuthStyle,
}

impl<T: Clone> Clone for Pinboard<T> {
    fn clone(&self) -> (copy: Pinboard<T>)
        ensures
            copy.spec_base() == self.spec_base(),
            copy.spec_token() == self.spec_token(),
            copy.spec_style() == self.spec_style(),
            call_ensures(T::clone, (&self.spec_transport(),), copy.spec_transport()),
    {
        Pinboard {
            client: self.client.clone(),
            url: url_clone(&self.url),
            auth: self.auth.clone(),
            style: self.style,
        }
    }
}

/// Whether a token can stand in a header: it holds no control character
/// but, at most, tabs.
pub open spec fn header_octets_fit(token: Seq<char>) -> bool {
    header_octets_ok(encode_utf8(token))
}

/// The text of the base URL for a host.
pub open spec fn base_url_text(host: Seq<char>) -> Seq<char> {
    "https://"@ + host + "/"@
}

/// The query pair that asks the service for JSON.
pub open spec fn format_pair() -> (Seq<char>, Seq<char>) {
    ("format"@, "json"@)
}

impl<T> Pinboard<T> {
    /// The serialization of the base URL.
    pub closed spec fn spec_base(&self) -> Seq<char> {
        url_text(self.url)
    }

    /// The token.
    pub closed spec fn spec_token(&self) -> Seq<char> {
        self.auth.spec_token()
    }

    /// The transport that performs the exchanges.
    pub closed spec fn spec_transport(&self) -> T {
        self.client
    }

    /// Where the token travels.
    pub closed spec fn spec_style(&self) -> AuthStyle {
        self.style
    }

    /// Create a new Pinboard API representation, with the token travelling
    /// in the URL and `client` as its transport.
    ///
    /// The `token` is the personal access token available on <http://pinboard.in>
    pub fn new(host: &str, token: &str, client: T) -> (r: Result<Self, PinboardError>)
        ensures
            match url_parsed(base_url_text(host@)) {
                Some(base) => r matches Ok(p) && p.spec_base() == base && p.spec_token() == token@
                    && p.spec_style() == AuthStyle::Url && p.spec_transport() == client,
                None => r matches Err(e) && e is UrlParse,
            },
    {
        Self::new_impl(host, Auth::Token(String::from_str(token)), AuthStyle::Url, client)
    }

    /// Create a new Pinboard API representation, with the token travelling
    /// in a header and `client` as its transport.
    pub fn with_header_auth(host: &str, token: &str, client: T) -> (r: Result<Self, PinboardError>)
        ensures
            match url_parsed(base_url_text(host@)) {
                Some(base) => r matches Ok(p) && p.spec_base() == base && p.spec_token() == token@
                    && p.spec_style() == AuthStyle::Header && p.spec_transport() == client,
                None => r matches Err(e) && e is UrlParse,
            },
    {
        Self::new_impl(host, Auth::Token(String::from_str(token)), AuthStyle::Header, client)
    }

    /// Internal method to create a new client
    fn new_impl(host: &str, auth: Auth, style: AuthStyle, client: T) -> (r: Result<
        Self,
        PinboardError,
    >)
        ensures
            match url_parsed(base_url_text(host@)) {
                Some(base) => r matches Ok(p) && p.spec_base() == base && p.spec_token()
                    == auth.spec_token() && p.spec_style() == style && p.spec_transport()
                    == client,
                None => r matches Err(e) && e is UrlParse,
            },
    {
        let mut text = String::from_str("https://");
        text.append(host);
        text.append("/");
        match url_parse(text.as_str()) {
            Ok(url) => Ok(Pinboard { client, url, auth, style }),
            Err(source) => Err(PinboardError::UrlParse { source }),
        }
    }

    /// What a debug representation shows of the client: its base URL, and
    /// nothing of the token.
    pub open spec fn spec_debug_text(base: Seq<char>) -> Seq<char> {
        "Pinboard { url: \""@ + base + "\" }"@
    }

    /// The debug representation of the client. It holds the base URL and
    /// leaves the token out.
    pub fn debug_text(&self) -> (s: String)
        ensures
            s@ == Self::spec_debug_text(self.spec_base()),
    {
        let mut s = String::from_str("Pinboard { url: \"");
        s.append(url_as_str(&self.url));
        s.append("\" }");
        s
    }

    /// The pairs that the client adds to the query of every request, after
    /// the endpoint's own: the format, and then the token where it travels
    /// in the URL.
    pub open spec fn spec_decoration(&self) -> Seq<(Seq<char>, Seq<char>)> {
        match self.spec_style() {
            AuthStyle::Url => seq![format_pair(), (token_parameter(), self.spec_token())],
            AuthStyle::Header => seq![format_pair()],
        }
    }

    /// The URL for an endpoint: the base URL joined with the endpoint's
    /// path.
    pub fn endpoint_url(&self, endpoint: &str) -> (r: Result<url::Url, url::ParseError>)
        ensures
            match url_joined(self.spec_base(), endpoint@) {
                Some(joined) => r matches Ok(u) && url_text(u) == joined,
                None => r is Err,
            },
    {
        url_join(&self.url, endpoint)
    }

    /// Whether a URL has room for the pairs that the client adds.
    pub open spec fn has_room(&self, url: url::Url) -> bool {
        url_size(url) + pairs_cost(self.spec_decoration()) <= url_limit()
    }

    /// Whether `sent` is `request` as it goes out: the same method, resource
    /// and fragment, with the client's pairs appended to the query.
    pub open spec fn is_decorated(&self, request: Request, sent: Request) -> bool {
        &&& sent.method == request.method
        &&& url_query_pairs(sent.url) == url_query_pairs(request.url) + self.spec_decoration()
        &&& url_resource(sent.url) == url_resource(request.url)
        &&& url_fragment(sent.url) == url_fragment(request.url)
    }

    /// Whether a URL has room for the pairs that the client adds.
    pub fn decoration_fits(&self, url: &url::Url) -> (fits: bool)
        ensures
            fits == self.has_room(*url),
    {
        let mut added = QueryParams::new();
        added.push("format", "json");
        match self.style {
            AuthStyle::Url => match &self.auth {
                Auth::Token(token) => {
                    added.push("auth_token", token);
                },
            },
            AuthStyle::Header => {},
        }
        assert(added@ =~= self.spec_decoration());
        added.fits(url)
    }

    /// The request as it goes out.
    pub fn decorate(&self, request: Request) -> (sent: Request)
        requires
            self.has_room(request.url),
        ensures
            self.is_decorated(request, sent),
    {
        let mut url = request.url;
        proof {
            let format = seq![format_pair()];
            let token = seq![(token_parameter(), self.spec_token())];
            lemma_pairs_cost_single("format"@, "json"@);
            lemma_pairs_cost_single(token_parameter(), self.spec_token());
            if self.spec_style() == AuthStyle::Url {
                assert(self.spec_decoration() =~= format + token);
                lemma_pairs_cost_concat(format, token);
            } else {
                assert(self.spec_decoration() =~= format);
            }
        }
        url_append_pair(&mut url, "format", "json");
        match self.style {
            AuthStyle::Url => {
                self.auth.add_to_url(&mut url);
            },
            AuthStyle::Header => {},
        }
        assert(url_query_pairs(url) =~= url_query_pairs(request.url) + self.spec_decoration());
        Request { method: request.method, url }
    }

    /// The entries of the headers that go with every request: the token,
    /// marked as sensitive, where it travels in a header, and none where it
    /// travels in the URL. There are none to be had where the token is to
    /// travel in a header and cannot stand in one.
    pub open spec fn spec_headers(&self) -> Option<Map<Seq<char>, Seq<(Seq<u8>, bool)>>> {
        match self.spec_style() {
            AuthStyle::Url => Some(no_headers()),
            AuthStyle::Header => if header_octets_fit(self.spec_token()) {
                Some(
                    no_headers().insert(
                        token_header(),
                        seq![(encode_utf8(self.spec_token()), true)],
                    ),
                )
            } else {
                None
            },
        }
    }

    /// The headers for a request: see [`Pinboard::spec_headers`]. They hold
    /// one value where the token travels in a header, and none else.
    pub fn request_headers(&self) -> (r: Result<http::HeaderMap<http::HeaderValue>, AuthError>)
        ensures
            match self.spec_headers() {
                Some(entries) => r matches Ok(headers) && header_map_entries(headers) == entries
                    && header_map_len(headers) == values_under(entries, token_header()),
                None => r is Err,
            },
    {
        let mut headers = header_map_new();
        match self.style {
            AuthStyle::Url => Ok(headers),
            AuthStyle::Header => match self.auth.set_header(&mut headers) {
                Ok(_) => Ok(headers),
                Err(e) => Err(e),
            },
        }
    }

    /// What making a request ready to go out comes to: the refusal where
    /// the token is to travel in a header and cannot stand in one; else a
    /// `UrlParse` error where the URL has no room for the client's pairs;
    /// else the request as [`Pinboard::is_decorated`] has it, with the
    /// headers of [`Pinboard::spec_headers`].
    pub open spec fn is_outgoing<E>(
        &self,
        request: Request,
        r: Result<(Request, http::HeaderMap<http::HeaderValue>), ApiError<RestError<E>>>,
    ) -> bool {
        match self.spec_headers() {
            None => r matches Err(e) && is_refusal(e),
            Some(entries) => if self.has_room(request.url) {
                r matches Ok(pair) && self.is_decorated(request, pair.0) && header_map_entries(
                    pair.1,
                ) == entries
            } else {
                r matches Err(e) && e is UrlParse
            },
        }
    }

    /// Makes a request ready to go out: the headers first, then the pairs
    /// that the client adds to the URL.
    pub fn outgoing<E>(&self, request: Request) -> (r: Result<
        (Request, http::HeaderMap<http::HeaderValue>),
        ApiError<RestError<E>>,
    >)
        ensures
            self.is_outgoing(request, r),
    {
        match self.request_headers() {
            Err(source) => Err(ApiError::client(RestError::AuthError { source })),
            Ok(headers) => {
                if self.decoration_fits(&request.url) {
                    Ok((self.decorate(request), headers))
                } else {
                    Err(ApiError::UrlParse { source: url_too_long() })
                }
            },
        }
    }

    /// One exchange, with the transport's part handed in as a function. A
    /// token that is to travel in a header and cannot stand in one ends it
    /// with the refusal, and a URL without room for the client's pairs with
    /// a `UrlParse` error, before anything is sent. Else `send` is called
    /// once, with the request and the headers that [`Pinboard::outgoing`]
    /// makes and the body as it came, and the outcome is what
    /// [`is_outcome_of`] makes of its answer.
    pub fn exchange<E, S>(&self, request: Request, body: Vec<u8>, send: S) -> (r: Result<
        Response,
        ApiError<RestError<E>>,
    >) where S: FnOnce(Request, http::HeaderMap<http::HeaderValue>, Vec<u8>) -> Result<Response, E>
        requires
            forall|q: Request, h: http::HeaderMap<http::HeaderValue>, b: Vec<u8>|
                call_requires(send, (q, h, b)),
        ensures
            match self.spec_headers() {
                None => r matches Err(e) && is_refusal(e),
                Some(entries) => if self.has_room(request.url) {
                    exists|
                        sent: Request,
                        headers: http::HeaderMap<http::HeaderValue>,
                        exchanged: Result<Response, E>,
                    |
                        self.is_decorated(request, sent) && header_map_entries(headers) == entries
                            && call_ensures(send, (sent, headers, body), exchanged)
                            && is_outcome_of(exchanged, r)
                } else {
                    r matches Err(e) && e is UrlParse
                },
            },
    {
        match self.outgoing::<E>(request) {
            Err(e) => Err(e),
            Ok((sent, headers)) => {
                let exchanged = send(sent, headers, body);
                exchange_outcome(exchanged)
            },
        }
    }
}

/// The token travels in exactly one place: where it is put into the URL it
/// is among the pairs the client adds (and the headers hold nothing, as
/// `request_headers` states), and where it is put into a header the client
/// adds no pair of that name to the URL.
pub proof fn lemma_token_travels_one_way<T>(p: Pinboard<T>)
    ensures
        p.spec_style() == AuthStyle::Url ==> p.spec_decoration().contains(
            (token_parameter(), p.spec_token()),
        ),
        p.spec_style() == AuthStyle::Header ==> forall|i: int|
            0 <= i < p.spec_decoration().len() ==> (#[trigger] p.spec_decoration()[i]).0
                != token_parameter(),
{
    reveal_strlit("format");
    reveal_strlit("auth_token");
    assert("format"@.len() != "auth_token"@.len());
    if p.spec_style() == AuthStyle::Url {
        assert(p.spec_decoration()[1] == (token_parameter(), p.spec_token()));
    }
}

/// Whether `r` is what an exchange came to: the response, or the
/// transport's error as a client error.
pub open spec fn is_outcome_of<E>(
    exchanged: Result<Response, E>,
    r: Result<Response, ApiError<RestError<E>>>,
) -> bool {
    match exchanged {
        Ok(response) => r matches Ok(given) && given == response,
        Err(error) => r matches Err(e) && is_transport_error(e, error),
    }
}

/// What an exchange came to: the response, or the transport's error as a
/// client error.
pub fn exchange_outcome<E>(exchanged: Result<Response, E>) -> (r: Result<
    Response,
    ApiError<RestError<E>>,
>)
    ensures
        is_outcome_of(exchanged, r),
{
    match exchanged {
        Ok(response) => Ok(response),
        Err(source) => Err(ApiError::client(RestError::Communication { source })),
    }
}

impl<T: Transport> RestClient for Pinboard<T> {
    type Error = RestError<T::Error>;

    fn rest_endpoint(&self, endpoint: &str) -> (r: Result<url::Url, ApiError<Self::Error>>)
        ensures
            match url_joined(self.spec_base(), endpoint@) {
                Some(joined) => r matches Ok(u) && url_text(u) == joined,
                None => r matches Err(e) && e is UrlParse,
            },
    {
        match self.endpoint_url(endpoint) {
            Ok(url) => Ok(url),
            Err(source) => Err(ApiError::UrlParse { source }),
        }
    }
}

impl<T: Transport> Client for Pinboard<T> {
    /// One exchange through the client's transport: as
    /// [`Pinboard::exchange`], with the transport's `send` as the function.
    fn rest(&self, request: Request, body: Vec<u8>) -> (r: Result<
        Response,
        ApiError<Self::Error>,
    >)
        ensures
            match self.spec_headers() {
                None => r matches Err(e) && is_refusal(e),
                Some(entries) => if self.has_room(request.url) {
                    exists|
                        sent: Request,
                        headers: http::HeaderMap<http::HeaderValue>,
                        exchanged: Result<Response, T::Error>,
                    |
                        self.is_decorated(request, sent) && header_map_entries(headers) == entries
                            && call_ensures(
                            T::send,
                            (&self.spec_transport(), sent, headers, body),
                            exchanged,
                        ) && is_outcome_of(exchanged, r)
                } else {
                    r matches Err(e) && e is UrlParse
                },
            },
    {
        self.exchange(
            request,
            body,
            |q: Request, h: http::HeaderMap<http::HeaderValue>, b: Vec<u8>| -> (x: Result<
                Response,
                T::Error,
            >)
                ensures
                    call_ensures(T::send, (&self.spec_transport(), q, h, b), x)
                { self.client.send(q, h, b) },
        )
    }
}

} // verus!
