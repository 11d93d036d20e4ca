//! Endpoints, and the one exchange that a query makes for them.

use vstd::prelude::*;
use crate::api::client::{Client, Request, Response};
use crate::api::error::ApiError;
use crate::api::params::{pairs_cost, QueryParams};
use crate::api::query::Query;
use crate::api::types::Method;
use crate::bindings::json::{json_from_slice, json_parsed};
use crate::bindings::weburl::{
    url_fragment, url_limit, url_query_pairs, url_resource, url_size, url_too_long,
};

verus! {

/// A trait for providing the necessary information for a single REST API
/// endpoint.
pub trait Endpoint {
    /// The HTTP method to use for the endpoint.
    spec fn spec_method(&self) -> Method;

    /// The path to the endpoint.
    spec fn spec_endpoint(&self) -> Seq<char>;

    /// Query parameters for the endpoint.
    spec fn spec_parameters(&self) -> Seq<(Seq<char>, Seq<char>)>;

    /// The HTTP method to use for the endpoint.
    fn method(&self) -> (m: Method)
        ensures
            m == self.spec_method(),
    ;

    /// The path to the endpoint.
    fn endpoint(&self) -> (path: String)
        ensures
            path@ == self.spec_endpoint(),
    ;

    /// Query parameters for the endpoint.
    fn parameters(&self) -> (params: QueryParams)
        ensures
            params@ == self.spec_parameters(),
    ;
}

/// A type that a response body can be decoded into.
pub trait FromBody: Sized {
    /// Decodes the body of a successful response.
    fn from_body(body: &[u8]) -> Result<Self, serde_json::Error>;

    /// The name of the type, for diagnostics.
    fn type_label() -> &'static str;
}

/// The placeholder for an answer that is not wanted: it holds nothing, so
/// any body decodes as it.
impl FromBody for () {
    fn from_body(body: &[u8]) -> (r: Result<(), serde_json::Error>)
        ensures
            r is Ok,
    {
        Ok(())
    }

    fn type_label() -> (label: &'static str)
        ensures
            label@ == "()"@,
    {
        "()"
    }
}

/// Whether a status code reports success.
pub open spec fn is_success(status: u16) -> bool {
    200 <= status < 300
}

/// Whether a status code reports success.
pub fn status_is_success(status: u16) -> (ok: bool)
    ensures
        ok == is_success(status),
{
    200 <= status && status < 300
}

impl<E> ApiError<E> {
    /// What a response with a failure status and the given body amounts to:
    /// what its JSON reports where the body is JSON, a server error with the
    /// status and the body where it is not.
    pub open spec fn answers(self, status: u16, body: Seq<u8>) -> bool {
        match json_parsed(body) {
            Some(value) => self.reported(value),
            None => self.is_server_error(status, body),
        }
    }
}

/// Whether `request` is the request for `endpoint` at the URL `url`: the
/// endpoint's method, and the URL with the endpoint's parameters appended
/// to its query, its resource and its fragment as they were.
pub open spec fn is_request_for<N: Endpoint>(
    endpoint: &N,
    url: url::Url,
    request: Request,
) -> bool {
    &&& request.method == endpoint.spec_method()
    &&& url_query_pairs(request.url) == url_query_pairs(url) + endpoint.spec_parameters()
    &&& url_resource(request.url) == url_resource(url)
    &&& url_fragment(request.url) == url_fragment(url)
    &&& url_size(request.url) <= url_size(url) + pairs_cost(endpoint.spec_parameters())
}

/// Whether a URL has room for the parameters of an endpoint.
pub open spec fn has_room_for<N: Endpoint>(endpoint: &N, url: url::Url) -> bool {
    url_size(url) + pairs_cost(endpoint.spec_parameters()) <= url_limit()
}

/// The request for an endpoint, given the URL that the client resolved its
/// path to; none where the URL has no room for the endpoint's parameters.
pub fn request_for<E: Endpoint>(endpoint: &E, url: url::Url) -> (r: Option<Request>)
    ensures
        r is Some <==> has_room_for(endpoint, url),
        r matches Some(request) ==> is_request_for(endpoint, url, request),
{
    let params = endpoint.parameters();
    if params.fits(&url) {
        let mut url = url;
        params.add_to_url(&mut url);
        Some(Request { method: endpoint.method(), url })
    } else {
        None
    }
}

/// The request for an endpoint, given the URL that the client resolved its
/// path to, or a `UrlParse` error where the URL has no room for the
/// endpoint's parameters.
pub fn request_or_error<N: Endpoint, E>(endpoint: &N, url: url::Url) -> (r: Result<
    Request,
    ApiError<E>,
>)
    ensures
        if has_room_for(endpoint, url) {
            r matches Ok(request) && is_request_for(endpoint, url, request)
        } else {
            r matches Err(e) && e is UrlParse
        },
{
    match request_for(endpoint, url) {
        Some(request) => Ok(request),
        None => Err(ApiError::UrlParse { source: url_too_long() }),
    }
}

/// The error that a response with a failure status stands for.
pub fn failure_of<E>(status: u16, body: &[u8]) -> (e: ApiError<E>)
    ensures
        e.answers(status, body@),
{
    match json_from_slice(body) {
        Ok(value) => ApiError::from_pinboard(value),
        Err(_) => ApiError::server_error(status, body),
    }
}

/// What checking a response comes to: nothing amiss with a success status,
/// and with any other the error that the response stands for.
pub open spec fn is_checked<E>(response: Response, r: Result<(), ApiError<E>>) -> bool {
    if is_success(response.status) {
        r is Ok
    } else {
        r matches Err(e) && e.answers(response.status, response.body@)
    }
}

/// What decoding a response as `T` comes to: with a failure status the
/// error that the response stands for; with a success status what `T`'s
/// decoder makes of the whole body, its value as it is and its error as a
/// `DataType` error that names `T` by `T`'s own label.
pub open spec fn is_decoded<T: FromBody, E>(response: Response, r: Result<T, ApiError<E>>) -> bool {
    if is_success(response.status) {
        exists|body: &[u8], decoded: Result<T, serde_json::Error>, label: &'static str|
            body@ == response.body@ && call_ensures(T::from_body, (body,), decoded)
                && call_ensures(T::type_label, (), label) && match decoded {
                Ok(value) => r matches Ok(v) && v == value,
                Err(error) => r matches Err(e) && e.is_data_type_error(error, label@),
            }
    } else {
        r matches Err(e) && e.answers(response.status, response.body@)
    }
}

/// What one exchange of a client for an endpoint comes to. The client
/// resolves the endpoint's path; its error is the outcome. A URL without
/// room for the endpoint's parameters is a `UrlParse` error. Else the client
/// is handed the request for the endpoint and an empty body; its error is
/// the outcome, and its response is concluded as `concluded` says.
pub open spec fn is_exchange_outcome<N: Endpoint, T, C: Client>(
    endpoint: &N,
    client: &C,
    r: Result<T, ApiError<C::Error>>,
    concluded: spec_fn(Response, Result<T, ApiError<C::Error>>) -> bool,
) -> bool {
    exists|path: &str, resolved: Result<url::Url, ApiError<C::Error>>|
        path@ == endpoint.spec_endpoint() && call_ensures(
            C::rest_endpoint,
            (client, path),
            resolved,
        ) && match resolved {
            Err(e) => r == Err::<T, ApiError<C::Error>>(e),
            Ok(url) => if has_room_for(endpoint, url) {
                exists|
                    request: Request,
                    body: Vec<u8>,
                    exchanged: Result<Response, ApiError<C::Error>>,
                |
                    is_request_for(endpoint, url, request) && body@.len() == 0 && call_ensures(
                        C::rest,
                        (client, request, body),
                        exchanged,
                    ) && match exchanged {
                        Err(e) => r == Err::<T, ApiError<C::Error>>(e),
                        Ok(response) => concluded(response, r),
                    }
            } else {
                r matches Err(e) && e is UrlParse
            },
        }
}

/// Passes a response with a success status and turns any other into the
/// error it stands for.
pub fn check_response<E>(response: &Response) -> (r: Result<(), ApiError<E>>)
    ensures
        is_checked(*response, r),
{
    if status_is_success(response.status) {
        Ok(())
    } else {
        Err(failure_of(response.status, response.body.as_slice()))
    }
}

/// What decoding the body of a successful response came to: the value, or
/// a `DataType` error that keeps the decoder's error and names the type.
pub fn decoded_or_error<T, E>(
    decoded: Result<T, serde_json::Error>,
    typename: &'static str,
) -> (r: Result<T, ApiError<E>>)
    ensures
        match decoded {
            Ok(value) => r matches Ok(v) && v == value,
            Err(error) => r matches Err(e) && e.is_data_type_error(error, typename@),
        },
{
    match decoded {
        Ok(value) => Ok(value),
        Err(source) => Err(ApiError::data_type(source, typename)),
    }
}

/// Decodes a response with the decoder handed in: a failure status gives
/// the error it stands for, and the decoder is not asked; with a success
/// status the decoder is asked once, for the whole body, and the outcome is
/// its value, or a `DataType` error that keeps its error and names the
/// type.
pub fn decode_with<T, E, D>(response: &Response, decode: D, typename: &'static str) -> (r: Result<
    T,
    ApiError<E>,
>) where D: FnOnce(&[u8]) -> Result<T, serde_json::Error>
    requires
        forall|body: &[u8]| call_requires(decode, (body,)),
    ensures
        !is_success(response.status) ==> (r matches Err(e) && e.answers(
            response.status,
            response.body@,
        )),
        is_success(response.status) ==> exists|body: &[u8], decoded: Result<T, serde_json::Error>|
            body@ == response.body@ && call_ensures(decode, (body,), decoded) && match decoded {
                Ok(value) => r matches Ok(v) && v == value,
                Err(error) => r matches Err(e) && e.is_data_type_error(error, typename@),
            },
{
    match check_response::<E>(response) {
        Err(e) => Err(e),
        Ok(_) => {
            let decoded = decode(response.body.as_slice());
            decoded_or_error(decoded, typename)
        },
    }
}

/// Decodes a response as `T`: [`decode_with`], the decoder and the label
/// being `T`'s own.
pub fn decode_response<T: FromBody, E>(response: &Response) -> (r: Result<T, ApiError<E>>)
    ensures
        is_decoded(*response, r),
{
    let label = T::type_label();
    decode_with(
        response,
        |body: &[u8]| -> (decoded: Result<T, serde_json::Error>)
            ensures
                call_ensures(T::from_body, (body,), decoded)
            { T::from_body(body) },
        label,
    )
}

/// One exchange for an endpoint, with the client's part handed in as two
/// functions: `resolve` turns the endpoint's path into a URL, `exchange`
/// sends a request with a body and hands back the response. The outcome is
/// the first error on the way, or what `conclude` makes of the response:
/// the path is resolved once; where that fails, or the URL has no room for
/// the parameters, nothing is sent; the request for the endpoint goes out
/// once, with an empty body.
pub fn dispatch<N, T, E, R, X, F>(endpoint: &N, resolve: R, exchange: X, conclude: F) -> (r: Result<
    T,
    ApiError<E>,
>) where
    N: Endpoint,
    R: FnOnce(&str) -> Result<url::Url, ApiError<E>>,
    X: FnOnce(Request, Vec<u8>) -> Result<Response, ApiError<E>>,
    F: FnOnce(&Response) -> Result<T, ApiError<E>>,

    requires
        forall|path: &str| call_requires(resolve, (path,)),
        forall|request: Request, body: Vec<u8>| call_requires(exchange, (request, body)),
        forall|response: &Response| call_requires(conclude, (response,)),
    ensures
        exists|path: &str, resolved: Result<url::Url, ApiError<E>>|
            path@ == endpoint.spec_endpoint() && call_ensures(resolve, (path,), resolved)
                && match resolved {
                Err(e) => r == Err::<T, ApiError<E>>(e),
                Ok(url) => if has_room_for(endpoint, url) {
                    exists|
                        request: Request,
                        body: Vec<u8>,
                        exchanged: Result<Response, ApiError<E>>,
                    |
                        is_request_for(endpoint, url, request) && body@.len() == 0
                            && call_ensures(exchange, (request, body), exchanged)
                            && match exchanged {
                            Err(e) => r == Err::<T, ApiError<E>>(e),
                            Ok(response) => call_ensures(conclude, (&response,), r),
                        }
                } else {
                    r matches Err(e) && e is UrlParse
                },
            },
{
    let path = endpoint.endpoint();
    let resolved = resolve(path.as_str());
    match resolved {
        Err(e) => Err(e),
        Ok(url) => match request_or_error(endpoint, url) {
            Err(e) => Err(e),
            Ok(request) => {
                let body: Vec<u8> = Vec::new();
                let exchanged = exchange(request, body);
                match exchanged {
                    Err(e) => Err(e),
                    Ok(response) => conclude(&response),
                }
            },
        },
    }
}

impl<E: Endpoint, T: FromBody, C: Client> Query<T, C> for E {
    /// One exchange of the client for the endpoint, the response decoded as
    /// `T`.
    fn query(&self, client: &C) -> (r: Result<T, ApiError<C::Error>>)
        ensures
            is_exchange_outcome(
                self,
                client,
                r,
                |response: Response, r: Result<T, ApiError<C::Error>>| is_decoded(response, r),
            ),
    {
        dispatch(
            self,
            |path: &str| -> (resolved: Result<url::Url, ApiError<C::Error>>)
                ensures
                    call_ensures(C::rest_endpoint, (client, path), resolved)
                { client.rest_endpoint(path) },
            |request: Request, body: Vec<u8>| -> (exchanged: Result<
                Response,
                ApiError<C::Error>,
            >)
                ensures
                    call_ensures(C::rest, (client, request, body), exchanged)
                { client.rest(request, body) },
            |response: &Response| -> (concluded: Result<T, ApiError<C::Error>>)
                ensures
                    is_decoded(*response, concluded)
                { decode_response::<T, C::Error>(response) },
        )
    }
}

} // verus!
