//! Queries whose answer is not wanted.

use vstd::prelude::*;
use crate::api::client::{Client, Request, Response};
use crate::api::endpoint::{
    decode_response, dispatch, is_checked, is_exchange_outcome, Endpoint,
};
use crate::api::error::ApiError;
use crate::api::query::Query;

verus! {

/// A query modifier that ignores the data returned from an endpoint: the
/// exchange is the same, and a successful answer is decoded as the unit
/// type, which any body decodes as.
#[derive(Debug, Clone, Copy, PartialEq, Eq)]
pub struct Ignore<E> {
    endpoint: E,
}

impl<E> Ignore<E> {
    /// The endpoint whose answer is ignored.
    pub closed spec fn inner(self) -> E {
        self.endpoint
    }

    /// The endpoint whose answer is ignored.
    pub fn endpoint(&self) -> (endpoint: &E)
        ensures
            *endpoint == self.inner(),
    {
        &self.endpoint
    }
}

/// Ignore the resulting data from an endpoint.
pub fn ignore<E>(endpoint: E) -> (i: Ignore<E>)
    ensures
        i.inner() == endpoint,
{
    Ignore { endpoint }
}

impl<E: Endpoint, C: Client> Query<(), C> for Ignore<E> {
    /// One exchange of the client for the endpoint, the response checked
    /// and its body let go.
    fn query(&self, client: &C) -> (r: Result<(), ApiError<C::Error>>)
        ensures
            is_exchange_outcome(
                &self.inner(),
                client,
                r,
                |response: Response, r: Result<(), ApiError<C::Error>>| is_checked(response, r),
            ),
    {
        dispatch(
            &self.endpoint,
            |path: &str| -> (resolved: Result<url::Url, ApiError<C::Error>>)
                ensures
                    call_ensures(C::rest_endpoint, (client, path), resolved)
                { client.rest_endpoint(path) },
            |request: Request, body: Vec<u8>| -> (exchanged: Result<
                Response,
                ApiError<C::Error>,
            >)
                ensures
                    call_ensures(C::rest, (client, request, body), exchanged)
                { client.rest(request, body) },
            |response: &Response| -> (concluded: Result<(), ApiError<C::Error>>)
                ensures
                    is_checked(*response, concluded)
                { decode_response::<(), C::Error>(response) },
        )
    }
}

} // verus!
