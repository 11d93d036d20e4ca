//! What the dispatcher asks of a client, and what passes between them.

use vstd::prelude::*;
use crate::api::error::ApiError;
use crate::api::types::Method;

verus! {

/// A request as the dispatcher hands it to a client.
pub struct Request {
    /// The HTTP method.
    pub method: Method,
    /// The complete URL, query included.
    pub url: url::Url,
}

/// A response as a client hands it back.
pub struct Response {
    /// The status code.
    pub status: u16,
    /// The response headers.
    pub headers: http::HeaderMap<http::HeaderValue>,
    /// The body.
    pub body: Vec<u8>,
}

/// A trait representing a REST-ful client.
pub trait RestClient {
    /// The errors that may occur with this client.
    type Error;

    /// Generate the URL for the endpoint for this client.
    fn rest_endpoint(&self, endpoint: &str) -> Result<url::Url, ApiError<Self::Error>>;
}

/// A trait representing a client which can communicate with Pinboard.
pub trait Client: RestClient {
    /// Send a REST query.
    fn rest(&self, request: Request, body: Vec<u8>) -> Result<Response, ApiError<Self::Error>>;
}

} // verus!
