//! Queries: an endpoint put to a client.

use vstd::prelude::*;
use crate::api::client::Client;
use crate::api::error::ApiError;

verus! {

/// A trait which represents a query for a `Client`.
pub trait Query<T, C: Client> {
    /// Perform the query against the client.
    fn query(&self, client: &C) -> Result<T, ApiError<C::Error>>;
}

} // verus!
