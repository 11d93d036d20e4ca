//! [Pinboard API V1](https://pinboard.in/api/) endpoint structures
//!
//! The Pinboard endpoints are organized into four main sections:
//! posts (bookmarks), tags, user, and notes.

use vstd::prelude::*;

pub mod notes;
pub mod posts;
pub mod tags;
pub mod user;

verus! {

/// The seconds the service asks to leave between two calls of most
/// endpoints.
///
/// <https://pinboard.in/api#limits>
pub const DEFAULT_SECS_BETWEEN_CALLS: usize = 3;

/// A trait to express a rate limit for API calls.
///
/// The limit is advice to the caller; nothing in this library waits.
pub trait Limit {
    /// The seconds to leave between two calls of the endpoint.
    spec fn spec_secs_between_calls() -> nat;

    /// The seconds to leave between two calls of the endpoint.
    fn secs_between_calls() -> (secs: usize)
        ensures
            secs == Self::spec_secs_between_calls(),
    ;
}

} // verus!
