//! API entities
//!
//! These entities are exposed by Pinboard via its API. They are plain
//! records; reading them from a response body is left to the caller.

use vstd::prelude::*;
use crate::api::types::Timestamp;

pub mod v1;

verus! {

/// When the account last changed.
#[derive(Debug, Clone, Copy, PartialEq, Eq)]
pub struct Update {
    /// When the last update occured
    pub update_time: Timestamp,
}

} // verus!
