//! A typed client binding for the Pinboard bookmarking service.
//!
//! An endpoint is built and validated once; a query puts it to a client in
//! one exchange and classifies the answer. What the library computes is
//! verified; what it takes from other crates is stated in [`bindings`].

pub mod api;
pub mod auth;
pub mod bindings;
pub mod pinboard;
pub mod types;

pub use crate::pinboard::{Pinboard, PinboardError};
