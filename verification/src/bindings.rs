//! Contracts for the crates this library calls but does not verify.
//!
//! Everything Verus is asked to believe about `url`, `http`, `serde_json`,
//! `serde_urlencoded`
//! and `chrono` is collected below this module, one file per crate.

pub mod dates;
pub mod forms;
pub mod headers;
pub mod json;
pub mod weburl;
