//! Pinboard API V2 endpoint structures

pub mod general;
