//! API endpoint structures.
//!
//! The types provided in this module are intended to easily create
//! endpoint calls. Each endpoint employs a builder pattern to allow
//! easy construction of a call.

pub mod client;
pub mod endpoint;
pub mod endpoint_prelude;
pub mod error;
pub mod ignore;
pub mod params;
pub mod query;
pub mod types;
pub mod v1;
pub mod v2;

pub use self::client::Client;
pub use self::client::Request;
pub use self::client::Response;
pub use self::client::RestClient;

pub use self::endpoint::Endpoint;
pub use self::endpoint::FromBody;

pub use self::query::Query;

pub use self::params::ParamValue;
pub use self::params::QueryParams;

pub use self::error::ApiError;
pub use self::error::BodyError;
pub use self::error::BuildError;

pub use self::ignore::ignore;
pub use self::ignore::Ignore;

pub use self::types::Date;
pub use self::types::Method;
pub use self::types::Timestamp;
pub use self::types::YesNo;
