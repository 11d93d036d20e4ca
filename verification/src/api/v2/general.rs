//! General endpoints
//!
//! These endpoints are used for general site interactions.

mod auth;
mod awesome;
mod hello;
mod last_update;

pub use self::auth::Auth;
pub use self::auth::AuthBuilder;
pub use self::awesome::Awesome;
pub use self::awesome::AwesomeBuilder;
pub use self::hello::Hello;
pub use self::hello::HelloBuilder;
pub use self::last_update::LastUpdate;
pub use self::last_update::LastUpdateBuilder;
