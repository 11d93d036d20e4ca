//! Builders for user endpoints.

mod api_token;
mod secret;

pub use self::api_token::ApiToken;
pub use self::api_token::ApiTokenBuilder;
pub use self::secret::Secret;
pub use self::secret::SecretBuilder;
