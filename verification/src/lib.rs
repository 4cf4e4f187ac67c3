//! Bearer-token authentication and authorization.
//!
//! Given an inbound request's `authorization` header and frozen key
//! material, this library decides whether the token is valid, which
//! identity and permission set it asserts, and whether that identity may
//! perform admin-gated actions.

mod guards;
mod keys;
mod model;
mod permissions;
mod token;

pub use guards::GuardError;
pub use guards::MeUser;
pub use guards::access_token_from_header;
pub use guards::admin_user_from_header;
pub use guards::authorized_user_from_header;
pub use guards::bearer_token;
pub use guards::get_me;

pub use keys::ConfigurationError;
pub use keys::Decoder;
pub use keys::KeyMaterial;
pub use keys::default_audience;
pub use keys::effective_audience;
pub use keys::jwk_entries;
pub use model::AdminUser;
pub use model::AuthorizedUser;
pub use model::Environment;
pub use model::Forbidden;
pub use model::GrantAccessError;
pub use model::User;
pub use model::UserDoesNotExist;
pub use model::UserInfo;
pub use permissions::InsufficientScope;
pub use permissions::Permission;
pub use permissions::scope_message_text;
pub use token::AccessToken;
pub use token::DecodeError;
