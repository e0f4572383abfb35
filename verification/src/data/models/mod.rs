//! The records stored in the database.
pub mod auth_token;
pub mod auth_type;
pub mod destination;
pub mod source;

pub use self::auth_token::AuthToken;
pub use self::auth_type::AuthType;
pub use self::destination::Destination;
pub use self::source::Source;
