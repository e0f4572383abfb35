//! Values that make up the stored records.
pub mod auth;
pub mod body;

pub use self::auth::Auth;
pub use self::body::Body;
