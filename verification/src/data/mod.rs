//! Records stored in the database and the values they are made of.
pub mod error;
pub mod models;
pub mod types;

pub use self::error::Error;
