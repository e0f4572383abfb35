//! Small utilities.
pub mod hasher;

pub use self::hasher::Hasher;
