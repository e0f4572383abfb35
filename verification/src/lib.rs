//! Verified core of the Fusion API aggregator: configuration parsing,
//! source and destination records, authentication helpers and the
//! decisions the HTTP layer takes about requests and responses.
pub mod api;
pub mod config;
pub mod data;
pub mod json;
pub mod text;
pub mod time;
pub mod utils;
pub mod yaml;
