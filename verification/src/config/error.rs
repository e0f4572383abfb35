//! Errors of configuration loading.
use vstd::prelude::*;
use crate::data::Error as DataError;
use dotenv::Error as EnvError;
use serde_json::Error as JsonError;
use serde_yaml::Error as YamlError;

verus! {

/// `dotenv::Error`, carried as it is.
#[verifier::external_type_specification]
#[verifier::external_body]
pub struct ExEnvError(EnvError);

/// `std::io::Error`, carried as it is.
#[verifier::external_type_specification]
#[verifier::external_body]
pub struct ExIoError(std::io::Error);

/// `serde_yaml::Error`, carried as it is.
#[verifier::external_type_specification]
#[verifier::external_body]
pub struct ExYamlError(YamlError);

/// `serde_json::Error`, carried as it is.
#[verifier::external_type_specification]
#[verifier::external_body]
pub struct ExJsonError(JsonError);

/// `chrono::ParseError`, carried as it is.
#[verifier::external_type_specification]
#[verifier::external_body]
pub struct ExChronoParseError(chrono::ParseError);

/// Errors of configuration loading.
pub enum Error {
    Env(EnvError),
    Io(std::io::Error),
    Yaml(YamlError),
    Json(JsonError),
    Database(DataError),
    Chrono(chrono::ParseError),
    Str(&'static str),
    String(String),
}

/// How a configuration step fails, as contracts state it: the message of a
/// `Str` or `String` error, or the kind of a parse error of an outside crate.
pub enum Failure {
    Str(Seq<char>),
    Text(Seq<char>),
    Json,
    Chrono,
}

impl Error {
    /// This error is the failure `f`.
    pub open spec fn shows(&self, f: Failure) -> bool {
        match f {
            Failure::Str(m) => self matches Error::Str(s) && s@ == m,
            Failure::Text(m) => self matches Error::String(s) && s@ == m,
            Failure::Json => self is Json,
            Failure::Chrono => self is Chrono,
        }
    }
}

} // verus!
