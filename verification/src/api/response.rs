//! Successful answers of the API.
use vstd::prelude::*;

verus! {

/// A successful answer of the API.
pub enum Response {
    /// A JSON document, as text.
    JsonString(String),
}

impl Response {
    /// The HTTP status, content type and body of the answer.
    pub fn into_response_parts(self) -> (res: (u16, String, String))
        ensures
            res.0 == 200,
            res.1@ == "application/json"@,
            match self {
                Response::JsonString(json) => res.2 == json,
            },
    {
        match self {
            Response::JsonString(json) => (200, String::from_str("application/json"), json),
        }
    }
}

} // verus!
