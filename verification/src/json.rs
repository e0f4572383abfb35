//! JSON values, carried through the library as the JSON crate makes them.
use vstd::prelude::*;
use serde_json::Error as JsonError;
use serde_json::Value as JsonValue;

verus! {

/// `serde_json::Value`, carried as it is: the library never looks inside.
#[verifier::external_type_specification]
#[verifier::external_body]
pub struct ExJsonValue(JsonValue);

/// `serde_json::Value::clone` (derived): the copy is the same value.
pub assume_specification[ <JsonValue as Clone>::clone ](value: &JsonValue) -> (res: JsonValue)
    ensures
        res == *value,
;

/// Whether `serde_json::Value::from_str` accepts `text` as a JSON document.
pub uninterp spec fn json_accepts(text: Seq<char>) -> bool;

/// The document that `serde_json::Value::from_str` makes of `text`, where it
/// accepts the text.
pub uninterp spec fn parsed_json(text: Seq<char>) -> JsonValue;

/// `serde_json::Value::from_str`: parses one JSON document. Success is a
/// function of the text, named `json_accepts`, and so is the document,
/// named `parsed_json`; neither is described further.
#[verifier::external_body]
pub(crate) fn parse_json(text: &str) -> (res: Result<JsonValue, JsonError>)
    ensures
        res is Ok <==> json_accepts(text@),
        res matches Ok(j) ==> j == parsed_json(text@),
{
    <JsonValue as std::str::FromStr>::from_str(text)
}

} // verus!
