//! The body a source sends with its requests.
use vstd::prelude::*;
use serde_json::Value as JsonValue;
use crate::config::error::{Error, Failure};
use crate::config::yaml_parser::{
    lemma_pairs_at_keeps_keys, mapping_entries, not_str, not_string, pairs_map, pairs_view, spec_get_req, spec_pairs_at, spec_str, spec_str_option, spec_string_req,
    YamlParser,
};
use crate::json::{json_accepts, parse_json, parsed_json};
use crate::yaml::{opt_node, YamlValue};

verus! {

/// The body a source sends with its requests.
pub enum Body {
    NoBody,
    Text(String),
    Json(JsonValue),
    /// URL-encoded form fields, as `(name, value)` pairs naming each name
    /// once when read from a configuration (`put_pair`); see `pairs_map`.
    Form(Vec<(String, String)>),
    /// Multipart form fields, held as `Form`'s are.
    Multi(Vec<(String, String)>),
}

/// The variants of `Body`, without their data.
#[derive(PartialEq, Eq, Structural)]
pub enum BodyKind {
    NoBody,
    Text,
    Json,
    Form,
    Multi,
}

/// What a `Body` holds, as plain values (a JSON document as it is).
pub enum BodyView {
    NoBody,
    Text(Seq<char>),
    Json(JsonValue),
    Form(Seq<(Seq<char>, Seq<char>)>),
    Multi(Seq<(Seq<char>, Seq<char>)>),
}

impl View for Body {
    type V = BodyView;

    open spec fn view(&self) -> BodyView {
        match self {
            Body::NoBody => BodyView::NoBody,
            Body::Text(t) => BodyView::Text(t@),
            Body::Json(j) => BodyView::Json(*j),
            Body::Form(f) => BodyView::Form(pairs_view(f@)),
            Body::Multi(m) => BodyView::Multi(pairs_view(m@)),
        }
    }
}

/// The name under which each variant is stored.
pub open spec fn body_tag(kind: BodyKind) -> Seq<char> {
    match kind {
        BodyKind::NoBody => "none"@,
        BodyKind::Text => "text"@,
        BodyKind::Json => "json"@,
        BodyKind::Form => "form"@,
        BodyKind::Multi => "multi"@,
    }
}

/// The variant stored under the name `tag`; any unknown name reads as `NoBody`.
pub open spec fn body_kind_of_tag(tag: Seq<char>) -> BodyKind {
    if tag == "text"@ {
        BodyKind::Text
    } else if tag == "json"@ {
        BodyKind::Json
    } else if tag == "form"@ {
        BodyKind::Form
    } else if tag == "multi"@ {
        BodyKind::Multi
    } else {
        BodyKind::NoBody
    }
}

/// The message of an unknown body type in the configuration.
pub open spec fn invalid_body_type(t: Seq<char>) -> Seq<char> {
    "Souce body type `"@ + t + "` invalid."@
}

/// The body described by an optional configuration node.
pub open spec fn spec_body_config(value: Option<YamlValue>) -> Result<BodyView, Failure> {
    match value {
        None => Ok(BodyView::NoBody),
        Some(node) => match spec_str_option(node.spec_get("type"@), not_str()) {
            Err(f) => Err(f),
            Ok(None) => Ok(BodyView::NoBody),
            Ok(Some(t)) => if t == "text"@ {
                match spec_string_req(node, "text"@) {
                    Err(f) => Err(f),
                    Ok(s) => Ok(BodyView::Text(s)),
                }
            } else if t == "json"@ {
                match spec_get_req(node, "json"@) {
                    Err(f) => Err(f),
                    Ok(j) => match spec_str(j, not_str()) {
                        Err(f) => Err(f),
                        Ok(s) => if json_accepts(s) { Ok(BodyView::Json(parsed_json(s))) } else { Err(Failure::Json) },
                    },
                }
            } else if t == "form"@ {
                match spec_pairs_at(node, "form"@) {
                    Err(f) => Err(f),
                    Ok(p) => Ok(BodyView::Form(p)),
                }
            } else if t == "multi"@ {
                match spec_pairs_at(node, "form"@) {
                    Err(f) => Err(f),
                    Ok(p) => Ok(BodyView::Multi(p)),
                }
            } else if t == "none"@ {
                Ok(BodyView::NoBody)
            } else {
                Err(Failure::Text(invalid_body_type(t)))
            },
        },
    }
}

/// The configured type of a body node: the string under `type`.
pub open spec fn configured_type(node: YamlValue) -> Option<Seq<char>> {
    match node.spec_get("type"@) {
        Some(v) => match v.spec_untag() {
            YamlValue::String(t) => Some(t@),
            _ => None,
        },
        None => None,
    }
}

/// The string under `key` in `node`, untagged, if it is one.
pub open spec fn configured_string(node: YamlValue, key: Seq<char>) -> Option<Seq<char>> {
    match node.spec_get(key) {
        Some(v) => match v.spec_untag() {
            YamlValue::String(t) => Some(t@),
            _ => None,
        },
        None => None,
    }
}

/// A body read from configuration carries what its node configures: a text
/// body is of type `text` and is the string under `text` exactly as written
/// (newlines and spaces kept); a JSON body is of type `json` and is the
/// document parsed from the string under `json`; a form or multipart body
/// is of its type, with the pairs of the mapping under `form`, each
/// configured field name among them (`i` indexes that mapping's entries).
pub proof fn lemma_body_is_configured(node: YamlValue, i: int)
    ensures
        spec_body_config(Some(node)) matches Ok(BodyView::Text(t)) ==> configured_type(node) == Some("text"@)
            && configured_string(node, "text"@) == Some(t),
        spec_body_config(Some(node)) matches Ok(BodyView::Json(j)) ==> configured_type(node) == Some("json"@)
            && (configured_string(node, "json"@) matches Some(s) && json_accepts(s) && j == parsed_json(s)),
        spec_body_config(Some(node)) matches Ok(BodyView::Form(p)) ==> configured_type(node) == Some("form"@)
            && spec_pairs_at(node, "form"@) == Ok::<Seq<(Seq<char>, Seq<char>)>, Failure>(p),
        spec_body_config(Some(node)) matches Ok(BodyView::Multi(p)) ==> configured_type(node) == Some("multi"@)
            && spec_pairs_at(node, "form"@) == Ok::<Seq<(Seq<char>, Seq<char>)>, Failure>(p),
        spec_body_config(Some(node)) matches Ok(BodyView::Form(p)) ==> 0 <= i < mapping_entries(node.spec_get("form"@)).len() ==> (
            spec_str(mapping_entries(node.spec_get("form"@))[i].key, not_string()) matches Ok(k)
                && pairs_map(p).contains_key(k)),
        spec_body_config(Some(node)) matches Ok(BodyView::Multi(p)) ==> 0 <= i < mapping_entries(node.spec_get("form"@)).len() ==> (
            spec_str(mapping_entries(node.spec_get("form"@))[i].key, not_string()) matches Ok(k)
                && pairs_map(p).contains_key(k)),
        spec_body_config(None) == Ok::<BodyView, Failure>(BodyView::NoBody),
{
    lemma_pairs_at_keeps_keys(node, "form"@, i);
}

impl Body {
    /// The variant of `self`.
    pub open spec fn spec_kind(&self) -> BodyKind {
        match self {
            Body::NoBody => BodyKind::NoBody,
            Body::Text(_) => BodyKind::Text,
            Body::Json(_) => BodyKind::Json,
            Body::Form(_) => BodyKind::Form,
            Body::Multi(_) => BodyKind::Multi,
        }
    }

    /// The text of a text body.
    pub fn text(&self) -> (res: Option<String>)
        ensures
            match self {
                Body::Text(t) => res == Some(*t),
                _ => res is None,
            },
    {
        if let Body::Text(text) = self {
            return Some(text.clone());
        }
        None
    }

    /// The document of a JSON body.
    pub fn json(&self) -> (res: Option<JsonValue>)
        ensures
            match self {
                Body::Json(j) => res == Some(*j),
                _ => res is None,
            },
    {
        if let Body::Json(json) = self {
            return Some(json.clone());
        }
        None
    }

    /// The fields of a form body.
    pub fn form(&self) -> (res: Option<Vec<(String, String)>>)
        ensures
            match self {
                Body::Form(f) => res matches Some(r) && pairs_view(r@) == pairs_view(f@),
                _ => res is None,
            },
    {
        if let Body::Form(form) = self {
            return Some(copy_pairs(form));
        }
        None
    }

    /// The fields of a multipart body.
    pub fn multi(&self) -> (res: Option<Vec<(String, String)>>)
        ensures
            match self {
                Body::Multi(m) => res matches Some(r) && pairs_view(r@) == pairs_view(m@),
                _ => res is None,
            },
    {
        if let Body::Multi(multi) = self {
            return Some(copy_pairs(multi));
        }
        None
    }

    /// The name under which the variant is stored.
    pub fn to_string(&self) -> (res: String)
        ensures
            res@ == body_tag(self.spec_kind()),
    {
        String::from_str(match self {
            Body::NoBody => "none",
            Body::Text(_) => "text",
            Body::Json(_) => "json",
            Body::Form(_) => "form",
            Body::Multi(_) => "multi",
        })
    }

    /// The variant stored under the name `tag` (any other name reads as `NoBody`).
    pub fn kind_from_tag(tag: &str) -> (res: BodyKind)
        ensures
            res == body_kind_of_tag(tag@),
    {
        if crate::text::str_eq(tag, "text") {
            BodyKind::Text
        } else if crate::text::str_eq(tag, "json") {
            BodyKind::Json
        } else if crate::text::str_eq(tag, "form") {
            BodyKind::Form
        } else if crate::text::str_eq(tag, "multi") {
            BodyKind::Multi
        } else {
            BodyKind::NoBody
        }
    }

    /// The body of a source, from the optional `body` node of its
    /// configuration: `type` is one of `none` (or absent), `text` (with
    /// `text`), `json` (with `json`, a JSON document), `form` and `multi`
    /// (both with their fields under `form`).
    pub fn try_from(value: Option<&YamlValue>) -> (res: Result<Body, Error>)
        ensures
            match res {
                Ok(b) => spec_body_config(opt_node(value)) == Ok::<BodyView, Failure>(b@),
                Err(e) => spec_body_config(opt_node(value)) matches Err(f) && e.shows(f),
            },
            res matches Ok(Body::Text(t)) ==> (value matches Some(n) && configured_type(*n) == Some("text"@)
                && configured_string(*n, "text"@) == Some(t@)),
            res matches Ok(Body::Json(j)) ==> (value matches Some(n) && configured_type(*n) == Some("json"@)
                && (configured_string(*n, "json"@) matches Some(s) && j == parsed_json(s))),
            value is None ==> res matches Ok(Body::NoBody),
    {
        proof {
            if let Some(n) = value {
                lemma_body_is_configured(*n, 0);
            }
        }
        let body = match value {
            None => return Ok(Body::NoBody),
            Some(body) => body,
        };
        let t = match YamlParser::to_str_option(body.get("type")) {
            Err(e) => return Err(e),
            Ok(None) => return Ok(Body::NoBody),
            Ok(Some(t)) => t,
        };
        if crate::text::str_eq(t, "text") {
            match YamlParser::to_string_req(body, "text") {
                Ok(s) => Ok(Body::Text(s)),
                Err(e) => Err(e),
            }
        } else if crate::text::str_eq(t, "json") {
            let node = match YamlParser::get_req(body, "json") {
                Ok(n) => n,
                Err(e) => return Err(e),
            };
            let s = match YamlParser::to_str(node) {
                Ok(s) => s,
                Err(e) => return Err(e),
            };
            match parse_json(s) {
                Ok(j) => Ok(Body::Json(j)),
                Err(e) => Err(Error::Json(e)),
            }
        } else if crate::text::str_eq(t, "form") {
            match YamlParser::pairs_at(body, "form") {
                Ok(p) => Ok(Body::Form(p)),
                Err(e) => Err(e),
            }
        } else if crate::text::str_eq(t, "multi") {
            match YamlParser::pairs_at(body, "form") {
                Ok(p) => Ok(Body::Multi(p)),
                Err(e) => Err(e),
            }
        } else if crate::text::str_eq(t, "none") {
            Ok(Body::NoBody)
        } else {
            let mut m = String::from_str("Souce body type `");
            m.append(t);
            m.append("` invalid.");
            Err(Error::String(m))
        }
    }
}

/// A copy of string pairs.
pub fn copy_pairs(pairs: &Vec<(String, String)>) -> (res: Vec<(String, String)>)
    ensures
        pairs_view(res@) == pairs_view(pairs@),
{
    let n = pairs.len();
    let mut out: Vec<(String, String)> = Vec::new();
    let mut i: usize = 0;
    while i < n
        invariant
            n == pairs@.len(),
            0 <= i <= n,
            pairs_view(out@) =~= pairs_view(pairs@.take(i as int)),
        decreases n - i,
    {
        let ghost before = out@;
        let (k, v) = (pairs[i].0.clone(), pairs[i].1.clone());
        out.push((k, v));
        proof {
            assert(pairs@.take(i + 1) =~= pairs@.take(i as int).push(pairs@[i as int]));
            assert(pairs_view(out@) =~= pairs_view(before).push((k@, v@)));
        }
        i = i + 1;
    }
    proof {
        assert(pairs@.take(n as int) =~= pairs@);
    }
    out
}

/// Reading back the stored name of a body gives its variant.
pub proof fn lemma_body_tag_round_trip(kind: BodyKind)
    ensures
        body_kind_of_tag(body_tag(kind)) == kind,
{
    reveal_strlit("none");
    reveal_strlit("text");
    reveal_strlit("json");
    reveal_strlit("form");
    reveal_strlit("multi");
    assert("none"@[0] != "text"@[0] && "none"@[0] != "json"@[0] && "none"@[0] != "form"@[0]);
    assert("text"@[0] != "json"@[0] && "text"@[0] != "form"@[0] && "json"@[0] != "form"@[0]);
    assert("multi"@.len() == 5 && "text"@.len() == 4 && "json"@.len() == 4 && "form"@.len() == 4 && "none"@.len() == 4);
}

} // verus!
