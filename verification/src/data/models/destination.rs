//! An endpoint of the API: a path whose response aggregates its sources.
use vstd::prelude::*;
use crate::config::error::{Error, Failure};
use crate::config::yaml_parser::{
    lemma_pairs_at_keeps_keys, mapping_entries, not_string, opt_view, pairs_map, pairs_view, spec_bool_option, spec_multiline, spec_pairs_at, spec_str,
    spec_string_req, YamlParser,
};
use crate::yaml::YamlValue;

verus! {

/// An endpoint of the API: a path whose response aggregates its sources.
pub struct Destination {
    pub id: Option<i32>,
    pub code: String,
    pub path: String,
    /// Response headers, as `(name, value)` pairs naming each name once when
    /// read from a configuration (`put_pair`); they stand for `pairs_map`.
    pub headers: Vec<(String, String)>,
    /// A jq program applied to the aggregated response.
    pub filter: Option<String>,
    /// Whether requests must carry a bearer token granted for this destination.
    pub is_auth: bool,
}

/// What a destination holds, as plain values.
pub struct DestinationView {
    pub id: Option<i32>,
    pub code: Seq<char>,
    pub path: Seq<char>,
    pub headers: Seq<(Seq<char>, Seq<char>)>,
    pub filter: Option<Seq<char>>,
    pub is_auth: bool,
}

impl View for Destination {
    type V = DestinationView;

    open spec fn view(&self) -> DestinationView {
        DestinationView {
            id: self.id,
            code: self.code@,
            path: self.path@,
            headers: pairs_view(self.headers@),
            filter: opt_view(self.filter),
            is_auth: self.is_auth,
        }
    }
}

/// The new destination (without an id) that the configuration entry
/// `code: data` describes, or the first failure in the order code, path,
/// headers, is_auth, filter.
pub open spec fn spec_destination_config(code: YamlValue, data: YamlValue) -> Result<DestinationView, Failure> {
    match spec_str(code, not_string()) {
        Err(f) => Err(f),
        Ok(c) => match spec_string_req(data, "path"@) {
            Err(f) => Err(f),
            Ok(p) => match spec_pairs_at(data, "headers"@) {
                Err(f) => Err(f),
                Ok(h) => match spec_bool_option(data.spec_get("is_auth"@)) {
                    Err(f) => Err(f),
                    Ok(a) => match spec_multiline(data.spec_get("filter"@)) {
                        Err(f) => Err(f),
                        Ok(fl) => Ok(DestinationView {
                            id: None,
                            code: c,
                            path: p,
                            headers: h,
                            filter: fl,
                            is_auth: a == Some(true),
                        }),
                    },
                },
            },
        },
    }
}

/// A destination read from its configuration entry is protected exactly
/// when its `is_auth` field is the boolean `true`: absent or `false`, it is
/// open. Its path is the string under `path`, its headers the pairs of the
/// mapping under `headers`, each configured header name among them.
pub proof fn lemma_destination_fields_are_configured(code: YamlValue, data: YamlValue, i: int)
    ensures
        spec_destination_config(code, data) matches Ok(d) ==> {
            &&& d.id is None
            &&& (d.is_auth <==> (data.spec_get("is_auth"@) matches Some(v) && v.spec_untag() == YamlValue::Bool(true)))
            &&& spec_str(code, not_string()) == Ok::<Seq<char>, Failure>(d.code)
            &&& spec_string_req(data, "path"@) == Ok::<Seq<char>, Failure>(d.path)
            &&& spec_pairs_at(data, "headers"@) == Ok::<Seq<(Seq<char>, Seq<char>)>, Failure>(d.headers)
            &&& spec_multiline(data.spec_get("filter"@)) == Ok::<Option<Seq<char>>, Failure>(d.filter)
        },
        spec_destination_config(code, data) matches Ok(d) ==> 0 <= i < mapping_entries(data.spec_get("headers"@)).len() ==> (
            spec_str(mapping_entries(data.spec_get("headers"@))[i].key, not_string()) matches Ok(k)
                && pairs_map(d.headers).contains_key(k)),
{
    lemma_pairs_at_keeps_keys(data, "headers"@, i);
}

impl Destination {
    /// The new destination (without an id) that the configuration entry
    /// `code: data` of the `destinations` section describes; `is_auth`
    /// defaults to `false`.
    pub fn from_config(code: &YamlValue, data: &YamlValue) -> (res: Result<Destination, Error>)
        ensures
            match res {
                Ok(d) => spec_destination_config(*code, *data) == Ok::<DestinationView, Failure>(d@),
                Err(e) => spec_destination_config(*code, *data) matches Err(f) && e.shows(f),
            },
            res matches Ok(d) ==> (d.is_auth <==> (data.spec_get("is_auth"@) matches Some(v) && v.spec_untag()
                == YamlValue::Bool(true))),
            res matches Ok(d) ==> spec_pairs_at(*data, "headers"@) == Ok::<Seq<(Seq<char>, Seq<char>)>, Failure>(
                pairs_view(d.headers@),
            ),
    {
        proof {
            lemma_destination_fields_are_configured(*code, *data, 0);
        }
        let code = match YamlParser::to_string(code) {
            Ok(c) => c,
            Err(e) => return Err(e),
        };
        let path = match YamlParser::to_string_req(data, "path") {
            Ok(p) => p,
            Err(e) => return Err(e),
        };
        let headers = match YamlParser::pairs_at(data, "headers") {
            Ok(h) => h,
            Err(e) => return Err(e),
        };
        let is_auth = match YamlParser::to_bool_option(data.get("is_auth")) {
            Ok(Some(b)) => b,
            Ok(None) => false,
            Err(e) => return Err(e),
        };
        let filter = match YamlParser::to_string_option_multiline(data.get("filter")) {
            Ok(f) => f,
            Err(e) => return Err(e),
        };
        Ok(Destination { id: None, code, path, headers, filter, is_auth })
    }
}

} // verus!
