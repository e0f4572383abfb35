//! An upstream source whose response a destination aggregates.
use vstd::prelude::*;
use crate::config::error::{Error, Failure};
use crate::config::yaml_parser::{
    lemma_pairs_at_keeps_keys, mapping_entries, not_string, pairs_map, pairs_view, spec_duration, spec_pairs_at,
    spec_str, spec_string_req, YamlParser,
};
use crate::data::types::auth::{spec_auth_config, AuthView};
use crate::data::types::body::{copy_pairs, spec_body_config, BodyView};
use crate::data::types::{Auth, Body};
use crate::time::Duration;
use crate::yaml::YamlValue;

verus! {

/// An upstream source whose response a destination aggregates.
pub struct Source {
    pub id: Option<i32>,
    pub code: String,
    pub url: String,
    /// Query parameters, as `(name, value)` pairs naming each name once when
    /// read from a configuration (`put_pair`); they stand for `pairs_map`.
    pub params: Vec<(String, String)>,
    /// Request headers, as `(name, value)` pairs, held as `params` is.
    pub headers: Vec<(String, String)>,
    pub auth: Auth,
    pub timeout: Option<Duration>,
    pub body: Body,
}

/// What a source holds, as plain values.
pub struct SourceView {
    pub id: Option<i32>,
    pub code: Seq<char>,
    pub url: Seq<char>,
    pub params: Seq<(Seq<char>, Seq<char>)>,
    pub headers: Seq<(Seq<char>, Seq<char>)>,
    pub auth: AuthView,
    pub timeout: Option<Duration>,
    pub body: BodyView,
}

impl View for Source {
    type V = SourceView;

    open spec fn view(&self) -> SourceView {
        SourceView {
            id: self.id,
            code: self.code@,
            url: self.url@,
            params: pairs_view(self.params@),
            headers: pairs_view(self.headers@),
            auth: self.auth@,
            timeout: self.timeout,
            body: self.body@,
        }
    }
}

/// The new source (without an id) that the configuration entry `code: data`
/// describes, or the first failure in the order code, url, params, headers,
/// timeout, auth, body.
pub open spec fn spec_source_config(code: YamlValue, data: YamlValue) -> Result<SourceView, Failure> {
    match spec_str(code, not_string()) {
        Err(f) => Err(f),
        Ok(c) => match spec_string_req(data, "url"@) {
            Err(f) => Err(f),
            Ok(u) => match spec_pairs_at(data, "params"@) {
                Err(f) => Err(f),
                Ok(p) => match spec_pairs_at(data, "headers"@) {
                    Err(f) => Err(f),
                    Ok(h) => match spec_duration(data.spec_get("timeout"@)) {
                        Err(f) => Err(f),
                        Ok(t) => match spec_auth_config(data.spec_get("auth"@)) {
                            Err(f) => Err(f),
                            Ok(a) => match spec_body_config(data.spec_get("body"@)) {
                                Err(f) => Err(f),
                                Ok(b) => Ok(SourceView {
                                    id: None,
                                    code: c,
                                    url: u,
                                    params: p,
                                    headers: h,
                                    auth: a,
                                    timeout: t,
                                    body: b,
                                }),
                            },
                        },
                    },
                },
            },
        },
    }
}

/// A source read from its configuration entry holds what the entry
/// configures, field by field: the code's text, the string under `url`, the
/// pairs of the mappings under `params` and `headers`, and what `timeout`,
/// `auth` and `body` describe; it has no id yet.
pub proof fn lemma_source_fields_are_configured(code: YamlValue, data: YamlValue)
    ensures
        spec_source_config(code, data) matches Ok(s) ==> {
            &&& s.id is None
            &&& spec_str(code, not_string()) == Ok::<Seq<char>, Failure>(s.code)
            &&& spec_string_req(data, "url"@) == Ok::<Seq<char>, Failure>(s.url)
            &&& spec_pairs_at(data, "params"@) == Ok::<Seq<(Seq<char>, Seq<char>)>, Failure>(s.params)
            &&& spec_pairs_at(data, "headers"@) == Ok::<Seq<(Seq<char>, Seq<char>)>, Failure>(s.headers)
            &&& spec_duration(data.spec_get("timeout"@)) == Ok::<Option<Duration>, Failure>(s.timeout)
            &&& spec_auth_config(data.spec_get("auth"@)) == Ok::<AuthView, Failure>(s.auth)
            &&& spec_body_config(data.spec_get("body"@)) == Ok::<BodyView, Failure>(s.body)
        },
{
}

/// Every header and every parameter named in a source's configuration is a
/// name of the source's headers or parameters: `i` indexes the entries of
/// the `headers` mapping, `j` those of the `params` mapping.
pub proof fn lemma_source_keeps_configured_names(code: YamlValue, data: YamlValue, i: int, j: int)
    ensures
        spec_source_config(code, data) matches Ok(s) ==> 0 <= i < mapping_entries(data.spec_get("headers"@)).len() ==> (
            spec_str(mapping_entries(data.spec_get("headers"@))[i].key, not_string()) matches Ok(k)
                && pairs_map(s.headers).contains_key(k)),
        spec_source_config(code, data) matches Ok(s) ==> 0 <= j < mapping_entries(data.spec_get("params"@)).len() ==> (
            spec_str(mapping_entries(data.spec_get("params"@))[j].key, not_string()) matches Ok(k)
                && pairs_map(s.params).contains_key(k)),
{
    lemma_pairs_at_keeps_keys(data, "headers"@, i);
    lemma_pairs_at_keeps_keys(data, "params"@, j);
}

/// The query of the request to a source: its parameters, followed by the
/// authentication parameter when the source authenticates by one.
pub open spec fn spec_request_query(src: SourceView) -> Seq<(Seq<char>, Seq<char>)> {
    match src.auth {
        AuthView::Param(k, v) => src.params.push((k, v)),
        _ => src.params,
    }
}

impl Source {
    /// The query of the request to this source: its parameters, followed by
    /// the authentication parameter when it authenticates by one.
    pub fn request_query(&self) -> (res: Vec<(String, String)>)
        ensures
            pairs_view(res@) == spec_request_query(self@),
    {
        let mut q = copy_pairs(&self.params);
        match &self.auth {
            Auth::Param(k, v) => {
                let ghost before = q@;
                q.push((k.clone(), v.clone()));
                proof {
                    assert(pairs_view(q@) =~= pairs_view(before).push((k@, v@)));
                }
            },
            _ => {},
        }
        q
    }

    /// The new source (without an id) that the configuration entry
    /// `code: data` of the `sources` section describes.
    pub fn from_config(code: &YamlValue, data: &YamlValue) -> (res: Result<Source, Error>)
        ensures
            match res {
                Ok(s) => spec_source_config(*code, *data) == Ok::<SourceView, Failure>(s@),
                Err(e) => spec_source_config(*code, *data) matches Err(f) && e.shows(f),
            },
            res matches Ok(s) ==> spec_string_req(*data, "url"@) == Ok::<Seq<char>, Failure>(s.url@),
            res matches Ok(s) ==> spec_pairs_at(*data, "params"@) == Ok::<Seq<(Seq<char>, Seq<char>)>, Failure>(
                pairs_view(s.params@),
            ),
            res matches Ok(s) ==> spec_pairs_at(*data, "headers"@) == Ok::<Seq<(Seq<char>, Seq<char>)>, Failure>(
                pairs_view(s.headers@),
            ),
    {
        proof {
            lemma_source_fields_are_configured(*code, *data);
        }
        let code = match YamlParser::to_string(code) {
            Ok(c) => c,
            Err(e) => return Err(e),
        };
        let url = match YamlParser::to_string_req(data, "url") {
            Ok(u) => u,
            Err(e) => return Err(e),
        };
        let params = match YamlParser::pairs_at(data, "params") {
            Ok(p) => p,
            Err(e) => return Err(e),
        };
        let headers = match YamlParser::pairs_at(data, "headers") {
            Ok(h) => h,
            Err(e) => return Err(e),
        };
        let timeout = match YamlParser::to_duration(data.get("timeout")) {
            Ok(t) => t,
            Err(e) => return Err(e),
        };
        let auth = match Auth::try_from(data.get("auth")) {
            Ok(a) => a,
            Err(e) => return Err(e),
        };
        let body = match Body::try_from(data.get("body")) {
            Ok(b) => b,
            Err(e) => return Err(e),
        };
        Ok(Source { id: None, code, url, params, headers, auth, timeout, body })
    }
}

} // verus!
