//! Reading typed values out of YAML nodes.
use vstd::prelude::*;
use serde_json::Value as JsonValue;
use crate::config::error::{Error, Failure};
use crate::json::{json_accepts, parse_json, parsed_json};
use crate::text::{single_line, strip_newlines, to_single_line, remove_newlines};
use crate::time::{parse_instant, parsed_instant, Duration, Timestamp};
use crate::yaml::{opt_node, YamlEntry, YamlNumber, YamlValue};

verus! {

/// Reads typed values out of YAML nodes, failing with a message that names
/// what was expected.
pub struct YamlParser;

/// The views of a sequence of strings.
pub open spec fn strs_view(v: Seq<String>) -> Seq<Seq<char>> {
    v.map_values(|s: String| s@)
}

/// The views of a sequence of string pairs.
pub open spec fn pairs_view(v: Seq<(String, String)>) -> Seq<(Seq<char>, Seq<char>)> {
    v.map_values(|p: (String, String)| (p.0@, p.1@))
}

/// The map that name/value pairs stand for: each name maps to the value of
/// its last pair, so a later pair replaces an earlier one of the same name.
pub open spec fn pairs_map(p: Seq<(Seq<char>, Seq<char>)>) -> Map<Seq<char>, Seq<char>>
    decreases p.len(),
{
    if p.len() == 0 {
        Map::empty()
    } else {
        pairs_map(p.drop_last()).insert(p.last().0, p.last().1)
    }
}

/// In the map that pairs stand for, a name maps to the value of its last
/// pair, and exactly the names of the pairs are mapped.
pub proof fn lemma_pairs_map(p: Seq<(Seq<char>, Seq<char>)>, i: int)
    requires
        0 <= i < p.len(),
        forall|j: int| i < j < p.len() ==> #[trigger] p[j].0 != p[i].0,
    ensures
        pairs_map(p).contains_key(p[i].0),
        pairs_map(p)[p[i].0] == p[i].1,
    decreases p.len(),
{
    if i < p.len() - 1 {
        let q = p.drop_last();
        assert forall|j: int| i < j < q.len() implies #[trigger] q[j].0 != q[i].0 by {
            assert(q[j] == p[j]);
        }
        lemma_pairs_map(q, i);
        assert(p[p.len() - 1].0 != p[i].0);
    }
}

/// A name is mapped exactly when some pair carries it.
pub proof fn lemma_pairs_map_domain(p: Seq<(Seq<char>, Seq<char>)>, k: Seq<char>)
    ensures
        pairs_map(p).contains_key(k) <==> exists|j: int| 0 <= j < p.len() && #[trigger] p[j].0 == k,
    decreases p.len(),
{
    if p.len() > 0 {
        let q = p.drop_last();
        lemma_pairs_map_domain(q, k);
        if exists|j: int| 0 <= j < q.len() && #[trigger] q[j].0 == k {
            let j = choose|j: int| 0 <= j < q.len() && #[trigger] q[j].0 == k;
            assert(p[j] == q[j]);
        }
        if exists|j: int| 0 <= j < p.len() && #[trigger] p[j].0 == k {
            let j = choose|j: int| 0 <= j < p.len() && #[trigger] p[j].0 == k;
            if j < q.len() {
                assert(q[j] == p[j]);
            }
        }
    }
}

/// No name occurs in two pairs.
pub open spec fn names_unique(p: Seq<(Seq<char>, Seq<char>)>) -> bool {
    forall|i: int, j: int| 0 <= i < j < p.len() ==> #[trigger] p[i].0 != #[trigger] p[j].0
}

/// The index of the last pair named `k`, if any.
pub open spec fn key_index(p: Seq<(Seq<char>, Seq<char>)>, k: Seq<char>) -> Option<int>
    decreases p.len(),
{
    if p.len() == 0 {
        None
    } else if p.last().0 == k {
        Some(p.len() - 1)
    } else {
        key_index(p.drop_last(), k)
    }
}

/// `p` with the pair `(k, v)` put in: it replaces the pair named `k`, in
/// its place, or else comes last.
pub open spec fn put_pair(p: Seq<(Seq<char>, Seq<char>)>, k: Seq<char>, v: Seq<char>) -> Seq<(Seq<char>, Seq<char>)> {
    match key_index(p, k) {
        Some(j) => p.update(j, (k, v)),
        None => p.push((k, v)),
    }
}

proof fn lemma_key_index(p: Seq<(Seq<char>, Seq<char>)>, k: Seq<char>)
    ensures
        match key_index(p, k) {
            Some(j) => 0 <= j < p.len() && p[j].0 == k,
            None => forall|i: int| 0 <= i < p.len() ==> #[trigger] p[i].0 != k,
        },
    decreases p.len(),
{
    if p.len() > 0 && p.last().0 != k {
        let q = p.drop_last();
        lemma_key_index(q, k);
        if key_index(q, k) is None {
            assert forall|i: int| 0 <= i < p.len() implies #[trigger] p[i].0 != k by {
                if i < q.len() {
                    assert(p[i] == q[i]);
                }
            }
        }
    }
}

/// Giving the pair at `j` a new value maps its name to that value, when
/// no name occurs twice.
proof fn lemma_pairs_map_update(p: Seq<(Seq<char>, Seq<char>)>, j: int, v: Seq<char>)
    requires
        names_unique(p),
        0 <= j < p.len(),
    ensures
        pairs_map(p.update(j, (p[j].0, v))) == pairs_map(p).insert(p[j].0, v),
    decreases p.len(),
{
    let k = p[j].0;
    let u = p.update(j, (k, v));
    if j == p.len() - 1 {
        assert(u.drop_last() =~= p.drop_last());
        assert(pairs_map(u) =~= pairs_map(p).insert(k, v));
    } else {
        let q = p.drop_last();
        assert(names_unique(q)) by {
            assert forall|a: int, b: int| 0 <= a < b < q.len() implies #[trigger] q[a].0 != #[trigger] q[b].0 by {
                assert(q[a] == p[a] && q[b] == p[b]);
            }
        }
        assert(q[j] == p[j]);
        lemma_pairs_map_update(q, j, v);
        assert(u.drop_last() =~= q.update(j, (k, v)));
        assert(u.last() == p.last());
        assert(p.last().0 != k);
        assert(pairs_map(u) =~= pairs_map(p).insert(k, v));
    }
}

/// Putting a pair in keeps each name once and maps its name to its value,
/// as inserting into a map does: a later pair replaces an earlier one.
pub proof fn lemma_put_pair(p: Seq<(Seq<char>, Seq<char>)>, k: Seq<char>, v: Seq<char>)
    requires
        names_unique(p),
    ensures
        names_unique(put_pair(p, k, v)),
        pairs_map(put_pair(p, k, v)) == pairs_map(p).insert(k, v),
{
    lemma_key_index(p, k);
    let r = put_pair(p, k, v);
    match key_index(p, k) {
        Some(j) => {
            lemma_pairs_map_update(p, j, v);
            assert forall|a: int, b: int| 0 <= a < b < r.len() implies #[trigger] r[a].0 != #[trigger] r[b].0 by {
                assert(r[a].0 == p[a].0 && r[b].0 == p[b].0);
            }
        },
        None => {
            assert forall|a: int, b: int| 0 <= a < b < r.len() implies #[trigger] r[a].0 != #[trigger] r[b].0 by {
                if b < p.len() {
                    assert(r[a] == p[a] && r[b] == p[b]);
                } else {
                    assert(r[a] == p[a]);
                }
            }
            assert(r.drop_last() =~= p);
        },
    }
}

/// Puts `(k, v)` into `out`: in place of the pair named `k`, or last.
fn put_pair_into(out: &mut Vec<(String, String)>, k: String, v: String)
    ensures
        pairs_view(final(out)@) == put_pair(pairs_view(old(out)@), k@, v@),
{
    let ghost p = pairs_view(out@);
    let mut j: usize = out.len();
    proof {
        assert(p.take(j as int) =~= p);
    }
    while j > 0
        invariant
            p == pairs_view(old(out)@),
            p == pairs_view(out@),
            j <= out@.len(),
            key_index(p, k@) == key_index(p.take(j as int), k@),
        decreases j,
    {
        proof {
            assert(p.take(j as int).drop_last() =~= p.take(j - 1));
        }
        if crate::text::str_eq(out[j - 1].0.as_str(), k.as_str()) {
            proof {
                assert(p[j - 1].0 == out@[j - 1].0@);
                assert(p.take(j as int).last() == p[j - 1]);
                assert(key_index(p, k@) == Some((j - 1) as int));
            }
            out.set(j - 1, (k, v));
            proof {
                assert(pairs_view(out@) =~= p.update(j - 1, (k@, v@)));
            }
            return;
        }
        proof {
            assert(p[j - 1].0 == out@[j - 1].0@);
            assert(p.take(j as int).last() == p[j - 1]);
        }
        j = j - 1;
    }
    out.push((k, v));
    proof {
        assert(p.take(0) =~= Seq::<(Seq<char>, Seq<char>)>::empty());
        assert(pairs_view(out@) =~= p.push((k@, v@)));
    }
}

/// The view of an optional string.
pub open spec fn opt_view(o: Option<String>) -> Option<Seq<char>> {
    match o {
        Some(s) => Some(s@),
        None => None,
    }
}

/// The message of a missing required field.
pub open spec fn missing_field(key: Seq<char>) -> Seq<char> {
    "Required field `"@ + key + "` is missing."@
}

/// `data[key]`, or the failure that names the missing field.
pub open spec fn spec_get_req(data: YamlValue, key: Seq<char>) -> Result<YamlValue, Failure> {
    match data.spec_get(key) {
        Some(v) => Ok(v),
        None => Err(Failure::Text(missing_field(key))),
    }
}

/// The text of the string node under `key` in `node`.
pub open spec fn spec_string_req(node: YamlValue, key: Seq<char>) -> Result<Seq<char>, Failure> {
    match spec_get_req(node, key) {
        Ok(v) => spec_str(v, not_string()),
        Err(f) => Err(f),
    }
}

/// The text of a (possibly tagged) string node.
pub open spec fn spec_str(v: YamlValue, fail: Seq<char>) -> Result<Seq<char>, Failure> {
    match v.spec_untag() {
        YamlValue::String(s) => Ok(s@),
        _ => Err(Failure::Str(fail)),
    }
}

/// Failure text of `to_str`.
pub open spec fn not_str() -> Seq<char> {
    "`Value` could not be converted to `str`."@
}

/// Failure text of `to_string`.
pub open spec fn not_string() -> Seq<char> {
    "`Value` could not be converted to `String`."@
}

/// Failure text of `to_u64`.
pub open spec fn not_u64() -> Seq<char> {
    "`Value` could not be converted to `u64`."@
}

/// Failure text of `to_bool_option`.
pub open spec fn not_bool() -> Seq<char> {
    "`Value` could not be converted to `bool`."@
}

/// Failure text of `to_hashmap_option`.
pub open spec fn not_mapping() -> Seq<char> {
    "`Value` could not be converted to `Mapping`."@
}

/// The non-negative integer held by a (possibly tagged) number node.
pub open spec fn spec_u64(v: YamlValue) -> Result<u64, Failure> {
    match v.spec_untag() {
        YamlValue::Number(YamlNumber::PosInt(n)) => Ok(n),
        _ => Err(Failure::Str(not_u64())),
    }
}

/// The boolean held by a (possibly tagged) boolean node, if the node is present.
pub open spec fn spec_bool_option(v: Option<YamlValue>) -> Result<Option<bool>, Failure> {
    match v {
        None => Ok(None),
        Some(v) => match v.spec_untag() {
            YamlValue::Bool(b) => Ok(Some(b)),
            _ => Err(Failure::Str(not_bool())),
        },
    }
}

/// The text of an optional string node.
pub open spec fn spec_str_option(v: Option<YamlValue>, fail: Seq<char>) -> Result<Option<Seq<char>>, Failure> {
    match v {
        None => Ok(None),
        Some(v) => match spec_str(v, fail) {
            Ok(s) => Ok(Some(s)),
            Err(f) => Err(f),
        },
    }
}

/// An optional number of seconds, as a duration.
pub open spec fn spec_duration(v: Option<YamlValue>) -> Result<Option<Duration>, Failure> {
    match v {
        None => Ok(None),
        Some(v) => match spec_u64(v) {
            Ok(n) => Ok(Some(Duration { secs: n, nanos: 0 })),
            Err(f) => Err(f),
        },
    }
}

/// An optional date-time text, as an instant.
pub open spec fn spec_datetime_option(v: Option<YamlValue>) -> Result<Option<(i64, u32)>, Failure> {
    match spec_str_option(v, not_str()) {
        Err(f) => Err(f),
        Ok(None) => Ok(None),
        Ok(Some(s)) => match parsed_instant(s) {
            Some(t) => Ok(Some(t)),
            None => Err(Failure::Chrono),
        },
    }
}

/// An optional multi-line text, put on one line.
pub open spec fn spec_multiline(v: Option<YamlValue>) -> Result<Option<Seq<char>>, Failure> {
    match spec_str_option(v, not_str()) {
        Err(f) => Err(f),
        Ok(None) => Ok(None),
        Ok(Some(s)) => Ok(Some(single_line(s))),
    }
}

/// The pairs of a mapping node: each key as a string, each value as its YAML
/// text with the newlines removed, put in one by one with `put_pair`; or the
/// first failure.
pub open spec fn spec_pairs(entries: Seq<YamlEntry>) -> Result<Seq<(Seq<char>, Seq<char>)>, Failure>
    decreases entries.len(),
{
    if entries.len() == 0 {
        Ok(Seq::empty())
    } else {
        match spec_pairs(entries.drop_last()) {
            Err(f) => Err(f),
            Ok(p) => match spec_str(entries.last().key, not_string()) {
                Err(f) => Err(f),
                Ok(k) => Ok(put_pair(p, k, strip_newlines(entries.last().value_text@))),
            },
        }
    }
}

/// The pairs read from a mapping name each key once, and stand for the map
/// made by inserting the entries in document order: the last entry's key
/// maps to its value text, over the map of the entries before it.
pub proof fn lemma_mapping_pairs(entries: Seq<YamlEntry>)
    ensures
        spec_pairs(entries) matches Ok(p) ==> names_unique(p),
        spec_pairs(entries) matches Ok(p) ==> entries.len() > 0 ==> {
            &&& spec_pairs(entries.drop_last()) matches Ok(q)
            &&& spec_str(entries.last().key, not_string()) matches Ok(k)
            &&& pairs_map(p) == pairs_map(q).insert(k, strip_newlines(entries.last().value_text@))
        },
    decreases entries.len(),
{
    if entries.len() > 0 {
        lemma_mapping_pairs(entries.drop_last());
        if let Ok(q) = spec_pairs(entries.drop_last()) {
            if let Ok(k) = spec_str(entries.last().key, not_string()) {
                lemma_put_pair(q, k, strip_newlines(entries.last().value_text@));
            }
        }
    }
}

/// The entries of an optional node when it is (untagged) a mapping; none
/// otherwise.
pub open spec fn mapping_entries(node: Option<YamlValue>) -> Seq<YamlEntry> {
    match node {
        Some(n) => match n.spec_untag() {
            YamlValue::Mapping(es) => es@,
            _ => Seq::empty(),
        },
        None => Seq::empty(),
    }
}

/// Every entry of a mapping that is read as pairs has a string key, and that
/// key is a name of the pairs: no configured name is lost.
pub proof fn lemma_mapping_keys_kept(entries: Seq<YamlEntry>, i: int)
    ensures
        spec_pairs(entries) matches Ok(p) ==> 0 <= i < entries.len() ==> (
            spec_str(entries[i].key, not_string()) matches Ok(k) && pairs_map(p).contains_key(k)),
    decreases entries.len(),
{
    if 0 <= i < entries.len() && spec_pairs(entries) is Ok {
        lemma_mapping_pairs(entries);
        let q = entries.drop_last();
        lemma_mapping_keys_kept(q, i);
        if i < entries.len() - 1 {
            assert(q[i] == entries[i]);
        }
    }
}

/// The pairs under `key` in `node` keep every key of the mapping there.
pub proof fn lemma_pairs_at_keeps_keys(node: YamlValue, key: Seq<char>, i: int)
    ensures
        spec_pairs_at(node, key) matches Ok(p) ==> 0 <= i < mapping_entries(node.spec_get(key)).len() ==> (
            spec_str(mapping_entries(node.spec_get(key))[i].key, not_string()) matches Ok(k)
                && pairs_map(p).contains_key(k)),
{
    lemma_mapping_keys_kept(mapping_entries(node.spec_get(key)), i);
}

/// An optional mapping node as string pairs.
pub open spec fn spec_hashmap_option(v: Option<YamlValue>) -> Result<Option<Seq<(Seq<char>, Seq<char>)>>, Failure> {
    match v {
        None => Ok(None),
        Some(v) => match v.spec_untag() {
            YamlValue::Mapping(entries) => match spec_pairs(entries@) {
                Ok(p) => Ok(Some(p)),
                Err(f) => Err(f),
            },
            _ => Err(Failure::Str(not_mapping())),
        },
    }
}

/// The pairs of the mapping under `key` in `node`, an absent field meaning none.
pub open spec fn spec_pairs_at(node: YamlValue, key: Seq<char>) -> Result<Seq<(Seq<char>, Seq<char>)>, Failure> {
    match spec_hashmap_option(node.spec_get(key)) {
        Err(f) => Err(f),
        Ok(None) => Ok(Seq::empty()),
        Ok(Some(p)) => Ok(p),
    }
}

/// The texts of a sequence of string nodes, or the first failure.
pub open spec fn spec_strings(items: Seq<YamlValue>) -> Result<Seq<Seq<char>>, Failure>
    decreases items.len(),
{
    if items.len() == 0 {
        Ok(Seq::empty())
    } else {
        match spec_strings(items.drop_last()) {
            Err(f) => Err(f),
            Ok(p) => match spec_str(items.last(), not_string()) {
                Err(f) => Err(f),
                Ok(s) => Ok(p.push(s)),
            },
        }
    }
}

/// The JSON document written, possibly over several lines, in an optional
/// string node: its one-line form parsed.
pub open spec fn spec_json_option(v: Option<YamlValue>) -> Result<Option<JsonValue>, Failure> {
    match spec_multiline(v) {
        Err(f) => Err(f),
        Ok(None) => Ok(None),
        Ok(Some(s)) => if json_accepts(s) { Ok(Some(parsed_json(s))) } else { Err(Failure::Json) },
    }
}

impl YamlParser {
    /// The value under `value` in the mapping `data`, or an error naming the field.
    pub fn get_req<'a>(data: &'a YamlValue, value: &str) -> (res: Result<&'a YamlValue, Error>)
        ensures
            match res {
                Ok(v) => spec_get_req(*data, value@) == Ok::<YamlValue, Failure>(*v),
                Err(e) => spec_get_req(*data, value@) matches Err(f) && e.shows(f),
            },
    {
        match data.get(value) {
            Some(v) => Ok(v),
            None => {
                let mut m = String::from_str("Required field `");
                m.append(value);
                m.append("` is missing.");
                Err(Error::String(m))
            },
        }
    }

    /// The text of a string node.
    pub fn to_str(value: &YamlValue) -> (res: Result<&str, Error>)
        ensures
            match res {
                Ok(s) => spec_str(*value, not_str()) == Ok::<Seq<char>, Failure>(s@),
                Err(e) => spec_str(*value, not_str()) matches Err(f) && e.shows(f),
            },
    {
        match value.untag() {
            YamlValue::String(s) => Ok(s.as_str()),
            _ => Err(Error::Str("`Value` could not be converted to `str`.")),
        }
    }

    /// The text of a string node, as an owned string.
    pub fn to_string(value: &YamlValue) -> (res: Result<String, Error>)
        ensures
            match res {
                Ok(s) => spec_str(*value, not_string()) == Ok::<Seq<char>, Failure>(s@),
                Err(e) => spec_str(*value, not_string()) matches Err(f) && e.shows(f),
            },
    {
        match value.untag() {
            YamlValue::String(s) => Ok(s.clone()),
            _ => Err(Error::Str("`Value` could not be converted to `String`.")),
        }
    }

    /// The non-negative integer of a number node.
    pub fn to_u64(value: &YamlValue) -> (res: Result<u64, Error>)
        ensures
            match res {
                Ok(n) => spec_u64(*value) == Ok::<u64, Failure>(n),
                Err(e) => spec_u64(*value) matches Err(f) && e.shows(f),
            },
    {
        match value.untag() {
            YamlValue::Number(YamlNumber::PosInt(n)) => Ok(*n),
            _ => Err(Error::Str("`Value` could not be converted to `u64`.")),
        }
    }

    /// An optional number of seconds, as a duration.
    pub fn to_duration(value: Option<&YamlValue>) -> (res: Result<Option<Duration>, Error>)
        ensures
            match res {
                Ok(d) => spec_duration(opt_node(value)) == Ok::<Option<Duration>, Failure>(d),
                Err(e) => spec_duration(opt_node(value)) matches Err(f) && e.shows(f),
            },
    {
        match value {
            None => Ok(None),
            Some(v) => match Self::to_u64(v) {
                Ok(n) => Ok(Some(Duration { secs: n, nanos: 0 })),
                Err(e) => Err(e),
            },
        }
    }

    /// The text of an optional string node, as an owned string.
    pub fn to_string_option(value: Option<&YamlValue>) -> (res: Result<Option<String>, Error>)
        ensures
            match res {
                Ok(o) => spec_str_option(opt_node(value), not_string()) == Ok::<Option<Seq<char>>, Failure>(opt_view(o)),
                Err(e) => spec_str_option(opt_node(value), not_string()) matches Err(f) && e.shows(f),
            },
    {
        match value {
            None => Ok(None),
            Some(v) => match Self::to_string(v) {
                Ok(s) => Ok(Some(s)),
                Err(e) => Err(e),
            },
        }
    }

    /// The text of an optional string node.
    pub fn to_str_option(value: Option<&YamlValue>) -> (res: Result<Option<&str>, Error>)
        ensures
            match res {
                Ok(None) => spec_str_option(opt_node(value), not_str()) == Ok::<Option<Seq<char>>, Failure>(None),
                Ok(Some(s)) => spec_str_option(opt_node(value), not_str()) == Ok::<Option<Seq<char>>, Failure>(Some(s@)),
                Err(e) => spec_str_option(opt_node(value), not_str()) matches Err(f) && e.shows(f),
            },
    {
        match value {
            None => Ok(None),
            Some(v) => match Self::to_str(v) {
                Ok(s) => Ok(Some(s)),
                Err(e) => Err(e),
            },
        }
    }

    /// The boolean of an optional boolean node.
    pub fn to_bool_option(value: Option<&YamlValue>) -> (res: Result<Option<bool>, Error>)
        ensures
            match res {
                Ok(b) => spec_bool_option(opt_node(value)) == Ok::<Option<bool>, Failure>(b),
                Err(e) => spec_bool_option(opt_node(value)) matches Err(f) && e.shows(f),
            },
    {
        match value {
            None => Ok(None),
            Some(v) => match v.untag() {
                YamlValue::Bool(b) => Ok(Some(*b)),
                _ => Err(Error::Str("`Value` could not be converted to `bool`.")),
            },
        }
    }

    /// The instant written in an optional date-time string node.
    pub fn to_datetime_option(value: Option<&YamlValue>) -> (res: Result<Option<Timestamp>, Error>)
        ensures
            match res {
                Ok(None) => spec_datetime_option(opt_node(value)) == Ok::<Option<(i64, u32)>, Failure>(None),
                Ok(Some(t)) => spec_datetime_option(opt_node(value)) == Ok::<Option<(i64, u32)>, Failure>(Some((t.secs, t.nanos))),
                Err(e) => spec_datetime_option(opt_node(value)) matches Err(f) && e.shows(f),
            },
    {
        match Self::to_str_option(value) {
            Err(e) => Err(e),
            Ok(None) => Ok(None),
            Ok(Some(s)) => match parse_instant(s) {
                Ok(t) => Ok(Some(t)),
                Err(e) => Err(Error::Chrono(e)),
            },
        }
    }

    /// The text of the string node under `value` in the mapping `data`.
    pub fn to_string_req(data: &YamlValue, value: &str) -> (res: Result<String, Error>)
        ensures
            match res {
                Ok(s) => spec_string_req(*data, value@) == Ok::<Seq<char>, Failure>(s@),
                Err(e) => spec_string_req(*data, value@) matches Err(f) && e.shows(f),
            },
    {
        match Self::get_req(data, value) {
            Ok(v) => Self::to_string(v),
            Err(e) => Err(e),
        }
    }

    /// An optional multi-line string node on one line: newlines removed and
    /// the words joined by single spaces.
    pub fn to_string_option_multiline(value: Option<&YamlValue>) -> (res: Result<Option<String>, Error>)
        ensures
            match res {
                Ok(o) => spec_multiline(opt_node(value)) == Ok::<Option<Seq<char>>, Failure>(opt_view(o)),
                Err(e) => spec_multiline(opt_node(value)) matches Err(f) && e.shows(f),
            },
    {
        match Self::to_str_option(value) {
            Err(e) => Err(e),
            Ok(None) => Ok(None),
            Ok(Some(s)) => Ok(Some(to_single_line(s))),
        }
    }

    /// The texts of a sequence of string nodes.
    pub fn vec_to_string(value: &Vec<YamlValue>) -> (res: Result<Vec<String>, Error>)
        ensures
            match res {
                Ok(v) => spec_strings(value@) == Ok::<Seq<Seq<char>>, Failure>(strs_view(v@)),
                Err(e) => spec_strings(value@) matches Err(f) && e.shows(f),
            },
    {
        let n = value.len();
        let mut out: Vec<String> = Vec::new();
        let mut i: usize = 0;
        proof {
            assert(strs_view(out@) =~= Seq::<Seq<char>>::empty());
            assert(value@.take(0) =~= Seq::<YamlValue>::empty());
        }
        while i < n
            invariant
                n == value@.len(),
                0 <= i <= n,
                spec_strings(value@.take(i as int)) == Ok::<Seq<Seq<char>>, Failure>(strs_view(out@)),
            decreases n - i,
        {
            proof {
                assert(value@.take(i + 1).drop_last() =~= value@.take(i as int));
            }
            match Self::to_string(&value[i]) {
                Ok(s) => {
                    let ghost before = out@;
                    out.push(s);
                    proof {
                        assert(strs_view(out@) =~= strs_view(before).push(out@.last()@));
                    }
                },
                Err(e) => {
                    proof {
                        lemma_strings_err_prefix(value@, (i + 1) as int);
                    }
                    return Err(e);
                },
            }
            i = i + 1;
        }
        proof {
            assert(value@.take(n as int) =~= value@);
        }
        Ok(out)
    }

    /// The pairs of an optional mapping node: each key as a string, each
    /// value as its YAML text with the newlines removed, a later entry of a
    /// name replacing the earlier one in its place (see `lemma_mapping_pairs`).
    pub fn to_hashmap_option(mapping: Option<&YamlValue>) -> (res: Result<Option<Vec<(String, String)>>, Error>)
        ensures
            match res {
                Ok(None) => spec_hashmap_option(opt_node(mapping)) == Ok::<Option<Seq<(Seq<char>, Seq<char>)>>, Failure>(None),
                Ok(Some(p)) => spec_hashmap_option(opt_node(mapping)) == Ok::<Option<Seq<(Seq<char>, Seq<char>)>>, Failure>(Some(pairs_view(p@))),
                Err(e) => spec_hashmap_option(opt_node(mapping)) matches Err(f) && e.shows(f),
            },
    {
        match mapping {
            None => Ok(None),
            Some(v) => match v.untag() {
                YamlValue::Mapping(entries) => match Self::entry_pairs(entries) {
                    Ok(p) => Ok(Some(p)),
                    Err(e) => Err(e),
                },
                _ => Err(Error::Str("`Value` could not be converted to `Mapping`.")),
            },
        }
    }

    fn entry_pairs(entries: &Vec<YamlEntry>) -> (res: Result<Vec<(String, String)>, Error>)
        ensures
            match res {
                Ok(p) => spec_pairs(entries@) == Ok::<Seq<(Seq<char>, Seq<char>)>, Failure>(pairs_view(p@)),
                Err(e) => spec_pairs(entries@) matches Err(f) && e.shows(f),
            },
    {
        let n = entries.len();
        let mut out: Vec<(String, String)> = Vec::new();
        let mut i: usize = 0;
        proof {
            assert(pairs_view(out@) =~= Seq::<(Seq<char>, Seq<char>)>::empty());
            assert(entries@.take(0) =~= Seq::<YamlEntry>::empty());
        }
        while i < n
            invariant
                n == entries@.len(),
                0 <= i <= n,
                spec_pairs(entries@.take(i as int)) == Ok::<Seq<(Seq<char>, Seq<char>)>, Failure>(pairs_view(out@)),
            decreases n - i,
        {
            proof {
                assert(entries@.take(i + 1).drop_last() =~= entries@.take(i as int));
            }
            let entry = &entries[i];
            match Self::to_string(&entry.key) {
                Ok(k) => {
                    let t = remove_newlines(entry.value_text.as_str());
                    put_pair_into(&mut out, k, t);
                },
                Err(e) => {
                    proof {
                        lemma_pairs_err_prefix(entries@, (i + 1) as int);
                    }
                    return Err(e);
                },
            }
            i = i + 1;
        }
        proof {
            assert(entries@.take(n as int) =~= entries@);
        }
        Ok(out)
    }

    /// The pairs of the mapping under `key` in `node`, an absent field
    /// meaning none (`to_hashmap_option(node.get(key))?.unwrap_or_default()`).
    pub fn pairs_at(node: &YamlValue, key: &str) -> (res: Result<Vec<(String, String)>, Error>)
        ensures
            match res {
                Ok(p) => spec_pairs_at(*node, key@) == Ok::<Seq<(Seq<char>, Seq<char>)>, Failure>(pairs_view(p@)),
                Err(e) => spec_pairs_at(*node, key@) matches Err(f) && e.shows(f),
            },
    {
        match Self::to_hashmap_option(node.get(key)) {
            Ok(Some(p)) => Ok(p),
            Ok(None) => {
                let v: Vec<(String, String)> = Vec::new();
                proof {
                    assert(pairs_view(v@) =~= Seq::<(Seq<char>, Seq<char>)>::empty());
                }
                Ok(v)
            },
            Err(e) => Err(e),
        }
    }

    /// The JSON document written, possibly over several lines, in an
    /// optional string node: its one-line form parsed.
    pub fn to_json_option(value: Option<&YamlValue>) -> (res: Result<Option<JsonValue>, Error>)
        ensures
            match res {
                Ok(o) => spec_json_option(opt_node(value)) == Ok::<Option<JsonValue>, Failure>(o),
                Err(e) => spec_json_option(opt_node(value)) matches Err(f) && e.shows(f),
            },
    {
        match Self::to_string_option_multiline(value) {
            Err(e) => Err(e),
            Ok(None) => Ok(None),
            Ok(Some(s)) => match parse_json(s.as_str()) {
                Ok(j) => Ok(Some(j)),
                Err(e) => Err(Error::Json(e)),
            },
        }
    }
}

/// A failure in a prefix is the failure of the whole sequence.
proof fn lemma_strings_err_prefix(items: Seq<YamlValue>, k: int)
    requires
        0 <= k <= items.len(),
        spec_strings(items.take(k)) is Err,
    ensures
        spec_strings(items) == spec_strings(items.take(k)),
    decreases items.len() - k,
{
    if k < items.len() {
        assert(items.take(k + 1).drop_last() =~= items.take(k));
        lemma_strings_err_prefix(items, k + 1);
    } else {
        assert(items.take(k) =~= items);
    }
}

/// A failure in a prefix is the failure of the whole mapping.
proof fn lemma_pairs_err_prefix(entries: Seq<YamlEntry>, k: int)
    requires
        0 <= k <= entries.len(),
        spec_pairs(entries.take(k)) is Err,
    ensures
        spec_pairs(entries) == spec_pairs(entries.take(k)),
    decreases entries.len() - k,
{
    if k < entries.len() {
        assert(entries.take(k + 1).drop_last() =~= entries.take(k));
        lemma_pairs_err_prefix(entries, k + 1);
    } else {
        assert(entries.take(k) =~= entries);
    }
}

} // verus!
