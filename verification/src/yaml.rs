//! The library's own model of a parsed YAML document.
//!
//! It holds, as plain values, everything the configuration logic reads of a
//! YAML node: scalars, sequences, mappings in document order and tags. For the
//! value of each mapping entry it also holds the entry's YAML text as the
//! emitter writes it, which is what string-to-string maps keep of a value.
use vstd::prelude::*;
use crate::text::str_eq;
use serde_yaml::Error as YamlError;
use serde_yaml::Number as SerdeNumber;
use serde_yaml::Value as SerdeValue;

verus! {

/// A YAML number.
pub enum YamlNumber {
    /// A non-negative integer.
    PosInt(u64),
    /// A negative integer.
    NegInt(i64),
    /// A floating-point number (its value is never read as such).
    Float,
}

/// A YAML node.
pub enum YamlValue {
    Null,
    Bool(bool),
    Number(YamlNumber),
    String(String),
    Sequence(Vec<YamlValue>),
    Mapping(Vec<YamlEntry>),
    /// A node with an explicit `!tag`.
    Tagged(String, Box<YamlValue>),
}

/// One `key: value` pair of a mapping.
pub struct YamlEntry {
    pub key: YamlValue,
    pub value: YamlValue,
    /// The YAML document that the emitter writes for `value`.
    pub value_text: String,
}

impl YamlValue {
    /// The node with every tag removed.
    pub open spec fn spec_untag(self) -> YamlValue
        decreases self,
    {
        match self {
            YamlValue::Tagged(_, inner) => (*inner).spec_untag(),
            _ => self,
        }
    }

    /// Whether this node is the plain string `key`.
    pub open spec fn is_string_key(self, key: Seq<char>) -> bool {
        self matches YamlValue::String(k) && k@ == key
    }

    /// The node with every tag removed.
    pub fn untag(&self) -> (res: &YamlValue)
        ensures
            *res == self.spec_untag(),
        decreases self,
    {
        match self {
            YamlValue::Tagged(_, inner) => inner.untag(),
            _ => self,
        }
    }

    /// The value under the string key `key` when this node is a mapping.
    pub open spec fn spec_get(self, key: Seq<char>) -> Option<YamlValue> {
        match self.spec_untag() {
            YamlValue::Mapping(entries) => lookup(entries@, key),
            _ => None,
        }
    }

    /// The value under the string key `key` when this node (untagged) is a
    /// mapping; `None` for any other node.
    pub fn get(&self, key: &str) -> (res: Option<&YamlValue>)
        ensures
            res matches Some(v) ==> self.spec_get(key@) == Some(*v),
            res is None ==> self.spec_get(key@) is None,
    {
        match self.untag() {
            YamlValue::Mapping(entries) => match lookup_entry(entries, key) {
                Some(e) => Some(&e.value),
                None => None,
            },
            _ => None,
        }
    }
}

/// The node behind an optional reference.
pub open spec fn opt_node(o: Option<&YamlValue>) -> Option<YamlValue> {
    match o {
        Some(v) => Some(*v),
        None => None,
    }
}

/// The value of the first entry whose key is the plain string `key`.
pub open spec fn lookup(entries: Seq<YamlEntry>, key: Seq<char>) -> Option<YamlValue>
    decreases entries.len(),
{
    match lookup_index(entries, key) {
        Some(i) => Some(entries[i].value),
        None => None,
    }
}

/// The index of the first entry whose key is the plain string `key`.
pub open spec fn lookup_index(entries: Seq<YamlEntry>, key: Seq<char>) -> Option<int>
    decreases entries.len(),
{
    if entries.len() == 0 {
        None
    } else if entries.last().key.is_string_key(key) && lookup_index(entries.drop_last(), key) is None {
        Some(entries.len() - 1)
    } else {
        lookup_index(entries.drop_last(), key)
    }
}

fn is_key(k: &YamlValue, key: &str) -> (res: bool)
    ensures
        res == k.is_string_key(key@),
{
    match k {
        YamlValue::String(s) => str_eq(s.as_str(), key),
        _ => false,
    }
}

/// The first entry whose key is the plain string `key`.
pub fn lookup_entry<'a>(entries: &'a Vec<YamlEntry>, key: &str) -> (res: Option<&'a YamlEntry>)
    ensures
        match lookup_index(entries@, key@) {
            Some(i) => res == Some(&entries@[i]),
            None => res is None,
        },
{
    let n = entries.len();
    let mut i: usize = 0;
    while i < n
        invariant
            n == entries@.len(),
            0 <= i <= n,
            lookup_index(entries@.take(i as int), key@) is None,
        decreases n - i,
    {
        proof {
            assert(entries@.take(i + 1).drop_last() =~= entries@.take(i as int));
        }
        if is_key(&entries[i].key, key) {
            proof {
                lemma_lookup_index_prefix(entries@, key@, (i + 1) as int);
            }
            return Some(&entries[i]);
        }
        i = i + 1;
    }
    proof {
        assert(entries@.take(n as int) =~= entries@);
    }
    None
}

/// A match found in a prefix is the match of the whole sequence.
proof fn lemma_lookup_index_prefix(entries: Seq<YamlEntry>, key: Seq<char>, k: int)
    requires
        0 <= k <= entries.len(),
        lookup_index(entries.take(k), key) is Some,
    ensures
        lookup_index(entries, key) == lookup_index(entries.take(k), key),
    decreases entries.len() - k,
{
    if k < entries.len() {
        assert(entries.take(k + 1).drop_last() =~= entries.take(k));
        lemma_lookup_index_prefix(entries, key, k + 1);
    } else {
        assert(entries.take(k) =~= entries);
    }
}

/// `serde_yaml::Value`, handled only inside the parse below.
#[verifier::external_type_specification]
#[verifier::external_body]
pub struct ExSerdeValue(SerdeValue);

/// `serde_yaml::Number`, handled only inside the parse below.
#[verifier::external_type_specification]
#[verifier::external_body]
pub struct ExSerdeNumber(SerdeNumber);

/// What `serde_yaml::from_str::<serde_yaml::Value>` makes of `text`, in the
/// library's model (each entry's `value_text` being `serde_yaml::to_string`
/// of its value), together with `serde_yaml::to_string` of the whole
/// document; `None` where one of these calls refuses.
pub uninterp spec fn parsed_yaml(text: Seq<char>) -> Option<(YamlValue, Seq<char>)>;

/// `serde_yaml::from_str::<serde_yaml::Value>(text)` and `serde_yaml::to_string`
/// of the document, the document taken into the library's model node for
/// node. The outcome is a function of the text, named `parsed_yaml`; which
/// texts are accepted and what they become is not stated.
#[verifier::external_body]
pub(crate) fn parse_yaml(text: &str) -> (res: Result<(YamlValue, String), YamlError>)
    ensures
        res is Ok <==> parsed_yaml(text@) is Some,
        res matches Ok((v, s)) ==> parsed_yaml(text@) == Some((v, s@)),
{
    let value = serde_yaml::from_str::<SerdeValue>(text)?;
    let emitted = serde_yaml::to_string(&value)?;
    Ok((yaml_model(&value)?, emitted))
}

/// Takes a `serde_yaml::Value` into the library's model, variant for variant;
/// each mapping entry also gets `serde_yaml::to_string` of its value. Only
/// `parse_yaml` calls it, and its contract covers what this returns.
#[verifier::external_body]
fn yaml_model(value: &SerdeValue) -> (res: Result<YamlValue, YamlError>) {
    Ok(match value {
        SerdeValue::Null => YamlValue::Null,
        SerdeValue::Bool(b) => YamlValue::Bool(*b),
        SerdeValue::Number(n) => YamlValue::Number(yaml_number(n)),
        SerdeValue::String(s) => YamlValue::String(s.clone()),
        SerdeValue::Sequence(items) => YamlValue::Sequence(items.iter().map(yaml_model).collect::<Result<_, _>>()?),
        SerdeValue::Mapping(m) => YamlValue::Mapping(m.iter().map(yaml_entry).collect::<Result<_, _>>()?),
        SerdeValue::Tagged(t) => YamlValue::Tagged(t.tag.to_string(), Box::new(yaml_model(&t.value)?)),
    })
}

/// One `key: value` pair of a `serde_yaml::Mapping` in the library's model,
/// with `serde_yaml::to_string` of the value. Only `yaml_model` calls it.
#[verifier::external_body]
fn yaml_entry(pair: (&SerdeValue, &SerdeValue)) -> (res: Result<YamlEntry, YamlError>) {
    Ok(YamlEntry { key: yaml_model(pair.0)?, value: yaml_model(pair.1)?, value_text: serde_yaml::to_string(pair.1)? })
}

/// A `serde_yaml::Number` by its variant: `as_u64` answers exactly for a
/// non-negative integer, then `as_i64` for a negative one; else a float.
/// Only `yaml_model` calls it.
#[verifier::external_body]
fn yaml_number(n: &SerdeNumber) -> (res: YamlNumber) {
    match (n.as_u64(), n.as_i64()) {
        (Some(u), _) => YamlNumber::PosInt(u),
        (None, Some(i)) => YamlNumber::NegInt(i),
        (None, None) => YamlNumber::Float,
    }
}

} // verus!
