//! Loading the configuration file into source, destination and token records.
use vstd::prelude::*;
use crate::config::error::Failure;
use crate::utils::hasher::{sha256_digest, Hasher};
use crate::yaml::{lookup, parse_yaml, parsed_yaml, YamlEntry, YamlValue};
use vstd::utf8::encode_utf8;

pub mod config_file;
pub mod error;
pub mod yaml_parser;

pub use self::config_file::{ConfigFile, FileType};
pub use self::error::Error;
pub use self::yaml_parser::YamlParser;

verus! {

/// The path of the configuration file: the `CONFIG_FILE` variable when it is
/// set, else `/etc/fusion/fusion.yaml`.
pub fn config_file_path(var: Option<String>) -> (res: String)
    ensures
        match var {
            Some(v) => res == v,
            None => res@ == "/etc/fusion/fusion.yaml"@,
        },
{
    match var {
        Some(v) => v,
        None => String::from_str("/etc/fusion/fusion.yaml"),
    }
}

/// Whether two byte strings are equal.
pub fn bytes_eq(a: &[u8], b: &[u8]) -> (res: bool)
    ensures
        res == (a@ == b@),
{
    if a.len() != b.len() {
        return false;
    }
    let mut i: usize = 0;
    while i < a.len()
        invariant
            a@.len() == b@.len(),
            0 <= i <= a@.len(),
            forall|j: int| 0 <= j < i ==> a@[j] == b@[j],
        decreases a@.len() - i,
    {
        if a[i] != b[i] {
            return false;
        }
        i = i + 1;
    }
    proof {
        assert(a@ =~= b@);
    }
    true
}

/// The stored configuration must be rewritten: none was stored yet, or the
/// hash of the stored one differs from `current`.
pub open spec fn spec_needs_update(previous: Option<Seq<u8>>, current: Seq<u8>) -> bool {
    match previous {
        None => true,
        Some(p) => p != current,
    }
}

/// The hash under which the configuration text `text` is recorded.
pub open spec fn config_hash(text: Seq<char>) -> Seq<u8> {
    sha256_digest(encode_utf8(text))
}

/// Loading a configuration whose text is the one last recorded rewrites
/// nothing, and any configuration is written when none was recorded.
pub proof fn lemma_unchanged_config_is_not_rewritten(text: Seq<char>, other: Seq<char>)
    ensures
        !spec_needs_update(Some(config_hash(text)), config_hash(text)),
        spec_needs_update(None, config_hash(other)),
{
}

/// Whether the stored configuration must be rewritten: no configuration was
/// stored yet, or the hash of the stored one differs from `current`.
pub fn needs_update(previous: Option<&[u8]>, current: &[u8]) -> (res: bool)
    ensures
        res == spec_needs_update(
            match previous {
                Some(p) => Some(p@),
                None => None,
            },
            current@,
        ),
{
    match previous {
        None => true,
        Some(p) => !bytes_eq(p, current),
    }
}

/// Hashes the configuration text `config_text` and decides whether it must
/// be written: it returns the decision and the hash to record.
pub fn config_update(previous: Option<&[u8]>, config_text: String) -> (res: (bool, Vec<u8>))
    ensures
        res.1@ == config_hash(config_text@),
        res.0 == spec_needs_update(
            match previous {
                Some(p) => Some(p@),
                None => None,
            },
            res.1@,
        ),
{
    let hash = Hasher::hash_string(config_text);
    let decision = needs_update(previous, hash.as_slice());
    (decision, hash)
}

/// The configuration document written in `text`, and the text it is
/// written back as (what `config_update` hashes); a text that the YAML
/// crate refuses is a YAML error.
pub fn read_config(text: &str) -> (res: Result<(YamlValue, String), Error>)
    ensures
        match parsed_yaml(text@) {
            None => res matches Err(e) && e is Yaml,
            Some((v, s)) => res matches Ok((c, t)) && c == v && t@ == s,
        },
{
    match parse_yaml(text) {
        Ok((v, s)) => Ok((v, s)),
        Err(e) => Err(Error::Yaml(e)),
    }
}

/// Two configuration files whose documents are written back as the same
/// text (whatever their comments and layout) hash alike, so loading the
/// second after the first rewrites nothing.
pub proof fn lemma_same_document_is_not_rewritten(first: Seq<char>, second: Seq<char>)
    requires
        parsed_yaml(first) is Some,
        parsed_yaml(second) is Some,
        parsed_yaml(first).unwrap().1 == parsed_yaml(second).unwrap().1,
    ensures
        !spec_needs_update(
            Some(config_hash(parsed_yaml(first).unwrap().1)),
            config_hash(parsed_yaml(second).unwrap().1),
        ),
{
}

/// The sections of the configuration document that become records.
pub struct ConfigSections<'a> {
    /// `sources`, when it is a mapping from source code to source.
    pub sources: Option<&'a Vec<YamlEntry>>,
    /// `destinations`, when it is a mapping from destination code to destination.
    pub destinations: Option<&'a Vec<YamlEntry>>,
    /// `auth_tokens`, when it is a sequence of tokens.
    pub auth_tokens: Option<&'a Vec<YamlValue>>,
}

/// The entries of the section `name` when it is a mapping.
pub open spec fn spec_mapping_section(entries: Seq<YamlEntry>, name: Seq<char>) -> Option<Vec<YamlEntry>> {
    match lookup(entries, name) {
        Some(YamlValue::Mapping(es)) => Some(es),
        _ => None,
    }
}

/// The items of the section `name` when it is a sequence.
pub open spec fn spec_sequence_section(entries: Seq<YamlEntry>, name: Seq<char>) -> Option<Vec<YamlValue>> {
    match lookup(entries, name) {
        Some(YamlValue::Sequence(items)) => Some(items),
        _ => None,
    }
}

/// The node behind an optional reference to mapping entries.
pub open spec fn opt_entries(o: Option<&Vec<YamlEntry>>) -> Option<Vec<YamlEntry>> {
    match o {
        Some(v) => Some(*v),
        None => None,
    }
}

/// The node behind an optional reference to sequence items.
pub open spec fn opt_items(o: Option<&Vec<YamlValue>>) -> Option<Vec<YamlValue>> {
    match o {
        Some(v) => Some(*v),
        None => None,
    }
}

fn mapping_section<'a>(entries: &'a Vec<YamlEntry>, name: &str) -> (res: Option<&'a Vec<YamlEntry>>)
    ensures
        opt_entries(res) == spec_mapping_section(entries@, name@),
{
    match crate::yaml::lookup_entry(entries, name) {
        Some(e) => match &e.value {
            YamlValue::Mapping(es) => Some(es),
            _ => None,
        },
        None => None,
    }
}

fn sequence_section<'a>(entries: &'a Vec<YamlEntry>, name: &str) -> (res: Option<&'a Vec<YamlValue>>)
    ensures
        opt_items(res) == spec_sequence_section(entries@, name@),
{
    match crate::yaml::lookup_entry(entries, name) {
        Some(e) => match &e.value {
            YamlValue::Sequence(items) => Some(items),
            _ => None,
        },
        None => None,
    }
}

/// The sections of a configuration document: it must be a mapping; its
/// `sources` and `destinations` are read when they are mappings and its
/// `auth_tokens` when it is a sequence.
pub fn config_sections(config: &YamlValue) -> (res: Result<ConfigSections<'_>, Error>)
    ensures
        match config.spec_untag() {
            YamlValue::Mapping(entries) => res matches Ok(s) && opt_entries(s.sources)
                == spec_mapping_section(entries@, "sources"@) && opt_entries(s.destinations)
                == spec_mapping_section(entries@, "destinations"@) && opt_items(s.auth_tokens)
                == spec_sequence_section(entries@, "auth_tokens"@),
            _ => res matches Err(e) && e.shows(Failure::Str(""@)),
        },
{
    match config.untag() {
        YamlValue::Mapping(entries) => Ok(
            ConfigSections {
                sources: mapping_section(entries, "sources"),
                destinations: mapping_section(entries, "destinations"),
                auth_tokens: sequence_section(entries, "auth_tokens"),
            },
        ),
        _ => Err(Error::Str("")),
    }
}

/// The codes listed under `key` in `data`, when that field is a sequence
/// (a destination's `sources`, a token's `destinations`).
pub fn linked_codes<'a>(data: &'a YamlValue, key: &str) -> (res: Option<&'a Vec<YamlValue>>)
    ensures
        opt_items(res) == match data.spec_get(key@) {
            Some(YamlValue::Sequence(items)) => Some(items),
            _ => None,
        },
{
    match data.get(key) {
        Some(YamlValue::Sequence(items)) => Some(items),
        _ => None,
    }
}

} // verus!
