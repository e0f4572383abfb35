use fusion::config::{
    config_file_path, config_sections, config_update, linked_codes, needs_update, read_config, ConfigFile, Error, FileType,
};
use fusion::utils::Hasher;
use fusion::yaml::{YamlEntry, YamlNumber, YamlValue};

fn s(x: &str) -> YamlValue {
    YamlValue::String(x.to_string())
}

fn map(entries: Vec<(&str, YamlValue)>) -> YamlValue {
    YamlValue::Mapping(
        entries
            .into_iter()
            .map(|(k, v)| YamlEntry { key: s(k), value: v, value_text: String::new() })
            .collect(),
    )
}

#[test]
fn file_type_names() {
    assert_eq!(FileType::Config.to_string(), "Config");
    assert_eq!(FileType::Filter.to_string(), "Filter");
    assert_eq!(FileType::Fallback.to_string(), "Fallback");
}

#[test]
fn config_files_must_exist() {
    assert!(matches!(ConfigFile::new("no/such/file.yaml", FileType::Config), Err(Error::Str(m)) if m == "Provied path is not a file."));
    assert!(matches!(ConfigFile::new(".", FileType::Config), Err(Error::Str(_))));
    let checked = ConfigFile::checked("a.jq", FileType::Filter, true).ok().unwrap();
    assert_eq!(checked.path(), "a.jq");
    assert!(matches!(ConfigFile::checked("x", FileType::Filter, false), Err(Error::Str(_))));
}

#[test]
fn extensions_must_fit_the_file_type() {
    let yaml = ConfigFile::checked("/etc/fusion/fusion.yaml", FileType::Config, true).ok().unwrap();
    assert!(yaml.check_extension().is_ok());
    assert!(yaml.accepts_extension(Some("yml")).is_ok());
    assert!(matches!(yaml.accepts_extension(Some("json")), Err(Error::String(m)) if m == "Config file `/etc/fusion/fusion.yaml` extension invalid."));
    assert!(matches!(yaml.accepts_extension(None), Err(Error::Str(m)) if m == "File extension not present."));
    let jq = ConfigFile::checked("filters/a.jq", FileType::Filter, true).ok().unwrap();
    assert!(jq.check_extension().is_ok());
    let fallback = ConfigFile::checked("fallback", FileType::Fallback, true).ok().unwrap();
    assert!(matches!(fallback.check_extension(), Err(Error::Str(m)) if m == "File extension not present."));
    let hidden = ConfigFile::checked(".json", FileType::Fallback, true).ok().unwrap();
    assert!(matches!(hidden.check_extension(), Err(Error::Str(_))));
    let fb = ConfigFile::checked("data/x.json", FileType::Fallback, true).ok().unwrap();
    assert!(fb.check_extension().is_ok());
    assert!(matches!(fb.file_type(), FileType::Fallback));
}

#[test]
fn configuration_path_and_change_detection() {
    assert_eq!(config_file_path(None), "/etc/fusion/fusion.yaml");
    assert_eq!(config_file_path(Some("./f.yaml".to_string())), "./f.yaml");
    assert!(needs_update(None, &[1, 2]));
    assert!(!needs_update(Some(&[1, 2]), &[1, 2]));
    assert!(needs_update(Some(&[1, 2]), &[1, 3]));
    assert!(needs_update(Some(&[1]), &[1, 2]));
}

#[test]
fn configuration_sections() {
    let config = map(vec![
        ("sources", map(vec![("a", map(vec![("url", s("u"))]))])),
        ("destinations", YamlValue::Sequence(vec![])),
        ("auth_tokens", YamlValue::Sequence(vec![s("t")])),
    ]);
    let sections = config_sections(&config).ok().unwrap();
    assert_eq!(sections.sources.map(|v| v.len()), Some(1));
    assert!(sections.destinations.is_none());
    assert_eq!(sections.auth_tokens.map(|v| v.len()), Some(1));
    assert!(matches!(config_sections(&s("x")), Err(Error::Str(m)) if m.is_empty()));
    let dest = map(vec![("sources", YamlValue::Sequence(vec![s("a"), s("b")])), ("other", s("x"))]);
    assert_eq!(linked_codes(&dest, "sources").map(|v| v.len()), Some(2));
    assert!(linked_codes(&dest, "other").is_none());
    assert!(linked_codes(&dest, "destinations").is_none());
}

#[test]
fn reloading_the_same_configuration_rewrites_nothing() {
    let text = "sources: {}\n".to_string();
    let stored = Hasher::hash_string(text.clone());
    assert!(!needs_update(Some(&stored), &Hasher::hash_string(text)));
    assert!(needs_update(Some(&stored), &Hasher::hash_string("sources: []\n".to_string())));
}

#[test]
fn configuration_text_is_hashed_and_compared() {
    let (first, hash) = config_update(None, "a: 1\n".to_string());
    assert!(first);
    assert_eq!(hash, Hasher::hash_string("a: 1\n".to_string()));
    let (again, same) = config_update(Some(&hash), "a: 1\n".to_string());
    assert!(!again);
    assert_eq!(same, hash);
    let (changed, _) = config_update(Some(&hash), "a: 2\n".to_string());
    assert!(changed);
}

#[test]
fn configuration_text_is_parsed_into_the_model() {
    let (doc, text) = read_config("code: 7   # the code\nlist: [x, 'y']\n").ok().unwrap();
    assert_eq!(text, "code: 7\nlist:\n- x\n- y\n");
    let entries = match doc {
        YamlValue::Mapping(entries) => entries,
        _ => panic!("a mapping was expected"),
    };
    assert_eq!(entries.len(), 2);
    assert!(matches!(&entries[0].key, YamlValue::String(k) if k == "code"));
    assert!(matches!(entries[0].value, YamlValue::Number(YamlNumber::PosInt(7))));
    assert_eq!(entries[0].value_text, "7\n");
    assert!(matches!(&entries[1].value, YamlValue::Sequence(items) if items.len() == 2));
    assert_eq!(entries[1].value_text, "- x\n- y\n");
    let (doc, _) = read_config("n: -3\nf: 1.5\nt: !Tag v\n").ok().unwrap();
    let entries = match doc {
        YamlValue::Mapping(entries) => entries,
        _ => panic!("a mapping was expected"),
    };
    assert!(matches!(entries[0].value, YamlValue::Number(YamlNumber::NegInt(-3))));
    assert!(matches!(entries[1].value, YamlValue::Number(YamlNumber::Float)));
    assert!(matches!(&entries[2].value, YamlValue::Tagged(t, inner) if t == "!Tag" && matches!(**inner, YamlValue::String(ref v) if v == "v")));
}

#[test]
fn comments_and_layout_do_not_change_the_recorded_hash() {
    let (_, first) = read_config("a: 1   # one\nb:   two\n").ok().unwrap();
    let (_, second) = read_config("# header\na:    1\nb: two\n").ok().unwrap();
    assert_eq!(first, second);
    let (_, hash) = config_update(None, first);
    assert!(!config_update(Some(&hash), second).0);
}

#[test]
fn text_that_is_not_yaml_is_a_yaml_error() {
    assert!(matches!(read_config("a: [1, 2"), Err(Error::Yaml(_))));
    assert!(matches!(read_config("a: 1\na: 2\n"), Err(Error::Yaml(_))));
}
