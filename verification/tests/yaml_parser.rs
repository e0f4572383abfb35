use fusion::config::{Error, YamlParser};
use fusion::time::Timestamp;
use fusion::yaml::{YamlEntry, YamlNumber, YamlValue};

fn s(x: &str) -> YamlValue {
    YamlValue::String(x.to_string())
}

fn entry(key: &str, value: YamlValue, text: &str) -> YamlEntry {
    YamlEntry { key: s(key), value, value_text: text.to_string() }
}

fn str_err(r: Result<impl std::fmt::Debug, Error>) -> &'static str {
    match r {
        Err(Error::Str(m)) => m,
        _ => panic!("expected a Str error"),
    }
}

fn string_err<T>(r: Result<T, Error>) -> String {
    match r {
        Err(Error::String(m)) => m,
        _ => panic!("expected a String error"),
    }
}

#[test]
fn get_req_finds_or_names_the_field() {
    let data = YamlValue::Mapping(vec![entry("url", s("http://a"), "http://a\n")]);
    match YamlParser::get_req(&data, "url") {
        Ok(YamlValue::String(v)) => assert_eq!(v, "http://a"),
        _ => panic!("url"),
    }
    assert_eq!(string_err(YamlParser::get_req(&data, "path")), "Required field `path` is missing.");
    assert_eq!(string_err(YamlParser::get_req(&s("x"), "url")), "Required field `url` is missing.");
}

#[test]
fn get_looks_through_tags_and_takes_the_first_key() {
    let data = YamlValue::Tagged(
        "!cfg".to_string(),
        Box::new(YamlValue::Mapping(vec![entry("a", s("1"), "'1'\n"), entry("a", s("2"), "'2'\n")])),
    );
    assert_eq!(YamlParser::to_string_req(&data, "a").ok(), Some("1".to_string()));
}

#[test]
fn scalars() {
    let tagged = YamlValue::Tagged("!t".to_string(), Box::new(s("v")));
    assert_eq!(YamlParser::to_str(&tagged).ok(), Some("v"));
    assert_eq!(YamlParser::to_string(&s("w")).ok(), Some("w".to_string()));
    assert_eq!(str_err(YamlParser::to_str(&YamlValue::Null)), "`Value` could not be converted to `str`.");
    assert_eq!(str_err(YamlParser::to_string(&YamlValue::Bool(true))), "`Value` could not be converted to `String`.");
    assert_eq!(YamlParser::to_u64(&YamlValue::Number(YamlNumber::PosInt(7))).ok(), Some(7));
    assert_eq!(str_err(YamlParser::to_u64(&YamlValue::Number(YamlNumber::NegInt(-7)))), "`Value` could not be converted to `u64`.");
    assert_eq!(str_err(YamlParser::to_u64(&YamlValue::Number(YamlNumber::Float))), "`Value` could not be converted to `u64`.");
}

#[test]
fn optional_values() {
    let five = YamlValue::Number(YamlNumber::PosInt(5));
    let d = YamlParser::to_duration(Some(&five)).ok().unwrap().unwrap();
    assert_eq!((d.secs, d.nanos), (5, 0));
    assert!(YamlParser::to_duration(None).ok().unwrap().is_none());
    assert_eq!(YamlParser::to_bool_option(Some(&YamlValue::Bool(true))).ok(), Some(Some(true)));
    assert_eq!(YamlParser::to_bool_option(None).ok(), Some(None));
    assert_eq!(str_err(YamlParser::to_bool_option(Some(&s("yes")))), "`Value` could not be converted to `bool`.");
    assert_eq!(YamlParser::to_string_option(Some(&s("x"))).ok(), Some(Some("x".to_string())));
    assert_eq!(YamlParser::to_str_option(None).ok(), Some(None));
    assert_eq!(
        YamlParser::to_string_option_multiline(Some(&s(".items[]\n  | .id\n"))).ok(),
        Some(Some(".items[] | .id".to_string()))
    );
}

#[test]
fn datetimes() {
    let t = YamlParser::to_datetime_option(Some(&s("2024-01-02T03:04:05Z"))).ok().unwrap().unwrap();
    assert_eq!((t.secs, t.nanos), (1704164645, 0));
    let t = YamlParser::to_datetime_option(Some(&s("2024-01-02T05:04:05.5+02:00"))).ok().unwrap().unwrap();
    assert_eq!((t.secs, t.nanos), (1704164645, 500_000_000));
    assert!(YamlParser::to_datetime_option(None).ok().unwrap().is_none());
    assert!(matches!(YamlParser::to_datetime_option(Some(&s("tomorrow"))), Err(Error::Chrono(_))));
    let _unused: Option<Timestamp> = None;
}

#[test]
fn sequences_of_strings() {
    let items = vec![s("a"), s("b")];
    assert_eq!(YamlParser::vec_to_string(&items).ok(), Some(vec!["a".to_string(), "b".to_string()]));
    let bad = vec![s("a"), YamlValue::Null, YamlValue::Bool(false)];
    assert_eq!(str_err(YamlParser::vec_to_string(&bad)), "`Value` could not be converted to `String`.");
    assert_eq!(YamlParser::vec_to_string(&vec![]).ok(), Some(vec![]));
}

#[test]
fn mappings_become_pairs_in_order() {
    let m = YamlValue::Mapping(vec![
        entry("b", YamlValue::Number(YamlNumber::PosInt(2)), "2\n"),
        entry("a", YamlValue::Mapping(vec![]), "x: 1\ny: 2\n"),
    ]);
    let pairs = YamlParser::to_hashmap_option(Some(&m)).ok().unwrap().unwrap();
    assert_eq!(pairs, vec![("b".to_string(), "2".to_string()), ("a".to_string(), "x: 1y: 2".to_string())]);
    assert!(YamlParser::to_hashmap_option(None).ok().unwrap().is_none());
    assert_eq!(str_err(YamlParser::to_hashmap_option(Some(&s("x")))), "`Value` could not be converted to `Mapping`.");
    let bad_key = YamlValue::Mapping(vec![YamlEntry { key: YamlValue::Null, value: s("v"), value_text: "v\n".to_string() }]);
    assert_eq!(str_err(YamlParser::to_hashmap_option(Some(&bad_key))), "`Value` could not be converted to `String`.");
    let data = YamlValue::Mapping(vec![entry("headers", m, "")]);
    assert_eq!(YamlParser::pairs_at(&data, "headers").ok().unwrap().len(), 2);
    assert_eq!(YamlParser::pairs_at(&data, "params").ok().unwrap().len(), 0);
}

#[test]
fn a_later_entry_of_the_same_name_replaces_the_earlier_one() {
    let m = YamlValue::Mapping(vec![
        entry("a", s("1"), "1\n"),
        entry("b", s("2"), "2\n"),
        entry("a", s("3"), "3\n"),
    ]);
    let pairs = YamlParser::to_hashmap_option(Some(&m)).ok().unwrap().unwrap();
    assert_eq!(pairs, vec![("a".to_string(), "3".to_string()), ("b".to_string(), "2".to_string())]);
}

#[test]
fn json_values() {
    let parsed = YamlParser::to_json_option(Some(&s("{\"a\":\n [1, 2]}"))).ok().unwrap().unwrap();
    assert_eq!(parsed, serde_json::from_str::<serde_json::Value>("{\"a\":[1,2]}").unwrap());
    assert!(YamlParser::to_json_option(None).ok().unwrap().is_none());
    assert!(matches!(YamlParser::to_json_option(Some(&s("{oops"))), Err(Error::Json(_))));
}
