use fusion::config::Error;
use fusion::api::Error as ApiError;
use fusion::data::models::auth_token::{access_decision, check_access};
use fusion::data::models::{AuthToken, Destination, Source};
use fusion::data::types::{Auth, Body};
use fusion::time::Timestamp;
use fusion::utils::Hasher;
use fusion::yaml::{YamlEntry, YamlNumber, YamlValue};

fn s(x: &str) -> YamlValue {
    YamlValue::String(x.to_string())
}

fn map(entries: Vec<(&str, YamlValue, &str)>) -> YamlValue {
    YamlValue::Mapping(
        entries
            .into_iter()
            .map(|(k, v, t)| YamlEntry { key: s(k), value: v, value_text: t.to_string() })
            .collect(),
    )
}

fn hex(bytes: &[u8]) -> String {
    bytes.iter().map(|b| format!("{:02x}", b)).collect()
}

#[test]
fn hash_string_is_sha256_of_the_text() {
    assert_eq!(hex(&Hasher::hash_string("abc".to_string())), "ba7816bf8f01cfea414140de5dae2223b00361a396177a9cb410ff61f20015ad");
    assert_eq!(hex(&Hasher::hash_string(String::new())), "e3b0c44298fc1c149afbf4c8996fb92427ae41e4649b934ca495991b7852b855");
}

#[test]
fn source_from_configuration() {
    let data = map(vec![
        ("url", s("https://api.example.com/items"), ""),
        ("params", map(vec![("limit", YamlValue::Number(YamlNumber::PosInt(10)), "10\n")]), ""),
        ("timeout", YamlValue::Number(YamlNumber::PosInt(3)), ""),
        ("auth", map(vec![("type", s("bearer"), ""), ("token", s("secret"), "")]), ""),
        ("body", map(vec![("type", s("text"), ""), ("text", s("ping"), "")]), ""),
    ]);
    let src = Source::from_config(&s("items"), &data).ok().unwrap();
    assert_eq!(src.id, None);
    assert_eq!(src.code, "items");
    assert_eq!(src.url, "https://api.example.com/items");
    assert_eq!(src.params, vec![("limit".to_string(), "10".to_string())]);
    assert!(src.headers.is_empty());
    assert_eq!(src.timeout.map(|d| (d.secs, d.nanos)), Some((3, 0)));
    assert!(matches!(src.auth, Auth::Bearer { token } if token == "secret"));
    assert!(matches!(src.body, Body::Text(t) if t == "ping"));
}

#[test]
fn source_errors_come_in_field_order() {
    let no_url = map(vec![("timeout", s("soon"), "")]);
    assert!(matches!(Source::from_config(&s("a"), &no_url), Err(Error::String(m)) if m == "Required field `url` is missing."));
    let bad_timeout = map(vec![("url", s("u"), ""), ("timeout", s("soon"), ""), ("body", map(vec![("type", s("xml"), "")]), "")]);
    assert!(matches!(Source::from_config(&s("a"), &bad_timeout), Err(Error::Str(m)) if m == "`Value` could not be converted to `u64`."));
    assert!(matches!(Source::from_config(&YamlValue::Null, &no_url), Err(Error::Str(m)) if m == "`Value` could not be converted to `String`."));
}

#[test]
fn destination_from_configuration() {
    let data = map(vec![
        ("path", s("/all"), ""),
        ("filter", s("[.[]\n  | .id]"), ""),
    ]);
    let d = Destination::from_config(&s("all"), &data).ok().unwrap();
    assert_eq!((d.id, d.code.as_str(), d.path.as_str()), (None, "all", "/all"));
    assert_eq!(d.filter.as_deref(), Some("[.[] | .id]"));
    assert!(!d.is_auth);
    assert!(d.headers.is_empty());
    let guarded = map(vec![("path", s("/p"), ""), ("is_auth", YamlValue::Bool(true), "")]);
    assert!(Destination::from_config(&s("p"), &guarded).ok().unwrap().is_auth);
    let bad = map(vec![("path", s("/p"), ""), ("is_auth", s("yes"), "")]);
    assert!(matches!(Destination::from_config(&s("p"), &bad), Err(Error::Str(m)) if m == "`Value` could not be converted to `bool`."));
}

#[test]
fn tokens_from_configuration_are_stored_as_digests() {
    let plain = AuthToken::from_config(&s("abc")).ok().unwrap();
    assert_eq!(plain.value, Hasher::hash_string("abc".to_string()));
    assert_eq!(hex(&plain.value), "ba7816bf8f01cfea414140de5dae2223b00361a396177a9cb410ff61f20015ad");
    assert!(plain.id.is_none() && plain.expiration.is_none());
    let timed = map(vec![("value", s("abc"), ""), ("expiration", s("2030-01-01T00:00:00Z"), "")]);
    let t = AuthToken::from_config(&timed).ok().unwrap();
    assert_eq!(t.value, plain.value);
    assert_eq!(t.expiration.map(|e| (e.secs, e.nanos)), Some((1893456000, 0)));
    assert!(matches!(AuthToken::from_config(&YamlValue::Null), Err(Error::Str(m)) if m == "`Value` could not be converted to `AuthToken`"));
    let no_value = map(vec![("expiration", s("2030-01-01T00:00:00Z"), "")]);
    assert!(matches!(AuthToken::from_config(&no_value), Err(Error::String(m)) if m == "Required field `value` is missing."));
    let tagged = YamlValue::Tagged("!t".to_string(), Box::new(s("abc")));
    assert!(matches!(AuthToken::from_config(&tagged), Err(Error::Str(_))));
}

#[test]
fn new_tokens_are_digests_of_random_text() {
    let a = AuthToken::new(None);
    let b = AuthToken::new(Some(Timestamp { secs: 5, nanos: 0 }));
    assert_eq!(a.value.len(), 32);
    assert_ne!(a.value, b.value);
    assert!(a.id.is_none());
    assert_eq!(b.expiration.map(|e| e.secs), Some(5));
}

#[test]
fn validity_depends_on_the_expiration() {
    let never = AuthToken { id: None, value: vec![], expiration: None };
    assert!(never.is_valid());
    assert!(never.is_valid_at(&Timestamp { secs: i64::MAX, nanos: 0 }));
    let t = AuthToken { id: Some(1), value: vec![], expiration: Some(Timestamp { secs: 100, nanos: 5 }) };
    assert!(t.is_valid_at(&Timestamp { secs: 99, nanos: 999 }));
    assert!(t.is_valid_at(&Timestamp { secs: 100, nanos: 4 }));
    assert!(!t.is_valid_at(&Timestamp { secs: 100, nanos: 5 }));
    assert!(!t.is_valid_at(&Timestamp { secs: 101, nanos: 0 }));
    assert!(!t.is_valid());
    let far = AuthToken { id: None, value: vec![], expiration: Some(Timestamp { secs: 32503680000, nanos: 0 }) };
    assert!(far.is_valid());
}

#[test]
fn access_needs_a_linked_valid_token() {
    let now = Timestamp { secs: 100, nanos: 0 };
    let live = AuthToken { id: Some(1), value: vec![], expiration: Some(Timestamp { secs: 101, nanos: 0 }) };
    let dead = AuthToken { id: Some(2), value: vec![], expiration: Some(Timestamp { secs: 100, nanos: 0 }) };
    assert!(access_decision(Some(&live), true, &now).is_ok());
    assert!(matches!(access_decision(Some(&live), false, &now), Err(ApiError::Unauthorized(()))));
    assert!(matches!(access_decision(Some(&dead), true, &now), Err(ApiError::Unauthorized(()))));
    assert!(matches!(access_decision(None, true, &now), Err(ApiError::Unauthorized(()))));
    let forever = AuthToken { id: Some(3), value: vec![], expiration: None };
    assert!(check_access(Some(&forever), true).is_ok());
    assert!(matches!(check_access(Some(&forever), false), Err(ApiError::Unauthorized(()))));
    assert!(matches!(check_access(Some(&dead), true), Err(ApiError::Unauthorized(()))));
    assert!(matches!(check_access(None, true), Err(ApiError::Unauthorized(()))));
}

#[test]
fn request_query_appends_the_auth_parameter() {
    let mut src = Source {
        id: None,
        code: "c".to_string(),
        url: "u".to_string(),
        params: vec![("a".to_string(), "1".to_string()), ("a".to_string(), "2".to_string())],
        headers: vec![],
        auth: Auth::Param("key".to_string(), "k".to_string()),
        timeout: None,
        body: Body::NoBody,
    };
    assert_eq!(
        src.request_query(),
        vec![("a".to_string(), "1".to_string()), ("a".to_string(), "2".to_string()), ("key".to_string(), "k".to_string())]
    );
    src.auth = Auth::Bearer { token: "t".to_string() };
    assert_eq!(src.request_query().len(), 2);
}
