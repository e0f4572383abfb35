use fusion::config::Error;
use fusion::data::models::AuthType;
use fusion::data::types::auth::auth::Auth as PlainAuth;
use fusion::data::types::auth::AuthKind;
use fusion::data::types::body::BodyKind;
use fusion::data::types::{Auth, Body};
use fusion::yaml::{YamlEntry, YamlValue};

fn s(x: &str) -> YamlValue {
    YamlValue::String(x.to_string())
}

fn map(entries: Vec<(&str, YamlValue)>) -> YamlValue {
    YamlValue::Mapping(
        entries
            .into_iter()
            .map(|(k, v)| YamlEntry { key: s(k), value: v, value_text: String::new() })
            .collect(),
    )
}

#[test]
fn auth_accessors_answer_only_for_their_variant() {
    let basic = Auth::Basic { username: "u".to_string(), password: "p".to_string() };
    assert_eq!(basic.username(), Some("u".to_string()));
    assert_eq!(basic.password(), Some("p".to_string()));
    assert_eq!(basic.token(), None);
    assert_eq!(basic.param(), None);
    let bearer = Auth::Bearer { token: "t".to_string() };
    assert_eq!(bearer.token(), Some("t".to_string()));
    assert_eq!(bearer.username(), None);
    let param = Auth::Param("k".to_string(), "v".to_string());
    assert_eq!(param.param(), Some(("k".to_string(), "v".to_string())));
    assert_eq!(param.password(), None);
    assert_eq!(Auth::NoAuth.username(), None);
    assert_eq!(Auth::NoAuth.param(), None);
}

#[test]
fn auth_tags_read_back_to_the_same_variant() {
    let all = [
        (Auth::NoAuth, AuthKind::NoAuth, "none"),
        (Auth::Basic { username: String::new(), password: String::new() }, AuthKind::Basic, "basic"),
        (Auth::Bearer { token: String::new() }, AuthKind::Bearer, "bearer"),
        (Auth::Param(String::new(), String::new()), AuthKind::Param, "param"),
    ];
    for (auth, kind, tag) in all {
        assert_eq!(auth.to_string(), tag);
        assert!(Auth::kind_from_tag(&auth.to_string()) == kind);
    }
    assert!(Auth::kind_from_tag("digest") == AuthKind::NoAuth);
}

#[test]
fn plain_auth_and_auth_type_accessors() {
    let a = PlainAuth::Basic { username: "u".to_string(), password: "p".to_string() };
    assert_eq!((a.username(), a.password(), a.token()), (Some("u".to_string()), Some("p".to_string()), None));
    assert_eq!(a.to_string(), "basic");
    let b = PlainAuth::Bearer { token: "t".to_string() };
    assert_eq!((b.username(), b.token(), b.to_string()), (None, Some("t".to_string()), "bearer".to_string()));
    assert_eq!(PlainAuth::NoAuth.to_string(), "none");
    let t = AuthType::Bearer { token: "x".to_string() };
    assert_eq!((t.token(), t.username(), t.password()), (Some("x".to_string()), None, None));
    assert_eq!(t.to_string(), "bearer");
    let u = AuthType::Basic { username: "a".to_string(), password: "b".to_string() };
    assert_eq!((u.username(), u.password(), u.to_string()), (Some("a".to_string()), Some("b".to_string()), "basic".to_string()));
    assert_eq!(AuthType::NoAuth.to_string(), "none");
}

#[test]
fn auth_from_configuration() {
    assert!(matches!(Auth::try_from(None), Ok(Auth::NoAuth)));
    assert!(matches!(Auth::try_from(Some(&map(vec![]))), Ok(Auth::NoAuth)));
    assert!(matches!(Auth::try_from(Some(&map(vec![("type", s("none"))]))), Ok(Auth::NoAuth)));
    let basic = map(vec![("type", s("basic")), ("username", s("u")), ("password", s("p"))]);
    match Auth::try_from(Some(&basic)) {
        Ok(Auth::Basic { username, password }) => assert_eq!((username.as_str(), password.as_str()), ("u", "p")),
        _ => panic!("basic"),
    }
    let bearer = map(vec![("type", s("bearer")), ("token", s("abc"))]);
    assert!(matches!(Auth::try_from(Some(&bearer)), Ok(Auth::Bearer { token }) if token == "abc"));
    let param = map(vec![("type", s("param")), ("key", s("api_key")), ("value", s("42"))]);
    assert!(matches!(Auth::try_from(Some(&param)), Ok(Auth::Param(k, v)) if k == "api_key" && v == "42"));
    let missing = map(vec![("type", s("basic")), ("username", s("u"))]);
    assert!(matches!(Auth::try_from(Some(&missing)), Err(Error::String(m)) if m == "Required field `password` is missing."));
    let unknown = map(vec![("type", s("digest"))]);
    assert!(matches!(Auth::try_from(Some(&unknown)), Err(Error::String(m)) if m == "Source auth type `digest` invalid."));
    let not_text = map(vec![("type", YamlValue::Bool(true))]);
    assert!(matches!(Auth::try_from(Some(&not_text)), Err(Error::Str(m)) if m == "`Value` could not be converted to `str`."));
}

#[test]
fn body_accessors_and_tags() {
    let text = Body::Text("hi".to_string());
    assert_eq!(text.text(), Some("hi".to_string()));
    assert!(text.json().is_none() && text.form().is_none() && text.multi().is_none());
    let json = Body::Json(serde_json::Value::Bool(true));
    assert_eq!(json.json(), Some(serde_json::Value::Bool(true)));
    let form = Body::Form(vec![("a".to_string(), "1".to_string())]);
    assert_eq!(form.form(), Some(vec![("a".to_string(), "1".to_string())]));
    assert!(form.multi().is_none());
    let multi = Body::Multi(vec![("f".to_string(), "x".to_string())]);
    assert_eq!(multi.multi(), Some(vec![("f".to_string(), "x".to_string())]));
    let all = [
        (Body::NoBody, BodyKind::NoBody, "none"),
        (text, BodyKind::Text, "text"),
        (json, BodyKind::Json, "json"),
        (form, BodyKind::Form, "form"),
        (multi, BodyKind::Multi, "multi"),
    ];
    for (body, kind, tag) in all {
        assert_eq!(body.to_string(), tag);
        assert!(Body::kind_from_tag(&body.to_string()) == kind);
    }
    assert!(Body::kind_from_tag("xml") == BodyKind::NoBody);
}

#[test]
fn body_from_configuration() {
    assert!(matches!(Body::try_from(None), Ok(Body::NoBody)));
    assert!(matches!(Body::try_from(Some(&map(vec![("type", s("none"))]))), Ok(Body::NoBody)));
    let text = map(vec![("type", s("text")), ("text", s("hello"))]);
    assert!(matches!(Body::try_from(Some(&text)), Ok(Body::Text(t)) if t == "hello"));
    let json = map(vec![("type", s("json")), ("json", s("{\"q\": 1}"))]);
    match Body::try_from(Some(&json)) {
        Ok(Body::Json(v)) => assert_eq!(v, serde_json::from_str::<serde_json::Value>("{\"q\": 1}").unwrap()),
        _ => panic!("json"),
    }
    let bad_json = map(vec![("type", s("json")), ("json", s("{q}"))]);
    assert!(matches!(Body::try_from(Some(&bad_json)), Err(Error::Json(_))));
    let fields = YamlValue::Mapping(vec![YamlEntry { key: s("x"), value: s("1"), value_text: "'1'\n".to_string() }]);
    let form = map(vec![("type", s("form")), ("form", fields)]);
    assert!(matches!(Body::try_from(Some(&form)), Ok(Body::Form(f)) if f == vec![("x".to_string(), "'1'".to_string())]));
    let multi_fields = YamlValue::Mapping(vec![YamlEntry { key: s("y"), value: s("2"), value_text: "'2'\n".to_string() }]);
    let multi = map(vec![("type", s("multi")), ("form", multi_fields), ("multi", map(vec![]))]);
    assert!(matches!(Body::try_from(Some(&multi)), Ok(Body::Multi(f)) if f == vec![("y".to_string(), "'2'".to_string())]));
    let empty_form = map(vec![("type", s("form"))]);
    assert!(matches!(Body::try_from(Some(&empty_form)), Ok(Body::Form(f)) if f.is_empty()));
    let unknown = map(vec![("type", s("xml"))]);
    assert!(matches!(Body::try_from(Some(&unknown)), Err(Error::String(m)) if m == "Souce body type `xml` invalid."));
    let no_text = map(vec![("type", s("text"))]);
    assert!(matches!(Body::try_from(Some(&no_text)), Err(Error::String(m)) if m == "Required field `text` is missing."));
}
