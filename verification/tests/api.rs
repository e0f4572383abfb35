use fusion::api::{
    bearer_token, collect_replies, destination_response, lookup_key, request_path, resolve_source_reply, token_from_match, Bindings, Error,
    Response, SourceReply,
};
use fusion::data::error::DatabaseError;
use fusion::data::Error as DataError;
use serde_json::Value;

#[test]
fn errors_become_status_and_body() {
    assert_eq!(Error::NotFound(()).into_response_parts(), (404, String::new()));
    assert_eq!(Error::BadRequest("b".to_string()).into_response_parts(), (400, "b".to_string()));
    assert_eq!(Error::Unauthorized(()).into_response_parts(), (401, String::new()));
    assert_eq!(Error::InternalServerError("i".to_string()).into_response_parts(), (500, "i".to_string()));
    let ok = Response::JsonString("[]".to_string()).into_response_parts();
    assert_eq!(ok, (200, "application/json".to_string(), "[]".to_string()));
}

#[test]
fn data_errors_become_api_errors() {
    let missing = DataError::Database(DatabaseError { row_not_found: true, message: "no rows".to_string() });
    assert!(matches!(Error::from_data(missing), Error::NotFound(())));
    let broken = DataError::Database(DatabaseError { row_not_found: false, message: "boom".to_string() });
    assert!(matches!(Error::from_data(broken), Error::InternalServerError(m) if m == "DATABASE ERROR: `boom`"));
    assert!(matches!(Error::from_data(DataError::Str("x")), Error::InternalServerError(m) if m == "DATA ERROR: `x`"));
    assert!(matches!(Error::from_data(DataError::Env("gone".to_string())), Error::InternalServerError(m) if m == "ENV ERROR: `gone`"));
    assert!(matches!(Error::from_data(DataError::Connection("c".to_string())), Error::InternalServerError(m) if m == "DATABASE CONNECTION ERROR: `c`"));
}

#[test]
fn bearer_tokens_come_from_the_authorization_header() {
    let token = "0123456789abcdefABCDEF_0123456789"[..32].to_string();
    let header = format!("Bearer {}", token);
    assert_eq!(bearer_token(Some(&header)).ok(), Some(token.clone()));
    assert!(matches!(bearer_token(Some("Bearer short")), Err(Error::Unauthorized(()))));
    assert!(matches!(bearer_token(Some(&format!("Basic {}", token))), Err(Error::Unauthorized(()))));
    assert!(matches!(bearer_token(Some(&format!("{} ", header))), Err(Error::Unauthorized(()))));
    assert!(matches!(bearer_token(None), Err(Error::Unauthorized(()))));
}

#[test]
fn tokens_are_taken_after_the_last_space() {
    assert_eq!(token_from_match(Some("Bearer abc")).ok(), Some("abc".to_string()));
    assert_eq!(token_from_match(Some("Bearer\tabc")).ok(), Some("Bearer\tabc".to_string()));
    assert_eq!(token_from_match(Some("a b c")).ok(), Some("c".to_string()));
    assert_eq!(token_from_match(Some("trailing ")).ok(), Some(String::new()));
    assert!(matches!(token_from_match(None), Err(Error::Unauthorized(()))));
}

#[test]
fn source_replies() {
    let fb = Some(Value::from("fallback"));
    let timeout = || SourceReply::SendFailed { timed_out: true, message: "t".to_string() };
    let refused = || SourceReply::SendFailed { timed_out: false, message: "refused".to_string() };
    assert_eq!(resolve_source_reply("u", fb.clone(), timeout()).ok(), fb.clone());
    assert!(matches!(resolve_source_reply("http://x", None, timeout()), Err(Error::BadRequest(m)) if m == "Request timeout for source: (http://x)"));
    assert!(matches!(resolve_source_reply("u", None, refused()), Err(Error::InternalServerError(m)) if m == "refused"));
    assert_eq!(resolve_source_reply("u", fb.clone(), SourceReply::Success(Ok(Value::from(1)))).ok(), Some(Value::from(1)));
    assert!(matches!(resolve_source_reply("u", fb.clone(), SourceReply::Success(Err("bad json".to_string()))), Err(Error::InternalServerError(m)) if m == "bad json"));
    assert_eq!(resolve_source_reply("u", fb.clone(), SourceReply::Status("404 Not Found".to_string())).ok(), fb);
    assert!(matches!(resolve_source_reply("http://x", None, SourceReply::Status("404 Not Found".to_string())), Err(Error::InternalServerError(m)) if m == "Recieved bad response from source: (http://x)\nError code 404 Not Found"));
}

#[test]
fn responses_and_paths() {
    assert_eq!(request_path("api/items"), "/api/items");
    assert_eq!(request_path(""), "/");
    assert!(matches!(destination_response(Some("  [1,2]\n"), "[[1,2]]".to_string()), Response::JsonString(j) if j == "[1,2]"));
    assert!(matches!(destination_response(None, "[[1,2]]".to_string()), Response::JsonString(j) if j == "[[1,2]]"));
}

#[test]
fn bind_addresses() {
    let b = Bindings { address: [127, 0, 0, 1], port: 8080, path: "/api".to_string() };
    assert_eq!(b.full_address(), "127.0.0.1:8080");
    let b = Bindings { address: [255, 255, 10, 0], port: 0, path: String::new() };
    assert_eq!(b.full_address(), "255.255.10.0:0");
    assert!(Bindings::accepts_address("127.0.0.1"));
    assert!(Bindings::accepts_address("0.0.0.0"));
    assert!(!Bindings::accepts_address("256.0.0.1"));
    assert!(!Bindings::accepts_address("1.2.3"));
    assert!(!Bindings::accepts_address("localhost"));
}

#[test]
fn addresses_are_read_as_dotted_decimal_octets() {
    assert_eq!(Bindings::parse_address("127.0.0.1"), Some([127, 0, 0, 1]));
    assert_eq!(Bindings::parse_address("0.0.0.0"), Some([0, 0, 0, 0]));
    assert_eq!(Bindings::parse_address("255.255.10.0"), Some([255, 255, 10, 0]));
    for text in ["256.0.0.1", "1.2.3", "1.2.3.4.5", "01.2.3.4", "1..3.4", "1.2.3.4.", ".1.2.3.4", "1.2.3.-4", "+1.2.3.4", " 1.2.3.4", "a.b.c.d", "", "1.2.3.1000"] {
        assert_eq!(Bindings::parse_address(text), None, "{:?}", text);
    }
}

#[test]
fn ports_are_read_as_u16_from_str_reads_them() {
    for text in ["8080", "+80", "0", "65535", "65536", "", "+", "-1", "-0", "8o", " 80", "080", "99999999999", "++1", "\u{661}"] {
        assert_eq!(Bindings::parse_port(text), text.parse::<u16>().ok(), "{:?}", text);
    }
}

#[test]
fn replies_are_collected_in_source_order() {
    let docs = collect_replies(vec![Ok(Value::from(1)), Ok(Value::from("two")), Ok(Value::Null)]).ok().unwrap();
    assert_eq!(docs, vec![Value::from(1), Value::from("two"), Value::Null]);
    assert_eq!(collect_replies(Vec::new()).ok(), Some(Vec::new()));
}

#[test]
fn the_first_failed_source_ends_the_collection() {
    let replies = vec![
        Ok(Value::from(1)),
        Err(Error::BadRequest("first".to_string())),
        Err(Error::InternalServerError("second".to_string())),
        Ok(Value::from(2)),
    ];
    assert!(matches!(collect_replies(replies), Err(Error::BadRequest(m)) if m == "first"));
}

#[test]
fn tokens_are_looked_up_by_the_digest_of_their_text() {
    let header = "Bearer 0123456789abcdefABCDEF_012345678";
    let key: String = lookup_key(Some(header)).ok().unwrap().iter().map(|b| format!("{:02x}", b)).collect();
    assert_eq!(key, "a934176525a989810cdedfce8e5bb337eec696f80ec9951f2decb33c87f0023e");
    assert!(matches!(lookup_key(None), Err(Error::Unauthorized(()))));
    assert!(matches!(lookup_key(Some("Bearer short")), Err(Error::Unauthorized(()))));
}
