use sn0int_registry::client::{publish_body, Client, Header, Method, SESSION_TOKEN_LEN};
use sn0int_registry::error::ApiError;
use sn0int_registry::json::find_member;
use sn0int_registry::reply::{
    decode_envelope, decode_record, decode_whoami, download_reply, publish_reply, query_reply,
    receive, verify_session_reply,
};

fn header(name: &str, value: &str) -> Header {
    Header { name: name.to_string(), value: value.to_string() }
}

fn json_ct() -> Header {
    header("Content-Type", "application/json; charset=utf-8")
}

#[test]
fn urls_are_base_and_template() {
    let c = Client::new("http://x".to_string());
    assert_eq!(c.download_url("foo", "1.0"), "http://x/api/v0/dl/foo/1.0");
    assert_eq!(c.whoami_url(), "http://x/api/v0/whoami");
    assert_eq!(c.publish_url("mod"), "http://x/api/v0/publish/mod");
    assert_eq!(c.info_url("foo"), "http://x/api/v0/info/foo");
}

#[test]
fn operation_requests_use_the_templates() {
    let c = Client::new("http://x".to_string());
    let r = c.download_request("foo", "1.0").unwrap();
    assert_eq!(r.method, Method::Get);
    assert_eq!(r.url, "http://x/api/v0/dl/foo/1.0");
    assert!(r.headers.is_empty());
    assert_eq!(r.body, "");
    let r = c.query_request("foo").unwrap();
    assert_eq!(r.url, "http://x/api/v0/info/foo");
    let r = c.verify_session_request().unwrap();
    assert_eq!(r.url, "http://x/api/v0/whoami");
    assert_eq!(r.method, Method::Get);
}

#[test]
fn publish_request_posts_json_code() {
    let c = Client::new("http://x".to_string());
    let r = c.publish_request("kpcyrd/ctlogs", "x = 1").unwrap();
    assert_eq!(r.method, Method::Post);
    assert_eq!(r.url, "http://x/api/v0/publish/kpcyrd/ctlogs");
    assert_eq!(r.body, "{\"code\":\"x = 1\"}");
    assert_eq!(r.headers, vec![json_ct()]);
}

#[test]
fn publish_body_escapes_the_code() {
    assert_eq!(publish_body("a\"b\nc"), "{\"code\":\"a\\\"b\\nc\"}");
    assert_eq!(publish_body(""), "{\"code\":\"\"}");
}

#[test]
fn authenticated_requests_carry_the_token() {
    let mut c = Client::new("http://x".to_string());
    c.authenticate("abc123".to_string());
    let r = c.verify_session_request().unwrap();
    assert_eq!(r.headers, vec![header("Auth", "abc123")]);
    let r = c.publish_request("m", "code").unwrap();
    assert_eq!(r.headers, vec![header("Auth", "abc123"), json_ct()]);
    c.authenticate("def".to_string());
    let r = c.query_request("m").unwrap();
    assert_eq!(r.headers, vec![header("Auth", "def")]);
}

#[test]
fn unauthenticated_requests_carry_no_token() {
    let c = Client::new("http://x".to_string());
    for r in [
        c.verify_session_request().unwrap(),
        c.publish_request("m", "code").unwrap(),
        c.download_request("m", "1").unwrap(),
        c.query_request("m").unwrap(),
    ] {
        assert!(r.headers.iter().all(|h| h.name != "Auth"));
    }
}

#[test]
fn token_that_is_no_header_value_fails_the_build() {
    let mut c = Client::new("http://x".to_string());
    c.authenticate("abc\n123".to_string());
    assert_eq!(c.verify_session_request(), Err(ApiError::RequestBuild));
}

#[test]
fn request_adds_content_type_only_with_a_body() {
    let c = Client::new("http://x".to_string());
    let r = c.request(Method::Post, "http://x/y".to_string(), String::new()).unwrap();
    assert!(r.headers.is_empty());
    let r = c.request(Method::Post, "http://x/y".to_string(), "{}".to_string()).unwrap();
    assert_eq!(r.headers, vec![json_ct()]);
    assert_eq!(r.body, "{}");
}

#[test]
fn get_and_post_reject_bad_urls() {
    let c = Client::new("http://x".to_string());
    assert_eq!(c.get("http://exa mple.com/"), Err(ApiError::InvalidUrl));
    assert_eq!(c.post("http://exa mple.com/", "{}".to_string()), Err(ApiError::InvalidUrl));
    let bad = Client::new("http://exa mple.com".to_string());
    assert_eq!(bad.verify_session_request(), Err(ApiError::InvalidUrl));
    let r = c.get("http://x/api").unwrap();
    assert_eq!(r.method, Method::Get);
    assert_eq!(r.url, "http://x/api");
}

#[test]
fn whoami_success_decodes_the_user() {
    let body = br#"{"success": true, "data": {"user": "alice"}}"#.to_vec();
    assert_eq!(verify_session_reply(Ok(body)), Ok("alice".to_string()));
    let w = decode_whoami(br#"{"user": "bob"}"#).unwrap();
    assert_eq!(w.user, "bob");
}

#[test]
fn error_envelope_is_an_application_error_for_every_result() {
    let body = br#"{"success": false, "message": "bad session"}"#.to_vec();
    let e = ApiError::Application("bad session".to_string());
    assert_eq!(verify_session_reply(Ok(body.clone())), Err(e.clone()));
    assert_eq!(publish_reply(Ok(body.clone())), Err(e.clone()));
    assert_eq!(download_reply(Ok(body.clone())), Err(e.clone()));
    assert_eq!(query_reply(Ok(body.clone())), Err(e.clone()));
    assert_eq!(decode_envelope(&body), Err(e));
}

#[test]
fn error_message_is_unescaped() {
    let body = br#"{"success": false, "message": "no \"foo\""}"#;
    assert_eq!(decode_envelope(body), Err(ApiError::Application("no \"foo\"".to_string())));
}

#[test]
fn malformed_json_is_a_decode_error() {
    let body = br#"{"success": true, "data": {"us"#.to_vec();
    assert_eq!(decode_envelope(&body), Err(ApiError::Decode));
    assert_eq!(verify_session_reply(Ok(body.clone())), Err(ApiError::Decode));
    assert_eq!(publish_reply(Ok(body.clone())), Err(ApiError::Decode));
    assert_eq!(download_reply(Ok(body.clone())), Err(ApiError::Decode));
    assert_eq!(query_reply(Ok(body)), Err(ApiError::Decode));
    assert_eq!(decode_envelope(b""), Err(ApiError::Decode));
    assert_eq!(decode_envelope(b"[1, 2]"), Err(ApiError::Decode));
}

#[test]
fn envelope_shape_mismatches_are_decode_errors() {
    assert_eq!(decode_envelope(br#"{"data": {}}"#), Err(ApiError::Decode));
    assert_eq!(decode_envelope(br#"{"success": "yes", "data": {}}"#), Err(ApiError::Decode));
    assert_eq!(decode_envelope(br#"{"success": true}"#), Err(ApiError::Decode));
    assert_eq!(decode_envelope(br#"{"success": false}"#), Err(ApiError::Decode));
    assert_eq!(decode_envelope(br#"{"success": false, "message": 3}"#), Err(ApiError::Decode));
}

#[test]
fn payload_of_the_wrong_shape_is_a_decode_error() {
    let body = br#"{"success": true, "data": {"name": "alice"}}"#.to_vec();
    assert_eq!(verify_session_reply(Ok(body)), Err(ApiError::Decode));
    let body = br#"{"success": true, "data": {"user": 7}}"#.to_vec();
    assert_eq!(verify_session_reply(Ok(body)), Err(ApiError::Decode));
    let body = br#"{"success": true, "data": "text"}"#.to_vec();
    assert_eq!(download_reply(Ok(body)), Err(ApiError::Decode));
    assert_eq!(decode_record(b"[1]".to_vec()), Err(ApiError::Decode));
}

#[test]
fn success_envelope_passes_records_through() {
    let body = br#"{"success": true, "data": {"author": "a", "name": "b", "version": "0.1.0"}}"#.to_vec();
    let expected = br#"{"author": "a", "name": "b", "version": "0.1.0"}"#.to_vec();
    assert_eq!(publish_reply(Ok(body.clone())).unwrap().json, expected);
    assert_eq!(download_reply(Ok(body.clone())).unwrap().json, expected);
    assert_eq!(query_reply(Ok(body.clone())).unwrap().json, expected);
    assert_eq!(decode_envelope(&body).unwrap(), expected);
    assert_eq!(receive(Ok(body)).unwrap(), expected);
}

#[test]
fn transport_failure_is_a_transport_error_for_every_operation() {
    let e = "connection refused".to_string();
    let t = ApiError::Transport(e.clone());
    assert_eq!(verify_session_reply(Err(e.clone())), Err(t.clone()));
    assert_eq!(publish_reply(Err(e.clone())), Err(t.clone()));
    assert_eq!(download_reply(Err(e.clone())), Err(t.clone()));
    assert_eq!(query_reply(Err(e.clone())), Err(t.clone()));
    assert_eq!(receive(Err(e)), Err(t));
}

#[test]
fn random_sessions_are_alphanumeric_tokens() {
    let a = Client::random_session();
    let b = Client::random_session();
    for s in [&a, &b] {
        assert_eq!(s.len(), SESSION_TOKEN_LEN);
        assert_eq!(s.chars().count(), 32);
        assert!(s.chars().all(|c| c.is_ascii_alphanumeric()));
    }
}

#[test]
fn find_member_locates_keys() {
    let m = vec![
        ("b".to_string(), b"[1, 2]".to_vec()),
        ("a".to_string(), b"\"x\"".to_vec()),
    ];
    assert_eq!(find_member(&m, "b"), Some(0));
    assert_eq!(find_member(&m, "a"), Some(1));
    assert_eq!(find_member(&m, "c"), None);
    assert_eq!(find_member(&Vec::new(), "a"), None);
}
