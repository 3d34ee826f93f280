use cobridge::client::{batch_input, trpc_path, trpc_single_path, CohostApi, TrpcInput, UPSTREAM_AUTHORITY};
use cobridge::error::{json_error, ClientError};
use cobridge::json::Json;
use cobridge::loader::loader_state_text;
use cobridge::text::{decimal_string, join, same_text, signed_decimal_string, split_once};
use cobridge::types::ProfilePostsInput;

#[test]
fn profile_posts_request_path() {
    let input = ProfilePostsInput::first_page("alice");
    assert_eq!(
        trpc_single_path(&input),
        "/api/v1/trpc/posts.profilePosts?batch=1&input=%7B%220%22%3A%7B%22projectHandle%22%3A%22alice%22%2C%22page%22%3A0%2C%22options%22%3A%7B%22hideReplies%22%3Afalse%2C%22hideShares%22%3Afalse%7D%7D%7D"
    );
    assert_eq!(UPSTREAM_AUTHORITY, "cohost.org");
}

#[test]
fn input_json_escapes_the_handle() {
    let mut input = ProfilePostsInput::first_page("é\"x");
    input.page = 7;
    input.options.hide_replies = true;
    assert_eq!(
        input.to_json(),
        "{\"projectHandle\":\"é\\\"x\",\"page\":7,\"options\":{\"hideReplies\":true,\"hideShares\":false}}"
    );
    assert_eq!(
        trpc_single_path(&input),
        "/api/v1/trpc/posts.profilePosts?batch=1&input=%7B%220%22%3A%7B%22projectHandle%22%3A%22%C3%A9%5C%22x%22%2C%22page%22%3A7%2C%22options%22%3A%7B%22hideReplies%22%3Atrue%2C%22hideShares%22%3Afalse%7D%7D%7D"
    );
    assert_eq!(ProfilePostsInput::query_name(), "posts.profilePosts");
}

#[test]
fn control_characters_are_escaped() {
    let input = ProfilePostsInput::first_page("a\n\u{1}\\b");
    assert!(input.to_json().starts_with("{\"projectHandle\":\"a\\n\\u0001\\\\b\","));
}

#[test]
fn batched_path_joins_queries() {
    let queries = vec!["a.one".to_string(), "b.two".to_string()];
    assert_eq!(trpc_path(&queries, false, "x y~"), "/api/v1/trpc/a.one,b.two?batch=0&input=x%20y~");
}

#[test]
fn batch_input_keys_by_position() {
    let inputs = vec!["1".to_string(), "{}".to_string(), "null".to_string()];
    assert_eq!(batch_input(&inputs), "{\"0\":1,\"1\":{},\"2\":null}");
    assert_eq!(batch_input(&vec![]), "{}");
}

#[test]
fn headers_without_credential() {
    let api = CohostApi::new("1.2.3");
    assert_eq!(api.user_agent, "cobridge/1.2.3");
    assert_eq!(
        api.request_headers(false),
        vec![("user-agent".to_string(), "cobridge/1.2.3".to_string())]
    );
}

#[test]
fn headers_with_credential_and_html() {
    let api = CohostApi::new("0.1.0").with_token("SECRET-REDACTED".to_string());
    assert_eq!(
        api.request_headers(true),
        vec![
            ("user-agent".to_string(), "cobridge/0.1.0".to_string()),
            ("cookie".to_string(), "Cookie: connect.sid=SECRET-REDACTED".to_string()),
            ("accept".to_string(), "text/html".to_string()),
        ]
    );
}

#[test]
fn loader_state_text_is_found() {
    let html = "<html><head></head><body><script id=\"__COHOST_LOADER_STATE__\" type=\"application/json\">{\"a\":1}</script></body></html>";
    assert_eq!(loader_state_text(html).unwrap(), "{\"a\":1}");
}

#[test]
fn loader_state_text_missing_element() {
    match loader_state_text("<html><body><p>nothing</p></body></html>") {
        Err(ClientError::NotFound(m)) => assert_eq!(m, "no __COHOST_LOADER_STATE__ element"),
        other => panic!("expected a missing element, got {:?}", other),
    }
}

#[test]
fn error_body_is_json() {
    assert_eq!(json_error("bad \"thing\""), "{\"error\":\"bad \\\"thing\\\"\"}");
}

#[test]
fn decimal_rendering() {
    assert_eq!(decimal_string(0), "0");
    assert_eq!(decimal_string(305), "305");
    assert_eq!(decimal_string(u64::MAX), "18446744073709551615");
    assert_eq!(signed_decimal_string(-1), "-1");
    assert_eq!(signed_decimal_string(i64::MIN), "-9223372036854775808");
    assert_eq!(signed_decimal_string(12), "12");
}

#[test]
fn text_helpers() {
    assert_eq!(join(&vec!["a".to_string(), "b".to_string(), "c".to_string()], ", "), "a, b, c");
    assert_eq!(join(&vec![], ","), "");
    assert_eq!(split_once("k=v=w", '='), Some(("k".to_string(), "v=w".to_string())));
    assert_eq!(split_once("kv", '='), None);
    assert!(same_text("ä", "ä"));
    assert!(!same_text("a", "A"));
}

#[test]
fn json_member_access() {
    let mut j = Json::Object(vec![
        ("a".to_string(), Json::Int(1)),
        ("b".to_string(), Json::Str("x".to_string())),
        ("a".to_string(), Json::Int(2)),
    ]);
    assert!(matches!(j.get("a"), Some(Json::Int(1))));
    assert_eq!(j.get_text("b"), Some("x".to_string()));
    assert_eq!(j.get_optional_text("missing"), Some(None));
    assert_eq!(j.get_optional_text("a"), None);
    assert_eq!(j.get_int_in("a", 0, 0), None);
    assert_eq!(j.get_bool("b"), None);
    assert!(matches!(j.take("a"), Some(Json::Int(1))));
    assert!(matches!(j.get("a"), Some(Json::Int(2))));
}
