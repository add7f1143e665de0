use deadmock::response::{
    connector_for, error_response, not_found_response, response_plan, starts_with,
    static_response, upstream_response,
};
use deadmock::{BodyCache, Connector, Header, Plan, Proxy, Response, Upstream};

fn body_response(name: &str) -> Response {
    let mut cfg = Response::default();
    cfg.body_file_name = Some(name.to_string());
    cfg
}

#[test]
fn no_match_is_404_with_json_message() {
    let r = not_found_response();
    assert_eq!(r.status, 404);
    assert_eq!(r.body, r#"{"message":"No mapping found"}"#);
    assert_eq!(r.headers.len(), 1);
    assert_eq!(r.headers[0].key, "content-type");
    assert_eq!(r.headers[0].value, "application/json");
}

#[test]
fn error_message_is_escaped() {
    let r = error_response("say \"hi\"", 500);
    assert_eq!(r.status, 500);
    assert_eq!(r.body, r#"{"message":"say \"hi\""}"#);
}

#[test]
fn missing_body_file() {
    let r = static_response(&body_response("missing.json"), None);
    assert_eq!(r.status, 200);
    assert_eq!(r.body, "Body file not found!");
}

#[test]
fn body_from_file() {
    let mut cfg = body_response("test.json");
    cfg.status = Some(201);
    cfg.headers = Some(vec![Header::new("Content-Type", "application/json")]);
    let r = static_response(&cfg, Some("{\"a\":1}".to_string()));
    assert_eq!(r.status, 201);
    assert_eq!(r.body, "{\"a\":1}");
    assert_eq!(r.headers.len(), 1);
    assert_eq!(r.headers[0].key, "content-type");
    assert_eq!(r.headers[0].value, "application/json");
}

#[test]
fn no_body_file_configured() {
    let r = static_response(&Response::default(), None);
    assert_eq!(r.status, 200);
    assert_eq!(r.body, "Unable to process body");
    assert!(r.headers.is_empty());
}

#[test]
fn invalid_status_gives_json_error() {
    let mut cfg = body_response("x.json");
    cfg.status = Some(700);
    let r = static_response(&cfg, Some("body".to_string()));
    assert_eq!(r.status, 500);
    assert_eq!(r.body, r#"{"message":"invalid status code"}"#);
    assert_eq!(r.headers.len(), 1);
    assert_eq!(r.headers[0].value, "application/json");
    cfg.status = Some(599);
    let r = static_response(&cfg, Some("body".to_string()));
    assert_eq!(r.status, 599);
    assert_eq!(r.body, "body");
    cfg.status = Some(99);
    assert_eq!(static_response(&cfg, None).status, 500);
}

#[test]
fn invalid_header_gives_json_error() {
    let mut cfg = Response::default();
    cfg.headers = Some(vec![Header::new("Bad Name", "x")]);
    let r = static_response(&cfg, None);
    assert_eq!(r.status, 500);
    assert_eq!(r.body, r#"{"message":"invalid HTTP header name"}"#);

    cfg.headers = Some(vec![Header::new("X-Ok", "fine"), Header::new("X-Bad", "a\nb")]);
    let r = static_response(&cfg, None);
    assert_eq!(r.status, 500);
    assert_eq!(r.body, r#"{"message":"failed to parse header value"}"#);
}

#[test]
fn body_cache_keeps_first_contents() {
    let mut cache = BodyCache::new();
    assert!(cache.cached("a.json").is_none());
    assert_eq!(cache.resolve("a.json", None), None);
    assert!(cache.cached("a.json").is_none());
    assert_eq!(cache.resolve("a.json", Some("one".to_string())), Some("one".to_string()));
    assert_eq!(cache.resolve("a.json", Some("two".to_string())), Some("one".to_string()));
    assert_eq!(cache.cached("a.json"), Some("one".to_string()));
    assert_eq!(cache.resolve("a.json", None), Some("one".to_string()));
}

#[test]
fn plan_for_proxy() {
    let mut cfg = Response::default();
    cfg.proxy_base_url = Some("http://upstream.test".to_string());
    cfg.additional_proxy_request_headers = Some(vec![Header::new("Authorization", "Basic abc")]);
    match response_plan(&cfg, "/a/b?c=d", &BodyCache::new()) {
        Plan::Fetch { url, headers } => {
            assert_eq!(url, "http://upstream.test/a/b?c=d");
            assert_eq!(headers.len(), 1);
            assert_eq!(headers[0].key, "Authorization");
        }
        other => panic!("unexpected plan {:?}", other),
    }
}

#[test]
fn plan_for_static() {
    let mut cache = BodyCache::new();
    let cfg = body_response("b.json");
    match response_plan(&cfg, "/", &cache) {
        Plan::Load { file_name } => assert_eq!(file_name, "b.json"),
        other => panic!("unexpected plan {:?}", other),
    }
    let _ = cache.resolve("b.json", Some("contents".to_string()));
    match response_plan(&cfg, "/", &cache) {
        Plan::Build { file_body } => assert_eq!(file_body, Some("contents".to_string())),
        other => panic!("unexpected plan {:?}", other),
    }
    match response_plan(&Response::default(), "/", &cache) {
        Plan::Build { file_body } => assert!(file_body.is_none()),
        other => panic!("unexpected plan {:?}", other),
    }
}

#[test]
fn connectors() {
    let direct = Proxy::default();
    assert!(matches!(connector_for(&direct, "https://x.test/"), Connector::Tls));
    assert!(matches!(connector_for(&direct, "http://x.test/"), Connector::Plain));
    let proxy = Proxy::from_options(
        true,
        Some("http://proxy.test".to_string()),
        Some("user".to_string()),
        Some("pass".to_string()),
    )
    .unwrap();
    match connector_for(&proxy, "https://x.test/") {
        Connector::Forward { proxy_url, credentials } => {
            assert_eq!(proxy_url, "http://proxy.test");
            assert_eq!(credentials, Some(("user".to_string(), "pass".to_string())));
        }
        other => panic!("unexpected connector {:?}", other),
    }
    let no_creds = Proxy::from_options(true, Some("http://p".to_string()), Some("u".to_string()), None)
        .unwrap();
    match connector_for(&no_creds, "http://x") {
        Connector::Forward { credentials, .. } => assert!(credentials.is_none()),
        other => panic!("unexpected connector {:?}", other),
    }
    assert!(starts_with("https://a", "https"));
    assert!(!starts_with("http", "https"));
}

#[test]
fn upstream_bodies() {
    let r = upstream_response(Upstream::Body(vec![b'h', b'i', 0xff]));
    assert_eq!(r.status, 200);
    assert_eq!(r.body, "hi\u{fffd}");
    assert_eq!(
        upstream_response(Upstream::ReadFailed).body,
        "Unable to process upstream response!"
    );
    assert_eq!(
        upstream_response(Upstream::RequestFailed("timed out".to_string())).body,
        "Unable to process upstream response! timed out"
    );
}

fn store_with_body_file(file: &str) -> deadmock::Mappings {
    let mut m = deadmock::Mapping::default();
    m.name = "Exact Match - URL".to_string();
    m.priority = 1;
    m.request.url = Some("/plaintext".to_string());
    m.response.body_file_name = Some(file.to_string());
    let mut store = deadmock::Mappings::new();
    assert!(store.add(m).is_ok());
    store
}

fn get(path: &str) -> deadmock::HttpRequest {
    deadmock::HttpRequest {
        method: "GET".to_string(),
        path: path.to_string(),
        uri: path.to_string(),
        headers: vec![],
    }
}

#[test]
fn unmatched_request_gets_404() {
    let store = store_with_body_file("plain.txt");
    let mut matcher = deadmock::Matcher::new(deadmock::Enabled::exact());
    let cache = BodyCache::new();
    match deadmock::response::respond(&mut matcher, &get("/nothing-here"), &store, &cache) {
        deadmock::Step::Reply(r) => {
            assert_eq!(r.status, 404);
            assert_eq!(r.body, r#"{"message":"No mapping found"}"#);
        }
        other => panic!("unexpected step {:?}", other),
    }
}

#[test]
fn matched_request_with_missing_body_file() {
    let store = store_with_body_file("does-not-exist.txt");
    let mut matcher = deadmock::Matcher::new(deadmock::Enabled::exact());
    let mut cache = BodyCache::new();
    match deadmock::response::respond(&mut matcher, &get("/plaintext"), &store, &cache) {
        deadmock::Step::Proceed(mapping, Plan::Load { file_name }) => {
            assert_eq!(file_name, "does-not-exist.txt");
            let body = cache.resolve(&file_name, None);
            let r = static_response(&mapping.response, body);
            assert_eq!(r.body, "Body file not found!");
        }
        other => panic!("unexpected step {:?}", other),
    }
}

#[test]
fn error_message_escapes_control_characters() {
    let r = error_response("a\u{1}\n\t\\\u{7f}", 400);
    assert_eq!(r.status, 400);
    assert_eq!(r.body, "{\"message\":\"a\\u0001\\n\\t\\\\\u{7f}\"}");
}

#[test]
fn overlong_header_name_is_refused() {
    let mut cfg = Response::default();
    cfg.headers = Some(vec![Header::new(&"x".repeat(16384), "v")]);
    let r = static_response(&cfg, None);
    assert_eq!(r.status, 500);
    assert_eq!(r.body, r#"{"message":"invalid HTTP header name"}"#);
    cfg.headers = Some(vec![Header::new(&"X".repeat(100), "v")]);
    let r = static_response(&cfg, None);
    assert_eq!(r.status, 200);
    assert_eq!(r.headers[0].key, "x".repeat(100));
}
