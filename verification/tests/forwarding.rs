use llm_proxy::forward::{body_or_empty, build_target, plan_forward};
use llm_proxy::reply::{decide_reply, ProxyReply};
use llm_proxy::upstream::{default_upstream, resolve_upstream};

#[test]
fn default_upstream_when_env_unset() {
    assert_eq!(resolve_upstream(None), "http://localhost:11435");
    assert_eq!(default_upstream(), "http://localhost:11435");
}

#[test]
fn env_override_wins() {
    let r = resolve_upstream(Some("http://example-upstream:9999".to_string()));
    assert_eq!(r, "http://example-upstream:9999");
}

#[test]
fn target_appends_path_and_query_verbatim() {
    let t = build_target(
        "http://example-upstream:9999".to_string(),
        Some("/anything?x=1".to_string()),
    );
    assert_eq!(t, "http://example-upstream:9999/anything?x=1");
}

#[test]
fn target_keeps_duplicate_slashes() {
    let t = build_target("http://localhost:11435".to_string(), Some("//a//b?q=%20".to_string()));
    assert_eq!(t, "http://localhost:11435//a//b?q=%20");
}

#[test]
fn root_path_is_forwarded() {
    let t = build_target("http://localhost:11435".to_string(), Some("/".to_string()));
    assert_eq!(t, "http://localhost:11435/");
}

#[test]
fn missing_path_becomes_root() {
    let t = build_target("http://localhost:11435".to_string(), None);
    assert_eq!(t, "http://localhost:11435/");
}

#[test]
fn body_passes_through_unmodified() {
    let body = b"{\"a\":1}".to_vec();
    assert_eq!(body_or_empty(Some(body.clone())), body);
}

#[test]
fn failed_body_read_degrades_to_empty() {
    assert_eq!(body_or_empty(None), Vec::<u8>::new());
}

#[test]
fn plan_keeps_method_headers_and_body() {
    let headers = vec![
        ("content-type".to_string(), b"application/json".to_vec()),
        ("x-custom".to_string(), b"v".to_vec()),
    ];
    let p = plan_forward(
        "POST".to_string(),
        headers.clone(),
        Some("/anything?x=1".to_string()),
        Some("http://example-upstream:9999".to_string()),
        Some(b"{\"a\":1}".to_vec()),
    );
    assert_eq!(p.method, "POST");
    assert_eq!(p.headers, headers);
    assert_eq!(p.target, "http://example-upstream:9999/anything?x=1");
    assert_eq!(p.body, b"{\"a\":1}".to_vec());
}

#[test]
fn plan_uses_default_upstream_when_env_unset() {
    let p = plan_forward("GET".to_string(), Vec::new(), Some("/".to_string()), None, None);
    assert_eq!(p.target, "http://localhost:11435/");
    assert_eq!(p.body, Vec::<u8>::new());
}

#[test]
fn upstream_status_is_relayed_exactly() {
    for status in [200u16, 404, 500] {
        let r = decide_reply(Ok(status));
        assert_eq!(r.status(), status);
        assert!(matches!(r, ProxyReply::Relay { status: s } if s == status));
    }
}

#[test]
fn upstream_failure_becomes_bad_gateway() {
    let r = decide_reply(Err("connection refused".to_string()));
    assert_eq!(r.status(), 502);
    match r {
        ProxyReply::BadGateway { message } => {
            assert_eq!(message, "Proxy error: connection refused");
            assert!(!message.is_empty());
        }
        ProxyReply::Relay { .. } => panic!("a failed outbound call must not relay"),
    }
}
