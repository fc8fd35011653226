use threadline::errors::ProxyError;
use threadline::proxy::{
    forward_outcome, forward_request, method_from_uppercase, parse_method, plan_forward,
    worker_url, HttpMethod, JSON_CONTENT_TYPE, WORKER_BASE_URL,
};

#[test]
fn patch_is_refused() {
    match plan_forward("PATCH", "/x", None) {
        Err(ProxyError::UnsupportedMethod(method)) => assert_eq!(method, "PATCH"),
        other => panic!("expected a refusal, got {:?}", other),
    }
}

#[test]
fn refusal_names_the_method_as_written() {
    let refused = plan_forward("pAtCh", "/x", Some("{}".to_string())).unwrap_err();
    assert_eq!(refused, ProxyError::UnsupportedMethod("pAtCh".to_string()));
    assert_eq!(refused.message(), "Unsupported method: pAtCh");
}

#[test]
fn empty_method_is_refused() {
    assert_eq!(
        plan_forward("", "/", None).unwrap_err(),
        ProxyError::UnsupportedMethod(String::new())
    );
}

#[test]
fn the_four_methods_are_planned() {
    assert_eq!(plan_forward("GET", "/a", None).unwrap().method, HttpMethod::Get);
    assert_eq!(plan_forward("POST", "/a", None).unwrap().method, HttpMethod::Post);
    assert_eq!(plan_forward("PUT", "/a", None).unwrap().method, HttpMethod::Put);
    assert_eq!(
        plan_forward("DELETE", "/a", None).unwrap().method,
        HttpMethod::Delete
    );
}

#[test]
fn letter_case_of_the_method_is_ignored() {
    assert_eq!(parse_method("get"), Some(HttpMethod::Get));
    assert_eq!(parse_method("Post"), Some(HttpMethod::Post));
    assert_eq!(parse_method("pUt"), Some(HttpMethod::Put));
    assert_eq!(parse_method("delete"), Some(HttpMethod::Delete));
    assert_eq!(parse_method("gets"), None);
    assert_eq!(parse_method(" GET"), None);
}

#[test]
fn upper_case_names_are_matched_exactly() {
    assert_eq!(method_from_uppercase("GET"), Some(HttpMethod::Get));
    assert_eq!(method_from_uppercase("POST"), Some(HttpMethod::Post));
    assert_eq!(method_from_uppercase("PUT"), Some(HttpMethod::Put));
    assert_eq!(method_from_uppercase("DELETE"), Some(HttpMethod::Delete));
    assert_eq!(method_from_uppercase("get"), None);
    assert_eq!(method_from_uppercase("PATCH"), None);
    assert_eq!(method_from_uppercase(""), None);
}

#[test]
fn path_is_appended_verbatim() {
    assert_eq!(WORKER_BASE_URL, "http://127.0.0.1:3000");
    assert_eq!(worker_url("/jobs?id=1&x=a b"), "http://127.0.0.1:3000/jobs?id=1&x=a b");
    assert_eq!(worker_url(""), "http://127.0.0.1:3000");
    assert_eq!(worker_url("no-slash"), "http://127.0.0.1:3000no-slash");
}

#[test]
fn body_travels_with_the_json_content_type() {
    let request = plan_forward("post", "/jobs", Some("not json at all".to_string())).unwrap();
    assert_eq!(request.method, HttpMethod::Post);
    assert_eq!(request.url, "http://127.0.0.1:3000/jobs");
    assert_eq!(request.body.as_deref(), Some("not json at all"));
    assert_eq!(request.content_type.as_deref(), Some("application/json"));
    assert_eq!(JSON_CONTENT_TYPE, "application/json");
}

#[test]
fn no_body_means_no_content_type() {
    let request = plan_forward("GET", "/status", None).unwrap();
    assert_eq!(request.body, None);
    assert_eq!(request.content_type, None);
    let direct = forward_request(HttpMethod::Delete, "/jobs/1", None);
    assert_eq!(direct.method, HttpMethod::Delete);
    assert_eq!(direct.url, "http://127.0.0.1:3000/jobs/1");
    assert_eq!(direct.content_type, None);
}

#[test]
fn response_text_is_handed_back_verbatim() {
    assert_eq!(
        forward_outcome(Ok("{\"ok\":true}\n".to_string())),
        Ok("{\"ok\":true}\n".to_string())
    );
}

#[test]
fn transport_failure_keeps_its_cause() {
    let outcome = forward_outcome(Err("connection refused".to_string()));
    assert_eq!(
        outcome,
        Err(ProxyError::Transport("connection refused".to_string()))
    );
    assert_eq!(outcome.unwrap_err().message(), "connection refused");
}

#[test]
fn upper_casing_is_the_unicode_one() {
    assert_eq!(parse_method("po\u{17f}t"), Some(HttpMethod::Post));
    assert_eq!(parse_method("g\u{eb}t"), None);
}
