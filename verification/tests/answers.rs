use api_clients::answer::{accept, is_success, Failure};
use api_clients::request::{Method, Request};
use api_clients::text::str_eq;

#[test]
fn statuses_from_200_to_299_are_successes() {
    assert!(is_success(200));
    assert!(is_success(201));
    assert!(is_success(204));
    assert!(is_success(299));
}

#[test]
fn other_statuses_are_not_successes() {
    for status in [0u16, 100, 199, 300, 301, 400, 401, 404, 429, 500, 503, u16::MAX] {
        assert!(!is_success(status), "{}", status);
    }
}

#[test]
fn is_success_on_every_status() {
    for status in 0..=u16::MAX {
        assert_eq!(is_success(status), (200..300).contains(&status), "{}", status);
    }
}

#[test]
fn a_success_hands_the_body_on() {
    match accept(200, b"{\"id\":\"7\"}".to_vec()) {
        Ok(body) => assert_eq!(body, b"{\"id\":\"7\"}".to_vec()),
        Err(failure) => panic!("{:?}", failure),
    }
    match accept(204, Vec::new()) {
        Ok(body) => assert!(body.is_empty()),
        Err(failure) => panic!("{:?}", failure),
    }
}

#[test]
fn a_failure_keeps_the_status_and_what_the_server_said() {
    match accept(404, b"{\"error\":{\"message\":\"no such user\"}}".to_vec()) {
        Err(Failure::Status { code, payload }) => {
            assert_eq!(code, 404);
            assert_eq!(payload, b"{\"error\":{\"message\":\"no such user\"}}".to_vec());
        }
        other => panic!("{:?}", other),
    }
}

#[test]
fn a_failure_without_a_body_keeps_the_status() {
    match accept(500, Vec::new()) {
        Err(Failure::Status { code, payload }) => {
            assert_eq!(code, 500);
            assert!(payload.is_empty());
        }
        other => panic!("{:?}", other),
    }
    assert!(matches!(accept(199, vec![1]), Err(Failure::Status { code: 199, .. })));
    assert!(matches!(accept(300, vec![1]), Err(Failure::Status { code: 300, .. })));
}

#[test]
fn request_new_has_no_body() {
    let request = Request::new(Method::Delete, "/v1/things/1".to_string());
    assert_eq!(request.method, Method::Delete);
    assert_eq!(request.url, "/v1/things/1");
    assert_eq!(request.body, None);
}

#[test]
fn request_with_body_keeps_the_body() {
    let request = Request::with_body(Method::Post, "/v1/things".to_string(), vec![123, 125]);
    assert_eq!(request.method, Method::Post);
    assert_eq!(request.url, "/v1/things");
    assert_eq!(request.body, Some(vec![123, 125]));
}

#[test]
fn str_eq_compares_the_characters() {
    assert!(str_eq("", ""));
    assert!(str_eq("abc", "abc"));
    assert!(str_eq("Grüße", "Grüße"));
    assert!(!str_eq("abc", "abd"));
    assert!(!str_eq("abc", "ab"));
    assert!(!str_eq("ab", "abc"));
    assert!(!str_eq("", "a"));
    assert!(!str_eq("ABC", "abc"));
    assert!(!str_eq("e\u{301}", "é"));
}
