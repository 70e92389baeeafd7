use host_router::request::{InboundRequest, MissingHostError};

fn request(forwarded_host: Option<&str>, host: Option<&str>) -> InboundRequest {
    InboundRequest {
        forwarded_host: forwarded_host.map(|s| s.to_string()),
        host: host.map(|s| s.to_string()),
        path: "/".to_string(),
        query: None,
        scheme: "http".to_string(),
    }
}

#[test]
fn forwarded_host_takes_precedence() {
    assert_eq!(request(Some("f.com"), Some("h.com")).effective_host(), Ok("f.com"));
    assert_eq!(request(Some("f.com"), None).effective_host(), Ok("f.com"));
}

#[test]
fn host_header_is_the_fallback() {
    assert_eq!(request(None, Some("h.com")).effective_host(), Ok("h.com"));
}

#[test]
fn empty_forwarded_host_does_not_count() {
    assert_eq!(request(Some(""), Some("h.com")).effective_host(), Ok("h.com"));
    assert_eq!(request(Some(""), None).effective_host(), Err(MissingHostError));
}

#[test]
fn empty_host_header_is_still_a_host() {
    assert_eq!(request(None, Some("")).effective_host(), Ok(""));
}

#[test]
fn no_header_no_host() {
    assert_eq!(request(None, None).effective_host(), Err(MissingHostError));
}

#[test]
fn full_path_without_query_is_the_path() {
    let mut r = request(None, Some("h.com"));
    r.path = "/foo/bar".to_string();
    assert_eq!(r.full_path(), "/foo/bar");
}

#[test]
fn full_path_appends_the_query() {
    let mut r = request(None, Some("h.com"));
    r.path = "/foo/bar".to_string();
    r.query = Some("x=1&y=2".to_string());
    assert_eq!(r.full_path(), "/foo/bar?x=1&y=2");
}

#[test]
fn full_path_keeps_an_empty_query() {
    let mut r = request(None, Some("h.com"));
    r.path = "/foo".to_string();
    r.query = Some(String::new());
    assert_eq!(r.full_path(), "/foo?");
}
