use httptest::mappers::request::{body, headers, method, method_path, path, query};
use httptest::mappers::{contains, eq, Mapper, KV};
use httptest::request::Request;

fn get(uri: &str) -> Request {
    Request::new("GET", uri, vec![], vec![]).unwrap()
}

fn post(uri: &str) -> Request {
    Request::new("POST", uri, vec![], vec![]).unwrap()
}

#[test]
fn test_path() {
    let req = get("https://example.com/foo");
    assert!(path("/foo").map(&req));

    let req = get("https://example.com/foobar");
    assert!(path("/foobar").map(&req))
}

#[test]
fn test_query() {
    let req = get("https://example.com/path?foo=bar&baz=bat");
    assert!(query("foo=bar&baz=bat").map(&req));
    let req = get("https://example.com/path?search=1");
    assert!(query("search=1").map(&req));
}

#[test]
fn test_method() {
    let req = get("https://example.com/foo");
    assert!(method("GET").map(&req));
    let req = post("https://example.com/foobar");
    assert!(method("POST").map(&req));
}

#[test]
fn test_headers() {
    let expected = vec![
        KV::new("host", &b"example.com"[..]),
        KV::new("content-length", b"101"),
    ];
    let req = Request::new(
        "GET",
        "https://example.com/path?key%201=value%201&key2",
        vec![
            KV::new("host", b"example.com"),
            KV::new("content-length", b"101"),
        ],
        vec![],
    )
    .unwrap();

    assert!(headers(eq(expected)).map(&req));
}

#[test]
fn test_body() {
    let req = Request::new(
        "GET",
        "https://example.com/foo",
        vec![],
        b"my request body".to_vec(),
    )
    .unwrap();
    assert!(body("my request body").map(&req));
}

#[test]
fn test_method_path() {
    let req = get("https://example.com/foo");
    assert!(method_path("GET", "/foo").map(&req));
    assert!(!method_path("POST", "/foo").map(&req));
    assert!(!method_path("GET", "/").map(&req));

    let req = post("https://example.com/foobar");
    assert!(method_path("POST", "/foobar").map(&req));
    assert!(!method_path("GET", "/foobar").map(&req));
    assert!(!method_path("POST", "/").map(&req));
}

#[test]
fn uri_is_split_into_path_and_query() {
    let req = get("https://example.com/path?foo=bar");
    assert_eq!(req.path, "/path");
    assert_eq!(req.query.as_deref(), Some("foo=bar"));
    assert!(!path("https://example.com/path?foo=bar").map(&req));
}

#[test]
fn uri_that_does_not_parse_gives_none() {
    assert!(Request::new("GET", "http://exa mple.com/", vec![], vec![]).is_none());
}

#[test]
fn missing_query_is_empty_text() {
    let req = get("https://example.com/path");
    assert!(req.query.is_none());
    assert!(query("").map(&req));
    assert!(!query("a=1").map(&req));
}

#[test]
fn repeated_header_keys_are_all_kept() {
    let req = Request::new(
        "GET",
        "https://example.com/",
        vec![KV::new("x-a", b"1"), KV::new("x-a", b"2")],
        vec![],
    )
    .unwrap();
    assert_eq!(req.headers.len(), 2);
    assert!(headers(contains(KV::new("x-a", b"1"))).map(&req));
    assert!(headers(contains(KV::new("x-a", b"2"))).map(&req));
    assert!(!headers(contains(KV::new("x-a", b"3"))).map(&req));
    assert!(headers(eq(vec![KV::new("x-a", b"1"), KV::new("x-a", b"2")])).map(&req));
    assert!(!headers(eq(vec![KV::new("x-a", b"2"), KV::new("x-a", b"1")])).map(&req));
    assert!(!headers(eq(vec![KV::new("x-a", b"1")])).map(&req));
}

#[test]
fn method_path_needs_both() {
    let req = post("http://localhost/x");
    assert!(method_path("POST", "/x").map(&req));
    assert!(!method_path("POST", "/y").map(&req));
    assert!(!method_path("GET", "/x").map(&req));
}

#[test]
fn body_compares_bytes() {
    let req = Request::new("PUT", "http://localhost/", vec![], b"abc".to_vec()).unwrap();
    assert!(body("abc").map(&req));
    assert!(!body("ab").map(&req));
    assert!(!body("abd").map(&req));
}

#[test]
fn describe_renders_structure() {
    assert_eq!(method_path("GET", "/foo").describe(), "MethodPath(\"GET\", \"/foo\")");
    assert_eq!(path(eq(String::from("/a"))).describe(), "Path(Eq(\"/a\"))");
    assert_eq!(
        headers(eq(vec![KV::new("host", b"h"), KV::new("x", b"y")])).describe(),
        "Headers(Eq(\"host\" \"x\" ))"
    );
    assert_eq!(headers(contains(KV::new("k", b"v"))).describe(), "Headers(Contains(\"k\"))");
    assert_eq!(query("q").describe(), "Query(\"q\")");
    assert_eq!(body("b").describe(), "Body(\"b\")");
    assert_eq!(method("GET").describe(), "Method(\"GET\")");
}
