use nostd_rpc::decimal::u16_to_string;
use nostd_rpc::request::HttpRequest;

fn content_length(text: &str) -> String {
    let start = text.find("Content-Length: ").expect("no Content-Length line") + "Content-Length: ".len();
    let rest = &text[start..];
    let end = rest.find("\r\n").expect("unterminated Content-Length line");
    rest[..end].to_string()
}

#[test]
fn u16_to_string_values() {
    assert_eq!(u16_to_string(0), "0");
    assert_eq!(u16_to_string(7), "7");
    assert_eq!(u16_to_string(10), "10");
    assert_eq!(u16_to_string(255), "255");
    assert_eq!(u16_to_string(40000), "40000");
    assert_eq!(u16_to_string(65535), "65535");
}

#[test]
fn default_request_serialization() {
    let text = HttpRequest::new().construct_http_request();
    assert_eq!(
        text,
        "POST / HTTP/1.1\r\nHost: http://localhost\r\nContent-Length: 0\r\nConnection: close\r\n\r\n"
    );
}

#[test]
fn default_accessors() {
    let request = HttpRequest::default();
    assert_eq!(request.target_address(), [192, 168, 42, 1]);
    assert_eq!(request.target_port(), 80);
    assert_eq!(request.timeout_millis(), 15000);
}

#[test]
fn builder_sets_fields() {
    let request = HttpRequest::new()
        .ipv4([104, 100, 168, 75])
        .port(8080)
        .timeout(5000);
    assert_eq!(request.target_address(), [104, 100, 168, 75]);
    assert_eq!(request.target_port(), 8080);
    assert_eq!(request.timeout_millis(), 5000);
}

#[test]
fn get_request_text() {
    let text = HttpRequest::new()
        .ipv4([104, 100, 168, 75])
        .port(80)
        .host("www.example.com")
        .url("/index.html")
        .method("GET")
        .timeout(5000)
        .construct_http_request();
    assert_eq!(
        text,
        "GET /index.html HTTP/1.1\r\nHost: www.example.com\r\nContent-Length: 0\r\nConnection: close\r\n\r\n"
    );
}

#[test]
fn post_request_text() {
    let body = "{\"key1\": \"value1\", \"key2\": \"value2\"}";
    let text = HttpRequest::new()
        .ipv4([54, 152, 142, 77])
        .port(80)
        .url("/post")
        .host("httpbin.org")
        .method("POST")
        .header("Content-Type: application/json")
        .body(body)
        .construct_http_request();
    let expected = format!(
        "POST /post HTTP/1.1\r\nHost: httpbin.org\r\nContent-Type: application/json\r\nContent-Length: {}\r\nConnection: close\r\n\r\n{}",
        body.len(),
        body
    );
    assert_eq!(text, expected);
    assert_eq!(content_length(&text), "36");
}

#[test]
fn headers_keep_insertion_order() {
    let text = HttpRequest::new()
        .method("GET")
        .url("/a")
        .host("h")
        .header("X-First: 1")
        .header("X-Second: 2")
        .construct_http_request();
    assert_eq!(
        text,
        "GET /a HTTP/1.1\r\nHost: h\r\nX-First: 1\r\nX-Second: 2\r\nContent-Length: 0\r\nConnection: close\r\n\r\n"
    );
}

#[test]
fn basic_auth_precedes_computed_headers() {
    let text = HttpRequest::new()
        .method("GET")
        .url("/")
        .host("h")
        .header("Accept: */*")
        .basic_auth("dXNlcjpwYXNz")
        .construct_http_request();
    assert_eq!(
        text,
        "GET / HTTP/1.1\r\nHost: h\r\nAccept: */*\r\nAuthorization: Basic dXNlcjpwYXNz\r\nContent-Length: 0\r\nConnection: close\r\n\r\n"
    );
}

#[test]
fn serialization_is_deterministic() {
    let request = HttpRequest::new()
        .method("PUT")
        .url("x")
        .host("example.org")
        .header("A: b")
        .body("payload");
    let first = request.construct_http_request();
    let second = request.construct_http_request();
    assert_eq!(first, second);
}

#[test]
fn missing_leading_slash_is_added() {
    let bare = HttpRequest::new().method("GET").url("index.html").host("example.org");
    let slashed = HttpRequest::new().method("GET").url("/index.html").host("example.org");
    let a = bare.construct_http_request();
    let b = slashed.construct_http_request();
    assert_eq!(a, b);
    assert!(a.starts_with("GET /index.html HTTP/1.1\r\n"));
}

#[test]
fn empty_path_becomes_root() {
    let text = HttpRequest::new().method("GET").url("").host("h").construct_http_request();
    assert!(text.starts_with("GET / HTTP/1.1\r\n"));
}

#[test]
fn content_length_reads_back_as_body_length() {
    for n in [0usize, 1, 255, 1000, 9999] {
        let body = "a".repeat(n);
        let text = HttpRequest::new().body(&body).construct_http_request();
        let value = content_length(&text);
        assert!(!value.is_empty());
        assert_eq!(value.parse::<usize>().unwrap(), n);
        assert!(text.ends_with(&format!("\r\n\r\n{}", body)));
    }
}

#[test]
fn content_length_zero_is_digit_zero() {
    let text = HttpRequest::new().body("").construct_http_request();
    assert_eq!(content_length(&text), "0");
}

#[test]
fn content_length_counts_bytes() {
    let text = HttpRequest::new().body("héllo").construct_http_request();
    assert_eq!(content_length(&text), "6");
}

#[test]
fn content_length_beyond_sixteen_bits() {
    let body = "b".repeat(70000);
    let text = HttpRequest::new().body(&body).construct_http_request();
    assert_eq!(content_length(&text), "70000");
}

#[test]
fn clone_serializes_identically() {
    let request = HttpRequest::new()
        .method("POST")
        .url("/c")
        .host("h")
        .header("A: 1")
        .header("B: 2")
        .body("x")
        .basic_auth("abc");
    let copy = request.clone();
    assert_eq!(copy.construct_http_request(), request.construct_http_request());
    assert_eq!(copy.target_address(), request.target_address());
    assert_eq!(copy.timeout_millis(), request.timeout_millis());
}

#[test]
fn http_module_exposes_request_and_decoder() {
    let text = nostd_rpc::http::HttpRequest::new()
        .method("GET")
        .url("/%41")
        .host("h")
        .construct_http_request();
    assert_eq!(nostd_rpc::http::decode_html(&text[..8]), "GET /A");
}
