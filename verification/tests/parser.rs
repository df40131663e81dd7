use http_server::methods::HttpMethod;
use http_server::request::Request;

#[test]
fn parses_method_and_path() {
    let req = Request::parse("GET /index.html HTTP/1.1\r\nHost: localhost\r\n\r\n".to_string());
    assert_eq!(req.method, HttpMethod::GET);
    assert_eq!(req.path, "/index.html");
}

#[test]
fn request_line_round_trips_method_and_path() {
    let req = Request::parse("POST /submit HTTP/1.1\r\nHost: localhost\r\n\r\n".to_string());
    assert_eq!(HttpMethod::get_method_str(req.method), "POST");
    assert_eq!(req.path, "/submit");
}

#[test]
fn parses_headers_in_order() {
    let req = Request::parse(
        "GET / HTTP/1.1\r\nHost: localhost\r\nAccept: text/html\r\n\r\n".to_string(),
    );
    assert_eq!(req.headers.len(), 2);
    assert_eq!(req.headers[0].key, "Host");
    assert_eq!(req.headers[0].value, "localhost");
    assert_eq!(req.headers[1].key, "Accept");
    assert_eq!(req.headers[1].value, "text/html");
}

#[test]
fn duplicate_headers_are_kept() {
    let req = Request::parse("GET / HTTP/1.1\r\nX-Tag: a\r\nX-Tag: b\r\n\r\n".to_string());
    assert_eq!(req.headers.len(), 2);
    assert_eq!(req.headers[0].value, "a");
    assert_eq!(req.headers[1].value, "b");
    // lookup returns the first
    assert_eq!(req.get_header("X-Tag").unwrap().value, "a");
}

#[test]
fn two_cookies_parse_in_order() {
    let req = Request::parse("GET / HTTP/1.1\r\nCookie: a=1; b=2\r\n\r\n".to_string());
    assert_eq!(req.cookies.len(), 2);
    assert_eq!(req.cookies[0].key, "a");
    assert_eq!(req.cookies[0].value, "1");
    assert_eq!(req.cookies[1].key, "b");
    assert_eq!(req.cookies[1].value, "2");
    // the cookie header itself does not appear among the headers
    assert!(req.get_header("Cookie").is_none());
}

#[test]
fn cookie_header_key_is_case_insensitive() {
    let req = Request::parse("GET / HTTP/1.1\r\ncOoKiE: sid=42\r\n\r\n".to_string());
    assert_eq!(req.cookies.len(), 1);
    assert_eq!(req.cookies[0].key, "sid");
    assert_eq!(req.cookies[0].value, "42");
}

#[test]
fn cookie_piece_without_equals_is_dropped() {
    let req = Request::parse("GET / HTTP/1.1\r\nCookie: a=1; b\r\n\r\n".to_string());
    assert_eq!(req.cookies.len(), 1);
    assert_eq!(req.cookies[0].key, "a");
}

#[test]
fn header_without_separator_is_skipped() {
    let req = Request::parse("GET / HTTP/1.1\r\nWeird\r\nHost: h\r\n\r\n".to_string());
    assert_eq!(req.headers.len(), 1);
    assert_eq!(req.headers[0].key, "Host");
}

#[test]
fn header_keys_and_values_are_trimmed() {
    let req = Request::parse("GET / HTTP/1.1\r\nHost :  space.example  \r\n\r\n".to_string());
    assert_eq!(req.headers.len(), 1);
    assert_eq!(req.headers[0].key, "Host");
    assert_eq!(req.headers[0].value, "space.example");
}

#[test]
fn body_lines_join_after_blank_line() {
    let req = Request::parse("POST /p HTTP/1.1\nA: b\n\nline one\nline two  \n".to_string());
    assert_eq!(req.data, "line one\nline two");
}

#[test]
fn empty_lines_never_join_the_body() {
    let req = Request::parse("POST /p HTTP/1.1\nA: b\n\nfirst\n\nsecond\n".to_string());
    assert_eq!(req.data, "first\nsecond");
}

#[test]
fn newline_only_framing_is_accepted() {
    let req = Request::parse("PUT /x HTTP/1.1\nHost: h\n\n".to_string());
    assert_eq!(req.method, HttpMethod::PUT);
    assert_eq!(req.path, "/x");
    assert_eq!(req.headers.len(), 1);
}

#[test]
fn empty_payload_gives_empty_get() {
    let req = Request::parse(String::new());
    assert_eq!(req.method, HttpMethod::GET);
    assert_eq!(req.path, "");
    assert!(req.headers.is_empty());
    assert!(req.cookies.is_empty());
    assert_eq!(req.data, "");
}

#[test]
fn lowercase_method_token_is_recognized() {
    let req = Request::parse("post /login HTTP/1.1\r\n\r\n".to_string());
    assert_eq!(req.method, HttpMethod::POST);
}

#[test]
fn path_variables_are_collected() {
    let req = Request::parse("GET /users/:id/books/:title HTTP/1.1\r\n\r\n".to_string());
    assert_eq!(req.get_path_variables(), vec!["id".to_string(), "title".to_string()]);
}

#[test]
fn path_variable_loses_all_leading_colons() {
    let req = Request::parse("GET /a/::x HTTP/1.1\r\n\r\n".to_string());
    assert_eq!(req.get_path_variables(), vec!["x".to_string()]);
}

#[test]
fn plain_segments_are_not_path_variables() {
    let req = Request::parse("GET /users/42 HTTP/1.1\r\n\r\n".to_string());
    assert!(req.get_path_variables().is_empty());
}

#[test]
fn get_cookie_returns_first_match() {
    let req = Request::parse("GET / HTTP/1.1\r\nCookie: a=1; a=2\r\n\r\n".to_string());
    assert_eq!(req.get_cookie("a").unwrap().value, "1");
    assert!(req.get_cookie("missing").is_none());
}

#[test]
fn request_builders_update_fields() {
    let mut req = Request::get_empty();
    req.set_method(HttpMethod::DELETE);
    req.set_path("/gone".to_string());
    req.set_data("payload".to_string());
    assert_eq!(req.method, HttpMethod::DELETE);
    assert_eq!(req.path, "/gone");
    assert_eq!(req.data, "payload");
}

#[test]
fn request_builders_chain() {
    let mut req = Request::get_empty();
    req.set_method(HttpMethod::PUT).set_path("/chained".to_string());
    assert_eq!(req.method, HttpMethod::PUT);
    assert_eq!(req.path, "/chained");
}
