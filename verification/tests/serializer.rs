use http_server::codes::StatusCode;
use http_server::content_types::ContentType;
use http_server::cookies::Cookie;
use http_server::headers::Header;
use http_server::response::Response;

const CORS_BLOCK: &str = "Access-Control-Allow-Origin: *\n\
Access-Control-Allow-Credentials: true\n\
Access-Control-Allow-Methods: GET, POST, PUT, DELETE, PATCH, HEAD, OPTIONS, CONNECT, TRACE\n\
Access-Control-Allow-Headers: Content-Type, Authorization";

#[test]
fn prepare_serializes_all_sections() {
    let resp = Response::new(
        StatusCode::OK,
        ContentType::TextHtmlCharsetUtf8,
        vec![Header::new("X-A".to_string(), "1".to_string())],
        vec![Cookie::new("sid".to_string(), "42".to_string())],
        "hello".to_string(),
    );
    let expected = format!(
        "HTTP/1.1 200 OK\ntext/html; charset=utf-8\nX-A: 1\n{}\nsid=42\nhello",
        CORS_BLOCK
    );
    assert_eq!(resp.prepare(), expected);
}

#[test]
fn prepare_appends_cors_after_user_headers() {
    let resp = Response::new(
        StatusCode::OK,
        ContentType::ApplicationJson,
        Vec::new(),
        Vec::new(),
        String::new(),
    );
    let expected = format!("HTTP/1.1 200 OK\napplication/json\n{}\n\n", CORS_BLOCK);
    assert_eq!(resp.prepare(), expected);
}

#[test]
fn prepare_joins_cookies_with_newlines() {
    let mut resp = Response::get_empty();
    resp.add_cookie(Cookie::new("a".to_string(), "1".to_string()));
    resp.add_cookie(Cookie::new("b".to_string(), "2".to_string()));
    let out = resp.prepare();
    assert!(out.contains("a=1\nb=2"));
}

#[test]
fn get_empty_is_blank_ok_plain_text() {
    let resp = Response::get_empty();
    assert_eq!(resp.status, StatusCode::OK);
    assert_eq!(resp.content_type, ContentType::TextPlainCharsetUtf8);
    assert!(resp.headers.is_empty());
    assert!(resp.cookies.is_empty());
    assert_eq!(resp.data, "");
}

#[test]
fn default_matches_get_empty() {
    let resp = Response::default();
    assert_eq!(resp.status, StatusCode::OK);
    assert_eq!(resp.content_type, ContentType::TextPlainCharsetUtf8);
    assert!(resp.headers.is_empty());
    assert!(resp.cookies.is_empty());
    assert_eq!(resp.data, "");
}

#[test]
fn new_from_tuple_keeps_field_order() {
    let resp = Response::new_from_tuple((
        StatusCode::Created,
        ContentType::ApplicationXml,
        vec![Header::new("K".to_string(), "V".to_string())],
        Vec::new(),
        "body".to_string(),
    ));
    assert_eq!(resp.status, StatusCode::Created);
    assert_eq!(resp.content_type, ContentType::ApplicationXml);
    assert_eq!(resp.headers.len(), 1);
    assert_eq!(resp.data, "body");
}

#[test]
fn response_builders_update_fields() {
    let mut resp = Response::get_empty();
    resp.set_status(StatusCode::Accepted);
    resp.set_content_type(ContentType::ImagePng);
    resp.set_data("img".to_string());
    assert_eq!(resp.status, StatusCode::Accepted);
    assert_eq!(resp.get_content_type(), ContentType::ImagePng);
    assert_eq!(resp.data, "img");
}

#[test]
fn response_builders_chain() {
    let mut resp = Response::get_empty();
    resp.set_status(StatusCode::Found).set_data("moved".to_string());
    assert_eq!(resp.status, StatusCode::Found);
    assert_eq!(resp.data, "moved");
}

#[test]
fn response_header_lookup_returns_first_match() {
    let mut resp = Response::get_empty();
    resp.add_header(Header::new("X".to_string(), "1".to_string()));
    resp.add_header(Header::new("X".to_string(), "2".to_string()));
    assert_eq!(resp.get_header("X").unwrap().value, "1");
    assert!(resp.get_header("Y").is_none());
}

#[test]
fn response_cookie_lookup_returns_first_match() {
    let mut resp = Response::get_empty();
    resp.add_cookie(Cookie::new("c".to_string(), "1".to_string()));
    resp.add_cookie(Cookie::new("c".to_string(), "2".to_string()));
    assert_eq!(resp.get_cookie("c").unwrap().value, "1");
    assert!(resp.get_cookie("d").is_none());
}
