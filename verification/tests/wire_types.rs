use http_server::codes::{get_status_line, StatusCode};
use http_server::content_types::{get_type, ContentType};
use http_server::cookies::Cookie;
use http_server::headers::Header;
use http_server::logger::{LogLevel, Logger};
use http_server::methods::HttpMethod;

#[test]
fn status_line_ok() {
    assert_eq!(get_status_line(StatusCode::OK), "HTTP/1.1 200 OK");
}

#[test]
fn status_line_not_found() {
    assert_eq!(get_status_line(StatusCode::NotFound), "HTTP/1.1 404 Not Found");
}

#[test]
fn status_line_internal_server_error() {
    assert_eq!(
        get_status_line(StatusCode::InternalServerError),
        "HTTP/1.1 500 Internal Server Error"
    );
}

#[test]
fn status_line_teapot() {
    assert_eq!(get_status_line(StatusCode::ImATeapot), "HTTP/1.1 418 I'm a teapot");
}

#[test]
fn content_type_application_json() {
    assert_eq!(get_type(ContentType::ApplicationJson), "application/json");
}

#[test]
fn content_type_text_html() {
    assert_eq!(get_type(ContentType::TextHtmlCharsetUtf8), "text/html; charset=utf-8");
}

#[test]
fn content_type_duplicates_share_wire_string() {
    assert_eq!(get_type(ContentType::ApplicationJsonDuplicate), "application/json");
    assert_eq!(get_type(ContentType::ImageBmpDuplicate), "image/bmp");
}

#[test]
fn parse_file_name_known_extensions() {
    assert_eq!(ContentType::parse_file_name("index.html"), ContentType::TextHtmlCharsetUtf8);
    assert_eq!(ContentType::parse_file_name("style.css"), ContentType::TextCssCharsetUtf8);
    assert_eq!(ContentType::parse_file_name("app.js"), ContentType::TextJavascriptCharsetUtf8);
    assert_eq!(
        ContentType::parse_file_name("favicon.ico"),
        ContentType::ApplicationVndMicrosoftIcon
    );
    assert_eq!(ContentType::parse_file_name("photo.jpg"), ContentType::ImageJpeg);
    assert_eq!(ContentType::parse_file_name("photo.jpeg"), ContentType::ImageJpeg);
}

#[test]
fn parse_file_name_extension_runs_from_first_dot() {
    // the extension is everything from the first dot, so a double
    // extension is unknown and falls back to plain text
    assert_eq!(
        ContentType::parse_file_name("archive.tar.gz"),
        ContentType::TextPlainCharsetUtf8
    );
    assert_eq!(ContentType::parse_file_name("archive.gz"), ContentType::ApplicationGzip);
}

#[test]
fn parse_file_name_unknown_extension_defaults_to_plain_text() {
    assert_eq!(ContentType::parse_file_name("notes.xyz"), ContentType::TextPlainCharsetUtf8);
}

#[test]
fn method_str_round_trip() {
    let methods = [
        HttpMethod::GET,
        HttpMethod::POST,
        HttpMethod::PUT,
        HttpMethod::DELETE,
        HttpMethod::PATCH,
        HttpMethod::HEAD,
        HttpMethod::OPTIONS,
        HttpMethod::CONNECT,
        HttpMethod::TRACE,
    ];
    for m in methods {
        let s = HttpMethod::get_method_str(m);
        assert_eq!(HttpMethod::get_method(&s), m);
    }
}

#[test]
fn method_parsing_is_case_insensitive() {
    assert_eq!(HttpMethod::get_method("get"), HttpMethod::GET);
    assert_eq!(HttpMethod::get_method("PoSt"), HttpMethod::POST);
    assert_eq!(HttpMethod::get_method("delete"), HttpMethod::DELETE);
}

#[test]
fn unknown_method_defaults_to_get() {
    assert_eq!(HttpMethod::get_method("BREW"), HttpMethod::GET);
    assert_eq!(HttpMethod::get_method(""), HttpMethod::GET);
}

#[test]
fn header_new_and_accessors() {
    let h = Header::new("Content-Type".to_string(), "application/json".to_string());
    assert_eq!(h.key(), "Content-Type");
    assert_eq!(h.value(), "application/json");
}

#[test]
fn cookie_new_and_accessors() {
    let c = Cookie::new("key".to_string(), "value".to_string());
    assert_eq!(c.key(), "key");
    assert_eq!(c.value(), "value");
}

#[test]
fn logger_new_keeps_name_and_level() {
    let l = Logger::new("SERVER", LogLevel::Info);
    assert_eq!(l.c_name, "SERVER");
    assert_eq!(l.level, LogLevel::Info);
}

#[test]
fn log_levels_are_ordered() {
    assert!(LogLevel::Error < LogLevel::Info);
    assert!(LogLevel::Info < LogLevel::Debug);
}
