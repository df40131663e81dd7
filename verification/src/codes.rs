//! HTTP status codes and their canonical status lines.

use vstd::prelude::*;
use vstd::string::*;

verus! {

/// The closed set of HTTP status codes the library knows.
#[derive(Debug, PartialEq, Eq, Copy, Clone, Structural)]
pub enum StatusCode {
    Continue,
    SwitchingProtocols,
    Processing,
    EarlyHints,
    OK,
    Created,
    Accepted,
    NonAuthoritativeInformation,
    NoContent,
    ResetContent,
    PartialContent,
    MultiStatus,
    AlreadyReported,
    ImUsed,
    MultipleChoices,
    MovedPermanently,
    Found,
    SeeOther,
    NotModified,
    UseProxy,
    TemporaryRedirect,
    PermanentRedirect,
    BadRequest,
    Unauthorized,
    PaymentRequired,
    Forbidden,
    NotFound,
    MethodNotAllowed,
    NotAcceptable,
    ProxyAuthenticationRequired,
    RequestTimeout,
    Conflict,
    Gone,
    LengthRequired,
    PreconditionFailed,
    PayloadTooLarge,
    UriTooLong,
    UnsupportedMediaType,
    RangeNotSatisfiable,
    ExpectationFailed,
    ImATeapot,
    MisdirectedRequest,
    UnprocessableEntity,
    Locked,
    FailedDependency,
    UpgradeRequired,
    PreconditionRequired,
    TooManyRequests,
    RequestHeaderFieldsTooLarge,
    UnavailableForLegalReasons,
    InternalServerError,
    NotImplemented,
    BadGateway,
    ServiceUnavailable,
    GatewayTimeout,
    HttpVersionNotSupported,
    VariantAlsoNegotiates,
    InsufficientStorage,
    LoopDetected,
    NotExtended,
    NetworkAuthenticationRequired,
}

/// The canonical status line of a status code.
pub open spec fn spec_status_line(status: StatusCode) -> Seq<char> {
    match status {
        StatusCode::Continue => "HTTP/1.1 100 Continue"@,
        StatusCode::SwitchingProtocols => "HTTP/1.1 101 Switching Protocols"@,
        StatusCode::Processing => "HTTP/1.1 102 Processing"@,
        StatusCode::EarlyHints => "HTTP/1.1 103 Early Hints"@,
        StatusCode::OK => "HTTP/1.1 200 OK"@,
        StatusCode::Created => "HTTP/1.1 201 Created"@,
        StatusCode::Accepted => "HTTP/1.1 202 Accepted"@,
        StatusCode::NonAuthoritativeInformation => "HTTP/1.1 203 Non-Authoritative Information"@,
        StatusCode::NoContent => "HTTP/1.1 204 No Content"@,
        StatusCode::ResetContent => "HTTP/1.1 205 Reset Content"@,
        StatusCode::PartialContent => "HTTP/1.1 206 Partial Content"@,
        StatusCode::MultiStatus => "HTTP/1.1 207 Multi-Status"@,
        StatusCode::AlreadyReported => "HTTP/1.1 208 Already Reported"@,
        StatusCode::ImUsed => "HTTP/1.1 226 IM Used"@,
        StatusCode::MultipleChoices => "HTTP/1.1 300 Multiple Choices"@,
        StatusCode::MovedPermanently => "HTTP/1.1 301 Moved Permanently"@,
        StatusCode::Found => "HTTP/1.1 302 Found"@,
        StatusCode::SeeOther => "HTTP/1.1 303 See Other"@,
        StatusCode::NotModified => "HTTP/1.1 304 Not Modified"@,
        StatusCode::UseProxy => "HTTP/1.1 305 Use Proxy"@,
        StatusCode::TemporaryRedirect => "HTTP/1.1 307 Temporary Redirect"@,
        StatusCode::PermanentRedirect => "HTTP/1.1 308 Permanent Redirect"@,
        StatusCode::BadRequest => "HTTP/1.1 400 Bad Request"@,
        StatusCode::Unauthorized => "HTTP/1.1 401 Unauthorized"@,
        StatusCode::PaymentRequired => "HTTP/1.1 402 Payment Required"@,
        StatusCode::Forbidden => "HTTP/1.1 403 Forbidden"@,
        StatusCode::NotFound => "HTTP/1.1 404 Not Found"@,
        StatusCode::MethodNotAllowed => "HTTP/1.1 405 Method Not Allowed"@,
        StatusCode::NotAcceptable => "HTTP/1.1 406 Not Acceptable"@,
        StatusCode::ProxyAuthenticationRequired => "HTTP/1.1 407 Proxy Authentication Required"@,
        StatusCode::RequestTimeout => "HTTP/1.1 408 Request Timeout"@,
        StatusCode::Conflict => "HTTP/1.1 409 Conflict"@,
        StatusCode::Gone => "HTTP/1.1 410 Gone"@,
        StatusCode::LengthRequired => "HTTP/1.1 411 Length Required"@,
        StatusCode::PreconditionFailed => "HTTP/1.1 412 Precondition Failed"@,
        StatusCode::PayloadTooLarge => "HTTP/1.1 413 Payload Too Large"@,
        StatusCode::UriTooLong => "HTTP/1.1 414 URI Too Long"@,
        StatusCode::UnsupportedMediaType => "HTTP/1.1 415 Unsupported Media Type"@,
        StatusCode::RangeNotSatisfiable => "HTTP/1.1 416 Range Not Satisfiable"@,
        StatusCode::ExpectationFailed => "HTTP/1.1 417 Expectation Failed"@,
        StatusCode::ImATeapot => "HTTP/1.1 418 I'm a teapot"@,
        StatusCode::MisdirectedRequest => "HTTP/1.1 421 Misdirected Request"@,
        StatusCode::UnprocessableEntity => "HTTP/1.1 422 Unprocessable Entity"@,
        StatusCode::Locked => "HTTP/1.1 423 Locked"@,
        StatusCode::FailedDependency => "HTTP/1.1 424 Failed Dependency"@,
        StatusCode::UpgradeRequired => "HTTP/1.1 426 Upgrade Required"@,
        StatusCode::PreconditionRequired => "HTTP/1.1 428 Precondition Required"@,
        StatusCode::TooManyRequests => "HTTP/1.1 429 Too Many Requests"@,
        StatusCode::RequestHeaderFieldsTooLarge => "HTTP/1.1 431 Request Header Fields Too Large"@,
        StatusCode::UnavailableForLegalReasons => "HTTP/1.1 451 Unavailable For Legal Reasons"@,
        StatusCode::InternalServerError => "HTTP/1.1 500 Internal Server Error"@,
        StatusCode::NotImplemented => "HTTP/1.1 501 Not Implemented"@,
        StatusCode::BadGateway => "HTTP/1.1 502 Bad Gateway"@,
        StatusCode::ServiceUnavailable => "HTTP/1.1 503 Service Unavailable"@,
        StatusCode::GatewayTimeout => "HTTP/1.1 504 Gateway Timeout"@,
        StatusCode::HttpVersionNotSupported => "HTTP/1.1 505 HTTP Version Not Supported"@,
        StatusCode::VariantAlsoNegotiates => "HTTP/1.1 506 Variant Also Negotiates"@,
        StatusCode::InsufficientStorage => "HTTP/1.1 507 Insufficient Storage"@,
        StatusCode::LoopDetected => "HTTP/1.1 508 Loop Detected"@,
        StatusCode::NotExtended => "HTTP/1.1 510 Not Extended"@,
        StatusCode::NetworkAuthenticationRequired => "HTTP/1.1 511 Network Authentication Required"@,
    }
}

/// Returns the full status line for a status code, for example
/// `HTTP/1.1 200 OK` for `StatusCode::Ok`.
pub fn get_status_line(status: StatusCode) -> (r: String)
    ensures
        r@ == spec_status_line(status),
{
    match status {
        StatusCode::Continue => String::from_str("HTTP/1.1 100 Continue"),
        StatusCode::SwitchingProtocols => String::from_str("HTTP/1.1 101 Switching Protocols"),
        StatusCode::Processing => String::from_str("HTTP/1.1 102 Processing"),
        StatusCode::EarlyHints => String::from_str("HTTP/1.1 103 Early Hints"),
        StatusCode::OK => String::from_str("HTTP/1.1 200 OK"),
        StatusCode::Created => String::from_str("HTTP/1.1 201 Created"),
        StatusCode::Accepted => String::from_str("HTTP/1.1 202 Accepted"),
        StatusCode::NonAuthoritativeInformation => String::from_str("HTTP/1.1 203 Non-Authoritative Information"),
        StatusCode::NoContent => String::from_str("HTTP/1.1 204 No Content"),
        StatusCode::ResetContent => String::from_str("HTTP/1.1 205 Reset Content"),
        StatusCode::PartialContent => String::from_str("HTTP/1.1 206 Partial Content"),
        StatusCode::MultiStatus => String::from_str("HTTP/1.1 207 Multi-Status"),
        StatusCode::AlreadyReported => String::from_str("HTTP/1.1 208 Already Reported"),
        StatusCode::ImUsed => String::from_str("HTTP/1.1 226 IM Used"),
        StatusCode::MultipleChoices => String::from_str("HTTP/1.1 300 Multiple Choices"),
        StatusCode::MovedPermanently => String::from_str("HTTP/1.1 301 Moved Permanently"),
        StatusCode::Found => String::from_str("HTTP/1.1 302 Found"),
        StatusCode::SeeOther => String::from_str("HTTP/1.1 303 See Other"),
        StatusCode::NotModified => String::from_str("HTTP/1.1 304 Not Modified"),
        StatusCode::UseProxy => String::from_str("HTTP/1.1 305 Use Proxy"),
        StatusCode::TemporaryRedirect => String::from_str("HTTP/1.1 307 Temporary Redirect"),
        StatusCode::PermanentRedirect => String::from_str("HTTP/1.1 308 Permanent Redirect"),
        StatusCode::BadRequest => String::from_str("HTTP/1.1 400 Bad Request"),
        StatusCode::Unauthorized => String::from_str("HTTP/1.1 401 Unauthorized"),
        StatusCode::PaymentRequired => String::from_str("HTTP/1.1 402 Payment Required"),
        StatusCode::Forbidden => String::from_str("HTTP/1.1 403 Forbidden"),
        StatusCode::NotFound => String::from_str("HTTP/1.1 404 Not Found"),
        StatusCode::MethodNotAllowed => String::from_str("HTTP/1.1 405 Method Not Allowed"),
        StatusCode::NotAcceptable => String::from_str("HTTP/1.1 406 Not Acceptable"),
        StatusCode::ProxyAuthenticationRequired => String::from_str("HTTP/1.1 407 Proxy Authentication Required"),
        StatusCode::RequestTimeout => String::from_str("HTTP/1.1 408 Request Timeout"),
        StatusCode::Conflict => String::from_str("HTTP/1.1 409 Conflict"),
        StatusCode::Gone => String::from_str("HTTP/1.1 410 Gone"),
        StatusCode::LengthRequired => String::from_str("HTTP/1.1 411 Length Required"),
        StatusCode::PreconditionFailed => String::from_str("HTTP/1.1 412 Precondition Failed"),
        StatusCode::PayloadTooLarge => String::from_str("HTTP/1.1 413 Payload Too Large"),
        StatusCode::UriTooLong => String::from_str("HTTP/1.1 414 URI Too Long"),
        StatusCode::UnsupportedMediaType => String::from_str("HTTP/1.1 415 Unsupported Media Type"),
        StatusCode::RangeNotSatisfiable => String::from_str("HTTP/1.1 416 Range Not Satisfiable"),
        StatusCode::ExpectationFailed => String::from_str("HTTP/1.1 417 Expectation Failed"),
        StatusCode::ImATeapot => String::from_str("HTTP/1.1 418 I'm a teapot"),
        StatusCode::MisdirectedRequest => String::from_str("HTTP/1.1 421 Misdirected Request"),
        StatusCode::UnprocessableEntity => String::from_str("HTTP/1.1 422 Unprocessable Entity"),
        StatusCode::Locked => String::from_str("HTTP/1.1 423 Locked"),
        StatusCode::FailedDependency => String::from_str("HTTP/1.1 424 Failed Dependency"),
        StatusCode::UpgradeRequired => String::from_str("HTTP/1.1 426 Upgrade Required"),
        StatusCode::PreconditionRequired => String::from_str("HTTP/1.1 428 Precondition Required"),
        StatusCode::TooManyRequests => String::from_str("HTTP/1.1 429 Too Many Requests"),
        StatusCode::RequestHeaderFieldsTooLarge => String::from_str("HTTP/1.1 431 Request Header Fields Too Large"),
        StatusCode::UnavailableForLegalReasons => String::from_str("HTTP/1.1 451 Unavailable For Legal Reasons"),
        StatusCode::InternalServerError => String::from_str("HTTP/1.1 500 Internal Server Error"),
        StatusCode::NotImplemented => String::from_str("HTTP/1.1 501 Not Implemented"),
        StatusCode::BadGateway => String::from_str("HTTP/1.1 502 Bad Gateway"),
        StatusCode::ServiceUnavailable => String::from_str("HTTP/1.1 503 Service Unavailable"),
        StatusCode::GatewayTimeout => String::from_str("HTTP/1.1 504 Gateway Timeout"),
        StatusCode::HttpVersionNotSupported => String::from_str("HTTP/1.1 505 HTTP Version Not Supported"),
        StatusCode::VariantAlsoNegotiates => String::from_str("HTTP/1.1 506 Variant Also Negotiates"),
        StatusCode::InsufficientStorage => String::from_str("HTTP/1.1 507 Insufficient Storage"),
        StatusCode::LoopDetected => String::from_str("HTTP/1.1 508 Loop Detected"),
        StatusCode::NotExtended => String::from_str("HTTP/1.1 510 Not Extended"),
        StatusCode::NetworkAuthenticationRequired => String::from_str("HTTP/1.1 511 Network Authentication Required"),
    }
}

} // verus!
