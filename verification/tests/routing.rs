use http_server::codes::StatusCode;
use http_server::content_types::ContentType;
use http_server::methods::HttpMethod;
use http_server::request::Request;
use http_server::response::Response;
use http_server::route::{Handler, Route};
use http_server::server::{
    handle_request, select_route, PreRequest, PreRequestHandler, PreResponse, PreResponseHandler,
};

struct Fixed(&'static str);

impl Handler for Fixed {
    fn handle(&self, _req: Request) -> Response {
        Response::new(
            StatusCode::OK,
            ContentType::TextPlainCharsetUtf8,
            Vec::new(),
            Vec::new(),
            self.0.to_string(),
        )
    }
}

struct Echo;

impl Handler for Echo {
    fn handle(&self, req: Request) -> Response {
        let line = format!("{} {}", HttpMethod::get_method_str(req.method), req.path);
        Response::new(
            StatusCode::OK,
            ContentType::TextPlainCharsetUtf8,
            Vec::new(),
            Vec::new(),
            line,
        )
    }
}

fn table() -> Vec<Route<Fixed>> {
    vec![
        Route::new("/", Fixed("index"), HttpMethod::GET),
        Route::new("", Fixed("assets"), HttpMethod::GET),
        Route::new("/sleep", Fixed("sleep"), HttpMethod::GET),
        Route::new("/options", Fixed("options"), HttpMethod::OPTIONS),
    ]
}

fn run(routes: &Vec<Route<Fixed>>, payload: &str) -> String {
    handle_request(
        routes,
        "127.0.0.1:9".to_string(),
        payload.to_string(),
        None::<&PreRequestHandler>,
        None::<&PreResponseHandler>,
    )
}

fn body_of(wire: &str) -> String {
    // the body is everything after the blank cookie section for
    // responses without cookies: status, type, headers, cookies, body
    let parts: Vec<&str> = wire.split('\n').collect();
    parts[parts.len() - 1].to_string()
}

#[test]
fn exact_match_receives_handler_output() {
    let routes = table();
    let out = run(&routes, "GET /sleep HTTP/1.1\r\n\r\n");
    assert_eq!(body_of(&out), "sleep");
}

#[test]
fn first_registered_route_wins_on_duplicates() {
    let routes = vec![
        Route::new("/", Fixed("index"), HttpMethod::GET),
        Route::new("", Fixed("assets"), HttpMethod::GET),
        Route::new("/dup", Fixed("first"), HttpMethod::GET),
        Route::new("/dup", Fixed("second"), HttpMethod::GET),
    ];
    let out = run(&routes, "GET /dup HTTP/1.1\r\n\r\n");
    assert_eq!(body_of(&out), "first");
}

#[test]
fn method_must_match_too() {
    let routes = table();
    let out = run(&routes, "OPTIONS /options HTTP/1.1\r\n\r\n");
    assert_eq!(body_of(&out), "options");
    let miss = run(&routes, "GET /options HTTP/1.1\r\n\r\n");
    assert_eq!(miss, "HTTP/1.1 404 Not Found");
}

#[test]
fn asset_suffix_takes_fast_path_over_exact_route() {
    // an explicit route for the same path exists, yet the designated
    // asset slot (index 1) is used
    let routes = vec![
        Route::new("/", Fixed("index"), HttpMethod::GET),
        Route::new("", Fixed("assets"), HttpMethod::GET),
        Route::new("/style.css", Fixed("exact"), HttpMethod::GET),
    ];
    let out = run(&routes, "GET /style.css HTTP/1.1\r\n\r\n");
    assert_eq!(body_of(&out), "assets");
}

#[test]
fn all_four_asset_suffixes_take_the_fast_path() {
    let routes = table();
    for path in ["/a.css", "/b.html", "/c.js", "/d.ico"] {
        let out = run(&routes, &format!("GET {} HTTP/1.1\r\n\r\n", path));
        assert_eq!(body_of(&out), "assets");
    }
}

#[test]
fn asset_suffix_on_other_method_uses_the_table() {
    let routes = table();
    let out = run(&routes, "POST /style.css HTTP/1.1\r\n\r\n");
    assert_eq!(out, "HTTP/1.1 404 Not Found");
}

#[test]
fn no_match_yields_exactly_the_404_status_line() {
    let routes = table();
    let out = run(&routes, "GET /missing HTTP/1.1\r\n\r\n");
    assert_eq!(out, "HTTP/1.1 404 Not Found");
}

#[test]
fn select_route_picks_first_match_index() {
    let routes = table();
    assert_eq!(select_route(&routes, HttpMethod::GET, "/"), Some(0));
    assert_eq!(select_route(&routes, HttpMethod::GET, "/sleep"), Some(2));
    assert_eq!(select_route(&routes, HttpMethod::OPTIONS, "/options"), Some(3));
    assert_eq!(select_route(&routes, HttpMethod::POST, "/"), None);
}

#[test]
fn select_route_sends_get_assets_to_slot_one() {
    let routes = table();
    assert_eq!(select_route(&routes, HttpMethod::GET, "/logo.ico"), Some(1));
}

#[test]
fn route_call_invokes_the_handler() {
    let route = Route::new("/x", Fixed("called"), HttpMethod::GET);
    let resp = route.call(Request::get_empty());
    assert_eq!(resp.data, "called");
}

#[test]
fn echoed_request_line_round_trips_through_the_wire() {
    let routes = vec![
        Route::new("/", Echo, HttpMethod::GET),
        Route::new("", Echo, HttpMethod::GET),
        Route::new("/echo", Echo, HttpMethod::POST),
    ];
    let out = handle_request(
        &routes,
        "127.0.0.1:9".to_string(),
        "POST /echo HTTP/1.1\r\nHost: localhost\r\n\r\n".to_string(),
        None::<&PreRequestHandler>,
        None::<&PreResponseHandler>,
    );
    assert_eq!(body_of(&out), "POST /echo");
}

#[test]
fn empty_payload_routes_by_empty_path() {
    // an empty payload parses to GET with an empty path, which the
    // designated asset route is registered under
    let routes = table();
    let out = run(&routes, "");
    assert_eq!(body_of(&out), "assets");
}

struct WithCookie;

impl Handler for WithCookie {
    fn handle(&self, req: Request) -> Response {
        let mut resp = Response::get_empty();
        let sid = req.get_cookie("sid").map(|c| c.value).unwrap_or_default();
        resp.set_data(sid);
        resp
    }
}

#[test]
fn cookies_flow_from_wire_to_handler() {
    let routes = vec![
        Route::new("/", WithCookie, HttpMethod::GET),
        Route::new("", WithCookie, HttpMethod::GET),
        Route::new("/whoami", WithCookie, HttpMethod::GET),
    ];
    let out = handle_request(
        &routes,
        "127.0.0.1:9".to_string(),
        "GET /whoami HTTP/1.1\r\nCookie: sid=abc123; theme=dark\r\n\r\n".to_string(),
        None::<&PreRequestHandler>,
        None::<&PreResponseHandler>,
    );
    assert_eq!(body_of(&out), "abc123");
}

struct RewritePath;

impl PreRequest for RewritePath {
    fn call(&self, _data: String, mut request: Request) -> Request {
        request.set_path("/rewritten".to_string());
        request
    }
}

#[test]
fn pre_request_hook_can_redirect_routing() {
    let routes = vec![
        Route::new("/", Fixed("index"), HttpMethod::GET),
        Route::new("", Fixed("assets"), HttpMethod::GET),
        Route::new("/rewritten", Fixed("target"), HttpMethod::GET),
    ];
    let out = handle_request(
        &routes,
        "127.0.0.1:9".to_string(),
        "GET /elsewhere HTTP/1.1\r\n\r\n".to_string(),
        Some(&RewritePath),
        None::<&PreResponseHandler>,
    );
    assert_eq!(body_of(&out), "target");
}

struct Stamp;

impl PreResponse for Stamp {
    fn call(&self, _data: String, mut response: Response) -> Response {
        response.set_data("stamped".to_string());
        response
    }
}

#[test]
fn pre_response_hook_sees_the_response_before_serialization() {
    let routes = table();
    let out = handle_request(
        &routes,
        "127.0.0.1:9".to_string(),
        "GET /sleep HTTP/1.1\r\n\r\n".to_string(),
        None::<&PreRequestHandler>,
        Some(&Stamp),
    );
    assert_eq!(body_of(&out), "stamped");
}

#[test]
fn pass_through_hooks_change_nothing() {
    let routes = table();
    let plain = run(&routes, "GET /sleep HTTP/1.1\r\n\r\n");
    let hooked = handle_request(
        &routes,
        "127.0.0.1:9".to_string(),
        "GET /sleep HTTP/1.1\r\n\r\n".to_string(),
        Some(&PreRequestHandler),
        Some(&PreResponseHandler),
    );
    assert_eq!(plain, hooked);
}
