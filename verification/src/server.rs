//! Route selection and per-request dispatch.
//!
//! The functions here are the decision core of a connection's life: the
//! raw request text goes in, the text to write back comes out. Reading
//! from and writing to sockets, and the worker pool that runs one such
//! cycle per connection, live outside the library.

use crate::codes::{get_status_line, spec_status_line, StatusCode};
use crate::methods::HttpMethod;
use crate::request::{spec_parse, Request};
use crate::response::{spec_prepare, Response};
use crate::route::{Handler, Route};
use crate::text::{ends_with, str_ends_with, str_eq};
use vstd::prelude::*;
use vstd::string::*;

verus! {

/// An optional interception point run on each parsed request before
/// routing, handed the peer address. `transforms` is the hook's own
/// statement of its effect; `call` must meet it.
pub trait PreRequest {
    open spec fn transforms(&self, data: String, request: Request, out: Request) -> bool {
        true
    }

    fn call(&self, data: String, request: Request) -> (out: Request)
        ensures
            self.transforms(data, request, out),
    ;
}

/// An optional interception point run on each response before
/// serialization, handed the peer address.
pub trait PreResponse {
    open spec fn transforms(&self, data: String, response: Response, out: Response) -> bool {
        true
    }

    fn call(&self, data: String, response: Response) -> (out: Response)
        ensures
            self.transforms(data, response, out),
    ;
}

/// A ready-made pre-request hook that passes every request through.
#[derive(Clone, Copy)]
pub struct PreRequestHandler;

impl PreRequest for PreRequestHandler {
    open spec fn transforms(&self, data: String, request: Request, out: Request) -> bool {
        out == request
    }

    fn call(&self, data: String, request: Request) -> (out: Request) {
        request
    }
}

/// A ready-made pre-response hook that passes every response through.
#[derive(Clone, Copy)]
pub struct PreResponseHandler;

impl PreResponse for PreResponseHandler {
    open spec fn transforms(&self, data: String, response: Response, out: Response) -> bool {
        out == response
    }

    fn call(&self, data: String, response: Response) -> (out: Response) {
        response
    }
}

/// A path the static-asset fast path intercepts: one ending in `.css`,
/// `.html`, `.js` or `.ico`.
pub open spec fn is_asset_path(p: Seq<char>) -> bool {
    ends_with(p, ".css"@) || ends_with(p, ".html"@) || ends_with(p, ".js"@) || ends_with(
        p,
        ".ico"@,
    )
}

/// Decides whether a path takes the static-asset fast path.
pub fn path_is_asset(p: &str) -> (r: bool)
    ensures
        r == is_asset_path(p@),
{
    str_ends_with(p, ".css") || str_ends_with(p, ".html") || str_ends_with(p, ".js")
        || str_ends_with(p, ".ico")
}

/// A route matches a request's method and path exactly.
pub open spec fn route_matches<H>(r: Route<H>, method: HttpMethod, path: Seq<char>) -> bool {
    r.method == method && r.path@ == path
}

/// The first route whose method and path both match, if any.
pub open spec fn first_match<H>(
    routes: Seq<Route<H>>,
    method: HttpMethod,
    path: Seq<char>,
) -> Option<int>
    decreases routes.len(),
{
    if routes.len() == 0 {
        None
    } else if route_matches(routes[0], method, path) {
        Some(0int)
    } else {
        match first_match(routes.drop_first(), method, path) {
            Some(i) => Some(i + 1),
            None => None,
        }
    }
}

/// The index a request is dispatched to: index 1 — the designated
/// static-asset slot — for any GET whose path carries an asset suffix,
/// and otherwise the first exact match of method and path.
pub open spec fn spec_select<H>(
    routes: Seq<Route<H>>,
    method: HttpMethod,
    path: Seq<char>,
) -> Option<int> {
    if method == HttpMethod::GET && is_asset_path(path) {
        Some(1int)
    } else {
        first_match(routes, method, path)
    }
}

pub proof fn lemma_first_match<H>(routes: Seq<Route<H>>, method: HttpMethod, path: Seq<char>)
    ensures
        match first_match(routes, method, path) {
            Some(i) => 0 <= i < routes.len() && route_matches(routes[i], method, path)
                && forall|j: int|
                0 <= j < i ==> !#[trigger] route_matches(routes[j], method, path),
            None => forall|j: int|
                0 <= j < routes.len() ==> !#[trigger] route_matches(routes[j], method, path),
        },
    decreases routes.len(),
{
    if routes.len() > 0 && !route_matches(routes[0], method, path) {
        let rest = routes.drop_first();
        lemma_first_match(rest, method, path);
        match first_match(rest, method, path) {
            Some(i) => {
                assert(routes[i + 1] == rest[i]);
                assert forall|j: int| 0 <= j < i + 1 implies !route_matches(
                    routes[j],
                    method,
                    path,
                ) by {
                    if j > 0 {
                        assert(routes[j] == rest[j - 1]);
                        assert(!route_matches(rest[j - 1], method, path));
                    }
                };
            },
            None => {
                assert forall|j: int| 0 <= j < routes.len() implies !route_matches(
                    routes[j],
                    method,
                    path,
                ) by {
                    if j > 0 {
                        assert(routes[j] == rest[j - 1]);
                        assert(!route_matches(rest[j - 1], method, path));
                    }
                };
            },
        }
    }
}

/// Registration order decides: when the fast path does not intercept, the
/// selected route is the first whose method and path match the request
/// exactly, and no route registered earlier matches.
pub proof fn lemma_select_first_match_wins<H>(
    routes: Seq<Route<H>>,
    method: HttpMethod,
    path: Seq<char>,
)
    requires
        !(method == HttpMethod::GET && is_asset_path(path)),
    ensures
        match spec_select(routes, method, path) {
            Some(i) => 0 <= i < routes.len() && route_matches(routes[i], method, path)
                && forall|j: int|
                0 <= j < i ==> !#[trigger] route_matches(routes[j], method, path),
            None => forall|j: int|
                0 <= j < routes.len() ==> !#[trigger] route_matches(routes[j], method, path),
        },
{
    lemma_first_match(routes, method, path);
}

/// The fast path is unconditional: any GET whose path carries an asset
/// suffix is sent to the designated asset slot, whether or not some route
/// also matches the path exactly.
pub proof fn lemma_asset_fast_path<H>(routes: Seq<Route<H>>, path: Seq<char>)
    requires
        is_asset_path(path),
    ensures
        spec_select(routes, HttpMethod::GET, path) == Some(1int),
{
}

/// Selects the route for a request, as `spec_select` says.
pub fn select_route<H>(routes: &Vec<Route<H>>, method: HttpMethod, path: &str) -> (r: Option<
    usize,
>)
    ensures
        match r {
            Some(i) => spec_select(routes@, method, path@) == Some(i as int),
            None => spec_select(routes@, method, path@) is None,
        },
{
    if method == HttpMethod::GET && path_is_asset(path) {
        return Some(1);
    }
    let n = routes.len();
    let mut i: usize = 0;
    proof {
        assert(routes@.skip(0) =~= routes@);
    }
    while i < n
        invariant
            0 <= i <= n,
            n == routes@.len(),
            !(method == HttpMethod::GET && is_asset_path(path@)),
            first_match(routes@, method, path@) == (match first_match(
                routes@.skip(i as int),
                method,
                path@,
            ) {
                Some(k) => Some(k + i),
                None => None::<int>,
            }),
        decreases n - i,
    {
        proof {
            assert(routes@.skip(i as int).drop_first() =~= routes@.skip(i as int + 1));
        }
        let rt = &routes[i];
        if rt.method == method && str_eq(rt.path.as_str(), path) {
            proof {
                assert(routes@.skip(i as int)[0] == routes@[i as int]);
                assert(route_matches(routes@[i as int], method, path@));
            }
            return Some(i);
        }
        i = i + 1;
    }
    None
}

/// What submitting a request to a route may produce: the serialized form
/// of a response the route's handler can return, transformed by the
/// pre-response hook if one is present.
pub open spec fn submitted<H: Handler, Q: PreResponse>(
    route: Route<H>,
    pre_response: Option<&Q>,
    peer: String,
    req: Request,
    out: Seq<char>,
) -> bool {
    exists|resp: Response, hooked: Response|
        {
            &&& route.handler.handles(req, resp)
            &&& match pre_response {
                Some(q) => q.transforms(peer, resp, hooked),
                None => hooked == resp,
            }
            &&& out == spec_prepare(hooked@)
        }
}

/// Runs a matched route's handler on the request, lets the pre-response
/// hook change the response, and serializes the outcome.
pub fn submit<H: Handler, Q: PreResponse>(
    route: &Route<H>,
    peer: String,
    data: Request,
    pre_response: Option<&Q>,
) -> (r: String)
    ensures
        submitted(*route, pre_response, peer, data, r@),
{
    let ghost data0 = data;
    let resp = route.call(data);
    let ghost resp0 = resp;
    let out = match pre_response {
        Some(f) => f.call(peer, resp),
        None => resp,
    };
    let r = out.prepare();
    proof {
        assert(route.handler.handles(data0, resp0));
        assert(r@ == spec_prepare(out@));
        assert(submitted(*route, pre_response, peer, data0, r@));
    }
    r
}

/// What one request/response cycle may write back, given the raw request
/// text: the parsed request runs through the pre-request hook; the hooked
/// request is routed; a matched route is submitted to; a miss yields
/// exactly the 404 status line.
pub open spec fn handled<H: Handler, P: PreRequest, Q: PreResponse>(
    routes: Seq<Route<H>>,
    pre_request: Option<&P>,
    pre_response: Option<&Q>,
    peer: String,
    payload: Seq<char>,
    out: Seq<char>,
) -> bool {
    exists|req: Request, hooked: Request|
        #![trigger req@, hooked@]
        {
            &&& req@ == spec_parse(payload)
            &&& match pre_request {
                Some(p) => p.transforms(peer, req, hooked),
                None => hooked == req,
            }
            &&& match spec_select(routes, hooked@.method, hooked@.path) {
                Some(i) => submitted(routes[i], pre_response, peer, hooked, out),
                None => out == spec_status_line(StatusCode::NotFound),
            }
        }
}

/// One request/response cycle: parse, hook, route, invoke, hook,
/// serialize. The route table must hold at least the index route and the
/// designated static-asset route, so that the fast-path slot exists.
pub fn handle_request<H: Handler, P: PreRequest, Q: PreResponse>(
    routes: &Vec<Route<H>>,
    peer: String,
    payload: String,
    pre_request: Option<&P>,
    pre_response: Option<&Q>,
) -> (r: String)
    requires
        routes@.len() >= 2,
    ensures
        handled(routes@, pre_request, pre_response, peer, payload@, r@),
        pre_request is None && spec_select(
            routes@,
            spec_parse(payload@).method,
            spec_parse(payload@).path,
        ) is None ==> r@ == spec_status_line(StatusCode::NotFound),
{
    let req = Request::parse(payload);
    let ghost req0 = req;
    let hooked = match pre_request {
        Some(p) => p.call(peer.clone(), req),
        None => req,
    };
    let ghost hooked0 = hooked;
    let sel = select_route(routes, hooked.method, hooked.path.as_str());
    match sel {
        Some(i) => {
            proof {
                if !(hooked0.method == HttpMethod::GET && is_asset_path(hooked0.path@)) {
                    lemma_first_match(routes@, hooked0.method, hooked0.path@);
                }
            }
            let r = submit(&routes[i], peer, hooked, pre_response);
            proof {
                assert(handled(routes@, pre_request, pre_response, peer, payload@, r@));
            }
            r
        },
        None => {
            let r = get_status_line(StatusCode::NotFound);
            proof {
                assert(handled(routes@, pre_request, pre_response, peer, payload@, r@));
            }
            r
        },
    }
}

} // verus!
