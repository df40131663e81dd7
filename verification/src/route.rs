//! Routes: a registered (method, path, handler) binding.

use crate::methods::HttpMethod;
use crate::request::Request;
use crate::response::Response;
use vstd::prelude::*;
use vstd::string::*;

verus! {

/// The capability a route stores: something that turns a request into a
/// response. `handles` is the handler's own statement of which responses
/// it may return for a request; `handle` must meet it. It defaults to
/// `true`, which is all that can be said of a handler whose output
/// depends on the outside world.
pub trait Handler {
    open spec fn handles(&self, req: Request, resp: Response) -> bool {
        true
    }

    fn handle(&self, req: Request) -> (resp: Response)
        ensures
            self.handles(req, resp),
    ;
}

/// A registered route: an exact-match path, a handler, and a method.
pub struct Route<H> {
    pub path: String,
    pub handler: H,
    pub method: HttpMethod,
}

impl<H> Route<H> {
    pub fn new(path: &str, handler: H, method: HttpMethod) -> (r: Route<H>)
        ensures
            r.path@ == path@,
            r.handler == handler,
            r.method == method,
    {
        Route { path: path.to_owned(), handler, method }
    }
}

impl<H: Handler> Route<H> {
    /// Invokes the route's handler on a request.
    pub fn call(&self, data: Request) -> (r: Response)
        ensures
            self.handler.handles(data, r),
    {
        self.handler.handle(data)
    }
}

} // verus!
