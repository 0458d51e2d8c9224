//! The router: path to handler bindings, the authentication middleware run
//! before every handler, and the decision of what answers a request.
use vstd::prelude::*;

use crate::response::{
    cors_headers, header_view, is_envelope, response, Header,
    HttpResponse, ResponseView, STATUS_NOT_FOUND, STATUS_OK, STATUS_UNAUTHORIZED,
};
use crate::rpc::{options_response, preflight_text};

verus! {

/// The HTTP methods the controller tells apart.
#[derive(Debug, Clone, Copy, PartialEq, Eq, Structural)]
pub enum HttpMethod {
    /// A JSON-RPC call.
    Post,
    /// A CORS preflight.
    Options,
    /// Any other method.
    Other,
}

/// What the router reads of a request.
#[derive(Debug, Clone, PartialEq, Eq)]
pub struct HttpRequest {
    /// The request method.
    pub method: HttpMethod,
    /// The request path.
    pub path: String,
    /// The value of the `Authorization` header, if present.
    pub authorization: Option<String>,
}

/// The abstract content of a request.
pub struct RequestView {
    pub method: HttpMethod,
    pub path: Seq<char>,
    pub authorization: Option<Seq<char>>,
}

impl View for HttpRequest {
    type V = RequestView;

    open spec fn view(&self) -> RequestView {
        RequestView {
            method: self.method,
            path: self.path@,
            authorization: match self.authorization {
                Some(a) => Some(a@),
                None => None,
            },
        }
    }
}

/// HTTP Basic authentication: lets a request through only when its
/// `Authorization` header equals the expected credential; CORS preflights
/// always pass.
#[derive(Debug, Clone, PartialEq, Eq)]
pub struct BasicAuthMiddleware {
    /// The expected `Authorization` header value.
    pub api_basic_auth: String,
    /// The challenge sent back to a request that fails.
    pub basic_realm: String,
}

impl BasicAuthMiddleware {
    /// A middleware expecting the given credential, answering failures with
    /// the given realm challenge.
    pub fn new(api_basic_auth: String, basic_realm: String) -> (r: BasicAuthMiddleware)
        ensures
            r.api_basic_auth == api_basic_auth,
            r.basic_realm == basic_realm,
    {
        BasicAuthMiddleware { api_basic_auth, basic_realm }
    }
}

/// Whether a request's credential passes a middleware expecting `expected`.
pub open spec fn credential_matches(authorization: Option<Seq<char>>, expected: Seq<char>) -> bool {
    authorization == Some(expected)
}

/// The response that refuses a request without valid credentials: status
/// 401, the CORS headers, the challenge, and no body.
pub open spec fn is_unauthorized(r: ResponseView, realm: Seq<char>) -> bool {
    &&& r.status == STATUS_UNAUTHORIZED
    &&& r.headers == cors_headers().push(("www-authenticate"@, realm))
    &&& r.body == Seq::<char>::empty()
}

/// The response to a request that no route serves.
pub fn not_found_response() -> (r: HttpResponse)
    ensures
        is_envelope(r@, STATUS_NOT_FOUND, Seq::empty()),
{
    response(STATUS_NOT_FOUND, String::new())
}

/// The response that refuses a request, with the given challenge.
pub fn unauthorized_response(realm: &String) -> (r: HttpResponse)
    ensures
        is_unauthorized(r@, realm@),
{
    let mut r = response(STATUS_UNAUTHORIZED, String::new());
    let ghost before = r.headers@;
    r.headers.push(Header { name: String::from_str("www-authenticate"), value: realm.clone() });
    assert(r.headers@.map_values(|h: Header| header_view(h)) =~= before.map_values(
        |h: Header| header_view(h),
    ).push(("www-authenticate"@, realm@)));
    r
}

/// A set of routes with unique paths, and the middleware run before each.
#[verifier::reject_recursive_types(H)]
pub struct Router<H> {
    paths: Vec<String>,
    handlers: Vec<H>,
    middlewares: Vec<BasicAuthMiddleware>,
}

/// The abstract content of a router.
pub struct RouterView<H> {
    /// The registered paths, in order of registration.
    pub paths: Seq<Seq<char>>,
    /// The handler bound to each path.
    pub handlers: Seq<H>,
    /// Each middleware's expected credential and challenge, in order.
    pub auth: Seq<(Seq<char>, Seq<char>)>,
}

pub open spec fn auth_view(m: BasicAuthMiddleware) -> (Seq<char>, Seq<char>) {
    (m.api_basic_auth@, m.basic_realm@)
}

impl<H> View for Router<H> {
    type V = RouterView<H>;

    closed spec fn view(&self) -> RouterView<H> {
        RouterView {
            paths: self.paths@.map_values(|p: String| p@),
            handlers: self.handlers@,
            auth: self.middlewares@.map_values(|m: BasicAuthMiddleware| auth_view(m)),
        }
    }
}

/// What answers a request, as decided by the router.
pub enum RouteDecision {
    /// No route has the path.
    NotFound,
    /// A CORS preflight on a registered path.
    Preflight,
    /// The middleware at this index refuses the request.
    Unauthorized(int),
    /// The handler at this index takes the call.
    Dispatch(int),
    /// A method other than POST or OPTIONS on a registered path.
    Unsupported,
}

/// Whether every middleware lets the credential through.
pub open spec fn all_pass(auth: Seq<(Seq<char>, Seq<char>)>, authorization: Option<Seq<char>>) -> bool {
    forall|j: int| 0 <= j < auth.len() ==> credential_matches(authorization, #[trigger] auth[j].0)
}

/// The first middleware that refuses the credential.
pub open spec fn first_refusal(auth: Seq<(Seq<char>, Seq<char>)>, authorization: Option<Seq<char>>, k: int) -> bool {
    &&& 0 <= k < auth.len()
    &&& !credential_matches(authorization, auth[k].0)
    &&& forall|j: int| 0 <= j < k ==> credential_matches(authorization, #[trigger] auth[j].0)
}

/// What answers a request on a router: a path no route has is not found; a
/// preflight on a registered path is answered before any middleware; the
/// first middleware that refuses the credential answers; a POST goes to the
/// path's handler.
pub open spec fn route_decision<H>(v: RouterView<H>, req: RequestView) -> RouteDecision {
    if !v.paths.contains(req.path) {
        RouteDecision::NotFound
    } else if req.method == HttpMethod::Options {
        RouteDecision::Preflight
    } else if !all_pass(v.auth, req.authorization) {
        RouteDecision::Unauthorized(
            choose|k: int| first_refusal(v.auth, req.authorization, k),
        )
    } else if req.method == HttpMethod::Post {
        RouteDecision::Dispatch(v.paths.index_of(req.path))
    } else {
        RouteDecision::Unsupported
    }
}

/// What the router hands back for a request: a response to send, or the
/// handler that takes the call.
pub enum RouteOutcome<'a, H> {
    /// Send this response.
    Respond(HttpResponse),
    /// Dispatch the POST to this handler.
    Dispatch(&'a H),
}

impl<H> Router<H> {
    /// The router's invariant: one handler per path, and no path twice.
    pub closed spec fn wf(&self) -> bool {
        &&& self.paths.len() == self.handlers.len()
        &&& self@.paths.no_duplicates()
    }

    /// A router with no route and no middleware.
    pub fn new() -> (r: Router<H>)
        ensures
            r.wf(),
            r@.paths == Seq::<Seq<char>>::empty(),
            r@.handlers == Seq::<H>::empty(),
            r@.auth == Seq::<(Seq<char>, Seq<char>)>::empty(),
    {
        let r = Router { paths: Vec::new(), handlers: Vec::new(), middlewares: Vec::new() };
        assert(r@.paths =~= Seq::<Seq<char>>::empty());
        assert(r@.auth =~= Seq::<(Seq<char>, Seq<char>)>::empty());
        r
    }

    /// The index of the route with the given path, if any.
    fn find(&self, path: &String) -> (r: Option<usize>)
        requires
            self.wf(),
        ensures
            r is None <==> !self@.paths.contains(path@),
            r matches Some(i) ==> i == self@.paths.index_of(path@) && i < self@.paths.len(),
    {
        let mut i: usize = 0;
        while i < self.paths.len()
            invariant
                self.wf(),
                0 <= i <= self.paths.len(),
                forall|j: int| 0 <= j < i ==> self@.paths[j] != path@,
            decreases self.paths.len() - i,
        {
            if self.paths[i] == *path {
                assert(self@.paths[i as int] == path@);
                proof {
                    let c = self@.paths.index_of(path@);
                    assert(0 <= c < self@.paths.len() && self@.paths[c] == path@);
                }
                return Some(i);
            }
            i = i + 1;
        }
        assert(!self@.paths.contains(path@));
        None
    }

    /// Binds a handler to a path. Fails, leaving the router as it was, when
    /// the path is already registered.
    pub fn add_route(&mut self, path: String, handler: H) -> (r: Result<(), ()>)
        requires
            old(self).wf(),
        ensures
            final(self).wf(),
            r is Err <==> old(self)@.paths.contains(path@),
            r is Err ==> final(self)@ == old(self)@,
            r is Ok ==> final(self)@.paths == old(self)@.paths.push(path@),
            r is Ok ==> final(self)@.handlers == old(self)@.handlers.push(handler),
            final(self)@.auth == old(self)@.auth,
    {
        match self.find(&path) {
            Some(_) => Err(()),
            None => {
                let ghost before = self@;
                self.paths.push(path);
                self.handlers.push(handler);
                assert(self@.paths =~= before.paths.push(path@));
                proof {
                    assert forall|a: int, b: int|
                        0 <= a < self@.paths.len() && 0 <= b < self@.paths.len() && a != b
                            implies self@.paths[a] != self@.paths[b] by {
                        if b == before.paths.len() {
                            assert(before.paths[a] == self@.paths[a]);
                        } else if a == before.paths.len() {
                            assert(before.paths[b] == self@.paths[b]);
                        }
                    }
                }
                Ok(())
            },
        }
    }

    /// Appends a middleware to the chain run before every route.
    pub fn add_middleware(&mut self, middleware: BasicAuthMiddleware)
        requires
            old(self).wf(),
        ensures
            final(self).wf(),
            final(self)@.paths == old(self)@.paths,
            final(self)@.handlers == old(self)@.handlers,
            final(self)@.auth == old(self)@.auth.push(auth_view(middleware)),
    {
        let ghost before = self@;
        self.middlewares.push(middleware);
        assert(self@.auth =~= before.auth.push(auth_view(middleware)));
    }

    /// Decides what answers a request, as `route_decision` says.
    pub fn route(&self, req: &HttpRequest) -> (r: RouteOutcome<'_, H>)
        requires
            self.wf(),
        ensures
            outcome_follows(self@, req@, r),
    {
        let idx = self.find(&req.path);
        match idx {
            None => RouteOutcome::Respond(not_found_response()),
            Some(i) => {
                if req.method == HttpMethod::Options {
                    return RouteOutcome::Respond(options_response());
                }
                let mut k: usize = 0;
                while k < self.middlewares.len()
                    invariant
                        0 <= k <= self.middlewares.len(),
                        self.wf(),
                        self@.paths.contains(req@.path),
                        i == self@.paths.index_of(req@.path),
                        i < self@.paths.len(),
                        req@.method != HttpMethod::Options,
                        forall|j: int|
                            0 <= j < k ==> credential_matches(
                                req@.authorization,
                                #[trigger] self@.auth[j].0,
                            ),
                    decreases self.middlewares.len() - k,
                {
                    let m = &self.middlewares[k];
                    let passes = match &req.authorization {
                        Some(a) => *a == m.api_basic_auth,
                        None => false,
                    };
                    if !passes {
                        assert(self@.auth[k as int] == auth_view(*m));
                        assert(first_refusal(self@.auth, req@.authorization, k as int));
                        proof {
                            lemma_first_refusal_unique(self@.auth, req@.authorization, k as int);
                        }
                        let resp = unauthorized_response(&m.basic_realm);
                        return RouteOutcome::Respond(resp);
                    }
                    assert(self@.auth[k as int] == auth_view(*m));
                    k = k + 1;
                }
                match req.method {
                    HttpMethod::Post => RouteOutcome::Dispatch(&self.handlers[i]),
                    _ => RouteOutcome::Respond(not_found_response()),
                }
            },
        }
    }
}

/// Only one middleware is the first to refuse a credential.
proof fn lemma_first_refusal_unique(
    auth: Seq<(Seq<char>, Seq<char>)>,
    authorization: Option<Seq<char>>,
    k: int,
)
    requires
        first_refusal(auth, authorization, k),
    ensures
        !all_pass(auth, authorization),
        (choose|x: int| first_refusal(auth, authorization, x)) == k,
{
    let c = choose|x: int| first_refusal(auth, authorization, x);
    if c < k {
        assert(credential_matches(authorization, auth[c].0));
    } else if c > k {
        assert(credential_matches(authorization, auth[k].0));
    }
}

/// A CORS preflight on any registered path is answered with the preflight
/// success, whatever middleware the router runs and whatever credential the
/// request carries.
pub proof fn lemma_preflight_on_every_route<H>(v: RouterView<H>, req: RequestView)
    requires
        v.paths.contains(req.path),
        req.method == HttpMethod::Options,
    ensures
        route_decision(v, req) == RouteDecision::Preflight,
{
}

/// Whether a router's outcome for a request is the one `route_decision` gives.
pub open spec fn outcome_follows<H>(v: RouterView<H>, req: RequestView, r: RouteOutcome<'_, H>) -> bool {
    match route_decision(v, req) {
        RouteDecision::NotFound => r matches RouteOutcome::Respond(resp) && is_envelope(
            resp@,
            STATUS_NOT_FOUND,
            Seq::empty(),
        ),
        RouteDecision::Preflight => r matches RouteOutcome::Respond(resp) && is_envelope(
            resp@,
            STATUS_OK,
            preflight_text(),
        ),
        RouteDecision::Unauthorized(k) => r matches RouteOutcome::Respond(resp) && is_unauthorized(
            resp@,
            v.auth[k].1,
        ),
        RouteDecision::Dispatch(i) => r matches RouteOutcome::Dispatch(h) && *h == v.handlers[i],
        RouteDecision::Unsupported => r matches RouteOutcome::Respond(resp) && is_envelope(
            resp@,
            STATUS_NOT_FOUND,
            Seq::empty(),
        ),
    }
}

} // verus!
