//! The router: one route table per supported method, registration, and
//! dispatch of a request to the handler its path selects.
use vstd::prelude::*;
use vstd::utf8::encode_utf8;
use vstd::slice::slice_to_vec;
use crate::http::{HttpRequest, HttpResponse, is_plain_response};
use crate::matcher::{
    clone_table, fits_param_limit, insert_route, lemma_count_absent, lookup, new_table, routes_of, selected_route, within_param_limit,
};
use crate::query::{
    lemma_concat_lacks, parse_url_query, query_params, query_params_outcome, url_query,
};
use vstd::string::StringExecFns;
use crate::text::{before_char, lemma_before_char_absent, lemma_before_char_split, pairs_view, split_once};

verus! {

/// Whether a dispatch may have side effects.
#[derive(PartialEq, Eq, Structural, Clone, Copy)]
pub enum CallType {
    Query,
    Update,
}

/// The methods that have a route table.
#[derive(PartialEq, Eq, Structural, Clone, Copy)]
pub enum Method {
    Get,
    Post,
    Head,
}

/// A registration that the router refuses.
#[derive(PartialEq, Eq, Structural, Clone, Copy, Debug)]
pub enum ConfigurationError {
    /// The pattern does not begin with `/`.
    MissingLeadingSlash,
    /// The pattern holds more parameters than a route table can name.
    TooManyParameters,
    /// The pattern is already registered for the method, or overlaps another
    /// one in a way the route table cannot tell apart.
    Conflict,
}

/// What a handler receives: the request, the parameters its pattern
/// captured, the call mode and the query parameters.
pub struct CanisterRouterContext {
    pub request: HttpRequest,
    /// The captured parameters, in the pattern's order; `None` where there are none.
    pub params: Option<Vec<(String, String)>>,
    pub call_type: CallType,
    /// One entry per key, with the last value given; `None` where the URL has no query.
    pub query: Option<Vec<(String, String)>>,
}

/// Application logic run for a matched request.
pub trait Handler {
    /// Handle a request.
    /// The handler is called for requests with a matching path and method.
    fn handle(&self, req: CanisterRouterContext) -> HttpResponse;
}

/// Routes requests to handlers by method and path pattern.
pub struct CanisterRouter<H> {
    get_table: Option<matchit::Router<usize>>,
    post_table: Option<matchit::Router<usize>>,
    head_table: Option<matchit::Router<usize>>,
    handlers: Vec<H>,
}

/// The method named by a request's method text.
pub open spec fn method_of(m: Seq<char>) -> Option<Method> {
    if m == "POST"@ {
        Some(Method::Post)
    } else if m == "GET"@ {
        Some(Method::Get)
    } else if m == "HEAD"@ {
        Some(Method::Head)
    } else {
        None
    }
}

/// The path of a request URL: what comes before the query.
pub open spec fn request_path(url: Seq<char>) -> Seq<char> {
    before_char(url, '?')
}

/// The absolute URL that a request's URL is read as.
pub open spec fn absolute_url(url: Seq<char>) -> Seq<char> {
    "http://example.com"@ + url
}

/// Every value in `routes` is below `n`.
pub open spec fn values_below(routes: Map<Seq<char>, usize>, n: nat) -> bool {
    forall|p: Seq<char>| routes.contains_key(p) ==> routes[p] < n
}

/// Whether `pattern` can be registered at all.
pub open spec fn has_leading_slash(pattern: Seq<char>) -> bool {
    pattern.len() > 0 && pattern[0] == '/'
}

/// The parameters as handed to a handler: absent when none were captured.
pub open spec fn params_field(params: Seq<(Seq<char>, Seq<char>)>) -> Option<Seq<(Seq<char>, Seq<char>)>> {
    if params.len() == 0 {
        None
    } else {
        Some(params)
    }
}

/// The characters of optional pairs.
pub open spec fn opt_pairs_view(o: Option<Vec<(String, String)>>) -> Option<Seq<(Seq<char>, Seq<char>)>> {
    match o {
        Some(v) => Some(pairs_view(v@)),
        None => None,
    }
}

/// The body of the response to a path that no pattern matches.
pub open spec fn no_match_body() -> Seq<u8> {
    encode_utf8("There was no match"@)
}

/// A 400 response whose body gives `detail` as the reason the URL was refused.
pub open spec fn is_invalid_url_response(r: HttpResponse, detail: Seq<char>) -> bool {
    is_plain_response(r, 400, encode_utf8("Url is invalid: "@ + detail))
}

/// What routing a request gives: the index of the handler to run and the
/// context it receives, or the response that answers the request at once.
pub open spec fn routing_outcome<H>(
    router: CanisterRouter<H>,
    req: HttpRequest,
    call_type: CallType,
    r: Result<(usize, CanisterRouterContext), HttpResponse>,
) -> bool {
    match method_of(req.method@) {
        None => r is Err && is_plain_response(r->Err_0, 404, Seq::empty()),
        Some(m) => match router.table(m) {
            None => r is Err && is_plain_response(r->Err_0, 404, Seq::empty()),
            Some(routes) => match selected_route(routes, request_path(req.url@)) {
                None => r is Err && is_plain_response(r->Err_0, 404, no_match_body()),
                Some((pattern, params)) => match url_query(absolute_url(req.url@)) {
                    Err(detail) => r is Err && is_invalid_url_response(r->Err_0, detail),
                    Ok(q) => r is Ok && {
                        let (index, ctx) = r->Ok_0;
                        &&& routes.contains_key(pattern)
                        &&& index == routes[pattern]
                        &&& ctx.request == req
                        &&& ctx.call_type == call_type
                        &&& opt_pairs_view(ctx.params) == params_field(params)
                        &&& query_params_outcome(q, ctx.query)
                        &&& (!req.url@.contains('?') ==> ctx.query is None)
                    },
                },
            },
        },
    }
}

/// The path of a request URL: what comes before the query.
pub fn path_of(url: &str) -> (r: &str)
    ensures
        r@ == request_path(url@),
{
    match split_once(url, '?') {
        Some((p, rest)) => {
            proof {
                lemma_before_char_split(p@, rest@, '?');
            }
            p
        },
        None => {
            proof {
                lemma_before_char_absent(url@, '?');
            }
            url
        },
    }
}

/// What registering `handler` for `pattern` under method `m` does to a router.
pub open spec fn registration_outcome<H>(
    before: CanisterRouter<H>,
    after: CanisterRouter<H>,
    m: Method,
    pattern: Seq<char>,
    handler: H,
    r: Result<(), ConfigurationError>,
) -> bool {
    &&& after.wf()
    &&& (r == Err::<(), _>(ConfigurationError::MissingLeadingSlash)) <==> !has_leading_slash(pattern)
    &&& (r == Err::<(), _>(ConfigurationError::TooManyParameters)) <==> (has_leading_slash(pattern)
        && !within_param_limit(pattern))
    &&& (has_leading_slash(pattern) && within_param_limit(pattern) && (before.table(m) matches Some(
        routes,
    ) && routes.contains_key(pattern))) ==> r == Err::<(), _>(ConfigurationError::Conflict)
    &&& (has_leading_slash(pattern) && !pattern.contains('{') && !pattern.contains('}') && !(before.table(
        m,
    ) matches Some(routes) && routes.contains_key(pattern))) ==> r is Ok
    &&& r is Err ==> after.handlers() == before.handlers() && forall|k: Method|
        after.table(k) == before.table(k)
    &&& r is Ok ==> {
        &&& after.handlers() == before.handlers().push(handler)
        &&& after.table(m) == Some(
            match before.table(m) {
                Some(routes) => routes,
                None => Map::empty(),
            }.insert(pattern, before.handlers().len() as usize),
        )
        &&& forall|k: Method| k != m ==> after.table(k) == before.table(k)
    }
}

/// The method that a request's method text names.
fn parse_method(m: &String) -> (r: Option<Method>)
    ensures
        r == method_of(m@),
{
    if *m == "POST".to_owned() {
        Some(Method::Post)
    } else if *m == "GET".to_owned() {
        Some(Method::Get)
    } else if *m == "HEAD".to_owned() {
        Some(Method::Head)
    } else {
        None
    }
}

impl<H> CanisterRouter<H> {
    /// The routes registered for `m`, each with its handler's index; `None`
    /// where nothing was ever registered for `m`.
    pub closed spec fn table(&self, m: Method) -> Option<Map<Seq<char>, usize>> {
        let t = match m {
            Method::Get => self.get_table,
            Method::Post => self.post_table,
            Method::Head => self.head_table,
        };
        match t {
            Some(t) => Some(routes_of(t)),
            None => None,
        }
    }

    /// The handlers, in the order of registration.
    pub closed spec fn handlers(&self) -> Seq<H> {
        self.handlers@
    }

    /// Every route refers to a registered handler.
    pub open spec fn wf(&self) -> bool {
        &&& self.handlers().len() <= usize::MAX
        &&& forall|m: Method|
            match #[trigger] self.table(m) {
                Some(routes) => values_below(routes, self.handlers().len()),
                None => true,
            }
    }

    /// A router with no routes.
    pub fn new() -> (r: Self)
        ensures
            r.wf(),
            r.handlers().len() == 0,
            forall|m: Method| r.table(m) is None,
    {
        CanisterRouter { get_table: None, post_table: None, head_table: None, handlers: Vec::new() }
    }

    fn take_table(&mut self, m: Method) -> (r: Option<matchit::Router<usize>>)
        ensures
            final(self).handlers == old(self).handlers,
            forall|k: Method| k != m ==> final(self).table(k) == old(self).table(k),
            final(self).table(m) is None,
            old(self).table(m) == match r {
                Some(t) => Some(routes_of(t)),
                None => None,
            },
    {
        match m {
            Method::Get => self.get_table.take(),
            Method::Post => self.post_table.take(),
            Method::Head => self.head_table.take(),
        }
    }

    fn put_table(&mut self, m: Method, t: Option<matchit::Router<usize>>)
        ensures
            final(self).handlers == old(self).handlers,
            forall|k: Method| k != m ==> final(self).table(k) == old(self).table(k),
            final(self).table(m) == match t {
                Some(t) => Some(routes_of(t)),
                None => None,
            },
    {
        match m {
            Method::Get => self.get_table = t,
            Method::Post => self.post_table = t,
            Method::Head => self.head_table = t,
        }
    }

    /// Registers `handler` for `pattern` under method `m`.
    pub fn register(&mut self, m: Method, pattern: &str, handler: H) -> (r: Result<(), ConfigurationError>)
        requires
            old(self).wf(),
        ensures
            registration_outcome(*old(self), *final(self), m, pattern@, handler, r),
    {
        let mut chars = pattern.chars();
        let first = chars.next();
        proof {
            reveal_strlit("/");
        }
        match first {
            Some(c) => {
                if c != '/' {
                    return Err(ConfigurationError::MissingLeadingSlash);
                }
            },
            None => {
                return Err(ConfigurationError::MissingLeadingSlash);
            },
        }
        proof {
            if !pattern@.contains('{') {
                lemma_count_absent(pattern@, '{');
            }
        }
        if !fits_param_limit(pattern) {
            return Err(ConfigurationError::TooManyParameters);
        }
        let ghost before = *self;
        let prev = self.take_table(m);
        let existed = prev.is_some();
        let (mut t, backup) = match prev {
            Some(t) => {
                let backup = clone_table(&t);
                (t, Some(backup))
            },
            None => (new_table(), None),
        };
        proof {
            if !existed {
                assert(routes_of(t) =~= Map::empty());
            }
        }
        let id = self.handlers.len();
        match insert_route(&mut t, pattern, id) {
            Ok(()) => {
                self.put_table(m, Some(t));
                self.handlers.push(handler);
                let count = self.handlers.len();
                proof {
                    assert(count == id + 1);
                    assert(self.handlers() == before.handlers().push(handler));
                    assert forall|k: Method|
                        match #[trigger] self.table(k) {
                            Some(routes) => values_below(routes, self.handlers().len()),
                            None => true,
                        } by {
                        if k != m {
                            assert(before.table(k) == self.table(k));
                        }
                    }
                }
                Ok(())
            },
            Err(_) => {
                self.put_table(m, backup);
                proof {
                    assert forall|k: Method| self.table(k) == before.table(k) by {}
                }
                Err(ConfigurationError::Conflict)
            },
        }
    }

    /// Registers `handler` for GET requests whose path matches `url`.
    pub fn get(&mut self, url: &str, handler: H) -> (r: Result<(), ConfigurationError>)
        requires
            old(self).wf(),
        ensures
            registration_outcome(*old(self), *final(self), Method::Get, url@, handler, r),
    {
        self.register(Method::Get, url, handler)
    }

    /// Registers `handler` for POST requests whose path matches `url`.
    pub fn post(&mut self, url: &str, handler: H) -> (r: Result<(), ConfigurationError>)
        requires
            old(self).wf(),
        ensures
            registration_outcome(*old(self), *final(self), Method::Post, url@, handler, r),
    {
        self.register(Method::Post, url, handler)
    }
    /// Registers `handler` for HEAD requests whose path matches `url`.
    pub fn head(&mut self, url: &str, handler: H) -> (r: Result<(), ConfigurationError>)
        requires
            old(self).wf(),
        ensures
            registration_outcome(*old(self), *final(self), Method::Head, url@, handler, r),
    {
        self.register(Method::Head, url, handler)
    }
    fn table_ref(&self, m: Method) -> (r: Option<&matchit::Router<usize>>)
        ensures
            self.table(m) == match r {
                Some(t) => Some(routes_of(*t)),
                None => None,
            },
    {
        match m {
            Method::Get => self.get_table.as_ref(),
            Method::Post => self.post_table.as_ref(),
            Method::Head => self.head_table.as_ref(),
        }
    }

    /// Selects the handler for `req` and assembles its context, or gives the
    /// response that answers `req` without a handler: 404 for a method
    /// without routes or a path that no pattern matches, 400 for a URL that
    /// does not parse.
    pub fn route(&self, req: HttpRequest, call_type: CallType) -> (r: Result<(usize, CanisterRouterContext), HttpResponse>)
        requires
            self.wf(),
        ensures
            routing_outcome(*self, req, call_type, r),
            r matches Ok((index, _)) ==> index < self.handlers().len(),
    {
        let m = match parse_method(&req.method) {
            Some(m) => m,
            None => {
                return Err(HttpResponse::not_found());
            },
        };
        let table = match self.table_ref(m) {
            Some(t) => t,
            None => {
                return Err(HttpResponse::not_found());
            },
        };
        let path = path_of(req.url.as_str());
        let (index, params) = match lookup(table, path) {
            Some(found) => found,
            None => {
                let mut resp = HttpResponse::not_found();
                resp.set_body(slice_to_vec("There was no match".as_bytes()));
                return Err(resp);
            },
        };
        let mut full = "http://example.com".to_owned();
        full.append(req.url.as_str());
        proof {
            reveal_strlit("http://example.com");
            if !req.url@.contains('?') {
                assert(!"http://example.com"@.contains('?'));
                lemma_concat_lacks("http://example.com"@, req.url@, '?');
            }
        }
        let query_text = match parse_url_query(full.as_str()) {
            Ok(q) => q,
            Err(text) => {
                let mut msg = "Url is invalid: ".to_owned();
                msg.append(text.as_str());
                return Err(HttpResponse::bad_request(Some(msg.as_str())));
            },
        };
        let query = match query_text {
            Some(q) => query_params(Some(q.as_str())),
            None => query_params(None),
        };
        let params = if params.len() == 0 {
            None
        } else {
            Some(params)
        };
        Ok((index, CanisterRouterContext { request: req, params, call_type, query }))
    }

    /// Answers `req`: the response of the handler that [`Self::route`]
    /// selects, given the context it assembles, or the response `route`
    /// gives where no handler is selected.
    pub fn process(&self, req: HttpRequest, call_context: CallType) -> (r: HttpResponse)
        where H: Handler,
        requires
            self.wf(),
        ensures
            exists|o: Result<(usize, CanisterRouterContext), HttpResponse>|
                routing_outcome(*self, req, call_context, o) && (o matches Err(resp) ==> r == resp),
    {
        let routed = self.route(req, call_context);
        let ghost o = routed;
        match routed {
            Err(resp) => resp,
            Ok((index, ctx)) => self.handlers[index].handle(ctx),
        }
    }
}

/// A request is handed to the handler registered with the pattern that the
/// method's route table selects for its path, and to no other: routing gives
/// that handler's index, with the request itself in the context.
pub proof fn lemma_dispatch_selects_registered<H>(
    router: CanisterRouter<H>,
    req: HttpRequest,
    call_type: CallType,
    r: Result<(usize, CanisterRouterContext), HttpResponse>,
    m: Method,
    routes: Map<Seq<char>, usize>,
    pattern: Seq<char>,
    params: Seq<(Seq<char>, Seq<char>)>,
)
    requires
        router.wf(),
        routing_outcome(router, req, call_type, r),
        method_of(req.method@) == Some(m),
        router.table(m) == Some(routes),
        selected_route(routes, request_path(req.url@)) == Some((pattern, params)),
        url_query(absolute_url(req.url@)) is Ok,
    ensures
        routes.contains_key(pattern),
        r is Ok,
        r->Ok_0.0 == routes[pattern],
        r->Ok_0.0 < router.handlers().len(),
        r->Ok_0.1.request == req,
        r->Ok_0.1.call_type == call_type,
        opt_pairs_view(r->Ok_0.1.params) == params_field(params),
{
    assert(match router.table(m) {
        Some(routes) => values_below(routes, router.handlers().len()),
        None => true,
    });
}

/// After a successful registration the pattern's route refers to the handler
/// just registered.
pub proof fn lemma_registration_stores_handler<H>(
    before: CanisterRouter<H>,
    after: CanisterRouter<H>,
    m: Method,
    pattern: Seq<char>,
    handler: H,
)
    requires
        registration_outcome(before, after, m, pattern, handler, Ok(())),
    ensures
        after.table(m) is Some,
        after.table(m)->Some_0.contains_key(pattern),
        after.handlers()[after.table(m)->Some_0[pattern] as int] == handler,
{
}

/// A registration, successful or not, keeps every route already present and
/// the handler it refers to.
pub proof fn lemma_registration_keeps_routes<H>(
    before: CanisterRouter<H>,
    after: CanisterRouter<H>,
    m: Method,
    pattern: Seq<char>,
    handler: H,
    r: Result<(), ConfigurationError>,
    k: Method,
    p: Seq<char>,
)
    requires
        before.wf(),
        registration_outcome(before, after, m, pattern, handler, r),
        before.table(k) is Some,
        before.table(k)->Some_0.contains_key(p),
    ensures
        after.table(k) is Some,
        after.table(k)->Some_0.contains_key(p),
        after.table(k)->Some_0[p] == before.table(k)->Some_0[p],
        after.handlers()[after.table(k)->Some_0[p] as int] == before.handlers()[before.table(k)->Some_0[p] as int],
{
    assert(match before.table(k) {
        Some(routes) => values_below(routes, before.handlers().len()),
        None => true,
    });
    if r is Ok && k == m {
        assert(p != pattern);
    }
}

/// A request whose method has no route table, or whose path no pattern of
/// that table matches, is answered 404 without a handler.
pub proof fn lemma_unregistered_not_found<H>(
    router: CanisterRouter<H>,
    req: HttpRequest,
    call_type: CallType,
    r: Result<(usize, CanisterRouterContext), HttpResponse>,
)
    requires
        routing_outcome(router, req, call_type, r),
        match method_of(req.method@) {
            None => true,
            Some(m) => match router.table(m) {
                None => true,
                Some(routes) => selected_route(routes, request_path(req.url@)) is None,
            },
        },
    ensures
        r is Err,
        r->Err_0.status_code == 404,
{
}

} // verus!
