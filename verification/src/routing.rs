//! The route table: which handler answers which method and path.
//!
//! A table is built once, route by route, and only read afterwards. A request
//! goes to the first route of the table whose method is the request's and
//! whose pattern matches the request's path.

use crate::auth::{passes, RequireAuthorization};
use crate::http::Method;
use crate::path::{segments, split_path, texts};
use crate::pattern::{
    bind, bindings, is_pattern, match_pattern, params_view, parse_pattern, pattern_of,
    pattern_view, PathParam, PathParamView, Segment, SegmentView,
};
use vstd::prelude::*;

verus! {

/// The handlers that a route can lead to.
#[derive(Clone, Copy, Debug, PartialEq, Eq, Structural)]
pub enum Handler {
    /// The fixed greeting.
    HelloAxum,
    /// The greeting by name.
    Hello,
    /// Reads the value at a key.
    KvGet,
    /// Writes the body at a key.
    KvPost,
    /// Removes every key.
    AdminDelete,
    /// Removes one key.
    AdminDeleteKey,
}

/// Whether the size of a request's body is capped on a route.
#[derive(Clone, Copy, Debug, PartialEq, Eq, Structural)]
pub enum BodyLimit {
    /// The server's usual cap applies.
    Capped,
    /// The cap is lifted: a body of any size is taken.
    Disabled,
}

/// What a route leads to: a handler, and the policy on the body's size.
#[derive(Clone, Copy, Debug, PartialEq, Eq, Structural)]
pub struct Endpoint {
    pub handler: Handler,
    pub body_limit: BodyLimit,
}

impl Endpoint {
    /// The endpoint of `handler`, with the usual cap on the body's size.
    pub fn new(handler: Handler) -> (e: Endpoint)
        ensures
            e == (Endpoint { handler, body_limit: BodyLimit::Capped }),
    {
        Endpoint { handler, body_limit: BodyLimit::Capped }
    }

    /// The same endpoint with another policy on the body's size.
    pub fn body_limit(self, limit: BodyLimit) -> (e: Endpoint)
        ensures
            e == (Endpoint { handler: self.handler, body_limit: limit }),
    {
        Endpoint { handler: self.handler, body_limit: limit }
    }
}

/// One route of the table.
pub struct Route {
    method: Method,
    pattern: Vec<Segment>,
    endpoint: Endpoint,
    guards: Vec<RequireAuthorization>,
}

/// What a route is, mathematically.
pub struct RouteView {
    pub method: Seq<char>,
    pub pattern: Seq<SegmentView>,
    pub endpoint: Endpoint,
    /// The `Authorization` header values that the route's checks expect.
    pub guards: Seq<Seq<char>>,
}

/// The view of a list of checks.
pub open spec fn guards_view(guards: Seq<RequireAuthorization>) -> Seq<Seq<char>> {
    Seq::new(guards.len(), |i: int| guards[i]@)
}

impl View for Route {
    type V = RouteView;

    closed spec fn view(&self) -> RouteView {
        RouteView {
            method: self.method@,
            pattern: pattern_view(self.pattern@),
            endpoint: self.endpoint,
            guards: guards_view(self.guards@),
        }
    }
}

/// The parameters that a route binds on a method and the segments of a path;
/// `None` where the method is another or the pattern does not match.
pub open spec fn route_bind(route: RouteView, method: Seq<char>, parts: Seq<Seq<char>>) -> Option<
    Seq<PathParamView>,
> {
    if route.method == method {
        bind(route.pattern, parts)
    } else {
        None
    }
}

/// Whether route `i` is the first of the table that takes the method and the
/// segments.
pub open spec fn is_first_match(
    table: Seq<RouteView>,
    method: Seq<char>,
    parts: Seq<Seq<char>>,
    i: int,
) -> bool {
    &&& 0 <= i < table.len()
    &&& route_bind(table[i], method, parts) is Some
    &&& forall|j: int| 0 <= j < i ==> route_bind(#[trigger] table[j], method, parts) is None
}

/// The first route of the table that takes the method and the segments.
pub open spec fn first_match(table: Seq<RouteView>, method: Seq<char>, parts: Seq<Seq<char>>)
    -> Option<int> {
    if exists|i: int| is_first_match(table, method, parts, i) {
        Some(choose|i: int| is_first_match(table, method, parts, i))
    } else {
        None
    }
}

/// Where a request goes: the route, what it leads to, and the parameters that
/// its pattern bound.
pub struct Resolved {
    pub index: usize,
    pub endpoint: Endpoint,
    pub params: Vec<PathParam>,
}

/// What the place a request goes to is, mathematically.
pub struct ResolvedView {
    pub index: int,
    pub endpoint: Endpoint,
    pub params: Seq<PathParamView>,
}

impl View for Resolved {
    type V = ResolvedView;

    open spec fn view(&self) -> ResolvedView {
        ResolvedView {
            index: self.index as int,
            endpoint: self.endpoint,
            params: params_view(self.params@),
        }
    }
}

/// The view of a place that may be absent.
pub open spec fn resolved_view(r: Option<Resolved>) -> Option<ResolvedView> {
    match r {
        Some(found) => Some(found@),
        None => None,
    }
}

/// Where a request with this method and path goes in the table; `None` where
/// the path has no leading slash or no route takes the request.
pub open spec fn resolve(table: Seq<RouteView>, method: Seq<char>, path: Seq<char>) -> Option<
    ResolvedView,
> {
    match segments(path) {
        None => None,
        Some(parts) => match first_match(table, method, parts) {
            None => None,
            Some(i) => Some(
                ResolvedView {
                    index: i,
                    endpoint: table[i].endpoint,
                    params: bindings(table[i].pattern, parts),
                },
            ),
        },
    }
}

/// The first match is the only one: where route `i` is the first that takes
/// the request, `first_match` names it.
pub proof fn lemma_first_match_is(
    table: Seq<RouteView>,
    method: Seq<char>,
    parts: Seq<Seq<char>>,
    i: int,
)
    requires
        is_first_match(table, method, parts, i),
    ensures
        first_match(table, method, parts) == Some(i),
{
    let k = choose|k: int| is_first_match(table, method, parts, k);
    if k < i {
        assert(route_bind(table[k], method, parts) is None);
    } else if i < k {
        assert(route_bind(table[i], method, parts) is None);
    }
}

/// Where no route takes the request, there is no first match.
pub proof fn lemma_no_match(table: Seq<RouteView>, method: Seq<char>, parts: Seq<Seq<char>>)
    requires
        forall|j: int| 0 <= j < table.len() ==> route_bind(#[trigger] table[j], method, parts) is None,
    ensures
        first_match(table, method, parts) is None,
{
}

/// Whether a request with this `Authorization` header passes every check of a
/// route.
pub open spec fn authorized(guards: Seq<Seq<char>>, header: Option<Seq<char>>) -> bool {
    forall|i: int| 0 <= i < guards.len() ==> passes(#[trigger] guards[i], header)
}

/// The route with one more check, which a request must pass as well.
pub open spec fn guarded_route(route: RouteView, expected: Seq<char>) -> RouteView {
    RouteView {
        method: route.method,
        pattern: route.pattern,
        endpoint: route.endpoint,
        guards: route.guards.push(expected),
    }
}

/// The table with one more check on every route.
pub open spec fn guarded(table: Seq<RouteView>, expected: Seq<char>) -> Seq<RouteView> {
    Seq::new(table.len(), |i: int| guarded_route(table[i], expected))
}

/// The route under a prefix: it takes the paths made of the prefix's segments
/// followed by its own.
pub open spec fn nested_route(prefix: Seq<SegmentView>, route: RouteView) -> RouteView {
    RouteView {
        method: route.method,
        pattern: prefix + route.pattern,
        endpoint: route.endpoint,
        guards: route.guards,
    }
}

/// The table under a prefix.
pub open spec fn nested(prefix: Seq<SegmentView>, table: Seq<RouteView>) -> Seq<RouteView> {
    Seq::new(table.len(), |i: int| nested_route(prefix, table[i]))
}

/// A route table.
pub struct Router {
    routes: Vec<Route>,
}

impl View for Router {
    type V = Seq<RouteView>;

    closed spec fn view(&self) -> Seq<RouteView> {
        Seq::new(self.routes@.len(), |i: int| self.routes@[i]@)
    }
}

impl Router {
    /// The table without routes.
    pub fn new() -> (router: Router)
        ensures
            router@ == Seq::<RouteView>::empty(),
    {
        let router = Router { routes: Vec::new() };
        assert(router@ =~= Seq::<RouteView>::empty());
        router
    }

    /// The number of routes.
    pub fn len(&self) -> (n: usize)
        ensures
            n == self@.len(),
    {
        self.routes.len()
    }

    /// The table with one more route at its end: requests with `method` whose
    /// path matches the pattern `path` go to `endpoint`, unless an earlier
    /// route takes them.
    pub fn route(self, path: &str, method: Method, endpoint: Endpoint) -> (router: Router)
        requires
            is_pattern(path@),
        ensures
            router@ == self@.push(
                RouteView {
                    method: method@,
                    pattern: pattern_of(path@),
                    endpoint,
                    guards: Seq::empty(),
                },
            ),
    {
        let ghost before = self@;
        let mut routes = self.routes;
        let route = Route { method, pattern: parse_pattern(path), endpoint, guards: Vec::new() };
        assert(route@.guards =~= Seq::<Seq<char>>::empty());
        routes.push(route);
        let router = Router { routes };
        assert(router@ =~= before.push(route@));
        router
    }

    /// The table with one more check on each of its routes: a request that
    /// goes to one of them must pass `check` as well.
    pub fn layer(self, check: RequireAuthorization) -> (router: Router)
        ensures
            router@ == guarded(self@, check@),
    {
        let ghost before = self@;
        let mut routes = self.routes;
        let mut i: usize = 0;
        while i < routes.len()
            invariant
                i <= routes.len(),
                routes.len() == before.len(),
                forall|j: int| 0 <= j < i ==> (#[trigger] routes[j])@ == guarded_route(before[j], check@),
                forall|j: int| i <= j < routes.len() ==> (#[trigger] routes[j])@ == before[j],
            decreases routes.len() - i,
        {
            let ghost old_guards = guards_view(routes[i as int].guards@);
            routes[i].guards.push(check.duplicate());
            assert(guards_view(routes[i as int].guards@) =~= old_guards.push(check@));
            i = i + 1;
        }
        let router = Router { routes };
        assert(router@ =~= guarded(before, check@));
        router
    }

    /// The table with the routes of `sub` added at its end, each under the
    /// prefix: a route of `sub` for `/kv` under the prefix `/admin` takes
    /// `/admin/kv`.
    pub fn nest(self, prefix: &str, sub: Router) -> (router: Router)
        requires
            is_pattern(prefix@),
        ensures
            router@ == self@ + nested(pattern_of(prefix@), sub@),
    {
        let ghost before = self@;
        let ghost inner = sub@;
        let ghost lead = pattern_of(prefix@);
        let mut routes = self.routes;
        let mut added = sub.routes;
        let mut i: usize = 0;
        while i < added.len()
            invariant
                i <= added.len(),
                added.len() == inner.len(),
                is_pattern(prefix@),
                lead == pattern_of(prefix@),
                forall|j: int| 0 <= j < i ==> (#[trigger] added[j])@ == nested_route(lead, inner[j]),
                forall|j: int| i <= j < added.len() ==> (#[trigger] added[j])@ == inner[j],
            decreases added.len() - i,
        {
            let ghost own = pattern_view(added[i as int].pattern@);
            let mut pattern = parse_pattern(prefix);
            pattern.append(&mut added[i].pattern);
            assert(pattern_view(pattern@) =~= lead + own);
            added[i].pattern = pattern;
            i = i + 1;
        }
        let ghost head = routes@;
        let ghost tail = added@;
        routes.append(&mut added);
        let router = Router { routes };
        assert(router@ =~= before + nested(lead, inner)) by {
            assert(routes@ =~= head + tail);
        }
        router
    }

    /// Whether a request with this `Authorization` header passes every check
    /// of route `index`. A table without such a route admits nothing.
    pub fn admits(&self, index: usize, header: &Option<String>) -> (ok: bool)
        ensures
            ok == (index < self@.len() && authorized(
                self@[index as int].guards,
                crate::http::text_view(*header),
            )),
    {
        if index >= self.routes.len() {
            return false;
        }
        let route = &self.routes[index];
        assert(self@[index as int] == route@);
        let mut i: usize = 0;
        while i < route.guards.len()
            invariant
                i <= route.guards.len(),
                index < self@.len(),
                self@[index as int].guards == guards_view(route.guards@),
                forall|j: int| 0 <= j < i ==> passes(
                    #[trigger] guards_view(route.guards@)[j],
                    crate::http::text_view(*header),
                ),
            decreases route.guards.len() - i,
        {
            if !route.guards[i].authorize(header) {
                assert(guards_view(route.guards@)[i as int] == route.guards[i as int]@);
                return false;
            }
            assert(guards_view(route.guards@)[i as int] == route.guards[i as int]@);
            i = i + 1;
        }
        true
    }

    /// Where a request with this method and path goes.
    pub fn resolve(&self, method: &Method, path: &str) -> (found: Option<Resolved>)
        ensures
            resolved_view(found) == resolve(self@, method@, path@),
    {
        let parts = match split_path(path) {
            Some(parts) => parts,
            None => {
                return None;
            },
        };
        let ghost segs = texts(parts@);
        let mut i: usize = 0;
        while i < self.routes.len()
            invariant
                i <= self.routes.len(),
                segs == texts(parts@),
                segments(path@) == Some(segs),
                forall|j: int| 0 <= j < i ==> route_bind(#[trigger] self@[j], method@, segs) is None,
            decreases self.routes.len() - i,
        {
            let route = &self.routes[i];
            assert(self@[i as int] == route@);
            if route.method.same(method) {
                match match_pattern(&route.pattern, &parts) {
                    Some(params) => {
                        proof {
                            lemma_first_match_is(self@, method@, segs, i as int);
                        }
                        return Some(Resolved { index: i, endpoint: route.endpoint, params });
                    },
                    None => {},
                }
            }
            i = i + 1;
        }
        proof {
            lemma_no_match(self@, method@, segs);
        }
        None
    }
}

} // verus!
