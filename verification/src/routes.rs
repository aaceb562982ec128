//! The service's own route table, and the service made of it.

use crate::auth::{bearer_value, RequireAuthorization};
use crate::handlers::{error_reply, handle_error, PipelineError};
use crate::http::{Method, Response, ResponseView};
use crate::logger::{Logger, LoggerMiddleware};
use crate::path::{lemma_segments_of_path, path_of};
use crate::pattern::{is_pattern, pattern_of, SegmentView};
use crate::routing::{guarded, nested, BodyLimit, Endpoint, Handler, RouteView, Router};
use crate::service::reply_response;
use vstd::prelude::*;

verus! {

/// The bearer token that opens the admin routes.
pub const ADMIN_TOKEN: &'static str = "secret";

/// A route without checks and with the usual cap on the body's size.
pub open spec fn plain_route(method: Seq<char>, pattern: Seq<SegmentView>, handler: Handler)
    -> RouteView {
    RouteView {
        method,
        pattern,
        endpoint: Endpoint { handler, body_limit: BodyLimit::Capped },
        guards: Seq::empty(),
    }
}

/// The admin routes, as they stand under their prefix: removing every key at
/// `/kv`, removing one at `/kv/:key`, both behind the bearer token.
pub open spec fn admin_table() -> Seq<RouteView> {
    guarded(
        seq![
            plain_route("DELETE"@, seq![SegmentView::Literal("kv"@)], Handler::AdminDelete),
            plain_route(
                "DELETE"@,
                seq![SegmentView::Literal("kv"@), SegmentView::Param("key"@)],
                Handler::AdminDeleteKey,
            ),
        ],
        bearer_value(ADMIN_TOKEN@),
    )
}

/// The service's routes: the two greetings, reading and writing a key, and
/// the admin routes under `/admin`. Only the route that writes a key lifts the
/// cap on the body's size.
pub open spec fn table() -> Seq<RouteView> {
    seq![
        plain_route("GET"@, seq![SegmentView::Literal(""@)], Handler::HelloAxum),
        plain_route("GET"@, seq![SegmentView::Literal("hello"@)], Handler::Hello),
        plain_route(
            "GET"@,
            seq![SegmentView::Literal("kv"@), SegmentView::Param("key"@)],
            Handler::KvGet,
        ),
        RouteView {
            method: "POST"@,
            pattern: seq![SegmentView::Literal("kv"@), SegmentView::Param("key"@)],
            endpoint: Endpoint { handler: Handler::KvPost, body_limit: BodyLimit::Disabled },
            guards: Seq::empty(),
        },
    ] + nested(seq![SegmentView::Literal("admin"@)], admin_table())
}

/// The pattern `/` has one segment, the empty literal.
proof fn lemma_pattern_root()
    ensures
        is_pattern("/"@),
        pattern_of("/"@) == seq![SegmentView::Literal(""@)],
{
    reveal_strlit("/");
    reveal_strlit("");
    let parts = seq![""@];
    reveal_with_fuel(path_of, 2);
    assert("/"@ =~= path_of(parts));
    lemma_segments_of_path(parts);
    assert(pattern_of("/"@) =~= seq![SegmentView::Literal(""@)]);
}

/// The pattern `/hello` has one segment, a literal.
proof fn lemma_pattern_hello()
    ensures
        is_pattern("/hello"@),
        pattern_of("/hello"@) == seq![SegmentView::Literal("hello"@)],
{
    reveal_strlit("/hello");
    reveal_strlit("hello");
    let parts = seq!["hello"@];
    reveal_with_fuel(path_of, 2);
    assert("/hello"@ =~= path_of(parts));
    lemma_segments_of_path(parts);
    assert(pattern_of("/hello"@) =~= seq![SegmentView::Literal("hello"@)]);
}

/// The pattern `/kv` has one segment, a literal.
proof fn lemma_pattern_kv()
    ensures
        is_pattern("/kv"@),
        pattern_of("/kv"@) == seq![SegmentView::Literal("kv"@)],
{
    reveal_strlit("/kv");
    reveal_strlit("kv");
    let parts = seq!["kv"@];
    reveal_with_fuel(path_of, 2);
    assert("/kv"@ =~= path_of(parts));
    lemma_segments_of_path(parts);
    assert(pattern_of("/kv"@) =~= seq![SegmentView::Literal("kv"@)]);
}

/// The pattern `/admin` has one segment, a literal.
proof fn lemma_pattern_admin()
    ensures
        is_pattern("/admin"@),
        pattern_of("/admin"@) == seq![SegmentView::Literal("admin"@)],
{
    reveal_strlit("/admin");
    reveal_strlit("admin");
    let parts = seq!["admin"@];
    reveal_with_fuel(path_of, 2);
    assert("/admin"@ =~= path_of(parts));
    lemma_segments_of_path(parts);
    assert(pattern_of("/admin"@) =~= seq![SegmentView::Literal("admin"@)]);
}

/// The pattern `/kv/:key` has a literal and a parameter named `key`.
proof fn lemma_pattern_kv_key()
    ensures
        is_pattern("/kv/:key"@),
        pattern_of("/kv/:key"@) == seq![SegmentView::Literal("kv"@), SegmentView::Param("key"@)],
{
    reveal_strlit("/kv/:key");
    reveal_strlit("kv");
    reveal_strlit(":key");
    reveal_strlit("key");
    let parts = seq!["kv"@, ":key"@];
    reveal_with_fuel(path_of, 3);
    assert(parts.drop_last() =~= seq!["kv"@]);
    assert("/kv/:key"@ =~= path_of(parts));
    lemma_segments_of_path(parts);
    assert(":key"@.subrange(1, 4) =~= "key"@);
    assert(pattern_of("/kv/:key"@) =~= seq![
        SegmentView::Literal("kv"@),
        SegmentView::Param("key"@),
    ]);
}

/// The admin routes, behind the bearer token.
pub fn admin_routes() -> (routes: Router)
    ensures
        routes@ == admin_table(),
{
    proof {
        lemma_pattern_kv();
        lemma_pattern_kv_key();
    }
    let routes = Router::new()
        .route("/kv", Method::delete(), Endpoint::new(Handler::AdminDelete))
        .route("/kv/:key", Method::delete(), Endpoint::new(Handler::AdminDeleteKey))
        .layer(RequireAuthorization::bearer(ADMIN_TOKEN));
    assert(routes@ =~= admin_table());
    routes
}

/// The service: its route table, inside the request logger.
pub fn router() -> (app: Logger<Router>)
    ensures
        app.service()@ == table(),
{
    proof {
        lemma_pattern_root();
        lemma_pattern_hello();
        lemma_pattern_kv_key();
        lemma_pattern_admin();
    }
    let routes = Router::new()
        .route("/", Method::get(), Endpoint::new(Handler::HelloAxum))
        .route("/hello", Method::get(), Endpoint::new(Handler::Hello))
        .route("/kv/:key", Method::get(), Endpoint::new(Handler::KvGet))
        .route(
            "/kv/:key",
            Method::post(),
            Endpoint::new(Handler::KvPost).body_limit(BodyLimit::Disabled),
        )
        .nest("/admin", admin_routes());
    assert(routes@ =~= table());
    LoggerMiddleware::new().layer(routes)
}

/// What comes out of the layers around the handlers: the response where there
/// is one, and else the answer to the failure.
pub open spec fn recovered(outcome: Result<ResponseView, PipelineError>) -> ResponseView {
    match outcome {
        Ok(response) => response,
        Err(error) => reply_response(error_reply(error)),
    }
}

/// The view of a response or the failure in its place.
pub open spec fn outcome_view(outcome: Result<Response, PipelineError>) -> Result<
    ResponseView,
    PipelineError,
> {
    match outcome {
        Ok(response) => Ok(response@),
        Err(error) => Err(error),
    }
}

/// Turns a failure around the handlers into its answer, and lets a response
/// pass as it is.
pub fn recover(outcome: Result<Response, PipelineError>) -> (response: Response)
    ensures
        response@ == recovered(outcome_view(outcome)),
{
    match outcome {
        Ok(response) => response,
        Err(error) => crate::service::reply_into_response(handle_error(error)),
    }
}

} // verus!
