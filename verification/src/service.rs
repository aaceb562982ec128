//! Serving a request: from the store and the request to the store afterwards
//! and the response.

use crate::handlers::{
    admin_handle_delete, admin_handle_delete_key, delete_reply, error_reply, greeting,
    handle_error, handler_hello, handler_kv_get, handler_kv_post, hello_axum, kv_get_reply,
    kv_post_reply, PipelineError,
};
use crate::http::{Body, BodyView, Request, RequestView, Response, ResponseView, StatusCode};
use crate::pattern::{params_view, PathParam, PathParamView};
use crate::routing::{authorized, resolve, Handler, RouteView, Router};
use crate::store::{AppState, StoreView};
use vstd::prelude::*;

verus! {

/// What serving one request gave: the lines to log, in order, and the response.
#[derive(Clone, Debug, PartialEq, Eq)]
pub struct Exchange {
    pub log: Vec<String>,
    pub response: Response,
}

/// What an exchange is, mathematically.
pub struct ExchangeView {
    pub log: Seq<Seq<char>>,
    pub response: ResponseView,
}

impl View for Exchange {
    type V = ExchangeView;

    open spec fn view(&self) -> ExchangeView {
        ExchangeView { log: crate::path::texts(self.log@), response: self.response@ }
    }
}

/// Something that answers requests against a store.
pub trait Service {
    /// The store afterwards and the exchange, for a store and a request.
    spec fn exchange(&self, store: StoreView, request: RequestView) -> (StoreView, ExchangeView);

    /// Serves one request.
    fn call(&self, state: &mut AppState, request: Request) -> (out: Exchange)
        ensures
            (final(state)@, out@) == self.exchange(old(state)@, request@),
    ;
}

/// The response with a status and the stored bytes.
pub open spec fn bytes_response(bytes: Seq<u8>) -> ResponseView {
    ResponseView { status: StatusCode::Success, body: BodyView::Bytes(bytes) }
}

/// The response with markup.
pub open spec fn html_response(markup: Seq<char>) -> ResponseView {
    ResponseView { status: StatusCode::Success, body: BodyView::Html(markup) }
}

/// The response that carries a status and a message.
pub open spec fn reply_response(reply: (StatusCode, Seq<char>)) -> ResponseView {
    ResponseView::text(reply.0, reply.1)
}

/// The key that a route bound: the value of its one parameter. A route that
/// bound none, or more than one, names no key.
pub open spec fn key_param(params: Seq<PathParamView>) -> Option<Seq<char>> {
    if params.len() == 1 {
        Some(params[0].value)
    } else {
        None
    }
}

/// The answer of a handler that needs a key on a route that names none.
pub open spec fn no_key_response() -> ResponseView {
    reply_response(error_reply(PipelineError::Other))
}

/// The store afterwards and the response, where `handler` runs with the bound
/// parameters on a store and a request.
pub open spec fn run(
    handler: Handler,
    params: Seq<PathParamView>,
    store: StoreView,
    request: RequestView,
) -> (StoreView, ResponseView) {
    match handler {
        Handler::HelloAxum => (
            store,
            ResponseView::text(StatusCode::Success, "<h1>Hello Axum</h1>"@),
        ),
        Handler::Hello => (store, html_response(greeting(request.visitor_name))),
        Handler::AdminDelete => (
            store.clear(),
            reply_response(delete_reply(store, "Deleted all entries"@)),
        ),
        _ => match key_param(params) {
            None => (store, no_key_response()),
            Some(key) => match handler {
                Handler::KvGet => (
                    store,
                    match kv_get_reply(store, key) {
                        Ok(bytes) => bytes_response(bytes),
                        Err(reply) => reply_response(reply),
                    },
                ),
                Handler::KvPost => (
                    store.put(key, request.body),
                    match kv_post_reply(store) {
                        Ok(message) => ResponseView::text(StatusCode::Success, message),
                        Err(reply) => reply_response(reply),
                    },
                ),
                _ => (store.delete(key), reply_response(delete_reply(store, "Deleted entry"@))),
            },
        },
    }
}

/// The store afterwards and the response, where a table serves a request on a
/// store: `NotFound` where no route takes the request, `Unauthorized` where the
/// route's checks do not let it pass, and else what the route's handler does.
/// Only a handler changes the store.
pub open spec fn respond(table: Seq<RouteView>, store: StoreView, request: RequestView) -> (
    StoreView,
    ResponseView,
) {
    match resolve(table, request.method, request.path) {
        None => (store, ResponseView::empty(StatusCode::NotFound)),
        Some(found) => if !authorized(table[found.index].guards, request.authorization) {
            (store, ResponseView::empty(StatusCode::Unauthorized))
        } else {
            run(found.endpoint.handler, found.params, store, request)
        },
    }
}

/// The key that a route bound, out of the bound parameters.
pub fn take_key(params: Vec<PathParam>) -> (key: Option<String>)
    ensures
        crate::http::text_view(key) == key_param(params_view(params@)),
{
    let mut params = params;
    if params.len() != 1 {
        return None;
    }
    match params.pop() {
        Some(param) => Some(param.value),
        None => None,
    }
}

/// The response that carries a status and a fixed message.
pub fn reply_into_response(reply: (StatusCode, &'static str)) -> (r: Response)
    ensures
        r@ == reply_response((reply.0, reply.1@)),
{
    Response::text(reply.0, reply.1)
}

/// Runs `handler` with the bound parameters.
pub fn run_handler(
    handler: Handler,
    params: Vec<PathParam>,
    state: &mut AppState,
    request: Request,
) -> (response: Response)
    ensures
        (final(state)@, response@) == run(handler, params_view(params@), old(state)@, request@),
{
    match handler {
        Handler::HelloAxum => Response::text(StatusCode::Success, hello_axum()),
        Handler::Hello => Response {
            status: StatusCode::Success,
            body: Body::Html(handler_hello(request.visitor_name)),
        },
        Handler::AdminDelete => reply_into_response(admin_handle_delete(state)),
        Handler::KvGet => match take_key(params) {
            None => reply_into_response(handle_error(PipelineError::Other)),
            Some(key) => match handler_kv_get(key.as_str(), state) {
                Ok(bytes) => Response { status: StatusCode::Success, body: Body::Bytes(bytes) },
                Err(e) => e.into_response(),
            },
        },
        Handler::KvPost => match take_key(params) {
            None => reply_into_response(handle_error(PipelineError::Other)),
            Some(key) => match handler_kv_post(key, state, request.body) {
                Ok(message) => Response::text(StatusCode::Success, message),
                Err(reply) => reply_into_response(reply),
            },
        },
        Handler::AdminDeleteKey => match take_key(params) {
            None => reply_into_response(handle_error(PipelineError::Other)),
            Some(key) => reply_into_response(admin_handle_delete_key(key.as_str(), state)),
        },
    }
}

impl Service for Router {
    open spec fn exchange(&self, store: StoreView, request: RequestView) -> (
        StoreView,
        ExchangeView,
    ) {
        let (after, response) = respond(self@, store, request);
        (after, ExchangeView { log: Seq::empty(), response })
    }

    fn call(&self, state: &mut AppState, request: Request) -> (out: Exchange) {
        let found = self.resolve(&request.method, request.path.as_str());
        let response = match found {
            None => Response::empty(StatusCode::NotFound),
            Some(found) => {
                if !self.admits(found.index, &request.authorization) {
                    Response::empty(StatusCode::Unauthorized)
                } else {
                    run_handler(found.endpoint.handler, found.params, state, request)
                }
            },
        };
        let out = Exchange { log: Vec::new(), response };
        assert(out@.log =~= Seq::<Seq<char>>::empty());
        out
    }
}

} // verus!
