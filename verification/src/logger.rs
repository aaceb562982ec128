//! Request logging: one line per request, with its method and its path.

use crate::http::{Request, RequestView};
use crate::path::texts;
use crate::service::{Exchange, ExchangeView, Service};
use crate::store::{AppState, StoreView};
use vstd::prelude::*;
use vstd::string::StringExecFns;

verus! {

/// The line that records a request: the method, a space, the path.
pub open spec fn log_line(method: Seq<char>, path: Seq<char>) -> Seq<char> {
    method + " "@ + path
}

/// A service that records each request before it hands it to the service
/// inside, and changes nothing of what comes back.
#[derive(Clone, Copy)]
pub struct Logger<S> {
    inner: S,
}

impl<S> Logger<S> {
    /// The service inside.
    pub closed spec fn service(&self) -> S {
        self.inner
    }

    /// The logger around `inner`.
    pub fn new(inner: S) -> (logger: Self)
        ensures
            logger.service() == inner,
    {
        Self { inner }
    }

    /// The service inside.
    pub fn get_ref(&self) -> (inner: &S)
        ensures
            *inner == self.service(),
    {
        &self.inner
    }

    /// The line that records `request`.
    pub fn line(request: &Request) -> (line: String)
        ensures
            line@ == log_line(request@.method, request@.path),
    {
        let mut line = request.method.as_str().to_owned();
        line.append(" ");
        line.append(request.path.as_str());
        line
    }
}

impl<S: Service> Service for Logger<S> {
    open spec fn exchange(&self, store: StoreView, request: RequestView) -> (
        StoreView,
        ExchangeView,
    ) {
        let (after, inside) = self.service().exchange(store, request);
        (
            after,
            ExchangeView {
                log: seq![log_line(request.method, request.path)] + inside.log,
                response: inside.response,
            },
        )
    }

    fn call(&self, state: &mut AppState, request: Request) -> (out: Exchange) {
        let line = Self::line(&request);
        let inside = self.inner.call(state, request);
        let ghost inside_log = texts(inside.log@);
        let mut log = inside.log;
        log.insert(0, line);
        let out = Exchange { log, response: inside.response };
        assert(out@.log =~= seq![line@] + inside_log);
        out
    }
}

/// Puts a [`Logger`] around a service.
#[derive(Clone, Copy)]
pub struct LoggerMiddleware;

impl LoggerMiddleware {
    /// The middleware.
    pub fn new() -> Self {
        Self
    }

    /// The logger around `inner`.
    pub fn layer<S>(&self, inner: S) -> (logger: Logger<S>)
        ensures
            logger.service() == inner,
    {
        Logger::new(inner)
    }
}

} // verus!
