//! A small key-value web service, as a verified library.
//!
//! The library holds everything the service decides: the store, the route
//! table and its matching rules, bearer-token authorization, the handlers and
//! the mapping from failures to responses. It performs no I/O. A server
//! around it turns wire requests into [`http::Request`] values, guards one
//! [`store::AppState`] with a lock, and sends the [`http::Response`] back.

pub mod auth;
pub mod handlers;
pub mod http;
pub mod laws;
pub mod logger;
pub mod path;
pub mod pattern;
pub mod point;
pub mod routes;
pub mod routing;
pub mod service;
pub mod store;

pub use crate::routes::router;
pub use crate::store::AppState;
