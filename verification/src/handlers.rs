//! The request handlers, and the mapping from failures to responses.
//!
//! A handler reads or changes the store it is given and says what to answer.
//! It touches nothing else.

use crate::http::{Response, ResponseView, StatusCode};
use crate::store::{AppState, StoreError, StoreView};
use vstd::prelude::*;
use vstd::std_specs::convert::FromSpecImpl;
use vstd::string::StringExecFns;

verus! {

/// A failed store operation, as the status and the message that answer it.
#[derive(Clone, Copy, Debug, PartialEq, Eq)]
pub struct DbError(pub StatusCode, pub &'static str);

impl View for DbError {
    type V = (StatusCode, Seq<char>);

    open spec fn view(&self) -> (StatusCode, Seq<char>) {
        (self.0, self.1@)
    }
}

/// The status and the message that answer a failed store operation.
pub open spec fn failure_reply(error: StoreError) -> (StatusCode, Seq<char>) {
    match error {
        StoreError::NotFound => (StatusCode::NotFound, "Key not found"@),
        StoreError::Corrupted => (StatusCode::InternalServerError, "Database corrupted"@),
    }
}

impl From<StoreError> for DbError {
    fn from(error: StoreError) -> (e: DbError) {
        match error {
            StoreError::NotFound => DbError(StatusCode::NotFound, "Key not found"),
            StoreError::Corrupted => DbError(
                StatusCode::InternalServerError,
                "Database corrupted",
            ),
        }
    }
}

impl FromSpecImpl<StoreError> for DbError {
    open spec fn obeys_from_spec() -> bool {
        true
    }

    open spec fn from_spec(error: StoreError) -> DbError {
        match error {
            StoreError::NotFound => DbError(StatusCode::NotFound, "Key not found"),
            StoreError::Corrupted => DbError(
                StatusCode::InternalServerError,
                "Database corrupted",
            ),
        }
    }
}

impl DbError {
    /// The response that carries the status and the message.
    pub fn into_response(self) -> (r: Response)
        ensures
            r@ == ResponseView::text(self@.0, self@.1),
    {
        Response::text(self.0, self.1)
    }
}

/// What went wrong around the handlers, as far as the answer depends on it.
#[derive(Clone, Copy, Debug, PartialEq, Eq, Structural)]
pub enum PipelineError {
    /// The request was not answered within the time allowed.
    Elapsed,
    /// Reading or writing failed below the service.
    Io,
    /// Anything else.
    Other,
}

/// The seconds within which a request is answered, from the moment it enters
/// the service.
pub const REQUEST_TIMEOUT_SECS: u64 = 5;

/// The status and the message that answer a failure around the handlers.
pub open spec fn error_reply(error: PipelineError) -> (StatusCode, Seq<char>) {
    match error {
        PipelineError::Elapsed => (StatusCode::RequestTimeout, "Request timed out"@),
        _ => (StatusCode::InternalServerError, "Internal Server Error"@),
    }
}

/// Answers a failure around the handlers: a request that ran out of time with
/// `RequestTimeout`, any other with `InternalServerError` and one fixed
/// message, whatever the cause.
pub fn handle_error(err: PipelineError) -> (reply: (StatusCode, &'static str))
    ensures
        reply.0 == error_reply(err).0,
        reply.1@ == error_reply(err).1,
{
    match err {
        PipelineError::Elapsed => (StatusCode::RequestTimeout, "Request timed out"),
        PipelineError::Io => (StatusCode::InternalServerError, "Internal Server Error"),
        PipelineError::Other => (StatusCode::InternalServerError, "Internal Server Error"),
    }
}

/// The fixed greeting.
pub fn hello_axum() -> (markup: &'static str)
    ensures
        markup@ == "<h1>Hello Axum</h1>"@,
{
    "<h1>Hello Axum</h1>"
}

/// The greeting for a visitor, by name where one was given.
pub open spec fn greeting(name: Option<Seq<char>>) -> Seq<char> {
    let visitor = match name {
        Some(n) => n,
        None => "Unknown Visitor"@,
    };
    "<h1>Hello "@ + visitor + "</h1>"@
}

/// Greets the visitor by name, or as "Unknown Visitor" where no name was given.
pub fn handler_hello(name: Option<String>) -> (markup: String)
    ensures
        markup@ == greeting(crate::http::text_view(name)),
{
    let visitor = match name {
        Some(n) => n,
        None => "Unknown Visitor".to_owned(),
    };
    let mut markup = "<h1>Hello ".to_owned();
    markup.append(visitor.as_str());
    markup.append("</h1>");
    markup
}

/// The view of what reading a key answered.
pub open spec fn get_view(r: Result<Vec<u8>, DbError>) -> Result<Seq<u8>, (StatusCode, Seq<char>)> {
    match r {
        Ok(bytes) => Ok(bytes@),
        Err(e) => Err(e@),
    }
}

/// What reading `key` answers: the stored bytes, or the reply to the failure.
pub open spec fn kv_get_reply(store: StoreView, key: Seq<char>) -> Result<
    Seq<u8>,
    (StatusCode, Seq<char>),
> {
    match store.get(key) {
        Ok(bytes) => Ok(bytes),
        Err(e) => Err(failure_reply(e)),
    }
}

/// Reads the value at `key`.
pub fn handler_kv_get(key: &str, state: &AppState) -> (r: Result<Vec<u8>, DbError>)
    ensures
        get_view(r) == kv_get_reply(state@, key@),
{
    match state.get(key) {
        Ok(bytes) => Ok(bytes),
        Err(e) => Err(DbError::from(e)),
    }
}

/// The view of what writing a key answered.
pub open spec fn post_view(r: Result<&'static str, (StatusCode, &'static str)>) -> Result<
    Seq<char>,
    (StatusCode, Seq<char>),
> {
    match r {
        Ok(message) => Ok(message@),
        Err(e) => Err((e.0, e.1@)),
    }
}

/// What writing a key answers.
pub open spec fn kv_post_reply(store: StoreView) -> Result<Seq<char>, (StatusCode, Seq<char>)> {
    match store.write_outcome() {
        Ok(_) => Ok("Inserted key"@),
        Err(e) => Err(failure_reply(e)),
    }
}

/// Writes the whole body at `key`, whatever its size.
pub fn handler_kv_post(key: String, state: &mut AppState, bytes: Vec<u8>) -> (r: Result<
    &'static str,
    (StatusCode, &'static str),
>)
    ensures
        final(state)@ == old(state)@.put(key@, bytes@),
        post_view(r) == kv_post_reply(old(state)@),
{
    match state.put(key, bytes) {
        Ok(_) => Ok("Inserted key"),
        Err(_) => Err((StatusCode::InternalServerError, "Database corrupted")),
    }
}

/// What removing keys answers, with the message for success.
pub open spec fn delete_reply(store: StoreView, done: Seq<char>) -> (StatusCode, Seq<char>) {
    match store.write_outcome() {
        Ok(_) => (StatusCode::Success, done),
        Err(e) => failure_reply(e),
    }
}

/// Removes `key`, whether or not it held a value.
pub fn admin_handle_delete_key(key: &str, state: &mut AppState) -> (reply: (
    StatusCode,
    &'static str,
))
    ensures
        final(state)@ == old(state)@.delete(key@),
        (reply.0, reply.1@) == delete_reply(old(state)@, "Deleted entry"@),
{
    match state.delete(key) {
        Ok(_) => (StatusCode::Success, "Deleted entry"),
        Err(_) => (StatusCode::InternalServerError, "Database corrupted"),
    }
}

/// Removes every key.
pub fn admin_handle_delete(state: &mut AppState) -> (reply: (StatusCode, &'static str))
    ensures
        final(state)@ == old(state)@.clear(),
        (reply.0, reply.1@) == delete_reply(old(state)@, "Deleted all entries"@),
{
    match state.clear() {
        Ok(_) => (StatusCode::Success, "Deleted all entries"),
        Err(_) => (StatusCode::InternalServerError, "Database corrupted"),
    }
}

} // verus!
