//! The plain values that a request and a response are made of.

use vstd::prelude::*;
use vstd::string::StrSliceExecFns;

verus! {

/// A request method, known by its name as it stands on the wire (`GET`, `POST`, ...).
/// Two methods are the same method where their names are equal, letter for letter.
#[derive(Clone, Debug, PartialEq, Eq)]
pub struct Method {
    name: String,
}

impl View for Method {
    type V = Seq<char>;

    closed spec fn view(&self) -> Seq<char> {
        self.name@
    }
}

impl Method {
    /// The method `GET`.
    pub fn get() -> (m: Method)
        ensures
            m@ == "GET"@,
    {
        Method { name: "GET".to_owned() }
    }

    /// The method `POST`.
    pub fn post() -> (m: Method)
        ensures
            m@ == "POST"@,
    {
        Method { name: "POST".to_owned() }
    }

    /// The method `DELETE`.
    pub fn delete() -> (m: Method)
        ensures
            m@ == "DELETE"@,
    {
        Method { name: "DELETE".to_owned() }
    }

    /// The method of the given name.
    pub fn from_name(name: &str) -> (m: Method)
        ensures
            m@ == name@,
    {
        Method { name: name.to_owned() }
    }

    /// The method's name.
    pub fn as_str(&self) -> (name: &str)
        ensures
            name@ == self@,
    {
        self.name.as_str()
    }

    /// Whether `self` and `other` are the same method.
    pub fn same(&self, other: &Method) -> (b: bool)
        ensures
            b == (self@ == other@),
    {
        self.name == other.name
    }
}

/// The status codes that the service answers with.
#[derive(Clone, Copy, Debug, PartialEq, Eq, Structural)]
pub enum StatusCode {
    /// 200
    Success,
    /// 401
    Unauthorized,
    /// 404
    NotFound,
    /// 408
    RequestTimeout,
    /// 500
    InternalServerError,
}

impl StatusCode {
    /// The number of the status code.
    pub open spec fn code(self) -> int {
        match self {
            StatusCode::Success => 200,
            StatusCode::Unauthorized => 401,
            StatusCode::NotFound => 404,
            StatusCode::RequestTimeout => 408,
            StatusCode::InternalServerError => 500,
        }
    }

    /// The number of the status code.
    pub fn as_u16(&self) -> (n: u16)
        ensures
            n == self.code(),
    {
        match self {
            StatusCode::Success => 200,
            StatusCode::Unauthorized => 401,
            StatusCode::NotFound => 404,
            StatusCode::RequestTimeout => 408,
            StatusCode::InternalServerError => 500,
        }
    }
}

/// The body of a response, by the kind of content it carries.
#[derive(Clone, Debug, PartialEq, Eq)]
pub enum Body {
    /// No content.
    Empty,
    /// A fixed plain-text message.
    Text(&'static str),
    /// Markup.
    Html(String),
    /// Raw bytes, as they were stored.
    Bytes(Vec<u8>),
}

/// What a body is, mathematically.
pub enum BodyView {
    Empty,
    Text(Seq<char>),
    Html(Seq<char>),
    Bytes(Seq<u8>),
}

impl BodyView {
    /// The bytes that go on the wire: text and markup in UTF-8, raw bytes as they are.
    pub open spec fn bytes(self) -> Seq<u8> {
        match self {
            BodyView::Empty => Seq::empty(),
            BodyView::Text(text) => vstd::utf8::encode_utf8(text),
            BodyView::Html(markup) => vstd::utf8::encode_utf8(markup),
            BodyView::Bytes(bytes) => bytes,
        }
    }
}

impl View for Body {
    type V = BodyView;

    open spec fn view(&self) -> BodyView {
        match self {
            Body::Empty => BodyView::Empty,
            Body::Text(text) => BodyView::Text(text@),
            Body::Html(markup) => BodyView::Html(markup@),
            Body::Bytes(bytes) => BodyView::Bytes(bytes@),
        }
    }
}

impl Body {
    /// The bytes that go on the wire.
    pub fn to_bytes(&self) -> (bytes: Vec<u8>)
        ensures
            bytes@ == self@.bytes(),
    {
        match self {
            Body::Empty => Vec::new(),
            Body::Text(text) => text.as_bytes_vec(),
            Body::Html(markup) => markup.as_str().as_bytes_vec(),
            Body::Bytes(bytes) => {
                let copy = bytes.clone();
                assert(copy@ =~= bytes@);
                copy
            },
        }
    }
}

/// A response: a status and a body.
#[derive(Clone, Debug, PartialEq, Eq)]
pub struct Response {
    pub status: StatusCode,
    pub body: Body,
}

/// What a response is, mathematically.
pub struct ResponseView {
    pub status: StatusCode,
    pub body: BodyView,
}

impl View for Response {
    type V = ResponseView;

    open spec fn view(&self) -> ResponseView {
        ResponseView { status: self.status, body: self.body@ }
    }
}

impl ResponseView {
    /// The response with a status and a fixed plain-text message.
    pub open spec fn text(status: StatusCode, message: Seq<char>) -> ResponseView {
        ResponseView { status, body: BodyView::Text(message) }
    }

    /// The response with a status and no content.
    pub open spec fn empty(status: StatusCode) -> ResponseView {
        ResponseView { status, body: BodyView::Empty }
    }
}

impl Response {
    /// The response with a status and a fixed plain-text message.
    pub fn text(status: StatusCode, message: &'static str) -> (r: Response)
        ensures
            r@ == ResponseView::text(status, message@),
    {
        Response { status, body: Body::Text(message) }
    }

    /// The response with a status and no content.
    pub fn empty(status: StatusCode) -> (r: Response)
        ensures
            r@ == ResponseView::empty(status),
    {
        Response { status, body: Body::Empty }
    }
}

/// The view of text that may be absent.
pub open spec fn text_view(text: Option<String>) -> Option<Seq<char>> {
    match text {
        Some(t) => Some(t@),
        None => None,
    }
}

/// A request, as far as the service reads it: the method, the path without
/// its query, the visitor's name where the query gave one, the value of the
/// `Authorization` header where there is one, and the body.
#[derive(Clone, Debug, PartialEq, Eq)]
pub struct Request {
    pub method: Method,
    pub path: String,
    pub visitor_name: Option<String>,
    pub authorization: Option<String>,
    pub body: Vec<u8>,
}

impl Request {
    /// The request with a method and a path, without visitor's name,
    /// `Authorization` header or body.
    pub fn new(method: Method, path: &str) -> (request: Request)
        ensures
            request@ == (RequestView {
                method: method@,
                path: path@,
                visitor_name: None,
                authorization: None,
                body: Seq::empty(),
            }),
    {
        Request {
            method,
            path: path.to_owned(),
            visitor_name: None,
            authorization: None,
            body: Vec::new(),
        }
    }

    /// The same request with `body` as its body.
    pub fn with_body(self, body: Vec<u8>) -> (request: Request)
        ensures
            request@ == (RequestView { body: body@, ..self@ }),
    {
        Request {
            method: self.method,
            path: self.path,
            visitor_name: self.visitor_name,
            authorization: self.authorization,
            body,
        }
    }

    /// The same request with `value` as its `Authorization` header.
    pub fn with_authorization(self, value: &str) -> (request: Request)
        ensures
            request@ == (RequestView { authorization: Some(value@), ..self@ }),
    {
        Request {
            method: self.method,
            path: self.path,
            visitor_name: self.visitor_name,
            authorization: Some(value.to_owned()),
            body: self.body,
        }
    }

    /// The same request with `name` as the visitor's name.
    pub fn with_visitor_name(self, name: &str) -> (request: Request)
        ensures
            request@ == (RequestView { visitor_name: Some(name@), ..self@ }),
    {
        Request {
            method: self.method,
            path: self.path,
            visitor_name: Some(name.to_owned()),
            authorization: self.authorization,
            body: self.body,
        }
    }
}

/// What a request is, mathematically.
pub struct RequestView {
    pub method: Seq<char>,
    pub path: Seq<char>,
    pub visitor_name: Option<Seq<char>>,
    pub authorization: Option<Seq<char>>,
    pub body: Seq<u8>,
}

impl View for Request {
    type V = RequestView;

    open spec fn view(&self) -> RequestView {
        RequestView {
            method: self.method@,
            path: self.path@,
            visitor_name: text_view(self.visitor_name),
            authorization: text_view(self.authorization),
            body: self.body@,
        }
    }
}

} // verus!
