//! What goes on the wire: the request of an operation and the reply to it.

use vstd::prelude::*;

verus! {

/// The HTTP method of a request.
#[derive(Clone, Copy, Debug, PartialEq, Eq, Structural)]
pub enum Method {
    Get,
    Post,
}

/// A request to the service, ready for a transport to send.
///
/// `bearer`, where present, goes into the `Authorization` header as a
/// bearer token. `body`, where present, is JSON text and is sent under
/// the content type that [`Request::content_type`] gives.
#[derive(Clone, Debug, PartialEq, Eq)]
pub struct Request {
    pub method: Method,
    pub uri: String,
    pub bearer: Option<String>,
    pub body: Option<String>,
}

/// A request as a mathematical value.
pub struct RequestView {
    pub method: Method,
    pub uri: Seq<char>,
    pub bearer: Option<Seq<char>>,
    pub body: Option<Seq<char>>,
}

/// The text of an optional string.
pub open spec fn text_of(text: Option<String>) -> Option<Seq<char>> {
    match text {
        Some(text) => Some(text@),
        None => None,
    }
}

impl View for Request {
    type V = RequestView;

    open spec fn view(&self) -> RequestView {
        RequestView {
            method: self.method,
            uri: self.uri@,
            bearer: text_of(self.bearer),
            body: text_of(self.body),
        }
    }
}

/// The content type under which a body travels.
pub open spec fn json_content() -> Seq<char> {
    "application/json"@
}

impl Request {
    /// The content type to announce: JSON where there is a body, none
    /// where there is not.
    pub fn content_type(&self) -> (content: Option<&'static str>)
        ensures
            match content {
                Some(content) => self.body is Some && content@ == json_content(),
                None => self.body is None,
            },
    {
        match &self.body {
            Some(_) => Some("application/json"),
            None => None,
        }
    }
}

/// What a transport brought back: the status line's code and the bytes of
/// the body.
#[derive(Clone, Debug, PartialEq, Eq)]
pub struct Reply {
    pub status: u16,
    pub body: Vec<u8>,
}

/// The status with which the service answers an authentication or a query.
pub const OK: u16 = 200;

/// The status with which the service answers the start of a call.
pub const CREATED: u16 = 201;

} // verus!
