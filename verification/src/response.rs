//! The reply of a handler, as plain values that a server turns into an HTTP
//! response.

use vstd::prelude::*;

verus! {

/// Status of a reply that carries what was asked for.
pub const STATUS_OK: u16 = 200;

/// Status of a reply to a request that holds no usable upload.
pub const STATUS_BAD_REQUEST: u16 = 400;

/// Status of a reply to a request without a valid session.
pub const STATUS_UNAUTHORIZED: u16 = 401;

/// Status of a reply to a request that failed on the server's side.
pub const STATUS_INTERNAL_ERROR: u16 = 500;

/// What a reply carries.
#[derive(Debug, PartialEq, Eq)]
pub enum Body {
    /// A short text.
    Text(String),
    /// Raw bytes.
    Bytes(Vec<u8>),
}

/// The mathematical value of a [`Body`].
pub enum BodyView {
    Text(Seq<char>),
    Bytes(Seq<u8>),
}

impl View for Body {
    type V = BodyView;

    open spec fn view(&self) -> BodyView {
        match self {
            Body::Text(s) => BodyView::Text(s@),
            Body::Bytes(b) => BodyView::Bytes(b@),
        }
    }
}

/// A reply: status, the two headers that a handler may set, and the body.
#[derive(Debug, PartialEq, Eq)]
pub struct Response {
    pub status: u16,
    pub content_type: Option<String>,
    pub content_disposition: Option<String>,
    pub body: Body,
}

/// The mathematical value of a [`Response`].
pub struct ResponseView {
    pub status: u16,
    pub content_type: Option<Seq<char>>,
    pub content_disposition: Option<Seq<char>>,
    pub body: BodyView,
}

/// The view of an optional string.
pub open spec fn opt_text(s: Option<String>) -> Option<Seq<char>> {
    match s {
        Some(t) => Some(t@),
        None => None,
    }
}

impl View for Response {
    type V = ResponseView;

    open spec fn view(&self) -> ResponseView {
        ResponseView {
            status: self.status,
            content_type: opt_text(self.content_type),
            content_disposition: opt_text(self.content_disposition),
            body: self.body@,
        }
    }
}

/// The reply with the given status and text, and no header set.
pub open spec fn text_reply(status: u16, text: Seq<char>) -> ResponseView {
    ResponseView {
        status,
        content_type: None,
        content_disposition: None,
        body: BodyView::Text(text),
    }
}

impl Response {
    /// A reply of the given status that carries `text`.
    pub fn text(status: u16, text: String) -> (r: Response)
        ensures
            r@ == text_reply(status, text@),
    {
        Response { status, content_type: None, content_disposition: None, body: Body::Text(text) }
    }
}

/// The text that the root resource answers with.
pub open spec fn root_text() -> Seq<char> {
    "jwt test"@
}

/// The root resource: open to everyone, it answers with a fixed text.
pub fn root_handler() -> (r: Response)
    ensures
        r@ == text_reply(STATUS_OK, root_text()),
{
    Response::text(STATUS_OK, String::from_str("jwt test"))
}

} // verus!
