//! The request and reply exchanged with the engine's control socket, as plain
//! values: the bridge decides what to send and what a reply means, and leaves
//! the sending to its caller.

use vstd::prelude::*;
use vstd::string::*;

verus! {

/// The request methods that the control socket is asked with.
#[derive(Debug, Clone, Copy, PartialEq, Eq, Structural)]
pub enum Method {
    Get,
    Put,
    Patch,
}

impl Method {
    /// The method's token on the wire.
    pub open spec fn token(self) -> Seq<char> {
        match self {
            Method::Get => "GET"@,
            Method::Put => "PUT"@,
            Method::Patch => "PATCH"@,
        }
    }

    /// The method's token on the wire.
    pub fn as_str(&self) -> (token: &'static str)
        ensures
            token@ == self.token(),
    {
        match self {
            Method::Get => "GET",
            Method::Put => "PUT",
            Method::Patch => "PATCH",
        }
    }
}

/// One request to the control socket. Each request travels on a connection
/// of its own to `socket_path`.
#[derive(Debug, Clone, PartialEq, Eq)]
pub struct Request {
    pub socket_path: String,
    pub method: Method,
    pub path: String,
    pub content_type: String,
    pub body: Option<Vec<u8>>,
}

/// The mathematical value of a [`Request`].
pub struct RequestView {
    pub socket_path: Seq<char>,
    pub method: Method,
    pub path: Seq<char>,
    pub content_type: Seq<char>,
    pub body: Option<Seq<u8>>,
}

impl View for Request {
    type V = RequestView;

    open spec fn view(&self) -> RequestView {
        RequestView {
            socket_path: self.socket_path@,
            method: self.method,
            path: self.path@,
            content_type: self.content_type@,
            body: match self.body {
                Some(bytes) => Some(bytes@),
                None => None,
            },
        }
    }
}

impl DeepView for Request {
    type V = RequestView;

    open spec fn deep_view(&self) -> RequestView {
        self@
    }
}

/// The media type that every request declares for its body.
pub open spec fn json_media_type() -> Seq<char> {
    "application/json"@
}

/// What came of sending a request.
#[derive(Debug, PartialEq, Eq)]
pub enum Reply {
    /// No answer: the connection could not be made or broke before the
    /// status arrived. Carries the failure's message.
    Failed(String),
    /// An answer with its status, and its body or the message of the failure
    /// that cut the body short. The body of an answer that reports no
    /// success is not looked at and need not be read.
    Answered { status: u16, body: Result<Vec<u8>, String> },
}

/// The mathematical value of a [`Reply`].
pub enum ReplyView {
    Failed(Seq<char>),
    Answered { status: u16, body: Result<Seq<u8>, Seq<char>> },
}

impl View for Reply {
    type V = ReplyView;

    open spec fn view(&self) -> ReplyView {
        match self {
            Reply::Failed(message) => ReplyView::Failed(message@),
            Reply::Answered { status, body } => ReplyView::Answered {
                status: *status,
                body: match body {
                    Ok(bytes) => Ok(bytes@),
                    Err(message) => Err(message@),
                },
            },
        }
    }
}

/// Whether a status code reports success: 200 to 299.
pub open spec fn status_is_success(code: u16) -> bool {
    200 <= code < 300
}

/// Whether a status code reports success.
pub fn is_success(code: u16) -> (ok: bool)
    ensures
        ok == status_is_success(code),
{
    200 <= code && code < 300
}

} // verus!
