//! One HTTP exchange as plain values: the request that the client wants made,
//! and what came of it.

use vstd::prelude::*;

verus! {

/// The outbound payload of the chat endpoint: the message, and nothing else.
#[derive(Debug, PartialEq, Eq)]
pub struct ChatRequest {
    pub message: String,
}

/// A [`ChatRequest`] with its message as text.
pub struct ChatRequestView {
    pub message: Seq<char>,
}

impl View for ChatRequest {
    type V = ChatRequestView;

    open spec fn view(&self) -> ChatRequestView {
        ChatRequestView { message: self.message@ }
    }
}

/// The inbound payload of the chat endpoint, reduced to the one field that
/// the client reads.
#[derive(Debug, PartialEq, Eq)]
pub struct ChatResponse {
    pub response: String,
}

/// A [`ChatResponse`] with its response as text.
pub struct ChatResponseView {
    pub response: Seq<char>,
}

impl View for ChatResponse {
    type V = ChatResponseView;

    open spec fn view(&self) -> ChatResponseView {
        ChatResponseView { response: self.response@ }
    }
}

/// The two HTTP methods that the client uses.
#[derive(Debug, Clone, Copy, PartialEq, Eq, Structural)]
pub enum Method {
    Get,
    Post,
}

/// A request for the holder of the HTTP client to make.
#[derive(Debug, PartialEq, Eq)]
pub struct HttpRequest {
    pub method: Method,
    /// The full URL, as text. Nothing has been checked of it: a malformed one
    /// shows when the request is attempted.
    pub url: String,
    /// The payload to send as the JSON body, if the request has a body.
    pub json: Option<ChatRequest>,
}

/// An [`HttpRequest`] with its texts as sequences of characters.
pub struct HttpRequestView {
    pub method: Method,
    pub url: Seq<char>,
    pub json: Option<ChatRequestView>,
}

impl View for HttpRequest {
    type V = HttpRequestView;

    open spec fn view(&self) -> HttpRequestView {
        HttpRequestView {
            method: self.method,
            url: self.url@,
            json: match self.json {
                Some(payload) => Some(payload@),
                None => None,
            },
        }
    }
}

/// What came of the request to the chat endpoint.
#[derive(Debug, PartialEq, Eq)]
pub enum ChatReply {
    /// No response, or none that could be read to its end. The text says what
    /// went wrong.
    TransportFailure(String),
    /// A response whose body is no chat response: not JSON, or JSON of another
    /// shape. The text says what went wrong.
    DecodeFailure(String),
    /// A response, of whatever status, whose body is this chat response.
    Decoded(ChatResponse),
}

/// A [`ChatReply`] with its texts as sequences of characters.
pub enum ChatReplyView {
    TransportFailure(Seq<char>),
    DecodeFailure(Seq<char>),
    Decoded(ChatResponseView),
}

impl View for ChatReply {
    type V = ChatReplyView;

    open spec fn view(&self) -> ChatReplyView {
        match self {
            ChatReply::TransportFailure(description) => ChatReplyView::TransportFailure(
                description@,
            ),
            ChatReply::DecodeFailure(description) => ChatReplyView::DecodeFailure(description@),
            ChatReply::Decoded(response) => ChatReplyView::Decoded(response@),
        }
    }
}

/// What came of the request to the health endpoint.
#[derive(Debug, PartialEq, Eq)]
pub enum HealthReply {
    /// No response. The text says what went wrong.
    TransportFailure(String),
    /// A response with this status code. Its body is of no interest.
    Status(u16),
}

/// A [`HealthReply`] with its text as a sequence of characters.
pub enum HealthReplyView {
    TransportFailure(Seq<char>),
    Status(u16),
}

impl View for HealthReply {
    type V = HealthReplyView;

    open spec fn view(&self) -> HealthReplyView {
        match self {
            HealthReply::TransportFailure(description) => HealthReplyView::TransportFailure(
                description@,
            ),
            HealthReply::Status(code) => HealthReplyView::Status(*code),
        }
    }
}

/// The success range of HTTP status codes: 200 to 299, both included.
pub open spec fn is_success_status(code: u16) -> bool {
    200 <= code <= 299
}

/// Whether `code` is a success status by `reqwest::StatusCode`: the number is
/// turned into a status code with `StatusCode::from_u16`, which takes 100 to
/// 999, and asked with `StatusCode::is_success`, which holds from 200 to 299.
/// A number that is no status code is no success.
#[verifier::external_body]
pub(crate) fn status_is_success(code: u16) -> (success: bool)
    ensures
        success == is_success_status(code),
{
    match reqwest::StatusCode::from_u16(code) {
        Ok(status) => status.is_success(),
        Err(_) => false,
    }
}

} // verus!
