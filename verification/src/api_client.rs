//! The client of the chat service: its two endpoints, the requests it makes of
//! them and the meaning of their replies.

use crate::error::{chat_result_view, ApiError, ApiErrorView};
use crate::exchange::{
    is_success_status, status_is_success, ChatReply, ChatReplyView, ChatRequest, ChatRequestView,
    ChatResponseView, HealthReply, HealthReplyView, HttpRequest, HttpRequestView, Method,
};
use vstd::prelude::*;

verus! {

/// The path of the chat endpoint, below the base URL.
pub open spec fn chat_path() -> Seq<char> {
    "/api/chat"@
}

/// The path of the health endpoint, below the base URL.
pub open spec fn health_path() -> Seq<char> {
    "/api/health"@
}

/// The request that sends `message` to the chat endpoint of the service at
/// `base_url`: a POST to the base URL followed by `/api/chat`, with the
/// message as its JSON payload.
pub open spec fn chat_request_to(base_url: Seq<char>, message: Seq<char>) -> HttpRequestView {
    HttpRequestView {
        method: Method::Post,
        url: base_url + chat_path(),
        json: Some(ChatRequestView { message }),
    }
}

/// The request that probes the service at `base_url`: a GET of the base URL
/// followed by `/api/health`, without a body.
pub open spec fn health_request_to(base_url: Seq<char>) -> HttpRequestView {
    HttpRequestView { method: Method::Get, url: base_url + health_path(), json: None }
}

/// What a chat call returns for each reply: the response text of a decoded
/// response, whatever its status was; else an error of the reply's kind that
/// carries the reply's description.
pub open spec fn chat_result(reply: ChatReplyView) -> Result<Seq<char>, ApiErrorView> {
    match reply {
        ChatReplyView::Decoded(response) => Ok(response.response),
        ChatReplyView::TransportFailure(description) => Err(ApiErrorView::Transport(description)),
        ChatReplyView::DecodeFailure(description) => Err(ApiErrorView::Decode(description)),
    }
}

/// What a health check returns for each reply: `true` for a response with a
/// status from 200 to 299, `false` for any other status and for no response.
pub open spec fn health_result(reply: HealthReplyView) -> bool {
    match reply {
        HealthReplyView::Status(code) => is_success_status(code),
        HealthReplyView::TransportFailure(_) => false,
    }
}

/// The reply of a chat endpoint that echoes: to the payload it was sent it
/// answers with a chat response whose text is the payload's message.
pub open spec fn echo_reply(payload: ChatRequestView) -> ChatReplyView {
    ChatReplyView::Decoded(ChatResponseView { response: payload.message })
}

/// Against a chat endpoint that echoes, a chat call returns the message that
/// was sent. For every base URL and every message the request carries a
/// payload, and the reply to that payload gives the message back unchanged.
pub proof fn echoed_message_comes_back(base_url: Seq<char>, message: Seq<char>)
    ensures
        ({
            &&& chat_request_to(base_url, message).json matches Some(payload)
            &&& chat_result(echo_reply(payload)) == Ok::<Seq<char>, ApiErrorView>(message)
        }),
{
}

/// Two chat calls with different messages against an endpoint that echoes
/// each get their own message back, so their results differ: the result of a
/// call depends on the reply to its own request and on nothing else.
pub proof fn echoed_messages_do_not_mix(base_url: Seq<char>, first: Seq<char>, second: Seq<char>)
    requires
        first != second,
    ensures
        ({
            &&& chat_request_to(base_url, first).json matches Some(first_payload)
            &&& chat_request_to(base_url, second).json matches Some(second_payload)
            &&& chat_result(echo_reply(first_payload)) == Ok::<Seq<char>, ApiErrorView>(first)
            &&& chat_result(echo_reply(second_payload)) == Ok::<Seq<char>, ApiErrorView>(second)
            &&& chat_result(echo_reply(first_payload)) != chat_result(echo_reply(second_payload))
        }),
{
}

/// A client of the chat service reachable at one base URL. It keeps nothing
/// from one call to the next.
pub struct ApiClient {
    base_url: String,
}

/// An [`ApiClient`] as what it knows: the base URL, as text.
pub struct ApiClientView {
    pub base_url: Seq<char>,
}

impl View for ApiClient {
    type V = ApiClientView;

    closed spec fn view(&self) -> ApiClientView {
        ApiClientView { base_url: self.base_url@ }
    }
}

impl ApiClient {
    /// A client for the service at `base_url`. The text is stored as given:
    /// nothing is checked of it.
    pub fn new(base_url: &str) -> (client: ApiClient)
        ensures
            client@.base_url == base_url@,
    {
        ApiClient { base_url: String::from_str(base_url) }
    }

    /// The base URL that the client was made with.
    pub fn base_url(&self) -> (base_url: &str)
        ensures
            base_url@ == self@.base_url,
    {
        self.base_url.as_str()
    }

    /// The URL of the chat endpoint: the base URL followed by `/api/chat`.
    pub fn chat_url(&self) -> (url: String)
        ensures
            url@ == self@.base_url + chat_path(),
    {
        self.base_url.clone().concat("/api/chat")
    }

    /// The URL of the health endpoint: the base URL followed by `/api/health`.
    pub fn health_url(&self) -> (url: String)
        ensures
            url@ == self@.base_url + health_path(),
    {
        self.base_url.clone().concat("/api/health")
    }

    /// The first half of a chat call: the request that carries `message` to
    /// the chat endpoint. The message goes into the payload as it is.
    pub fn chat_request(&self, message: String) -> (request: HttpRequest)
        ensures
            request@ == chat_request_to(self@.base_url, message@),
            request.json == Some(ChatRequest { message }),
    {
        HttpRequest { method: Method::Post, url: self.chat_url(), json: Some(ChatRequest { message }) }
    }

    /// The first half of a health check: the request that probes the health
    /// endpoint.
    pub fn health_request(&self) -> (request: HttpRequest)
        ensures
            request@ == health_request_to(self@.base_url),
    {
        HttpRequest { method: Method::Get, url: self.health_url(), json: None }
    }

    /// The second half of a chat call: the call's result, given what came of
    /// its request. A decoded response gives its response text, whatever the
    /// status; a failure gives an error of its kind with its description.
    pub fn send_message(&self, reply: ChatReply) -> (result: Result<String, ApiError>)
        ensures
            chat_result_view(result) == chat_result(reply@),
            result is Ok <==> reply is Decoded,
            reply is TransportFailure ==> result matches Err(ApiError::Transport(_)),
            reply is DecodeFailure ==> result matches Err(ApiError::Decode(_)),
    {
        match reply {
            ChatReply::Decoded(response) => Ok(response.response),
            ChatReply::TransportFailure(description) => Err(ApiError::Transport(description)),
            ChatReply::DecodeFailure(description) => Err(ApiError::Decode(description)),
        }
    }

    /// The second half of a health check: whether the service is healthy,
    /// given what came of the probe. Only a response with a status from 200
    /// to 299 counts; every failure is folded into `false`.
    pub fn check_health(&self, reply: &HealthReply) -> (healthy: bool)
        ensures
            healthy == health_result(reply@),
            healthy <==> (reply@ matches HealthReplyView::Status(code) && 200 <= code <= 299),
    {
        match reply {
            HealthReply::Status(code) => status_is_success(*code),
            HealthReply::TransportFailure(_) => false,
        }
    }
}

} // verus!
