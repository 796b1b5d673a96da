//! The commands that the window invokes: the two operations of the client,
//! against the one service that the desktop application talks to.

use crate::api_client::{chat_request_to, chat_result, health_request_to, health_result, ApiClient};
use crate::error::ApiErrorView;
use crate::exchange::{ChatReply, ChatReplyView, HealthReply, HttpRequest};
use vstd::prelude::*;

verus! {

/// The base URL of the chat service.
pub const API_URL: &'static str = "http://localhost:8000";

/// What the `send_message` command hands to the window for each reply: the
/// response text, or the description of the error as plain text.
pub open spec fn command_result(reply: ChatReplyView) -> Result<Seq<char>, Seq<char>> {
    match chat_result(reply) {
        Ok(text) => Ok(text),
        Err(error) => Err(error.description()),
    }
}

/// The result of a command with its texts as sequences of characters.
pub open spec fn command_result_view(result: Result<String, String>) -> Result<
    Seq<char>,
    Seq<char>,
> {
    match result {
        Ok(text) => Ok(text@),
        Err(text) => Err(text@),
    }
}

/// The first half of the `send_message` command: the request that a new
/// client for the service at [`API_URL`] makes to send `message`.
pub fn chat_request(message: String) -> (request: HttpRequest)
    ensures
        request@ == chat_request_to(API_URL@, message@),
{
    let client = ApiClient::new(API_URL);
    client.chat_request(message)
}

/// The second half of the `send_message` command: the response text, or the
/// error of the client reduced to its description.
pub fn send_message(reply: ChatReply) -> (result: Result<String, String>)
    ensures
        command_result_view(result) == command_result(reply@),
        result is Ok <==> reply is Decoded,
{
    let client = ApiClient::new(API_URL);
    match client.send_message(reply) {
        Ok(response) => Ok(response),
        Err(e) => Err(e.to_string()),
    }
}

/// The first half of the `check_server_status` command: the request by which
/// a new client for the service at [`API_URL`] probes it.
pub fn health_request() -> (request: HttpRequest)
    ensures
        request@ == health_request_to(API_URL@),
{
    let client = ApiClient::new(API_URL);
    client.health_request()
}

/// The second half of the `check_server_status` command: the answer of the
/// client's health check, unchanged.
pub fn check_server_status(reply: &HealthReply) -> (available: bool)
    ensures
        available == health_result(reply@),
{
    let client = ApiClient::new(API_URL);
    client.check_health(reply)
}

} // verus!
