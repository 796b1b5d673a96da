use kogniterm_desktop::commands::{
    chat_request, check_server_status, health_request, send_message, API_URL,
};
use kogniterm_desktop::exchange::{
    ChatReply, ChatRequest, ChatResponse, HealthReply, HttpRequest, Method,
};

#[test]
fn service_is_on_localhost_port_8000() {
    assert_eq!(API_URL, "http://localhost:8000");
}

#[test]
fn send_message_command_posts_to_the_local_service() {
    assert_eq!(
        chat_request(String::from("ping")),
        HttpRequest {
            method: Method::Post,
            url: String::from("http://localhost:8000/api/chat"),
            json: Some(ChatRequest { message: String::from("ping") }),
        }
    );
}

#[test]
fn status_command_probes_the_local_service() {
    assert_eq!(
        health_request(),
        HttpRequest {
            method: Method::Get,
            url: String::from("http://localhost:8000/api/health"),
            json: None,
        }
    );
}

#[test]
fn send_message_command_hands_on_the_response_text() {
    let reply = ChatReply::Decoded(ChatResponse { response: String::from("pong") });
    assert_eq!(send_message(reply), Ok(String::from("pong")));
}

#[test]
fn send_message_command_turns_a_transport_error_into_text() {
    let reply = ChatReply::TransportFailure(String::from("connection refused"));
    assert_eq!(send_message(reply), Err(String::from("connection refused")));
}

#[test]
fn send_message_command_turns_a_decode_error_into_text() {
    let reply = ChatReply::DecodeFailure(String::from("missing field `response`"));
    assert_eq!(send_message(reply), Err(String::from("missing field `response`")));
}

#[test]
fn send_message_command_echo() {
    let messages = ["", "hello", "caf\u{e9} \u{4e16}\u{754c} \u{1f389}"];
    for message in messages {
        let request = chat_request(String::from(message));
        let payload = request.json.expect("a chat request has a payload");
        let reply = ChatReply::Decoded(ChatResponse { response: payload.message });
        assert_eq!(send_message(reply), Ok(String::from(message)));
    }
}

#[test]
fn status_command_follows_the_health_check() {
    assert!(check_server_status(&HealthReply::Status(200)));
    assert!(check_server_status(&HealthReply::Status(204)));
    assert!(!check_server_status(&HealthReply::Status(404)));
    assert!(!check_server_status(&HealthReply::Status(500)));
    assert!(!check_server_status(&HealthReply::TransportFailure(String::from("refused"))));
}
