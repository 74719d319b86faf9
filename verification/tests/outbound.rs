use chat_relay::error::ChatError;
use chat_relay::header::Header;
use chat_relay::payload::{build_payload, Payload};
use chat_relay::request::{ChatMessage, ChatRequest, Provider};
use chat_relay::outbound::{prepare, Outbound};

fn message(role: &str, content: &str) -> ChatMessage {
    ChatMessage { role: role.to_string(), content: content.to_string() }
}

fn example_request() -> ChatRequest {
    ChatRequest {
        provider: Provider::Openai,
        model: "gpt-x".to_string(),
        temperature_bits: 0.7f32.to_bits(),
        messages: vec![message("user", "hi")],
        api_key: "sk-abc".to_string(),
        base_url: "https://api.example.com/v1/".to_string(),
        max_tokens: 100,
    }
}

fn header(name: &str, value: &str) -> Header {
    Header { name: name.to_string(), value: value.to_string() }
}

#[test]
fn example_request_is_prepared() {
    assert_eq!(
        prepare(&example_request()),
        Ok(Outbound {
            endpoint: "https://api.example.com/v1/chat/completions".to_string(),
            headers: vec![
                header("authorization", "Bearer sk-abc"),
                header("content-type", "application/json"),
            ],
            payload: Payload {
                model: "gpt-x".to_string(),
                temperature_bits: 0.7f32.to_bits(),
                max_tokens: 100,
                messages: vec![message("user", "hi")],
            },
        })
    );
}

#[test]
fn azure_request_is_prepared() {
    let request = ChatRequest {
        provider: Provider::Azure,
        api_key: "  key  ".to_string(),
        base_url: "https://r.azure.example/deployments/d/chat/completions?v=1".to_string(),
        ..example_request()
    };
    let outbound = prepare(&request).unwrap();
    assert_eq!(outbound.endpoint, "https://r.azure.example/deployments/d/chat/completions?v=1");
    assert_eq!(
        outbound.headers,
        vec![header("api-key", "key"), header("content-type", "application/json")]
    );
}

#[test]
fn empty_credential_is_missing_credential() {
    let request = ChatRequest { api_key: String::new(), ..example_request() };
    assert_eq!(prepare(&request), Err(ChatError::MissingCredential));
}

#[test]
fn blank_credential_is_missing_credential() {
    for key in [" ", "\t\r\n", "\u{a0}\u{3000} ", "\u{2003}"] {
        let request = ChatRequest { api_key: key.to_string(), ..example_request() };
        assert_eq!(prepare(&request), Err(ChatError::MissingCredential), "{key:?}");
    }
}

#[test]
fn zero_messages_is_no_messages() {
    let request = ChatRequest { messages: Vec::new(), ..example_request() };
    assert_eq!(prepare(&request), Err(ChatError::NoMessages));
}

#[test]
fn illegal_credential_is_invalid_credential() {
    let request = ChatRequest { api_key: "sk\r\nabc".to_string(), ..example_request() };
    assert_eq!(prepare(&request), Err(ChatError::InvalidCredential));
}

#[test]
fn missing_credential_is_reported_before_no_messages() {
    let request =
        ChatRequest { api_key: "  ".to_string(), messages: Vec::new(), ..example_request() };
    assert_eq!(prepare(&request), Err(ChatError::MissingCredential));
}

#[test]
fn no_messages_is_reported_before_invalid_credential() {
    let request =
        ChatRequest { api_key: "a\nb".to_string(), messages: Vec::new(), ..example_request() };
    assert_eq!(prepare(&request), Err(ChatError::NoMessages));
}

#[test]
fn payload_takes_the_request_as_it_is() {
    let request = ChatRequest {
        model: " model with spaces ".to_string(),
        temperature_bits: 1.25f32.to_bits(),
        max_tokens: 0,
        messages: vec![
            message("system", "  be brief\n"),
            message("user", ""),
            message("assistant", "\u{4f60}\u{597d} // \"quoted\""),
        ],
        ..example_request()
    };
    let payload = build_payload(&request);
    assert_eq!(payload.model, " model with spaces ");
    assert_eq!(f32::from_bits(payload.temperature_bits), 1.25);
    assert_eq!(payload.max_tokens, 0);
    assert_eq!(payload.messages, request.messages);
    assert_eq!(payload.duplicate(), payload);
}

#[test]
fn redirected_call_changes_the_endpoint_only() {
    let primary = prepare(&example_request()).unwrap();
    let moved = primary.redirected("http://elsewhere/x".to_string());
    assert_eq!(moved.endpoint, "http://elsewhere/x");
    assert_eq!(moved.headers, primary.headers);
    assert_eq!(moved.payload, primary.payload);
}
