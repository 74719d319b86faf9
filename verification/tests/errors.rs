use chat_relay::error::ChatError;

#[test]
fn message_of_missing_credential() {
    assert_eq!(ChatError::MissingCredential.message(), "missing credential");
}

#[test]
fn message_of_no_messages() {
    assert_eq!(ChatError::NoMessages.message(), "no messages provided");
}

#[test]
fn message_of_invalid_credential() {
    assert_eq!(ChatError::InvalidCredential.message(), "invalid credential characters");
}

#[test]
fn message_of_network_failure() {
    assert_eq!(
        ChatError::Network("connection refused".to_string()).message(),
        "network failure: connection refused"
    );
}

#[test]
fn message_of_server_error() {
    assert_eq!(
        ChatError::Server("{\"error\":\"quota\"}".to_string()).message(),
        "server error: {\"error\":\"quota\"}"
    );
    assert_eq!(ChatError::Server(String::new()).message(), "server error: ");
}

#[test]
fn message_of_parse_failure() {
    assert_eq!(
        ChatError::Parse("expected value at line 1 column 1".to_string()).message(),
        "response parse failure: expected value at line 1 column 1"
    );
}

#[test]
fn message_of_no_content() {
    assert_eq!(ChatError::NoContent.message(), "no content returned by model");
}

#[test]
fn parse_failure_reads_differently_from_server_error() {
    let same = "boom".to_string();
    assert_ne!(ChatError::Parse(same.clone()).message(), ChatError::Server(same).message());
}
