use qstash_rs::client::{Client, QStashError, Version};

#[test]
fn client_instantiate_should_work() {
    match Client::new("test_token", None, None) {
        Ok(_) => {},
        Err(_) => {
            panic!("Could not initialize client");
        },
    };
}

#[test]
fn client_rejects_token_with_control_characters() {
    match Client::new("bad\ntoken", None, None) {
        Err(QStashError::TokenError) => {},
        _ => panic!("a token with a control character must be refused"),
    }
}

#[test]
fn client_rejects_base_url_that_does_not_parse() {
    match Client::new("token", Some("not a url"), None) {
        Err(QStashError::InvalidUrl) => {},
        _ => panic!("a relative base address must be refused"),
    }
}

#[test]
fn client_normalizes_the_default_base_url() {
    let client = Client::new("token", None, None).unwrap();
    assert_eq!(client.base_url, "https://qstash.upstash.io/");
    assert_eq!(client.version, "v2");
    assert_eq!(client.auth_header, "Bearer token");
}

#[test]
fn client_uses_the_requested_version_segment() {
    let v1 = Client::new("token", None, Some(Version::V1)).unwrap();
    assert_eq!(v1.version, "v1");
    let v2 = Client::new("token", None, Some(Version::V2)).unwrap();
    assert_eq!(v2.version, "v2");
}

#[test]
fn error_messages_name_each_failure() {
    assert_eq!(QStashError::TokenError.message(), "Could not parse token");
    assert_eq!(QStashError::ReqwestError.message(), "Reqwest failed to initialize");
    assert_eq!(QStashError::InvalidUrl.message(), "Invalid Url");
    assert_eq!(QStashError::PublishError.message(), "Error publishing message");
    assert_eq!(QStashError::EventError.message(), "Error getting events");
    assert_eq!(QStashError::DeadLetterQueueError.message(), "Error getting DLQ List");
    assert_eq!(QStashError::GetMessageError.message(), "Error getting message");
    assert_eq!(QStashError::DeleteMessageError.message(), "Error deleting message");
}
