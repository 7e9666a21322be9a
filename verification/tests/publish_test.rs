use qstash_rs::client::{
    decode_publish_response, Client, DecodeMode, PublishFailure, PublishOptions, PublishRequest,
    PublishRequestUrl, QStashError,
};

fn client() -> Client {
    Client::new("token", None, None).unwrap()
}

fn value_of(headers: &Vec<(String, String)>, name: &str) -> Option<String> {
    let mut found: Option<String> = None;
    for (n, v) in headers {
        if n.eq_ignore_ascii_case(name) {
            found = Some(v.clone());
        }
    }
    found
}

#[test]
fn prepare_publish_to_direct_url_with_no_options() {
    let request = PublishRequest::new(PublishRequestUrl::Url("https://example.com".to_string()));
    let prepared = client().prepare_publish(request).unwrap();
    assert_eq!(prepared.url, "https://qstash.upstash.io/v2/publish/https://example.com");
    assert_eq!(value_of(&prepared.headers, "Upstash-Method"), Some("POST".to_string()));
    assert_eq!(prepared.headers.len(), 1);
    assert!(prepared.body.is_none());
    assert_eq!(prepared.mode, DecodeMode::Single);
}

#[test]
fn prepare_publish_to_topic_uses_list_mode() {
    let request = PublishRequest::new(PublishRequestUrl::Topic("my-topic".to_string()));
    let prepared = client().prepare_publish(request).unwrap();
    assert_eq!(prepared.url, "https://qstash.upstash.io/v2/publish/my-topic");
    assert_eq!(prepared.mode, DecodeMode::List);
}

#[test]
fn prepare_publish_escapes_a_space_in_the_url() {
    let request = PublishRequest::new(PublishRequestUrl::Url(
        "https://example.com/a b".to_string(),
    ));
    let prepared = client().prepare_publish(request).unwrap();
    assert_eq!(prepared.url, "https://qstash.upstash.io/v2/publish/https://example.com/a%20b");
}

#[test]
fn prepare_publish_escapes_a_character_beyond_ascii() {
    let request = PublishRequest::new(PublishRequestUrl::Url(
        "https://example.com/\u{e9}".to_string(),
    ));
    let prepared = client().prepare_publish(request).unwrap();
    assert_eq!(prepared.url, "https://qstash.upstash.io/v2/publish/https://example.com/%C3%A9");
}

#[test]
fn prepare_publish_carries_the_body_unchanged() {
    let mut request = PublishRequest::new(PublishRequestUrl::Url(
        "https://example.com".to_string(),
    ));
    request.body = Some(vec![1u8, 2, 3]);
    let prepared = client().prepare_publish(request).unwrap();
    assert_eq!(prepared.body, Some(vec![1u8, 2, 3]));
}

#[test]
fn prepare_publish_json_sets_the_content_type() {
    let prepared = client()
        .prepare_publish_json(
            PublishRequestUrl::Url("https://example.com".to_string()),
            "{\"test\":\"test\"}".to_string(),
            None,
        )
        .unwrap();
    assert_eq!(prepared.headers, vec![
        ("Upstash-Method".to_string(), "POST".to_string()),
        ("Content-Type".to_string(), "application/json".to_string()),
    ]);
    assert_eq!(prepared.body, Some(b"{\"test\":\"test\"}".to_vec()));
    assert_eq!(prepared.mode, DecodeMode::Single);
}

#[test]
fn prepare_publish_json_keeps_a_caller_content_type() {
    let options = PublishOptions {
        headers: Some(vec![("content-type".to_string(), "application/json; charset=utf-8"
            .to_string())]),
        delay: None,
        not_before: None,
        deduplication_id: None,
        content_based_deduplication: None,
        retries: None,
        callback: None,
        method: None,
    };
    let prepared = client()
        .prepare_publish_json(
            PublishRequestUrl::Topic("my-topic".to_string()),
            "1".to_string(),
            Some(options),
        )
        .unwrap();
    assert_eq!(
        value_of(&prepared.headers, "Content-Type"),
        Some("application/json; charset=utf-8".to_string())
    );
    assert_eq!(value_of(&prepared.headers, "Upstash-Method"), Some("POST".to_string()));
    assert_eq!(prepared.mode, DecodeMode::List);
}

#[test]
fn single_mode_decodes_one_record() {
    let result = decode_publish_response(
        DecodeMode::Single,
        "{\"messageId\":\"abc\",\"url\":\"https://example.com\"}",
    )
    .unwrap();
    assert_eq!(result.len(), 1);
    assert_eq!(result[0].message_id, Some("abc".to_string()));
    assert_eq!(result[0].url, Some("https://example.com".to_string()));
    assert_eq!(result[0].error, None);
    assert_eq!(result[0].deduplicated, None);
}

#[test]
fn single_mode_refuses_an_array_body() {
    match decode_publish_response(DecodeMode::Single, "[{\"messageId\":\"abc\"}]") {
        Err(PublishFailure::Decode) => {},
        _ => panic!("an array body in single mode must be a decode failure"),
    }
}

#[test]
fn topic_response_preserves_the_order_of_outcomes() {
    let result = decode_publish_response(
        DecodeMode::List,
        "[{\"messageId\":\"a\"},{\"messageId\":\"b\",\"deduplicated\":true}]",
    )
    .unwrap();
    assert_eq!(result.len(), 2);
    assert_eq!(result[0].message_id, Some("a".to_string()));
    assert_eq!(result[0].deduplicated, None);
    assert_eq!(result[1].message_id, Some("b".to_string()));
    assert_eq!(result[1].deduplicated, Some(true));
}

#[test]
fn topic_response_preserves_three_outcomes_in_order() {
    let result = decode_publish_response(
        DecodeMode::List,
        "[{\"messageId\":\"x\"},{\"messageId\":\"y\"},{\"messageId\":\"z\"}]",
    )
    .unwrap();
    let ids: Vec<Option<String>> = result.iter().map(|r| r.message_id.clone()).collect();
    assert_eq!(
        ids,
        vec![Some("x".to_string()), Some("y".to_string()), Some("z".to_string())]
    );
}

#[test]
fn an_empty_topic_response_is_a_legitimate_empty_result() {
    let result = decode_publish_response(DecodeMode::List, "[]").unwrap();
    assert_eq!(result.len(), 0);
}

#[test]
fn service_error_body_is_data_not_a_failure() {
    let result = decode_publish_response(DecodeMode::Single, "{\"error\":\"invalid token\"}")
        .unwrap();
    assert_eq!(result.len(), 1);
    assert_eq!(result[0].error, Some("invalid token".to_string()));
    assert_eq!(result[0].message_id, None);
}

#[test]
fn malformed_json_is_a_decode_failure_not_an_empty_result() {
    match decode_publish_response(DecodeMode::Single, "{not json") {
        Err(PublishFailure::Decode) => {},
        _ => panic!("malformed JSON must be a decode failure"),
    }
    match decode_publish_response(DecodeMode::List, "{not json") {
        Err(PublishFailure::Decode) => {},
        _ => panic!("malformed JSON must be a decode failure"),
    }
}

#[test]
fn a_record_with_a_numeric_message_id_is_refused() {
    match decode_publish_response(DecodeMode::Single, "{\"messageId\":7}") {
        Err(PublishFailure::Decode) => {},
        _ => panic!("a numeric message id must be a decode failure"),
    }
}

#[test]
fn a_present_error_is_authoritative_for_failure() {
    let result = decode_publish_response(
        DecodeMode::Single,
        "{\"messageId\":\"abc\",\"error\":\"boom\"}",
    )
    .unwrap();
    assert!(result[0].is_failure());
    assert_eq!(result[0].message_id, Some("abc".to_string()));

    let result = decode_publish_response(DecodeMode::Single, "{\"messageId\":\"abc\"}").unwrap();
    assert!(!result[0].is_failure());
}

#[test]
fn publish_failures_surface_as_the_publish_error() {
    assert_eq!(PublishFailure::Decode.to_qstash_error(), QStashError::PublishError);
    assert_eq!(PublishFailure::Transport.to_qstash_error(), QStashError::PublishError);
    assert_eq!(
        PublishFailure::InvalidDestination.to_qstash_error(),
        QStashError::PublishError
    );
}
