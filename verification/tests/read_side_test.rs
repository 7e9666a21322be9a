use qstash_rs::client::dead_letter_queue::decode_dlq_response;
use qstash_rs::client::events::{decode_events_response, State};
use qstash_rs::client::messages::{cancel_outcome, decode_message_response};
use qstash_rs::client::{Client, DlqRequest, EventRequest, QStashError};

fn client() -> Client {
    Client::new("token", None, None).unwrap()
}

#[test]
fn events_url_carries_the_cursor() {
    let url = client()
        .events_url(&Some(EventRequest { cursor: Some(123) }))
        .unwrap();
    assert_eq!(url, "https://qstash.upstash.io/v2/events?cursor=123");
}

#[test]
fn events_url_without_cursor_has_no_query() {
    let url = client().events_url(&None).unwrap();
    assert_eq!(url, "https://qstash.upstash.io/v2/events");
}

#[test]
fn events_page_decodes_with_states_and_cursor() {
    let body = "{\"cursor\":\"171\",\"events\":[\
        {\"time\":1,\"state\":\"DELIVERED\",\"messageId\":\"m1\"},\
        {\"time\":2,\"state\":\"something-new\",\"messageId\":\"m2\",\"url\":\"https://example.com\"}\
    ]}";
    let page = decode_events_response(body).unwrap();
    assert_eq!(page.cursor, Some("171".to_string()));
    assert_eq!(page.events.len(), 2);
    assert_eq!(page.events[0].state, State::DELIVERED);
    assert_eq!(page.events[0].message_id, "m1");
    assert_eq!(page.events[1].state, State::ERROR);
    assert_eq!(page.events[1].url, Some("https://example.com".to_string()));
}

#[test]
fn an_unreadable_state_falls_back_instead_of_failing() {
    let body = "{\"events\":[{\"time\":1,\"state\":5,\"messageId\":\"m1\"}]}";
    let page = decode_events_response(body).unwrap();
    assert_eq!(page.events[0].state, State::ERROR);
    assert_eq!(page.cursor, None);
}

#[test]
fn an_empty_events_array_is_a_legitimate_empty_page() {
    let page = decode_events_response("{\"events\":[]}").unwrap();
    assert_eq!(page.events.len(), 0);
    assert_eq!(page.cursor, None);
}

#[test]
fn a_page_without_the_events_array_is_refused() {
    match decode_events_response("{\"cursor\":\"1\"}") {
        Err(QStashError::EventError) => {},
        _ => panic!("a page without events must be refused"),
    }
}

#[test]
fn an_event_without_a_time_is_refused() {
    match decode_events_response("{\"events\":[{\"state\":\"ACTIVE\",\"messageId\":\"m\"}]}") {
        Err(QStashError::EventError) => {},
        _ => panic!("an event without a time must be refused"),
    }
}

#[test]
fn message_url_names_the_message() {
    let url = client().message_url("msg_123").unwrap();
    assert_eq!(url, "https://qstash.upstash.io/v2/messages/msg_123");
}

#[test]
fn a_message_decodes_with_its_header_map() {
    let body = "{\"messageId\":\"m1\",\"url\":\"https://example.com\",\"createdAt\":1700,\
        \"header\":{\"Content-Type\":[\"application/json\"]},\"maxRetries\":3,\
        \"body\":\"hi\",\"method\":\"POST\"}";
    let message = decode_message_response(body).unwrap();
    assert_eq!(message.message_id, "m1");
    assert_eq!(message.url, "https://example.com");
    assert_eq!(message.created_at, 1700);
    assert_eq!(message.max_retries, Some(3));
    assert_eq!(message.body, Some("hi".to_string()));
    assert_eq!(message.method, Some("POST".to_string()));
    assert_eq!(
        message.header,
        Some(vec![("Content-Type".to_string(), vec!["application/json".to_string()])])
    );
    assert_eq!(message.topic_name, None);
}

#[test]
fn a_message_with_a_negative_timestamp_is_refused() {
    let body = "{\"messageId\":\"m1\",\"url\":\"https://example.com\",\"createdAt\":-5}";
    match decode_message_response(body) {
        Err(QStashError::GetMessageError) => {},
        _ => panic!("a negative timestamp must be refused"),
    }
}

#[test]
fn cancellation_succeeds_exactly_on_success_statuses() {
    assert!(cancel_outcome(200).is_ok());
    assert!(cancel_outcome(204).is_ok());
    assert!(cancel_outcome(299).is_ok());
    match cancel_outcome(199) {
        Err(QStashError::DeleteMessageError) => {},
        _ => panic!("a status below the success range must fail"),
    }
    match cancel_outcome(404) {
        Err(QStashError::DeleteMessageError) => {},
        _ => panic!("a failing status must fail"),
    }
}

#[test]
fn dlq_url_carries_the_cursor() {
    let url = client().dlq_url(&Some(DlqRequest { cursor: Some(9) })).unwrap();
    assert_eq!(url, "https://qstash.upstash.io/v2/dlq?cursor=9");
    let url = client().dlq_url(&None).unwrap();
    assert_eq!(url, "https://qstash.upstash.io/v2/dlq");
}

#[test]
fn a_dlq_page_decodes_its_messages() {
    let body = "{\"messages\":[{\"messageId\":\"m1\",\"url\":\"https://example.com\",\
        \"method\":\"POST\",\"createdAt\":1700,\"dlqId\":\"d1\"}]}";
    let page = decode_dlq_response(body).unwrap();
    assert_eq!(page.messages.len(), 1);
    assert_eq!(page.messages[0].message_id, "m1");
    assert_eq!(page.messages[0].dlq_id, "d1");
    assert_eq!(page.messages[0].method, "POST");
}

#[test]
fn a_dlq_entry_without_its_queue_id_is_refused() {
    let body = "{\"messages\":[{\"messageId\":\"m1\",\"url\":\"https://example.com\",\
        \"method\":\"POST\",\"createdAt\":1700}]}";
    match decode_dlq_response(body) {
        Err(QStashError::DeadLetterQueueError) => {},
        _ => panic!("a dead-letter entry without its queue id must be refused"),
    }
}
