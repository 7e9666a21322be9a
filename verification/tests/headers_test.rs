use qstash_rs::client::error::OptionField;
use qstash_rs::client::{generate_headers, PublishFailure, PublishOptions};

fn no_options() -> PublishOptions {
    PublishOptions {
        headers: None,
        delay: None,
        not_before: None,
        deduplication_id: None,
        content_based_deduplication: None,
        retries: None,
        callback: None,
        method: None,
    }
}

fn value_of(headers: &Vec<(String, String)>, name: &str) -> Option<String> {
    let mut found: Option<String> = None;
    for (n, v) in headers {
        if n.eq_ignore_ascii_case(name) {
            found = Some(v.clone());
        }
    }
    found
}

#[test]
fn method_defaults_to_post() {
    let headers = generate_headers(no_options()).unwrap();
    assert_eq!(value_of(&headers, "Upstash-Method"), Some("POST".to_string()));
    assert_eq!(headers.len(), 1);
}

#[test]
fn method_override_is_sent() {
    let mut options = no_options();
    options.method = Some("PUT".to_string());
    let headers = generate_headers(options).unwrap();
    assert_eq!(value_of(&headers, "Upstash-Method"), Some("PUT".to_string()));
}

#[test]
fn retries_five_encodes_as_plain_decimal() {
    let mut options = no_options();
    options.retries = Some(5);
    let headers = generate_headers(options).unwrap();
    assert_eq!(value_of(&headers, "Upstash-Retries"), Some("5".to_string()));
}

#[test]
fn delay_thirty_encodes_with_seconds_suffix() {
    let mut options = no_options();
    options.delay = Some(30);
    let headers = generate_headers(options).unwrap();
    assert_eq!(value_of(&headers, "Upstash-Delay"), Some("30s".to_string()));
}

#[test]
fn delay_extremes_encode_exactly() {
    let mut options = no_options();
    options.delay = Some(0);
    options.retries = Some(u32::MAX);
    let headers = generate_headers(options).unwrap();
    assert_eq!(value_of(&headers, "Upstash-Delay"), Some("0s".to_string()));
    assert_eq!(value_of(&headers, "Upstash-Retries"), Some("4294967295".to_string()));
}

#[test]
fn not_before_alone_omits_delay_header() {
    let mut options = no_options();
    options.not_before = Some(1700000000);
    let headers = generate_headers(options).unwrap();
    assert_eq!(value_of(&headers, "Upstash-Not-Before"), Some("1700000000".to_string()));
    assert_eq!(value_of(&headers, "Upstash-Delay"), None);
}

#[test]
fn not_before_overrides_delay_header() {
    let mut options = no_options();
    options.delay = Some(30);
    options.not_before = Some(1700000000);
    let headers = generate_headers(options).unwrap();
    assert_eq!(value_of(&headers, "Upstash-Not-Before"), Some("1700000000".to_string()));
    assert_eq!(value_of(&headers, "Upstash-Delay"), None);
}

#[test]
fn content_based_deduplication_encodes_as_boolean_words() {
    let mut options = no_options();
    options.content_based_deduplication = Some(true);
    let headers = generate_headers(options).unwrap();
    assert_eq!(
        value_of(&headers, "Upstash-Content-Based-Deduplication"),
        Some("true".to_string())
    );

    let mut options = no_options();
    options.content_based_deduplication = Some(false);
    let headers = generate_headers(options).unwrap();
    assert_eq!(
        value_of(&headers, "Upstash-Content-Based-Deduplication"),
        Some("false".to_string())
    );
}

#[test]
fn deduplication_id_is_sent_raw() {
    let mut options = no_options();
    options.deduplication_id = Some("order-42".to_string());
    let headers = generate_headers(options).unwrap();
    assert_eq!(value_of(&headers, "Upstash-Deduplication-Id"), Some("order-42".to_string()));
}

#[test]
fn deduplication_id_with_control_character_names_the_field() {
    let mut options = no_options();
    options.deduplication_id = Some("bad\u{0}id".to_string());
    match generate_headers(options) {
        Err(PublishFailure::Encoding(OptionField::DeduplicationId)) => {},
        _ => panic!("an unencodable deduplication id must name its field"),
    }
}

#[test]
fn callback_with_control_character_names_the_field() {
    let mut options = no_options();
    options.callback = Some("https://example.com/\ncb".to_string());
    match generate_headers(options) {
        Err(PublishFailure::Encoding(OptionField::Callback)) => {},
        _ => panic!("an unencodable callback must name its field"),
    }
}

#[test]
fn method_with_control_character_names_the_field() {
    let mut options = no_options();
    options.method = Some("P\rOST".to_string());
    match generate_headers(options) {
        Err(PublishFailure::Encoding(OptionField::Method)) => {},
        _ => panic!("an unencodable method must name its field"),
    }
}

#[test]
fn passthrough_header_with_bad_name_names_the_field() {
    let mut options = no_options();
    options.headers = Some(vec![("bad name".to_string(), "v".to_string())]);
    match generate_headers(options) {
        Err(PublishFailure::Encoding(OptionField::Headers)) => {},
        _ => panic!("a pass-through header with spaces in its name must be refused"),
    }
}

#[test]
fn directive_overwrites_colliding_passthrough_header() {
    let mut options = no_options();
    options.headers = Some(vec![("upstash-method".to_string(), "GET".to_string())]);
    let headers = generate_headers(options).unwrap();
    assert_eq!(value_of(&headers, "Upstash-Method"), Some("POST".to_string()));
    assert_eq!(headers.len(), 1);
}

#[test]
fn passthrough_headers_survive_beside_directives() {
    let mut options = no_options();
    options.headers = Some(vec![("Content-Type".to_string(), "text/plain".to_string())]);
    options.retries = Some(2);
    let headers = generate_headers(options).unwrap();
    assert_eq!(value_of(&headers, "Content-Type"), Some("text/plain".to_string()));
    assert_eq!(value_of(&headers, "Upstash-Retries"), Some("2".to_string()));
    assert_eq!(value_of(&headers, "Upstash-Method"), Some("POST".to_string()));
    assert_eq!(headers.len(), 3);
}

#[test]
fn duplicate_passthrough_names_collapse_to_the_last_value() {
    let mut options = no_options();
    options.headers = Some(vec![
        ("X-Tag".to_string(), "one".to_string()),
        ("x-tag".to_string(), "two".to_string()),
    ]);
    let headers = generate_headers(options).unwrap();
    assert_eq!(value_of(&headers, "X-Tag"), Some("two".to_string()));
    assert_eq!(headers.len(), 2);
}

#[test]
fn every_directive_appears_when_every_option_is_set() {
    let options = PublishOptions {
        headers: Some(vec![("X-Trace".to_string(), "t1".to_string())]),
        delay: Some(10),
        not_before: Some(1700000000),
        deduplication_id: Some("d-1".to_string()),
        content_based_deduplication: Some(true),
        retries: Some(7),
        callback: Some("https://example.com/cb".to_string()),
        method: Some("GET".to_string()),
    };
    let headers = generate_headers(options).unwrap();
    assert_eq!(value_of(&headers, "X-Trace"), Some("t1".to_string()));
    assert_eq!(value_of(&headers, "Upstash-Method"), Some("GET".to_string()));
    assert_eq!(value_of(&headers, "Upstash-Delay"), None);
    assert_eq!(value_of(&headers, "Upstash-Not-Before"), Some("1700000000".to_string()));
    assert_eq!(value_of(&headers, "Upstash-Deduplication-Id"), Some("d-1".to_string()));
    assert_eq!(
        value_of(&headers, "Upstash-Content-Based-Deduplication"),
        Some("true".to_string())
    );
    assert_eq!(value_of(&headers, "Upstash-Retries"), Some("7".to_string()));
    assert_eq!(
        value_of(&headers, "Upstash-Callback"),
        Some("https://example.com/cb".to_string())
    );
    assert_eq!(headers.len(), 7);
}

#[test]
fn tab_is_a_legal_header_value_character() {
    let mut options = no_options();
    options.deduplication_id = Some("a\tb".to_string());
    let headers = generate_headers(options).unwrap();
    assert_eq!(value_of(&headers, "Upstash-Deduplication-Id"), Some("a\tb".to_string()));
}
