use server_sent_events::utils::{
    content_type_is_sse, content_type_value_is_sse, get_last_event_id, header_value_is_sse,
    header_value_text, media_type_is_sse,
};
use server_sent_events::{CONTENT_TYPE_VALUE, LAST_EVENT_ID_HEADER_KEY};

#[test]
fn test_content_type_value_is_sse() {
    assert!(content_type_value_is_sse("text/event-stream"));
    assert!(!content_type_value_is_sse("text/plain"));
}

#[test]
fn test_content_type_is_sse() {
    assert!(content_type_is_sse(
        http::Response::builder()
            .header("Content-Type", "text/event-stream")
            .body(())
            .unwrap()
            .headers()
    ));
    assert!(!content_type_is_sse(
        http::Response::builder()
            .header("Content-Type", "text/plain")
            .body(())
            .unwrap()
            .headers()
    ));
    assert!(!content_type_is_sse(
        http::Response::builder().body(()).unwrap().headers()
    ));
}

#[test]
fn test_get_last_event_id() {
    assert_eq!(
        get_last_event_id(
            http::Request::builder()
                .header("Last-Event-ID", "foo")
                .body(())
                .unwrap()
                .headers()
        ),
        Ok(Some("foo".into()))
    );
    assert_eq!(
        get_last_event_id(http::Request::builder().body(()).unwrap().headers()),
        Ok(None)
    );
}

#[test]
fn constants_have_their_values() {
    assert_eq!(CONTENT_TYPE_VALUE, "text/event-stream");
    assert_eq!(LAST_EVENT_ID_HEADER_KEY, "Last-Event-ID");
    assert!(content_type_value_is_sse(CONTENT_TYPE_VALUE));
}

#[test]
fn media_type_parameters_and_case_do_not_matter() {
    assert!(content_type_value_is_sse("text/event-stream; charset=utf-8"));
    assert!(content_type_value_is_sse("text/event-stream;charset=UTF-8"));
    assert!(content_type_value_is_sse("TEXT/Event-Stream"));
}

#[test]
fn other_or_malformed_media_types_are_not_sse() {
    assert!(!content_type_value_is_sse(""));
    assert!(!content_type_value_is_sse("text"));
    assert!(!content_type_value_is_sse("event-stream/text"));
    assert!(!content_type_value_is_sse("application/event-stream"));
    assert!(!content_type_value_is_sse("text/event-stream-x"));
    assert!(!content_type_value_is_sse("text/event stream"));
    assert!(!content_type_value_is_sse(" text/event-stream"));
}

#[test]
fn type_and_subtype_are_compared_exactly() {
    let s = |t: &str| t.to_string();
    assert!(media_type_is_sse(&s("text"), &s("event-stream")));
    assert!(!media_type_is_sse(&s("event-stream"), &s("text")));
    assert!(!media_type_is_sse(&s("text"), &s("plain")));
    assert!(!media_type_is_sse(&s("Text"), &s("event-stream")));
    assert!(!media_type_is_sse(&s(""), &s("")));
}

#[test]
fn header_value_must_be_utf8_to_be_sse() {
    assert!(header_value_is_sse(Some(b"text/event-stream")));
    assert!(!header_value_is_sse(Some(b"text/plain")));
    assert!(!header_value_is_sse(Some(b"text/event-stream\xff")));
    assert!(!header_value_is_sse(Some(b"\xff")));
    assert!(!header_value_is_sse(None));
}

#[test]
fn content_type_that_is_not_utf8_is_not_sse() {
    let mut headers = http::HeaderMap::new();
    headers.insert(
        http::header::CONTENT_TYPE,
        http::HeaderValue::from_bytes(b"text/event-stream\xfa").unwrap(),
    );
    assert!(!content_type_is_sse(&headers));
}

#[test]
fn content_type_is_found_among_other_headers() {
    let mut headers = http::HeaderMap::new();
    headers.insert("accept", http::HeaderValue::from_static("text/event-stream"));
    assert!(!content_type_is_sse(&headers));
    headers.insert(
        "content-type",
        http::HeaderValue::from_static("text/event-stream; charset=utf-8"),
    );
    assert!(content_type_is_sse(&headers));
    headers.append("content-type", http::HeaderValue::from_static("text/plain"));
    assert!(content_type_is_sse(&headers));
}

#[test]
fn header_text_is_decoded() {
    assert_eq!(header_value_text(None), Ok(None));
    assert_eq!(header_value_text(Some(b"")), Ok(Some(String::new())));
    assert_eq!(header_value_text(Some(b"abc")), Ok(Some("abc".to_string())));
    assert_eq!(
        header_value_text(Some("h\u{e9}\u{2713}".as_bytes())),
        Ok(Some("h\u{e9}\u{2713}".to_string()))
    );
    assert!(header_value_text(Some(b"\xff")).is_err());
    assert!(header_value_text(Some(b"ab\xc3")).is_err());
}

#[test]
fn last_event_id_that_is_not_utf8_is_an_error() {
    let mut headers = http::HeaderMap::new();
    headers.insert(
        "last-event-id",
        http::HeaderValue::from_bytes(b"\xff\xfe").unwrap(),
    );
    assert!(get_last_event_id(&headers).is_err());
}

#[test]
fn last_event_id_is_found_whatever_the_case_of_its_name() {
    let mut headers = http::HeaderMap::new();
    headers.insert("x-other", http::HeaderValue::from_static("no"));
    assert_eq!(get_last_event_id(&headers), Ok(None));
    headers.insert("LAST-EVENT-ID".parse::<http::HeaderName>().unwrap(), http::HeaderValue::from_static("42"));
    assert_eq!(get_last_event_id(&headers), Ok(Some("42".to_string())));
    headers.append("last-event-id", http::HeaderValue::from_static("43"));
    assert_eq!(get_last_event_id(&headers), Ok(Some("42".to_string())));
}
