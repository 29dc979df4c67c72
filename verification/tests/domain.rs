use logappender::domain::{
    LogBuilder, LogError, LogLevel, LogMessage, LogType, RequestObj, ResponseObj,
};
use logappender::string_map::StrMap;

fn sample_request() -> RequestObj {
    let mut headers = StrMap::new();
    headers.insert("content-type".to_string(), "application/json".to_string());
    RequestObj {
        id: "req-1".to_string(),
        method: "GET".to_string(),
        host: "example.org".to_string(),
        uri: "/health".to_string(),
        headers,
        body: Some("{\"ping\":true}".to_string()),
    }
}

fn sample_response() -> ResponseObj {
    ResponseObj { status_code: Some(200), headers: None, body: Some("{\"ok\":true}".to_string()) }
}

#[test]
fn log_error_new_keeps_message() {
    let e = LogError::new("boom");
    assert_eq!(e.message, "boom");
    assert_eq!(e.clone().message, "boom");
}

#[test]
fn defaults_are_app_log_and_info() {
    assert_eq!(LogType::default(), LogType::AppLog);
    assert_eq!(LogLevel::default(), LogLevel::Info);
    let q = RequestObj::default();
    assert!(q.id.is_empty() && q.body.is_none() && q.headers.pairs().is_empty());
    let p = ResponseObj::default();
    assert!(p.status_code.is_none() && p.headers.is_none() && p.body.is_none());
}

#[test]
fn stamped_message_has_only_required_parts() {
    let m = LogMessage::stamped(
        "2024-01-01T00:00:00+00:00".to_string(),
        LogType::PIILog,
        LogLevel::Warning,
        "hello",
        "corr-9",
    );
    assert_eq!(m.event_date_time, "2024-01-01T00:00:00+00:00");
    assert_eq!(m.log_type, LogType::PIILog);
    assert_eq!(m.log_level, LogLevel::Warning);
    assert_eq!(m.message, "hello");
    assert_eq!(m.correlation_id, "corr-9");
    assert!(m.app_id.is_none() && m.request.is_none() && m.response.is_none());
    assert!(m.extra_fields.is_none() && m.execution_time.is_none());
}

#[test]
fn new_message_is_stamped_with_current_time() {
    let m = LogMessage::new(LogType::AppLog, LogLevel::Info, "up", "c");
    let parsed = chrono::DateTime::parse_from_rfc3339(&m.event_date_time);
    assert!(parsed.is_ok());
    assert!(m.event_date_time.ends_with("+00:00"));
    assert_eq!(&m.event_date_time[4..5], "-");
    assert_eq!(&m.event_date_time[10..11], "T");
    assert_eq!(m.message, "up");
}

#[test]
fn app_log_builds() {
    let b = LogBuilder::new(LogType::AppLog, LogLevel::Info, "Microservice log producer is running.", "123");
    let m = b.build().expect("application records always build");
    assert_eq!(m.log_type, LogType::AppLog);
    assert_eq!(m.message, "Microservice log producer is running.");
    assert_eq!(m.correlation_id, "123");
}

#[test]
fn request_log_without_request_is_refused() {
    let b = LogBuilder::new(LogType::RequestLog, LogLevel::Info, "m", "c");
    let e = b.build().unwrap_err();
    assert_eq!(e.message, "Request object is missing");
}

#[test]
fn request_log_without_response_is_refused() {
    let b = LogBuilder::new(LogType::RequestExternalLog, LogLevel::Info, "m", "c").request(sample_request());
    let e = b.build().unwrap_err();
    assert_eq!(e.message, "Response object is missing");
}

#[test]
fn missing_request_is_reported_before_missing_response() {
    let b = LogBuilder::new(LogType::RequestExternalLog, LogLevel::Error, "m", "c");
    assert_eq!(b.build().unwrap_err().message, "Request object is missing");
    let b = LogBuilder::new(LogType::RequestLog, LogLevel::Error, "m", "c").response(sample_response());
    assert_eq!(b.build().unwrap_err().message, "Request object is missing");
}

#[test]
fn complete_request_log_builds() {
    let b = LogBuilder::new(LogType::RequestLog, LogLevel::Debug, "m", "c")
        .request(sample_request())
        .response(sample_response());
    let m = b.build().unwrap();
    assert!(m.request.as_ref().unwrap().same_as(&sample_request()));
    assert!(m.response.as_ref().unwrap().same_as(&sample_response()));
}

#[test]
fn changing_kind_to_request_log_requires_exchange() {
    let b = LogBuilder::new(LogType::AppLog, LogLevel::Info, "m", "c").log_type(LogType::RequestLog);
    assert!(b.build().is_err());
    let b = LogBuilder::new(LogType::RequestLog, LogLevel::Info, "m", "c").log_type(LogType::UserAccessLog);
    assert!(b.build().is_ok());
}

#[test]
fn setters_change_their_field() {
    let m = LogBuilder::new(LogType::AppLog, LogLevel::Info, "m", "c")
        .log_level(LogLevel::Error)
        .message("changed".to_string())
        .code_location("main.rs:10".to_string())
        .build()
        .unwrap();
    assert_eq!(m.log_level, LogLevel::Error);
    assert_eq!(m.message, "changed");
    assert_eq!(m.code_location.as_deref(), Some("main.rs:10"));
}

#[test]
fn extra_fields_are_created_and_replaced() {
    let m = LogBuilder::new(LogType::AppLog, LogLevel::Info, "m", "c")
        .add_extra_field("region".to_string(), "eu".to_string())
        .add_extra_field("zone".to_string(), "a".to_string())
        .add_extra_field("region".to_string(), "us".to_string())
        .build()
        .unwrap();
    let fields = m.extra_fields.unwrap();
    assert_eq!(fields.get("region").map(|s| s.as_str()), Some("us"));
    assert_eq!(fields.get("zone").map(|s| s.as_str()), Some("a"));
    assert_eq!(fields.get("missing"), None);
    assert_eq!(fields.pairs().len(), 2);
}

#[test]
fn same_as_compares_every_part() {
    let a = LogMessage::stamped("t".to_string(), LogType::AppLog, LogLevel::Info, "m", "c");
    let b = a.clone();
    assert!(a.same_as(&b));
    let mut c = a.clone();
    c.caller_user = Some("u".to_string());
    assert!(!a.same_as(&c));
    let mut d = a.clone();
    d.execution_time = Some(5);
    assert!(!a.same_as(&d));
    let mut e = a.clone();
    e.request = Some(sample_request());
    assert!(!a.same_as(&e));
    let f = e.clone();
    assert!(e.same_as(&f));
}

#[test]
fn header_order_does_not_matter() {
    let mut h1 = StrMap::new();
    h1.insert("a".to_string(), "1".to_string());
    h1.insert("b".to_string(), "2".to_string());
    let mut h2 = StrMap::new();
    h2.insert("b".to_string(), "2".to_string());
    h2.insert("a".to_string(), "1".to_string());
    assert!(h1.same_text(&h2));
    let mut q1 = sample_request();
    q1.headers = h1;
    let mut q2 = sample_request();
    q2.headers = h2;
    assert!(q1.same_as(&q2));
    let mut h3 = StrMap::new();
    h3.insert("a".to_string(), "1".to_string());
    assert!(!q1.headers.same_text(&h3));
    assert!(!h3.same_text(&q1.headers));
}

#[test]
fn equality_operators_follow_the_data() {
    let a = LogMessage::stamped("t".to_string(), LogType::AppLog, LogLevel::Info, "m", "c");
    assert_eq!(a, a.clone());
    let mut b = a.clone();
    b.message = "other".to_string();
    assert_ne!(a, b);
    assert_eq!(sample_request(), sample_request());
    assert_ne!(sample_response(), ResponseObj::default());
    assert_eq!(LogError::new("x"), LogError::new("x"));
    assert_ne!(LogError::new("x"), LogError::default());
}

#[test]
fn default_message_and_builder_are_blank_app_records() {
    let m = LogMessage::default();
    assert_eq!(m.log_type, LogType::AppLog);
    assert_eq!(m.log_level, LogLevel::Info);
    assert!(m.message.is_empty() && m.event_date_time.is_empty() && m.correlation_id.is_empty());
    assert_eq!(LogBuilder::default().build().unwrap(), m);
}

#[test]
fn builder_from_message_builds_that_message() {
    let m = LogMessage::stamped("t".to_string(), LogType::UserAccessLog, LogLevel::Debug, "m", "c");
    assert_eq!(LogBuilder::from_message(m.clone()).build().unwrap(), m);
}
