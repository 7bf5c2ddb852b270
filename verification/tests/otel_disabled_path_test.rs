use axum::http::{HeaderMap, HeaderValue};
use otel_trace::OtelState;

#[test]
fn inject_trace_context_http_is_noop_when_otel_disabled() {
    let mut state = OtelState::new();
    assert!(otel_trace::shutdown_otel(&mut state).is_none());

    let mut headers = HeaderMap::new();
    assert!(matches!(otel_trace::inject_trace_context_http(&state, &mut headers), Ok(None)));

    assert!(
        headers.is_empty(),
        "No trace context should be injected when OTel is disabled"
    );
}

#[test]
fn inbound_headers_stay_when_otel_disabled() {
    let state = OtelState::new();
    let mut headers = HeaderMap::new();
    headers.insert(
        "traceparent",
        HeaderValue::from_static("00-0af7651916cd43dd8448eb211c80319c-b7ad6b7169203331-01"),
    );
    let before = headers.clone();
    assert!(matches!(otel_trace::inject_trace_context_http(&state, &mut headers), Ok(None)));
    assert_eq!(headers, before);
}
