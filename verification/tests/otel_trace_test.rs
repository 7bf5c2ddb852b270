//! Integration tests for OpenTelemetry distributed tracing.
//!
//! These tests verify that:
//! 1. Inbound `traceparent` is extracted into the router span and the router
//!    span becomes a child of the upstream caller's span.
//! 2. `inject_trace_context_http` correctly injects the router's span context into
//!    outgoing backend requests.
//! 3. Inbound `baggage` survives the enabled path via the composite propagator.

use axum::http::{HeaderMap, HeaderName, HeaderValue};
use opentelemetry::{
    global,
    propagation::{Injector, TextMapCompositePropagator},
    trace::{SpanId, TraceId, TracerProvider as _},
};
use opentelemetry_sdk::{
    propagation::{BaggagePropagator, TraceContextPropagator},
    testing::trace::InMemorySpanExporter,
    trace::TracerProvider,
};
use otel_trace::propagated::FieldRecorder;
use otel_trace::{OtelState, PreparedOtel, PropagatorKind};
use tracing::callsite::Identifier;
use tracing::field::{FieldSet, Value};
use tracing::metadata::Kind;
use tracing::subscriber::Interest;
use tracing::{Callsite, Level, Metadata, Span};
use tracing_opentelemetry::OpenTelemetrySpanExt;
use tracing_subscriber::layer::SubscriberExt;

struct RouterCallsite;

impl Callsite for RouterCallsite {
    fn set_interest(&self, _interest: Interest) {}

    fn metadata(&self) -> &Metadata<'_> {
        router_metadata()
    }
}

fn router_metadata() -> &'static Metadata<'static> {
    Box::leak(Box::new(Metadata::new(
        "http_request",
        "vllm_router_rs::otel-trace",
        Level::INFO,
        None,
        None,
        None,
        FieldSet::new(&["method", "uri"], Identifier(&RouterCallsite)),
        Kind::SPAN,
    )))
}

/// Helper: the router's span for a request.
fn router_span(method: &str, uri: &str) -> Span {
    let metadata = router_metadata();
    let fields = metadata.fields();
    let method_field = fields.field("method").unwrap();
    let uri_field = fields.field("uri").unwrap();
    Span::new(
        metadata,
        &fields.value_set(&[
            (&method_field, Some(&method as &dyn Value)),
            (&uri_field, Some(&uri as &dyn Value)),
        ]),
    )
}

/// Helper: set up a test OTel environment with in-memory exporter.
/// Returns the exporter, provider, the tracing state and a subscriber guard.
fn setup_test_otel() -> (
    InMemorySpanExporter,
    TracerProvider,
    OtelState,
    tracing::subscriber::DefaultGuard,
) {
    let exporter = InMemorySpanExporter::default();
    let provider = TracerProvider::builder()
        .with_simple_exporter(exporter.clone())
        .build();
    let tracer = provider.tracer("test-tracer");

    global::set_text_map_propagator(TextMapCompositePropagator::new(vec![
        Box::new(TraceContextPropagator::new()),
        Box::new(BaggagePropagator::new()),
    ]));

    let otel_layer = tracing_opentelemetry::layer().with_tracer(tracer);
    let subscriber = tracing_subscriber::registry().with(otel_layer);
    let guard = tracing::subscriber::set_default(subscriber);

    // Enable the flag so that inject_trace_context_http activates
    let mut state = OtelState::new();
    otel_trace::mark_otel_enabled(&mut state);

    (exporter, provider, state, guard)
}

/// Test end-to-end trace context propagation:
/// inbound extraction + outbound injection via inject_trace_context_http.
#[test]
fn test_trace_context_propagation_end_to_end() {
    let (exporter, provider, mut state, _guard) = setup_test_otel();

    let upstream_trace_id = "0af7651916cd43dd8448eb211c80319c";
    let upstream_span_id = "b7ad6b7169203331";
    let traceparent = format!("00-{}-{}-01", upstream_trace_id, upstream_span_id);

    let mut incoming_headers = HeaderMap::new();
    incoming_headers.insert("traceparent", HeaderValue::from_str(&traceparent).unwrap());

    let parent_cx = global::get_text_map_propagator(|propagator| {
        propagator.extract(&opentelemetry_http::HeaderExtractor(&incoming_headers))
    });

    let span = router_span("POST", "/v1/chat/completions");
    span.set_parent(parent_cx);

    let outgoing_headers = {
        let _enter = span.enter();

        let mut headers = HeaderMap::new();
        assert!(otel_trace::inject_trace_context_http(&state, &mut headers).is_ok());
        headers
    };

    drop(span);
    provider.force_flush();

    let spans = exporter.get_finished_spans().unwrap();
    assert!(!spans.is_empty(), "Expected at least one span to be exported");

    let exported_span = &spans[0];
    let expected_trace_id = TraceId::from_hex(upstream_trace_id).unwrap();
    assert_eq!(
        exported_span.span_context.trace_id(),
        expected_trace_id,
        "Span's trace_id should match the incoming traceparent's trace_id"
    );

    let expected_parent_id = SpanId::from_hex(upstream_span_id).unwrap();
    assert_eq!(
        exported_span.parent_span_id, expected_parent_id,
        "Span's parent_span_id should match the incoming traceparent's span_id"
    );

    let outgoing_tp = outgoing_headers
        .get("traceparent")
        .expect("Expected outgoing traceparent header")
        .to_str()
        .unwrap();

    let parts: Vec<&str> = outgoing_tp.split('-').collect();
    assert_eq!(parts.len(), 4, "traceparent should have 4 parts");
    assert_eq!(parts[0], "00", "version should be 00");
    assert_eq!(
        parts[1], upstream_trace_id,
        "trace_id in outgoing request should match the original upstream trace_id"
    );
    assert_ne!(
        parts[2], upstream_span_id,
        "outgoing span_id should be the router's own span, not the upstream's"
    );
    assert_eq!(parts[3], "01", "trace flags should indicate sampled");

    assert!(otel_trace::shutdown_otel(&mut state).is_none());
}

/// Regression test: inbound `baggage` header survives the enabled path.
#[test]
fn test_baggage_survives_enabled_path() {
    let (_exporter, _provider, mut state, _guard) = setup_test_otel();

    let mut incoming_headers = HeaderMap::new();
    incoming_headers.insert(
        "traceparent",
        HeaderValue::from_static("00-0af7651916cd43dd8448eb211c80319c-b7ad6b7169203331-01"),
    );
    incoming_headers.insert(
        "baggage",
        HeaderValue::from_static("userId=alice,serverNode=DF%2028"),
    );

    // Extract context (includes baggage via composite propagator)
    let parent_cx = global::get_text_map_propagator(|propagator| {
        propagator.extract(&opentelemetry_http::HeaderExtractor(&incoming_headers))
    });

    let span = router_span("POST", "/v1/chat/completions");
    span.set_parent(parent_cx);

    // Inject outbound: should contain baggage
    let outgoing_headers = {
        let _enter = span.enter();
        let mut headers = HeaderMap::new();
        assert!(otel_trace::inject_trace_context_http(&state, &mut headers).is_ok());
        headers
    };

    let baggage = outgoing_headers
        .get("baggage")
        .expect("baggage header should be propagated when tracing is enabled")
        .to_str()
        .unwrap();

    assert!(
        baggage.contains("userId=alice"),
        "baggage should contain userId=alice, got: {baggage}"
    );

    assert!(otel_trace::shutdown_otel(&mut state).is_none());
}

/// Activation installs both propagators, and an inbound traceparent is overwritten by
/// the router's own until tracing ends.
#[test]
fn activation_propagates_trace_context_and_baggage() {
    let provider = TracerProvider::builder()
        .with_simple_exporter(InMemorySpanExporter::default())
        .build();
    let tracer = provider.tracer("test-tracer");
    let prepared = PreparedOtel::from_parts(provider, tracer);
    let layer = tracing_opentelemetry::layer().with_tracer(prepared.tracer().clone());
    let _guard = tracing::subscriber::set_default(tracing_subscriber::registry().with(layer));
    let mut state = OtelState::new();
    let activation = otel_trace::activate_otel(&mut state, prepared);
    assert_eq!(
        activation.propagators.kinds(),
        &vec![PropagatorKind::TraceContext, PropagatorKind::Baggage]
    );
    let mut fields: Vec<String> = global::get_text_map_propagator(|propagator| {
        propagator.fields().map(|field| field.to_string()).collect()
    });
    fields.sort();
    assert_eq!(fields, vec!["baggage", "traceparent", "tracestate"]);

    let inbound = "00-0af7651916cd43dd8448eb211c80319c-b7ad6b7169203331-01";
    let mut headers = HeaderMap::new();
    headers.insert("traceparent", HeaderValue::from_static(inbound));
    headers.insert("baggage", HeaderValue::from_static("userId=alice"));
    headers.insert("accept", HeaderValue::from_static("text/plain"));
    let parent_cx = global::get_text_map_propagator(|propagator| {
        propagator.extract(&opentelemetry_http::HeaderExtractor(&headers))
    });

    let span = router_span("GET", "/health");
    span.set_parent(parent_cx);
    let _enter = span.enter();
    let set = match otel_trace::inject_trace_context_http(&state, &mut headers) {
        Ok(Some(set)) => set,
        _ => panic!("expected the propagated fields"),
    };
    for (key, value) in set.fields() {
        assert_eq!(headers.get(key.as_str()).unwrap().as_bytes(), value.as_bytes());
    }
    assert!(set.fields().iter().any(|(key, _)| key == "traceparent"));
    let outbound = headers.get("traceparent").unwrap().to_str().unwrap().to_string();
    assert_ne!(outbound, inbound);
    assert!(outbound.starts_with("00-0af7651916cd43dd8448eb211c80319c-"));
    assert_eq!(headers.get_all("traceparent").iter().count(), 1);
    assert_eq!(headers.get("baggage").unwrap().as_bytes(), b"userId=alice");
    assert_eq!(headers.get("accept").unwrap().as_bytes(), b"text/plain");

    assert!(otel_trace::shutdown_otel(&mut state).unwrap().shutdown().is_ok());
    let before = headers.clone();
    assert!(matches!(otel_trace::inject_trace_context_http(&state, &mut headers), Ok(None)));
    assert_eq!(headers, before);
}

/// A full map is reported with the fields that were to be written.
#[test]
fn injection_into_a_full_map_is_reported() {
    let (_exporter, _provider, state, _guard) = setup_test_otel();
    let mut headers: HeaderMap = HeaderMap::new();
    let mut count = 0usize;
    loop {
        let name = HeaderName::from_bytes(format!("x-{count}").as_bytes()).unwrap();
        if headers.try_insert(name, HeaderValue::from_static("v")).is_err() {
            break;
        }
        count += 1;
    }
    let before = headers.clone();
    let span = router_span("GET", "/health");
    let _enter = span.enter();
    match otel_trace::inject_trace_context_http(&state, &mut headers) {
        Err(cut) => assert!(!cut.set.fields().is_empty()),
        Ok(_) => panic!("expected the map to be full"),
    }
    assert_eq!(headers, before);
}

#[test]
fn recorder_keeps_fields_in_order() {
    let mut recorder = FieldRecorder::new();
    recorder.set("B", "1".to_string());
    recorder.set("a", "2".to_string());
    recorder.set("B", "3".to_string());
    let fields = recorder.fields();
    let texts: Vec<(&str, &str)> =
        fields.iter().map(|field| (field.0.as_str(), field.1.as_str())).collect();
    assert_eq!(texts, vec![("B", "1"), ("a", "2"), ("B", "3")]);
}
