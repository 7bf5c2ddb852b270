use std::time::Duration;

use opentelemetry::trace::{Span, TraceError, Tracer, TracerProvider as _};
use opentelemetry_otlp::SpanExporter;
use opentelemetry_sdk::testing::trace::InMemorySpanExporter;
use opentelemetry_sdk::trace::TracerProvider;
use otel_trace::prepare::{exporter_failure, prepare_from, prepare_in};
use otel_trace::{activate_otel, is_otel_enabled, prepare_otel, shutdown_otel};
use otel_trace::{OtelError, OtelState, PreparedOtel};

fn runtime() -> tokio::runtime::Runtime {
    tokio::runtime::Builder::new_multi_thread()
        .worker_threads(2)
        .enable_all()
        .build()
        .unwrap()
}

#[test]
fn parts_are_kept() {
    let provider = TracerProvider::builder().build();
    let tracer = provider.tracer("test-tracer");
    let prepared = PreparedOtel::from_parts(provider.clone(), tracer);
    assert!(format!("{:?}", prepared.tracer()).contains("test-tracer"));
    assert!(provider.shutdown().is_ok());
    assert!(prepared.into_provider().shutdown().is_err());
}

#[test]
fn preparing_outside_a_runtime_fails() {
    assert!(matches!(
        prepare_otel(Some("localhost:4317"), "1.2.3", "host-9", None).result,
        Err(OtelError::NoRuntime)
    ));
    assert!(matches!(
        prepare_in(None, None, "1.2.3", "host-9", Some(0)),
        Err(OtelError::NoRuntime)
    ));
}

#[test]
fn malformed_endpoint_is_reported_outside_a_runtime_too() {
    assert!(matches!(
        prepare_otel(Some("not an endpoint"), "1.2.3", "host-9", None).result,
        Err(OtelError::Exporter(_))
    ));
}

#[test]
fn queue_has_to_fit_a_channel() {
    let runtime = runtime();
    let _guard = runtime.enter();
    let prepare =
        |size: usize| prepare_otel(Some("localhost:4317"), "1.2.3", "host-9", Some(size)).result;
    assert!(matches!(prepare(0), Err(OtelError::QueueSize)));
    assert!(matches!(prepare(usize::MAX / 8 + 1), Err(OtelError::QueueSize)));
    assert!(matches!(prepare(usize::MAX), Err(OtelError::QueueSize)));
    assert!(prepare(usize::MAX / 8).is_ok());
    assert!(prepare(1).is_ok());
    assert!(matches!(
        prepare_otel(Some("not an endpoint"), "1.2.3", "host-9", Some(0)).result,
        Err(OtelError::Exporter(_))
    ));
}

#[test]
fn prepared_state_is_that_of_the_service() {
    let runtime = runtime();
    let _guard = runtime.enter();
    let preparation = prepare_otel(Some("localhost:4317"), "1.2.3", "host-9", None);
    let prepared = preparation.result.ok().unwrap();
    assert!(format!("{:?}", prepared.tracer()).contains("\"vllm-router\""));
    let provider = format!("{:?}", prepared.into_provider());
    assert!(provider.contains("service.instance.id"));
    assert!(provider.contains("telemetry.sdk.name"));
    assert!(provider.contains("host-9"));
    assert!(provider.contains("1.2.3"));
    assert!(provider.contains("vllm-router"));
}

#[test]
fn endpoint_may_be_left_to_the_environment() {
    let runtime = runtime();
    let _guard = runtime.enter();
    assert!(prepare_otel(None, "1.2.3", "host-9", None).result.is_ok());
}

#[test]
fn malformed_endpoint_is_reported() {
    let runtime = runtime();
    let _guard = runtime.enter();
    match prepare_otel(Some("not an endpoint"), "1.2.3", "host-9", None).result {
        Err(OtelError::Exporter(text)) => {
            assert!(text.starts_with("Failed to create OTLP exporter: "));
            assert!(text.len() > "Failed to create OTLP exporter: ".len());
        }
        _ => panic!("expected an exporter error"),
    }
}

#[test]
fn cause_of_a_failed_exporter_is_given() {
    match exporter_failure("invalid URI") {
        OtelError::Exporter(text) => {
            assert_eq!(text, "Failed to create OTLP exporter: invalid URI")
        }
        _ => panic!("expected an exporter error"),
    }
    let error = TraceError::from("refused".to_string());
    match prepare_from(Err(error), None, "1.2.3", "host-9", 0) {
        Err(OtelError::Exporter(text)) => {
            assert_eq!(text, "Failed to create OTLP exporter: refused")
        }
        _ => panic!("expected an exporter error"),
    }
}

#[test]
fn tracer_goes_through_the_provider() {
    let runtime = runtime();
    let _guard = runtime.enter();
    let exported = InMemorySpanExporter::default();
    let exporter = SpanExporter::new(exported.clone());
    let prepared = prepare_from(Ok(exporter), Some(runtime.handle()), "1.2.3", "host-9", 16);
    let prepared = prepared.ok().unwrap();
    prepared.tracer().start("through the batch").end();
    let provider = prepared.into_provider();
    for result in provider.force_flush() {
        assert!(result.is_ok());
    }
    let spans = exported.get_finished_spans().unwrap();
    assert_eq!(spans.len(), 1);
    assert_eq!(spans[0].name, "through the batch");
    assert_eq!(spans[0].instrumentation_scope.name(), "vllm-router");
    assert!(provider.shutdown().is_ok());
}

#[test]
fn runtime_of_the_caller_is_handed_back() {
    let preparation = prepare_otel(Some("localhost:4317"), "1.2.3", "host-9", None);
    assert!(preparation.runtime.handle().is_none());
    let runtime = runtime();
    let _guard = runtime.enter();
    let preparation = prepare_otel(Some("localhost:4317"), "1.2.3", "host-9", Some(0));
    assert_eq!(preparation.runtime.handle().unwrap().id(), runtime.handle().id());
    assert!(matches!(preparation.result, Err(OtelError::QueueSize)));
}

#[test]
fn processor_runs_in_the_given_runtime() {
    let given = runtime();
    let other = runtime();
    let _guard = other.enter();
    let exported = InMemorySpanExporter::default();
    let exporter = SpanExporter::new(exported.clone());
    let prepared = prepare_from(Ok(exporter), Some(given.handle()), "1.2.3", "host-9", 16);
    let provider = prepared.ok().unwrap().into_provider();
    assert!(provider.force_flush().iter().all(|result| result.is_ok()));
    given.shutdown_timeout(Duration::from_secs(10));
    assert!(provider.force_flush().iter().all(|result| result.is_err()));
}

#[test]
fn given_runtime_serves_a_thread_in_none() {
    let runtime = runtime();
    let endpoint = Some("localhost:4317");
    let prepared = prepare_in(Some(runtime.handle()), endpoint, "1.2.3", "host-9", None);
    assert!(prepared.ok().unwrap().into_provider().shutdown().is_ok());
}

#[test]
fn prepared_state_can_be_activated_and_shut_down() {
    let runtime = runtime();
    let _guard = runtime.enter();
    let preparation = prepare_otel(Some("http://127.0.0.1:4317"), "1.2.3", "host-9", None);
    let prepared = preparation.result.ok().unwrap();
    let mut state = OtelState::new();
    activate_otel(&mut state, prepared);
    assert!(is_otel_enabled(&state));
    assert!(shutdown_otel(&mut state).unwrap().shutdown().is_ok());
    assert!(!is_otel_enabled(&state));
}
