use opentelemetry::trace::{Span, Tracer, TracerProvider as _};
use opentelemetry::global;
use opentelemetry_sdk::testing::trace::InMemorySpanExporter;
use opentelemetry_sdk::trace::TracerProvider;
use otel_trace::{activate_otel, is_otel_enabled, mark_otel_enabled, shutdown_otel};
use otel_trace::{propagator_kinds, OtelState, PreparedOtel, PropagatorKind};

fn in_memory() -> (InMemorySpanExporter, TracerProvider) {
    let exporter = InMemorySpanExporter::default();
    let provider = TracerProvider::builder()
        .with_simple_exporter(exporter.clone())
        .build();
    (exporter, provider)
}

#[test]
fn tracing_starts_disabled() {
    assert!(!is_otel_enabled(&OtelState::new()));
}

#[test]
fn marking_enables_and_shutdown_disables() {
    let mut state = OtelState::new();
    mark_otel_enabled(&mut state);
    assert!(is_otel_enabled(&state));
    assert!(shutdown_otel(&mut state).is_none());
    assert!(!is_otel_enabled(&state));
}

#[test]
fn shutdown_while_disabled_does_nothing() {
    let mut state = OtelState::new();
    assert!(shutdown_otel(&mut state).is_none());
    assert!(shutdown_otel(&mut state).is_none());
    assert!(!is_otel_enabled(&state));
}

#[test]
fn activation_installs_the_provider() {
    let (exporter, provider) = in_memory();
    let tracer = provider.tracer("test-tracer");
    let mut state = OtelState::new();
    let activation = activate_otel(&mut state, PreparedOtel::from_parts(provider, tracer));
    assert!(activation.replaced.is_none());
    assert!(is_otel_enabled(&state));
    global::tracer("anyone").start("through the global provider").end();
    let spans = exporter.get_finished_spans().unwrap();
    assert_eq!(spans.len(), 1);
    assert_eq!(spans[0].name, "through the global provider");
}

#[test]
fn shutdown_hands_out_the_activated_provider_once() {
    let (_exporter, provider) = in_memory();
    let kept = provider.clone();
    let tracer = provider.tracer("test-tracer");
    let mut state = OtelState::new();
    activate_otel(&mut state, PreparedOtel::from_parts(provider, tracer));
    mark_otel_enabled(&mut state);
    let ended = shutdown_otel(&mut state).unwrap();
    assert!(!is_otel_enabled(&state));
    assert!(ended.shutdown().is_ok());
    assert!(kept.shutdown().is_err());
    mark_otel_enabled(&mut state);
    assert!(shutdown_otel(&mut state).is_none());
}

#[test]
fn last_of_two_activations_is_shut_down() {
    let (_exporter1, first) = in_memory();
    let (_exporter2, second) = in_memory();
    let mut state = OtelState::new();
    let tracer = first.tracer("first");
    activate_otel(&mut state, PreparedOtel::from_parts(first.clone(), tracer));
    let tracer = second.tracer("second");
    let activation =
        activate_otel(&mut state, PreparedOtel::from_parts(second.clone(), tracer));
    let _before = activation.provider.into_before();
    let ended = shutdown_otel(&mut state).unwrap();
    assert!(!is_otel_enabled(&state));
    assert!(ended.shutdown().is_ok());
    assert!(second.shutdown().is_err());
    assert!(activation.replaced.unwrap().shutdown().is_ok());
    assert!(first.shutdown().is_err());
}

#[test]
fn propagators_are_trace_context_and_baggage() {
    assert_eq!(
        propagator_kinds(),
        vec![PropagatorKind::TraceContext, PropagatorKind::Baggage]
    );
}

#[test]
fn status_follows_the_history_of_calls() {
    let (_exporter, provider) = in_memory();
    let tracer = provider.tracer("test-tracer");
    let mut state = OtelState::new();
    mark_otel_enabled(&mut state);
    activate_otel(&mut state, PreparedOtel::from_parts(provider.clone(), tracer));
    mark_otel_enabled(&mut state);
    assert!(is_otel_enabled(&state));
    assert!(shutdown_otel(&mut state).is_some());
    assert!(!is_otel_enabled(&state));
    mark_otel_enabled(&mut state);
    assert!(is_otel_enabled(&state));
    assert!(shutdown_otel(&mut state).is_none());
    assert!(!is_otel_enabled(&state));
}
