//! OpenTelemetry tracing integration of the vLLM router.
//!
//! Tracing is set up in three steps. [`prepare_otel`] builds the provider and the tracer
//! without touching process-wide state. The program then installs a subscriber with a
//! layer made of that tracer and filtered by [`CustomOtelFilter`]. At last
//! [`activate_otel`] installs the propagators and the provider and enables tracing in an
//! [`OtelState`]. While it is enabled, [`inject_trace_context_http`] writes the current
//! span's context into outgoing requests, until [`shutdown_otel`] ends tracing.

pub mod endpoint;
pub mod filter;
pub mod headers;
pub mod installed;
pub mod prepare;
pub mod process;
pub mod propagated;
pub mod propagation;
pub mod resource;
pub mod service;
pub mod state;
pub mod text;

pub use endpoint::exporter_endpoint;
pub use filter::{CallsiteInterest, CustomOtelFilter, OTEL_SPAN_TARGET};
pub use headers::{inject_fields, set_header, HeadersFull};
pub use installed::{propagator_kinds, PropagatorKind};
pub use prepare::{prepare_otel, OtelError, Preparation, PreparedOtel};
pub use process::{CurrentRuntime, DefaultResource};
pub use propagated::Propagated;
pub use propagation::{inject_trace_context_http, InjectionCut};
pub use resource::service_resource;
pub use service::{hostname_keys, service_instance_id};
pub use state::{activate_otel, is_otel_enabled, mark_otel_enabled, shutdown_otel};
pub use state::{Activation, OtelState};
