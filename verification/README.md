# otel_trace

OpenTelemetry tracing for the vLLM router: which spans are exported, how the service
names itself, where spans go, and how the trace context travels in HTTP headers. The
library in `src/` is verified with Verus; `app/` holds the process-wide statics, the
environment and the tracing layer around it.

| module | what it holds |
| --- | --- |
| `filter` | which span targets are exported |
| `service` | the instance id, from the host's name and the process id |
| `endpoint` | the OTLP endpoint, completed with a scheme |
| `resource` | the attributes that the service reports |
| `process` | asking for the current runtime and the default resource |
| `prepare` | building the provider and the tracer |
| `state` | activating, marking and shutting down tracing |
| `installed` | installing the propagators and the provider process-wide |
| `headers` | writing propagation fields into a header map |
| `propagated` | asking the installed propagator about the current span |
| `propagation` | injecting the current trace context into requests |
| `text` | prefix tests and decimal numerals |

What the `opentelemetry`, `tracing`, `http` and `tokio` crates do is stated at the
functions marked `external_body`, one doc comment each. What they found in
the process, installed or propagated is recorded in values that only those functions make.
