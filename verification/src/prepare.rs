//! Building the OTel provider and tracer, without touching process-wide state.

use crate::endpoint::{endpoint_to_set, exporter_endpoint, has_scheme, law_endpoint_has_scheme};
use crate::endpoint::law_endpoint_to_set;
use crate::process::{current_runtime, CurrentRuntime, DefaultResource};
use crate::resource::{describes_process, is_service_resource, law_service_attributes_override};
use crate::resource::law_service_resource_extends_the_default_one;
use crate::resource::{resource_entries, service_entries, service_resource, SERVICE_NAME};
use opentelemetry::trace::{TraceError, TracerProvider as _};
use opentelemetry_otlp::{Protocol, SpanExporter, WithExportConfig};
use opentelemetry_sdk::runtime::Tokio;
use opentelemetry_sdk::trace::{BatchConfig, BatchConfigBuilder, BatchSpanProcessor};
use opentelemetry_sdk::trace::{Builder as ProviderBuilder, Tracer, TracerProvider};
use opentelemetry_sdk::Resource;
use std::time::Duration;
use tokio::runtime::{Builder, Handle};
use vstd::prelude::*;
use vstd::string::*;

verus! {

/// A tracer provider, as the `opentelemetry_sdk` crate has it.
#[verifier::external_type_specification]
#[verifier::external_body]
pub struct ExTracerProvider(opentelemetry_sdk::trace::TracerProvider);

/// A tracer, as the `opentelemetry_sdk` crate has it.
#[verifier::external_type_specification]
#[verifier::external_body]
pub struct ExTracer(opentelemetry_sdk::trace::Tracer);

/// The exporter of spans over OTLP, as the `opentelemetry-otlp` crate has it.
#[verifier::external_type_specification]
#[verifier::external_body]
pub struct ExSpanExporter(opentelemetry_otlp::SpanExporter);

/// An error of the trace API, as the `opentelemetry` crate has it.
#[verifier::external_type_specification]
#[verifier::external_body]
pub struct ExTraceError(opentelemetry::trace::TraceError);

/// The settings of a batch span processor, as the `opentelemetry_sdk` crate has them.
#[verifier::external_type_specification]
#[verifier::external_body]
pub struct ExBatchConfig(opentelemetry_sdk::trace::BatchConfig);

/// A provider in the making, as the `opentelemetry_sdk` crate has it.
#[verifier::external_type_specification]
#[verifier::external_body]
pub struct ExProviderBuilder(opentelemetry_sdk::trace::Builder);

/// What batch settings hold: the delay between two batches in milliseconds, then the
/// number of spans that a batch holds at most, then the number that may wait for one.
pub uninterp spec fn batch_settings(config: BatchConfig) -> Seq<nat>;

/// Whether nothing but the three of [`batch_settings`] was set on the builder of batch
/// settings, so that the others are left at its defaults.
pub uninterp spec fn rest_unset(config: BatchConfig) -> bool;

/// What a provider in the making holds as its span processors: of each batch span
/// processor the exporter and the settings.
pub uninterp spec fn builder_processors(builder: ProviderBuilder) -> Seq<
    (SpanExporter, BatchConfig),
>;

/// What a provider holds as its span processors: of each batch span processor the
/// exporter and the settings.
pub uninterp spec fn provider_processors(provider: TracerProvider) -> Seq<
    (SpanExporter, BatchConfig),
>;

/// The Tokio runtime in whose tasks the processor of a provider in the making runs.
pub uninterp spec fn builder_runtime(builder: ProviderBuilder) -> Handle;

/// The Tokio runtime in whose tasks the processor of a provider runs.
pub uninterp spec fn provider_runtime(provider: TracerProvider) -> Handle;

/// The Tokio runtime in whose tasks the connection of an exporter lives.
pub uninterp spec fn exporter_runtime(exporter: SpanExporter) -> Handle;

/// What a provider holds as the attributes of its resource: the text of each value
/// under its key.
pub uninterp spec fn provider_attributes(provider: TracerProvider) -> Map<Seq<char>, Seq<char>>;

/// The name that a tracer holds.
pub uninterp spec fn tracer_name(tracer: Tracer) -> Seq<char>;

/// The provider that a tracer holds, through which its spans are processed.
pub uninterp spec fn tracer_provider(tracer: Tracer) -> TracerProvider;

/// The endpoint that was set on the builder of an exporter; none where it was left to
/// the environment and the default of OTLP.
pub uninterp spec fn set_endpoint(exporter: SpanExporter) -> Option<Seq<char>>;

/// Whether `built` is what building an exporter that speaks gRPC, with this endpoint set on
/// its builder, can come to: such an exporter, or an error that kept it from being built.
pub uninterp spec fn over_grpc(
    endpoint: Option<Seq<char>>,
    built: Result<SpanExporter, TraceError>,
) -> bool;

/// The text that an error shows.
pub uninterp spec fn trace_error_text(error: TraceError) -> Seq<char>;

/// How long spans wait for a batch, in milliseconds.
pub const SCHEDULED_DELAY_MS: u64 = 500;

/// How many spans a batch holds at most.
pub const MAX_EXPORT_BATCH_SIZE: usize = 64;

/// The environment variable that says how many spans may wait for a batch.
pub const QUEUE_SIZE_KEY: &'static str = "OTEL_BSP_MAX_QUEUE_SIZE";

/// How many spans may wait for a batch where the environment says nothing.
pub const DEFAULT_QUEUE_SIZE: usize = 2048;

/// Why no OTel state could be prepared.
#[derive(Debug)]
pub enum OtelError {
    /// The exporter could not be built; the text says so and gives the cause.
    Exporter(String),
    /// The calling thread is in no Tokio runtime, so nothing could export spans.
    NoRuntime,
    /// The queue asked for holds no span, or more than a channel can.
    QueueSize,
}

/// The text of [`OtelError::Exporter`] for a cause.
pub open spec fn exporter_failure_text(cause: Seq<char>) -> Seq<char> {
    "Failed to create OTLP exporter: "@ + cause
}

/// How many spans may wait for a batch: what is asked for, or the default.
pub open spec fn queue_size_of(asked: Option<usize>) -> usize {
    match asked {
        Some(size) => size,
        None => DEFAULT_QUEUE_SIZE,
    }
}

/// Whether a channel can be a queue of this size.
pub open spec fn is_queue_size(size: nat) -> bool {
    0 < size <= usize::MAX / 8
}

/// The settings of this service's batches, in the form of [`batch_settings`]: a batch is
/// never larger than the queue.
pub open spec fn service_batching(queue_size: nat) -> Seq<nat> {
    seq![
        SCHEDULED_DELAY_MS as nat,
        if MAX_EXPORT_BATCH_SIZE <= queue_size {
            MAX_EXPORT_BATCH_SIZE as nat
        } else {
            queue_size
        },
        queue_size,
    ]
}

/// The parts of a prepared state.
pub struct OtelParts {
    /// The provider.
    pub provider: TracerProvider,
    /// The tracer that spans are created with.
    pub tracer: Tracer,
}

impl OtelParts {
    /// Whether the parts are those of this service around `exporter`: spans carry its
    /// attributes on top of what the SDK and the environment say, and go through one
    /// batch processor of its settings, the others left at their defaults, to that
    /// exporter; the tracer has its name and
    /// creates spans through this very provider.
    pub open spec fn of_service(
        self,
        exporter: SpanExporter,
        version: Seq<char>,
        instance_id: Seq<char>,
        queue_size: nat,
    ) -> bool {
        &&& is_service_resource(provider_attributes(self.provider), version, instance_id)
        &&& provider_processors(self.provider).len() == 1
        &&& provider_processors(self.provider)[0].0 == exporter
        &&& batch_settings(provider_processors(self.provider)[0].1) == service_batching(queue_size)
        &&& rest_unset(provider_processors(self.provider)[0].1)
        &&& tracer_name(self.tracer) == SERVICE_NAME@
        &&& tracer_provider(self.tracer) == self.provider
    }

    /// Whether both the processor and the connection of its exporter run in tasks of
    /// `runtime`.
    pub open spec fn runs_in(self, runtime: Handle) -> bool {
        &&& provider_runtime(self.provider) == runtime
        &&& exporter_runtime(provider_processors(self.provider)[0].0) == runtime
    }

    /// Whether the parts are those of this service around an exporter over gRPC, on
    /// whose builder this endpoint was set.
    pub open spec fn of_service_at(
        self,
        endpoint: Option<Seq<char>>,
        version: Seq<char>,
        instance_id: Seq<char>,
        queue_size: nat,
    ) -> bool {
        let exporter = provider_processors(self.provider)[0].0;
        &&& self.of_service(exporter, version, instance_id, queue_size)
        &&& set_endpoint(exporter) == endpoint
        &&& over_grpc(endpoint, Ok(exporter))
    }
}

/// Prepared OTel state ready to be activated.
///
/// Built by [`prepare_otel`], this holds the provider and tracer without mutating any
/// global state. Make a tracing layer of [`tracer`](PreparedOtel::tracer), then call
/// [`activate_otel`](crate::state::activate_otel) after the subscriber is installed.
pub struct PreparedOtel {
    provider: TracerProvider,
    tracer: Tracer,
}

impl View for PreparedOtel {
    type V = OtelParts;

    closed spec fn view(&self) -> OtelParts {
        OtelParts { provider: self.provider, tracer: self.tracer }
    }
}

impl PreparedOtel {
    /// Build from pre-existing parts (useful for tests with in-memory exporters).
    pub fn from_parts(provider: TracerProvider, tracer: Tracer) -> (prepared: Self)
        ensures
            prepared@ == (OtelParts { provider, tracer }),
    {
        PreparedOtel { provider, tracer }
    }

    /// The tracer, of which a tracing layer is made.
    pub fn tracer(&self) -> (tracer: &Tracer)
        ensures
            *tracer == self@.tracer,
    {
        &self.tracer
    }

    /// The provider.
    pub fn into_provider(self) -> (provider: TracerProvider)
        ensures
            provider == self@.provider,
    {
        self.provider
    }
}

/// `Builder::new_current_thread` and `Runtime::shutdown_background`: a handle to a
/// runtime that has ended. Tasks may be spawned on it and never run, so it serves to
/// find out whether an exporter can be built at all. A runtime of the current thread that
/// drives neither I/O nor timers asks nothing of the operating system, so there always is
/// one.
#[verifier::external_body]
fn ended_runtime() -> (handle: Option<Handle>)
    ensures
        handle is Some,
{
    let runtime = Builder::new_current_thread().build().ok()?;
    let handle = runtime.handle().clone();
    runtime.shutdown_background();
    Some(handle)
}

/// `SpanExporter::builder` with `with_tonic`, `with_protocol` and `build`: an exporter
/// over gRPC with no endpoint set, so that it comes from the environment variables or
/// the default of OTLP, and with its connection in a task of `runtime`. Nothing is said
/// of when it can be built, which depends on the environment; where it cannot, the error
/// is the one of this build.
#[verifier::external_body]
fn build_default_exporter(runtime: &Handle) -> (r: Result<SpanExporter, TraceError>)
    ensures
        over_grpc(None, r),
        r matches Ok(exporter) ==> set_endpoint(exporter) is None && exporter_runtime(exporter)
            == *runtime,
{
    let _guard = runtime.enter();
    SpanExporter::builder().with_tonic().with_protocol(Protocol::Grpc).build()
}

/// `SpanExporter::builder` as in [`build_default_exporter`], with `with_endpoint`: an
/// exporter over gRPC with this endpoint set, and with its connection in a task of
/// `runtime`. Nothing is said of when it can be built, nor of where it sends to in the
/// end, since environment variables come before an endpoint that was set. Where it cannot
/// be built, the error is the one of this build.
#[verifier::external_body]
fn build_exporter_at(endpoint: &str, runtime: &Handle) -> (r: Result<SpanExporter, TraceError>)
    requires
        has_scheme(endpoint@),
    ensures
        over_grpc(Some(endpoint@), r),
        r matches Ok(exporter) ==> set_endpoint(exporter) == Some(endpoint@) && exporter_runtime(
            exporter,
        ) == *runtime,
{
    let _guard = runtime.enter();
    let builder = SpanExporter::builder().with_tonic().with_protocol(Protocol::Grpc);
    builder.with_endpoint(endpoint).build()
}

/// The `Display` of a `TraceError`: the text that the error shows.
#[verifier::external_body]
fn error_text(error: &TraceError) -> (text: String)
    ensures
        text@ == trace_error_text(*error),
{
    format!("{error}")
}

/// `BatchConfigBuilder::build` after `with_scheduled_delay`, `with_max_export_batch_size`
/// and `with_max_queue_size`: the settings hold this delay and this queue size, and the
/// batch size or the queue size, whichever is smaller. Nothing else is set on the builder.
/// It starts from `BatchConfigBuilder::default`, which reads the environment, so no value
/// is given for what is left at its default.
#[verifier::external_body]
fn batch_config(
    scheduled_delay_ms: u64,
    max_export_batch_size: usize,
    max_queue_size: usize,
) -> (config: BatchConfig)
    ensures
        batch_settings(config).len() == 3,
        batch_settings(config)[0] == scheduled_delay_ms,
        batch_settings(config)[1] == if max_export_batch_size <= max_queue_size {
            max_export_batch_size
        } else {
            max_queue_size
        },
        batch_settings(config)[2] == max_queue_size,
        rest_unset(config),
{
    let builder = BatchConfigBuilder::default();
    let builder = builder.with_scheduled_delay(Duration::from_millis(scheduled_delay_ms));
    let builder = builder.with_max_export_batch_size(max_export_batch_size);
    builder.with_max_queue_size(max_queue_size).build()
}

/// `BatchSpanProcessor::builder` on the exporter and the settings, and
/// `TracerProvider::builder` with `with_span_processor`: a provider in the making that
/// holds that one processor, which runs in a task of `runtime`. A channel is its queue,
/// which has to hold at least one span and at most an eighth of what a `usize` counts.
#[verifier::external_body]
fn batching_builder(exporter: SpanExporter, config: BatchConfig, runtime: &Handle) -> (builder:
    ProviderBuilder)
    requires
        is_queue_size(batch_settings(config)[2]),
    ensures
        builder_processors(builder) == seq![(exporter, config)],
        builder_runtime(builder) == *runtime,
{
    let _guard = runtime.enter();
    let processor = BatchSpanProcessor::builder(exporter, Tokio).with_batch_config(config).build();
    TracerProvider::builder().with_span_processor(processor)
}

/// `Builder::build` after `with_resource`, and `TracerProvider::tracer` on the provider
/// that comes of it: the provider holds the processors, which go on running where they
/// ran, and the resource's attributes; the tracer holds the name and, since the provider
/// was not shut down, the provider.
#[verifier::external_body]
fn build_parts(builder: ProviderBuilder, resource: Resource, name: &'static str) -> (parts: (
    TracerProvider,
    Tracer,
))
    requires
        name@.len() > 0,
    ensures
        provider_processors(parts.0) == builder_processors(builder),
        provider_runtime(parts.0) == builder_runtime(builder),
        provider_attributes(parts.0) == resource_entries(resource),
        tracer_name(parts.1) == name@,
        tracer_provider(parts.1) == parts.0,
{
    let provider = builder.with_resource(resource).build();
    let tracer = provider.tracer(name);
    (provider, tracer)
}

/// The error for an exporter that could not be built.
pub fn exporter_failure(cause: &str) -> (error: OtelError)
    ensures
        error matches OtelError::Exporter(text) && text@ == exporter_failure_text(cause@),
{
    OtelError::Exporter("Failed to create OTLP exporter: ".to_owned().concat(cause))
}

/// Builds the provider and tracer of this service around an exporter, with a queue of
/// `queue_size` spans and the processor in a task of `runtime`.
pub fn prepare_with_exporter(
    exporter: SpanExporter,
    runtime: &Handle,
    service_version: &str,
    instance_id: &str,
    queue_size: usize,
) -> (r: Result<PreparedOtel, OtelError>)
    ensures
        r is Ok <==> is_queue_size(queue_size as nat),
        r matches Ok(prepared) ==> prepared@.of_service(
            exporter,
            service_version@,
            instance_id@,
            queue_size as nat,
        ),
        r matches Ok(prepared) ==> provider_runtime(prepared@.provider) == *runtime,
        r matches Err(error) ==> error is QueueSize,
{
    if queue_size == 0 || queue_size > usize::MAX / 8 {
        return Err(OtelError::QueueSize);
    }
    proof {
        reveal_strlit("vllm-router");
    }
    let config = batch_config(SCHEDULED_DELAY_MS, MAX_EXPORT_BATCH_SIZE, queue_size);
    assert(batch_settings(config) =~= service_batching(queue_size as nat));
    let (resource, _) = service_resource(service_version, instance_id);
    let builder = batching_builder(exporter, config, runtime);
    let (provider, tracer) = build_parts(builder, resource, SERVICE_NAME);
    Ok(PreparedOtel::from_parts(provider, tracer))
}

/// Builds the provider and tracer of this service from what building an exporter gave,
/// with the processor in a task of `runtime`. A failed exporter is reported before a
/// missing runtime, and that before a queue size that no channel can have.
pub fn prepare_from(
    built: Result<SpanExporter, TraceError>,
    runtime: Option<&Handle>,
    service_version: &str,
    instance_id: &str,
    queue_size: usize,
) -> (r: Result<PreparedOtel, OtelError>)
    ensures
        built matches Err(error) ==> (r matches Err(OtelError::Exporter(text)) && text@
            == exporter_failure_text(trace_error_text(error))),
        built is Ok && runtime is None ==> r is Err && r->Err_0 is NoRuntime,
        built is Ok && runtime is Some && !is_queue_size(queue_size as nat) ==> r is Err
            && r->Err_0 is QueueSize,
        built is Ok && runtime is Some && is_queue_size(queue_size as nat) ==> (r matches Ok(
            prepared,
        ) && prepared@.of_service(built->Ok_0, service_version@, instance_id@, queue_size as nat)
            && provider_runtime(prepared@.provider) == *(runtime->0)),
{
    match built {
        Err(error) => Err(exporter_failure(error_text(&error).as_str())),
        Ok(exporter) => match runtime {
            None => Err(OtelError::NoRuntime),
            Some(runtime) => prepare_with_exporter(
                exporter,
                runtime,
                service_version,
                instance_id,
                queue_size,
            ),
        },
    }
}

/// Builds the exporter, with the endpoint set where one is configured.
fn build_exporter(otlp_endpoint: Option<&str>, runtime: &Handle) -> (r: Result<
    SpanExporter,
    TraceError,
>)
    ensures
        over_grpc(endpoint_to_set(otlp_endpoint), r),
        r matches Ok(exporter) ==> set_endpoint(exporter) == endpoint_to_set(otlp_endpoint)
            && exporter_runtime(exporter) == *runtime,
{
    // Only set the endpoint explicitly when configured; otherwise the SDK
    // respects OTEL_EXPORTER_OTLP_ENDPOINT (defaulting to localhost:4317).
    match exporter_endpoint(otlp_endpoint) {
        Some(endpoint) => {
            proof {
                law_endpoint_has_scheme(otlp_endpoint->0@);
            }
            build_exporter_at(endpoint.as_str(), runtime)
        },
        None => build_default_exporter(runtime),
    }
}

/// [`prepare_otel`] in a given Tokio runtime, or in none.
pub fn prepare_in(
    runtime: Option<&Handle>,
    otlp_endpoint: Option<&str>,
    service_version: &str,
    instance_id: &str,
    queue_size: Option<usize>,
) -> (r: Result<PreparedOtel, OtelError>)
    ensures
        r matches Ok(prepared) ==> prepared@.of_service_at(
            endpoint_to_set(otlp_endpoint),
            service_version@,
            instance_id@,
            queue_size_of(queue_size) as nat,
        ),
        r matches Ok(prepared) ==> runtime is Some && prepared@.runs_in(*(runtime->0)),
        r is Ok ==> is_queue_size(queue_size_of(queue_size) as nat),
        r matches Err(OtelError::Exporter(text)) ==> exists|cause: TraceError|
            over_grpc(endpoint_to_set(otlp_endpoint), Err(cause)) && text@
                == exporter_failure_text(#[trigger] trace_error_text(cause)),
        r is Err && !(r->Err_0 is Exporter) ==> exists|exporter: SpanExporter| #[trigger]
            over_grpc(endpoint_to_set(otlp_endpoint), Ok(exporter)),
        r is Err && r->Err_0 is NoRuntime ==> runtime is None,
        r is Err && r->Err_0 is QueueSize ==> runtime is Some && !is_queue_size(
            queue_size_of(queue_size) as nat,
        ),
{
    let size: usize = match queue_size {
        Some(size) => size,
        None => DEFAULT_QUEUE_SIZE,
    };
    match runtime {
        Some(handle) => {
            let built = build_exporter(otlp_endpoint, handle);
            assert(built matches Ok(exporter) ==> over_grpc(
                endpoint_to_set(otlp_endpoint),
                Ok(exporter),
            ));
            prepare_from(built, Some(handle), service_version, instance_id, size)
        },
        None => {
            let handle = ended_runtime().unwrap();
            let built = build_exporter(otlp_endpoint, &handle);
            assert(built matches Ok(exporter) ==> over_grpc(
                endpoint_to_set(otlp_endpoint),
                Ok(exporter),
            ));
            prepare_from(built, None, service_version, instance_id, size)
        },
    }
}

/// What preparing gave, and the Tokio runtime that the calling thread was in.
pub struct Preparation {
    /// The runtime of the calling thread.
    pub runtime: CurrentRuntime,
    /// The prepared state, or why there is none.
    pub result: Result<PreparedOtel, OtelError>,
}

/// Build OTel provider and tracer without mutating global state.
///
/// Spans go to where the exporter's environment variables say, or else to
/// `otlp_endpoint`, or else to the default of OTLP. The service reports `service_version`
/// and `instance_id`, for which
/// [`service_instance_id`](crate::service::service_instance_id) is meant. `queue_size` is
/// what the environment asks for under [`QUEUE_SIZE_KEY`], if it holds a number there.
/// The calling thread has to be in a Tokio runtime, in whose tasks spans are exported;
/// that runtime is handed back with the result.
pub fn prepare_otel(
    otlp_endpoint: Option<&str>,
    service_version: &str,
    instance_id: &str,
    queue_size: Option<usize>,
) -> (p: Preparation)
    ensures
        p.result matches Ok(prepared) ==> prepared@.of_service_at(
            endpoint_to_set(otlp_endpoint),
            service_version@,
            instance_id@,
            queue_size_of(queue_size) as nat,
        ),
        p.result matches Ok(prepared) ==> p.runtime@ is Some && prepared@.runs_in(p.runtime@->0),
        p.result is Ok ==> is_queue_size(queue_size_of(queue_size) as nat),
        p.result matches Err(OtelError::Exporter(text)) ==> exists|cause: TraceError|
            over_grpc(endpoint_to_set(otlp_endpoint), Err(cause)) && text@
                == exporter_failure_text(#[trigger] trace_error_text(cause)),
        p.result is Err && !(p.result->Err_0 is Exporter) ==> exists|exporter: SpanExporter| #[trigger]
            over_grpc(endpoint_to_set(otlp_endpoint), Ok(exporter)),
        p.result is Err && p.result->Err_0 is NoRuntime ==> p.runtime@ is None,
        p.result is Err && p.result->Err_0 is QueueSize ==> p.runtime@ is Some && !is_queue_size(
            queue_size_of(queue_size) as nat,
        ),
{
    let runtime = current_runtime();
    let result = prepare_in(
        runtime.handle(),
        otlp_endpoint,
        service_version,
        instance_id,
        queue_size,
    );
    Preparation { runtime, result }
}

/// A prepared service reports its own name, version and instance id, whatever the SDK
/// and the environment say of the process, and beside them what the SDK says of itself.
pub proof fn law_service_identity_reported(
    parts: OtelParts,
    exporter: SpanExporter,
    version: Seq<char>,
    instance_id: Seq<char>,
    queue_size: nat,
)
    requires
        parts.of_service(exporter, version, instance_id, queue_size),
    ensures
        provider_attributes(parts.provider).contains_pair("service.name"@, SERVICE_NAME@),
        provider_attributes(parts.provider).contains_pair("service.version"@, version),
        provider_attributes(parts.provider).contains_pair("service.instance.id"@, instance_id),
        describes_process(provider_attributes(parts.provider)),
{
    let base = choose|base: DefaultResource|
        describes_process(resource_entries(base@)) && provider_attributes(parts.provider)
            == #[trigger] service_entries(base@, version, instance_id);
    law_service_attributes_override(resource_entries(base@), version, instance_id, version);
}

/// How batches are sent: every 500 milliseconds, of 64 spans at most or of as many as the
/// queue holds, from a queue of the size asked for, or of 2048 spans where none is.
pub proof fn law_batching(asked: Option<usize>, queue_size: nat)
    ensures
        service_batching(queue_size).len() == 3,
        service_batching(queue_size)[0] == 500,
        service_batching(queue_size)[1] <= 64,
        service_batching(queue_size)[1] <= queue_size,
        service_batching(queue_size)[1] == 64 || service_batching(queue_size)[1] == queue_size,
        service_batching(queue_size)[2] == queue_size,
        is_queue_size(queue_size) <==> 1 <= queue_size && 8 * queue_size <= usize::MAX,
        asked is None ==> queue_size_of(asked) == 2048,
        asked matches Some(size) ==> queue_size_of(asked) == size,
{
    assert(queue_size <= usize::MAX / 8 <==> 8 * queue_size <= usize::MAX);
}

/// What preparing around an exporter comes to, for every queue size from one span on that
/// fits a channel: one processor, which hands the spans to this exporter in a task of
/// this runtime, sends at most 64 of them every 500 milliseconds and is otherwise left at
/// its defaults; and a tracer `vllm-router` of that provider.
pub proof fn law_prepared_around_the_exporter(
    exporter: SpanExporter,
    runtime: &Handle,
    service_version: &str,
    instance_id: &str,
    queue_size: usize,
    r: Result<PreparedOtel, OtelError>,
)
    requires
        call_ensures(
            prepare_with_exporter,
            (exporter, runtime, service_version, instance_id, queue_size),
            r,
        ),
    ensures
        r is Ok <==> 1 <= queue_size <= usize::MAX / 8,
        r is Err ==> r->Err_0 is QueueSize,
        r matches Ok(prepared) ==> {
            let processors = provider_processors(prepared@.provider);
            let attributes = provider_attributes(prepared@.provider);
            &&& processors.len() == 1
            &&& processors[0].0 == exporter
            &&& batch_settings(processors[0].1).len() == 3
            &&& batch_settings(processors[0].1)[0] == 500
            &&& batch_settings(processors[0].1)[1] == if queue_size < 64 {
                queue_size
            } else {
                64
            }
            &&& batch_settings(processors[0].1)[2] == queue_size
            &&& rest_unset(processors[0].1)
            &&& provider_runtime(prepared@.provider) == *runtime
            &&& attributes.contains_pair("service.name"@, "vllm-router"@)
            &&& attributes.contains_pair("service.version"@, service_version@)
            &&& attributes.contains_pair("service.instance.id"@, instance_id@)
            &&& attributes.contains_key("telemetry.sdk.name"@)
            &&& attributes.contains_key("telemetry.sdk.language"@)
            &&& attributes.contains_key("telemetry.sdk.version"@)
            &&& tracer_name(prepared@.tracer) == "vllm-router"@
            &&& tracer_provider(prepared@.tracer) == prepared@.provider
        },
{
    if let Ok(prepared) = r {
        law_service_resource_extends_the_default_one(
            provider_attributes(prepared@.provider),
            service_version@,
            instance_id@,
        );
    }
}

/// A prepared state sends at most 64 spans every 500 milliseconds, out of a queue of the
/// size asked for or of 2048 spans, in the runtime of the calling thread; it reports the
/// service's name, version and instance id; and its tracer is `vllm-router` of its own
/// provider.
pub proof fn law_prepared_state(
    otlp_endpoint: Option<&str>,
    service_version: &str,
    instance_id: &str,
    queue_size: Option<usize>,
    p: Preparation,
)
    requires
        call_ensures(prepare_otel, (otlp_endpoint, service_version, instance_id, queue_size), p),
    ensures
        p.result matches Ok(prepared) ==> {
            let size: int = match queue_size {
                Some(size) => size as int,
                None => 2048,
            };
            let processors = provider_processors(prepared@.provider);
            let attributes = provider_attributes(prepared@.provider);
            &&& processors.len() == 1
            &&& batch_settings(processors[0].1).len() == 3
            &&& batch_settings(processors[0].1)[0] == 500
            &&& batch_settings(processors[0].1)[1] == if size < 64 {
                size
            } else {
                64
            }
            &&& batch_settings(processors[0].1)[2] == size
            &&& rest_unset(processors[0].1)
            &&& p.runtime@ is Some
            &&& provider_runtime(prepared@.provider) == p.runtime@->0
            &&& exporter_runtime(processors[0].0) == p.runtime@->0
            &&& attributes.contains_pair("service.name"@, "vllm-router"@)
            &&& attributes.contains_pair("service.version"@, service_version@)
            &&& attributes.contains_pair("service.instance.id"@, instance_id@)
            &&& attributes.contains_key("telemetry.sdk.name"@)
            &&& attributes.contains_key("telemetry.sdk.language"@)
            &&& attributes.contains_key("telemetry.sdk.version"@)
            &&& tracer_name(prepared@.tracer) == "vllm-router"@
            &&& tracer_provider(prepared@.tracer) == prepared@.provider
        },
{
    if let Ok(prepared) = p.result {
        law_service_resource_extends_the_default_one(
            provider_attributes(prepared@.provider),
            service_version@,
            instance_id@,
        );
    }
}

/// Where spans go: where no endpoint is configured none is set on the exporter's builder,
/// so that the environment and the default of OTLP decide; a configured one is set as it
/// is where it begins with `http://` or `https://`, and behind `http://` where it does
/// not. Either way the exporter speaks gRPC.
pub proof fn law_prepared_endpoint(
    otlp_endpoint: Option<&str>,
    service_version: &str,
    instance_id: &str,
    queue_size: Option<usize>,
    p: Preparation,
)
    requires
        call_ensures(prepare_otel, (otlp_endpoint, service_version, instance_id, queue_size), p),
    ensures
        p.result matches Ok(prepared) ==> {
            let exporter = provider_processors(prepared@.provider)[0].0;
            &&& otlp_endpoint is None ==> set_endpoint(exporter) is None
            &&& otlp_endpoint matches Some(endpoint) ==> set_endpoint(exporter) == Some(
                if "http://"@.is_prefix_of(endpoint@) || "https://"@.is_prefix_of(endpoint@) {
                    endpoint@
                } else {
                    "http://"@ + endpoint@
                },
            )
            &&& over_grpc(set_endpoint(exporter), Ok(exporter))
        },
{
    law_endpoint_to_set(otlp_endpoint);
}

/// Preparing fails for no reason but these: an exporter error has the very error as its
/// cause that building the exporter of the configured endpoint came to; and once that
/// exporter could be built, a missing runtime is reported where the calling thread is in
/// none, and a queue size where no channel can have it. So where that build cannot fail,
/// the thread is in a runtime and the queue fits, preparing succeeds; and where it cannot
/// succeed, its error is what is reported, in a runtime or not.
pub proof fn law_preparing_fails_for_cause(
    otlp_endpoint: Option<&str>,
    service_version: &str,
    instance_id: &str,
    queue_size: Option<usize>,
    endpoint: Option<Seq<char>>,
    p: Preparation,
)
    requires
        call_ensures(prepare_otel, (otlp_endpoint, service_version, instance_id, queue_size), p),
        otlp_endpoint is None ==> endpoint is None,
        otlp_endpoint matches Some(configured) ==> endpoint == Some(
            if "http://"@.is_prefix_of(configured@) || "https://"@.is_prefix_of(configured@) {
                configured@
            } else {
                "http://"@ + configured@
            },
        ),
    ensures
        p.result matches Err(OtelError::Exporter(text)) ==> exists|cause: TraceError|
            over_grpc(endpoint, Err(cause)) && text@ == "Failed to create OTLP exporter: "@
                + #[trigger] trace_error_text(cause),
        p.result is Err && !(p.result->Err_0 is Exporter) ==> exists|exporter: SpanExporter| #[trigger]
            over_grpc(endpoint, Ok(exporter)),
        p.result is Err && p.result->Err_0 is NoRuntime ==> p.runtime@ is None,
        p.result is Err && p.result->Err_0 is QueueSize ==> p.runtime@ is Some && {
            ||| queue_size == Some(0usize)
            ||| queue_size matches Some(size) && size > usize::MAX / 8
        },
        p.result is Ok ==> p.runtime@ is Some && {
            ||| queue_size is None
            ||| queue_size matches Some(size) && 1 <= size <= usize::MAX / 8
        },
        (forall|exporter: SpanExporter| !#[trigger] over_grpc(endpoint, Ok(exporter)))
            ==> p.result is Err && p.result->Err_0 is Exporter,
        (forall|cause: TraceError| !#[trigger] over_grpc(endpoint, Err(cause))) && p.runtime@ is Some
            && (queue_size matches Some(size) ==> 1 <= size <= usize::MAX / 8) ==> p.result is Ok,
{
    law_endpoint_to_set(otlp_endpoint);
    assert(endpoint == endpoint_to_set(otlp_endpoint));
    if let Ok(prepared) = p.result {
        let exporter = provider_processors(prepared@.provider)[0].0;
        assert(over_grpc(endpoint, Ok(exporter)));
    }
}

/// From what building an exporter gave: its error, where it failed, behind
/// `Failed to create OTLP exporter: `, before anything else is looked at; then a missing
/// runtime; then a queue that holds no span or more than a channel; and else the state
/// around that exporter in that runtime.
pub proof fn law_prepared_from_what_was_built(
    built: Result<SpanExporter, TraceError>,
    runtime: Option<&Handle>,
    service_version: &str,
    instance_id: &str,
    queue_size: usize,
    r: Result<PreparedOtel, OtelError>,
)
    requires
        call_ensures(prepare_from, (built, runtime, service_version, instance_id, queue_size), r),
    ensures
        built matches Err(error) ==> (r matches Err(OtelError::Exporter(text)) && text@
            == "Failed to create OTLP exporter: "@ + trace_error_text(error)),
        built is Ok ==> {
            &&& r is Ok <==> runtime is Some && 1 <= queue_size <= usize::MAX / 8
            &&& runtime is None ==> r->Err_0 is NoRuntime
            &&& r is Err && runtime is Some ==> r->Err_0 is QueueSize
        },
        r matches Ok(prepared) ==> {
            &&& provider_processors(prepared@.provider).len() == 1
            &&& provider_processors(prepared@.provider)[0].0 == built->Ok_0
            &&& provider_runtime(prepared@.provider) == *(runtime->0)
            &&& tracer_provider(prepared@.tracer) == prepared@.provider
        },
{
}

/// The error for an exporter that could not be built gives the cause, whole, behind
/// `Failed to create OTLP exporter: `.
pub proof fn law_cause_is_given(cause: &str, error: OtelError)
    requires
        call_ensures(exporter_failure, (cause,), error),
    ensures
        error matches OtelError::Exporter(text) && text@ == "Failed to create OTLP exporter: "@
            + cause@,
{
}

} // verus!
