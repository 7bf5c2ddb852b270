//! What this library installs process-wide.
//!
//! The types of this module have no public constructor: an [`InstalledPropagators`] and
//! an [`InstalledProvider`] always come from an installation.

use opentelemetry::global::{self, GlobalTracerProvider};
use opentelemetry::propagation::{TextMapCompositePropagator, TextMapPropagator};
use opentelemetry_sdk::propagation::{BaggagePropagator, TraceContextPropagator};
use opentelemetry_sdk::trace::TracerProvider;
use vstd::prelude::*;

verus! {

/// The process-wide provider, as the `opentelemetry` crate has it.
#[verifier::external_type_specification]
#[verifier::external_body]
pub struct ExGlobalTracerProvider(opentelemetry::global::GlobalTracerProvider);

/// A format in which context travels in headers.
#[derive(Clone, Copy, Debug, PartialEq, Eq, Structural)]
pub enum PropagatorKind {
    /// W3C trace context: `traceparent` and `tracestate`.
    TraceContext,
    /// W3C baggage: `baggage`.
    Baggage,
}

/// The formats in which this service carries context, in the order in which they are
/// asked.
pub open spec fn service_propagators() -> Seq<PropagatorKind> {
    seq![PropagatorKind::TraceContext, PropagatorKind::Baggage]
}

/// The formats in which this service carries context: W3C trace context and W3C
/// baggage, and nothing else.
pub fn propagator_kinds() -> (kinds: Vec<PropagatorKind>)
    ensures
        kinds@ == service_propagators(),
{
    vec![PropagatorKind::TraceContext, PropagatorKind::Baggage]
}

/// The propagators that an installation made the process-wide ones.
pub struct InstalledPropagators {
    kinds: Vec<PropagatorKind>,
}

impl View for InstalledPropagators {
    type V = Seq<PropagatorKind>;

    closed spec fn view(&self) -> Seq<PropagatorKind> {
        self.kinds@
    }
}

impl InstalledPropagators {
    /// The formats, in the order in which they are asked.
    pub fn kinds(&self) -> (kinds: &Vec<PropagatorKind>)
        ensures
            kinds@ == self@,
    {
        &self.kinds
    }
}

/// The provider that an installation made the process-wide one. It keeps the one that
/// was process-wide before, which is released with it.
pub struct InstalledProvider {
    provider: TracerProvider,
    before: GlobalTracerProvider,
}

impl View for InstalledProvider {
    type V = TracerProvider;

    /// The provider that was installed.
    closed spec fn view(&self) -> TracerProvider {
        self.provider
    }
}

impl InstalledProvider {
    /// The process-wide provider that the installed one replaced.
    pub closed spec fn before(self) -> GlobalTracerProvider {
        self.before
    }

    /// The process-wide provider that the installed one replaced.
    pub fn into_before(self) -> (before: GlobalTracerProvider)
        ensures
            before == self.before(),
    {
        self.before
    }
}

/// `global::set_text_map_propagator` on a `TextMapCompositePropagator` of these formats,
/// a `TraceContextPropagator` or a `BaggagePropagator` each: they are the process-wide
/// propagators from now on. Nothing is said of how long they stay so, since any code of
/// the process may install others.
#[verifier::external_body]
pub(crate) fn install_propagators(kinds: Vec<PropagatorKind>) -> (installed: InstalledPropagators)
    ensures
        installed@ == kinds@,
{
    let propagators = kinds.iter().map(
        |kind| -> Box<dyn TextMapPropagator + Send + Sync> {
            match kind {
                PropagatorKind::TraceContext => Box::new(TraceContextPropagator::new()),
                PropagatorKind::Baggage => Box::new(BaggagePropagator::new()),
            }
        },
    ).collect();
    global::set_text_map_propagator(TextMapCompositePropagator::new(propagators));
    InstalledPropagators { kinds }
}

/// `global::set_tracer_provider` on a clone of the provider, which shares everything with
/// it: it is the process-wide provider from now on, and the one before it is handed back.
/// Nothing is said of which one that was, nor of how long the new one stays, since any
/// code of the process may install another.
#[verifier::external_body]
pub(crate) fn install_provider(provider: &TracerProvider) -> (installed: InstalledProvider)
    ensures
        installed@ == *provider,
{
    let before = global::set_tracer_provider(provider.clone());
    InstalledProvider { provider: provider.clone(), before }
}

/// Context travels as W3C trace context and as W3C baggage, asked in this order, and in
/// no other format.
pub proof fn law_service_propagators(kinds: Vec<PropagatorKind>)
    requires
        call_ensures(propagator_kinds, (), kinds),
    ensures
        kinds@ == seq![PropagatorKind::TraceContext, PropagatorKind::Baggage],
        kinds@ == service_propagators(),
{
}

} // verus!
