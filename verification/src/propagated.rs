//! What the process-wide propagator has to say of the current span.
//!
//! The types of this module have no public constructor but
//! [`FieldRecorder::new`]: a [`CurrentContext`] is always one that `current_context`
//! found, and a [`Propagated`] always one that `inject_context` got from the installed
//! propagator.

use crate::headers::fields_view;
use opentelemetry::propagation::Injector;
use opentelemetry::{global, Context};
use tracing_opentelemetry::OpenTelemetrySpanExt;
use vstd::prelude::*;
use vstd::string::*;

verus! {

/// The context of a trace, as the `opentelemetry` crate has it.
#[verifier::external_type_specification]
#[verifier::external_body]
pub struct ExContext(opentelemetry::Context);

/// A carrier that keeps the fields that a propagator sets, in the order in which it
/// sets them.
pub struct FieldRecorder {
    fields: Vec<(String, String)>,
}

impl View for FieldRecorder {
    type V = Seq<(Seq<char>, Seq<char>)>;

    closed spec fn view(&self) -> Seq<(Seq<char>, Seq<char>)> {
        fields_view(self.fields@)
    }
}

impl FieldRecorder {
    /// A carrier without fields.
    pub fn new() -> (recorder: Self)
        ensures
            recorder@ == Seq::<(Seq<char>, Seq<char>)>::empty(),
    {
        FieldRecorder { fields: Vec::new() }
    }

    /// The fields, in the order in which they were set.
    pub fn fields(&self) -> (fields: &Vec<(String, String)>)
        ensures
            fields_view(fields@) == self@,
    {
        &self.fields
    }
}

impl Injector for FieldRecorder {
    /// Adds a field behind the others.
    fn set(&mut self, key: &str, value: String)
        ensures
            final(self)@ == old(self)@.push((key@, value@)),
    {
        self.fields.push((key.to_owned(), value));
    }
}

/// The trace context of the span that a thread was in.
pub struct CurrentContext {
    context: Context,
}

impl View for CurrentContext {
    type V = Context;

    closed spec fn view(&self) -> Context {
        self.context
    }
}

/// The fields that the process-wide propagator set for the context of a thread's
/// current span.
pub struct Propagated {
    context: CurrentContext,
    recorder: FieldRecorder,
}

impl View for Propagated {
    type V = Seq<(Seq<char>, Seq<char>)>;

    /// The fields, in the order in which the propagator set them.
    closed spec fn view(&self) -> Seq<(Seq<char>, Seq<char>)> {
        self.recorder@
    }
}

impl Propagated {
    /// The context that the propagator was asked about.
    pub closed spec fn context(self) -> Context {
        self.context@
    }

    /// The fields, in the order in which the propagator set them.
    pub fn fields(&self) -> (fields: &Vec<(String, String)>)
        ensures
            fields_view(fields@) == self@,
    {
        self.recorder.fields()
    }
}

/// `tracing::Span::current` and `OpenTelemetrySpanExt::context`: the trace context of
/// the span that this thread is in, or an empty one. Which context that is depends on
/// the thread and the installed subscriber, so nothing is said of it.
#[verifier::external_body]
pub(crate) fn current_context() -> CurrentContext {
    CurrentContext { context: tracing::Span::current().context() }
}

/// `TextMapPropagator::inject_context` of the process-wide propagator, which
/// `global::get_text_map_propagator` looks up, on the context and an empty carrier. The
/// result holds what the propagator set, which depends on the propagator that is
/// installed, so nothing is said of which fields these are.
#[verifier::external_body]
pub(crate) fn inject_context(context: CurrentContext, recorder: FieldRecorder) -> (set: Propagated)
    requires
        recorder@ == Seq::<(Seq<char>, Seq<char>)>::empty(),
    ensures
        set.context() == context@,
{
    let mut recorder = recorder;
    global::get_text_map_propagator(
        |propagator| propagator.inject_context(&context.context, &mut recorder),
    );
    Propagated { context, recorder }
}

} // verus!
