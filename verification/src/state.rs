//! Whether tracing is on, and the provider that carries it.

use crate::installed::{install_propagators, install_provider, propagator_kinds};
use crate::installed::{service_propagators, InstalledPropagators, InstalledProvider};
use crate::installed::PropagatorKind;
use crate::prepare::PreparedOtel;
use opentelemetry_sdk::trace::TracerProvider;
use vstd::prelude::*;

verus! {

/// The process's tracing state, as a value.
pub struct OtelStatus {
    /// Whether OpenTelemetry tracing is enabled.
    pub enabled: bool,
    /// The provider to shut down when tracing ends.
    pub provider: Option<TracerProvider>,
}

impl OtelStatus {
    /// Tracing off, with no provider.
    pub open spec fn off() -> OtelStatus {
        OtelStatus { enabled: false, provider: None }
    }

    /// A provider is held only while tracing is on.
    pub open spec fn wf(self) -> bool {
        self.provider is Some ==> self.enabled
    }

    /// Tracing on, with the provider as it was.
    pub open spec fn marked(self) -> OtelStatus {
        OtelStatus { enabled: true, ..self }
    }

    /// Tracing on, with this provider.
    pub open spec fn activated(self, provider: TracerProvider) -> OtelStatus {
        OtelStatus { enabled: true, provider: Some(provider) }
    }

    /// Tracing off; a state in which it is off already stays as it is.
    pub open spec fn shut_down(self) -> OtelStatus {
        if self.enabled {
            OtelStatus::off()
        } else {
            self
        }
    }
}

/// Whether OpenTelemetry tracing is enabled, and the provider that was activated.
///
/// Guards runtime code paths such as
/// [`inject_trace_context_http`](crate::propagation::inject_trace_context_http). It is
/// only enabled after both the OTel layer and subscriber are installed, by
/// [`activate_otel`].
pub struct OtelState {
    enabled: bool,
    provider: Option<TracerProvider>,
}

impl View for OtelState {
    type V = OtelStatus;

    closed spec fn view(&self) -> OtelStatus {
        OtelStatus { enabled: self.enabled, provider: self.provider }
    }
}

impl OtelState {
    #[verifier::type_invariant]
    spec fn inv(self) -> bool {
        self@.wf()
    }

    /// Tracing off, with no provider.
    pub fn new() -> (state: Self)
        ensures
            state@ == OtelStatus::off(),
            !state@.enabled,
            state@.provider is None,
    {
        OtelState { enabled: false, provider: None }
    }
}

/// What an activation did outside the tracing state.
pub struct Activation {
    /// The propagators that it installed process-wide.
    pub propagators: InstalledPropagators,
    /// The provider that it installed process-wide.
    pub provider: InstalledProvider,
    /// The provider of an earlier activation, which is no longer held. The activation
    /// did not shut it down.
    pub replaced: Option<TracerProvider>,
}

/// Set global propagator and provider, and enable tracing.
///
/// Must be called after the subscriber with the OTel layer is installed. The
/// process-wide propagators become those of [`propagator_kinds`], and the prepared
/// provider becomes both the process-wide one and the one to shut down later.
pub fn activate_otel(state: &mut OtelState, prepared: PreparedOtel) -> (activation: Activation)
    ensures
        final(state)@ == old(state)@.activated(prepared@.provider),
        final(state)@.enabled,
        final(state)@.provider == Some(prepared@.provider),
        activation.propagators@ == service_propagators(),
        activation.provider@ == prepared@.provider,
        activation.replaced == old(state)@.provider,
{
    let propagators = install_propagators(propagator_kinds());
    let retained = prepared.into_provider();
    let provider = install_provider(&retained);
    let mut replaced = OtelState { enabled: true, provider: Some(retained) };
    std::mem::swap(state, &mut replaced);
    Activation { propagators, provider, replaced: replaced.provider }
}

/// Mark OpenTelemetry tracing as enabled (for tests that manage their own provider).
pub fn mark_otel_enabled(state: &mut OtelState)
    ensures
        final(state)@ == old(state)@.marked(),
        final(state)@.enabled,
        final(state)@.provider == old(state)@.provider,
{
    state.enabled = true;
}

/// Check if OpenTelemetry tracing is enabled. Where it is not, no provider is held.
pub fn is_otel_enabled(state: &OtelState) -> (r: bool)
    ensures
        r == state@.enabled,
        state@.wf(),
{
    proof {
        use_type_invariant(state);
    }
    state.enabled
}

/// Ends tracing: disables it, and hands out the provider to shut down, where one was
/// activated. It is the one of the last activation, and is handed out once. Where tracing
/// is disabled nothing happens.
pub fn shutdown_otel(state: &mut OtelState) -> (r: Option<TracerProvider>)
    ensures
        r == old(state)@.provider,
        final(state)@ == old(state)@.shut_down(),
        final(state)@ == OtelStatus::off(),
        !final(state)@.enabled,
        final(state)@.provider is None,
{
    proof {
        use_type_invariant(&*state);
    }
    if !state.enabled {
        return None;
    }
    let mut ended = OtelState { enabled: false, provider: None };
    std::mem::swap(state, &mut ended);
    ended.provider
}

/// Every state is well-formed: tracing starts off, and marking, activating and shutting
/// down lead from well-formed states to well-formed ones.
pub proof fn law_provider_only_while_enabled(status: OtelStatus, provider: TracerProvider)
    ensures
        OtelStatus::off().wf(),
        status.wf() ==> status.marked().wf(),
        status.activated(provider).wf(),
        status.wf() ==> status.shut_down().wf(),
{
}

/// Shutting down ends tracing in whatever state it is called: it undoes an activation
/// and a marking, and a second shutdown changes nothing.
pub proof fn law_shutdown_ends_tracing(status: OtelStatus, provider: TracerProvider)
    requires
        status.wf(),
    ensures
        status.shut_down() == OtelStatus::off(),
        status.activated(provider).shut_down() == OtelStatus::off(),
        status.marked().shut_down() == OtelStatus::off(),
        status.shut_down().shut_down() == status.shut_down(),
{
}

/// After two activations the provider to shut down is that of the second one, and one
/// shutdown ends tracing: activations are not counted. Nothing is left to shut down
/// after it, even where tracing is marked as enabled again.
pub proof fn law_last_activation_is_shut_down(
    status: OtelStatus,
    first: TracerProvider,
    second: TracerProvider,
)
    ensures
        status.activated(first).activated(second).provider == Some(second),
        status.activated(first).activated(second).shut_down() == OtelStatus::off(),
        status.activated(first).activated(second).shut_down().marked().provider is None,
{
}

/// A call that changes the tracing state.
pub enum OtelCall {
    /// [`mark_otel_enabled`].
    Mark,
    /// [`activate_otel`] with this provider.
    Activate(TracerProvider),
    /// [`shutdown_otel`].
    Shutdown,
}

impl OtelStatus {
    /// The state after a call.
    pub open spec fn after(self, call: OtelCall) -> OtelStatus {
        match call {
            OtelCall::Mark => self.marked(),
            OtelCall::Activate(provider) => self.activated(provider),
            OtelCall::Shutdown => self.shut_down(),
        }
    }

    /// The state after a history of calls, from tracing off.
    pub open spec fn after_all(calls: Seq<OtelCall>) -> OtelStatus
        decreases calls.len(),
    {
        if calls.len() == 0 {
            OtelStatus::off()
        } else {
            OtelStatus::after_all(calls.drop_last()).after(calls.last())
        }
    }
}

/// Whether the call at `i` activated `provider` and only markings came after it.
pub open spec fn last_activated(calls: Seq<OtelCall>, i: int, provider: TracerProvider) -> bool {
    &&& 0 <= i < calls.len()
    &&& calls[i] == OtelCall::Activate(provider)
    &&& forall|j: int| i < j < calls.len() ==> #[trigger] calls[j] is Mark
}

/// After any history of calls tracing is enabled exactly if there was one and the last
/// was no shutdown, and the provider held is that of the last activation since the last
/// shutdown, if there was one.
pub proof fn law_status_after_history(calls: Seq<OtelCall>, provider: TracerProvider)
    ensures
        OtelStatus::after_all(calls).wf(),
        OtelStatus::after_all(calls).enabled <==> calls.len() > 0 && !(calls.last() is Shutdown),
        OtelStatus::after_all(calls).provider == Some(provider) <==> exists|i: int| #[trigger]
            last_activated(calls, i, provider),
    decreases calls.len(),
{
    if calls.len() > 0 {
        let init = calls.drop_last();
        law_status_after_history(init, provider);
        if calls.last() is Mark {
            if exists|i: int| #[trigger] last_activated(init, i, provider) {
                let i = choose|i: int| #[trigger] last_activated(init, i, provider);
                assert forall|j: int| i < j < calls.len() implies #[trigger] calls[j] is Mark by {
                    assert(j < init.len() ==> init[j] is Mark);
                }
                assert(last_activated(calls, i, provider));
            }
            if exists|i: int| #[trigger] last_activated(calls, i, provider) {
                let i = choose|i: int| #[trigger] last_activated(calls, i, provider);
                assert forall|j: int| i < j < init.len() implies #[trigger] init[j] is Mark by {
                    assert(calls[j] is Mark);
                }
                assert(last_activated(init, i, provider));
            }
        } else {
            assert(!(calls[calls.len() - 1] is Mark));
            if calls.last() == OtelCall::Activate(provider) {
                assert(last_activated(calls, calls.len() - 1, provider));
            }
        }
    }
}

/// Marking an activated state changes nothing: the provider stays to be shut down.
pub proof fn law_marking_keeps_provider(status: OtelStatus, provider: TracerProvider)
    ensures
        status.marked().provider == status.provider,
        status.activated(provider).marked() == status.activated(provider),
{
}

/// Activating turns tracing on with the prepared provider, which is both installed and
/// held, beside propagators of W3C trace context and W3C baggage; the shutdown that
/// follows, with or without markings between, hands out that very provider and leaves
/// tracing off, and a further shutdown hands out nothing.
pub proof fn law_activation_lasts_until_shutdown(
    prepared: PreparedOtel,
    activation: Activation,
    ended: Option<TracerProvider>,
    again: Option<TracerProvider>,
)
    ensures
        forall|first: &mut OtelState| #[trigger]
            call_ensures(activate_otel, (first, prepared), activation) ==> {
                &&& final(first)@.enabled
                &&& final(first)@.provider == Some(prepared@.provider)
                &&& activation.provider@ == prepared@.provider
                &&& activation.propagators@ == seq![
                    PropagatorKind::TraceContext,
                    PropagatorKind::Baggage,
                ]
                &&& activation.replaced == first@.provider
            },
        forall|first: &mut OtelState, second: &mut OtelState| #[trigger]
            call_ensures(activate_otel, (first, prepared), activation) && #[trigger] call_ensures(
                shutdown_otel,
                (second,),
                ended,
            ) && second@.provider == final(first)@.provider ==> {
                &&& ended == Some(prepared@.provider)
                &&& !final(second)@.enabled
                &&& final(second)@.provider is None
            },
        forall|second: &mut OtelState, third: &mut OtelState| #[trigger]
            call_ensures(shutdown_otel, (second,), ended) && #[trigger] call_ensures(
                shutdown_otel,
                (third,),
                again,
            ) && third@ == final(second)@ ==> again is None && !final(third)@.enabled,
{
}

/// Tracing starts off and without a provider; marking turns it on and touches nothing
/// else, and the flag that is read is the one that was set.
pub proof fn law_marking_turns_tracing_on(fresh: OtelState, state: &OtelState, enabled: bool)
    ensures
        call_ensures(OtelState::new, (), fresh) ==> !fresh@.enabled && fresh@.provider is None,
        forall|marked: &mut OtelState| #[trigger]
            call_ensures(mark_otel_enabled, (marked,), ()) ==> {
                &&& final(marked)@.enabled
                &&& final(marked)@.provider == marked@.provider
            },
        call_ensures(is_otel_enabled, (state,), enabled) ==> enabled == state@.enabled,
        call_ensures(is_otel_enabled, (state,), enabled) && !enabled ==> state@.provider is None,
{
}

} // verus!
