//! Carrying the current trace context into outgoing HTTP requests.

use crate::headers::{cut_short, field_name, header_entries, inject_fields, is_name_byte};
use crate::headers::{law_cut_keeps_the_fields_before, law_each_field_stands};
use crate::headers::{law_unnamed_header_stays, with_fields, HEADER_ROOM};
use crate::propagated::{current_context, inject_context, FieldRecorder, Propagated};
use crate::state::{is_otel_enabled, OtelState};
use axum::http::HeaderMap;
use vstd::prelude::*;
use vstd::utf8::encode_utf8;

verus! {

/// The header map had no room for one of the propagated fields.
pub struct InjectionCut {
    /// The fields that were to be written.
    pub set: Propagated,
}

/// Inject W3C trace context headers into an HTTP request's HeaderMap.
///
/// When OTel is enabled, this injects the current span's trace context
/// (traceparent, tracestate) into outgoing requests, making the router's
/// span the parent of backend spans. The fields that the installed propagator set for
/// the current span are written in turn, as [`inject_fields`] does, and are handed back.
///
/// When OTel is disabled, this is a no-op.
///
/// `Err` is returned where the map has no room for a header; the ones before it have
/// then been written. Which fields the propagator sets rests on the current span and
/// the installed propagator.
pub fn inject_trace_context_http(state: &OtelState, headers: &mut HeaderMap) -> (r: Result<
    Option<Propagated>,
    InjectionCut,
>)
    ensures
        !state@.enabled ==> *final(headers) == *old(headers) && r is Ok && r->Ok_0 is None,
        state@.enabled && r is Ok ==> (r->Ok_0 matches Some(set) && header_entries(*final(headers))
            == with_fields(header_entries(*old(headers)), set@)),
        r is Err ==> cut_short(
            header_entries(*old(headers)),
            r->Err_0.set@,
            header_entries(*final(headers)),
        ),
        r is Err ==> header_entries(*final(headers)).dom().len() >= HEADER_ROOM,
        r is Err ==> header_entries(*old(headers)).dom().len() + r->Err_0.set@.len() > HEADER_ROOM,
{
    if !is_otel_enabled(state) {
        return Ok(None);
    }
    let set = inject_context(current_context(), FieldRecorder::new());
    match inject_fields(headers, set.fields()) {
        Ok(()) => Ok(Some(set)),
        Err(_) => Err(InjectionCut { set }),
    }
}

/// While tracing is disabled a request is left alone, and nobody is asked for a context.
pub proof fn law_disabled_injection_does_nothing(
    state: &OtelState,
    r: Result<Option<Propagated>, InjectionCut>,
)
    requires
        !state@.enabled,
    ensures
        forall|headers: &mut HeaderMap| #[trigger]
            call_ensures(inject_trace_context_http, (state, headers), r) ==> *final(headers)
                == *headers && r == Ok::<Option<Propagated>, InjectionCut>(None),
{
}

/// While tracing is enabled every field that the propagator set is carried: one that is a
/// header's name with a header's value is the one value of its header in the request,
/// unless a later one has its name.
pub proof fn law_propagated_field_is_carried(state: &OtelState, set: Propagated, i: int)
    requires
        state@.enabled,
        0 <= i < set@.len(),
        1 <= encode_utf8(set@[i].0).len() <= 65535,
        forall|k: int|
            0 <= k < encode_utf8(set@[i].0).len() ==> is_name_byte(
                #[trigger] encode_utf8(set@[i].0)[k],
            ),
        forall|k: int|
            0 <= k < encode_utf8(set@[i].1).len() ==> (#[trigger] encode_utf8(set@[i].1)[k] == 9
                || 32 <= encode_utf8(set@[i].1)[k] <= 126 || 128 <= encode_utf8(set@[i].1)[k]),
        forall|j: int|
            i < j < set@.len() ==> field_name((#[trigger] set@[j]).0) != field_name(set@[i].0),
    ensures
        forall|headers: &mut HeaderMap| #[trigger]
            call_ensures(
                inject_trace_context_http,
                (state, headers),
                Ok::<Option<Propagated>, InjectionCut>(Some(set)),
            ) ==> header_entries(*final(headers)).contains_pair(
                field_name(set@[i].0),
                seq![encode_utf8(set@[i].1)],
            ),
{
    let r = Ok::<Option<Propagated>, InjectionCut>(Some(set));
    assert forall|headers: &mut HeaderMap| #[trigger]
        call_ensures(inject_trace_context_http, (state, headers), r) implies header_entries(
        *final(headers),
    ).contains_pair(field_name(set@[i].0), seq![encode_utf8(set@[i].1)]) by {
        law_each_field_stands(header_entries(*headers), set@, i);
    }
}

/// A request keeps every header that no propagated field names.
pub proof fn law_request_keeps_its_headers(state: &OtelState, set: Propagated, name: Seq<u8>)
    requires
        forall|j: int| 0 <= j < set@.len() ==> field_name((#[trigger] set@[j]).0) != name,
    ensures
        forall|headers: &mut HeaderMap| #[trigger]
            call_ensures(
                inject_trace_context_http,
                (state, headers),
                Ok::<Option<Propagated>, InjectionCut>(Some(set)),
            ) ==> {
                &&& header_entries(*final(headers)).contains_key(name) <==> header_entries(
                    *headers,
                ).contains_key(name)
                &&& header_entries(*final(headers))[name] == header_entries(*headers)[name]
            },
        forall|headers: &mut HeaderMap| #[trigger]
            call_ensures(
                inject_trace_context_http,
                (state, headers),
                Err::<Option<Propagated>, InjectionCut>((InjectionCut { set })),
            ) ==> {
                &&& header_entries(*final(headers)).contains_key(name) <==> header_entries(
                    *headers,
                ).contains_key(name)
                &&& header_entries(*final(headers))[name] == header_entries(*headers)[name]
            },
{
    let written = Ok::<Option<Propagated>, InjectionCut>(Some(set));
    assert forall|headers: &mut HeaderMap| #[trigger]
        call_ensures(inject_trace_context_http, (state, headers), written) implies {
        &&& header_entries(*final(headers)).contains_key(name) <==> header_entries(
            *headers,
        ).contains_key(name)
        &&& header_entries(*final(headers))[name] == header_entries(*headers)[name]
    } by {
        law_unnamed_header_stays(header_entries(*headers), set@, name);
    }
    let cut = Err::<Option<Propagated>, InjectionCut>(InjectionCut { set });
    assert forall|headers: &mut HeaderMap| #[trigger]
        call_ensures(inject_trace_context_http, (state, headers), cut) implies {
        &&& header_entries(*final(headers)).contains_key(name) <==> header_entries(
            *headers,
        ).contains_key(name)
        &&& header_entries(*final(headers))[name] == header_entries(*headers)[name]
    } by {
        let (before, after) = (header_entries(*headers), header_entries(*final(headers)));
        law_cut_keeps_the_fields_before(before, set@, after);
        let n = choose|n: int|
            0 <= n < set@.len() && after == with_fields(before, #[trigger] set@.take(n));
        law_unnamed_header_stays(before, set@.take(n), name);
    }
}

/// Injection ends early only where the names of the request and the propagated fields are
/// more than 6554 together.
pub proof fn law_injection_is_cut_for_want_of_room(state: &OtelState, cut: InjectionCut)
    ensures
        forall|headers: &mut HeaderMap| #[trigger]
            call_ensures(
                inject_trace_context_http,
                (state, headers),
                Err::<Option<Propagated>, InjectionCut>(cut),
            ) ==> header_entries(*headers).dom().len() + cut.set@.len() > 6554,
{
}

} // verus!
