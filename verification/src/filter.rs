//! Which spans are exported.

use crate::text::starts_with;
use vstd::prelude::*;

verus! {

/// Spans are exported when their target begins with this text.
pub const OTEL_SPAN_TARGET: &'static str = "vllm_router_rs::otel-trace";

/// Whether spans of `target` are exported.
pub open spec fn exported_target(target: Seq<char>) -> bool {
    OTEL_SPAN_TARGET@.is_prefix_of(target)
}

/// What the filter says of a callsite once and for all.
#[derive(Clone, Copy, Debug, PartialEq, Eq, Structural)]
pub enum CallsiteInterest {
    /// Every span of the callsite is exported.
    Always,
    /// No span of the callsite is exported.
    Never,
}

/// Filter that only allows specific module targets to be exported to OTEL.
#[derive(Clone, Copy, Debug)]
pub struct CustomOtelFilter;

impl CustomOtelFilter {
    /// The filter; it has no settings.
    pub fn new() -> (filter: Self)
        ensures
            filter == CustomOtelFilter,
    {
        CustomOtelFilter
    }

    /// Whether spans of `target` are exported: those whose target begins with
    /// [`OTEL_SPAN_TARGET`].
    pub fn is_allowed(target: &str) -> (r: bool)
        ensures
            r == exported_target(target@),
    {
        starts_with(target, OTEL_SPAN_TARGET)
    }

    /// Whether a span with the target `target` passes the filter.
    pub fn enabled(&self, target: &str) -> (r: bool)
        ensures
            r == exported_target(target@),
    {
        Self::is_allowed(target)
    }

    /// Whether the spans of a callsite with the target `target` pass the filter.
    pub fn callsite_enabled(&self, target: &str) -> (r: CallsiteInterest)
        ensures
            r == (if exported_target(target@) {
                CallsiteInterest::Always
            } else {
                CallsiteInterest::Never
            }),
    {
        if Self::is_allowed(target) {
            CallsiteInterest::Always
        } else {
            CallsiteInterest::Never
        }
    }
}

impl Default for CustomOtelFilter {
    fn default() -> (filter: Self)
        ensures
            filter == CustomOtelFilter,
    {
        CustomOtelFilter::new()
    }
}

/// A target below an exported one is exported: appending a module path never
/// takes a span out of the export.
pub proof fn law_export_covers_submodules(target: Seq<char>, path: Seq<char>)
    requires
        exported_target(target),
    ensures
        exported_target(target + path),
{
}

/// The exported targets are the span target followed by anything, and no others.
pub proof fn law_exported_targets(target: Seq<char>)
    ensures
        exported_target(target) <==> exists|path: Seq<char>|
            target == #[trigger] (OTEL_SPAN_TARGET@ + path),
{
    if exported_target(target) {
        let path = target.skip(OTEL_SPAN_TARGET@.len() as int);
        assert(target =~= OTEL_SPAN_TARGET@ + path);
    }
}

/// A span is exported exactly if its target is `vllm_router_rs::otel-trace` followed by
/// anything, whichever way the filter is asked.
pub proof fn law_filter_answers_agree(
    filter: &CustomOtelFilter,
    target: &str,
    allowed: bool,
    enabled: bool,
    interest: CallsiteInterest,
)
    requires
        call_ensures(CustomOtelFilter::is_allowed, (target,), allowed),
        call_ensures(CustomOtelFilter::enabled, (filter, target), enabled),
        call_ensures(CustomOtelFilter::callsite_enabled, (filter, target), interest),
    ensures
        allowed <==> exists|path: Seq<char>|
            target@ == #[trigger] ("vllm_router_rs::otel-trace"@ + path),
        enabled == allowed,
        interest == CallsiteInterest::Always <==> allowed,
        interest == CallsiteInterest::Never <==> !allowed,
{
    law_exported_targets(target@);
    assert(OTEL_SPAN_TARGET@ == "vllm_router_rs::otel-trace"@);
    if allowed {
        let path = choose|path: Seq<char>| target@ == #[trigger] (OTEL_SPAN_TARGET@ + path);
        assert(target@ == "vllm_router_rs::otel-trace"@ + path);
    }
}

} // verus!
