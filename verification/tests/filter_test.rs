use otel_trace::{CallsiteInterest, CustomOtelFilter, OTEL_SPAN_TARGET};

#[test]
fn only_the_span_target_is_exported() {
    assert_eq!(OTEL_SPAN_TARGET, "vllm_router_rs::otel-trace");
    assert!(CustomOtelFilter::is_allowed("vllm_router_rs::otel-trace"));
    assert!(CustomOtelFilter::is_allowed("vllm_router_rs::otel-trace::http"));
    assert!(CustomOtelFilter::is_allowed("vllm_router_rs::otel-tracer"));
    assert!(!CustomOtelFilter::is_allowed("vllm_router_rs::otel_trace"));
    assert!(!CustomOtelFilter::is_allowed("vllm_router_rs"));
    assert!(!CustomOtelFilter::is_allowed("hyper::client"));
    assert!(!CustomOtelFilter::is_allowed("x::vllm_router_rs::otel-trace"));
    assert!(!CustomOtelFilter::is_allowed(""));
}

#[test]
fn span_and_callsite_decisions_agree() {
    let filter = CustomOtelFilter::new();
    for target in ["vllm_router_rs::otel-trace", "vllm_router_rs::otel-trace/x", "hyper", ""] {
        let always = filter.callsite_enabled(target) == CallsiteInterest::Always;
        assert_eq!(filter.enabled(target), always);
    }
    assert_eq!(filter.callsite_enabled("tower"), CallsiteInterest::Never);
    assert!(CustomOtelFilter::default().enabled(OTEL_SPAN_TARGET));
}
