//! The OTLP endpoint that spans are sent to.

use crate::text::starts_with;
use vstd::prelude::*;
use vstd::string::*;

verus! {

/// Whether `endpoint` names its scheme.
pub open spec fn has_scheme(endpoint: Seq<char>) -> bool {
    "http://"@.is_prefix_of(endpoint) || "https://"@.is_prefix_of(endpoint)
}

/// `endpoint` with its scheme; `http` where it names none.
pub open spec fn with_scheme(endpoint: Seq<char>) -> Seq<char> {
    if has_scheme(endpoint) {
        endpoint
    } else {
        "http://"@ + endpoint
    }
}

/// The endpoint to set on the exporter for a configured one; none for none.
pub open spec fn endpoint_to_set(otlp_endpoint: Option<&str>) -> Option<Seq<char>> {
    match otlp_endpoint {
        Some(endpoint) => Some(with_scheme(endpoint@)),
        None => None,
    }
}

/// The endpoint to set on the exporter: the configured one, with `http://` in
/// front where it names no scheme. Without a configured endpoint none is set,
/// and the exporter falls back to its own environment variables and default.
pub fn exporter_endpoint(otlp_endpoint: Option<&str>) -> (r: Option<String>)
    ensures
        r is Some <==> otlp_endpoint is Some,
        r matches Some(endpoint) ==> Some(endpoint@) == endpoint_to_set(otlp_endpoint),
{
    match otlp_endpoint {
        None => None,
        Some(endpoint) => {
            if !starts_with(endpoint, "http://") && !starts_with(endpoint, "https://") {
                Some("http://".to_owned().concat(endpoint))
            } else {
                Some(endpoint.to_owned())
            }
        },
    }
}

/// The exporter never gets an endpoint without a scheme.
pub proof fn law_endpoint_has_scheme(endpoint: Seq<char>)
    ensures
        has_scheme(with_scheme(endpoint)),
{
}

/// A configured endpoint is kept to its last character, as it is where it names its
/// scheme and behind `http://` where it does not, and completing it twice is completing
/// it once.
pub proof fn law_endpoint_kept(endpoint: Seq<char>)
    ensures
        endpoint.is_suffix_of(with_scheme(endpoint)),
        with_scheme(endpoint) == endpoint <==> has_scheme(endpoint),
        with_scheme(endpoint) != endpoint ==> with_scheme(endpoint) == "http://"@ + endpoint,
        with_scheme(with_scheme(endpoint)) == with_scheme(endpoint),
{
    law_endpoint_has_scheme(endpoint);
}

/// Where no endpoint is configured none is set. A configured one is set as it is where it
/// begins with `http://` or `https://`, and behind `http://` where it does not.
pub proof fn law_endpoint_to_set(otlp_endpoint: Option<&str>)
    ensures
        endpoint_to_set(otlp_endpoint) is None <==> otlp_endpoint is None,
        otlp_endpoint matches Some(endpoint) ==> endpoint_to_set(otlp_endpoint) == Some(
            if "http://"@.is_prefix_of(endpoint@) || "https://"@.is_prefix_of(endpoint@) {
                endpoint@
            } else {
                "http://"@ + endpoint@
            },
        ),
{
}

/// What is handed to the exporter's builder: nothing where no endpoint is configured, and
/// the configured endpoint else, behind `http://` exactly if it begins with neither
/// `http://` nor `https://`.
pub proof fn law_exporter_endpoint(otlp_endpoint: Option<&str>, r: Option<String>)
    requires
        call_ensures(exporter_endpoint, (otlp_endpoint,), r),
    ensures
        otlp_endpoint is None ==> r is None,
        otlp_endpoint matches Some(endpoint) ==> (r matches Some(text) && {
            &&& "http://"@.is_prefix_of(text@) || "https://"@.is_prefix_of(text@)
            &&& text@ == endpoint@ || text@ == "http://"@ + endpoint@
            &&& text@ == endpoint@ <==> "http://"@.is_prefix_of(endpoint@)
                || "https://"@.is_prefix_of(endpoint@)
        }),
{
    if let Some(endpoint) = otlp_endpoint {
        law_endpoint_kept(endpoint@);
        reveal_strlit("http://");
        assert(("http://"@ + endpoint@).len() != endpoint@.len());
    }
}

} // verus!
