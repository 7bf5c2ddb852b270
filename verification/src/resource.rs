//! The attributes that identify this service in telemetry.

use crate::process::{default_resource, DefaultResource};
use opentelemetry::KeyValue;
use opentelemetry_sdk::Resource;
use vstd::prelude::*;
use vstd::string::*;

verus! {

/// The entity that produces telemetry, as the `opentelemetry_sdk` crate has it.
#[verifier::external_type_specification]
#[verifier::external_body]
pub struct ExResource(opentelemetry_sdk::Resource);

/// What a resource holds: the text of each attribute's value under its key.
pub uninterp spec fn resource_entries(resource: Resource) -> Map<Seq<char>, Seq<char>>;

/// The name under which the service reports, also that of its tracer.
pub const SERVICE_NAME: &'static str = "vllm-router";

/// The attributes as texts, key first.
pub open spec fn attributes_view(attributes: Seq<(String, String)>) -> Seq<(Seq<char>, Seq<char>)> {
    attributes.map_values(|attribute: (String, String)| (attribute.0@, attribute.1@))
}

/// The attributes as a map; of several with one key the last one stands.
pub open spec fn attribute_map(attributes: Seq<(Seq<char>, Seq<char>)>) -> Map<Seq<char>, Seq<char>>
    decreases attributes.len(),
{
    if attributes.len() == 0 {
        Map::empty()
    } else {
        attribute_map(attributes.drop_last()).insert(attributes.last().0, attributes.last().1)
    }
}

/// The attributes of this service, in the order in which they are reported.
pub open spec fn service_attributes_of(version: Seq<char>, instance_id: Seq<char>) -> Seq<
    (Seq<char>, Seq<char>),
> {
    seq![
        ("service.name"@, SERVICE_NAME@),
        ("service.version"@, version),
        ("service.instance.id"@, instance_id),
    ]
}

/// Whether the attributes say what the SDK says of every process: its service's name, and
/// the SDK's own name, language and version.
pub open spec fn describes_process(entries: Map<Seq<char>, Seq<char>>) -> bool {
    &&& entries.contains_key("service.name"@)
    &&& entries.contains_key("telemetry.sdk.name"@)
    &&& entries.contains_key("telemetry.sdk.language"@)
    &&& entries.contains_key("telemetry.sdk.version"@)
}

/// `Resource::new` on string attributes, each made a `KeyValue`: the resource holds
/// them by key, the last one where a key recurs.
#[verifier::external_body]
fn resource_of(attributes: Vec<(String, String)>) -> (resource: Resource)
    ensures
        resource_entries(resource) == attribute_map(attributes_view(attributes@)),
{
    Resource::new(attributes.into_iter().map(|(key, value)| KeyValue::new(key, value)))
}

/// `Resource::merge`: the attributes of both, those of `other` where both have a key.
#[verifier::external_body]
fn merge(resource: &Resource, other: &Resource) -> (merged: Resource)
    ensures
        resource_entries(merged) == resource_entries(*resource).union_prefer_right(
            resource_entries(*other),
        ),
{
    resource.merge(other)
}

/// The attributes that identify this service: its name, its version and its instance.
pub fn service_attributes(version: &str, instance_id: &str) -> (attributes: Vec<(String, String)>)
    ensures
        attributes_view(attributes@) == service_attributes_of(version@, instance_id@),
{
    vec![
        ("service.name".to_owned(), SERVICE_NAME.to_owned()),
        ("service.version".to_owned(), version.to_owned()),
        ("service.instance.id".to_owned(), instance_id.to_owned()),
    ]
}

/// The resource `base` with this service's attributes, which override those of `base`.
pub fn with_service_attributes(base: &Resource, version: &str, instance_id: &str) -> (resource:
    Resource)
    ensures
        resource_entries(resource) == resource_entries(*base).union_prefer_right(
            attribute_map(service_attributes_of(version@, instance_id@)),
        ),
{
    merge(base, &resource_of(service_attributes(version, instance_id)))
}

/// The attributes of this service on top of those of a resource.
pub open spec fn service_entries(base: Resource, version: Seq<char>, instance_id: Seq<char>) -> Map<
    Seq<char>,
    Seq<char>,
> {
    resource_entries(base).union_prefer_right(
        attribute_map(service_attributes_of(version, instance_id)),
    )
}

/// Whether the attributes are this service's on top of what the SDK and the environment
/// said of the process.
pub open spec fn is_service_resource(
    entries: Map<Seq<char>, Seq<char>>,
    version: Seq<char>,
    instance_id: Seq<char>,
) -> bool {
    exists|base: DefaultResource|
        describes_process(resource_entries(base@)) && entries == #[trigger] service_entries(
            base@,
            version,
            instance_id,
        )
}

/// The resource that spans are reported with: what the SDK and the environment say of
/// the process, overridden by this service's attributes. What they said is handed back
/// with it.
pub fn service_resource(version: &str, instance_id: &str) -> (r: (Resource, DefaultResource))
    ensures
        describes_process(resource_entries(r.1@)),
        resource_entries(r.0) == service_entries(r.1@, version@, instance_id@),
        is_service_resource(resource_entries(r.0), version@, instance_id@),
{
    let base = default_resource();
    let resource = with_service_attributes(base.resource(), version, instance_id);
    assert(resource_entries(resource) == service_entries(base@, version@, instance_id@));
    (resource, base)
}

/// Whatever the SDK and the environment say, the service reports its own name,
/// version and instance id; every other attribute stays as they say.
pub proof fn law_service_attributes_override(
    base: Map<Seq<char>, Seq<char>>,
    version: Seq<char>,
    instance_id: Seq<char>,
    key: Seq<char>,
)
    ensures
        ({
            let merged = base.union_prefer_right(
                attribute_map(service_attributes_of(version, instance_id)),
            );
            &&& merged.contains_pair("service.name"@, SERVICE_NAME@)
            &&& merged.contains_pair("service.version"@, version)
            &&& merged.contains_pair("service.instance.id"@, instance_id)
            &&& key != "service.name"@ && key != "service.version"@ && key
                != "service.instance.id"@ ==> {
                &&& merged.contains_key(key) <==> base.contains_key(key)
                &&& base.contains_key(key) ==> merged[key] == base[key]
            }
        }),
{
    reveal_strlit("service.name");
    reveal_strlit("service.version");
    reveal_strlit("service.instance.id");
    reveal_with_fuel(attribute_map, 4);
    assert("service.version"@.len() != "service.instance.id"@.len());
}

/// The attributes as texts are the attributes, key and value each, in their order.
pub proof fn law_attributes_view(attributes: Seq<(String, String)>)
    ensures
        attributes_view(attributes).len() == attributes.len(),
        forall|i: int|
            0 <= i < attributes.len() ==> #[trigger] attributes_view(attributes)[i] == (
                attributes[i].0@,
                attributes[i].1@,
            ),
{
}

/// On top of any resource this service sets its name, which is `vllm-router`, its version
/// and its instance id, and leaves every other attribute as it is.
pub proof fn law_service_attributes_set(
    base: &Resource,
    version: &str,
    instance_id: &str,
    resource: Resource,
    key: Seq<char>,
)
    requires
        call_ensures(with_service_attributes, (base, version, instance_id), resource),
    ensures
        resource_entries(resource).contains_pair("service.name"@, "vllm-router"@),
        resource_entries(resource).contains_pair("service.version"@, version@),
        resource_entries(resource).contains_pair("service.instance.id"@, instance_id@),
        key != "service.name"@ && key != "service.version"@ && key != "service.instance.id"@ ==> {
            &&& resource_entries(resource).contains_key(key) <==> resource_entries(
                *base,
            ).contains_key(key)
            &&& resource_entries(*base).contains_key(key) ==> resource_entries(resource)[key]
                == resource_entries(*base)[key]
        },
{
    law_service_attributes_override(resource_entries(*base), version@, instance_id@, key);
}

/// A resource of this service holds its name, version and instance id, and under every
/// other key what one default resource of the process holds, the SDK's name, language
/// and version among it.
pub proof fn law_service_resource_extends_the_default_one(
    entries: Map<Seq<char>, Seq<char>>,
    version: Seq<char>,
    instance_id: Seq<char>,
)
    requires
        is_service_resource(entries, version, instance_id),
    ensures
        entries.contains_pair("service.name"@, "vllm-router"@),
        entries.contains_pair("service.version"@, version),
        entries.contains_pair("service.instance.id"@, instance_id),
        entries.contains_key("telemetry.sdk.name"@),
        entries.contains_key("telemetry.sdk.language"@),
        entries.contains_key("telemetry.sdk.version"@),
        exists|base: DefaultResource| #[trigger]
            service_entries(base@, version, instance_id) == entries && forall|key: Seq<char>|
                key != "service.name"@ && key != "service.version"@ && key
                    != "service.instance.id"@ ==> {
                    &&& #[trigger] entries.contains_key(key) <==> resource_entries(
                        base@,
                    ).contains_key(key)
                    &&& resource_entries(base@).contains_key(key) ==> entries[key]
                        == resource_entries(base@)[key]
                },
{
    let base = choose|base: DefaultResource|
        describes_process(resource_entries(base@)) && entries == #[trigger] service_entries(
            base@,
            version,
            instance_id,
        );
    assert forall|key: Seq<char>|
        key != "service.name"@ && key != "service.version"@ && key
            != "service.instance.id"@ implies {
        &&& #[trigger] entries.contains_key(key) <==> resource_entries(base@).contains_key(key)
        &&& resource_entries(base@).contains_key(key) ==> entries[key] == resource_entries(
            base@,
        )[key]
    } by {
        law_service_attributes_override(resource_entries(base@), version, instance_id, key);
    }
    law_service_attributes_override(resource_entries(base@), version, instance_id, version);
    reveal_strlit("service.name");
    reveal_strlit("service.version");
    reveal_strlit("service.instance.id");
    reveal_strlit("telemetry.sdk.name");
    reveal_strlit("telemetry.sdk.language");
    reveal_strlit("telemetry.sdk.version");
    assert("telemetry.sdk.name"@[0] != "service.name"@[0]);
    assert("telemetry.sdk.language"@[0] != "service.name"@[0]);
    assert("telemetry.sdk.version"@[0] != "service.name"@[0]);
    assert("service.version"@[0] == "service.name"@[0]);
    assert("service.instance.id"@[0] == "service.name"@[0]);
    assert(entries.contains_key("telemetry.sdk.name"@));
    assert(entries.contains_key("telemetry.sdk.language"@));
    assert(entries.contains_key("telemetry.sdk.version"@));
}

} // verus!
