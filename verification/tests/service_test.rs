use opentelemetry::{Key, KeyValue, Value};
use opentelemetry_sdk::Resource;
use otel_trace::resource::{service_attributes, with_service_attributes};
use otel_trace::{exporter_endpoint, hostname_keys, service_instance_id, service_resource};

fn set(text: &str) -> Option<String> {
    Some(text.to_string())
}

fn text(resource: &Resource, key: &'static str) -> Option<String> {
    resource.get(Key::new(key)).map(|value: Value| value.to_string())
}

#[test]
fn hostname_variables_are_consulted_in_order() {
    assert_eq!(hostname_keys(), vec!["HOSTNAME", "HOST", "COMPUTERNAME"]);
    assert_eq!(service_instance_id(&[set("a"), set("b"), set("c")], 42), "a-42");
    assert_eq!(service_instance_id(&[None, set("b"), set("c")], 42), "b-42");
    assert_eq!(service_instance_id(&[None, None, set("c")], 42), "c-42");
}

#[test]
fn empty_hostname_is_skipped() {
    assert_eq!(service_instance_id(&[set(""), set("b"), None], 7), "b-7");
    assert_eq!(service_instance_id(&[set(""), set(""), set("")], 7), "pid-7");
}

#[test]
fn instance_without_hostname_is_named_by_pid() {
    assert_eq!(service_instance_id(&[None, None, None], 31337), "pid-31337");
    assert_eq!(service_instance_id(&[], 0), "pid-0");
}

#[test]
fn instance_ids_differ_by_host_and_pid() {
    let id = service_instance_id(&[set("node-1")], 23);
    assert_eq!(id, "node-1-23");
    assert_ne!(id, service_instance_id(&[set("node")], 23));
    assert_ne!(id, service_instance_id(&[set("node-1")], 24));
}

#[test]
fn endpoint_gets_a_scheme() {
    assert_eq!(exporter_endpoint(Some("localhost:4317")), set("http://localhost:4317"));
    assert_eq!(exporter_endpoint(Some("http://collector:4317")), set("http://collector:4317"));
    assert_eq!(exporter_endpoint(Some("https://collector:4317")), set("https://collector:4317"));
    assert_eq!(exporter_endpoint(Some("HTTP://collector")), set("http://HTTP://collector"));
    assert_eq!(exporter_endpoint(Some("http:/collector")), set("http://http:/collector"));
    assert_eq!(exporter_endpoint(Some("")), set("http://"));
    assert_eq!(exporter_endpoint(None), None);
}

#[test]
fn completing_an_endpoint_twice_is_completing_it_once() {
    let once = exporter_endpoint(Some("collector:4317")).unwrap();
    assert_eq!(exporter_endpoint(Some(&once)), Some(once.clone()));
}

#[test]
fn service_attributes_are_name_version_and_instance() {
    assert_eq!(
        service_attributes("1.2.3", "host-9"),
        vec![
            ("service.name".to_string(), "vllm-router".to_string()),
            ("service.version".to_string(), "1.2.3".to_string()),
            ("service.instance.id".to_string(), "host-9".to_string()),
        ]
    );
}

#[test]
fn service_resource_extends_the_default_one() {
    let (resource, base) = service_resource("1.2.3", "host-9");
    assert_eq!(text(&resource, "service.name"), set("vllm-router"));
    assert_eq!(text(&resource, "service.version"), set("1.2.3"));
    assert_eq!(text(&resource, "service.instance.id"), set("host-9"));
    assert_eq!(text(&resource, "telemetry.sdk.language"), set("rust"));
    assert_eq!(text(&resource, "telemetry.sdk.name"), set("opentelemetry"));
    assert!(text(&resource, "telemetry.sdk.version").is_some());
    let rebuilt = with_service_attributes(base.resource(), "1.2.3", "host-9");
    assert_eq!(rebuilt, resource);
    assert_ne!(*base.resource(), resource);
}

#[test]
fn service_attributes_override_the_base() {
    let base = Resource::new(vec![
        KeyValue::new("service.name", "unknown_service"),
        KeyValue::new("deployment", "blue"),
    ]);
    let resource = with_service_attributes(&base, "0.1", "pid-1");
    assert_eq!(resource.len(), 4);
    assert_eq!(text(&resource, "service.name"), set("vllm-router"));
    assert_eq!(text(&resource, "deployment"), set("blue"));
    let bare = with_service_attributes(&Resource::empty(), "0.1", "pid-1");
    assert_eq!(bare.len(), 3);
}
