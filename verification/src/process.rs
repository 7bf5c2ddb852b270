//! What the process says of itself.
//!
//! The types of this module have no public constructor: a [`CurrentRuntime`] is always
//! the answer of `current_runtime`, and a [`DefaultResource`] always that of
//! `default_resource`.

use crate::resource::{describes_process, resource_entries};
use opentelemetry_sdk::Resource;
use tokio::runtime::Handle;
use vstd::prelude::*;

verus! {

/// A handle to a Tokio runtime.
#[verifier::external_type_specification]
#[verifier::external_body]
pub struct ExHandle(tokio::runtime::Handle);

/// The Tokio runtime that a thread was in, if any.
pub struct CurrentRuntime {
    handle: Option<Handle>,
}

impl View for CurrentRuntime {
    type V = Option<Handle>;

    closed spec fn view(&self) -> Option<Handle> {
        self.handle
    }
}

impl CurrentRuntime {
    /// A handle to the runtime, where there is one.
    pub fn handle(&self) -> (handle: Option<&Handle>)
        ensures
            handle is Some <==> self@ is Some,
            handle matches Some(handle) ==> *handle == self@->0,
    {
        match &self.handle {
            Some(handle) => Some(handle),
            None => None,
        }
    }
}

/// What the SDK and the environment said of the process.
pub struct DefaultResource {
    resource: Resource,
}

impl View for DefaultResource {
    type V = Resource;

    closed spec fn view(&self) -> Resource {
        self.resource
    }
}

impl DefaultResource {
    /// The resource.
    pub fn resource(&self) -> (resource: &Resource)
        ensures
            *resource == self@,
    {
        &self.resource
    }
}

/// `Handle::try_current`: the Tokio runtime that the calling thread is in, if any.
/// Which one that is depends on the thread, so nothing is said of it.
#[verifier::external_body]
pub(crate) fn current_runtime() -> CurrentRuntime {
    CurrentRuntime { handle: Handle::try_current().ok() }
}

/// `Resource::default`: what the SDK and the environment say of the process. It always
/// has the attributes of [`describes_process`]. Nothing is said of their values nor of
/// further attributes, since environment variables come into both.
#[verifier::external_body]
pub(crate) fn default_resource() -> (base: DefaultResource)
    ensures
        describes_process(resource_entries(base@)),
{
    DefaultResource { resource: Resource::default() }
}

} // verus!
