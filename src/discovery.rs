//! Resolving a service identity to the URI of a compatible service.
use vstd::prelude::*;
use crate::model::{BootstrapError, DiscoveredService, ServiceIdentity};

verus! {

/// The lookup key sent to the broker.
#[derive(Clone, Debug, PartialEq, Eq)]
pub struct DiscoverRequest {
    pub namespace: String,
    pub name: String,
    pub version: String,
}

/// What one lookup at the broker came to.
#[derive(Clone, Debug, PartialEq, Eq)]
pub enum DiscoverOutcome {
    /// No connection to the broker could be made; the transport's message.
    Unreachable(String),
    /// The lookup call failed; the remote status message.
    CallFailed(String),
    /// The broker answered, with `None` when it knows no such service.
    Answered(Option<DiscoveredService>),
}

/// The request that looks `id` up: its namespace, name and version.
pub open spec fn request_for(id: ServiceIdentity) -> DiscoverRequest {
    DiscoverRequest { namespace: id.namespace, name: id.name, version: id.version }
}

/// A discovered service is usable only when both its communication kind and
/// its communication reference are the ones expected.
pub open spec fn transport_matches(id: ServiceIdentity, service: DiscoveredService) -> bool {
    &&& service.communication_kind@ == id.communication_kind@
    &&& service.communication_reference@ == id.communication_reference@
}

/// What a lookup for `id` resolves to.
pub open spec fn resolution(id: ServiceIdentity, outcome: DiscoverOutcome) -> Result<String, BootstrapError> {
    match outcome {
        DiscoverOutcome::Unreachable(msg) => Err(BootstrapError::ConnectionError(msg)),
        DiscoverOutcome::CallFailed(msg) => Err(BootstrapError::LookupError(msg)),
        DiscoverOutcome::Answered(None) => Err(BootstrapError::NotFoundError),
        DiscoverOutcome::Answered(Some(service)) => if transport_matches(id, service) {
            Ok(service.uri)
        } else {
            Err(BootstrapError::MismatchError)
        },
    }
}

/// Builds the request that looks `id` up at the broker.
pub fn discover_request(id: &ServiceIdentity) -> (r: DiscoverRequest)
    ensures
        r == request_for(*id),
{
    DiscoverRequest {
        namespace: id.namespace.clone(),
        name: id.name.clone(),
        version: id.version.clone(),
    }
}

/// Checks the broker's answer against the transport that `id` expects:
/// no service is `NotFoundError`, a service that differs in its kind or in its
/// reference is `MismatchError`, and a matching one gives its URI unchanged.
pub fn check_discovered(id: &ServiceIdentity, service: Option<DiscoveredService>) -> (r: Result<
    String,
    BootstrapError,
>)
    ensures
        r == resolution(*id, DiscoverOutcome::Answered(service)),
{
    match service {
        None => Err(BootstrapError::NotFoundError),
        Some(s) => {
            if s.communication_kind == id.communication_kind
                && s.communication_reference == id.communication_reference {
                Ok(s.uri)
            } else {
                Err(BootstrapError::MismatchError)
            }
        },
    }
}

/// Settles a lookup of `id` at the Chariott service-discovery broker, given
/// what the connection and the call came to: the registry's URI, or the
/// reason why there is none.
pub fn discover_service_using_chariott(id: &ServiceIdentity, outcome: DiscoverOutcome) -> (r:
    Result<String, BootstrapError>)
    ensures
        r == resolution(*id, outcome),
{
    match outcome {
        DiscoverOutcome::Unreachable(msg) => Err(BootstrapError::ConnectionError(msg)),
        DiscoverOutcome::CallFailed(msg) => Err(BootstrapError::LookupError(msg)),
        DiscoverOutcome::Answered(service) => check_discovered(id, service),
    }
}

/// Whatever the identity, a broker that knows no service gives
/// `NotFoundError`, never a URI.
pub proof fn lemma_absent_service_not_found(id: ServiceIdentity)
    ensures
        resolution(id, DiscoverOutcome::Answered(None)) == Err::<String, BootstrapError>(
            BootstrapError::NotFoundError,
        ),
{
}

/// A service that differs from the expected transport in its kind, in its
/// reference, or in both, is rejected with `MismatchError`.
pub proof fn lemma_mismatch_rejected(id: ServiceIdentity, service: DiscoveredService)
    requires
        service.communication_kind@ != id.communication_kind@
            || service.communication_reference@ != id.communication_reference@,
    ensures
        resolution(id, DiscoverOutcome::Answered(Some(service))) == Err::<String, BootstrapError>(
            BootstrapError::MismatchError,
        ),
{
}

/// A service that matches both the expected kind and the expected reference
/// resolves to its own URI, unchanged.
pub proof fn lemma_matching_service_keeps_uri(id: ServiceIdentity, service: DiscoveredService)
    requires
        service.communication_kind@ == id.communication_kind@,
        service.communication_reference@ == id.communication_reference@,
    ensures
        resolution(id, DiscoverOutcome::Answered(Some(service))) == Ok::<String, BootstrapError>(
            service.uri,
        ),
{
}

} // verus!
