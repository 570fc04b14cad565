//! Plain data exchanged with the discovery broker and the registry.
use vstd::prelude::*;

verus! {

/// The lookup key of a service at the discovery broker, together with the
/// transport that the caller expects the service to speak.
#[derive(Clone, Debug, PartialEq, Eq)]
pub struct ServiceIdentity {
    pub namespace: String,
    pub name: String,
    pub version: String,
    pub communication_kind: String,
    pub communication_reference: String,
}

/// A service as the discovery broker reports it.
#[derive(Clone, Debug, PartialEq, Eq)]
pub struct DiscoveredService {
    pub uri: String,
    pub communication_kind: String,
    pub communication_reference: String,
}

/// One way of reaching an entity: the protocol, the operations it offers,
/// where it listens and the context to pass along.
#[derive(Clone, Debug, PartialEq, Eq)]
pub struct EndpointDescriptor {
    pub protocol: String,
    pub operations: Vec<String>,
    pub uri: String,
    pub context: String,
}

/// A capability published to the registry, with its endpoints in order.
#[derive(Clone, Debug, PartialEq, Eq)]
pub struct EntityDescriptor {
    pub id: String,
    pub name: String,
    pub description: String,
    pub endpoints: Vec<EndpointDescriptor>,
}

/// Why a bootstrap stopped. Every one of these is fatal to the process.
#[derive(Clone, Debug, PartialEq, Eq)]
pub enum BootstrapError {
    /// The local address could not be bound.
    ListenError(String),
    /// The broker or the registry could not be reached.
    ConnectionError(String),
    /// The lookup call at the broker failed.
    LookupError(String),
    /// The broker knows no service under the identity asked for.
    NotFoundError,
    /// The broker's service speaks another transport than the one expected.
    MismatchError,
    /// The registry refused or failed the registration call.
    RegistrationError(String),
}

} // verus!
