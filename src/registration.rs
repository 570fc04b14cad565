//! Describing the provider's entities and settling a registration call.
use vstd::prelude::*;
use crate::model::{BootstrapError, EndpointDescriptor, EntityDescriptor};

verus! {

/// The protocol of the provider's endpoints.
pub const GRPC_PROTOCOL: &'static str = "grpc";

/// The one operation that the provider's endpoints offer.
pub const OPERATION_GET: &'static str = "Get";

/// The scheme put before the listen address to form the provider's URI.
pub const HTTP_SCHEME: &'static str = "http://";

/// What the registration call came to.
#[derive(Clone, Debug, PartialEq, Eq)]
pub enum RegisterOutcome {
    /// No connection to the registry could be made; the transport's message.
    Unreachable(String),
    /// The registry refused or failed the call; the remote status message.
    Rejected(String),
    /// The registry took the whole batch.
    Accepted,
}

/// What a registration call with `outcome` means for the bootstrap.
pub open spec fn registration_result(outcome: RegisterOutcome) -> Result<(), BootstrapError> {
    match outcome {
        RegisterOutcome::Unreachable(msg) => Err(BootstrapError::ConnectionError(msg)),
        RegisterOutcome::Rejected(msg) => Err(BootstrapError::RegistrationError(msg)),
        RegisterOutcome::Accepted => Ok(()),
    }
}

/// The single endpoint under which an entity with context `context` is
/// reached at `uri`: gRPC, offering `Get` alone.
pub open spec fn is_get_endpoint(e: EndpointDescriptor, uri: Seq<char>, context: Seq<char>) -> bool {
    &&& e.protocol@ == GRPC_PROTOCOL@
    &&& e.operations@.len() == 1
    &&& e.operations@[0]@ == OPERATION_GET@
    &&& e.uri@ == uri
    &&& e.context@ == context
}

/// The URI under which the provider is reached from outside.
pub fn provider_uri(authority: &str) -> (r: String)
    ensures
        r@ == HTTP_SCHEME@ + authority@,
{
    String::from_str(HTTP_SCHEME).concat(authority)
}

/// Describes the entity `id` for the registry, reachable at `provider_uri`
/// through one gRPC endpoint that offers `Get` and carries the entity's id as
/// its context.
pub fn describe_entity(id: &str, name: &str, description: &str, provider_uri: &str) -> (r:
    EntityDescriptor)
    ensures
        r.id@ == id@,
        r.name@ == name@,
        r.description@ == description@,
        r.endpoints@.len() == 1,
        is_get_endpoint(r.endpoints@[0], provider_uri@, id@),
{
    let endpoint = EndpointDescriptor {
        protocol: String::from_str(GRPC_PROTOCOL),
        operations: vec![String::from_str(OPERATION_GET)],
        uri: String::from_str(provider_uri),
        context: String::from_str(id),
    };
    EntityDescriptor {
        id: String::from_str(id),
        name: String::from_str(name),
        description: String::from_str(description),
        endpoints: vec![endpoint],
    }
}

/// Settles the call that registers the provider's entities: success only
/// when the registry took the batch.
pub fn register_entity(outcome: RegisterOutcome) -> (r: Result<(), BootstrapError>)
    ensures
        r == registration_result(outcome),
{
    match outcome {
        RegisterOutcome::Unreachable(msg) => Err(BootstrapError::ConnectionError(msg)),
        RegisterOutcome::Rejected(msg) => Err(BootstrapError::RegistrationError(msg)),
        RegisterOutcome::Accepted => Ok(()),
    }
}

} // verus!
