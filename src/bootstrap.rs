//! The bootstrap sequencer: listen, discover the registry, register the
//! provider's entities, then serve. Each step's outside work (binding, the
//! lookup, the registration call) is done by the caller, which hands back
//! what came of it as an event.
use vstd::prelude::*;
use crate::discovery::{
    discover_request, discover_service_using_chariott, request_for, resolution, DiscoverOutcome,
    DiscoverRequest,
};
use crate::model::{BootstrapError, EntityDescriptor, ServiceIdentity};
use crate::registration::{register_entity, registration_result, RegisterOutcome};

verus! {

/// Where the provider listens, where the broker is, and which registry to
/// look for there.
#[derive(Clone, Debug, PartialEq, Eq)]
pub struct BootstrapConfig {
    pub broker_uri: String,
    pub registry: ServiceIdentity,
    pub provider_authority: String,
}

/// Where the bootstrap stands.
#[derive(Clone, Debug, PartialEq, Eq)]
pub enum Phase {
    Idle,
    Listening,
    Discovering,
    /// The registry was found at this URI.
    Discovered(String),
    Registering,
    Ready,
    Failed(BootstrapError),
}

/// What the caller reports back after doing the work of an action.
#[derive(Clone, Debug, PartialEq, Eq)]
pub enum Event {
    /// Begin the bootstrap.
    Start,
    /// The local address is bound and connections are accepted.
    Bound,
    /// The local address could not be bound.
    BindFailed(String),
    /// What the lookup at the broker came to.
    Discovery(DiscoverOutcome),
    /// Go on from a discovered registry.
    Proceed,
    /// What the registration call came to.
    Registration(RegisterOutcome),
}

/// The work that the caller is to do next.
#[derive(Clone, Debug, PartialEq, Eq)]
pub enum Action {
    /// Bind this local address and start accepting connections.
    Listen(String),
    /// Send this lookup to the broker at `broker_uri`.
    Discover { broker_uri: String, request: DiscoverRequest },
    /// Report `Event::Proceed`.
    Continue,
    /// Register these entities, in one call, with the registry at `registry_uri`.
    Register { registry_uri: String, entities: Vec<EntityDescriptor> },
    /// The provider is registered: serve until told to stop.
    Serve,
    /// The bootstrap failed for good: the process ends with a non-zero status.
    Abort,
    /// The event does not apply where the bootstrap stands: nothing to do.
    Nothing,
}

/// A sequencer's state: its configuration, its phase, and the entities that
/// are still to be registered.
pub struct SequencerModel {
    pub config: BootstrapConfig,
    pub phase: Phase,
    pub batch: Option<Vec<EntityDescriptor>>,
}

/// Drives one bootstrap of the provider.
pub struct Sequencer {
    config: BootstrapConfig,
    phase: Phase,
    batch: Option<Vec<EntityDescriptor>>,
}

impl View for Sequencer {
    type V = SequencerModel;

    closed spec fn view(&self) -> SequencerModel {
        SequencerModel { config: self.config, phase: self.phase, batch: self.batch }
    }
}

/// The entities are still held until registration is asked for, and only then
/// handed out.
pub open spec fn well_formed(m: SequencerModel) -> bool {
    match m.phase {
        Phase::Idle | Phase::Listening | Phase::Discovering | Phase::Discovered(_) => m.batch is Some,
        Phase::Registering | Phase::Ready => m.batch is None,
        Phase::Failed(_) => true,
    }
}

/// One step of the bootstrap: the state after `event` and the action asked of
/// the caller.
pub open spec fn next(m: SequencerModel, event: Event) -> (SequencerModel, Action) {
    match (m.phase, event) {
        (Phase::Idle, Event::Start) => (
            SequencerModel { phase: Phase::Listening, ..m },
            Action::Listen(m.config.provider_authority),
        ),
        (Phase::Listening, Event::Bound) => (
            SequencerModel { phase: Phase::Discovering, ..m },
            Action::Discover {
                broker_uri: m.config.broker_uri,
                request: request_for(m.config.registry),
            },
        ),
        (Phase::Listening, Event::BindFailed(msg)) => (
            SequencerModel { phase: Phase::Failed(BootstrapError::ListenError(msg)), ..m },
            Action::Abort,
        ),
        (Phase::Discovering, Event::Discovery(outcome)) => match resolution(
            m.config.registry,
            outcome,
        ) {
            Ok(uri) => (SequencerModel { phase: Phase::Discovered(uri), ..m }, Action::Continue),
            Err(e) => (SequencerModel { phase: Phase::Failed(e), ..m }, Action::Abort),
        },
        (Phase::Discovered(uri), Event::Proceed) => match m.batch {
            Some(entities) => (
                SequencerModel { phase: Phase::Registering, batch: None, ..m },
                Action::Register { registry_uri: uri, entities },
            ),
            None => (m, Action::Nothing),
        },
        (Phase::Registering, Event::Registration(outcome)) => match registration_result(outcome) {
            Ok(_) => (SequencerModel { phase: Phase::Ready, ..m }, Action::Serve),
            Err(e) => (SequencerModel { phase: Phase::Failed(e), ..m }, Action::Abort),
        },
        _ => (m, Action::Nothing),
    }
}

impl Sequencer {
    /// A sequencer that has not started, holding the entities to register.
    pub fn new(config: BootstrapConfig, entities: Vec<EntityDescriptor>) -> (r: Sequencer)
        ensures
            r@ == (SequencerModel { config, phase: Phase::Idle, batch: Some(entities) }),
            well_formed(r@),
    {
        Sequencer { config, phase: Phase::Idle, batch: Some(entities) }
    }

    /// Where the bootstrap stands.
    pub fn phase(&self) -> (r: &Phase)
        ensures
            *r == self@.phase,
    {
        &self.phase
    }

    /// The configuration that the sequencer was made with.
    pub fn config(&self) -> (r: &BootstrapConfig)
        ensures
            *r == self@.config,
    {
        &self.config
    }

    /// Takes the bootstrap one step on from `event`, and says what to do next.
    pub fn step(&mut self, event: Event) -> (r: Action)
        requires
            well_formed(old(self)@),
        ensures
            (final(self)@, r) == next(old(self)@, event),
            well_formed(final(self)@),
    {
        let mut phase = Phase::Idle;
        std::mem::swap(&mut phase, &mut self.phase);
        match phase {
            Phase::Idle => match event {
                Event::Start => {
                    self.phase = Phase::Listening;
                    Action::Listen(self.config.provider_authority.clone())
                },
                _ => Action::Nothing,
            },
            Phase::Listening => match event {
                Event::Bound => {
                    self.phase = Phase::Discovering;
                    Action::Discover {
                        broker_uri: self.config.broker_uri.clone(),
                        request: discover_request(&self.config.registry),
                    }
                },
                Event::BindFailed(msg) => {
                    self.phase = Phase::Failed(BootstrapError::ListenError(msg));
                    Action::Abort
                },
                _ => {
                    self.phase = Phase::Listening;
                    Action::Nothing
                },
            },
            Phase::Discovering => match event {
                Event::Discovery(outcome) => {
                    match discover_service_using_chariott(&self.config.registry, outcome) {
                        Ok(uri) => {
                            self.phase = Phase::Discovered(uri);
                            Action::Continue
                        },
                        Err(e) => {
                            self.phase = Phase::Failed(e);
                            Action::Abort
                        },
                    }
                },
                _ => {
                    self.phase = Phase::Discovering;
                    Action::Nothing
                },
            },
            Phase::Discovered(uri) => match event {
                Event::Proceed => {
                    match self.batch.take() {
                        Some(entities) => {
                            self.phase = Phase::Registering;
                            Action::Register { registry_uri: uri, entities }
                        },
                        None => {
                            self.phase = Phase::Discovered(uri);
                            Action::Nothing
                        },
                    }
                },
                _ => {
                    self.phase = Phase::Discovered(uri);
                    Action::Nothing
                },
            },
            Phase::Registering => match event {
                Event::Registration(outcome) => match register_entity(outcome) {
                    Ok(()) => {
                        self.phase = Phase::Ready;
                        Action::Serve
                    },
                    Err(e) => {
                        self.phase = Phase::Failed(e);
                        Action::Abort
                    },
                },
                _ => {
                    self.phase = Phase::Registering;
                    Action::Nothing
                },
            },
            Phase::Ready => {
                self.phase = Phase::Ready;
                Action::Nothing
            },
            Phase::Failed(e) => {
                self.phase = Phase::Failed(e);
                Action::Nothing
            },
        }
    }
}

} // verus!
